use std::sync::Arc;

use banqi_engine::engine::mcts_dl::{ModelWrapper, TchEvaluator};
use banqi_engine::error::{EvaluatorError, LoadError, OutputName};
use banqi_engine::inference::batch::{
    BatchDims, EncodedEnv, EnvBatch, LeadEnv, WidthMismatch, NEG_INFINITY_BITS,
};
use banqi_engine::inference::forward::{finish_torch, ForwardInput};
use banqi_engine::inference::torch::{
    assemble_output, pop_tensor, unwrap_outputs, Device, IValue, TorchOutputs, TorchTensor,
};
use banqi_engine::inference::torchscript::LocalEvaluator;

fn tensor(shape: &[usize], data: &[u32]) -> TorchTensor {
    TorchTensor { shape: shape.to_vec(), data: Ok(data.to_vec()) }
}

fn unreadable(shape: &[usize]) -> TorchTensor {
    TorchTensor { shape: shape.to_vec(), data: Err("kind mismatch".to_string()) }
}

fn dims(batch: usize) -> BatchDims {
    BatchDims { batch, channels: 1, rows: 1, cols: 2, scalars: 1 }
}

fn two_envs() -> EnvBatch {
    EnvBatch {
        lead: Some(LeadEnv { board_shape: vec![1, 1, 2], scalar_count: 1, action_space: 3 }),
        envs: vec![
            EncodedEnv { board: vec![10, 11], scalars: vec![12] },
            EncodedEnv { board: vec![20, 21], scalars: vec![22] },
        ],
    }
}

fn no_envs() -> EnvBatch {
    EnvBatch { lead: None, envs: vec![] }
}

fn reply() -> IValue<TorchTensor> {
    IValue::Tuple(vec![
        IValue::Tensor(tensor(&[2, 2], &[1, 2, 3, 4])),
        IValue::Tensor(tensor(&[2, 1], &[7, 8])),
    ])
}

#[test]
fn two_outputs_are_policy_and_value() {
    let outputs = unwrap_outputs(IValue::Tuple(vec![IValue::Tensor('p'), IValue::Tensor('v')]));
    let outputs = outputs.unwrap();
    assert_eq!(outputs.policy_logits, 'p');
    assert_eq!(outputs.value, 'v');
    assert_eq!(outputs.health, None);
}

#[test]
fn three_outputs_are_policy_health_and_value() {
    let outputs = unwrap_outputs(IValue::Tuple(vec![
        IValue::Tensor('p'),
        IValue::Tensor('h'),
        IValue::Tensor('v'),
    ]));
    let outputs = outputs.unwrap();
    assert_eq!(outputs.policy_logits, 'p');
    assert_eq!(outputs.value, 'v');
    assert_eq!(outputs.health, Some('h'));
}

#[test]
fn something_else_than_a_tuple_is_refused() {
    let r = unwrap_outputs(IValue::Tensor('p'));
    assert!(matches!(r, Err(EvaluatorError::TorchNotTuple)));
    let r = unwrap_outputs(IValue::<char>::Other);
    assert!(matches!(r, Err(EvaluatorError::TorchNotTuple)));
}

#[test]
fn other_tuple_lengths_are_refused() {
    let r = unwrap_outputs(IValue::Tuple(vec![IValue::Tensor('p')]));
    assert!(matches!(r, Err(EvaluatorError::TorchTupleLength { len: 1 })));
    let r = unwrap_outputs(IValue::Tuple(vec![
        IValue::Tensor('a'),
        IValue::Tensor('b'),
        IValue::Tensor('c'),
        IValue::Tensor('d'),
    ]));
    assert!(matches!(r, Err(EvaluatorError::TorchTupleLength { len: 4 })));
}

#[test]
fn the_last_fault_of_a_tuple_is_reported() {
    let r = unwrap_outputs(IValue::<char>::Tuple(vec![IValue::Other, IValue::Other]));
    assert!(matches!(r, Err(EvaluatorError::TorchNotTensor { output: OutputName::Value })));
    let r = unwrap_outputs(IValue::Tuple(vec![
        IValue::Other,
        IValue::Tuple(vec![]),
        IValue::Tensor('v'),
    ]));
    assert!(matches!(r, Err(EvaluatorError::TorchNotTensor { output: OutputName::Health })));
    let r = unwrap_outputs(IValue::Tuple(vec![IValue::Other, IValue::Tensor('v')]));
    assert!(matches!(r, Err(EvaluatorError::TorchNotTensor { output: OutputName::PolicyLogits })));
}

#[test]
fn nothing_can_be_taken_from_an_empty_tuple() {
    let mut places: Vec<IValue<char>> = vec![];
    let r = pop_tensor(&mut places, OutputName::Value);
    assert!(matches!(r, Err(EvaluatorError::TorchMissingOutput { output: OutputName::Value })));
    let mut places = vec![IValue::Tensor('a'), IValue::Tensor('b')];
    assert!(matches!(pop_tensor(&mut places, OutputName::Value), Ok('b')));
    assert_eq!(places.len(), 1);
}

#[test]
fn tensors_are_assembled() {
    let outputs = TorchOutputs {
        policy_logits: tensor(&[2, 2], &[1, 2, 3, 4]),
        value: tensor(&[2], &[7, 8]),
        health: Some(tensor(&[2, 3], &[31, 32, 33, 34, 35, 36])),
    };
    let evaluation = assemble_output(outputs, &dims(2), 3).unwrap();
    assert_eq!(
        evaluation.output.logits,
        vec![vec![1, 2, NEG_INFINITY_BITS], vec![3, 4, NEG_INFINITY_BITS]]
    );
    assert_eq!(evaluation.output.values, vec![7, 8]);
    assert_eq!(evaluation.output.health, Some(vec![vec![31, 32, 33], vec![34, 35, 36]]));
    assert_eq!(
        evaluation.width_mismatch,
        Some(WidthMismatch { model_action: 2, action_space: 3 })
    );
}

#[test]
fn elements_beyond_the_batch_are_ignored() {
    let outputs = TorchOutputs {
        policy_logits: tensor(&[2, 2], &[1, 2, 3, 4]),
        value: tensor(&[1], &[7]),
        health: None,
    };
    let evaluation = assemble_output(outputs, &dims(1), 2).unwrap();
    assert_eq!(evaluation.output.logits, vec![vec![1, 2]]);
    assert_eq!(evaluation.width_mismatch, None);
}

#[test]
fn a_policy_without_actions_is_refused() {
    for shape in [vec![], vec![2], vec![2, 0]] {
        let outputs = TorchOutputs {
            policy_logits: TorchTensor { shape, data: Ok(vec![]) },
            value: tensor(&[2], &[7, 8]),
            health: None,
        };
        let r = assemble_output(outputs, &dims(2), 2);
        assert!(matches!(r, Err(EvaluatorError::TorchMissingActionDim)));
    }
}

#[test]
fn a_health_head_without_buckets_is_refused() {
    let outputs = TorchOutputs {
        policy_logits: tensor(&[1, 2], &[1, 2]),
        value: tensor(&[1], &[7]),
        health: Some(tensor(&[1], &[5])),
    };
    assert!(matches!(assemble_output(outputs, &dims(1), 2), Err(EvaluatorError::TorchHealthDim)));
}

#[test]
fn short_tensors_are_refused() {
    let outputs = TorchOutputs {
        policy_logits: tensor(&[2, 2], &[1, 2, 3]),
        value: tensor(&[2], &[7, 8]),
        health: None,
    };
    let r = assemble_output(outputs, &dims(2), 2);
    assert!(matches!(
        r,
        Err(EvaluatorError::TorchShortOutput {
            output: OutputName::PolicyLogits,
            len: 3,
            needed: 4
        })
    ));
    let outputs = TorchOutputs {
        policy_logits: tensor(&[2, 2], &[1, 2, 3, 4]),
        value: tensor(&[2], &[7, 8]),
        health: Some(tensor(&[2, usize::MAX], &[1])),
    };
    let r = assemble_output(outputs, &dims(2), 2);
    assert!(matches!(
        r,
        Err(EvaluatorError::TorchShortOutput { output: OutputName::Health, len: 1, .. })
    ));
    let outputs = TorchOutputs {
        policy_logits: tensor(&[2, 2], &[1, 2, 3, 4]),
        value: tensor(&[1], &[7]),
        health: None,
    };
    let r = assemble_output(outputs, &dims(2), 2);
    assert!(matches!(r, Err(EvaluatorError::ValueLength { len: 1, batch: 2 })));
}

#[test]
fn more_values_than_environments_are_refused() {
    let outputs = TorchOutputs {
        policy_logits: tensor(&[2, 2], &[1, 2, 3, 4]),
        value: tensor(&[3], &[7, 8, 9]),
        health: None,
    };
    let r = assemble_output(outputs, &dims(2), 2);
    assert!(matches!(r, Err(EvaluatorError::ValueLength { len: 3, batch: 2 })));
}

#[test]
fn unreadable_tensors_are_reported() {
    let policy = || tensor(&[1, 2], &[1, 2]);
    let value = || tensor(&[1], &[7]);
    let outputs = TorchOutputs {
        policy_logits: unreadable(&[1, 2]),
        value: unreadable(&[1]),
        health: None,
    };
    let r = assemble_output(outputs, &dims(1), 2);
    assert!(matches!(r, Err(EvaluatorError::TorchExtract { output: OutputName::PolicyLogits, .. })));
    let outputs = TorchOutputs {
        policy_logits: policy(),
        value: unreadable(&[1]),
        health: Some(unreadable(&[1, 3])),
    };
    let r = assemble_output(outputs, &dims(1), 2);
    assert!(matches!(r, Err(EvaluatorError::TorchExtract { output: OutputName::Value, .. })));
    let outputs = TorchOutputs {
        policy_logits: policy(),
        value: value(),
        health: Some(unreadable(&[1, 3])),
    };
    let r = assemble_output(outputs, &dims(1), 2);
    assert_eq!(r.unwrap_err().message(), "提取 TorchScript 输出 health 失败: kind mismatch");
}

#[test]
fn a_refused_tuple_is_refused_whatever_its_tensors_hold() {
    let r = finish_torch(Ok(IValue::Tuple(vec![IValue::Tensor(unreadable(&[1]))])), &dims(1), 2);
    assert!(matches!(r, Err(EvaluatorError::TorchTupleLength { len: 1 })));
}

#[test]
fn a_failed_forward_pass_is_reported() {
    let r = finish_torch(Err("boom".to_string()), &dims(2), 3);
    assert_eq!(r.unwrap_err().message(), "TorchScript 前向失败: boom");
    assert!(finish_torch(Ok(reply()), &dims(2), 3).is_ok());
}

#[test]
fn modules_are_loaded_onto_the_processor() {
    let wrapper = ModelWrapper::load_from_file("net.pt", |path: &str| {
        assert_eq!(path, "net.pt");
        Ok::<i32, String>(42)
    })
    .unwrap();
    assert_eq!(*wrapper.module(), 42);
    assert_eq!(wrapper.get_device(), Device::Cpu);
}

#[test]
fn a_module_that_cannot_be_read_is_reported() {
    let r = ModelWrapper::<i32>::load_from_file("net.pt", |_: &str| Err("gone".to_string()));
    match r {
        Err(LoadError::Torch { detail }) => assert_eq!(detail, "gone"),
        _ => panic!("loading has to fail"),
    }
}

#[test]
fn an_empty_batch_needs_no_forward_pass() {
    let wrapper = ModelWrapper::from_loaded(Ok(1)).unwrap();
    let evaluator = TchEvaluator::new(Arc::new(wrapper));
    let evaluation = evaluator
        .evaluate(&no_envs(), |_: &ModelWrapper<i32>, _: &ForwardInput| {
            panic!("no forward pass is due")
        })
        .unwrap();
    assert!(evaluation.output.logits.is_empty());
    assert!(evaluation.output.values.is_empty());
    assert_eq!(evaluation.output.health, None);
    assert_eq!(evaluation.width_mismatch, None);
}

#[test]
fn a_batch_is_handed_to_the_module() {
    let wrapper = ModelWrapper::from_loaded(Ok(5)).unwrap();
    let evaluator = TchEvaluator::new(Arc::new(wrapper));
    let evaluation = evaluator
        .evaluate(&two_envs(), |model: &ModelWrapper<i32>, input: &ForwardInput| {
            assert_eq!(*model.module(), 5);
            assert_eq!(input.board.shape, vec![2, 1, 1, 2]);
            assert_eq!(input.board.data, vec![10, 11, 20, 21]);
            assert_eq!(input.scalars.shape, vec![2, 1]);
            assert_eq!(input.scalars.data, vec![12, 22]);
            Ok(reply())
        })
        .unwrap();
    assert_eq!(evaluation.output.logits[1], vec![3, 4, NEG_INFINITY_BITS]);
    assert_eq!(evaluation.output.values, vec![7, 8]);
}

#[test]
fn a_local_evaluator_keeps_its_module_and_device() {
    let evaluator = LocalEvaluator::new("net.pt", Device::Cuda(1), |path: &str| {
        Ok::<String, String>(path.to_uppercase())
    })
    .unwrap();
    assert_eq!(evaluator.get_device(), Device::Cuda(1));
    let r = evaluator.evaluate(&two_envs(), |local: &LocalEvaluator<String>, _: &ForwardInput| {
        assert_eq!(local.module(), "NET.PT");
        assert_eq!(local.get_device(), Device::Cuda(1));
        Ok(IValue::Other)
    });
    assert!(matches!(r, Err(EvaluatorError::TorchNotTuple)));
    let empty = evaluator.evaluate(&no_envs(), |_: &LocalEvaluator<String>, _: &ForwardInput| {
        panic!("no forward pass is due")
    });
    assert!(empty.unwrap().output.values.is_empty());
}

#[test]
fn a_local_evaluator_passes_read_errors_on() {
    let r = LocalEvaluator::<String>::new("net.pt", Device::Cpu, |_: &str| Err(17));
    assert!(matches!(r, Err(17)));
}
