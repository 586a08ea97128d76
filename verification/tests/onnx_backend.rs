use std::cell::RefCell;
use std::sync::Arc;

use banqi_engine::error::{EvaluatorError, LoadError, OutputName};
use banqi_engine::inference::batch::{
    BatchDims, EncodedEnv, EnvBatch, Evaluation, LeadEnv, NEG_INFINITY_BITS,
};
use banqi_engine::inference::forward::{ForwardInput, NamedTensor};
use banqi_engine::inference::onnx::{
    build_session, finish_onnx, intra_threads, prefers_gpu, raw_outputs, read_reply,
    session_index, Host, OnnxEvaluator, OnnxModel, Provider, SessionFailure,
};
use banqi_engine::inference::tensor::TensorData;
use banqi_engine::inference::torch::{assemble_output, TorchOutputs, TorchTensor};

fn tensor(shape: &[usize], data: &[u32]) -> TensorData {
    TensorData { shape: shape.to_vec(), data: data.to_vec() }
}

fn torch_tensor(t: &Result<TensorData, String>) -> TorchTensor {
    match t {
        Ok(t) => TorchTensor { shape: t.shape.clone(), data: Ok(t.data.clone()) },
        Err(e) => TorchTensor { shape: vec![2, 2], data: Err(e.clone()) },
    }
}

fn host(cores: usize, cuda: bool) -> Host {
    Host { cores, cuda }
}

fn dims(batch: usize) -> BatchDims {
    BatchDims { batch, channels: 1, rows: 1, cols: 2, scalars: 1 }
}

fn input() -> ForwardInput {
    ForwardInput {
        board: NamedTensor { name: "board", shape: vec![2, 1, 1, 2], data: vec![1, 2, 3, 4] },
        scalars: NamedTensor { name: "scalars", shape: vec![2, 1], data: vec![5, 6] },
    }
}

fn pool(sessions: usize) -> OnnxModel<usize> {
    let built = RefCell::new(0);
    OnnxModel::with_sessions("m.onnx", "cpu", sessions, host(8, false), |_, _| {
        let id: usize = *built.borrow();
        *built.borrow_mut() += 1;
        Ok(id)
    })
    .unwrap()
}

#[test]
fn only_two_device_names_ask_for_cuda() {
    assert!(prefers_gpu("cuda"));
    assert!(prefers_gpu("auto"));
    for device in ["cpu", "", "CUDA", "cuda:0", "gpu"] {
        assert!(!prefers_gpu(device));
    }
}

#[test]
fn cores_are_shared_out() {
    assert_eq!(intra_threads(12, 1), 12);
    assert_eq!(intra_threads(12, 5), 2);
    assert_eq!(intra_threads(12, 12), 1);
    assert_eq!(intra_threads(4, 12), 1);
    assert_eq!(intra_threads(0, 3), 1);
}

#[test]
fn tickets_go_round() {
    let served: Vec<usize> = (5..11).map(|ticket| session_index(ticket, 3)).collect();
    assert_eq!(served, vec![2, 0, 1, 2, 0, 1]);
}

#[test]
fn cuda_is_tried_first_and_given_up_on_failure() {
    let tried = RefCell::new(vec![]);
    let session = build_session("m.onnx", true, 4, &|provider: Provider, threads: usize| {
        tried.borrow_mut().push((provider, threads));
        match provider {
            Provider::Cuda => Err("no device".to_string()),
            Provider::Cpu => Ok("cpu session"),
        }
    });
    assert!(matches!(session, Ok("cpu session")));
    assert_eq!(*tried.borrow(), vec![(Provider::Cuda, 4), (Provider::Cpu, 4)]);

    let session =
        build_session("m.onnx", true, 4, &|provider: Provider, _: usize| Ok::<_, String>(provider));
    assert!(matches!(session, Ok(Provider::Cuda)));
    let session = build_session("m.onnx", false, 4, &|provider: Provider, _: usize| {
        Ok::<_, String>(provider)
    });
    assert!(matches!(session, Ok(Provider::Cpu)));
}

#[test]
fn cuda_is_left_alone_unless_asked_for_and_offered() {
    let cpu_only = |provider: Provider, threads: usize| match provider {
        Provider::Cuda => panic!("CUDA must not be tried"),
        Provider::Cpu => Ok::<_, String>(threads),
    };
    assert!(matches!(build_session("m.onnx", false, 4, &cpu_only), Ok(4)));
    for device in ["cpu", "CUDA", "", "cuda:0"] {
        let model = OnnxModel::new("m.onnx", device, host(8, true), cpu_only).unwrap();
        assert_eq!(model.model_path(), "m.onnx");
        assert_eq!(*model.session_for(0), 8);
        let pool = OnnxModel::with_sessions("m.onnx", device, 3, host(8, true), cpu_only).unwrap();
        assert_eq!(pool.session_count(), 3);
    }
    for device in ["cuda", "auto", "cpu"] {
        assert!(OnnxModel::new("m.onnx", device, host(8, false), cpu_only).is_ok());
    }
    let failed = OnnxModel::new("m.onnx", "cpu", host(8, true), |provider, _| match provider {
        Provider::Cuda => panic!("CUDA must not be tried"),
        Provider::Cpu => Err::<(), _>("no file".to_string()),
    });
    assert_eq!(failed.err().unwrap().message(), "加载 ONNX 模型失败 (m.onnx): no file");
}

#[test]
fn a_failure_on_the_cpu_names_the_file() {
    let session = build_session("m.onnx", true, 1, &|provider: Provider, _: usize| {
        Err::<(), String>(format!("{provider:?} failed"))
    });
    match session {
        Err(LoadError::Onnx { path, detail }) => {
            assert_eq!(path, "m.onnx");
            assert_eq!(detail, "Cpu failed");
        }
        _ => panic!("building has to fail"),
    }
}

#[test]
fn a_model_has_a_single_session_by_default() {
    let model =
        OnnxModel::new("m.onnx", "auto", host(8, true), |p, t| Ok::<_, String>((p, t))).unwrap();
    assert_eq!(model.session_count(), 1);
    assert_eq!(model.model_path(), "m.onnx");
    assert_eq!(*model.session_for(3), (Provider::Cuda, 8));
    let model =
        OnnxModel::new("m.onnx", "auto", host(8, false), |p, t| Ok::<_, String>((p, t))).unwrap();
    assert_eq!(*model.session_for(0), (Provider::Cpu, 8));
    let model =
        OnnxModel::new("m.onnx", "cpu", host(8, true), |p, t| Ok::<_, String>((p, t))).unwrap();
    assert_eq!(*model.session_for(0), (Provider::Cpu, 8));
}

#[test]
fn a_pool_shares_the_cores() {
    let model =
        OnnxModel::with_sessions("m.onnx", "cuda", 3, host(8, true), |p, t| Ok::<_, String>((p, t)))
            .unwrap();
    assert_eq!(model.session_count(), 3);
    for ticket in 0..3 {
        assert_eq!(*model.session_for(ticket), (Provider::Cuda, 2));
    }
}

#[test]
fn a_pool_fails_with_its_first_failure() {
    let built = RefCell::new(0);
    let r = OnnxModel::with_sessions("m.onnx", "cpu", 4, host(8, false), |_, _| {
        *built.borrow_mut() += 1;
        if *built.borrow() == 3 {
            Err("third".to_string())
        } else {
            Ok(())
        }
    });
    assert_eq!(r.err().unwrap().message(), "加载 ONNX 模型失败 (m.onnx): third");
    assert_eq!(*built.borrow(), 3);
}

#[test]
fn sessions_take_turns() {
    let model = pool(3);
    let mut served = vec![];
    for _ in 0..6 {
        let mut session = 99;
        let r = model.run(&[1, 2, 3, 4], &[5, 6], 2, 1, 1, 2, 1, |s: &usize, _: &ForwardInput| {
            session = *s;
            Err(SessionFailure::Run("stop".to_string()))
        });
        assert!(r.is_err());
        served.push(session);
    }
    assert_eq!(served, vec![0, 1, 2, 0, 1, 2]);
}

#[test]
fn a_run_names_and_shapes_its_inputs() {
    let r = pool(1).run(&[9], &[], 3, 16, 4, 8, 56, |_: &usize, given: &ForwardInput| {
        assert_eq!(given.board.name, "board");
        assert_eq!(given.board.shape, vec![3, 16, 4, 8]);
        assert_eq!(given.board.data, vec![9]);
        assert_eq!(given.scalars.name, "scalars");
        assert_eq!(given.scalars.shape, vec![3, 56]);
        assert!(given.scalars.data.is_empty());
        Err(SessionFailure::BoardTensor("1 element".to_string()))
    });
    assert!(matches!(r, Err(EvaluatorError::OnnxBoardTensor { .. })));
}

#[test]
fn a_run_splits_the_outputs() {
    let raw = pool(1)
        .run(&[1, 2, 3, 4], &[5, 6], 2, 1, 1, 2, 1, |_: &usize, given: &ForwardInput| {
            assert_eq!(*given, input());
            Ok(vec![
                Ok(tensor(&[2, 2], &[1, 2, 3, 4])),
                Ok(tensor(&[2, 1], &[7, 8])),
                Ok(tensor(&[2, 3], &[31, 32, 33, 34, 35, 36])),
                Err("a fourth output is not looked at".to_string()),
            ])
        })
        .unwrap();
    assert_eq!(raw.logits, vec![vec![1, 2], vec![3, 4]]);
    assert_eq!(raw.values, vec![7, 8]);
    assert_eq!(raw.health, Some(vec![vec![31, 32, 33], vec![34, 35, 36]]));
}

#[test]
fn two_outputs_have_no_health() {
    let raw =
        raw_outputs(vec![Ok(tensor(&[1, 2], &[1, 2])), Ok(tensor(&[1], &[7]))], 1).unwrap();
    assert_eq!(raw.health, None);
}

#[test]
fn surplus_elements_are_dropped() {
    let raw =
        raw_outputs(vec![Ok(tensor(&[3, 2], &[1, 2, 3, 4, 5])), Ok(tensor(&[3], &[7, 8, 9]))], 2)
            .unwrap();
    assert_eq!(raw.logits, vec![vec![1, 2], vec![3, 4]]);
    assert_eq!(raw.values, vec![7, 8]);
}

#[test]
fn outputs_have_to_cover_the_batch() {
    let policy = || Ok(tensor(&[2, 2], &[1, 2, 3, 4]));
    let value = || Ok(tensor(&[2], &[7, 8]));
    assert!(matches!(
        raw_outputs(vec![Ok(tensor(&[2, 2], &[1, 2, 3])), value()], 2),
        Err(EvaluatorError::OnnxShortOutput {
            output: OutputName::PolicyLogits,
            len: 3,
            needed: 4
        })
    ));
    assert!(matches!(
        raw_outputs(vec![policy(), Ok(tensor(&[1], &[7]))], 2),
        Err(EvaluatorError::ValueLength { len: 1, batch: 2 })
    ));
    assert!(matches!(
        raw_outputs(vec![policy(), value(), Ok(tensor(&[1, 3], &[1, 2, 3]))], 2),
        Err(EvaluatorError::OnnxShortOutput { output: OutputName::Health, len: 3, needed: 6 })
    ));
    assert!(matches!(
        raw_outputs(vec![Ok(tensor(&[2, usize::MAX], &[])), value()], 2),
        Err(EvaluatorError::OnnxShortOutput {
            output: OutputName::PolicyLogits,
            len: 0,
            ..
        })
    ));
}

#[test]
fn unreadable_outputs_are_reported() {
    let policy = || Ok(tensor(&[1, 2], &[1, 2]));
    let value = || Ok(tensor(&[1], &[7]));
    let bad = || Err("not a tensor".to_string());
    assert!(matches!(
        raw_outputs(vec![bad(), bad()], 1),
        Err(EvaluatorError::OnnxExtract { output: OutputName::PolicyLogits, .. })
    ));
    assert!(matches!(
        raw_outputs(vec![policy(), bad(), bad()], 1),
        Err(EvaluatorError::OnnxExtractTensor { .. })
    ));
    assert!(matches!(
        raw_outputs(vec![policy(), value(), bad()], 1),
        Err(EvaluatorError::OnnxExtract { output: OutputName::Health, .. })
    ));
    assert!(matches!(
        raw_outputs(vec![], 1),
        Err(EvaluatorError::OnnxMissingOutput { output: OutputName::PolicyLogits })
    ));
    assert!(matches!(
        raw_outputs(vec![policy()], 1),
        Err(EvaluatorError::OnnxMissingOutput { output: OutputName::Value })
    ));
}

#[test]
fn outputs_without_a_second_dimension_are_reported() {
    let value = || Ok(tensor(&[1], &[7]));
    let r = raw_outputs(vec![Ok(tensor(&[4], &[1, 2])), value()], 1);
    assert_eq!(r.unwrap_err().message(), "输出 policy_logits 维度不足: [4]");
    let r = raw_outputs(vec![Ok(tensor(&[1, 0], &[])), value()], 1);
    assert!(matches!(r, Err(EvaluatorError::MissingActionDim)));
    let r = raw_outputs(vec![Ok(tensor(&[1, 1], &[1])), value(), Ok(tensor(&[1, 0], &[]))], 1);
    assert_eq!(r.unwrap_err().message(), "输出 health 维度不足: [1, 0]");
}

#[test]
fn session_failures_are_told_apart() {
    let e = |failure| read_reply(Err(failure), 1).unwrap_err().message();
    assert_eq!(e(SessionFailure::BoardTensor("x".to_string())), "构建 board 张量失败: x");
    assert_eq!(e(SessionFailure::ScalarsTensor("x".to_string())), "构建 scalars 张量失败: x");
    assert_eq!(e(SessionFailure::Poisoned("x".to_string())), "ONNX 会话锁中毒: x");
    assert_eq!(e(SessionFailure::Run("x".to_string())), "ONNX 推理失败: x");
}

#[test]
fn an_empty_batch_needs_no_session() {
    let evaluator = OnnxEvaluator::new(Arc::new(pool(1)));
    let batch = EnvBatch { lead: None, envs: vec![] };
    let evaluation: Evaluation = evaluator
        .evaluate(&batch, |_: &usize, _: &ForwardInput| panic!("no session is due"))
        .unwrap();
    assert!(evaluation.output.logits.is_empty());
    assert!(evaluation.output.values.is_empty());
    assert_eq!(evaluation.output.health, None);
}

#[test]
fn a_batch_is_evaluated() {
    let evaluator = OnnxEvaluator::new(Arc::new(pool(2)));
    let batch = EnvBatch {
        lead: Some(LeadEnv { board_shape: vec![1, 1, 2], scalar_count: 1, action_space: 3 }),
        envs: vec![
            EncodedEnv { board: vec![1, 2], scalars: vec![5] },
            EncodedEnv { board: vec![3, 4], scalars: vec![6] },
        ],
    };
    let evaluation = evaluator
        .evaluate(&batch, |_: &usize, given: &ForwardInput| {
            assert_eq!(*given, input());
            Ok(vec![Ok(tensor(&[2, 2], &[1, 2, 3, 4])), Ok(tensor(&[2, 1], &[7, 8]))])
        })
        .unwrap();
    assert_eq!(
        evaluation.output.logits,
        vec![vec![1, 2, NEG_INFINITY_BITS], vec![3, 4, NEG_INFINITY_BITS]]
    );
    assert_eq!(evaluation.output.values, vec![7, 8]);
    let failed = evaluator.evaluate(&batch, |_: &usize, _: &ForwardInput| {
        Err(SessionFailure::Run("down".to_string()))
    });
    assert!(matches!(failed, Err(EvaluatorError::OnnxRun { .. })));
}

#[test]
fn both_backends_make_the_same_evaluation() {
    let bad = || Err("not a tensor".to_string());
    let policies = [
        Ok(tensor(&[2, 2], &[1, 2, 3, 4])),
        Ok(tensor(&[3, 2], &[1, 2, 3, 4, 5, 6])),
        Ok(tensor(&[2, 2], &[1, 2, 3])),
        Ok(tensor(&[4], &[1, 2, 3, 4])),
        Ok(tensor(&[2, 0], &[])),
        bad(),
    ];
    let values = [Ok(tensor(&[2], &[7, 8])), Ok(tensor(&[1], &[7])), Ok(tensor(&[0], &[])), bad()];
    let healths = [
        None,
        Some(Ok(tensor(&[2, 1], &[5, 6]))),
        Some(Ok(tensor(&[2, 2], &[5, 6]))),
        Some(Ok(tensor(&[2], &[5, 6]))),
        Some(bad()),
    ];
    let mut evaluated = 0;
    for policy in &policies {
        for value in &values {
            for health in &healths {
                for action_space in [1, 2, 5] {
                    let torch = assemble_output(
                        TorchOutputs {
                            policy_logits: torch_tensor(policy),
                            value: torch_tensor(value),
                            health: health.as_ref().map(torch_tensor),
                        },
                        &dims(2),
                        action_space,
                    );
                    let copy = |t: &Result<TensorData, String>| match t {
                        Ok(t) => Ok(tensor(&t.shape, &t.data)),
                        Err(e) => Err(e.clone()),
                    };
                    let mut outputs = vec![copy(policy), copy(value)];
                    outputs.extend(health.as_ref().map(copy));
                    let onnx = finish_onnx(Ok(outputs), 2, action_space);
                    match (torch, onnx) {
                        (Ok(a), Ok(b)) => {
                            assert_eq!(a, b);
                            evaluated += 1;
                        }
                        (Err(_), Err(_)) => {}
                        _ => panic!("only one back end made an evaluation"),
                    }
                }
            }
        }
    }
    assert_eq!(evaluated, 12);
}
