use std::sync::Arc;

use banqi_engine::engine::mcts_dl::{choose_action_once, MctsDlPolicy, ModelWrapper};
use banqi_engine::engine::search::{
    clamp_iterations, search_settings, selected_action, SearchResult, SearchSettings,
};
use banqi_engine::inference::onnx::{
    onnx_choose_action_once, Host, OnnxMctsPolicy, OnnxModel,
};
use banqi_engine::nnue::{NnueEngine, NnueEngineExt};

fn module() -> Arc<ModelWrapper<&'static str>> {
    Arc::new(ModelWrapper::from_loaded(Ok("net")).unwrap())
}

fn model() -> Arc<OnnxModel<&'static str>> {
    let host = Host { cores: 2, cuda: false };
    Arc::new(OnnxModel::new("m.onnx", "cpu", host, |_, _| Ok("session")).unwrap())
}

#[test]
fn a_search_has_fixed_settings_but_for_its_simulations() {
    let settings = search_settings(64);
    assert_eq!(settings.num_simulations, 64);
    assert_eq!(settings.max_considered_actions, 16);
    assert_eq!(f32::from_bits(settings.c_scale), 1.0);
    assert_eq!(f32::from_bits(settings.gumbel_scale), 1.0);
}

#[test]
fn the_outcome_of_a_search_is_its_action() {
    assert_eq!(selected_action::<()>(Ok(Some(SearchResult { action: 31 }))), Ok(Some(31)));
    assert_eq!(selected_action::<()>(Ok(None)), Ok(None));
    assert_eq!(selected_action(Err("failed")), Err("failed"));
}

#[test]
fn iterations_are_one_at_least() {
    assert_eq!(clamp_iterations(0), 1);
    assert_eq!(clamp_iterations(1), 1);
    assert_eq!(clamp_iterations(800), 800);
}

#[test]
fn the_torch_policy_searches_with_its_module() {
    let mut policy = MctsDlPolicy::new(module(), &'e', 100);
    for (set, expected) in [(None, 100), (Some(0), 1), (Some(7), 7)] {
        if let Some(sims) = set {
            policy.set_iterations(sims);
        }
        let r = policy.choose_action(
            &'e',
            |model: &Arc<ModelWrapper<&'static str>>, env: &char, settings: SearchSettings| {
                assert_eq!(*model.module(), "net");
                assert_eq!(*env, 'e');
                assert_eq!(settings, search_settings(expected));
                Ok::<_, String>(Some(SearchResult { action: 12 }))
            },
        );
        assert_eq!(r, Ok(Some(12)));
    }
}

#[test]
fn the_onnx_policy_searches_with_its_model() {
    let mut policy = OnnxMctsPolicy::new(model(), &'e', 100);
    for (set, expected) in [(None, 100), (Some(0), 1), (Some(7), 7)] {
        if let Some(sims) = set {
            policy.set_iterations(sims);
        }
        let r = policy.choose_action(
            &'e',
            |model: &Arc<OnnxModel<&'static str>>, env: &char, settings: SearchSettings| {
                assert_eq!(model.model_path(), "m.onnx");
                assert_eq!(*env, 'e');
                assert_eq!(settings, search_settings(expected));
                Ok::<_, String>(None)
            },
        );
        assert_eq!(r, Ok(None));
    }
}

#[test]
fn a_failed_search_is_passed_on() {
    let r = choose_action_once(
        &module(),
        &'e',
        3,
        |_: &Arc<ModelWrapper<&'static str>>, _: &char, _: SearchSettings| Err("down"),
    );
    assert_eq!(r, Err("down"));
    let r = onnx_choose_action_once(
        &model(),
        &'e',
        3,
        |_: &Arc<OnnxModel<&'static str>>, _: &char, _: SearchSettings| Err("down"),
    );
    assert_eq!(r, Err("down"));
}

#[test]
fn an_engine_is_built_from_a_weight_file() {
    let engine = NnueEngine::from_nnue_file("w.nnue", |path: &str| {
        Ok::<usize, String>(path.len())
    })
    .unwrap();
    assert_eq!(*engine.into_evaluator(), 6);
    let shared = Arc::new(5);
    assert_eq!(*NnueEngine::with_nnue(shared).into_evaluator(), 5);
}

#[test]
fn a_weight_file_that_cannot_be_read_is_named() {
    let r = NnueEngine::<usize>::from_nnue_file("w.nnue", |_: &str| Err("truncated".to_string()));
    assert_eq!(r.err().unwrap().message(), "加载 NNUE 权重文件失败 w.nnue: truncated");
}
