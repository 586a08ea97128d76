use banqi_engine::error::{EvaluatorError, LoadError, OutputName};
use banqi_engine::text::{push_bracketed, push_decimal};

fn text(s: &str) -> String {
    s.to_string()
}

#[test]
fn numbers_are_written_in_decimal() {
    for n in [0u128, 7, 10, 99, 100, 1234567890, u64::MAX as u128, u128::MAX] {
        let mut out = text("n=");
        push_decimal(&mut out, n);
        assert_eq!(out, format!("n={n}"));
    }
}

#[test]
fn lists_are_written_in_brackets() {
    for list in [vec![], vec![3], vec![2, 0], vec![10, 20, 30]] {
        let mut out = String::new();
        push_bracketed(&mut out, &list);
        assert_eq!(out, format!("{list:?}"));
    }
}

#[test]
fn evaluator_errors_have_their_messages() {
    let cases: Vec<(EvaluatorError, &str)> = vec![
        (EvaluatorError::MissingActionDim, "模型 policy 输出缺少动作维度"),
        (
            EvaluatorError::ValueLength { len: 3, batch: 12 },
            "模型 value 输出长度 3 与 batch 12 不符",
        ),
        (
            EvaluatorError::RowCount { rows: 1, values: 2, batch: 30 },
            "模型输出行数 1 / value 长度 2 与 batch 30 不符",
        ),
        (EvaluatorError::ShortLogits { len: 5, needed: 6 }, "模型 logits 元素数 5 少于 6"),
        (
            EvaluatorError::ShortRow { row: 1, len: 20, kept: 352 },
            "模型输出第 1 行长度 20 少于 352",
        ),
        (EvaluatorError::TorchForward { detail: text("boom") }, "TorchScript 前向失败: boom"),
        (
            EvaluatorError::TorchNotTuple,
            "TorchScript 输出应为 tuple(policy_logits[, health], value)",
        ),
        (
            EvaluatorError::TorchTupleLength { len: 4 },
            "TorchScript 输出 tuple 长度应为 2 或 3，实际 4",
        ),
        (
            EvaluatorError::TorchNotTensor { output: OutputName::Health },
            "TorchScript 输出 health 不是 Tensor",
        ),
        (
            EvaluatorError::TorchMissingOutput { output: OutputName::PolicyLogits },
            "TorchScript 输出缺少 policy_logits",
        ),
        (EvaluatorError::TorchMissingActionDim, "TorchScript policy 输出缺少动作维度"),
        (EvaluatorError::TorchHealthDim, "TorchScript health 输出维度不足"),
        (
            EvaluatorError::TorchExtract { output: OutputName::Value, detail: text("kind") },
            "提取 TorchScript 输出 value 失败: kind",
        ),
        (
            EvaluatorError::TorchShortOutput { output: OutputName::PolicyLogits, len: 5, needed: 6 },
            "TorchScript 输出 policy_logits 元素数 5 少于 6",
        ),
        (EvaluatorError::OnnxBoardTensor { detail: text("a") }, "构建 board 张量失败: a"),
        (EvaluatorError::OnnxScalarsTensor { detail: text("b") }, "构建 scalars 张量失败: b"),
        (EvaluatorError::OnnxSessionPoisoned { detail: text("c") }, "ONNX 会话锁中毒: c"),
        (EvaluatorError::OnnxRun { detail: text("d") }, "ONNX 推理失败: d"),
        (
            EvaluatorError::OnnxMissingOutput { output: OutputName::Value },
            "ONNX 输出缺少 value",
        ),
        (
            EvaluatorError::OnnxExtract { output: OutputName::Health, detail: text("e") },
            "提取输出 health 失败: e",
        ),
        (EvaluatorError::OnnxExtractTensor { detail: text("f") }, "提取输出张量失败: f"),
        (
            EvaluatorError::OnnxOutputDim { output: OutputName::PolicyLogits, shape: vec![4] },
            "输出 policy_logits 维度不足: [4]",
        ),
        (
            EvaluatorError::OnnxShortOutput {
                output: OutputName::Health,
                len: 3,
                needed: 1 << 70,
            },
            "输出 health 元素数 3 少于 1180591620717411303424",
        ),
    ];
    for (error, message) in cases {
        assert_eq!(error.message(), message);
    }
}

#[test]
fn load_errors_have_their_messages() {
    assert_eq!(LoadError::Torch { detail: text("x") }.message(), "模型加载失败: x");
    assert_eq!(
        LoadError::Onnx { path: text("m.onnx"), detail: text("x") }.message(),
        "加载 ONNX 模型失败 (m.onnx): x"
    );
    assert_eq!(
        LoadError::Nnue { path: text("w.nnue"), detail: text("x") }.message(),
        "加载 NNUE 权重文件失败 w.nnue: x"
    );
}
