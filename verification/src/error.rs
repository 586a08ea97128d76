//! Errors of model loading and inference, and the messages they are shown with.

use vstd::prelude::*;

use crate::text::{self, push_bracketed, push_decimal};

verus! {

/// The outputs that a model may produce.
#[derive(Clone, Copy, PartialEq, Eq, Debug, Structural)]
pub enum OutputName {
    /// One row of action logits per environment.
    PolicyLogits,
    /// One value per environment.
    Value,
    /// One row of health-difference bucket logits per environment.
    Health,
}

impl OutputName {
    /// The name under which a model exports the output.
    pub open spec fn text(self) -> Seq<char> {
        match self {
            OutputName::PolicyLogits => "policy_logits"@,
            OutputName::Value => "value"@,
            OutputName::Health => "health"@,
        }
    }

    /// The name under which a model exports the output.
    pub fn as_text(self) -> (r: &'static str)
        ensures
            r@ == self.text(),
    {
        match self {
            OutputName::PolicyLogits => "policy_logits",
            OutputName::Value => "value",
            OutputName::Health => "health",
        }
    }
}

/// Why a batch could not be evaluated.
#[derive(Debug)]
pub enum EvaluatorError {
    /// The policy output has no action dimension.
    MissingActionDim,
    /// The value output does not hold one value per environment.
    ValueLength { len: usize, batch: usize },
    /// The policy rows or the values do not match the batch.
    RowCount { rows: usize, values: usize, batch: usize },
    /// Flat logits do not cover the batch.
    ShortLogits { len: usize, needed: u128 },
    /// A row holds fewer logits than are kept of it.
    ShortRow { row: usize, len: usize, kept: usize },
    /// A TorchScript forward pass failed.
    TorchForward { detail: String },
    /// A TorchScript model returned something else than a tuple.
    TorchNotTuple,
    /// A TorchScript model returned a tuple of unexpected length.
    TorchTupleLength { len: usize },
    /// An element of a TorchScript tuple is not a tensor.
    TorchNotTensor { output: OutputName },
    /// An element of a TorchScript tuple is missing.
    TorchMissingOutput { output: OutputName },
    /// The TorchScript policy output has no action dimension.
    TorchMissingActionDim,
    /// The TorchScript health output has no bucket dimension.
    TorchHealthDim,
    /// The elements of a TorchScript output could not be read.
    TorchExtract { output: OutputName, detail: String },
    /// A TorchScript output does not cover the batch.
    TorchShortOutput { output: OutputName, len: usize, needed: u128 },
    /// The board tensor could not be built.
    OnnxBoardTensor { detail: String },
    /// The scalars tensor could not be built.
    OnnxScalarsTensor { detail: String },
    /// The lock of a session is poisoned.
    OnnxSessionPoisoned { detail: String },
    /// An ONNX forward pass failed.
    OnnxRun { detail: String },
    /// An ONNX model lacks an output.
    OnnxMissingOutput { output: OutputName },
    /// The shape of an ONNX output could not be extracted.
    OnnxExtract { output: OutputName, detail: String },
    /// The data of an ONNX output could not be extracted.
    OnnxExtractTensor { detail: String },
    /// An ONNX output has too few dimensions.
    OnnxOutputDim { output: OutputName, shape: Vec<usize> },
    /// An ONNX output does not cover the batch.
    OnnxShortOutput { output: OutputName, len: usize, needed: u128 },
}

impl EvaluatorError {
    /// The message that describes the error.
    pub open spec fn text(self) -> Seq<char> {
        match self {
            EvaluatorError::MissingActionDim => "模型 policy 输出缺少动作维度"@,
            EvaluatorError::ValueLength { len, batch } => "模型 value 输出长度 "@
                + text::decimal(len as nat) + " 与 batch "@ + text::decimal(
                batch as nat,
            ) + " 不符"@,
            EvaluatorError::RowCount { rows, values, batch } => "模型输出行数 "@
                + text::decimal(rows as nat) + " / value 长度 "@ + text::decimal(
                values as nat,
            ) + " 与 batch "@ + text::decimal(batch as nat) + " 不符"@,
            EvaluatorError::ShortLogits { len, needed } => "模型 logits 元素数 "@ + text::decimal(
                len as nat,
            ) + " 少于 "@ + text::decimal(needed as nat),
            EvaluatorError::ShortRow { row, len, kept } => "模型输出第 "@ + text::decimal(
                row as nat,
            ) + " 行长度 "@ + text::decimal(len as nat) + " 少于 "@ + text::decimal(kept as nat),
            EvaluatorError::TorchForward { detail } => "TorchScript 前向失败: "@ + detail@,
            EvaluatorError::TorchNotTuple =>
                "TorchScript 输出应为 tuple(policy_logits[, health], value)"@,
            EvaluatorError::TorchTupleLength { len } =>
                "TorchScript 输出 tuple 长度应为 2 或 3，实际 "@ + text::decimal(len as nat),
            EvaluatorError::TorchNotTensor { output } => "TorchScript 输出 "@ + output.text()
                + " 不是 Tensor"@,
            EvaluatorError::TorchMissingOutput { output } => "TorchScript 输出缺少 "@
                + output.text(),
            EvaluatorError::TorchMissingActionDim => "TorchScript policy 输出缺少动作维度"@,
            EvaluatorError::TorchHealthDim => "TorchScript health 输出维度不足"@,
            EvaluatorError::TorchExtract { output, detail } => "提取 TorchScript 输出 "@
                + output.text() + " 失败: "@ + detail@,
            EvaluatorError::TorchShortOutput { output, len, needed } => "TorchScript 输出 "@
                + output.text() + " 元素数 "@ + text::decimal(len as nat) + " 少于 "@
                + text::decimal(needed as nat),
            EvaluatorError::OnnxBoardTensor { detail } => "构建 board 张量失败: "@ + detail@,
            EvaluatorError::OnnxScalarsTensor { detail } => "构建 scalars 张量失败: "@ + detail@,
            EvaluatorError::OnnxSessionPoisoned { detail } => "ONNX 会话锁中毒: "@ + detail@,
            EvaluatorError::OnnxRun { detail } => "ONNX 推理失败: "@ + detail@,
            EvaluatorError::OnnxMissingOutput { output } => "ONNX 输出缺少 "@ + output.text(),
            EvaluatorError::OnnxExtract { output, detail } => "提取输出 "@ + output.text()
                + " 失败: "@ + detail@,
            EvaluatorError::OnnxExtractTensor { detail } => "提取输出张量失败: "@ + detail@,
            EvaluatorError::OnnxOutputDim { output, shape } => "输出 "@ + output.text()
                + " 维度不足: "@ + text::bracketed(shape@),
            EvaluatorError::OnnxShortOutput { output, len, needed } => "输出 "@ + output.text()
                + " 元素数 "@ + text::decimal(len as nat) + " 少于 "@ + text::decimal(needed as nat),
        }
    }

    /// The message that describes the error.
    pub fn message(&self) -> (r: String)
        ensures
            r@ == self.text(),
    {
        let mut out = String::new();
        match self {
            EvaluatorError::MissingActionDim => {
                out.append("模型 policy 输出缺少动作维度");
            },
            EvaluatorError::ValueLength { len, batch } => {
                out.append("模型 value 输出长度 ");
                push_decimal(&mut out, *len as u128);
                out.append(" 与 batch ");
                push_decimal(&mut out, *batch as u128);
                out.append(" 不符");
            },
            EvaluatorError::RowCount { rows, values, batch } => {
                out.append("模型输出行数 ");
                push_decimal(&mut out, *rows as u128);
                out.append(" / value 长度 ");
                push_decimal(&mut out, *values as u128);
                out.append(" 与 batch ");
                push_decimal(&mut out, *batch as u128);
                out.append(" 不符");
            },
            EvaluatorError::ShortLogits { len, needed } => {
                out.append("模型 logits 元素数 ");
                push_decimal(&mut out, *len as u128);
                out.append(" 少于 ");
                push_decimal(&mut out, *needed);
            },
            EvaluatorError::ShortRow { row, len, kept } => {
                out.append("模型输出第 ");
                push_decimal(&mut out, *row as u128);
                out.append(" 行长度 ");
                push_decimal(&mut out, *len as u128);
                out.append(" 少于 ");
                push_decimal(&mut out, *kept as u128);
            },
            EvaluatorError::TorchForward { detail } => {
                out.append("TorchScript 前向失败: ");
                out.append(detail.as_str());
            },
            EvaluatorError::TorchNotTuple => {
                out.append("TorchScript 输出应为 tuple(policy_logits[, health], value)");
            },
            EvaluatorError::TorchTupleLength { len } => {
                out.append("TorchScript 输出 tuple 长度应为 2 或 3，实际 ");
                push_decimal(&mut out, *len as u128);
            },
            EvaluatorError::TorchNotTensor { output } => {
                out.append("TorchScript 输出 ");
                out.append(output.as_text());
                out.append(" 不是 Tensor");
            },
            EvaluatorError::TorchMissingOutput { output } => {
                out.append("TorchScript 输出缺少 ");
                out.append(output.as_text());
            },
            EvaluatorError::TorchMissingActionDim => {
                out.append("TorchScript policy 输出缺少动作维度");
            },
            EvaluatorError::TorchHealthDim => {
                out.append("TorchScript health 输出维度不足");
            },
            EvaluatorError::TorchExtract { output, detail } => {
                out.append("提取 TorchScript 输出 ");
                out.append(output.as_text());
                out.append(" 失败: ");
                out.append(detail.as_str());
            },
            EvaluatorError::TorchShortOutput { output, len, needed } => {
                out.append("TorchScript 输出 ");
                out.append(output.as_text());
                out.append(" 元素数 ");
                push_decimal(&mut out, *len as u128);
                out.append(" 少于 ");
                push_decimal(&mut out, *needed);
            },
            EvaluatorError::OnnxBoardTensor { detail } => {
                out.append("构建 board 张量失败: ");
                out.append(detail.as_str());
            },
            EvaluatorError::OnnxScalarsTensor { detail } => {
                out.append("构建 scalars 张量失败: ");
                out.append(detail.as_str());
            },
            EvaluatorError::OnnxSessionPoisoned { detail } => {
                out.append("ONNX 会话锁中毒: ");
                out.append(detail.as_str());
            },
            EvaluatorError::OnnxRun { detail } => {
                out.append("ONNX 推理失败: ");
                out.append(detail.as_str());
            },
            EvaluatorError::OnnxMissingOutput { output } => {
                out.append("ONNX 输出缺少 ");
                out.append(output.as_text());
            },
            EvaluatorError::OnnxExtract { output, detail } => {
                out.append("提取输出 ");
                out.append(output.as_text());
                out.append(" 失败: ");
                out.append(detail.as_str());
            },
            EvaluatorError::OnnxExtractTensor { detail } => {
                out.append("提取输出张量失败: ");
                out.append(detail.as_str());
            },
            EvaluatorError::OnnxOutputDim { output, shape } => {
                out.append("输出 ");
                out.append(output.as_text());
                out.append(" 维度不足: ");
                push_bracketed(&mut out, shape.as_slice());
            },
            EvaluatorError::OnnxShortOutput { output, len, needed } => {
                out.append("输出 ");
                out.append(output.as_text());
                out.append(" 元素数 ");
                push_decimal(&mut out, *len as u128);
                out.append(" 少于 ");
                push_decimal(&mut out, *needed);
            },
        }
        out
    }
}

/// Why a model could not be loaded.
#[derive(Debug)]
pub enum LoadError {
    /// A TorchScript file could not be loaded.
    Torch { detail: String },
    /// An ONNX session on the CPU could not be built.
    Onnx { path: String, detail: String },
    /// An NNUE weight file could not be loaded.
    Nnue { path: String, detail: String },
}

impl LoadError {
    /// The message that describes the error.
    pub open spec fn text(self) -> Seq<char> {
        match self {
            LoadError::Torch { detail } => "模型加载失败: "@ + detail@,
            LoadError::Onnx { path, detail } => "加载 ONNX 模型失败 ("@ + path@ + "): "@ + detail@,
            LoadError::Nnue { path, detail } => "加载 NNUE 权重文件失败 "@ + path@ + ": "@ + detail@,
        }
    }

    /// The message that describes the error.
    pub fn message(&self) -> (r: String)
        ensures
            r@ == self.text(),
    {
        let mut out = String::new();
        match self {
            LoadError::Torch { detail } => {
                out.append("模型加载失败: ");
                out.append(detail.as_str());
            },
            LoadError::Onnx { path, detail } => {
                out.append("加载 ONNX 模型失败 (");
                out.append(path.as_str());
                out.append("): ");
                out.append(detail.as_str());
            },
            LoadError::Nnue { path, detail } => {
                out.append("加载 NNUE 权重文件失败 ");
                out.append(path.as_str());
                out.append(": ");
                out.append(detail.as_str());
            },
        }
        out
    }
}

/// A message that has a detail ends with it, whatever the detail is: what stands before it is the
/// message without one.
pub proof fn law_messages_end_with_their_detail(
    detail: String,
    nothing: String,
    output: OutputName,
    path: String,
)
    requires
        nothing@.len() == 0,
    ensures
        (EvaluatorError::TorchForward { detail }).text() == (EvaluatorError::TorchForward {
            detail: nothing,
        }).text() + detail@,
        (EvaluatorError::TorchExtract { output, detail }).text() == (EvaluatorError::TorchExtract {
            output,
            detail: nothing,
        }).text() + detail@,
        (EvaluatorError::OnnxBoardTensor { detail }).text() == (EvaluatorError::OnnxBoardTensor {
            detail: nothing,
        }).text() + detail@,
        (EvaluatorError::OnnxScalarsTensor { detail }).text() == (
        EvaluatorError::OnnxScalarsTensor { detail: nothing }).text() + detail@,
        (EvaluatorError::OnnxSessionPoisoned { detail }).text() == (
        EvaluatorError::OnnxSessionPoisoned { detail: nothing }).text() + detail@,
        (EvaluatorError::OnnxRun { detail }).text() == (EvaluatorError::OnnxRun {
            detail: nothing,
        }).text() + detail@,
        (EvaluatorError::OnnxExtract { output, detail }).text() == (EvaluatorError::OnnxExtract {
            output,
            detail: nothing,
        }).text() + detail@,
        (EvaluatorError::OnnxExtractTensor { detail }).text() == (
        EvaluatorError::OnnxExtractTensor { detail: nothing }).text() + detail@,
        (LoadError::Torch { detail }).text() == (LoadError::Torch { detail: nothing }).text()
            + detail@,
        (LoadError::Onnx { path, detail }).text() == (LoadError::Onnx {
            path,
            detail: nothing,
        }).text() + detail@,
        (LoadError::Nnue { path, detail }).text() == (LoadError::Nnue {
            path,
            detail: nothing,
        }).text() + detail@,
{
    assert(nothing@ =~= Seq::<char>::empty());
    assert(detail@ =~= nothing@ + detail@);
    assert((EvaluatorError::TorchForward { detail }).text() =~= (EvaluatorError::TorchForward {
        detail: nothing,
    }).text() + detail@);
    assert((EvaluatorError::TorchExtract { output, detail }).text() =~= (
    EvaluatorError::TorchExtract { output, detail: nothing }).text() + detail@);
    assert((EvaluatorError::OnnxBoardTensor { detail }).text() =~= (
    EvaluatorError::OnnxBoardTensor { detail: nothing }).text() + detail@);
    assert((EvaluatorError::OnnxScalarsTensor { detail }).text() =~= (
    EvaluatorError::OnnxScalarsTensor { detail: nothing }).text() + detail@);
    assert((EvaluatorError::OnnxSessionPoisoned { detail }).text() =~= (
    EvaluatorError::OnnxSessionPoisoned { detail: nothing }).text() + detail@);
    assert((EvaluatorError::OnnxRun { detail }).text() =~= (EvaluatorError::OnnxRun {
        detail: nothing,
    }).text() + detail@);
    assert((EvaluatorError::OnnxExtract { output, detail }).text() =~= (
    EvaluatorError::OnnxExtract { output, detail: nothing }).text() + detail@);
    assert((EvaluatorError::OnnxExtractTensor { detail }).text() =~= (
    EvaluatorError::OnnxExtractTensor { detail: nothing }).text() + detail@);
    assert((LoadError::Torch { detail }).text() =~= (LoadError::Torch { detail: nothing }).text()
        + detail@);
    assert((LoadError::Onnx { path, detail }).text() =~= (LoadError::Onnx {
        path,
        detail: nothing,
    }).text() + detail@);
    assert((LoadError::Nnue { path, detail }).text() =~= (LoadError::Nnue {
        path,
        detail: nothing,
    }).text() + detail@);
}

/// A message about a file names it.
pub proof fn law_messages_name_the_file(path: String, detail: String)
    ensures
        (LoadError::Onnx { path, detail }).text() == "加载 ONNX 模型失败 ("@ + path@ + "): "@
            + detail@,
        (LoadError::Nnue { path, detail }).text() == "加载 NNUE 权重文件失败 "@ + path@ + ": "@
            + detail@,
{
}

/// A message about an output names it, by one of three names.
pub proof fn law_messages_name_the_output(output: OutputName, detail: String, shape: Vec<usize>)
    ensures
        OutputName::PolicyLogits.text() == "policy_logits"@,
        OutputName::Value.text() == "value"@,
        OutputName::Health.text() == "health"@,
        (EvaluatorError::TorchNotTensor { output }).text() == "TorchScript 输出 "@ + output.text()
            + " 不是 Tensor"@,
        (EvaluatorError::TorchMissingOutput { output }).text() == "TorchScript 输出缺少 "@
            + output.text(),
        (EvaluatorError::TorchExtract { output, detail }).text() == "提取 TorchScript 输出 "@
            + output.text() + " 失败: "@ + detail@,
        (EvaluatorError::OnnxMissingOutput { output }).text() == "ONNX 输出缺少 "@ + output.text(),
        (EvaluatorError::OnnxExtract { output, detail }).text() == "提取输出 "@ + output.text()
            + " 失败: "@ + detail@,
        (EvaluatorError::OnnxOutputDim { output, shape }).text() == "输出 "@ + output.text()
            + " 维度不足: "@ + text::bracketed(shape@),
{
}

/// A message about numbers gives them in decimal, all digits, each in its place.
pub proof fn law_messages_give_their_numbers(
    output: OutputName,
    a: usize,
    b: usize,
    c: usize,
    needed: u128,
)
    ensures
        (EvaluatorError::ValueLength { len: a, batch: b }).text() == "模型 value 输出长度 "@
            + text::decimal(a as nat) + " 与 batch "@ + text::decimal(b as nat) + " 不符"@,
        (EvaluatorError::RowCount { rows: a, values: b, batch: c }).text() == "模型输出行数 "@
            + text::decimal(a as nat) + " / value 长度 "@ + text::decimal(b as nat) + " 与 batch "@
            + text::decimal(c as nat) + " 不符"@,
        (EvaluatorError::ShortLogits { len: a, needed }).text() == "模型 logits 元素数 "@
            + text::decimal(a as nat) + " 少于 "@ + text::decimal(needed as nat),
        (EvaluatorError::ShortRow { row: a, len: b, kept: c }).text() == "模型输出第 "@
            + text::decimal(a as nat) + " 行长度 "@ + text::decimal(b as nat) + " 少于 "@
            + text::decimal(c as nat),
        (EvaluatorError::TorchTupleLength { len: a }).text()
            == "TorchScript 输出 tuple 长度应为 2 或 3，实际 "@ + text::decimal(a as nat),
        (EvaluatorError::TorchShortOutput { output, len: a, needed }).text() == "TorchScript 输出 "@
            + output.text() + " 元素数 "@ + text::decimal(a as nat) + " 少于 "@ + text::decimal(
            needed as nat,
        ),
        (EvaluatorError::OnnxShortOutput { output, len: a, needed }).text() == "输出 "@
            + output.text() + " 元素数 "@ + text::decimal(a as nat) + " 少于 "@ + text::decimal(
            needed as nat,
        ),
{
}

} // verus!
