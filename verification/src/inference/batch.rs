//! What every back end shares: batch dimensions, feature encoding and output alignment.
//!
//! Features, logits and values are single-precision numbers. They are only moved here, never
//! computed with, so they are held by their bit patterns.

use vstd::prelude::*;

use crate::error::EvaluatorError;
use crate::inference::tensor::{self, split_chunks, wide_product};
use crate::text::{self, push_decimal};

verus! {

/// The bit pattern of a single-precision number.
pub type FloatBits = u32;

/// The bit pattern of negative infinity, which fills logits that a model does not provide.
pub const NEG_INFINITY_BITS: FloatBits = 0xff80_0000;

/// The extents of a batch of features.
#[derive(Clone, Copy, PartialEq, Eq, Debug, Structural)]
pub struct BatchDims {
    pub batch: usize,
    pub channels: usize,
    pub rows: usize,
    pub cols: usize,
    pub scalars: usize,
}

/// What is read of the first environment of a batch: the shape of its board observation, the
/// number of its scalar features and the size of its action space.
#[derive(PartialEq, Eq, Debug)]
pub struct LeadEnv {
    pub board_shape: Vec<usize>,
    pub scalar_count: usize,
    pub action_space: usize,
}

/// The flat features of one environment.
#[derive(PartialEq, Eq, Debug)]
pub struct EncodedEnv {
    pub board: Vec<FloatBits>,
    pub scalars: Vec<FloatBits>,
}

/// A batch of environments: the features of each, and what is read of the first.
#[derive(PartialEq, Eq, Debug)]
pub struct EnvBatch {
    pub lead: Option<LeadEnv>,
    pub envs: Vec<EncodedEnv>,
}

impl EnvBatch {
    /// A batch has a first environment exactly when it is not empty, and the board observation
    /// of that environment has channels, rows and columns.
    pub open spec fn well_formed(&self) -> bool {
        &&& self.lead is Some <==> self.envs@.len() > 0
        &&& self.lead matches Some(lead) ==> lead.board_shape@.len() >= 3
    }
}

/// The evaluation of a batch: per environment a row of logits and a value, and, where the model
/// has such a head, a row of health-difference bucket logits.
#[derive(PartialEq, Eq, Debug)]
pub struct EvaluatorOutput {
    pub logits: Vec<Vec<FloatBits>>,
    pub values: Vec<FloatBits>,
    pub health: Option<Vec<Vec<FloatBits>>>,
}

/// The contents of an [`EvaluatorOutput`].
#[verifier::ext_equal]
pub struct OutputModel {
    pub logits: Seq<Seq<FloatBits>>,
    pub values: Seq<FloatBits>,
    pub health: Option<Seq<Seq<FloatBits>>>,
}

/// The contents of a list of rows.
pub open spec fn rows_view(rows: Seq<Vec<FloatBits>>) -> Seq<Seq<FloatBits>> {
    Seq::new(rows.len(), |i: int| rows[i]@)
}

/// The contents of an optional list of rows.
pub open spec fn optional_rows_view(rows: Option<Vec<Vec<FloatBits>>>) -> Option<
    Seq<Seq<FloatBits>>,
> {
    match rows {
        Some(rows) => Some(rows_view(rows@)),
        None => None,
    }
}

impl View for EvaluatorOutput {
    type V = OutputModel;

    open spec fn view(&self) -> OutputModel {
        OutputModel {
            logits: rows_view(self.logits@),
            values: self.values@,
            health: optional_rows_view(self.health),
        }
    }
}

/// A model whose number of actions differs from the action space.
#[derive(Clone, Copy, PartialEq, Eq, Debug, Structural)]
pub struct WidthMismatch {
    pub model_action: usize,
    pub action_space: usize,
}

impl WidthMismatch {
    /// The notice that describes the mismatch.
    pub open spec fn text(self) -> Seq<char> {
        "⚠️ [evaluator] 模型动作维度 "@ + text::decimal(self.model_action as nat)
            + " 与环境动作空间 "@ + text::decimal(self.action_space as nat)
            + " 不一致：按 min 截断并补 -inf"@
    }

    /// The notice that describes the mismatch.
    pub fn message(&self) -> (r: String)
        ensures
            r@ == self.text(),
    {
        let mut out = String::new();
        out.append("⚠️ [evaluator] 模型动作维度 ");
        push_decimal(&mut out, self.model_action as u128);
        out.append(" 与环境动作空间 ");
        push_decimal(&mut out, self.action_space as u128);
        out.append(" 不一致：按 min 截断并补 -inf");
        out
    }
}

/// An output together with the notice that is due for it.
#[derive(PartialEq, Eq, Debug)]
pub struct Evaluation {
    pub output: EvaluatorOutput,
    pub width_mismatch: Option<WidthMismatch>,
}

/// The contents of an [`Evaluation`].
#[verifier::ext_equal]
pub struct EvaluationModel {
    pub output: OutputModel,
    pub width_mismatch: Option<WidthMismatch>,
}

impl View for Evaluation {
    type V = EvaluationModel;

    open spec fn view(&self) -> EvaluationModel {
        EvaluationModel { output: self.output@, width_mismatch: self.width_mismatch }
    }
}

/// The contents of the result of an evaluation.
pub open spec fn evaluation_view(r: Result<Evaluation, EvaluatorError>) -> Result<
    EvaluationModel,
    EvaluatorError,
> {
    match r {
        Ok(evaluation) => Ok(evaluation@),
        Err(e) => Err(e),
    }
}

/// The dimensions of a batch, as its first environment gives them.
pub open spec fn dims_of(batch: usize, lead: LeadEnv) -> BatchDims {
    BatchDims {
        batch,
        channels: lead.board_shape@[0],
        rows: lead.board_shape@[1],
        cols: lead.board_shape@[2],
        scalars: lead.scalar_count,
    }
}

/// The boards of a batch.
pub open spec fn board_rows(envs: Seq<EncodedEnv>) -> Seq<Seq<FloatBits>> {
    Seq::new(envs.len(), |i: int| envs[i].board@)
}

/// The scalars of a batch.
pub open spec fn scalar_rows(envs: Seq<EncodedEnv>) -> Seq<Seq<FloatBits>> {
    Seq::new(envs.len(), |i: int| envs[i].scalars@)
}

/// The output of an empty batch.
pub open spec fn empty_model() -> OutputModel {
    OutputModel { logits: Seq::empty(), values: Seq::empty(), health: None }
}

/// A row of `model_action` logits, cut or filled up with negative infinity to `action_space`.
pub open spec fn aligned_row(
    row: Seq<FloatBits>,
    model_action: usize,
    action_space: usize,
) -> Seq<FloatBits> {
    Seq::new(
        action_space as nat,
        |j: int|
            if j < model_action {
                row[j]
            } else {
                NEG_INFINITY_BITS
            },
    )
}

/// The notice that is due once `rows` rows have been aligned.
pub open spec fn mismatch_notice(
    rows: nat,
    model_action: usize,
    action_space: usize,
) -> Option<WidthMismatch> {
    if rows > 0 && model_action != action_space {
        Some(WidthMismatch { model_action, action_space })
    } else {
        None
    }
}

/// The evaluation of rows of logits, each of them aligned to the action space.
pub open spec fn aligned_evaluation(
    rows: Seq<Seq<FloatBits>>,
    model_action: usize,
    action_space: usize,
    values: Seq<FloatBits>,
    health: Option<Seq<Seq<FloatBits>>>,
) -> EvaluationModel {
    EvaluationModel {
        output: OutputModel {
            logits: Seq::new(
                rows.len(),
                |i: int| aligned_row(rows[i], model_action, action_space),
            ),
            values,
            health,
        },
        width_mismatch: mismatch_notice(rows.len(), model_action, action_space),
    }
}

/// The number of flat logits that a batch takes: all rows but the last in full, and of the last
/// one what is kept of it. A row has one logit at least.
pub open spec fn needed_logits(batch: usize, model_action: usize, action_space: usize) -> int {
    let kept = kept_logits(model_action, action_space);
    if batch == 0 {
        0
    } else if kept == 0 {
        (batch - 1) * model_action + 1
    } else {
        (batch - 1) * model_action + kept
    }
}

/// The evaluation that flat logits, values and health rows amount to.
pub open spec fn flat_evaluation(
    flat: Seq<FloatBits>,
    model_action: usize,
    batch: usize,
    action_space: usize,
    values: Seq<FloatBits>,
    health: Option<Seq<Seq<FloatBits>>>,
) -> Result<EvaluationModel, EvaluatorError> {
    if model_action == 0 {
        Err(EvaluatorError::MissingActionDim)
    } else if values.len() != batch {
        Err(EvaluatorError::ValueLength { len: values.len() as usize, batch })
    } else if flat.len() < needed_logits(batch, model_action, action_space) {
        Err(
            EvaluatorError::ShortLogits {
                len: flat.len() as usize,
                needed: needed_logits(batch, model_action, action_space) as u128,
            },
        )
    } else {
        Ok(
            aligned_evaluation(
                tensor::chunks_of(flat, model_action as nat, batch as nat),
                model_action,
                action_space,
                values,
                health,
            ),
        )
    }
}

/// The number of logits of a model whose rows are given.
pub open spec fn row_width(rows: Seq<Seq<FloatBits>>) -> usize {
    if rows.len() == 0 {
        0
    } else {
        rows[0].len() as usize
    }
}

/// The number of logits that are kept of a row.
pub open spec fn kept_logits(model_action: usize, action_space: usize) -> usize {
    if model_action <= action_space {
        model_action
    } else {
        action_space
    }
}

/// The index of the first row with fewer than `kept` logits, the number of rows where there is
/// none.
pub open spec fn first_short_row(rows: Seq<Seq<FloatBits>>, kept: usize) -> int
    decreases rows.len(),
{
    if rows.len() == 0 {
        0
    } else {
        let before = first_short_row(rows.drop_last(), kept);
        if before == rows.len() - 1 && rows.last().len() >= kept {
            rows.len() as int
        } else {
            before
        }
    }
}

/// The evaluation that rows of logits, values and health rows amount to.
pub open spec fn row_evaluation(
    rows: Seq<Seq<FloatBits>>,
    batch: usize,
    action_space: usize,
    values: Seq<FloatBits>,
    health: Option<Seq<Seq<FloatBits>>>,
) -> Result<EvaluationModel, EvaluatorError> {
    let model_action = row_width(rows);
    let kept = kept_logits(model_action, action_space);
    let short = first_short_row(rows, kept);
    if model_action == 0 {
        Err(EvaluatorError::MissingActionDim)
    } else if rows.len() != batch || values.len() != batch {
        Err(
            EvaluatorError::RowCount {
                rows: rows.len() as usize,
                values: values.len() as usize,
                batch,
            },
        )
    } else if short < rows.len() {
        Err(
            EvaluatorError::ShortRow {
                row: short as usize,
                len: rows[short].len() as usize,
                kept,
            },
        )
    } else {
        Ok(aligned_evaluation(rows, model_action, action_space, values, health))
    }
}

/// The first short row is short, and no row before it is.
pub proof fn lemma_first_short_row(rows: Seq<Seq<FloatBits>>, kept: usize)
    ensures
        0 <= first_short_row(rows, kept) <= rows.len(),
        first_short_row(rows, kept) < rows.len() ==> rows[first_short_row(rows, kept)].len() < kept,
        forall|i: int|
            0 <= i < first_short_row(rows, kept) ==> (#[trigger] rows[i]).len() >= kept,
    decreases rows.len(),
{
    if rows.len() > 0 {
        let shorter = rows.drop_last();
        lemma_first_short_row(shorter, kept);
        assert forall|i: int| 0 <= i < first_short_row(rows, kept) implies (
        #[trigger] rows[i]).len() >= kept by {
            if i < shorter.len() {
                assert(shorter[i] == rows[i]);
            }
        }
    }
}

/// The dimensions of a batch, read off its first environment.
pub fn batch_dims(batch: usize, lead: &LeadEnv) -> (r: BatchDims)
    requires
        lead.board_shape@.len() >= 3,
    ensures
        r == dims_of(batch, *lead),
{
    BatchDims {
        batch,
        channels: lead.board_shape[0],
        rows: lead.board_shape[1],
        cols: lead.board_shape[2],
        scalars: lead.scalar_count,
    }
}

/// The flat features `(boards, scalars)` of a batch.
pub fn encode_batch(envs: &[EncodedEnv]) -> (r: (Vec<FloatBits>, Vec<FloatBits>))
    ensures
        r.0@ == tensor::joined(board_rows(envs@)),
        r.1@ == tensor::joined(scalar_rows(envs@)),
{
    let mut boards: Vec<FloatBits> = Vec::new();
    let mut scalars: Vec<FloatBits> = Vec::new();
    let mut i: usize = 0;
    while i < envs.len()
        invariant
            i <= envs@.len(),
            boards@ == tensor::joined(board_rows(envs@.take(i as int))),
            scalars@ == tensor::joined(scalar_rows(envs@.take(i as int))),
        decreases envs@.len() - i,
    {
        boards.extend_from_slice(envs[i].board.as_slice());
        scalars.extend_from_slice(envs[i].scalars.as_slice());
        proof {
            let longer = envs@.take(i + 1);
            assert(board_rows(longer).drop_last() =~= board_rows(envs@.take(i as int)));
            assert(scalar_rows(longer).drop_last() =~= scalar_rows(envs@.take(i as int)));
        }
        i = i + 1;
    }
    assert(envs@.take(i as int) =~= envs@);
    (boards, scalars)
}

/// The output of an empty batch.
pub fn empty_output() -> (r: EvaluatorOutput)
    ensures
        r@ == empty_model(),
{
    EvaluatorOutput { logits: Vec::new(), values: Vec::new(), health: None }
}

/// Aligns a row of `model_action` logits to `action_space`: what is too much is cut, what is
/// missing is filled with negative infinity. The flag is raised on a mismatch.
pub fn align_row(
    row: &[FloatBits],
    action_space: usize,
    model_action: usize,
    mismatch_warned: &mut bool,
) -> (r: Vec<FloatBits>)
    requires
        row@.len() >= model_action || row@.len() >= action_space,
    ensures
        r@ == aligned_row(row@, model_action, action_space),
        *final(mismatch_warned) == (*old(mismatch_warned) || model_action != action_space),
{
    if model_action != action_space && !*mismatch_warned {
        *mismatch_warned = true;
    }
    let mut padded: Vec<FloatBits> = Vec::new();
    let mut j: usize = 0;
    while j < action_space
        invariant
            j <= action_space,
            padded@.len() == j,
            row@.len() >= model_action || row@.len() >= action_space,
            forall|k: int|
                0 <= k < j ==> padded@[k] == aligned_row(row@, model_action, action_space)[k],
        decreases action_space - j,
    {
        if j < model_action {
            padded.push(row[j]);
        } else {
            padded.push(NEG_INFINITY_BITS);
        }
        j = j + 1;
    }
    assert(padded@ =~= aligned_row(row@, model_action, action_space));
    padded
}

/// Aligns rows of logits, each of which holds what is kept of it, and puts them together with
/// values and health rows.
fn aligned_rows(
    rows: &[Vec<FloatBits>],
    model_action: usize,
    action_space: usize,
    values: Vec<FloatBits>,
    health: Option<Vec<Vec<FloatBits>>>,
) -> (r: Evaluation)
    requires
        forall|i: int|
            0 <= i < rows@.len() ==> (#[trigger] rows@[i])@.len() >= kept_logits(
                model_action,
                action_space,
            ),
    ensures
        r@ == aligned_evaluation(
            rows_view(rows@),
            model_action,
            action_space,
            values@,
            optional_rows_view(health),
        ),
{
    let mut mismatch_warned = false;
    let mut logits: Vec<Vec<FloatBits>> = Vec::new();
    let mut i: usize = 0;
    while i < rows.len()
        invariant
            forall|i: int|
                0 <= i < rows@.len() ==> (#[trigger] rows@[i])@.len() >= kept_logits(
                    model_action,
                    action_space,
                ),
            i <= rows@.len(),
            logits@.len() == i,
            forall|k: int|
                0 <= k < i ==> (#[trigger] logits@[k])@ == aligned_row(
                    rows@[k]@,
                    model_action,
                    action_space,
                ),
            mismatch_warned == (i > 0 && model_action != action_space),
        decreases rows@.len() - i,
    {
        let aligned = align_row(
            rows[i].as_slice(),
            action_space,
            model_action,
            &mut mismatch_warned,
        );
        logits.push(aligned);
        i = i + 1;
    }
    let width_mismatch = if mismatch_warned {
        Some(WidthMismatch { model_action, action_space })
    } else {
        None
    };
    let r = Evaluation { output: EvaluatorOutput { logits, values, health }, width_mismatch };
    assert(r@.output.logits =~= aligned_evaluation(
        rows_view(rows@),
        model_action,
        action_space,
        values@,
        optional_rows_view(health),
    ).output.logits);
    r
}

/// The number of flat logits that a batch takes.
fn count_needed_logits(batch: usize, model_action: usize, action_space: usize) -> (r: u128)
    ensures
        r == needed_logits(batch, model_action, action_space),
{
    if batch == 0 {
        return 0;
    }
    let before: u128 = wide_product(batch - 1, model_action);
    assert(before <= (usize::MAX - 1) * usize::MAX) by (nonlinear_arith)
        requires
            before == (batch - 1) * model_action,
            0 < batch <= usize::MAX,
            0 <= model_action <= usize::MAX,
    ;
    assert((usize::MAX - 1) * usize::MAX + usize::MAX <= u128::MAX) by (nonlinear_arith)
        requires
            usize::MAX <= 0xffff_ffff_ffff_ffff,
    ;
    if model_action == 0 || action_space == 0 {
        before + 1
    } else if model_action <= action_space {
        before + model_action as u128
    } else {
        before + action_space as u128
    }
}

/// Assembles the evaluation of a batch from flat logits, `model_action` for each environment. Of
/// the last environment those suffice that are kept.
pub fn output_from_flat_logits(
    logits_flat: &[FloatBits],
    model_action: usize,
    batch: usize,
    action_space: usize,
    values: Vec<FloatBits>,
    health: Option<Vec<Vec<FloatBits>>>,
) -> (r: Result<Evaluation, EvaluatorError>)
    ensures
        evaluation_view(r) == flat_evaluation(
            logits_flat@,
            model_action,
            batch,
            action_space,
            values@,
            optional_rows_view(health),
        ),
{
    if model_action == 0 {
        return Err(EvaluatorError::MissingActionDim);
    }
    if values.len() != batch {
        return Err(EvaluatorError::ValueLength { len: values.len(), batch });
    }
    let needed: u128 = count_needed_logits(batch, model_action, action_space);
    if (logits_flat.len() as u128) < needed {
        return Err(EvaluatorError::ShortLogits { len: logits_flat.len(), needed });
    }
    let rows = split_chunks(logits_flat, model_action, batch);
    assert forall|i: int| 0 <= i < rows@.len() implies (#[trigger] rows@[i])@.len()
        >= kept_logits(model_action, action_space) by {
        tensor::lemma_chunk_within(logits_flat@, model_action as nat, batch as nat, i);
        assert(rows_view(rows@)[i] == rows@[i]@);
    }
    Ok(aligned_rows(rows.as_slice(), model_action, action_space, values, health))
}

/// Assembles the evaluation of a batch from rows of logits.
pub fn output_from_row_logits(
    rows: &[Vec<FloatBits>],
    batch: usize,
    action_space: usize,
    values: Vec<FloatBits>,
    health: Option<Vec<Vec<FloatBits>>>,
) -> (r: Result<Evaluation, EvaluatorError>)
    ensures
        evaluation_view(r) == row_evaluation(
            rows_view(rows@),
            batch,
            action_space,
            values@,
            optional_rows_view(health),
        ),
{
    let model_action: usize = if rows.len() == 0 {
        0
    } else {
        rows[0].len()
    };
    if model_action == 0 {
        return Err(EvaluatorError::MissingActionDim);
    }
    if rows.len() != batch || values.len() != batch {
        return Err(EvaluatorError::RowCount { rows: rows.len(), values: values.len(), batch });
    }
    let kept: usize = if model_action <= action_space {
        model_action
    } else {
        action_space
    };
    proof {
        lemma_first_short_row(rows_view(rows@), kept);
    }
    let mut i: usize = 0;
    while i < rows.len()
        invariant
            model_action > 0,
            rows@.len() == batch,
            values@.len() == batch,
            model_action == row_width(rows_view(rows@)),
            kept == kept_logits(model_action, action_space),
            i <= rows@.len(),
            forall|k: int| 0 <= k < i ==> (#[trigger] rows@[k])@.len() >= kept,
        decreases rows@.len() - i,
    {
        if rows[i].len() < kept {
            proof {
                let seen = rows_view(rows@);
                lemma_first_short_row(seen, kept);
                assert(seen[i as int] == rows@[i as int]@);
                let short = first_short_row(seen, kept);
                if short < i {
                    assert(seen[short] == rows@[short]@);
                }
            }
            return Err(EvaluatorError::ShortRow { row: i, len: rows[i].len(), kept });
        }
        i = i + 1;
    }
    proof {
        let seen = rows_view(rows@);
        let short = first_short_row(seen, kept);
        if short < rows@.len() {
            assert(seen[short] == rows@[short]@);
        }
    }
    Ok(aligned_rows(rows, model_action, action_space, values, health))
}

/// The notice of a mismatch gives both numbers in decimal, the model's first.
pub proof fn law_notices_give_both_numbers(notice: WidthMismatch)
    ensures
        notice.text() == "⚠️ [evaluator] 模型动作维度 "@ + text::decimal(notice.model_action as nat)
            + " 与环境动作空间 "@ + text::decimal(notice.action_space as nat)
            + " 不一致：按 min 截断并补 -inf"@,
{
}

} // verus!
