//! Where each number that a model is given or returns ends up, element by element.

use vstd::prelude::*;

use crate::error::{EvaluatorError, OutputName};
use crate::inference::batch::{
    self, BatchDims, EncodedEnv, EnvBatch, Evaluation, FloatBits, LeadEnv, WidthMismatch,
};
use crate::inference::forward::{self, ForwardInput};
use crate::inference::laws;
use crate::inference::onnx::{
    self, OnnxEvaluator, OnnxModel, RawOutputs, SessionFailure, SessionOutputs,
};
use crate::inference::tensor::{self, TensorData};
use crate::inference::torch::{self, IValue, TorchOutputs, TorchTensor};

verus! {

/// Row `i` of `count` rows holds the `width` elements from `i * width` on.
pub open spec fn in_rows(
    rows: Seq<Vec<FloatBits>>,
    data: Seq<FloatBits>,
    width: int,
    count: int,
) -> bool {
    &&& rows.len() == count
    &&& forall|i: int| 0 <= i < count ==> (#[trigger] rows[i])@.len() == width
    &&& forall|i: int, j: int|
        0 <= i < count && 0 <= j < width ==> #[trigger] rows[i]@[j] == data[i * width + j]
}

/// Row `i` of `count` rows has a logit for each of `actions` actions: those that a model with
/// `width` actions has, from element `i * width` on, and negative infinity for all others.
pub open spec fn in_actions(
    rows: Seq<Vec<FloatBits>>,
    data: Seq<FloatBits>,
    width: int,
    count: int,
    actions: int,
) -> bool {
    &&& rows.len() == count
    &&& forall|i: int| 0 <= i < count ==> (#[trigger] rows[i])@.len() == actions
    &&& forall|i: int, j: int|
        0 <= i < count && 0 <= j < actions && j < width ==> #[trigger] rows[i]@[j] == data[i * width
            + j]
    &&& forall|i: int, j: int|
        0 <= i < count && 0 <= j < actions && j >= width ==> #[trigger] rows[i]@[j] == 0xff80_0000
}

/// A notice is due exactly where there are environments and the model has another number of
/// actions than they have, and it names both numbers.
pub open spec fn notice_due(
    notice: Option<WidthMismatch>,
    width: int,
    count: int,
    actions: int,
) -> bool {
    &&& notice is Some <==> count > 0 && width != actions
    &&& notice matches Some(m) ==> m.model_action == width && m.action_space == actions
}

/// Element `j` of row `i` is element `i * width + j`.
pub proof fn law_rows_hold_their_elements(
    data: Seq<FloatBits>,
    width: nat,
    count: nat,
    i: int,
    j: int,
)
    requires
        count * width <= data.len(),
        0 <= i < count,
        0 <= j < width,
    ensures
        tensor::rows_of(data, width, count).len() == count,
        tensor::rows_of(data, width, count)[i].len() == width,
        0 <= i * width + j < data.len(),
        tensor::rows_of(data, width, count)[i][j] == data[i * width + j],
{
    tensor::lemma_row_within(i, width, count);
}

/// Also where the last row ends early, element `j` of row `i` is element `i * width + j`; only the
/// last row may have fewer than `width` elements, and no element within `count` rows is lost.
pub proof fn law_chunks_hold_their_elements(data: Seq<FloatBits>, width: nat, count: nat, i: int)
    requires
        0 <= i < count,
        (count - 1) * width <= data.len(),
    ensures
        tensor::chunks_of(data, width, count).len() == count,
        i < count - 1 ==> tensor::chunks_of(data, width, count)[i].len() == width,
        i == count - 1 && data.len() < count * width ==> i * width + tensor::chunks_of(
            data,
            width,
            count,
        )[i].len() == data.len(),
        data.len() >= count * width ==> tensor::chunks_of(data, width, count)[i].len() == width,
        forall|j: int|
            0 <= j < tensor::chunks_of(data, width, count)[i].len()
                ==> #[trigger] tensor::chunks_of(data, width, count)[i][j] == data[i * width + j],
{
    tensor::lemma_chunk_within(data, width, count, i);
    tensor::lemma_row_within(i, width, count);
}

/// The second extent of a shape is the number in its second place.
pub proof fn law_second_dim_is_the_second_extent(shape: Seq<usize>)
    ensures
        shape.len() >= 2 ==> tensor::second_dim(shape) == shape[1],
        shape.len() < 2 ==> tensor::second_dim(shape) == 0,
{
}

/// The view of an evaluation hides nothing.
pub proof fn law_evaluation_view_hides_nothing(e: Evaluation)
    ensures
        e@.width_mismatch == e.width_mismatch,
        e@.output.values == e.output.values@,
        e@.output.logits.len() == e.output.logits@.len(),
        forall|i: int|
            0 <= i < e.output.logits@.len() ==> #[trigger] e@.output.logits[i]
                == e.output.logits@[i]@,
        e@.output.health is Some <==> e.output.health is Some,
        e.output.health matches Some(rows) ==> e@.output.health->Some_0.len() == rows@.len()
            && forall|i: int|
            0 <= i < rows@.len() ==> #[trigger] e@.output.health->Some_0[i] == rows@[i]@,
{
}

/// The view of raw outputs hides nothing.
pub proof fn law_raw_view_hides_nothing(raw: RawOutputs)
    ensures
        raw@.values == raw.values@,
        raw@.logits.len() == raw.logits@.len(),
        forall|i: int|
            0 <= i < raw.logits@.len() ==> #[trigger] raw@.logits[i] == raw.logits@[i]@,
        raw@.health is Some <==> raw.health is Some,
        raw.health matches Some(rows) ==> raw@.health->Some_0.len() == rows@.len() && forall|i: int|
            0 <= i < rows@.len() ==> #[trigger] raw@.health->Some_0[i] == rows@[i]@,
{
}

/// The view of the input of a forward pass hides nothing.
pub proof fn law_input_view_hides_nothing(input: ForwardInput)
    ensures
        input@.board.name == input.board.name@,
        input@.board.shape == input.board.shape@,
        input@.board.data == input.board.data@,
        input@.scalars.name == input.scalars.name@,
        input@.scalars.shape == input.scalars.shape@,
        input@.scalars.data == input.scalars.data@,
{
}

/// The result of an evaluation or of a forward pass shows its error as it is, and else the view of
/// what came out.
pub proof fn law_result_views_hide_nothing(e: Evaluation, raw: RawOutputs, error: EvaluatorError)
    ensures
        batch::evaluation_view(Ok(e)) == Ok::<_, EvaluatorError>(e@),
        batch::evaluation_view(Err(error)) == Err::<batch::EvaluationModel, _>(error),
        onnx::raw_view(Ok(raw)) == Ok::<_, EvaluatorError>(raw@),
        onnx::raw_view(Err(error)) == Err::<batch::OutputModel, _>(error),
{
}

/// The output of an empty batch holds no logits, no values and no health rows.
pub proof fn law_empty_outputs_hold_nothing(output: batch::EvaluatorOutput)
    ensures
        output@ == batch::empty_model() <==> output.logits@.len() == 0 && output.values@.len() == 0
            && output.health is None,
{
    assert(output.logits@.len() == 0 && output.values@.len() == 0 && output.health is None
        ==> output@ =~= batch::empty_model());
    assert(output@.logits.len() == output.logits@.len());
}

/// Aligning a row keeps each logit in its place, as far as the model has it and the action space
/// asks for it. All other places hold negative infinity.
pub proof fn law_alignment_keeps_places(
    row: Seq<FloatBits>,
    model_action: usize,
    action_space: usize,
    j: int,
)
    requires
        0 <= j < action_space,
    ensures
        batch::aligned_row(row, model_action, action_space).len() == action_space,
        j < model_action ==> batch::aligned_row(row, model_action, action_space)[j] == row[j],
        j >= model_action ==> batch::aligned_row(row, model_action, action_space)[j] == 0xff80_0000,
{
}

/// Flat logits: an evaluation is owed exactly where the model has actions, there is one value for
/// each environment, and the logits reach to the last one that is kept of the last environment.
/// Then environment `i` has its own logits, its own value and its own health row.
pub proof fn law_flat_logits_reach_their_environments(
    flat: Seq<FloatBits>,
    model_action: usize,
    batch: usize,
    action_space: usize,
    values: Seq<FloatBits>,
    health: Option<Vec<Vec<FloatBits>>>,
    r: Result<Evaluation, EvaluatorError>,
)
    requires
        batch::evaluation_view(r) == batch::flat_evaluation(
            flat,
            model_action,
            batch,
            action_space,
            values,
            batch::optional_rows_view(health),
        ),
    ensures
        r is Ok <==> {
            &&& model_action > 0
            &&& values.len() == batch
            &&& batch > 0 ==> flat.len() > (batch - 1) * model_action
            &&& batch > 0 && model_action <= action_space ==> flat.len() >= (batch - 1)
                * model_action + model_action
            &&& batch > 0 && model_action > action_space ==> flat.len() >= (batch - 1)
                * model_action + action_space
        },
        r matches Ok(e) ==> {
            &&& in_actions(
                e.output.logits@,
                flat,
                model_action as int,
                batch as int,
                action_space as int,
            )
            &&& e.output.values@ == values
            &&& e.output.health is Some <==> health is Some
            &&& health matches Some(rows) ==> same_rows(e.output.health->Some_0@, rows@)
            &&& notice_due(
                e.width_mismatch,
                model_action as int,
                batch as int,
                action_space as int,
            )
        },
        model_action == 0 ==> r == Err::<Evaluation, _>(EvaluatorError::MissingActionDim),
        model_action > 0 && values.len() != batch ==> r == Err::<Evaluation, _>(
            EvaluatorError::ValueLength { len: values.len() as usize, batch },
        ),
        model_action > 0 && values.len() == batch && r is Err ==> (r->Err_0 matches
            EvaluatorError::ShortLogits { len, needed } && len == flat.len() as usize && (
        action_space > 0 && model_action <= action_space ==> needed == ((batch - 1) * model_action
            + model_action) as u128) && (0 < action_space < model_action ==> needed == ((batch - 1)
            * model_action + action_space) as u128) && (action_space == 0 ==> needed == ((batch
            - 1) * model_action + 1) as u128)),
{
    if let Ok(e) = r {
        law_evaluation_view_hides_nothing(e);
        let m = model_action as nat;
        let n = batch as nat;
        assert forall|i: int| 0 <= i < batch implies (#[trigger] e.output.logits@[i])@.len()
            == action_space by {
            assert(e@.output.logits[i] == e.output.logits@[i]@);
        }
        assert forall|i: int, j: int|
            0 <= i < batch && 0 <= j < action_space && j
                < model_action implies #[trigger] e.output.logits@[i]@[j] == flat[i * model_action
            + j] by {
            assert(e@.output.logits[i] == e.output.logits@[i]@);
            law_chunks_hold_their_elements(flat, m, n, i);
            tensor::lemma_chunk_within(flat, m, n, i);
            assert(tensor::chunks_of(flat, m, n)[i][j] == flat[i * m + j]);
        }
        assert forall|i: int, j: int|
            0 <= i < batch && 0 <= j < action_space && j
                >= model_action implies #[trigger] e.output.logits@[i]@[j] == 0xff80_0000 by {
            assert(e@.output.logits[i] == e.output.logits@[i]@);
        }
        if let Some(rows) = health {
            lemma_same_rows(e.output.health->Some_0@, rows@);
        }
    }
}

/// Two lists of rows hold the same.
pub open spec fn same_rows(a: Seq<Vec<FloatBits>>, b: Seq<Vec<FloatBits>>) -> bool {
    &&& a.len() == b.len()
    &&& forall|i: int| 0 <= i < b.len() ==> #[trigger] a[i]@ == b[i]@
}

/// Rows of logits: an evaluation is owed exactly where the first row has logits, there are a row
/// and a value for each environment, and each row reaches to the last logit that is kept. Then
/// environment `i` has its own logits, its own value and its own health row.
pub proof fn law_row_logits_reach_their_environments(
    rows: Seq<Vec<FloatBits>>,
    batch: usize,
    action_space: usize,
    values: Seq<FloatBits>,
    health: Option<Vec<Vec<FloatBits>>>,
    r: Result<Evaluation, EvaluatorError>,
)
    requires
        batch::evaluation_view(r) == batch::row_evaluation(
            batch::rows_view(rows),
            batch,
            action_space,
            values,
            batch::optional_rows_view(health),
        ),
    ensures
        r is Ok <==> {
            &&& rows.len() > 0
            &&& rows[0].len() > 0
            &&& rows.len() == batch
            &&& values.len() == batch
            &&& forall|i: int|
                0 <= i < rows.len() ==> (#[trigger] rows[i]).len() >= rows[0].len()
                    || rows[i].len() >= action_space
        },
        r matches Ok(e) ==> {
            &&& e.output.logits@.len() == batch
            &&& forall|i: int|
                0 <= i < batch ==> (#[trigger] e.output.logits@[i])@.len() == action_space
            &&& forall|i: int, j: int|
                0 <= i < batch && 0 <= j < action_space && j < rows[0].len()
                    ==> #[trigger] e.output.logits@[i]@[j] == rows[i]@[j]
            &&& forall|i: int, j: int|
                0 <= i < batch && 0 <= j < action_space && j >= rows[0].len()
                    ==> #[trigger] e.output.logits@[i]@[j] == 0xff80_0000
            &&& e.output.values@ == values
            &&& e.output.health is Some <==> health is Some
            &&& health matches Some(given) ==> same_rows(e.output.health->Some_0@, given@)
            &&& notice_due(
                e.width_mismatch,
                rows[0].len() as int,
                batch as int,
                action_space as int,
            )
        },
        rows.len() == 0 || rows[0].len() == 0 ==> r == Err::<Evaluation, _>(
            EvaluatorError::MissingActionDim,
        ),
        rows.len() > 0 && rows[0].len() > 0 && (rows.len() != batch || values.len() != batch)
            ==> r == Err::<Evaluation, _>(
            EvaluatorError::RowCount {
                rows: rows.len() as usize,
                values: values.len() as usize,
                batch,
            },
        ),
        rows.len() > 0 && rows[0].len() > 0 && rows.len() == batch && values.len() == batch && r
            is Err ==> (r->Err_0 matches EvaluatorError::ShortRow { row, len, kept } && row < batch
            && len == rows[row as int].len() && len < kept && (kept == rows[0].len() || kept
            == action_space) && kept <= rows[0].len() && kept <= action_space && forall|i: int|
            0 <= i < row ==> (#[trigger] rows[i]).len() >= kept),
{
    let seen = batch::rows_view(rows);
    let width = batch::row_width(seen);
    let kept = batch::kept_logits(width, action_space);
    batch::lemma_first_short_row(seen, kept);
    assert forall|i: int| 0 <= i < rows.len() implies #[trigger] seen[i].len()
        == rows[i].len() by {}
    if rows.len() > 0 {
        assert(seen[0].len() == rows[0].len());
        assert(width == rows[0].len());
    }
    let short = batch::first_short_row(seen, kept);
    assert forall|i: int| 0 <= i < short implies (#[trigger] rows[i]).len() >= kept by {
        assert(seen[i].len() == rows[i].len());
    }
    if short < rows.len() {
        assert(seen[short].len() == rows[short].len());
    }
    if let Ok(e) = r {
        law_evaluation_view_hides_nothing(e);
        assert forall|i: int| 0 <= i < batch implies (#[trigger] e.output.logits@[i])@.len()
            == action_space by {
            assert(e@.output.logits[i] == e.output.logits@[i]@);
        }
        assert forall|i: int, j: int|
            0 <= i < batch && 0 <= j < action_space && j
                < width implies #[trigger] e.output.logits@[i]@[j] == rows[i]@[j] by {
            assert(e@.output.logits[i] == e.output.logits@[i]@);
            assert(seen[i] == rows[i]@);
        }
        assert forall|i: int, j: int|
            0 <= i < batch && 0 <= j < action_space && j
                >= width implies #[trigger] e.output.logits@[i]@[j] == 0xff80_0000 by {
            assert(e@.output.logits[i] == e.output.logits@[i]@);
        }
        if let Some(given) = health {
            lemma_same_rows(e.output.health->Some_0@, given@);
        }
    }
}

/// Lists of rows with the same view hold the same.
proof fn lemma_same_rows(a: Seq<Vec<FloatBits>>, b: Seq<Vec<FloatBits>>)
    requires
        batch::rows_view(a) == batch::rows_view(b),
    ensures
        same_rows(a, b),
{
    assert(batch::rows_view(a).len() == a.len());
    assert(batch::rows_view(b).len() == b.len());
    assert forall|i: int| 0 <= i < b.len() implies #[trigger] a[i]@ == b[i]@ by {
        assert(batch::rows_view(a)[i] == a[i]@);
        assert(batch::rows_view(b)[i] == b[i]@);
    }
}

/// Rows whose view are the rows of elements hold these elements.
proof fn lemma_in_rows(rows: Seq<Vec<FloatBits>>, data: Seq<FloatBits>, width: usize, count: usize)
    requires
        batch::rows_view(rows) == tensor::rows_of(data, width as nat, count as nat),
        count * width <= data.len(),
    ensures
        in_rows(rows, data, width as int, count as int),
{
    let seen = batch::rows_view(rows);
    assert(seen.len() == rows.len());
    assert forall|i: int| 0 <= i < count implies (#[trigger] rows[i])@.len() == width by {
        tensor::lemma_row_within(i, width as nat, count as nat);
        assert(seen[i] == rows[i]@);
    }
    assert forall|i: int, j: int| 0 <= i < count && 0 <= j < width implies #[trigger] rows[i]@[j]
        == data[i * width + j] by {
        law_rows_hold_their_elements(data, width as nat, count as nat, i, j);
        assert(seen[i] == rows[i]@);
    }
}

/// A tensor has a second dimension and a row in it for each of `count` environments.
pub open spec fn covers(shape: Seq<usize>, data: Seq<FloatBits>, count: int) -> bool {
    &&& shape.len() >= 2
    &&& shape[1] > 0
    &&& data.len() >= count * shape[1]
}

/// The tensors of a TorchScript module: an evaluation is owed exactly where policy logits and, if
/// there are any, health logits cover the batch, and there is one value for each environment.
/// Then environment `i` has the logits, the value and the health row in place `i`.
pub proof fn law_torch_tensors_reach_their_environments(
    outputs: TorchOutputs<TorchTensor>,
    batch: usize,
    action_space: usize,
    r: Result<Evaluation, EvaluatorError>,
)
    requires
        batch::evaluation_view(r) == torch::torch_evaluation(outputs, batch, action_space),
    ensures
        r is Ok <==> {
            &&& outputs.policy_logits.data matches Ok(d)
            &&& covers(outputs.policy_logits.shape@, d@, batch as int)
            &&& outputs.value.data matches Ok(v)
            &&& v@.len() == batch
            &&& outputs.health matches Some(t) ==> (t.data matches Ok(h) && covers(
                t.shape@,
                h@,
                batch as int,
            ))
        },
        r matches Ok(e) ==> {
            &&& in_actions(
                e.output.logits@,
                outputs.policy_logits.data->Ok_0@,
                outputs.policy_logits.shape@[1] as int,
                batch as int,
                action_space as int,
            )
            &&& e.output.values@ == outputs.value.data->Ok_0@
            &&& e.output.health is Some <==> outputs.health is Some
            &&& outputs.health matches Some(t) ==> in_rows(
                e.output.health->Some_0@,
                t.data->Ok_0@,
                t.shape@[1] as int,
                batch as int,
            )
            &&& notice_due(
                e.width_mismatch,
                outputs.policy_logits.shape@[1] as int,
                batch as int,
                action_space as int,
            )
        },
{
    let p = outputs.policy_logits;
    let width = tensor::second_dim(p.shape@);
    if width > 0 && p.data is Ok && p.data->Ok_0@.len() >= batch * width {
        let flat = p.data->Ok_0@;
        if batch > 0 {
            laws::lemma_covered_logits_suffice(flat, width, batch, action_space);
        }
        if let Ok(e) = r {
            law_evaluation_view_hides_nothing(e);
            law_flat_logits_reach_their_environments(
                flat,
                width,
                batch,
                action_space,
                outputs.value.data->Ok_0@,
                e.output.health,
                r,
            );
            if let Some(t) = outputs.health {
                lemma_in_rows(e.output.health->Some_0@, t.data->Ok_0@, t.shape@[1], batch);
            }
        }
    }
}

/// The tensor in a place of a tuple.
pub open spec fn place(tuple: Seq<IValue<TorchTensor>>, i: int) -> TorchTensor {
    tuple[i]->Tensor_0
}

/// A whole TorchScript reply: an evaluation is owed exactly for a tuple of policy logits and
/// values, or of policy logits, health logits and values, that cover the batch. It has health
/// rows exactly where the tuple has three places, and environment `i` has the logits, the value
/// and the health row in place `i` of these tensors.
pub proof fn law_torch_replies_reach_their_environments(
    tuple: Vec<IValue<TorchTensor>>,
    batch: usize,
    action_space: usize,
    r: Result<Evaluation, EvaluatorError>,
)
    requires
        batch::evaluation_view(r) == forward::torch_reply(
            Ok(IValue::Tuple(tuple)),
            batch,
            action_space,
        ),
    ensures
        r is Ok <==> {
            let n = tuple@.len() as int;
            &&& n == 2 || n == 3
            &&& forall|i: int| 0 <= i < n ==> (#[trigger] tuple@[i]) is Tensor
            &&& place(tuple@, 0).data matches Ok(d)
            &&& covers(place(tuple@, 0).shape@, d@, batch as int)
            &&& place(tuple@, n - 1).data matches Ok(v)
            &&& v@.len() == batch
            &&& n == 3 ==> (place(tuple@, 1).data matches Ok(h) && covers(
                place(tuple@, 1).shape@,
                h@,
                batch as int,
            ))
        },
        r matches Ok(e) ==> {
            let n = tuple@.len() as int;
            &&& in_actions(
                e.output.logits@,
                place(tuple@, 0).data->Ok_0@,
                place(tuple@, 0).shape@[1] as int,
                batch as int,
                action_space as int,
            )
            &&& e.output.values@ == place(tuple@, n - 1).data->Ok_0@
            &&& e.output.health is Some <==> n == 3
            &&& n == 3 ==> in_rows(
                e.output.health->Some_0@,
                place(tuple@, 1).data->Ok_0@,
                place(tuple@, 1).shape@[1] as int,
                batch as int,
            )
            &&& notice_due(
                e.width_mismatch,
                place(tuple@, 0).shape@[1] as int,
                batch as int,
                action_space as int,
            )
        },
{
    let n = tuple@.len() as int;
    if let Ok(tensors) = torch::unwrapped(IValue::Tuple(tuple)) {
        law_torch_tensors_reach_their_environments(tensors, batch, action_space, r);
        assert(tuple@[0] is Tensor && tuple@[1] is Tensor && tuple@[n - 1] is Tensor);
    }
}

/// The faults of a TorchScript reply, each with the inputs on which it is reported. A fault of the
/// tuple comes before one of its tensors; within the tuple the last place comes first.
pub proof fn law_torch_faults_are_told_apart(
    reply: Result<IValue<TorchTensor>, String>,
    batch: usize,
    action_space: usize,
)
    ensures
        ({
            let r = forward::torch_reply(reply, batch, action_space);
            &&& reply matches Err(detail) ==> r == Err::<batch::EvaluationModel, _>(
                EvaluatorError::TorchForward { detail },
            )
            &&& reply matches Ok(value) ==> !(value is Tuple) ==> r == Err::<
                batch::EvaluationModel,
                _,
            >(EvaluatorError::TorchNotTuple)
            &&& reply matches Ok(IValue::Tuple(t)) ==> t@.len() != 2 && t@.len() != 3 ==> r == Err::<
                batch::EvaluationModel,
                _,
            >(EvaluatorError::TorchTupleLength { len: t@.len() as usize })
            &&& reply matches Ok(IValue::Tuple(t)) ==> (t@.len() == 2 || t@.len() == 3)
                && !(t@.last() is Tensor) ==> r == Err::<batch::EvaluationModel, _>(
                EvaluatorError::TorchNotTensor { output: OutputName::Value },
            )
            &&& reply matches Ok(IValue::Tuple(t)) ==> t@.len() == 3 && t@[2] is Tensor && !(
            t@[1] is Tensor) ==> r == Err::<batch::EvaluationModel, _>(
                EvaluatorError::TorchNotTensor { output: OutputName::Health },
            )
            &&& reply matches Ok(IValue::Tuple(t)) ==> (t@.len() == 2 || t@.len() == 3)
                && t@[t@.len() - 1] is Tensor && t@[1] is Tensor && !(t@[0] is Tensor) ==> r
                == Err::<batch::EvaluationModel, _>(
                EvaluatorError::TorchNotTensor { output: OutputName::PolicyLogits },
            )
        }),
{
}

/// The faults of the tensors of a TorchScript module, in the order in which they are looked at:
/// policy logits, values, health logits.
pub proof fn law_torch_tensor_faults_are_told_apart(
    outputs: TorchOutputs<TorchTensor>,
    batch: usize,
    action_space: usize,
)
    ensures
        ({
            let r = torch::torch_evaluation(outputs, batch, action_space);
            let p = outputs.policy_logits;
            let v = outputs.value;
            let policy_read = p.data matches Ok(d) && covers(p.shape@, d@, batch as int);
            let value_read = v.data matches Ok(d) && d@.len() == batch;
            &&& p.shape@.len() < 2 || p.shape@[1] == 0 ==> r == Err::<batch::EvaluationModel, _>(
                EvaluatorError::TorchMissingActionDim,
            )
            &&& p.shape@.len() >= 2 && p.shape@[1] > 0 ==> (p.data matches Err(detail) ==> r
                == Err::<batch::EvaluationModel, _>(
                EvaluatorError::TorchExtract { output: OutputName::PolicyLogits, detail },
            ))
            &&& p.shape@.len() >= 2 && p.shape@[1] > 0 ==> (p.data matches Ok(d) ==> d@.len()
                < batch * p.shape@[1] ==> r == Err::<batch::EvaluationModel, _>(
                EvaluatorError::TorchShortOutput {
                    output: OutputName::PolicyLogits,
                    len: d@.len() as usize,
                    needed: (batch * p.shape@[1]) as u128,
                },
            ))
            &&& policy_read ==> (v.data matches Err(detail) ==> r == Err::<
                batch::EvaluationModel,
                _,
            >(EvaluatorError::TorchExtract { output: OutputName::Value, detail }))
            &&& policy_read ==> (v.data matches Ok(d) ==> d@.len() != batch ==> r == Err::<
                batch::EvaluationModel,
                _,
            >(EvaluatorError::ValueLength { len: d@.len() as usize, batch }))
            &&& policy_read && value_read ==> (outputs.health matches Some(t) ==> t.shape@.len() < 2
                || t.shape@[1] == 0 ==> r == Err::<batch::EvaluationModel, _>(
                EvaluatorError::TorchHealthDim,
            ))
            &&& policy_read && value_read ==> (outputs.health matches Some(t) ==> t.shape@.len()
                >= 2 && t.shape@[1] > 0 ==> (t.data matches Err(detail) ==> r == Err::<
                batch::EvaluationModel,
                _,
            >(EvaluatorError::TorchExtract { output: OutputName::Health, detail })))
            &&& policy_read && value_read ==> (outputs.health matches Some(t) ==> t.shape@.len()
                >= 2 && t.shape@[1] > 0 ==> (t.data matches Ok(d) ==> d@.len() < batch * t.shape@[1]
                ==> r == Err::<batch::EvaluationModel, _>(
                EvaluatorError::TorchShortOutput {
                    output: OutputName::Health,
                    len: d@.len() as usize,
                    needed: (batch * t.shape@[1]) as u128,
                },
            )))
        }),
{
}

/// A tuple of TorchScript outputs keeps its order: policy logits first, values last, and health
/// logits between them where there are three.
pub proof fn law_tuples_keep_their_order<T>(
    policy: T,
    health: T,
    value: T,
    two: Vec<IValue<T>>,
    three: Vec<IValue<T>>,
)
    requires
        two@ == seq![IValue::Tensor(policy), IValue::Tensor(value)],
        three@ == seq![IValue::Tensor(policy), IValue::Tensor(health), IValue::Tensor(value)],
    ensures
        torch::unwrapped(IValue::Tuple(two)) == Ok::<_, EvaluatorError>(
            TorchOutputs { policy_logits: policy, value, health: None },
        ),
        torch::unwrapped(IValue::Tuple(three)) == Ok::<_, EvaluatorError>(
            TorchOutputs { policy_logits: policy, value, health: Some(health) },
        ),
{
}

/// What is taken out of a tuple is the tensor that lies there, or an error that names it.
pub proof fn law_places_hold_tensors<T>(t: T, elements: Vec<IValue<T>>, output: OutputName)
    ensures
        torch::tensor_in(IValue::Tensor(t), output) == Ok::<T, EvaluatorError>(t),
        torch::tensor_in(IValue::Tuple(elements), output) == Err::<T, _>(
            EvaluatorError::TorchNotTensor { output },
        ),
        torch::tensor_in(IValue::<T>::Other, output) == Err::<T, _>(
            EvaluatorError::TorchNotTensor { output },
        ),
{
}

/// The outputs of a session: they are read exactly where policy logits and, if there is a third
/// output, health logits cover the batch, and there is a value for each environment. Then logits,
/// values and health rows are the elements of the outputs, bit for bit.
pub proof fn law_session_outputs_are_read_as_they_are(
    outputs: SessionOutputs,
    batch: usize,
    r: Result<RawOutputs, EvaluatorError>,
)
    requires
        onnx::raw_view(r) == onnx::reply_model(Ok(outputs), batch),
    ensures
        onnx::reply_model(Ok(outputs), batch) == onnx::raw_model(outputs@, batch),
        r is Ok <==> {
            &&& outputs@.len() >= 2
            &&& outputs@[0] matches Ok(p)
            &&& covers(p.shape@, p.data@, batch as int)
            &&& outputs@[1] matches Ok(v)
            &&& v.data@.len() >= batch
            &&& outputs@.len() >= 3 ==> (outputs@[2] matches Ok(h) && covers(
                h.shape@,
                h.data@,
                batch as int,
            ))
        },
        r matches Ok(raw) ==> {
            &&& in_rows(
                raw.logits@,
                outputs@[0]->Ok_0.data@,
                outputs@[0]->Ok_0.shape@[1] as int,
                batch as int,
            )
            &&& raw.values@.len() == batch
            &&& forall|i: int|
                0 <= i < batch ==> #[trigger] raw.values@[i] == outputs@[1]->Ok_0.data@[i]
            &&& raw.health is Some <==> outputs@.len() >= 3
            &&& outputs@.len() >= 3 ==> in_rows(
                raw.health->Some_0@,
                outputs@[2]->Ok_0.data@,
                outputs@[2]->Ok_0.shape@[1] as int,
                batch as int,
            )
        },
{
    if let Ok(raw) = r {
        law_raw_view_hides_nothing(raw);
        let p = outputs@[0]->Ok_0;
        lemma_in_rows(raw.logits@, p.data@, p.shape@[1], batch);
        if outputs@.len() >= 3 {
            let h = outputs@[2]->Ok_0;
            lemma_in_rows(raw.health->Some_0@, h.data@, h.shape@[1], batch);
        }
    }
}

/// The faults of the reply of a session, each with the inputs on which it is reported, in the
/// order policy logits, values, health logits.
pub proof fn law_session_faults_are_told_apart(
    reply: Result<SessionOutputs, SessionFailure>,
    batch: usize,
)
    ensures
        ({
            let r = onnx::reply_model(reply, batch);
            &&& reply matches Err(SessionFailure::BoardTensor(detail)) ==> r == Err::<
                batch::OutputModel,
                _,
            >(EvaluatorError::OnnxBoardTensor { detail })
            &&& reply matches Err(SessionFailure::ScalarsTensor(detail)) ==> r == Err::<
                batch::OutputModel,
                _,
            >(EvaluatorError::OnnxScalarsTensor { detail })
            &&& reply matches Err(SessionFailure::Poisoned(detail)) ==> r == Err::<
                batch::OutputModel,
                _,
            >(EvaluatorError::OnnxSessionPoisoned { detail })
            &&& reply matches Err(SessionFailure::Run(detail)) ==> r == Err::<
                batch::OutputModel,
                _,
            >(EvaluatorError::OnnxRun { detail })
            &&& reply matches Ok(o) ==> {
                let policy_read = o@.len() > 0 && (o@[0] matches Ok(p) && covers(
                    p.shape@,
                    p.data@,
                    batch as int,
                ));
                let value_read = o@.len() > 1 && (o@[1] matches Ok(v) && v.data@.len() >= batch);
                &&& o@.len() == 0 ==> r == Err::<batch::OutputModel, _>(
                    EvaluatorError::OnnxMissingOutput { output: OutputName::PolicyLogits },
                )
                &&& o@.len() > 0 ==> row_faults(o@[0], OutputName::PolicyLogits, batch, r)
                &&& policy_read && o@.len() == 1 ==> r == Err::<batch::OutputModel, _>(
                    EvaluatorError::OnnxMissingOutput { output: OutputName::Value },
                )
                &&& policy_read && o@.len() > 1 ==> (o@[1] matches Err(detail) ==> r == Err::<
                    batch::OutputModel,
                    _,
                >(EvaluatorError::OnnxExtractTensor { detail }))
                &&& policy_read && o@.len() > 1 ==> (o@[1] matches Ok(v) ==> v.data@.len() < batch
                    ==> r == Err::<batch::OutputModel, _>(
                    EvaluatorError::ValueLength { len: v.data@.len() as usize, batch },
                ))
                &&& policy_read && value_read && o@.len() > 2 ==> row_faults(
                    o@[2],
                    OutputName::Health,
                    batch,
                    r,
                )
            }
        }),
{
}

/// `r` is the fault of an output that was to have a row for each environment, if it has one.
pub open spec fn row_faults(
    slot: Result<TensorData, String>,
    output: OutputName,
    batch: usize,
    r: Result<batch::OutputModel, EvaluatorError>,
) -> bool {
    match slot {
        Err(detail) => r == Err::<batch::OutputModel, _>(
            EvaluatorError::OnnxExtract { output, detail },
        ),
        Ok(t) => {
            &&& t.shape@.len() < 2 || (t.shape@[1] == 0 && output == OutputName::Health) ==> r
                == Err::<batch::OutputModel, _>(
                EvaluatorError::OnnxOutputDim { output, shape: t.shape },
            )
            &&& t.shape@.len() >= 2 && t.shape@[1] == 0 && output == OutputName::PolicyLogits ==> r
                == Err::<batch::OutputModel, _>(EvaluatorError::MissingActionDim)
            &&& t.shape@.len() >= 2 && t.shape@[1] > 0 && t.data@.len() < batch * t.shape@[1] ==> r
                == Err::<batch::OutputModel, _>(
                EvaluatorError::OnnxShortOutput {
                    output,
                    len: t.data@.len() as usize,
                    needed: (batch * t.shape@[1]) as u128,
                },
            )
        },
    }
}

/// A whole reply of a session: an evaluation is owed exactly where its outputs can be read.
/// Environment `i` then has the logits, the value and the health row in place `i` of the outputs,
/// bit for bit. A reply that cannot be read keeps its fault.
pub proof fn law_session_replies_reach_their_environments(
    outputs: SessionOutputs,
    batch: usize,
    action_space: usize,
    r: Result<Evaluation, EvaluatorError>,
)
    requires
        batch > 0,
        batch::evaluation_view(r) == onnx::onnx_evaluation(
            onnx::reply_model(Ok(outputs), batch),
            batch,
            action_space,
        ),
    ensures
        r is Ok <==> {
            &&& outputs@.len() >= 2
            &&& outputs@[0] matches Ok(p)
            &&& covers(p.shape@, p.data@, batch as int)
            &&& outputs@[1] matches Ok(v)
            &&& v.data@.len() >= batch
            &&& outputs@.len() >= 3 ==> (outputs@[2] matches Ok(h) && covers(
                h.shape@,
                h.data@,
                batch as int,
            ))
        },
        r matches Err(e) ==> onnx::reply_model(Ok(outputs), batch) == Err::<
            batch::OutputModel,
            _,
        >(e),
        r matches Ok(e) ==> {
            &&& in_actions(
                e.output.logits@,
                outputs@[0]->Ok_0.data@,
                outputs@[0]->Ok_0.shape@[1] as int,
                batch as int,
                action_space as int,
            )
            &&& e.output.values@.len() == batch
            &&& forall|i: int|
                0 <= i < batch ==> #[trigger] e.output.values@[i] == outputs@[1]->Ok_0.data@[i]
            &&& e.output.health is Some <==> outputs@.len() >= 3
            &&& outputs@.len() >= 3 ==> in_rows(
                e.output.health->Some_0@,
                outputs@[2]->Ok_0.data@,
                outputs@[2]->Ok_0.shape@[1] as int,
                batch as int,
            )
            &&& notice_due(
                e.width_mismatch,
                outputs@[0]->Ok_0.shape@[1] as int,
                batch as int,
                action_space as int,
            )
        },
{
    laws::law_readable_outputs_evaluate(outputs@, batch, action_space);
    if let Ok(e) = r {
        law_evaluation_view_hides_nothing(e);
        let p = outputs@[0]->Ok_0;
        let width = p.shape@[1];
        let values = outputs@[1]->Ok_0.data@.take(batch as int);
        laws::lemma_covered_logits_suffice(p.data@, width, batch, action_space);
        laws::law_flat_and_row_logits_agree(
            p.data@,
            width,
            batch,
            action_space,
            values,
            batch::optional_rows_view(e.output.health),
        );
        law_flat_logits_reach_their_environments(
            p.data@,
            width,
            batch,
            action_space,
            values,
            e.output.health,
            r,
        );
        if outputs@.len() >= 3 {
            let h = outputs@[2]->Ok_0;
            lemma_in_rows(e.output.health->Some_0@, h.data@, h.shape@[1], batch);
        }
    }
}

/// A session that failed makes no evaluation, and its fault is the one that is reported.
pub proof fn law_failed_sessions_are_not_evaluated(
    failure: SessionFailure,
    batch: usize,
    action_space: usize,
)
    ensures
        onnx::reply_model(Err(failure), batch) is Err,
        onnx::onnx_evaluation(onnx::reply_model(Err(failure), batch), batch, action_space) is Err,
        onnx::onnx_evaluation(onnx::reply_model(Err(failure), batch), batch, action_space)->Err_0
            == onnx::reply_model(Err(failure), batch)->Err_0,
{
}

/// The session that serves a ticket is the one in the place that is left of it after full rounds.
pub proof fn law_tickets_are_served_in_turn<S>(
    model: &OnnxModel<S>,
    ticket: usize,
    round: int,
    i: int,
)
    requires
        0 <= i < model.sessions().len(),
        ticket == round * model.sessions().len() + i,
    ensures
        model.serving(ticket) == model.sessions()[i],
        model.sessions().contains(model.serving(ticket)),
{
    vstd::arithmetic::div_mod::lemma_fundamental_div_mod_converse(
        ticket as int,
        model.sessions().len() as int,
        round,
        i,
    );
}

/// Without environments the outputs of a session are not evaluated, readable or not.
pub proof fn law_no_environments_no_evaluation(
    outputs: SessionOutputs,
    action_space: usize,
)
    ensures
        onnx::onnx_evaluation(
            onnx::reply_model(Ok(outputs), 0),
            0,
            action_space,
        ) is Err,
        onnx::reply_model(Ok(outputs), 0) is Ok ==> onnx::onnx_evaluation(
            onnx::reply_model(Ok(outputs), 0),
            0,
            action_space,
        ) == Err::<batch::EvaluationModel, _>(EvaluatorError::MissingActionDim),
{
}

/// Both back ends evaluate whole replies alike: the same tensors, in the order of each back end,
/// make the same evaluation or none. The one exception is a value output with more values than
/// environments.
pub proof fn law_backends_agree_on_replies(
    tuple: Vec<IValue<TorchTensor>>,
    outputs: SessionOutputs,
    batch: usize,
    action_space: usize,
)
    requires
        batch > 0,
        tuple@.len() == outputs@.len(),
        tuple@.len() == 2 || tuple@.len() == 3,
        forall|i: int| 0 <= i < tuple@.len() ==> (#[trigger] tuple@[i]) is Tensor,
        laws::same_tensor(place(tuple@, 0), outputs@[0]),
        laws::same_tensor(place(tuple@, tuple@.len() - 1), outputs@[1]),
        tuple@.len() == 3 ==> laws::same_tensor(place(tuple@, 1), outputs@[2]),
        place(tuple@, tuple@.len() - 1).data matches Ok(values) ==> values@.len() <= batch,
    ensures
        ({
            let from_torch = forward::torch_reply(
                Ok(IValue::Tuple(tuple)),
                batch,
                action_space,
            );
            let from_onnx = onnx::onnx_evaluation(
                onnx::reply_model(Ok(outputs), batch),
                batch,
                action_space,
            );
            from_torch == from_onnx || from_torch is Err && from_onnx is Err
        }),
{
    let n = tuple@.len() as int;
    assert(tuple@[0] is Tensor && tuple@[1] is Tensor && tuple@[n - 1] is Tensor);
    let tensors = torch::unwrapped(IValue::Tuple(tuple))->Ok_0;
    laws::law_backends_agree(tensors, outputs@, batch, action_space);
}

/// A batch counts as one exactly where it is empty and has no first environment, or has one whose
/// board observation has three dimensions at least.
pub proof fn law_three_dimensions_make_a_batch(batch: EnvBatch)
    ensures
        batch.lead is None && batch.envs@.len() == 0 ==> batch.well_formed(),
        batch.lead matches Some(lead) ==> batch.envs@.len() > 0 && lead.board_shape@.len() >= 3
            ==> batch.well_formed(),
        batch.well_formed() ==> (batch.lead is None <==> batch.envs@.len() == 0),
        batch.well_formed() ==> (batch.lead matches Some(lead) ==> lead.board_shape@.len() >= 3),
{
}

/// The dimensions of a batch are the extents of the first board observation, in their order.
pub proof fn law_dims_are_the_extents_of_the_board(count: usize, lead: LeadEnv)
    ensures
        ({
            let dims = batch::dims_of(count, lead);
            &&& dims.batch == count
            &&& dims.channels == lead.board_shape@[0]
            &&& dims.rows == lead.board_shape@[1]
            &&& dims.cols == lead.board_shape@[2]
            &&& dims.scalars == lead.scalar_count
        }),
{
}

/// The features of a batch grow by those of the environment that is added to it, and those of no
/// environments are empty.
pub proof fn law_features_grow_with_the_batch(envs: Seq<EncodedEnv>, env: EncodedEnv)
    ensures
        tensor::joined(batch::board_rows(Seq::empty())).len() == 0,
        tensor::joined(batch::scalar_rows(Seq::empty())).len() == 0,
        tensor::joined(batch::board_rows(envs.push(env))) == tensor::joined(batch::board_rows(envs))
            + env.board@,
        tensor::joined(batch::scalar_rows(envs.push(env))) == tensor::joined(
            batch::scalar_rows(envs),
        ) + env.scalars@,
{
    assert(batch::board_rows(envs.push(env)).drop_last() =~= batch::board_rows(envs));
    assert(batch::scalar_rows(envs.push(env)).drop_last() =~= batch::scalar_rows(envs));
}

/// The features of a batch hold those of environment `i` from `i * size` on, where each
/// environment has `size` of them.
pub proof fn law_features_hold_each_environment(
    envs: Seq<EncodedEnv>,
    board_size: nat,
    scalar_size: nat,
    i: int,
)
    requires
        forall|k: int| 0 <= k < envs.len() ==> (#[trigger] envs[k]).board@.len() == board_size,
        forall|k: int| 0 <= k < envs.len() ==> (#[trigger] envs[k]).scalars@.len() == scalar_size,
        0 <= i < envs.len(),
    ensures
        tensor::joined(batch::board_rows(envs)).len() == envs.len() * board_size,
        tensor::joined(batch::scalar_rows(envs)).len() == envs.len() * scalar_size,
        forall|j: int|
            0 <= j < board_size ==> tensor::joined(batch::board_rows(envs))[i * board_size + j]
                == #[trigger] envs[i].board@[j],
        forall|j: int|
            0 <= j < scalar_size ==> tensor::joined(batch::scalar_rows(envs))[i * scalar_size + j]
                == #[trigger] envs[i].scalars@[j],
{
    let boards = tensor::joined(batch::board_rows(envs));
    let scalars = tensor::joined(batch::scalar_rows(envs));
    tensor::law_joined_rows_lie_in_order(batch::board_rows(envs), board_size, i);
    tensor::law_joined_rows_lie_in_order(batch::scalar_rows(envs), scalar_size, i);
    tensor::lemma_row_within(i, board_size, envs.len());
    tensor::lemma_row_within(i, scalar_size, envs.len());
    assert forall|j: int| 0 <= j < board_size implies boards[i * board_size + j]
        == #[trigger] envs[i].board@[j] by {
        assert(boards.subrange(i * board_size, (i + 1) * board_size)[j] == envs[i].board@[j]);
    }
    assert forall|j: int| 0 <= j < scalar_size implies scalars[i * scalar_size + j]
        == #[trigger] envs[i].scalars@[j] by {
        assert(scalars.subrange(i * scalar_size, (i + 1) * scalar_size)[j] == envs[i].scalars@[j]);
    }
}

/// `input` is what a model is to be given for a batch: `board`, whose shape is the number of
/// environments before the extents of the first board observation, and `scalars`, whose shape is
/// the number of environments and that of scalar features.
pub open spec fn shows(input: ForwardInput, batch: EnvBatch) -> bool {
    let lead = batch.lead->Some_0;
    &&& input.board.name@ == "board"@
    &&& input.board.shape@ == seq![batch.envs.len()] + lead.board_shape@.take(3)
    &&& input.board.data@ == tensor::joined(batch::board_rows(batch.envs@))
    &&& input.scalars.name@ == "scalars"@
    &&& input.scalars.shape@ == seq![batch.envs.len(), lead.scalar_count]
    &&& input.scalars.data@ == tensor::joined(batch::scalar_rows(batch.envs@))
}

/// What a forward pass is given shows the batch, and nothing else does.
pub proof fn law_inputs_show_the_batch(batch: EnvBatch, input: ForwardInput)
    requires
        batch.envs@.len() > 0,
        batch.lead matches Some(lead) && lead.board_shape@.len() >= 3,
    ensures
        input@ == forward::input_of(batch) <==> shows(input, batch),
        forward::actions_of(batch) == batch.lead->Some_0.action_space,
{
    let lead = batch.lead->Some_0;
    let n = batch.envs.len();
    let shape = seq![n] + lead.board_shape@.take(3);
    assert(n == batch.envs@.len());
    assert(forward::input_of(batch).board.shape =~= shape);
    assert(forward::input_of(batch).scalars.shape =~= seq![n, lead.scalar_count]);
    if shows(input, batch) {
        assert(input@ =~= forward::input_of(batch));
    }
}

/// `r` is the evaluation of no environments: no logits, no values, no health rows, no notice.
pub open spec fn nothing_evaluated(r: Result<Evaluation, EvaluatorError>) -> bool {
    &&& r matches Ok(e)
    &&& e.output.logits@.len() == 0
    &&& e.output.values@.len() == 0
    &&& e.output.health is None
    &&& e.width_mismatch is None
}

/// A TorchScript model is shown a batch that is not empty, and what it replies to that is
/// evaluated, for as many environments and actions as the batch has. An empty batch is evaluated
/// to nothing.
pub proof fn law_torch_evaluates_the_reply_to_the_batch<
    M,
    F: FnOnce(&M, &ForwardInput) -> Result<IValue<TorchTensor>, String>,
>(model: &M, batch: EnvBatch, forward: F, r: Result<Evaluation, EvaluatorError>)
    requires
        batch.well_formed(),
        forward::torch_evaluated(model, batch, forward, r),
    ensures
        batch.envs@.len() == 0 ==> nothing_evaluated(r),
        batch.envs@.len() > 0 ==> exists|
            input: ForwardInput,
            reply: Result<IValue<TorchTensor>, String>,
        |
            shows(input, batch) && #[trigger] call_ensures(forward, (model, &input), reply)
                && batch::evaluation_view(r) == forward::torch_reply(
                reply,
                batch.envs.len(),
                batch.lead->Some_0.action_space,
            ),
{
    if batch.envs@.len() == 0 {
        law_evaluation_view_hides_nothing(r->Ok_0);
    } else {
        let n = batch.envs.len();
        let (input, reply) = choose|
            input: ForwardInput,
            reply: Result<IValue<TorchTensor>, String>,
        |
            input@ == forward::input_of(batch) && #[trigger] call_ensures(
                forward,
                (model, &input),
                reply,
            ) && batch::evaluation_view(r) == forward::torch_reply(
                reply,
                batch.envs@.len() as usize,
                forward::actions_of(batch),
            );
        law_inputs_show_the_batch(batch, input);
    }
}

/// The session that serves a drawn ticket is shown a batch that is not empty, and what it replies
/// to that is evaluated, for as many environments and actions as the batch has. An empty batch is
/// evaluated to nothing.
pub proof fn law_onnx_evaluates_the_reply_to_the_batch<
    S,
    F: FnOnce(&S, &ForwardInput) -> Result<SessionOutputs, SessionFailure>,
>(
    evaluator: &OnnxEvaluator<S>,
    batch: EnvBatch,
    infer: F,
    r: Result<Evaluation, EvaluatorError>,
)
    requires
        batch.well_formed(),
        evaluator.evaluated(batch, infer, r),
    ensures
        batch.envs@.len() == 0 ==> nothing_evaluated(r),
        batch.envs@.len() > 0 ==> exists|
            ticket: usize,
            input: ForwardInput,
            reply: Result<SessionOutputs, SessionFailure>,
        |
            evaluator.model.drew(ticket) && evaluator.model.sessions().len() > 0 && shows(
                input,
                batch,
            ) && #[trigger] call_ensures(infer, (&evaluator.model.serving(ticket), &input), reply)
                && batch::evaluation_view(r) == onnx::onnx_evaluation(
                onnx::reply_model(reply, batch.envs.len()),
                batch.envs.len(),
                batch.lead->Some_0.action_space,
            ),
{
    if batch.envs@.len() == 0 {
        law_evaluation_view_hides_nothing(r->Ok_0);
    } else {
        let n = batch.envs.len();
        let (ticket, input, reply) = choose|
            ticket: usize,
            input: ForwardInput,
            reply: Result<SessionOutputs, SessionFailure>,
        |
            evaluator.model.drew(ticket) && evaluator.model.sessions().len() > 0 && input@
                == forward::input_of(batch) && #[trigger] call_ensures(
                infer,
                (&evaluator.model.serving(ticket), &input),
                reply,
            )
                && batch::evaluation_view(r) == onnx::onnx_evaluation(
                onnx::reply_model(reply, batch.envs@.len() as usize),
                batch.envs@.len() as usize,
                forward::actions_of(batch),
            );
        law_inputs_show_the_batch(batch, input);
    }
}

/// A forward pass of an ONNX model gives the session that serves a drawn ticket the flat features
/// as they are, under their names and in the given extents, and reads what that session replies.
pub proof fn law_runs_hand_the_features_over<
    S,
    F: FnOnce(&S, &ForwardInput) -> Result<SessionOutputs, SessionFailure>,
>(
    model: &OnnxModel<S>,
    dims: BatchDims,
    board: Seq<FloatBits>,
    scalars: Seq<FloatBits>,
    infer: F,
    r: Result<RawOutputs, EvaluatorError>,
)
    requires
        model.ran(forward::features(dims, board, scalars), dims.batch, infer, r),
    ensures
        exists|ticket: usize, input: ForwardInput, reply: Result<SessionOutputs, SessionFailure>|
            model.drew(ticket) && model.sessions().len() > 0 && input.board.name@ == "board"@
                && input.board.shape@ == seq![dims.batch, dims.channels, dims.rows, dims.cols]
                && input.board.data@ == board && input.scalars.name@ == "scalars"@
                && input.scalars.shape@ == seq![dims.batch, dims.scalars] && input.scalars.data@
                == scalars && #[trigger] call_ensures(
                infer,
                (&model.serving(ticket), &input),
                reply,
            ) && onnx::raw_view(r) == onnx::reply_model(reply, dims.batch),
{
    let (ticket, input, reply) = choose|
        ticket: usize,
        input: ForwardInput,
        reply: Result<SessionOutputs, SessionFailure>,
    |
        model.drew(ticket) && model.sessions().len() > 0 && input@ == forward::features(
            dims,
            board,
            scalars,
        ) && #[trigger] call_ensures(infer, (&model.serving(ticket), &input), reply)
            && onnx::raw_view(r) == onnx::reply_model(reply, dims.batch);
    law_input_view_hides_nothing(input);
}

} // verus!
