//! What holds of evaluations as a whole.

use vstd::prelude::*;

use crate::error::LoadError;
use crate::inference::batch::{self, EncodedEnv, FloatBits};
use crate::inference::onnx::{self, Host, OnnxModel, Provider};
use crate::inference::tensor::{self, TensorData};
use crate::inference::torch::{self, TorchOutputs, TorchTensor};

verus! {

/// Logits that already have the width of the action space are left as they are.
pub proof fn law_aligned_width_is_kept(row: Seq<FloatBits>, action_space: usize)
    requires
        row.len() == action_space,
    ensures
        batch::aligned_row(row, action_space, action_space) == row,
{
    assert(batch::aligned_row(row, action_space, action_space) =~= row);
}

/// A narrow row is filled up with negative infinity only, a wide one is cut only.
pub proof fn law_alignment_fills_or_cuts(
    row: Seq<FloatBits>,
    model_action: usize,
    action_space: usize,
)
    requires
        row.len() == model_action,
    ensures
        model_action <= action_space ==> batch::aligned_row(
            row,
            model_action,
            action_space,
        ) == row + Seq::new(
            (action_space - model_action) as nat,
            |j: int| batch::NEG_INFINITY_BITS,
        ),
        model_action >= action_space ==> batch::aligned_row(
            row,
            model_action,
            action_space,
        ) == row.take(action_space as int),
{
    let aligned = batch::aligned_row(row, model_action, action_space);
    if model_action <= action_space {
        assert(aligned =~= row + Seq::new(
            (action_space - model_action) as nat,
            |j: int| batch::NEG_INFINITY_BITS,
        ));
    }
    if model_action >= action_space {
        assert(aligned =~= row.take(action_space as int));
    }
}

/// The board of environment `i` lies at the same place in every batch: where each board has `size`
/// elements, it starts at `i * size`.
pub proof fn law_boards_lie_in_order(envs: Seq<EncodedEnv>, size: nat, i: int)
    requires
        forall|k: int| 0 <= k < envs.len() ==> (#[trigger] envs[k]).board@.len() == size,
        0 <= i < envs.len(),
    ensures
        tensor::joined(batch::board_rows(envs)).len() == envs.len() * size,
        tensor::joined(batch::board_rows(envs)).subrange(i * size, (i + 1) * size)
            == envs[i].board@,
{
    tensor::law_joined_rows_lie_in_order(batch::board_rows(envs), size, i);
}

/// The scalars of environment `i` lie at the same place in every batch: where each environment
/// has `size` of them, they start at `i * size`.
pub proof fn law_scalars_lie_in_order(envs: Seq<EncodedEnv>, size: nat, i: int)
    requires
        forall|k: int| 0 <= k < envs.len() ==> (#[trigger] envs[k]).scalars@.len() == size,
        0 <= i < envs.len(),
    ensures
        tensor::joined(batch::scalar_rows(envs)).len() == envs.len() * size,
        tensor::joined(batch::scalar_rows(envs)).subrange(i * size, (i + 1) * size)
            == envs[i].scalars@,
{
    tensor::law_joined_rows_lie_in_order(batch::scalar_rows(envs), size, i);
}

/// An evaluation fits its batch: a row of logits as wide as the action space and a value for
/// each environment, and as many health rows where there are any. A notice is due exactly where
/// the model has another number of actions.
pub open spec fn fits(
    evaluation: batch::EvaluationModel,
    batch: usize,
    action_space: usize,
    model_action: usize,
) -> bool {
    &&& evaluation.output.logits.len() == batch
    &&& forall|i: int|
        0 <= i < batch ==> (#[trigger] evaluation.output.logits[i]).len() == action_space
    &&& evaluation.output.values.len() == batch
    &&& evaluation.output.health matches Some(rows) ==> rows.len() == batch
    &&& evaluation.width_mismatch == batch::mismatch_notice(
        batch as nat,
        model_action,
        action_space,
    )
}

/// Whatever a TorchScript model replies, an evaluation that comes of it fits the batch.
pub proof fn law_torch_evaluation_fits(
    outputs: TorchOutputs<TorchTensor>,
    batch: usize,
    action_space: usize,
)
    ensures
        torch::torch_evaluation(outputs, batch, action_space) matches Ok(evaluation) ==> fits(
            evaluation,
            batch,
            action_space,
            tensor::second_dim(outputs.policy_logits.shape@),
        ),
{
}

/// Whatever a session replies, an evaluation that comes of it fits the batch.
pub proof fn law_onnx_evaluation_fits(
    outputs: Seq<Result<TensorData, String>>,
    batch: usize,
    action_space: usize,
)
    ensures
        onnx::onnx_evaluation(onnx::raw_model(outputs, batch), batch, action_space) matches Ok(
            evaluation,
        ) ==> {
            &&& outputs.len() > 0
            &&& outputs[0] matches Ok(t)
            &&& fits(evaluation, batch, action_space, tensor::second_dim(t.shape@))
        },
{
    let raw = onnx::raw_model(outputs, batch);
    if onnx::onnx_evaluation(raw, batch, action_space) is Ok {
        tensor::lemma_row_within(0, outputs[0]->Ok_0.shape@[1] as nat, batch as nat);
    }
}

/// Outputs of a session that do not cover the batch are never evaluated: neither logits nor
/// values nor health rows are made up.
pub proof fn law_uncovered_batches_fail(
    outputs: Seq<Result<TensorData, String>>,
    batch: usize,
    action_space: usize,
)
    requires
        ({
            ||| outputs.len() > 0 && (outputs[0] matches Ok(t) && t.data@.len() < batch
                * tensor::second_dim(t.shape@))
            ||| outputs.len() > 1 && (outputs[1] matches Ok(t) && t.data@.len() < batch)
            ||| outputs.len() > 2 && (outputs[2] matches Ok(t) && t.data@.len() < batch
                * tensor::second_dim(t.shape@))
        }),
    ensures
        onnx::onnx_evaluation(onnx::raw_model(outputs, batch), batch, action_space) is Err,
{
}

/// Outputs that could be read always make an evaluation.
pub proof fn law_readable_outputs_evaluate(
    outputs: Seq<Result<TensorData, String>>,
    batch: usize,
    action_space: usize,
)
    requires
        batch > 0,
    ensures
        onnx::raw_model(outputs, batch) is Ok <==> onnx::onnx_evaluation(
            onnx::raw_model(outputs, batch),
            batch,
            action_space,
        ) is Ok,
{
    if let Ok(raw) = onnx::raw_model(outputs, batch) {
        let t = outputs[0]->Ok_0;
        lemma_equal_rows_suffice(t.data@, t.shape@[1], batch, action_space);
    }
}

/// Rows of one width hold what is kept of them.
pub proof fn lemma_equal_rows_suffice(
    data: Seq<FloatBits>,
    width: usize,
    batch: usize,
    action_space: usize,
)
    requires
        batch > 0,
        batch * width <= data.len(),
    ensures
        ({
            let rows = tensor::rows_of(data, width as nat, batch as nat);
            &&& rows.len() == batch
            &&& batch::row_width(rows) == width
            &&& batch::first_short_row(rows, batch::kept_logits(width, action_space)) == batch
        }),
{
    let rows = tensor::rows_of(data, width as nat, batch as nat);
    assert forall|i: int| 0 <= i < batch implies (#[trigger] rows[i]).len() == width by {
        tensor::lemma_row_within(i, width as nat, batch as nat);
    }
    assert(rows[0].len() == width);
    batch::lemma_first_short_row(rows, batch::kept_logits(width, action_space));
}

/// Flat logits with a row for each environment, of which the last may be short, make the same
/// evaluation whether they come flat or in rows, or none either way. They make one where there is
/// one value for each environment and the last row holds what is kept of it. A single row that is
/// short is left out: in rows, it would pass for a narrower model.
pub proof fn law_flat_and_row_logits_agree(
    flat: Seq<FloatBits>,
    width: usize,
    batch: usize,
    action_space: usize,
    values: Seq<FloatBits>,
    health: Option<Seq<Seq<FloatBits>>>,
)
    requires
        width > 0,
        batch > 0,
        flat.len() > (batch - 1) * width,
        batch == 1 ==> flat.len() >= width,
    ensures
        ({
            let from_flat = batch::flat_evaluation(
                flat,
                width,
                batch,
                action_space,
                values,
                health,
            );
            let from_rows = batch::row_evaluation(
                tensor::chunks_of(flat, width as nat, batch as nat),
                batch,
                action_space,
                values,
                health,
            );
            if values.len() == batch && flat.len() >= batch::needed_logits(
                batch,
                width,
                action_space,
            ) {
                from_flat is Ok && from_flat == from_rows
            } else {
                from_flat is Err && from_rows is Err
            }
        }),
{
    let rows = tensor::chunks_of(flat, width as nat, batch as nat);
    let kept = batch::kept_logits(width, action_space);
    let last = batch - 1;
    tensor::lemma_chunk_within(flat, width as nat, batch as nat, 0);
    tensor::lemma_chunk_within(flat, width as nat, batch as nat, last);
    assert(batch::row_width(rows) == width);
    batch::lemma_first_short_row(rows, kept);
    let short = batch::first_short_row(rows, kept);
    if short < batch {
        tensor::lemma_chunk_within(flat, width as nat, batch as nat, short);
    }
}

/// Logits that cover the batch are more than it takes, and no row of them ends early.
pub proof fn lemma_covered_logits_suffice(
    flat: Seq<FloatBits>,
    width: usize,
    batch: usize,
    action_space: usize,
)
    requires
        width > 0,
        batch > 0,
        flat.len() >= batch * width,
    ensures
        flat.len() > (batch - 1) * width,
        flat.len() >= width,
        flat.len() >= batch::needed_logits(batch, width, action_space),
        tensor::chunks_of(flat, width as nat, batch as nat) == tensor::rows_of(
            flat,
            width as nat,
            batch as nat,
        ),
{
    tensor::lemma_row_within(0, width as nat, batch as nat);
    tensor::lemma_row_within(batch - 1, width as nat, batch as nat);
    tensor::lemma_chunks_are_rows(flat, width as nat, batch as nat);
}

/// A session returned the same tensor as a module: the same extents and the same elements, or
/// neither could be read.
pub open spec fn same_tensor(t: TorchTensor, slot: Result<TensorData, String>) -> bool {
    match (t.data, slot) {
        (Ok(data), Ok(u)) => u.shape@ == t.shape@ && u.data@ == data@,
        (Err(_), Err(_)) => true,
        _ => false,
    }
}

/// A session returned the same tensors as a module.
pub open spec fn same_outputs(
    outputs: TorchOutputs<TorchTensor>,
    slots: Seq<Result<TensorData, String>>,
) -> bool {
    &&& slots.len() >= 2
    &&& same_tensor(outputs.policy_logits, slots[0])
    &&& same_tensor(outputs.value, slots[1])
    &&& match outputs.health {
        Some(t) => slots.len() >= 3 && same_tensor(t, slots[2]),
        None => slots.len() == 2,
    }
}

/// Both back ends evaluate alike: of the same tensors, short or unreadable ones included, either
/// both make the same evaluation or neither makes one. The one exception is a value output with
/// more values than environments, which a session may return and a module may not.
pub proof fn law_backends_agree(
    outputs: TorchOutputs<TorchTensor>,
    slots: Seq<Result<TensorData, String>>,
    batch: usize,
    action_space: usize,
)
    requires
        batch > 0,
        same_outputs(outputs, slots),
        outputs.value.data matches Ok(values) ==> values@.len() <= batch,
    ensures
        ({
            let from_torch = torch::torch_evaluation(outputs, batch, action_space);
            let from_onnx = onnx::onnx_evaluation(
                onnx::raw_model(slots, batch),
                batch,
                action_space,
            );
            from_torch == from_onnx || from_torch is Err && from_onnx is Err
        }),
{
    let from_torch = torch::torch_evaluation(outputs, batch, action_space);
    let from_onnx = onnx::onnx_evaluation(onnx::raw_model(slots, batch), batch, action_space);
    law_readable_outputs_evaluate(slots, batch, action_space);
    if from_torch is Ok || from_onnx is Ok {
        let width = tensor::second_dim(outputs.policy_logits.shape@);
        let flat = outputs.policy_logits.data->Ok_0@;
        let values = outputs.value.data->Ok_0@;
        assert(values.take(batch as int) =~= values);
        lemma_covered_logits_suffice(flat, width, batch, action_space);
        law_flat_and_row_logits_agree(
            flat,
            width,
            batch,
            action_space,
            values,
            torch::health_rows(outputs.health, batch)->Ok_0,
        );
    }
}

/// Sessions take turns: two of as many consecutive tickets as there are sessions are served by
/// different sessions.
pub proof fn law_consecutive_tickets_differ(sessions: nat, a: nat, b: nat)
    requires
        sessions > 0,
        a < b < a + sessions,
    ensures
        a % sessions != b % sessions,
{
    let n = sessions as int;
    if a % sessions == b % sessions {
        vstd::arithmetic::div_mod::lemma_fundamental_div_mod(a as int, n);
        vstd::arithmetic::div_mod::lemma_fundamental_div_mod(b as int, n);
        let qa = a as int / n;
        let qb = b as int / n;
        assert(n * qb - n * qa == b - a);
        assert(n * qb - n * qa == n * (qb - qa)) by (nonlinear_arith);
        assert(n * (qb - qa) >= n || n * (qb - qa) <= 0) by (nonlinear_arith)
            requires
                n > 0,
        ;
    }
}

/// No session is passed over: among as many consecutive tickets as there are sessions, each
/// session serves one.
pub proof fn law_every_session_has_a_turn(start: nat, sessions: nat, session: nat)
    requires
        sessions > 0,
        session < sessions,
    ensures
        exists|ticket: nat|
            start <= ticket < start + sessions && #[trigger] (ticket % sessions) == session,
{
    let n = sessions as int;
    let q = start as int / n;
    let rest = start as int % n;
    vstd::arithmetic::div_mod::lemma_fundamental_div_mod(start as int, n);
    let turn = if session >= rest {
        q
    } else {
        q + 1
    };
    assert(q >= 0) by (nonlinear_arith)
        requires
            q == start as int / n,
            n > 0,
            start >= 0,
    ;
    assert(n * (q + 1) == n * q + n) by (nonlinear_arith);
    let ticket = (n * turn + session) as nat;
    assert(turn * n == n * turn) by (nonlinear_arith);
    vstd::arithmetic::div_mod::lemma_fundamental_div_mod_converse(
        n * turn + session,
        n,
        turn,
        session as int,
    );
    assert(n * turn >= 0) by (nonlinear_arith)
        requires
            n > 0,
            turn >= 0,
    ;
    assert(ticket % sessions == session);
}

/// Each session has one thread at least, and sessions together use no more threads than there
/// are cores, unless there are more sessions than cores. One thread more for each would be too
/// many.
pub proof fn law_threads_fit_cores(cores: usize, sessions: usize)
    requires
        sessions > 0,
    ensures
        onnx::threads_per_session(cores, sessions) >= 1,
        sessions <= cores ==> sessions * onnx::threads_per_session(
            cores,
            sessions,
        ) <= cores,
        sessions >= cores ==> onnx::threads_per_session(cores, sessions) == 1,
        cores < sessions * (onnx::threads_per_session(cores, sessions) + 1),
{
    let n = sessions as int;
    let q = cores as int / n;
    vstd::arithmetic::div_mod::lemma_fundamental_div_mod(cores as int, n);
    assert(n * (q + 1) == n * q + n) by (nonlinear_arith);
    if sessions <= cores {
        vstd::arithmetic::div_mod::lemma_div_is_ordered(n, cores as int, n);
        vstd::arithmetic::div_mod::lemma_div_by_self(n);
    }
    if sessions >= cores {
        vstd::arithmetic::div_mod::lemma_div_is_ordered(cores as int, n, n);
        vstd::arithmetic::div_mod::lemma_div_by_self(n);
    }
    if q == 0 {
        assert(n * 2 >= n + 1);
    }
}

/// CUDA is asked for by the device names `cuda` and `auto`, letter for letter, and by no other.
pub proof fn law_two_names_ask_for_cuda(device: Seq<char>)
    ensures
        onnx::gpu_device(device) <==> device == seq!['c', 'u', 'd', 'a'] || device == seq![
            'a',
            'u',
            't',
            'o',
        ],
{
    reveal_strlit("cuda");
    reveal_strlit("auto");
    assert("cuda"@ =~= seq!['c', 'u', 'd', 'a']);
    assert("auto"@ =~= seq!['a', 'u', 't', 'o']);
}

/// A closure that only builds sessions on the CPU is enough for a load where CUDA is not asked
/// for or not offered. One that also builds them on CUDA is enough for every load.
pub proof fn law_cpu_builders_suffice_without_cuda<
    S,
    F: Fn(Provider, usize) -> Result<S, String>,
>(device: Seq<char>, count: usize, host: Host, build: F)
    requires
        call_requires(build, (Provider::Cpu, onnx::threads_per_session(host.cores, count))),
    ensures
        !host.cuda ==> OnnxModel::<S>::can_build(device, count, host, build),
        device != "cuda"@ && device != "auto"@ ==> OnnxModel::<S>::can_build(
            device,
            count,
            host,
            build,
        ),
        call_requires(build, (Provider::Cuda, onnx::threads_per_session(host.cores, count)))
            ==> OnnxModel::<S>::can_build(device, count, host, build),
        onnx::may_ask(Provider::Cpu, true) && onnx::may_ask(Provider::Cpu, false),
        onnx::may_ask(Provider::Cuda, true) && !onnx::may_ask(Provider::Cuda, false),
{
}

/// Where CUDA is tried and works, the session runs on it.
pub proof fn law_cuda_is_used_where_it_works<S, F: Fn(Provider, usize) -> Result<S, String>>(
    build: F,
    path: Seq<char>,
    threads: usize,
    r: Result<S, LoadError>,
)
    requires
        onnx::session_built(build, path, true, threads, r),
        forall|built: Result<S, String>|
            call_ensures(build, (Provider::Cuda, threads), built) ==> built is Ok,
    ensures
        r matches Ok(session) && call_ensures(
            build,
            (Provider::Cuda, threads),
            Ok::<S, String>(session),
        ),
{
}

/// Where CUDA is not tried or does not work, the session is what building it on the CPU came to:
/// the session itself, or an error that names the file and the failure.
pub proof fn law_cpu_takes_over<S, F: Fn(Provider, usize) -> Result<S, String>>(
    build: F,
    path: Seq<char>,
    try_cuda: bool,
    threads: usize,
    r: Result<S, LoadError>,
)
    requires
        onnx::session_built(build, path, try_cuda, threads, r),
        try_cuda ==> forall|built: Result<S, String>|
            call_ensures(build, (Provider::Cuda, threads), built) ==> built is Err,
    ensures
        r matches Ok(session) ==> call_ensures(
            build,
            (Provider::Cpu, threads),
            Ok::<S, String>(session),
        ),
        r matches Err(e) ==> (e matches LoadError::Onnx { path: p, detail } && p@ == path
            && call_ensures(build, (Provider::Cpu, threads), Err::<S, String>(detail))),
{
}

/// A model that was loaded keeps its path and has as many sessions as were asked for. Each of them
/// was built for its share of the cores, on the CPU, or on CUDA where that was asked for and
/// offered.
pub proof fn law_loaded_models_have_their_sessions<
    S,
    F: Fn(Provider, usize) -> Result<S, String>,
>(
    path: Seq<char>,
    device: Seq<char>,
    count: usize,
    host: Host,
    build: F,
    model: OnnxModel<S>,
    i: int,
)
    requires
        OnnxModel::<S>::loaded(path, device, count, host, build, Ok(model)),
        0 <= i < count,
    ensures
        model.path() == path,
        model.sessions().len() == count,
        ({
            let share = host.cores as int / count as int;
            let threads = if share == 0 {
                1
            } else {
                share as usize
            };
            ||| call_ensures(
                build,
                (Provider::Cpu, threads),
                Ok::<S, String>(model.sessions()[i]),
            )
            ||| host.cuda && (device == "cuda"@ || device == "auto"@) && call_ensures(
                build,
                (Provider::Cuda, threads),
                Ok::<S, String>(model.sessions()[i]),
            )
        }),
{
    assert(onnx::session_built(
        build,
        path,
        host.cuda && onnx::gpu_device(device),
        onnx::threads_per_session(host.cores, count),
        Ok(model.sessions()[i]),
    ));
}

/// A CUDA failure alone never fails a load: where a load failed, building a session on the CPU
/// failed, and the error names the file and that failure.
pub proof fn law_load_fails_only_on_cpu<S, F: Fn(Provider, usize) -> Result<S, String>>(
    path: Seq<char>,
    device: Seq<char>,
    count: usize,
    host: Host,
    build: F,
    e: LoadError,
)
    requires
        OnnxModel::<S>::loaded(path, device, count, host, build, Err(e)),
    ensures
        e matches LoadError::Onnx { path: p, detail } && p@ == path && call_ensures(
            build,
            (Provider::Cpu, onnx::threads_per_session(host.cores, count)),
            Err::<S, String>(detail),
        ),
{
}

/// Without CUDA, or with a device name that does not ask for it, every session runs on the CPU.
pub proof fn law_cpu_devices_stay_on_cpu<S, F: Fn(Provider, usize) -> Result<S, String>>(
    path: Seq<char>,
    device: Seq<char>,
    count: usize,
    host: Host,
    build: F,
    model: OnnxModel<S>,
    i: int,
)
    requires
        OnnxModel::<S>::loaded(path, device, count, host, build, Ok(model)),
        !host.cuda || !onnx::gpu_device(device),
        0 <= i < count,
    ensures
        call_ensures(
            build,
            (Provider::Cpu, onnx::threads_per_session(host.cores, count)),
            Ok::<S, String>(model.sessions()[i]),
        ),
{
    assert(onnx::session_built(
        build,
        path,
        false,
        onnx::threads_per_session(host.cores, count),
        Ok(model.sessions()[i]),
    ));
}

} // verus!
