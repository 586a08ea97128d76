//! ONNX models: a pool of sessions, the choice of execution provider, and the raw outputs.

use std::marker::PhantomData;
use std::sync::atomic::{AtomicUsize, Ordering};
use std::sync::Arc;

use vstd::prelude::*;

use crate::engine::search::{self, clamp_iterations, search_once, SearchResult, SearchSettings};
use crate::error::{EvaluatorError, LoadError, OutputName};
use crate::inference::batch::{
    self, batch_dims, encode_batch, output_from_row_logits, BatchDims, EnvBatch, Evaluation,
    FloatBits,
};
use crate::inference::forward::{self, evaluate_nothing, forward_input, ForwardInput};
use crate::inference::tensor::{self, split_rows, wide_product, TensorData};

verus! {

/// Where a session runs.
#[derive(Clone, Copy, PartialEq, Eq, Debug, Structural)]
pub enum Provider {
    Cuda,
    Cpu,
}

/// What the machine offers to sessions.
#[derive(Clone, Copy, PartialEq, Eq, Debug, Structural)]
pub struct Host {
    /// The number of processor cores.
    pub cores: usize,
    /// Whether sessions can be asked to run on CUDA at all.
    pub cuda: bool,
}

/// Why a session returned no outputs.
#[derive(Debug)]
pub enum SessionFailure {
    BoardTensor(String),
    ScalarsTensor(String),
    Poisoned(String),
    Run(String),
}

/// The outputs of a session: tensors, or why one could not be extracted.
pub type SessionOutputs = Vec<Result<TensorData, String>>;

/// What a model returned for a batch, before its logits are aligned to an action space.
#[derive(PartialEq, Eq, Debug)]
pub struct RawOutputs {
    pub logits: Vec<Vec<FloatBits>>,
    pub values: Vec<FloatBits>,
    pub health: Option<Vec<Vec<FloatBits>>>,
}

impl View for RawOutputs {
    type V = batch::OutputModel;

    open spec fn view(&self) -> batch::OutputModel {
        batch::OutputModel {
            logits: batch::rows_view(self.logits@),
            values: self.values@,
            health: batch::optional_rows_view(self.health),
        }
    }
}

/// The contents of the result of a forward pass.
pub open spec fn raw_view(r: Result<RawOutputs, EvaluatorError>) -> Result<
    batch::OutputModel,
    EvaluatorError,
> {
    match r {
        Ok(raw) => Ok(raw@),
        Err(e) => Err(e),
    }
}

/// The rows of an output with a second dimension, or why there are none.
pub open spec fn output_rows(
    slot: Option<Result<TensorData, String>>,
    output: OutputName,
    batch: usize,
) -> Result<Seq<Seq<FloatBits>>, EvaluatorError> {
    match slot {
        None => Err(EvaluatorError::OnnxMissingOutput { output }),
        Some(Err(detail)) => Err(EvaluatorError::OnnxExtract { output, detail }),
        Some(Ok(t)) => if t.shape@.len() < 2 {
            Err(EvaluatorError::OnnxOutputDim { output, shape: t.shape })
        } else if t.shape@[1] == 0 {
            if output == OutputName::PolicyLogits {
                Err(EvaluatorError::MissingActionDim)
            } else {
                Err(EvaluatorError::OnnxOutputDim { output, shape: t.shape })
            }
        } else if t.data@.len() < batch * t.shape@[1] {
            Err(
                EvaluatorError::OnnxShortOutput {
                    output,
                    len: t.data@.len() as usize,
                    needed: (batch * t.shape@[1]) as u128,
                },
            )
        } else {
            Ok(tensor::rows_of(t.data@, t.shape@[1] as nat, batch as nat))
        },
    }
}

/// The values of a batch, or why there are none.
pub open spec fn output_values(slot: Option<Result<TensorData, String>>, batch: usize) -> Result<
    Seq<FloatBits>,
    EvaluatorError,
> {
    match slot {
        None => Err(EvaluatorError::OnnxMissingOutput { output: OutputName::Value }),
        Some(Err(detail)) => Err(EvaluatorError::OnnxExtractTensor { detail }),
        Some(Ok(t)) => if t.data@.len() < batch {
            Err(EvaluatorError::ValueLength { len: t.data@.len() as usize, batch })
        } else {
            Ok(t.data@.take(batch as int))
        },
    }
}

/// The output in a place, if the session returned that many.
pub open spec fn slot_at(
    outputs: Seq<Result<TensorData, String>>,
    i: int,
) -> Option<Result<TensorData, String>> {
    if i < outputs.len() {
        Some(outputs[i])
    } else {
        None
    }
}

/// What the outputs of a session amount to: policy logits, values and, where there is a third
/// output, health logits. Of several faults the first in this order is reported.
pub open spec fn raw_model(outputs: Seq<Result<TensorData, String>>, batch: usize) -> Result<
    batch::OutputModel,
    EvaluatorError,
> {
    match (
        output_rows(slot_at(outputs, 0), OutputName::PolicyLogits, batch),
        output_values(slot_at(outputs, 1), batch),
        output_rows(slot_at(outputs, 2), OutputName::Health, batch),
    ) {
        (Err(e), _, _) => Err(e),
        (_, Err(e), _) => Err(e),
        (Ok(logits), Ok(values), health) => if outputs.len() < 3 {
            Ok(batch::OutputModel { logits, values, health: None })
        } else {
            match health {
                Err(e) => Err(e),
                Ok(rows) => Ok(
                    batch::OutputModel { logits, values, health: Some(rows) },
                ),
            }
        },
    }
}

/// What the reply of a session amounts to.
pub open spec fn reply_model(reply: Result<SessionOutputs, SessionFailure>, batch: usize) -> Result<
    batch::OutputModel,
    EvaluatorError,
> {
    match reply {
        Err(SessionFailure::BoardTensor(detail)) => Err(EvaluatorError::OnnxBoardTensor { detail }),
        Err(SessionFailure::ScalarsTensor(detail)) => Err(
            EvaluatorError::OnnxScalarsTensor { detail },
        ),
        Err(SessionFailure::Poisoned(detail)) => Err(
            EvaluatorError::OnnxSessionPoisoned { detail },
        ),
        Err(SessionFailure::Run(detail)) => Err(EvaluatorError::OnnxRun { detail }),
        Ok(outputs) => raw_model(outputs@, batch),
    }
}

/// The rows of an output with a second dimension.
fn extract_rows(
    slot: Option<Result<TensorData, String>>,
    output: OutputName,
    batch: usize,
) -> (r: Result<Vec<Vec<FloatBits>>, EvaluatorError>)
    ensures
        match r {
            Ok(rows) => output_rows(slot, output, batch) == Ok::<_, EvaluatorError>(
                batch::rows_view(rows@),
            ),
            Err(e) => output_rows(slot, output, batch) == Err::<Seq<Seq<FloatBits>>, _>(e),
        },
{
    let extracted = match slot {
        Some(extracted) => extracted,
        None => {
            return Err(EvaluatorError::OnnxMissingOutput { output });
        },
    };
    let t = match extracted {
        Ok(t) => t,
        Err(detail) => {
            return Err(EvaluatorError::OnnxExtract { output, detail });
        },
    };
    if t.shape.len() < 2 {
        return Err(EvaluatorError::OnnxOutputDim { output, shape: t.shape });
    }
    let width: usize = t.shape[1];
    if width == 0 {
        return if output == OutputName::PolicyLogits {
            Err(EvaluatorError::MissingActionDim)
        } else {
            Err(EvaluatorError::OnnxOutputDim { output, shape: t.shape })
        };
    }
    let needed: u128 = wide_product(batch, width);
    if (t.data.len() as u128) < needed {
        return Err(EvaluatorError::OnnxShortOutput { output, len: t.data.len(), needed });
    }
    Ok(split_rows(t.data.as_slice(), width, batch))
}

/// The values of a batch.
fn extract_values(slot: Option<Result<TensorData, String>>, batch: usize) -> (r: Result<
    Vec<FloatBits>,
    EvaluatorError,
>)
    ensures
        match r {
            Ok(values) => output_values(slot, batch) == Ok::<_, EvaluatorError>(values@),
            Err(e) => output_values(slot, batch) == Err::<Seq<FloatBits>, _>(e),
        },
{
    match slot {
        None => Err(EvaluatorError::OnnxMissingOutput { output: OutputName::Value }),
        Some(Err(detail)) => Err(EvaluatorError::OnnxExtractTensor { detail }),
        Some(Ok(t)) => if t.data.len() < batch {
            Err(EvaluatorError::ValueLength { len: t.data.len(), batch })
        } else {
            let mut values = t.data;
            values.truncate(batch);
            assert(values@ =~= t.data@.take(batch as int));
            Ok(values)
        },
    }
}

/// Reads the outputs of a session for a batch.
pub fn raw_outputs(outputs: SessionOutputs, batch: usize) -> (r: Result<RawOutputs, EvaluatorError>)
    ensures
        raw_view(r) == raw_model(outputs@, batch),
{
    let mut rest = outputs;
    rest.truncate(3);
    let has_health = rest.len() == 3;
    let health_slot = if has_health {
        rest.pop()
    } else {
        None
    };
    let value_slot = if rest.len() == 2 {
        rest.pop()
    } else {
        None
    };
    let policy_slot = rest.pop();
    let logits = match extract_rows(policy_slot, OutputName::PolicyLogits, batch) {
        Ok(rows) => rows,
        Err(e) => {
            return Err(e);
        },
    };
    let values = match extract_values(value_slot, batch) {
        Ok(values) => values,
        Err(e) => {
            return Err(e);
        },
    };
    let health = if has_health {
        match extract_rows(health_slot, OutputName::Health, batch) {
            Ok(rows) => Some(rows),
            Err(e) => {
                return Err(e);
            },
        }
    } else {
        None
    };
    Ok(RawOutputs { logits, values, health })
}

/// Reads the reply of a session for a batch.
pub fn read_reply(reply: Result<SessionOutputs, SessionFailure>, batch: usize) -> (r: Result<
    RawOutputs,
    EvaluatorError,
>)
    ensures
        raw_view(r) == reply_model(reply, batch),
{
    match reply {
        Err(SessionFailure::BoardTensor(detail)) => Err(EvaluatorError::OnnxBoardTensor { detail }),
        Err(SessionFailure::ScalarsTensor(detail)) => Err(
            EvaluatorError::OnnxScalarsTensor { detail },
        ),
        Err(SessionFailure::Poisoned(detail)) => Err(
            EvaluatorError::OnnxSessionPoisoned { detail },
        ),
        Err(SessionFailure::Run(detail)) => Err(EvaluatorError::OnnxRun { detail }),
        Ok(outputs) => raw_outputs(outputs, batch),
    }
}

/// Whether a device name asks for CUDA.
pub open spec fn gpu_device(device: Seq<char>) -> bool {
    device == "cuda"@ || device == "auto"@
}

/// Whether a device name asks for CUDA.
pub fn prefers_gpu(device: &str) -> (r: bool)
    ensures
        r == gpu_device(device@),
{
    let name = device.to_owned();
    name == "cuda".to_owned() || name == "auto".to_owned()
}

/// The number of threads that each of `sessions` sessions may use.
pub open spec fn threads_per_session(cores: usize, sessions: usize) -> usize {
    if cores / sessions == 0 {
        1
    } else {
        cores / sessions
    }
}

/// The number of threads that each of `sessions` sessions may use.
pub fn intra_threads(cores: usize, sessions: usize) -> (r: usize)
    requires
        sessions > 0,
    ensures
        r == threads_per_session(cores, sessions),
{
    let share: usize = cores / sessions;
    if share == 0 {
        1
    } else {
        share
    }
}

/// The session that serves a ticket.
pub fn session_index(ticket: usize, sessions: usize) -> (r: usize)
    requires
        sessions > 0,
    ensures
        r == ticket % sessions,
{
    ticket % sessions
}

/// `r` is what building a session on the CPU came to.
pub open spec fn cpu_session<S>(
    path: Seq<char>,
    built: Result<S, String>,
    r: Result<S, LoadError>,
) -> bool {
    match built {
        Ok(session) => r == Ok::<S, LoadError>(session),
        Err(d) => r matches Err(LoadError::Onnx { path: p, detail }) && p@ == path && detail == d,
    }
}

/// `r` is what building a session came to: where CUDA is tried and works, the session on CUDA,
/// else what building it on the CPU came to.
pub open spec fn session_built<S, F: Fn(Provider, usize) -> Result<S, String>>(
    build: F,
    path: Seq<char>,
    try_cuda: bool,
    threads: usize,
    r: Result<S, LoadError>,
) -> bool {
    let on_cpu = exists|built: Result<S, String>| #[trigger]
        call_ensures(build, (Provider::Cpu, threads), built) && cpu_session(path, built, r);
    if try_cuda {
        exists|built: Result<S, String>| #[trigger]
            call_ensures(build, (Provider::Cuda, threads), built) && match built {
                Ok(session) => r == Ok::<S, LoadError>(session),
                Err(_) => on_cpu,
            }
    } else {
        on_cpu
    }
}

/// Whether a session may be asked for on a provider: on the CPU always, on CUDA only where that
/// is tried.
pub open spec fn may_ask(provider: Provider, try_cuda: bool) -> bool {
    provider == Provider::Cpu || try_cuda
}

/// Builds a session, on CUDA where that is tried and works, else on the CPU. Where CUDA is not to
/// be tried, `build` is never called for it.
pub fn build_session<S, F: Fn(Provider, usize) -> Result<S, String>>(
    model_path: &str,
    try_cuda: bool,
    threads: usize,
    build: &F,
) -> (r: Result<S, LoadError>)
    requires
        forall|provider: Provider|
            may_ask(provider, try_cuda) ==> #[trigger] call_requires(*build, (provider, threads)),
    ensures
        session_built(*build, model_path@, try_cuda, threads, r),
{
    if try_cuda {
        match build(Provider::Cuda, threads) {
            Ok(session) => {
                return Ok(session);
            },
            Err(_) => {},
        }
    }
    match build(Provider::Cpu, threads) {
        Ok(session) => Ok(session),
        Err(detail) => Err(LoadError::Onnx { path: model_path.to_owned(), detail }),
    }
}

/// Adds one to a counter with `count`.
fn draw_with<F: Fn(&AtomicUsize, usize, Ordering) -> usize>(next: &AtomicUsize, count: F) -> (r:
    usize)
    requires
        call_requires(count, (next, 1usize, Ordering::Relaxed)),
    ensures
        call_ensures(count, (next, 1usize, Ordering::Relaxed), r),
{
    count(next, 1, Ordering::Relaxed)
}

/// An ONNX model, held by one or more sessions that take turns.
pub struct OnnxModel<S> {
    sessions: Vec<S>,
    next: AtomicUsize,
    model_path: String,
}

impl<S> OnnxModel<S> {
    /// A model has at least one session.
    #[verifier::type_invariant]
    spec fn has_session(&self) -> bool {
        self.sessions@.len() > 0
    }

    /// The sessions of the model.
    pub closed spec fn sessions(&self) -> Seq<S> {
        self.sessions@
    }

    /// The path that the model was loaded from.
    pub closed spec fn path(&self) -> Seq<char> {
        self.model_path@
    }

    /// `build` can be called for what a load may ask of it: sessions with their share of the
    /// cores, on the CPU, and on CUDA only where the device name asks for that and the host
    /// offers it.
    pub open spec fn can_build<F: Fn(Provider, usize) -> Result<S, String>>(
        device: Seq<char>,
        count: usize,
        host: Host,
        build: F,
    ) -> bool {
        forall|provider: Provider|
            may_ask(provider, host.cuda && gpu_device(device)) ==> #[trigger] call_requires(
                build,
                (provider, threads_per_session(host.cores, count)),
            )
    }

    /// `r` is a model with `count` sessions, each of them built for its share of the cores, or
    /// the error of the first session that could not be built.
    pub open spec fn loaded<F: Fn(Provider, usize) -> Result<S, String>>(
        model_path: Seq<char>,
        device: Seq<char>,
        count: usize,
        host: Host,
        build: F,
        r: Result<Self, LoadError>,
    ) -> bool {
        let try_cuda = host.cuda && gpu_device(device);
        let threads = threads_per_session(host.cores, count);
        match r {
            Ok(model) => {
                &&& model.path() == model_path
                &&& model.sessions().len() == count
                &&& forall|i: int|
                    0 <= i < count ==> session_built(
                        build,
                        model_path,
                        try_cuda,
                        threads,
                        Ok(#[trigger] model.sessions()[i]),
                    )
            },
            Err(e) => session_built(build, model_path, try_cuda, threads, Err(e)),
        }
    }

    /// Loads a model into `count` sessions. A session is built on CUDA where the device name asks
    /// for that, the host offers it and it works, else on the CPU. In all other cases `build` is
    /// never called for CUDA.
    pub fn with_sessions<F: Fn(Provider, usize) -> Result<S, String>>(
        model_path: &str,
        device: &str,
        count: usize,
        host: Host,
        build: F,
    ) -> (r: Result<Self, LoadError>)
        requires
            count > 0,
            Self::can_build(device@, count, host, build),
        ensures
            Self::loaded(model_path@, device@, count, host, build, r),
    {
        let try_cuda = host.cuda && prefers_gpu(device);
        let threads: usize = intra_threads(host.cores, count);
        let mut sessions: Vec<S> = Vec::new();
        while sessions.len() < count
            invariant
                sessions@.len() <= count,
                Self::can_build(device@, count, host, build),
                try_cuda == (host.cuda && gpu_device(device@)),
                threads == threads_per_session(host.cores, count),
                forall|i: int|
                    0 <= i < sessions@.len() ==> session_built(
                        build,
                        model_path@,
                        try_cuda,
                        threads,
                        Ok(#[trigger] sessions@[i]),
                    ),
            decreases count - sessions@.len(),
        {
            match build_session(model_path, try_cuda, threads, &build) {
                Ok(session) => {
                    sessions.push(session);
                },
                Err(e) => {
                    return Err(e);
                },
            }
        }
        Ok(OnnxModel { sessions, next: AtomicUsize::new(0), model_path: model_path.to_owned() })
    }

    /// Loads a model into a single session. The device name `cpu` keeps it on the CPU.
    pub fn new<F: Fn(Provider, usize) -> Result<S, String>>(
        model_path: &str,
        device: &str,
        host: Host,
        build: F,
    ) -> (r: Result<Self, LoadError>)
        requires
            Self::can_build(device@, 1, host, build),
        ensures
            Self::loaded(model_path@, device@, 1, host, build, r),
    {
        Self::with_sessions(model_path, device, 1, host, build)
    }

    /// The path that the model was loaded from.
    pub fn model_path(&self) -> (r: &str)
        ensures
            r@ == self.path(),
    {
        self.model_path.as_str()
    }

    /// The number of sessions.
    pub fn session_count(&self) -> (r: usize)
        ensures
            r == self.sessions().len(),
            r > 0,
    {
        proof {
            use_type_invariant(self);
        }
        self.sessions.len()
    }

    /// The session that serves a ticket.
    pub fn session_for(&self, ticket: usize) -> (r: &S)
        ensures
            self.sessions().len() > 0,
            *r == self.sessions()[ticket as int % self.sessions().len() as int],
    {
        proof {
            use_type_invariant(self);
        }
        &self.sessions[session_index(ticket, self.sessions.len())]
    }

    /// `ticket` was drawn from the counter of the model, which went up by one.
    pub closed spec fn drew(&self, ticket: usize) -> bool {
        call_ensures(AtomicUsize::fetch_add, (&self.next, 1usize, Ordering::Relaxed), ticket)
    }

    /// Draws a ticket.
    fn draw_ticket(&self) -> (r: usize)
        ensures
            self.drew(r),
    {
        draw_with(&self.next, AtomicUsize::fetch_add)
    }

    /// The session that serves a ticket.
    pub open spec fn serving(&self, ticket: usize) -> S {
        self.sessions()[ticket as int % self.sessions().len() as int]
    }

    /// `r` is what the session that serves a drawn ticket came to, run once on `features`.
    pub open spec fn ran<F: FnOnce(&S, &ForwardInput) -> Result<SessionOutputs, SessionFailure>>(
        &self,
        features: forward::ForwardModel,
        batch: usize,
        infer: F,
        r: Result<RawOutputs, EvaluatorError>,
    ) -> bool {
        exists|ticket: usize, input: ForwardInput, reply: Result<SessionOutputs, SessionFailure>|
            self.drew(ticket) && self.sessions().len() > 0 && input@ == features
                && #[trigger] call_ensures(infer, (&self.serving(ticket), &input), reply)
                && raw_view(r) == reply_model(reply, batch)
    }

    /// Runs a forward pass on the session whose turn it is. It is given the inputs `board`, of
    /// shape batch, channels, rows and columns, and `scalars`, of shape batch and scalars.
    ///
    /// Whose turn it is goes by the ticket that is drawn. Which ticket that is depends on the calls
    /// that other threads make, so the contract does not give its number.
    pub fn run<F: FnOnce(&S, &ForwardInput) -> Result<SessionOutputs, SessionFailure>>(
        &self,
        board_data: &[FloatBits],
        scalars_data: &[FloatBits],
        batch_size: usize,
        board_channels: usize,
        board_rows: usize,
        board_cols: usize,
        scalar_count: usize,
        infer: F,
    ) -> (r: Result<RawOutputs, EvaluatorError>)
        requires
            forall|session: &S, input: &ForwardInput|
                self.sessions().contains(*session) && input@ == forward::features(
                    (BatchDims {
                        batch: batch_size,
                        channels: board_channels,
                        rows: board_rows,
                        cols: board_cols,
                        scalars: scalar_count,
                    }),
                    board_data@,
                    scalars_data@,
                ) ==> call_requires(infer, (session, input)),
        ensures
            self.ran(
                forward::features(
                    (BatchDims {
                        batch: batch_size,
                        channels: board_channels,
                        rows: board_rows,
                        cols: board_cols,
                        scalars: scalar_count,
                    }),
                    board_data@,
                    scalars_data@,
                ),
                batch_size,
                infer,
                r,
            ),
    {
        let dims = BatchDims {
            batch: batch_size,
            channels: board_channels,
            rows: board_rows,
            cols: board_cols,
            scalars: scalar_count,
        };
        let input = forward_input(
            &dims,
            vstd::slice::slice_to_vec(board_data),
            vstd::slice::slice_to_vec(scalars_data),
        );
        let ticket: usize = self.draw_ticket();
        let session = self.session_for(ticket);
        let reply = infer(session, &input);
        assert(*session == self.serving(ticket));
        read_reply(reply, batch_size)
    }
}

/// A ticket is what adding one to the counter of the model gave back.
proof fn law_tickets_come_from_the_counter<S>(model: &OnnxModel<S>, ticket: usize)
    requires
        model.drew(ticket),
    ensures
        call_ensures(AtomicUsize::fetch_add, (&model.next, 1usize, Ordering::Relaxed), ticket),
{
}

/// The outputs of a session, once read, match the batch: a row of logits and a value for each
/// environment, all rows of the same width, which is not zero.
pub proof fn law_raw_outputs_match_batch(outputs: Seq<Result<TensorData, String>>, batch: usize)
    ensures
        raw_model(outputs, batch) matches Ok(raw) ==> {
            &&& raw.logits.len() == batch
            &&& raw.values.len() == batch
            &&& forall|i: int|
                0 <= i < batch ==> (#[trigger] raw.logits[i]).len() == raw.logits[0].len()
            &&& batch > 0 ==> raw.logits[0].len() > 0
            &&& raw.health matches Some(rows) ==> rows.len() == batch
        },
{
    if let Ok(raw) = raw_model(outputs, batch) {
        let t = outputs[0]->Ok_0;
        let width = t.shape@[1] as nat;
        assert forall|i: int| 0 <= i < batch implies (#[trigger] raw.logits[i]).len() == width by {
            tensor::lemma_row_within(i, width, batch as nat);
        }
    }
}

/// The evaluation that raw outputs amount to.
pub open spec fn onnx_evaluation(
    raw: Result<batch::OutputModel, EvaluatorError>,
    batch: usize,
    action_space: usize,
) -> Result<batch::EvaluationModel, EvaluatorError> {
    match raw {
        Err(e) => Err(e),
        Ok(raw) => batch::row_evaluation(
            raw.logits,
            batch,
            action_space,
            raw.values,
            raw.health,
        ),
    }
}

/// Turns the reply of a session into the evaluation of a batch.
pub fn finish_onnx(
    reply: Result<SessionOutputs, SessionFailure>,
    batch: usize,
    action_space: usize,
) -> (r: Result<Evaluation, EvaluatorError>)
    ensures
        batch::evaluation_view(r) == onnx_evaluation(
            reply_model(reply, batch),
            batch,
            action_space,
        ),
{
    align_raw(read_reply(reply, batch), batch, action_space)
}

/// Aligns raw outputs to an action space.
fn align_raw(
    raw: Result<RawOutputs, EvaluatorError>,
    batch: usize,
    action_space: usize,
) -> (r: Result<Evaluation, EvaluatorError>)
    ensures
        batch::evaluation_view(r) == onnx_evaluation(
            raw_view(raw),
            batch,
            action_space,
        ),
{
    match raw {
        Err(e) => Err(e),
        Ok(raw) => {
            output_from_row_logits(
                raw.logits.as_slice(),
                batch,
                action_space,
                raw.values,
                raw.health,
            )
        },
    }
}

/// Evaluates batches with a shared model.
pub struct OnnxEvaluator<S> {
    pub model: Arc<OnnxModel<S>>,
}

impl<S> OnnxEvaluator<S> {
    pub fn new(model: Arc<OnnxModel<S>>) -> (r: Self)
        ensures
            r.model == model,
    {
        OnnxEvaluator { model }
    }

    /// `r` is the evaluation of a batch: no session is asked for an empty batch; else the one that
    /// serves a drawn ticket is run once, on the features of the batch, and its reply is turned
    /// into the evaluation.
    pub open spec fn evaluated<
        F: FnOnce(&S, &ForwardInput) -> Result<SessionOutputs, SessionFailure>,
    >(&self, batch: EnvBatch, infer: F, r: Result<Evaluation, EvaluatorError>) -> bool {
        if batch.envs@.len() == 0 {
            batch::evaluation_view(r) == forward::empty_evaluation()
        } else {
            exists|
                ticket: usize,
                input: ForwardInput,
                reply: Result<SessionOutputs, SessionFailure>,
            |
                self.model.drew(ticket) && self.model.sessions().len() > 0 && input@
                    == forward::input_of(batch) && #[trigger] call_ensures(
                    infer,
                    (&self.model.serving(ticket), &input),
                    reply,
                ) && batch::evaluation_view(r) == onnx_evaluation(
                    reply_model(reply, batch.envs@.len() as usize),
                    batch.envs@.len() as usize,
                    forward::actions_of(batch),
                )
        }
    }

    /// Evaluates a batch. The forward pass of a session is `infer`.
    pub fn evaluate<F: FnOnce(&S, &ForwardInput) -> Result<SessionOutputs, SessionFailure>>(
        &self,
        batch: &EnvBatch,
        infer: F,
    ) -> (r: Result<Evaluation, EvaluatorError>)
        requires
            batch.well_formed(),
            forall|session: &S, input: &ForwardInput|
                batch.envs@.len() > 0 && self.model.sessions().contains(*session) && input@
                    == forward::input_of(*batch) ==> call_requires(infer, (session, input)),
        ensures
            self.evaluated(*batch, infer, r),
    {
        match &batch.lead {
            None => Ok(evaluate_nothing()),
            Some(lead) => {
                let dims = batch_dims(batch.envs.len(), lead);
                let (board, scalars) = encode_batch(batch.envs.as_slice());
                let raw = self.model.run(
                    board.as_slice(),
                    scalars.as_slice(),
                    dims.batch,
                    dims.channels,
                    dims.rows,
                    dims.cols,
                    dims.scalars,
                    infer,
                );
                align_raw(raw, dims.batch, lead.action_space)
            },
        }
    }
}

/// A policy that searches with a shared model, in environments of type `G`. Each choice starts a
/// search of its own.
pub struct OnnxMctsPolicy<S, G> {
    model: Arc<OnnxModel<S>>,
    num_simulations: usize,
    _marker: PhantomData<G>,
}

impl<S, G> OnnxMctsPolicy<S, G> {
    /// The model that the policy searches with.
    pub closed spec fn model(&self) -> Arc<OnnxModel<S>> {
        self.model
    }

    /// The number of simulations of a search.
    pub closed spec fn iterations(&self) -> usize {
        self.num_simulations
    }

    pub fn new(model: Arc<OnnxModel<S>>, _env: &G, num_simulations: usize) -> (r: Self)
        ensures
            r.model() == model,
            r.iterations() == num_simulations,
    {
        OnnxMctsPolicy { model, num_simulations, _marker: PhantomData }
    }

    /// Sets the number of simulations, to one at least.
    pub fn set_iterations(&mut self, sims: usize)
        ensures
            final(self).iterations() == search::at_least_one(sims),
            final(self).iterations() >= 1,
            final(self).model() == old(self).model(),
    {
        self.num_simulations = clamp_iterations(sims);
    }

    /// Chooses an action by one search, which is `search`. Its failure is returned as it is.
    pub fn choose_action<E, F: FnOnce(&Arc<OnnxModel<S>>, &G, SearchSettings) -> Result<
        Option<SearchResult>,
        E,
    >>(&self, env: &G, search: F) -> (r: Result<Option<usize>, E>)
        requires
            call_requires(
                search,
                (&self.model(), env, search::settings_for(self.iterations())),
            ),
        ensures
            search::searched_once(
                &self.model(),
                env,
                self.iterations(),
                search,
                r,
            ),
    {
        onnx_choose_action_once(&self.model, env, self.num_simulations, search)
    }
}

/// Chooses an action by one search with a model, which is `search`.
pub fn onnx_choose_action_once<S, G, E, F: FnOnce(&Arc<OnnxModel<S>>, &G, SearchSettings) -> Result<
    Option<SearchResult>,
    E,
>>(model: &Arc<OnnxModel<S>>, env: &G, num_simulations: usize, search: F) -> (r: Result<
    Option<usize>,
    E,
>)
    requires
        call_requires(
            search,
            (model, env, search::settings_for(num_simulations)),
        ),
    ensures
        search::searched_once(model, env, num_simulations, search, r),
{
    search_once(model, env, num_simulations, search)
}

} // verus!
