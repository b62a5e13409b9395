//! The inference pipeline: lazily constructed model and tokenizer handles
//! shared behind reader-writer locks, and the per-call chain of
//! pre-filter, token encoding, tensor building and one forward pass.
//!
//! The engine itself (ONNX Runtime) and the tokenizer are opaque
//! collaborators: every call into them goes through a small trusted
//! wrapper, and everything around those calls is verified.  The raw
//! output scores of a forward pass come back as an opaque tensor value;
//! turning them into the final decision string is the score policy's job
//! (a floating-point step that lives with the host glue), fed by
//! [`crate::decision::render_decision`].

use vstd::prelude::*;
use vstd::rwlock::RwLock;
use vstd::string::*;
use std::borrow::Cow;
use ort::session::builder::GraphOptimizationLevel;
use ort::session::{Session, SessionInputValue};
use ort::value::DynValue;
use tokenizers::{Encoding, Tokenizer};
use crate::prefilter;

verus! {

#[verifier::external_type_specification]
#[verifier::external_body]
pub struct ExSession(Session);

#[verifier::external_type_specification]
#[verifier::external_body]
pub struct ExTokenizer(Tokenizer);

#[verifier::external_type_specification]
#[verifier::external_body]
pub struct ExEncoding(Encoding);

/// The raw output tensor of one forward pass, carried opaquely from the
/// engine to the scoring step.  The engine's value type cannot be
/// declared to the verifier (its marker parameter is bound by an engine
/// trait), so the handle is held behind this opaque wrapper instead; the
/// scoring step takes it apart.
#[verifier::external_body]
pub struct RawTensor {
    pub inner: DynValue,
}

/// The token ids an encoding holds, in order.
pub uninterp spec fn ids_of(e: Encoding) -> Seq<u32>;

/// The attention-mask values an encoding holds, parallel to its token ids.
pub uninterp spec fn mask_of(e: Encoding) -> Seq<u32>;

/// The cells a row tensor holds, in row-major order.
pub uninterp spec fn tensor_cells(t: RawTensor) -> Seq<i64>;

/// The shape of a row tensor: (rows, columns).
pub uninterp spec fn tensor_shape(t: RawTensor) -> (int, int);

/// Relies on ort::init_from (probing that the runtime library is present,
/// so that no later engine call panics), ort::session::Session::builder,
/// SessionBuilder::with_optimization_level and
/// SessionBuilder::commit_from_file: loads an inference graph from a
/// file.  Whether any of these steps fails depends on the machine and on
/// what is on disk, so nothing is promised; every failure yields `None`.
/// The loader hands the runtime's bare library name to ort, which falls
/// back to the system loader's search path; ort resolves such a relative
/// name against the running executable's directory first and would panic
/// only if that directory cannot be read at all.
#[verifier::external_body]
fn load_session(model_path: String) -> (r: Option<Session>) {
    if ort::init_from("libonnxruntime.so").is_err() {
        return None;
    }
    let builder = Session::builder().ok()?;
    let mut builder = builder.with_optimization_level(GraphOptimizationLevel::Level1).ok()?;
    builder.commit_from_file(model_path).ok()
}

/// Relies on tokenizers::Tokenizer::from_file: loads a tokenizer from a
/// file.  The result depends on what is on disk, so nothing is promised;
/// a failed load yields `None`.
#[verifier::external_body]
fn load_tokenizer(tokenizer_path: String) -> (r: Option<Tokenizer>) {
    Tokenizer::from_file(tokenizer_path).ok()
}

/// Relies on tokenizers::Tokenizer::encode with the add-special-tokens
/// flag set, matching the model's training format.  What the encoding
/// holds depends on the loaded tokenizer, which is opaque here, so
/// nothing is promised of the `Some` case; an internal tokenizer error
/// yields `None`.
#[verifier::external_body]
fn encode_text(tokenizer: &Tokenizer, text: &str) -> (r: Option<Encoding>) {
    tokenizer.encode(text, true).ok()
}

/// Relies on tokenizers::Encoding::get_ids: hands out the token ids the
/// encoding holds.
#[verifier::external_body]
fn encoding_token_ids(enc: &Encoding) -> (r: Vec<u32>)
    ensures
        r@ == ids_of(*enc),
{
    enc.get_ids().to_vec()
}

/// Relies on tokenizers::Encoding::get_attention_mask: hands out the
/// attention-mask values the encoding holds.
#[verifier::external_body]
fn encoding_attention_mask(enc: &Encoding) -> (r: Vec<u32>)
    ensures
        r@ == mask_of(*enc),
{
    enc.get_attention_mask().to_vec()
}

/// Relies on ndarray::Array2::from_shape_vec, which lays the vector out
/// as the rank-2 array's single row, and ort::value::Tensor::from_array,
/// which copies the array's shape and cells into the engine's value (the
/// final conversion only erases the value's static type): the tensor
/// handed back holds exactly the given row, in shape (1, n).  The
/// intermediate array type never leaves this body.  Allocation or engine
/// failure yields `None`.
#[verifier::external_body]
fn row_tensor(row: Vec<i64>) -> (r: Option<RawTensor>)
    ensures
        r matches Some(t) ==> (tensor_cells(t) == row@ && tensor_shape(t) == (
        1int,
        row@.len() as int,
        )),
{
    let n = row.len();
    let array = ndarray::Array2::from_shape_vec((1, n), row).ok()?;
    let tensor = ort::value::Tensor::from_array(array).ok()?;
    Some(RawTensor { inner: tensor.into_dyn() })
}

/// Relies on ort::session::Session::run, binding the two tensors under
/// the names "input_ids" and "attention_mask", and on
/// SessionOutputs::into_iter, which yields the output tensors in the
/// graph's declared order: performs one forward pass and hands back the
/// first output.  What comes back depends on the loaded graph, so nothing
/// is promised; a failed run, or a graph with no outputs, yields `None`.
/// The caller must hand two rank-2 single-row tensors of one common
/// width: that is the loaded graph's declared input contract, and the
/// verified pipeline establishes it from the encoding before any run.
#[verifier::external_body]
fn run_forward(session: &mut Session, ids: RawTensor, mask: RawTensor) -> (r: Option<RawTensor>)
    requires
        tensor_shape(ids).0 == 1,
        tensor_shape(mask) == tensor_shape(ids),
{
    let inputs: Vec<(Cow<str>, SessionInputValue)> = vec![
        ("input_ids".into(), ids.inner.into()),
        ("attention_mask".into(), mask.inner.into()),
    ];
    match session.run(inputs) {
        Ok(outputs) => outputs.into_iter().next().map(|p| RawTensor { inner: p.1 }),
        Err(_) => None,
    }
}

/// One call's outcome: either the raw output scores of a forward pass,
/// still to be turned into a decision, or one of the distinguishable
/// short-circuit answers.
pub enum CheckOutcome {
    /// The pre-filter rejected the input; no model work was done.
    Rejected,
    /// Model or tokenizer handle is absent.
    NotInitialized,
    /// The tokenizer failed to encode the text, or handed back
    /// mismatched id and mask rows.
    EncodingFailed,
    /// Building the input tensors or the forward pass itself failed.
    InferenceFailed,
    /// The first output tensor of a successful forward pass.
    RawScores(RawTensor),
}

/// The wire string each outcome is owed: fixed for everything short of
/// raw scores, whose rendering depends on the scores themselves.
pub open spec fn fixed_message(r: CheckOutcome) -> Option<Seq<char>> {
    match r {
        CheckOutcome::Rejected => Some("IGNORE|0.0"@),
        CheckOutcome::NotInitialized => Some("ERROR_NOT_INIT"@),
        CheckOutcome::EncodingFailed => Some("ERROR_TOKENIZER"@),
        CheckOutcome::InferenceFailed => Some("ERROR_INFERENCE"@),
        CheckOutcome::RawScores(_) => None,
    }
}

impl CheckOutcome {
    /// The wire string for every outcome that the scoring step never
    /// sees; the raw-scores case has no fixed string, its rendering
    /// depends on the scores.
    pub fn message(&self) -> (r: Option<String>)
        ensures
            r matches Some(s) ==> fixed_message(*self) == Some(s@),
            r is None <==> fixed_message(*self) is None,
    {
        match self {
            CheckOutcome::Rejected => Some(String::from_str("IGNORE|0.0")),
            CheckOutcome::NotInitialized => Some(String::from_str("ERROR_NOT_INIT")),
            CheckOutcome::EncodingFailed => Some(String::from_str("ERROR_TOKENIZER")),
            CheckOutcome::InferenceFailed => Some(String::from_str("ERROR_INFERENCE")),
            CheckOutcome::RawScores(_) => None,
        }
    }
}

/// The invariant each handle lock carries: whether the slot is filled
/// never changes after construction, only the handle inside may be
/// replaced.
pub open spec fn stored_pred<T>(loaded: bool) -> spec_fn(Option<T>) -> bool {
    |v: Option<T>| (v is Some) == loaded
}

/// The shared state: at most one live model handle and one live
/// tokenizer handle, each behind its own lock, loaded once at
/// construction.  A failed load leaves an absent slot, never an error.
pub struct AiModel {
    session: RwLock<Option<Session>, spec_fn(Option<Session>) -> bool>,
    tokenizer: RwLock<Option<Tokenizer>, spec_fn(Option<Tokenizer>) -> bool>,
    session_loaded: Ghost<bool>,
    tokenizer_loaded: Ghost<bool>,
}

/// Converts one row of tokenizer output (ids or mask) to the 64-bit
/// representation the inference graph's input contract requires.
fn widen_row(row: &Vec<u32>) -> (r: Vec<i64>)
    ensures
        r@ == row@.map_values(|x: u32| x as i64),
{
    let mut out: Vec<i64> = Vec::new();
    let mut i: usize = 0;
    while i < row.len()
        invariant
            i <= row@.len(),
            out@ == row@.subrange(0, i as int).map_values(|x: u32| x as i64),
        decreases row@.len() - i,
    {
        out.push(row[i] as i64);
        proof {
            assert(row@.subrange(0, i as int + 1).map_values(|x: u32| x as i64) =~= row@.subrange(
                0,
                i as int,
            ).map_values(|x: u32| x as i64).push(row@[i as int] as i64));
        }
        i = i + 1;
    }
    proof {
        assert(row@.subrange(0, row@.len() as int) =~= row@);
    }
    out
}

/// Turns an encoding into the parallel 64-bit id and mask rows that the
/// tensor builder consumes.  The two rows must have one common length;
/// an encoding violating that is refused rather than truncated or
/// padded.
pub fn encoding_rows(enc: &Encoding) -> (r: Option<(Vec<i64>, Vec<i64>)>)
    ensures
        r matches Some(p) ==> {
            &&& p.0@ == ids_of(*enc).map_values(|x: u32| x as i64)
            &&& p.1@ == mask_of(*enc).map_values(|x: u32| x as i64)
            &&& p.0@.len() == p.1@.len()
        },
        r is None <==> ids_of(*enc).len() != mask_of(*enc).len(),
{
    let ids = encoding_token_ids(enc);
    let mask = encoding_attention_mask(enc);
    if ids.len() != mask.len() {
        return None;
    }
    let ids64 = widen_row(&ids);
    let mask64 = widen_row(&mask);
    Some((ids64, mask64))
}

/// The work done while both handles are held: encode, build tensors, run
/// one forward pass.  Never rejects and never reports missing handles;
/// those are decided before this point.
fn run_pipeline(session: &mut Session, tokenizer: &Tokenizer, text: &str) -> (r: CheckOutcome)
    ensures
        r is EncodingFailed || r is InferenceFailed || r is RawScores,
{
    let enc = match encode_text(tokenizer, text) {
        Some(e) => e,
        None => {
            return CheckOutcome::EncodingFailed;
        },
    };
    let (ids64, mask64) = match encoding_rows(&enc) {
        Some(p) => p,
        None => {
            return CheckOutcome::EncodingFailed;
        },
    };
    let ids_tensor = match row_tensor(ids64) {
        Some(t) => t,
        None => {
            return CheckOutcome::InferenceFailed;
        },
    };
    let mask_tensor = match row_tensor(mask64) {
        Some(t) => t,
        None => {
            return CheckOutcome::InferenceFailed;
        },
    };
    match run_forward(session, ids_tensor, mask_tensor) {
        Some(scores) => CheckOutcome::RawScores(scores),
        None => CheckOutcome::InferenceFailed,
    }
}

/// What every outcome of a call obeys: rejection exactly on the
/// pre-filter rule, the not-initialized answer exactly on an absent
/// handle, and engine outcomes only for accepted text against a fully
/// loaded state.
pub open spec fn check_obeys(m: AiModel, text: Seq<char>, r: CheckOutcome) -> bool {
    &&& (r is Rejected <==> prefilter::spec_rejects(text))
    &&& (r is NotInitialized <==> (!prefilter::spec_rejects(text) && !m.ready()))
    &&& ((r is EncodingFailed || r is InferenceFailed || r is RawScores) ==> (
    !prefilter::spec_rejects(text) && m.ready()))
}

impl AiModel {
    /// Both locks carry the fixed loaded-or-absent invariant chosen at
    /// construction.
    pub closed spec fn wf(self) -> bool {
        &&& self.session.pred() == stored_pred::<Session>(self.session_loaded@)
        &&& self.tokenizer.pred() == stored_pred::<Tokenizer>(self.tokenizer_loaded@)
    }

    /// Whether both handles are present, so that a forward pass can be
    /// attempted at all.
    pub closed spec fn ready(self) -> bool {
        self.session_loaded@ && self.tokenizer_loaded@
    }

    /// Builds the shared state from the two artifact paths.  Each load
    /// is attempted independently; failure of either leaves that slot
    /// absent and does not prevent the other from loading.  Construction
    /// itself never fails.
    pub fn new(model_path: String, tokenizer_path: String) -> (r: AiModel)
        ensures
            r.wf(),
    {
        let session = load_session(model_path);
        let tokenizer = load_tokenizer(tokenizer_path);
        let ghost session_loaded = session is Some;
        let ghost tokenizer_loaded = tokenizer is Some;
        let session = RwLock::new(session, Ghost(stored_pred::<Session>(session_loaded)));
        let tokenizer = RwLock::new(tokenizer, Ghost(stored_pred::<Tokenizer>(tokenizer_loaded)));
        AiModel {
            session,
            tokenizer,
            session_loaded: Ghost(session_loaded),
            tokenizer_loaded: Ghost(tokenizer_loaded),
        }
    }

    /// One call: pre-filter, then, under exclusive access to both
    /// handles, one encode and one forward pass.  The locks are held for
    /// the whole pass because the engine mutates internal execution
    /// state, and are released on every path.
    pub fn check_sentence(&self, text: String) -> (r: CheckOutcome)
        requires
            self.wf(),
        ensures
            check_obeys(*self, text@, r),
    {
        if prefilter::rejects(text.as_str()) {
            return CheckOutcome::Rejected;
        }
        let (session_slot, session_handle) = self.session.acquire_write();
        let (tokenizer_slot, tokenizer_handle) = self.tokenizer.acquire_write();
        match (session_slot, tokenizer_slot) {
            (Some(mut session), Some(tokenizer)) => {
                let r = run_pipeline(&mut session, &tokenizer, text.as_str());
                session_handle.release_write(Some(session));
                tokenizer_handle.release_write(Some(tokenizer));
                r
            },
            (session_slot, tokenizer_slot) => {
                session_handle.release_write(session_slot);
                tokenizer_handle.release_write(tokenizer_slot);
                CheckOutcome::NotInitialized
            },
        }
    }
}

/// Screening is decided by the text and the loaded-handle state alone:
/// two calls against the same state with the same text agree on
/// rejection and on the not-initialized answer, whatever the engine did
/// in between.
pub proof fn lemma_screening_deterministic(
    m: AiModel,
    text: Seq<char>,
    r1: CheckOutcome,
    r2: CheckOutcome,
)
    requires
        check_obeys(m, text, r1),
        check_obeys(m, text, r2),
    ensures
        r1 is Rejected <==> r2 is Rejected,
        r1 is NotInitialized <==> r2 is NotInitialized,
{
}

/// Repeating a call with the same text against the same state yields
/// the same wire string whenever the collaborators behaved alike: the
/// screening halves are forced to agree outright, so once the two
/// outcomes fall to the same engine case, every fixed message agrees.
/// Only the raw-scores rendering stays open, and it is a function of the
/// scores alone, which the engine's determinism — not statable of an
/// opaque handle — would fix.
pub proof fn lemma_repeat_call_same_message(
    m: AiModel,
    text: Seq<char>,
    r1: CheckOutcome,
    r2: CheckOutcome,
)
    requires
        check_obeys(m, text, r1),
        check_obeys(m, text, r2),
        r1 is EncodingFailed <==> r2 is EncodingFailed,
        r1 is InferenceFailed <==> r2 is InferenceFailed,
    ensures
        fixed_message(r1) == fixed_message(r2),
{
}

/// Input failing the pre-filter is rejected, whatever the state of the
/// handles: no outcome of such a call is an engine outcome.
pub proof fn lemma_short_input_rejected(m: AiModel, text: Seq<char>, r: CheckOutcome)
    requires
        check_obeys(m, text, r),
        prefilter::spec_rejects(text),
    ensures
        r is Rejected,
{
}

/// Against a fully loaded state, accepted text always reaches the
/// engine: the outcome is an encoding failure, an inference failure or
/// raw scores, never a rejection and never the not-initialized error.
pub proof fn lemma_ready_state_reaches_engine(m: AiModel, text: Seq<char>, r: CheckOutcome)
    requires
        check_obeys(m, text, r),
        !prefilter::spec_rejects(text),
        m.ready(),
    ensures
        r is EncodingFailed || r is InferenceFailed || r is RawScores,
{
}

/// A state with either handle absent answers every accepted text with
/// the not-initialized error; it never reaches the engine.
pub proof fn lemma_absent_handle_not_init(m: AiModel, text: Seq<char>, r: CheckOutcome)
    requires
        check_obeys(m, text, r),
        !prefilter::spec_rejects(text),
        !m.ready(),
    ensures
        r is NotInitialized,
{
}

} // verus!
