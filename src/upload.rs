//! The upload orchestrator: the three-phase protocol (request an upload
//! slot, push the bytes to it, complete the upload into a channel) as a
//! state machine. The caller performs each call it asks for and feeds the
//! outcome back; the machine decides what comes next. No phase is retried,
//! a failure at any phase is final, and a slot left behind by a later
//! failure is not released.

use vstd::prelude::*;

use crate::api::ApiCall;
use crate::decode::{base64_decoded, decode_upload, DecodedFile, SlackFileUploadRequest, BASE64_FAILURE};
use crate::envelope::{refusal_cause, refusal_cause_of, CallOutcome};
use crate::errors::{is_problem, ApiError};
use crate::reply::Reply;

verus! {

/// The phases of the protocol, in order.
#[derive(Clone, Copy, Debug, PartialEq, Eq, Structural)]
pub enum UploadPhase {
    SlotRequest,
    ContentUpload,
    Completion,
}

/// The slot handed out by the first phase.
#[derive(Debug)]
pub struct UploadSlot {
    pub file_id: String,
    pub upload_url: String,
}

/// Where an upload stands.
#[derive(Debug)]
pub enum UploadStage {
    /// Nothing called yet.
    Init,
    /// A slot was obtained.
    SlotRequested(UploadSlot),
    /// The bytes were pushed to the slot.
    ContentUploaded(UploadSlot),
    /// The upload was completed; the text is the completion reply.
    Completed(String),
    /// The given phase failed, for the given cause.
    Failed { phase: UploadPhase, cause: String },
}

/// The mathematical view of an [`UploadStage`].
pub enum StageView {
    Init,
    SlotRequested { file_id: Seq<char>, upload_url: Seq<char> },
    ContentUploaded { file_id: Seq<char>, upload_url: Seq<char> },
    Completed { reply: Seq<char> },
    Failed { phase: UploadPhase, cause: Seq<char> },
}

impl View for UploadStage {
    type V = StageView;

    open spec fn view(&self) -> StageView {
        match self {
            UploadStage::Init => StageView::Init,
            UploadStage::SlotRequested(s) => StageView::SlotRequested {
                file_id: s.file_id@,
                upload_url: s.upload_url@,
            },
            UploadStage::ContentUploaded(s) => StageView::ContentUploaded {
                file_id: s.file_id@,
                upload_url: s.upload_url@,
            },
            UploadStage::Completed(r) => StageView::Completed { reply: r@ },
            UploadStage::Failed { phase, cause } => StageView::Failed { phase: *phase, cause: cause@ },
        }
    }
}

/// The cause of a first-phase failure whose `ok` reply lacks the slot.
pub const MALFORMED_SLOT: &'static str = "upload slot reply lacks file_id or upload_url";

/// The phase whose call a stage waits for; none once the upload is over.
pub open spec fn pending_phase(s: StageView) -> Option<UploadPhase> {
    match s {
        StageView::Init => Some(UploadPhase::SlotRequest),
        StageView::SlotRequested { .. } => Some(UploadPhase::ContentUpload),
        StageView::ContentUploaded { .. } => Some(UploadPhase::Completion),
        _ => None,
    }
}

/// Whether an outcome lets a phase succeed: the slot request needs an `ok`
/// reply that names the slot; the content push needs only that the
/// transport delivered it; the completion needs an `ok` reply.
pub open spec fn phase_succeeds(phase: UploadPhase, o: CallOutcome) -> bool {
    match o {
        CallOutcome::TransportFailed(_) => false,
        CallOutcome::Replied { envelope, .. } => match phase {
            UploadPhase::SlotRequest => envelope.ok && envelope.file_id is Some
                && envelope.upload_url is Some,
            UploadPhase::ContentUpload => true,
            UploadPhase::Completion => envelope.ok,
        },
    }
}

/// The cause recorded when an outcome fails a phase.
pub open spec fn failure_cause(o: CallOutcome) -> Seq<char> {
    match o {
        CallOutcome::TransportFailed(c) => c@,
        CallOutcome::Replied { envelope, .. } => if !envelope.ok {
            refusal_cause(envelope)
        } else {
            MALFORMED_SLOT@
        },
    }
}

/// The stage after an outcome of the call that stage `s` waits for; a
/// finished upload stays as it is.
pub open spec fn next_stage(s: StageView, o: CallOutcome) -> StageView {
    match pending_phase(s) {
        None => s,
        Some(phase) => if !phase_succeeds(phase, o) {
            StageView::Failed { phase, cause: failure_cause(o) }
        } else {
            match s {
                StageView::Init => match o {
                    CallOutcome::Replied { envelope, .. } => StageView::SlotRequested {
                        file_id: envelope.file_id.deep_view()->Some_0,
                        upload_url: envelope.upload_url.deep_view()->Some_0,
                    },
                    _ => s,
                },
                StageView::SlotRequested { file_id, upload_url } => StageView::ContentUploaded {
                    file_id,
                    upload_url,
                },
                _ => match o {
                    CallOutcome::Replied { body, .. } => StageView::Completed { reply: body@ },
                    _ => s,
                },
            }
        },
    }
}

/// `c` is the call that stage `s` of the upload of `file` waits for.
pub open spec fn is_call_of(file: DecodedFile, s: StageView, c: ApiCall) -> bool {
    match s {
        StageView::Init => c matches ApiCall::GetUploadUrl { filename, length } && filename@
            == file.file_name@ && length == file.bytes@.len(),
        StageView::SlotRequested { upload_url, .. } => c matches ApiCall::UploadContent {
            upload_url: u,
        } && u@ == upload_url,
        StageView::ContentUploaded { file_id, .. } => c matches ApiCall::CompleteUpload {
            file_id: f,
            title,
            channel_id,
        } && f@ == file_id && title@ == file.file_name@ && channel_id@ == file.channel@,
        _ => false,
    }
}

/// One upload in progress.
#[derive(Debug)]
pub struct UploadOrchestrator {
    pub file: DecodedFile,
    pub stage: UploadStage,
}

impl UploadOrchestrator {
    /// Starts the upload of a decoded file; nothing is called yet.
    pub fn new(file: DecodedFile) -> (r: UploadOrchestrator)
        ensures
            r.file == file,
            r.stage@ == StageView::Init,
    {
        UploadOrchestrator { file, stage: UploadStage::Init }
    }

    /// The call to perform now, or `None` once the upload is over.
    pub fn next_call(&self) -> (r: Option<ApiCall>)
        ensures
            r is Some <==> pending_phase(self.stage@) is Some,
            r matches Some(c) ==> is_call_of(self.file, self.stage@, c),
    {
        match &self.stage {
            UploadStage::Init => Some(
                ApiCall::GetUploadUrl {
                    filename: self.file.file_name.clone(),
                    length: self.file.bytes.len(),
                },
            ),
            UploadStage::SlotRequested(slot) => Some(
                ApiCall::UploadContent { upload_url: slot.upload_url.clone() },
            ),
            UploadStage::ContentUploaded(slot) => Some(
                ApiCall::CompleteUpload {
                    file_id: slot.file_id.clone(),
                    title: self.file.file_name.clone(),
                    channel_id: self.file.channel.clone(),
                },
            ),
            _ => None,
        }
    }

    /// Takes in the outcome of the call that [`Self::next_call`] asked for.
    pub fn on_outcome(&mut self, outcome: CallOutcome)
        ensures
            final(self).file == old(self).file,
            final(self).stage@ == next_stage(old(self).stage@, outcome),
    {
        let mut stage = UploadStage::Init;
        std::mem::swap(&mut self.stage, &mut stage);
        self.stage = match stage {
            UploadStage::Init => match outcome {
                CallOutcome::TransportFailed(cause) => UploadStage::Failed {
                    phase: UploadPhase::SlotRequest,
                    cause,
                },
                CallOutcome::Replied { envelope, .. } => {
                    if !envelope.ok {
                        UploadStage::Failed {
                            phase: UploadPhase::SlotRequest,
                            cause: refusal_cause_of(&envelope),
                        }
                    } else {
                        match (envelope.file_id, envelope.upload_url) {
                            (Some(file_id), Some(upload_url)) => UploadStage::SlotRequested(
                                UploadSlot { file_id, upload_url },
                            ),
                            _ => UploadStage::Failed {
                                phase: UploadPhase::SlotRequest,
                                cause: String::from_str(MALFORMED_SLOT),
                            },
                        }
                    }
                },
            },
            UploadStage::SlotRequested(slot) => match outcome {
                CallOutcome::TransportFailed(cause) => UploadStage::Failed {
                    phase: UploadPhase::ContentUpload,
                    cause,
                },
                CallOutcome::Replied { .. } => UploadStage::ContentUploaded(slot),
            },
            UploadStage::ContentUploaded(slot) => match outcome {
                CallOutcome::TransportFailed(cause) => UploadStage::Failed {
                    phase: UploadPhase::Completion,
                    cause,
                },
                CallOutcome::Replied { body, envelope } => {
                    if envelope.ok {
                        UploadStage::Completed(body)
                    } else {
                        UploadStage::Failed {
                            phase: UploadPhase::Completion,
                            cause: refusal_cause_of(&envelope),
                        }
                    }
                },
            },
            finished => finished,
        };
    }

    /// The upload's result once it is over: the completion reply's raw
    /// text, or an internal failure carrying the failed phase's cause.
    pub fn into_result(self) -> (r: Option<Result<String, ApiError>>)
        ensures
            r is Some <==> pending_phase(self.stage@) is None,
            self.stage@ matches StageView::Completed { reply } ==> r matches Some(Ok(t)) && t@
                == reply,
            self.stage@ matches StageView::Failed { cause, .. } ==> r matches Some(
                Err(ApiError::InternalServerError(c)),
            ) && c@ == cause,
    {
        match self.stage {
            UploadStage::Completed(reply) => Some(Ok(reply)),
            UploadStage::Failed { cause, .. } => Some(Err(ApiError::InternalServerError(cause))),
            _ => None,
        }
    }
}

/// Decodes an upload request and, if its file data is valid base64, starts
/// its orchestrator. Invalid base64 is answered 400 with the fixed detail
/// [`BASE64_FAILURE`], and no orchestrator exists to make any call.
pub fn start_upload(req: SlackFileUploadRequest) -> (r: Result<UploadOrchestrator, Reply>)
    ensures
        r is Ok <==> base64_decoded(req.file_data_base64@) is Some,
        r matches Ok(o) ==> {
            &&& o.stage@ == StageView::Init
            &&& o.file.file_name == req.file_name
            &&& o.file.channel == req.channel
            &&& base64_decoded(req.file_data_base64@) == Some(o.file.bytes@)
        },
        r matches Err(reply) ==> reply matches Reply::Problem(p) && is_problem(
            p,
            400,
            BASE64_FAILURE@,
        ),
{
    match decode_upload(req) {
        Ok(file) => Ok(UploadOrchestrator::new(file)),
        Err(e) => Err(Reply::Problem(e.to_problem())),
    }
}

/// The phases in protocol order.
pub open spec fn upload_phases() -> Seq<UploadPhase> {
    seq![UploadPhase::SlotRequest, UploadPhase::ContentUpload, UploadPhase::Completion]
}

/// The phases whose calls are made when the machine, from stage `s`, is
/// driven as its caller drives it: perform the call it asks for, feed the
/// next outcome back, until it asks for nothing more. Where the outcomes
/// run out the last call is made and its outcome not yet known.
pub open spec fn phases_called(s: StageView, outcomes: Seq<CallOutcome>) -> Seq<UploadPhase>
    decreases outcomes.len(),
{
    match pending_phase(s) {
        None => Seq::empty(),
        Some(p) => if outcomes.len() == 0 {
            seq![p]
        } else {
            seq![p] + phases_called(next_stage(s, outcomes[0]), outcomes.drop_first())
        },
    }
}

/// The stage that driving the machine from `s` with `outcomes` ends in.
pub open spec fn stage_after(s: StageView, outcomes: Seq<CallOutcome>) -> StageView
    decreases outcomes.len(),
{
    if outcomes.len() == 0 || pending_phase(s) is None {
        s
    } else {
        stage_after(next_stage(s, outcomes[0]), outcomes.drop_first())
    }
}

/// A finished upload makes no further call, whatever comes after.
pub proof fn lemma_finished_upload_calls_nothing(s: StageView, outcomes: Seq<CallOutcome>)
    requires
        pending_phase(s) is None,
    ensures
        phases_called(s, outcomes) == Seq::<UploadPhase>::empty(),
        stage_after(s, outcomes) == s,
{
}

/// A failure injected at phase `k` (counted from 0) ends the upload there:
/// the calls made are exactly those of phases 0 to `k`, each once, no call
/// of a later phase is made, and the upload stands failed at phase `k`.
pub proof fn lemma_failure_stops_later_phases(outcomes: Seq<CallOutcome>, k: int)
    requires
        0 <= k < 3,
        k < outcomes.len(),
        forall|i: int| 0 <= i < k ==> phase_succeeds(#[trigger] upload_phases()[i], outcomes[i]),
        !phase_succeeds(upload_phases()[k], outcomes[k]),
    ensures
        phases_called(StageView::Init, outcomes) == upload_phases().take(k + 1),
        stage_after(StageView::Init, outcomes) matches StageView::Failed { phase, .. } && phase
            == upload_phases()[k],
{
    let o = outcomes;
    let s0 = StageView::Init;
    let s1 = next_stage(s0, o[0]);
    let r1 = o.drop_first();
    assert(phase_succeeds(upload_phases()[0], o[0]) || k == 0);
    if k == 0 {
        lemma_finished_upload_calls_nothing(s1, r1);
        assert(phases_called(s0, o) =~= upload_phases().take(1));
        assert(stage_after(s0, o) == s1);
    } else {
        assert(phase_succeeds(upload_phases()[1], o[1]) || k == 1);
        let s2 = next_stage(s1, r1[0]);
        let r2 = r1.drop_first();
        assert(r1[0] == o[1]);
        if k == 1 {
            lemma_finished_upload_calls_nothing(s2, r2);
            assert(phases_called(s1, r1) =~= seq![UploadPhase::ContentUpload]);
            assert(phases_called(s0, o) =~= upload_phases().take(2));
            assert(stage_after(s1, r1) == s2);
            assert(stage_after(s0, o) == s2);
        } else {
            let s3 = next_stage(s2, r2[0]);
            let r3 = r2.drop_first();
            assert(r2[0] == o[2]);
            lemma_finished_upload_calls_nothing(s3, r3);
            assert(phases_called(s2, r2) =~= seq![UploadPhase::Completion]);
            assert(phases_called(s1, r1) =~= seq![UploadPhase::ContentUpload, UploadPhase::Completion]);
            assert(phases_called(s0, o) =~= upload_phases().take(3));
            assert(stage_after(s2, r2) == s3);
            assert(stage_after(s1, r1) == s3);
            assert(stage_after(s0, o) == s3);
        }
    }
}

/// When every phase succeeds, each of the three calls is made once, in
/// order, and the upload completes with the completion call's reply text.
pub proof fn lemma_all_phases_succeed(outcomes: Seq<CallOutcome>)
    requires
        outcomes.len() >= 3,
        forall|i: int| 0 <= i < 3 ==> phase_succeeds(#[trigger] upload_phases()[i], outcomes[i]),
    ensures
        phases_called(StageView::Init, outcomes) == upload_phases(),
        outcomes[2] matches CallOutcome::Replied { body, .. } && stage_after(
            StageView::Init,
            outcomes,
        ) == (StageView::Completed { reply: body@ }),
{
    let o = outcomes;
    assert(phase_succeeds(upload_phases()[0], o[0]));
    assert(phase_succeeds(upload_phases()[1], o[1]));
    assert(phase_succeeds(upload_phases()[2], o[2]));
    let s0 = StageView::Init;
    let s1 = next_stage(s0, o[0]);
    let r1 = o.drop_first();
    let s2 = next_stage(s1, r1[0]);
    let r2 = r1.drop_first();
    let s3 = next_stage(s2, r2[0]);
    let r3 = r2.drop_first();
    assert(r1[0] == o[1]);
    assert(r2[0] == o[2]);
    lemma_finished_upload_calls_nothing(s3, r3);
    assert(phases_called(s2, r2) =~= seq![UploadPhase::Completion]);
    assert(phases_called(s1, r1) =~= seq![UploadPhase::ContentUpload, UploadPhase::Completion]);
    assert(phases_called(s0, o) =~= upload_phases());
    assert(stage_after(s2, r2) == s3);
    assert(stage_after(s1, r1) == s3);
    assert(stage_after(s0, o) == s3);
}

} // verus!
