//! What the agent reports back over the remote task channel: progress
//! updates after each finished task, and the result once a job is complete.

use vstd::prelude::*;
use vstd::string::StringExecFns;
use crate::artifact::{
    groth16_receipt_key, make_groth16_receipt_key, make_stark_receipt_key, stark_receipt_key,
};
use crate::ident::{format_uuid, uuid_text};
use crate::receipt::{encode_journal, journal_encoding};
use crate::transfer::{
    append_bytes, chunk_size, frame_artifact, framed, lemma_transfer_round_trip, messages_view,
    reassembled, split_bytes, ArtifactMetadata, MetadataView, TransferError, TransferMessage,
};
use crate::work::{ExecutorResp, Stage};

verus! {

/// The status of an assignment as the remote service tracks it.
#[derive(Clone, Copy, Debug, PartialEq, Eq, Structural)]
pub enum ProgressStatus {
    Pending,
    GeneratingProof,
    UploadingProof,
    Completed,
    Failed,
}

/// A progress update for the remote service.
#[derive(Clone, Debug, PartialEq, Eq)]
pub struct ProgressUpdate {
    pub task_id: String,
    pub status: ProgressStatus,
    pub message: String,
    pub total_segments: Option<u64>,
    pub total_cycles: Option<u64>,
}

/// Mathematical content of a [`ProgressUpdate`].
pub struct ProgressUpdateView {
    pub task_id: Seq<char>,
    pub status: ProgressStatus,
    pub message: Seq<char>,
    pub total_segments: Option<u64>,
    pub total_cycles: Option<u64>,
}

impl View for ProgressUpdate {
    type V = ProgressUpdateView;

    open spec fn view(&self) -> ProgressUpdateView {
        ProgressUpdateView {
            task_id: self.task_id@,
            status: self.status,
            message: self.message@,
            total_segments: self.total_segments,
            total_cycles: self.total_cycles,
        }
    }
}

/// The update that acknowledges an assignment.
pub open spec fn received_progress(task_id: Seq<char>) -> ProgressUpdateView {
    ProgressUpdateView {
        task_id,
        status: ProgressStatus::Pending,
        message: "Task received"@,
        total_segments: None,
        total_cycles: None,
    }
}

/// Whether the job is complete once a task of this stage is done.
pub open spec fn completes_job(stage: Stage) -> bool {
    stage == Stage::Finalize || stage == Stage::Snark
}

/// The update sent after a task of the given stage is done.
///
/// The executor reports the totals it found, where its result could be
/// read. The last stage of a job reports completion. Every other stage
/// reports that the proof is being generated.
pub open spec fn stage_progress(
    job_id: u128,
    stage: Stage,
    executed: Option<ExecutorResp>,
) -> ProgressUpdateView {
    if stage == Stage::Executor {
        ProgressUpdateView {
            task_id: uuid_text(job_id),
            status: ProgressStatus::GeneratingProof,
            message: "Task is executing"@,
            total_segments: match executed {
                Some(r) => Some(r.segments),
                None => None,
            },
            total_cycles: match executed {
                Some(r) => Some(r.total_cycles),
                None => None,
            },
        }
    } else if completes_job(stage) {
        ProgressUpdateView {
            task_id: uuid_text(job_id),
            status: ProgressStatus::Completed,
            message: "Task is Completed"@,
            total_segments: None,
            total_cycles: None,
        }
    } else {
        ProgressUpdateView {
            task_id: uuid_text(job_id),
            status: ProgressStatus::GeneratingProof,
            message: "Task is generating proof"@,
            total_segments: None,
            total_cycles: None,
        }
    }
}

/// Builds the update that acknowledges an assignment.
pub fn received_update(task_id: &str) -> (update: ProgressUpdate)
    ensures
        update@ == received_progress(task_id@),
{
    ProgressUpdate {
        task_id: String::from_str(task_id),
        status: ProgressStatus::Pending,
        message: String::from_str("Task received"),
        total_segments: None,
        total_cycles: None,
    }
}

/// Builds the update sent after a task of the given stage is done.
/// `executed` is the result of the executor, where the task was one and its
/// result could be read.
pub fn progress_update(job_id: u128, stage: Stage, executed: Option<ExecutorResp>) -> (update:
    ProgressUpdate)
    ensures
        update@ == stage_progress(job_id, stage, executed),
{
    let task_id = format_uuid(job_id);
    match stage {
        Stage::Executor => {
            let (total_segments, total_cycles) = match executed {
                Some(r) => (Some(r.segments), Some(r.total_cycles)),
                None => (None, None),
            };
            ProgressUpdate {
                task_id,
                status: ProgressStatus::GeneratingProof,
                message: String::from_str("Task is executing"),
                total_segments,
                total_cycles,
            }
        },
        Stage::Finalize | Stage::Snark => ProgressUpdate {
            task_id,
            status: ProgressStatus::Completed,
            message: String::from_str("Task is Completed"),
            total_segments: None,
            total_cycles: None,
        },
        _ => ProgressUpdate {
            task_id,
            status: ProgressStatus::GeneratingProof,
            message: String::from_str("Task is generating proof"),
            total_segments: None,
            total_cycles: None,
        },
    }
}

/// Whether the result of the job is delivered after this update: only after
/// the one that reports completion.
pub fn delivers_result(update: &ProgressUpdate) -> (deliver: bool)
    ensures
        deliver == (update.status == ProgressStatus::Completed),
{
    update.status == ProgressStatus::Completed
}

/// The result of a job as it is delivered to the remote service.
#[derive(Clone, Debug, PartialEq, Eq)]
pub enum UploadRequest {
    Stark { task_id: String, receipt_data: Vec<u8>, journal_data: Vec<u8>, description: String },
    Groth16 { task_id: String, proof_data: Vec<u8>, description: String },
}

/// Mathematical content of an [`UploadRequest`].
pub enum UploadRequestView {
    Stark {
        task_id: Seq<char>,
        receipt_data: Seq<u8>,
        journal_data: Seq<u8>,
        description: Seq<char>,
    },
    Groth16 { task_id: Seq<char>, proof_data: Seq<u8>, description: Seq<char> },
}

impl View for UploadRequest {
    type V = UploadRequestView;

    open spec fn view(&self) -> UploadRequestView {
        match *self {
            UploadRequest::Stark { task_id, receipt_data, journal_data, description } =>
                UploadRequestView::Stark {
                    task_id: task_id@,
                    receipt_data: receipt_data@,
                    journal_data: journal_data@,
                    description: description@,
                },
            UploadRequest::Groth16 { task_id, proof_data, description } =>
                UploadRequestView::Groth16 {
                    task_id: task_id@,
                    proof_data: proof_data@,
                    description: description@,
                },
        }
    }
}

/// Why a result cannot be delivered.
#[derive(Clone, Copy, Debug, PartialEq, Eq, Structural)]
pub enum UploadError {
    /// The store holds no receipt for the job.
    ReceiptMissing,
    /// The stored bytes are not a receipt: no journal could be read out of
    /// them.
    ReceiptUndecodable,
    /// The journal of the receipt could not be encoded. The encoder in use
    /// takes every journal, so no delivery ends this way.
    JournalUnencodable,
}

/// What is said of a result that cannot be delivered.
pub open spec fn upload_error_text(error: UploadError) -> Seq<char> {
    match error {
        UploadError::ReceiptMissing => "Receipt missing"@,
        UploadError::ReceiptUndecodable => "Failed to deserialize receipt with bincode"@,
        UploadError::JournalUnencodable => "Failed to serialize journal data"@,
    }
}

impl UploadError {
    /// What is said of the error.
    pub fn message(self) -> (text: &'static str)
        ensures
            text@ == upload_error_text(self),
    {
        match self {
            UploadError::ReceiptMissing => "Receipt missing",
            UploadError::ReceiptUndecodable => "Failed to deserialize receipt with bincode",
            UploadError::JournalUnencodable => "Failed to serialize journal data",
        }
    }
}

/// A delivery: the request to send, and the key of the local copy, which is
/// redundant once the remote service has acknowledged the request and stays
/// where it has not.
#[derive(Clone, Debug, PartialEq, Eq)]
pub struct UploadPlan {
    pub request: UploadRequest,
    pub delete_key: String,
}

/// The key under which the result of a job is stored: among the Groth16
/// receipts for a job that ends with the wrapping stage, among the STARK
/// receipts otherwise.
pub open spec fn result_key(stage: Stage, job_id: u128) -> Seq<char> {
    if stage == Stage::Snark {
        groth16_receipt_key(uuid_text(job_id))
    } else {
        stark_receipt_key(uuid_text(job_id))
    }
}

/// Builds [`result_key`].
pub fn make_result_key(stage: Stage, job_id: u128) -> (key: String)
    ensures
        key@ == result_key(stage, job_id),
{
    let id = format_uuid(job_id);
    match stage {
        Stage::Snark => make_groth16_receipt_key(id.as_str()),
        _ => make_stark_receipt_key(id.as_str()),
    }
}

/// The request that delivers a wrapped proof.
pub open spec fn groth16_upload(job_id: u128, proof: Seq<u8>) -> UploadRequestView {
    UploadRequestView::Groth16 {
        task_id: uuid_text(job_id),
        proof_data: proof,
        description: "Groth16 proof from SNARK task"@,
    }
}

/// The request that delivers a receipt together with its encoded journal.
pub open spec fn stark_upload(
    job_id: u128,
    receipt: Seq<u8>,
    journal_data: Seq<u8>,
) -> UploadRequestView {
    UploadRequestView::Stark {
        task_id: uuid_text(job_id),
        receipt_data: receipt,
        journal_data,
        description: "STARK receipt from Executor task"@,
    }
}

/// Builds the request that delivers a wrapped proof.
pub fn make_groth16_upload(job_id: u128, proof: Vec<u8>) -> (request: UploadRequest)
    ensures
        request@ == groth16_upload(job_id, proof@),
{
    UploadRequest::Groth16 {
        task_id: format_uuid(job_id),
        proof_data: proof,
        description: String::from_str("Groth16 proof from SNARK task"),
    }
}

/// Builds the request that delivers a receipt with its encoded journal.
pub fn make_stark_upload(job_id: u128, receipt: Vec<u8>, journal_data: Vec<u8>) -> (request:
    UploadRequest)
    ensures
        request@ == stark_upload(job_id, receipt@, journal_data@),
{
    UploadRequest::Stark {
        task_id: format_uuid(job_id),
        receipt_data: receipt,
        journal_data,
        description: String::from_str("STARK receipt from Executor task"),
    }
}

/// The bytes behind a vector that may be absent.
pub open spec fn optional_bytes(bytes: Option<Vec<u8>>) -> Option<Seq<u8>> {
    match bytes {
        Some(b) => Some(b@),
        None => None,
    }
}

/// The request that delivers the result of a finished job, or why there is
/// none. `stored` is what the store holds under [`result_key`], `journal`
/// the journal read out of the stored receipt.
///
/// A wrapped proof is delivered as it is stored. A receipt is delivered with
/// its journal, encoded; where no journal could be read the stored bytes
/// are not a receipt and nothing is delivered.
pub open spec fn upload_of(
    stage: Stage,
    job_id: u128,
    stored: Option<Seq<u8>>,
    journal: Option<Seq<u8>>,
) -> Result<UploadRequestView, UploadError> {
    match stored {
        None => Err(UploadError::ReceiptMissing),
        Some(bytes) => if stage == Stage::Snark {
            Ok(groth16_upload(job_id, bytes))
        } else {
            match journal {
                None => Err(UploadError::ReceiptUndecodable),
                Some(j) => Ok(stark_upload(job_id, bytes, journal_encoding(j))),
            }
        },
    }
}

/// Plans the delivery of the result of a finished job. `stored` is what the
/// store holds under [`result_key`]: `None` where it holds nothing.
/// `journal` is the journal that the caller read out of the stored receipt:
/// `None` where the stored bytes are not a receipt. It is looked at for a
/// receipt only, not for a wrapped proof.
pub fn plan_upload(
    stage: Stage,
    job_id: u128,
    stored: Option<Vec<u8>>,
    journal: Option<Vec<u8>>,
) -> (plan: Result<UploadPlan, UploadError>)
    ensures
        match upload_of(stage, job_id, optional_bytes(stored), optional_bytes(journal)) {
            Ok(request) => plan.is_ok() && plan->Ok_0.request@ == request
                && plan->Ok_0.delete_key@ == result_key(stage, job_id),
            Err(e) => plan == Err::<UploadPlan, UploadError>(e),
        },
{
    let receipt = match stored {
        None => {
            return Err(UploadError::ReceiptMissing);
        },
        Some(bytes) => bytes,
    };
    let delete_key = make_result_key(stage, job_id);
    match stage {
        Stage::Snark => Ok(UploadPlan { request: make_groth16_upload(job_id, receipt), delete_key }),
        _ => {
            let journal = match journal {
                None => {
                    return Err(UploadError::ReceiptUndecodable);
                },
                Some(j) => j,
            };
            match encode_journal(journal) {
                None => Err(UploadError::JournalUnencodable),
                Some(journal_data) => Ok(
                    UploadPlan {
                        request: make_stark_upload(job_id, receipt, journal_data),
                        delete_key,
                    },
                ),
            }
        },
    }
}

/// What the metadata message of a delivery says.
pub open spec fn upload_metadata(request: UploadRequestView) -> MetadataView {
    match request {
        UploadRequestView::Stark { task_id, receipt_data, journal_data, description } =>
            MetadataView { task_id, description, journal_len: journal_data.len() as u64 },
        UploadRequestView::Groth16 { task_id, proof_data, description } => MetadataView {
            task_id,
            description,
            journal_len: 0,
        },
    }
}

/// The bytes of a delivery, which travel in chunks: the encoded journal and
/// then the receipt, or the proof alone.
pub open spec fn upload_payload(request: UploadRequestView) -> Seq<u8> {
    match request {
        UploadRequestView::Stark { task_id, receipt_data, journal_data, description } =>
            journal_data + receipt_data,
        UploadRequestView::Groth16 { task_id, proof_data, description } => proof_data,
    }
}

/// The journal and the artifact of a delivery.
pub open spec fn upload_parts(request: UploadRequestView) -> (Seq<u8>, Seq<u8>) {
    match request {
        UploadRequestView::Stark { task_id, receipt_data, journal_data, description } => (
            journal_data,
            receipt_data,
        ),
        UploadRequestView::Groth16 { task_id, proof_data, description } => (
            Seq::empty(),
            proof_data,
        ),
    }
}

/// Cuts a delivery into the messages of a chunked transfer.
pub fn frame_upload(request: &UploadRequest, requested_chunk: usize) -> (messages: Vec<
    TransferMessage,
>)
    ensures
        messages_view(messages@) == framed(
            upload_metadata(request@),
            upload_payload(request@),
            chunk_size(requested_chunk),
        ),
{
    match request {
        UploadRequest::Stark { task_id, receipt_data, journal_data, description } => {
            let mut payload = journal_data.clone();
            append_bytes(&mut payload, receipt_data);
            frame_artifact(
                ArtifactMetadata {
                    task_id: task_id.clone(),
                    description: description.clone(),
                    journal_len: journal_data.len() as u64,
                },
                &payload,
                requested_chunk,
            )
        },
        UploadRequest::Groth16 { task_id, proof_data, description } => frame_artifact(
            ArtifactMetadata {
                task_id: task_id.clone(),
                description: description.clone(),
                journal_len: 0,
            },
            proof_data,
            requested_chunk,
        ),
    }
}

/// A delivery round-trips: the receiver of its messages holds its metadata
/// and its bytes, whatever chunk size was asked for, and splitting the bytes
/// as the metadata says gives the journal and the artifact back.
pub proof fn lemma_upload_round_trip(request: UploadRequestView, requested_chunk: usize)
    requires
        upload_parts(request).0.len() <= u64::MAX,
    ensures
        reassembled(
            framed(
                upload_metadata(request),
                upload_payload(request),
                chunk_size(requested_chunk),
            ),
        ) == Ok::<(MetadataView, Seq<u8>), TransferError>(
            (upload_metadata(request), upload_payload(request)),
        ),
        split_bytes(upload_metadata(request), upload_payload(request)) == Some(
            upload_parts(request),
        ),
{
    lemma_transfer_round_trip(
        upload_metadata(request),
        upload_payload(request),
        chunk_size(requested_chunk),
    );
    let (journal, artifact) = upload_parts(request);
    assert((journal + artifact).take(journal.len() as int) =~= journal);
    assert((journal + artifact).skip(journal.len() as int) =~= artifact);
}

} // verus!
