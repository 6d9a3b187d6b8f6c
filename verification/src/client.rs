//! The client side: the endpoint of the remote service, and a proving
//! session followed from submission to the downloaded receipt.

use vstd::prelude::*;
use vstd::string::{StrSliceExecFns, StringExecFns};

verus! {

/// Settings of the command-line client.
#[derive(Clone, Debug, PartialEq, Eq)]
pub struct Args {
    /// Path of the program to prove.
    pub elf_file: String,
    /// Path of the encoded input of the program.
    pub input_file: String,
    /// Whether the proof is wrapped into a succinct proof afterwards.
    pub snarkify: bool,
    /// Endpoint of the proving service.
    pub endpoint: String,
    /// Directory the receipts are written to.
    pub output_dir: String,
}

/// Whether `text` starts with `prefix`.
pub open spec fn starts_with(text: Seq<char>, prefix: Seq<char>) -> bool {
    prefix.len() <= text.len() && text.subrange(0, prefix.len() as int) == prefix
}

/// An endpoint with its scheme: as given where it names `http` or `https`,
/// with `http` put in front otherwise.
pub open spec fn normalized_endpoint(endpoint: Seq<char>) -> Seq<char> {
    if starts_with(endpoint, "http://"@) || starts_with(endpoint, "https://"@) {
        endpoint
    } else {
        "http://"@ + endpoint
    }
}

/// Whether `tonic::transport::Endpoint::from_shared` accepts the text as the
/// address of an endpoint.
pub uninterp spec fn endpoint_accepted(endpoint: Seq<char>) -> bool;

/// Asks the transport whether it takes a text as the address of an endpoint.
///
/// Trusted: calls `tonic::transport::Endpoint::from_shared` and tells
/// success from failure. The contract only gives the answer its name.
#[verifier::external_body]
fn accepts_endpoint(endpoint: &str) -> (accepted: bool)
    ensures
        accepted == endpoint_accepted(endpoint@),
{
    tonic::transport::Endpoint::from_shared(endpoint.to_string()).is_ok()
}

/// Why no connection is attempted.
#[derive(Clone, Copy, Debug, PartialEq, Eq, Structural)]
pub enum EndpointError {
    /// The endpoint is not an address the transport accepts.
    InvalidEndpoint,
}

fn has_prefix(text: &str, prefix: &str) -> (has: bool)
    ensures
        has == starts_with(text@, prefix@),
{
    let n = prefix.unicode_len();
    if text.unicode_len() < n {
        return false;
    }
    let head = String::from_str(text.substring_char(0, n));
    let wanted = String::from_str(prefix);
    head == wanted
}

/// Gives an endpoint its scheme, `http` where it names none.
pub fn normalize_endpoint(endpoint: &str) -> (full: String)
    ensures
        full@ == normalized_endpoint(endpoint@),
{
    if has_prefix(endpoint, "http://") || has_prefix(endpoint, "https://") {
        String::from_str(endpoint)
    } else {
        String::from_str("http://").concat(endpoint)
    }
}

/// Prepares the endpoint of a connection: gives it its scheme and makes
/// sure that the transport accepts it.
pub fn resolve_endpoint(endpoint: &str) -> (resolved: Result<String, EndpointError>)
    ensures
        match resolved {
            Ok(full) => full@ == normalized_endpoint(endpoint@) && endpoint_accepted(full@),
            Err(e) => e == EndpointError::InvalidEndpoint && !endpoint_accepted(
                normalized_endpoint(endpoint@),
            ),
        },
{
    let full = normalize_endpoint(endpoint);
    if accepts_endpoint(full.as_str()) {
        Ok(full)
    } else {
        Err(EndpointError::InvalidEndpoint)
    }
}

/// Where a proving session stands.
#[derive(Clone, Copy, Debug, PartialEq, Eq, Structural)]
pub enum SessionPhase {
    Running,
    Succeeded,
    Failed,
}

/// The phase that a status reported by the service stands for: anything
/// but running and succeeded is a failure.
pub open spec fn phase_of(status: Seq<char>) -> SessionPhase {
    if status == "RUNNING"@ {
        SessionPhase::Running
    } else if status == "SUCCEEDED"@ {
        SessionPhase::Succeeded
    } else {
        SessionPhase::Failed
    }
}

/// Reads the phase out of a status reported by the service.
pub fn classify_status(status: &str) -> (phase: SessionPhase)
    ensures
        phase == phase_of(status@),
{
    let s = String::from_str(status);
    if s == String::from_str("RUNNING") {
        SessionPhase::Running
    } else if s == String::from_str("SUCCEEDED") {
        SessionPhase::Succeeded
    } else {
        SessionPhase::Failed
    }
}

/// Seconds between two looks at a running STARK session.
pub const STARK_POLL_SECS: u64 = 2;

/// Seconds between two looks at a running SNARK session.
pub const SNARK_POLL_SECS: u64 = 5;

/// What the client does after a look at its session.
#[derive(Clone, Debug, PartialEq, Eq)]
pub enum SessionStep {
    /// Look again after the given number of seconds.
    Wait(u64),
    /// Download the receipt, from the given location where one is named.
    Collect(Option<String>),
    /// Give up with the given message.
    Fail(String),
}

/// The message for a failed session: the label, the id of the session, and
/// the error the service reported, if any.
pub open spec fn failure_message(label: Seq<char>, uuid: Seq<char>, error: Option<Seq<char>>)
    -> Seq<char> {
    label + uuid + " - "@ + match error {
        Some(e) => e,
        None => Seq::empty(),
    }
}

fn make_failure_message(label: &str, uuid: &str, error: &Option<String>) -> (message: String)
    ensures
        message@ == failure_message(
            label@,
            uuid@,
            match *error {
                Some(e) => Some(e@),
                None => None,
            },
        ),
{
    let head = String::from_str(label).concat(uuid).concat(" - ");
    match error {
        Some(e) => head.concat(e.as_str()),
        None => {
            head
        },
    }
}

/// Decides the next step of a STARK session from the status and the error
/// that the service reports.
pub fn stark_session_step(uuid: &str, status: &str, error: &Option<String>) -> (step: SessionStep)
    ensures
        match phase_of(status@) {
            SessionPhase::Running => step == SessionStep::Wait(STARK_POLL_SECS),
            SessionPhase::Succeeded => step == SessionStep::Collect(None),
            SessionPhase::Failed => step is Fail && step->Fail_0@ == failure_message(
                "Job failed: "@,
                uuid@,
                match *error {
                    Some(e) => Some(e@),
                    None => None,
                },
            ),
        },
{
    match classify_status(status) {
        SessionPhase::Running => SessionStep::Wait(STARK_POLL_SECS),
        SessionPhase::Succeeded => SessionStep::Collect(None),
        SessionPhase::Failed => SessionStep::Fail(make_failure_message("Job failed: ", uuid, error)),
    }
}

/// Decides the next step of a SNARK session from the status, the error and
/// the location of the output that the service reports. A session that
/// succeeded without naming its output is a failure.
pub fn snark_session_step(
    uuid: &str,
    status: &str,
    error: &Option<String>,
    output: &Option<String>,
) -> (step: SessionStep)
    ensures
        match phase_of(status@) {
            SessionPhase::Running => step == SessionStep::Wait(SNARK_POLL_SECS),
            SessionPhase::Succeeded => match *output {
                Some(url) => step == SessionStep::Collect(Some(url)),
                None => step is Fail && step->Fail_0@ == "SNARK missing output URL"@,
            },
            SessionPhase::Failed => step is Fail && step->Fail_0@ == failure_message(
                "SNARK Job failed: "@,
                uuid@,
                match *error {
                    Some(e) => Some(e@),
                    None => None,
                },
            ),
        },
{
    match classify_status(status) {
        SessionPhase::Running => SessionStep::Wait(SNARK_POLL_SECS),
        SessionPhase::Succeeded => match output {
            Some(url) => SessionStep::Collect(Some(url.clone())),
            None => SessionStep::Fail(String::from_str("SNARK missing output URL")),
        },
        SessionPhase::Failed => SessionStep::Fail(
            make_failure_message("SNARK Job failed: ", uuid, error),
        ),
    }
}

/// The name of the file that records a session.
pub fn session_info_name(uuid: &str) -> (name: String)
    ensures
        name@ == uuid@ + "_session_info.json"@,
{
    String::from_str(uuid).concat("_session_info.json")
}

/// The name of the file that holds the STARK receipt of a session.
pub fn stark_receipt_name(uuid: &str) -> (name: String)
    ensures
        name@ == uuid@ + "_stark_receipt.bin"@,
{
    String::from_str(uuid).concat("_stark_receipt.bin")
}

/// The name of the file that holds the SNARK receipt of a session.
pub fn snark_receipt_name(uuid: &str) -> (name: String)
    ensures
        name@ == uuid@ + "_snark_receipt.bin"@,
{
    String::from_str(uuid).concat("_snark_receipt.bin")
}

/// The four bytes of a word, lowest first.
pub open spec fn word_bytes(word: u32) -> Seq<u8> {
    seq![
        (word % 0x100) as u8,
        (word / 0x100 % 0x100) as u8,
        (word / 0x1_0000 % 0x100) as u8,
        (word / 0x100_0000) as u8,
    ]
}

/// The bytes of a list of words, each word lowest byte first.
pub open spec fn le_words(words: Seq<u32>) -> Seq<u8>
    decreases words.len(),
{
    if words.len() == 0 {
        Seq::empty()
    } else {
        le_words(words.drop_last()) + word_bytes(words.last())
    }
}

/// The bytes of a pair of words are the bytes of the first followed by the
/// bytes of the second.
pub proof fn lemma_le_words_of_pair(a: u32, b: u32)
    ensures
        le_words(seq![a, b]) == word_bytes(a) + word_bytes(b),
{
    let pair = seq![a, b];
    let one = seq![a];
    assert(pair.drop_last() =~= one);
    assert(one.drop_last() =~= Seq::<u32>::empty());
    reveal_with_fuel(le_words, 3);
    assert(le_words(one) =~= word_bytes(a));
}

/// Encodes a pair of numbers as the input of a guest program.
///
/// Trusted: calls `risc0_zkvm::serde::to_vec` on the pair. The contract says
/// that the call succeeds and gives the two numbers as two words. That
/// encoder writes into a vector it grows itself; it writes a tuple as its
/// elements with nothing around them and a 32-bit number as one word, and
/// none of these steps has a way to fail.
#[verifier::external_body]
fn encode_pair(a: u32, b: u32) -> (words: Option<Vec<u32>>)
    ensures
        words.is_some(),
        words->Some_0@ == seq![a, b],
{
    match risc0_zkvm::serde::to_vec(&(a, b)) {
        Ok(w) => Some(w),
        Err(_) => None,
    }
}

/// The input of a guest program that takes two numbers, as the bytes of a
/// file: the first number, then the second, each lowest byte first. The
/// encoder takes every pair, so the result is never `None`.
pub fn encode_input(a: u32, b: u32) -> (bytes: Option<Vec<u8>>)
    ensures
        bytes.is_some(),
        bytes->Some_0@ == word_bytes(a) + word_bytes(b),
{
    proof {
        lemma_le_words_of_pair(a, b);
    }
    match encode_pair(a, b) {
        Some(words) => Some(words_to_le_bytes(&words)),
        None => None,
    }
}

/// Lays the words of an encoded input out as bytes.
pub fn words_to_le_bytes(words: &Vec<u32>) -> (bytes: Vec<u8>)
    ensures
        bytes@ == le_words(words@),
{
    let mut bytes: Vec<u8> = Vec::new();
    let mut i: usize = 0;
    while i < words.len()
        invariant
            i <= words@.len(),
            bytes@ == le_words(words@.take(i as int)),
        decreases words@.len() - i,
    {
        let word = words[i];
        let ghost before = bytes@;
        bytes.push((word % 0x100) as u8);
        bytes.push((word / 0x100 % 0x100) as u8);
        bytes.push((word / 0x1_0000 % 0x100) as u8);
        bytes.push((word / 0x100_0000) as u8);
        proof {
            assert(bytes@ =~= before + word_bytes(word));
            assert(words@.take(i + 1).drop_last() =~= words@.take(i as int));
        }
        i += 1;
    }
    assert(words@.take(i as int) =~= words@);
    bytes
}

} // verus!
