//! The pipeline of one mint notification, as a state machine: the caller
//! performs each action it is handed and feeds back what came of it.

use crate::asset::{has_content_type, Asset};
use crate::attributes::{bg_color_of, circle_color_of, generate};
use crate::event::{decode, decoded_token, DecodeError, LogEntry, MintEvent};
use crate::image::{image_body, render_image, svg_media_type};
use crate::metadata::{json_media_type, metadata_body, render_metadata};
use crate::token::decimal_digits;
use vstd::prelude::*;

verus! {

/// How many bytes of randomness seed the generator.
pub const SEED_LEN: usize = 32;

/// Where one job stands.
pub enum JobState {
    /// The notification has arrived; nothing is done yet.
    Received(LogEntry),
    /// Its source is being recorded as processed.
    MarkedProcessed(LogEntry),
    /// The event is known; randomness is being fetched.
    Decoded(MintEvent),
    /// Both artifacts are handed over for storing.
    Done,
    /// The job stopped; nothing is stored.
    Failed,
}

/// What the caller reports back.
pub enum JobInput {
    /// Begin the job.
    Start,
    /// The source was recorded as processed.
    Recorded,
    /// The randomness call returned these bytes, or failed.
    Randomness(Option<Vec<u8>>),
}

/// An asset and the path to store it under.
pub struct Put {
    pub path: String,
    pub asset: Asset,
}

#[derive(Clone, Copy, Debug, PartialEq, Eq)]
pub enum JobError {
    Decode(DecodeError),
    RandomnessUnavailable,
    /// The randomness was not exactly `SEED_LEN` bytes.
    SeedLength,
    /// The input does not belong to the state.
    UnexpectedInput,
}

/// What the caller is to do next.
pub enum JobAction {
    RecordProcessed,
    FetchRandomness,
    /// Store each asset under its path (an overwriting put).
    Store(Vec<Put>),
    Abort(JobError),
}

/// `/{id}`: where the metadata of token `id` is stored.
pub open spec fn metadata_path_of(id: nat) -> Seq<char> {
    "/"@ + decimal_digits(id)
}

/// `/{id}.svg`: where the image of token `id` is stored.
pub open spec fn image_path_of(id: nat) -> Seq<char> {
    "/"@ + decimal_digits(id) + ".svg"@
}

/// The puts of a finished job: the metadata, then the image, both of the
/// colours drawn from `seed`.
pub open spec fn is_artifact_store(host: Seq<char>, id: nat, seed: Seq<u8>, puts: Seq<Put>) -> bool {
    let bg = bg_color_of(seed);
    let circle = circle_color_of(seed);
    &&& puts.len() == 2
    &&& puts[0].path@ == metadata_path_of(id)
    &&& puts[1].path@ == image_path_of(id)
    &&& has_content_type(&puts[0].asset, json_media_type())
    &&& has_content_type(&puts[1].asset, svg_media_type())
    &&& puts[0].asset.body@ == metadata_body(host, id, bg, circle)
    &&& puts[1].asset.body@ == image_body(bg, circle)
}

/// Decoded: the event of token `id` is kept and randomness is fetched.
pub open spec fn awaits_randomness(r: (JobState, JobAction), id: nat) -> bool {
    match r {
        (JobState::Decoded(e), JobAction::FetchRandomness) => e.token_id.value() == id,
        _ => false,
    }
}

/// Done, with both artifacts to store.
pub open spec fn stores_artifacts(
    r: (JobState, JobAction),
    host: Seq<char>,
    id: nat,
    seed: Seq<u8>,
) -> bool {
    match r {
        (JobState::Done, JobAction::Store(puts)) => is_artifact_store(host, id, seed, puts@),
        _ => false,
    }
}

/// The path of the event's metadata.
pub fn metadata_path(event: &MintEvent) -> (r: String)
    ensures
        r@ == metadata_path_of(event.token_id.value()),
{
    let mut r = "/".to_string();
    r.append(event.token_id.to_decimal().as_str());
    r
}

/// The path of the event's image.
pub fn image_path(event: &MintEvent) -> (r: String)
    ensures
        r@ == image_path_of(event.token_id.value()),
{
    let mut r = metadata_path(event);
    r.append(".svg");
    r
}

/// Renders both artifacts of the event from a 32-byte seed.
pub fn build_artifacts(host: &str, event: &MintEvent, seed: [u8; 32]) -> (r: Vec<Put>)
    ensures
        is_artifact_store(host@, event.token_id.value(), seed@, r@),
{
    let attributes = generate(seed);
    let metadata = render_metadata(host, event, &attributes);
    let image = render_image(&attributes);
    let mut puts: Vec<Put> = Vec::new();
    puts.push(Put { path: metadata_path(event), asset: metadata });
    puts.push(Put { path: image_path(event), asset: image });
    puts
}

/// Copies exactly `SEED_LEN` bytes into a seed.
pub fn seed_from_bytes(bytes: &Vec<u8>) -> (r: Option<[u8; 32]>)
    ensures
        r is Some <==> bytes@.len() == SEED_LEN,
        r is Some ==> r->Some_0@ == bytes@,
{
    if bytes.len() != SEED_LEN {
        return None;
    }
    let mut seed: [u8; 32] = [0u8; 32];
    let mut i: usize = 0;
    while i < SEED_LEN
        invariant
            bytes@.len() == SEED_LEN,
            i <= SEED_LEN,
            forall|j: int| 0 <= j < i ==> seed@[j] == bytes@[j],
        decreases SEED_LEN - i,
    {
        seed[i] = bytes[i];
        i = i + 1;
    }
    proof {
        assert(seed@ =~= bytes@);
    }
    Some(seed)
}

/// One step of the job: the state that follows and the action to perform.
/// The source is recorded before the event is decoded, so a job that fails
/// later is not retried.
pub fn step(state: JobState, input: JobInput, host: &str) -> (r: (JobState, JobAction))
    ensures
        match (state, input) {
            (JobState::Received(entry), JobInput::Start) => r.0 == JobState::MarkedProcessed(entry)
                && r.1 == JobAction::RecordProcessed,
            (JobState::MarkedProcessed(entry), JobInput::Recorded) => match decoded_token(&entry) {
                Ok(id) => awaits_randomness(r, id),
                Err(e) => r.0 == JobState::Failed && r.1 == JobAction::Abort(JobError::Decode(e)),
            },
            (JobState::Decoded(event), JobInput::Randomness(None)) => r.0 == JobState::Failed
                && r.1 == JobAction::Abort(JobError::RandomnessUnavailable),
            (JobState::Decoded(event), JobInput::Randomness(Some(bytes))) => if bytes@.len()
                != SEED_LEN {
                r.0 == JobState::Failed && r.1 == JobAction::Abort(JobError::SeedLength)
            } else {
                stores_artifacts(r, host@, event.token_id.value(), bytes@)
            },
            _ => r.0 == JobState::Failed && r.1 == JobAction::Abort(JobError::UnexpectedInput),
        },
{
    match (state, input) {
        (JobState::Received(entry), JobInput::Start) => (
            JobState::MarkedProcessed(entry),
            JobAction::RecordProcessed,
        ),
        (JobState::MarkedProcessed(entry), JobInput::Recorded) => match decode(&entry) {
            Ok(event) => (JobState::Decoded(event), JobAction::FetchRandomness),
            Err(e) => (JobState::Failed, JobAction::Abort(JobError::Decode(e))),
        },
        (JobState::Decoded(event), JobInput::Randomness(None)) => (
            JobState::Failed,
            JobAction::Abort(JobError::RandomnessUnavailable),
        ),
        (JobState::Decoded(event), JobInput::Randomness(Some(bytes))) => match seed_from_bytes(
            &bytes,
        ) {
            None => (JobState::Failed, JobAction::Abort(JobError::SeedLength)),
            Some(seed) => (JobState::Done, JobAction::Store(build_artifacts(host, &event, seed))),
        },
        _ => (JobState::Failed, JobAction::Abort(JobError::UnexpectedInput)),
    }
}

} // verus!
