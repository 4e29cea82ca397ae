use nft_job::event::{DecodeError, LogEntry};
use nft_job::job::{
    image_path, metadata_path, seed_from_bytes, step, JobAction, JobError, JobInput, JobState, Put,
};
use nft_job::event::MintEvent;
use nft_job::token::TokenId;

fn entry(topics: &[&str]) -> LogEntry {
    LogEntry {
        topics: topics.iter().map(|t| t.to_string()).collect(),
        data: String::new(),
    }
}

fn header(p: &Put) -> &str {
    assert_eq!(p.asset.headers.len(), 1);
    assert_eq!(p.asset.headers[0].0, "Content-Type");
    &p.asset.headers[0].1
}

/// Runs a job to its end, answering the randomness request with `random`;
/// returns the actions in order.
fn run(e: LogEntry, random: Option<Vec<u8>>) -> (Vec<JobAction>, JobState) {
    let mut actions = Vec::new();
    let (state, action) = step(JobState::Received(e), JobInput::Start, "host");
    assert!(matches!(action, JobAction::RecordProcessed));
    actions.push(action);
    let (state, action) = step(state, JobInput::Recorded, "host");
    let fetch = matches!(action, JobAction::FetchRandomness);
    actions.push(action);
    if !fetch {
        return (actions, state);
    }
    let (state, action) = step(state, JobInput::Randomness(random), "host");
    actions.push(action);
    (actions, state)
}

fn id_topic() -> String {
    format!("{}2a", "0".repeat(62))
}

#[test]
fn mint_42_with_zero_seed_stores_two_assets() {
    let (actions, state) = run(entry(&["sig", "t1", "t2", &id_topic()]), Some(vec![0u8; 32]));
    assert!(matches!(state, JobState::Done));
    assert_eq!(actions.len(), 3);
    let puts = match &actions[2] {
        JobAction::Store(puts) => puts,
        _ => panic!("expected a store"),
    };
    assert_eq!(puts.len(), 2);
    assert_eq!(puts[0].path, "/42");
    assert_eq!(header(&puts[0]), "text/json");
    assert_eq!(puts[1].path, "/42.svg");
    assert_eq!(header(&puts[1]), "image/svg+xml");

    let (again, _) = run(entry(&["sig", "t1", "t2", &id_topic()]), Some(vec![0u8; 32]));
    let puts_again = match &again[2] {
        JobAction::Store(puts) => puts,
        _ => panic!("expected a store"),
    };
    assert_eq!(puts[0].asset.body, puts_again[0].asset.body);
    assert_eq!(puts[1].asset.body, puts_again[1].asset.body);
    let json = String::from_utf8(puts[0].asset.body.clone()).unwrap();
    assert!(json.contains("\"name\":\"dappcon #42\""));
    assert!(json.contains("\"image\":\"http://host.localhost:4943/42.svg\""));
}

#[test]
fn two_topics_abort_after_recording() {
    let (actions, state) = run(entry(&["sig", "t1"]), Some(vec![0u8; 32]));
    assert!(matches!(state, JobState::Failed));
    assert_eq!(actions.len(), 2);
    assert!(matches!(actions[0], JobAction::RecordProcessed));
    assert!(matches!(
        actions[1],
        JobAction::Abort(JobError::Decode(DecodeError::MissingTopic))
    ));
}

#[test]
fn invalid_topic_aborts() {
    let (actions, state) = run(entry(&["sig", "t1", "t2", "zz"]), None);
    assert!(matches!(state, JobState::Failed));
    assert!(matches!(
        actions[1],
        JobAction::Abort(JobError::Decode(DecodeError::InvalidTopic))
    ));
}

#[test]
fn randomness_failure_aborts() {
    let (actions, state) = run(entry(&["sig", "t1", "t2", &id_topic()]), None);
    assert!(matches!(state, JobState::Failed));
    assert!(matches!(actions[2], JobAction::Abort(JobError::RandomnessUnavailable)));
}

#[test]
fn short_randomness_aborts() {
    let (actions, state) = run(entry(&["sig", "t1", "t2", &id_topic()]), Some(vec![1u8; 31]));
    assert!(matches!(state, JobState::Failed));
    assert!(matches!(actions[2], JobAction::Abort(JobError::SeedLength)));
    let (actions, _) = run(entry(&["sig", "t1", "t2", &id_topic()]), Some(vec![1u8; 33]));
    assert!(matches!(actions[2], JobAction::Abort(JobError::SeedLength)));
}

#[test]
fn input_out_of_order_fails() {
    let (state, action) = step(JobState::Received(entry(&[])), JobInput::Recorded, "h");
    assert!(matches!(state, JobState::Failed));
    assert!(matches!(action, JobAction::Abort(JobError::UnexpectedInput)));
    let (state, action) = step(JobState::Done, JobInput::Start, "h");
    assert!(matches!(state, JobState::Failed));
    assert!(matches!(action, JobAction::Abort(JobError::UnexpectedInput)));
}

#[test]
fn seed_needs_exactly_32_bytes() {
    let bytes: Vec<u8> = (0..32u8).collect();
    assert_eq!(seed_from_bytes(&bytes).unwrap().to_vec(), bytes);
    assert!(seed_from_bytes(&vec![0u8; 16]).is_none());
}

#[test]
fn paths_follow_token_id() {
    let e = MintEvent { token_id: TokenId::from_u64(1234) };
    assert_eq!(metadata_path(&e), "/1234");
    assert_eq!(image_path(&e), "/1234.svg");
}
