//! Decoding a mint notification's log record into a typed event.

use crate::token::{hex_body, hex_value, is_hex_digit, is_u256_hex, TokenId};
use vstd::prelude::*;

verus! {

/// A log record as delivered by the log subscription: its topics, each a
/// hex-encoded 32-byte word, and its raw data.
pub struct LogEntry {
    pub topics: Vec<String>,
    pub data: String,
}

/// The slot of the topics that holds the token id.
pub const TOKEN_ID_TOPIC: usize = 3;

/// A mint on the ledger, identified by its token id.
#[derive(Clone, Copy, Debug, PartialEq, Eq, PartialOrd, Ord, Hash)]
pub struct MintEvent {
    pub token_id: TokenId,
}

#[derive(Clone, Copy, Debug, PartialEq, Eq)]
pub enum DecodeError {
    /// The record has no topic in the token id slot.
    MissingTopic,
    /// The token id topic is not a hex number of at most 256 bits.
    InvalidTopic,
}

/// The topic that carries the token id, if the record has it.
pub open spec fn token_topic(entry: &LogEntry) -> Option<Seq<char>> {
    if entry.topics@.len() > TOKEN_ID_TOPIC {
        Some(entry.topics@[TOKEN_ID_TOPIC as int]@)
    } else {
        None
    }
}

/// What decoding gives: the token id's value, or the reason there is none.
pub open spec fn decoded_token(entry: &LogEntry) -> Result<nat, DecodeError> {
    match token_topic(entry) {
        None => Err(DecodeError::MissingTopic),
        Some(t) => if is_u256_hex(t) {
            Ok(hex_value(hex_body(t)))
        } else {
            Err(DecodeError::InvalidTopic)
        },
    }
}

/// A record whose token id topic is 64 hex digits decodes to the number
/// those digits spell, most significant digit first.
pub proof fn lemma_decode_full_width_topic(entry: &LogEntry)
    requires
        entry.topics@.len() > TOKEN_ID_TOPIC,
        entry.topics@[TOKEN_ID_TOPIC as int]@.len() == 64,
        forall|i: int|
            0 <= i < 64 ==> is_hex_digit(#[trigger] entry.topics@[TOKEN_ID_TOPIC as int]@[i]),
    ensures
        decoded_token(entry) == Ok::<nat, DecodeError>(
            hex_value(entry.topics@[TOKEN_ID_TOPIC as int]@),
        ),
{
    let t = entry.topics@[TOKEN_ID_TOPIC as int]@;
    assert(is_hex_digit(t[1]));
    assert(hex_body(t) == t);
}

/// Reads the token id from the fourth topic, in hex.
pub fn decode(entry: &LogEntry) -> (r: Result<MintEvent, DecodeError>)
    ensures
        match (r, decoded_token(entry)) {
            (Ok(e), Ok(v)) => e.token_id.value() == v,
            (Err(e), Err(f)) => e == f,
            _ => false,
        },
{
    if entry.topics.len() <= TOKEN_ID_TOPIC {
        return Err(DecodeError::MissingTopic);
    }
    match TokenId::parse_hex(entry.topics[TOKEN_ID_TOPIC].as_str()) {
        Some(token_id) => Ok(MintEvent { token_id }),
        None => Err(DecodeError::InvalidTopic),
    }
}

} // verus!
