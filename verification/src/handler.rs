//! The record-creation handler: input validation, allocator verification,
//! and field population.

use crate::tweet::record_bytes;
use crate::tweet::Pubkey;
use crate::tweet::Tweet;
use crate::tweet::TweetView;
use crate::tweet::MAX_CONTENT_CHARS;
use crate::tweet::MAX_TOPIC_CHARS;
use vstd::prelude::*;
use vstd::string::StrSliceExecFns;

verus! {

/// One discrete code for each way the handler refuses a call.
#[derive(Clone, Copy, Debug, PartialEq, Eq, Structural)]
pub enum ErrorCode {
    /// The topic exceeds the 50-character cap.
    TopicTooLong,
    /// The content exceeds the 280-character cap.
    ContentTooLong,
    /// The named allocator is not the host's system allocator.
    InvalidAllocator,
}

impl ErrorCode {
    /// The user-visible message for this error code.
    pub fn message(&self) -> (r: &'static str)
        ensures
            *self == ErrorCode::TopicTooLong ==> r@
                == "The provided topic should be 50 characters long maximum."@,
            *self == ErrorCode::ContentTooLong ==> r@
                == "The provided content should be 280 characters long maximum."@,
            *self == ErrorCode::InvalidAllocator ==> r@
                == "The provided allocator is not the system allocator."@,
    {
        match self {
            ErrorCode::TopicTooLong => "The provided topic should be 50 characters long maximum.",
            ErrorCode::ContentTooLong => "The provided content should be 280 characters long maximum.",
            ErrorCode::InvalidAllocator => "The provided allocator is not the system allocator.",
        }
    }
}

/// Whether a 32-byte identity is the well-known address of the host's
/// system allocator.
pub uninterp spec fn is_system_id(key: Seq<u8>) -> bool;

/// Relies on `system_program::check_id`, re-exported by anchor_lang: it
/// compares the given address against the system program's well-known
/// constant address, so its result is a function of the key bytes alone.
#[verifier::external_body]
fn check_system_allocator(key: &Pubkey) -> (r: bool)
    requires
        key.wf(),
    ensures
        r == is_system_id(key@),
{
    let mut arr = [0u8; 32];
    arr.copy_from_slice(key.as_bytes().as_slice());
    anchor_lang::solana_program::system_program::check_id(
        &anchor_lang::solana_program::pubkey::Pubkey::new_from_array(arr),
    )
}

/// Creates a new post record on behalf of the signing identity.
///
/// `author` is the identity that signed the enclosing transaction and
/// `timestamp` is the host clock reading taken during execution; neither
/// is accepted from the record's payload. The call refuses a wrong
/// allocator before looking at the texts, then checks the topic, then the
/// content, and only then populates the record, so nothing is written on
/// any failure.
pub fn send_tweet(
    topic: String,
    content: String,
    author: Pubkey,
    allocator: &Pubkey,
    timestamp: i64,
) -> (r: Result<Tweet, ErrorCode>)
    requires
        author.wf(),
        allocator.wf(),
    ensures
        r is Ok <==> is_system_id(allocator@) && topic@.len() <= MAX_TOPIC_CHARS && content@.len()
            <= MAX_CONTENT_CHARS,
        r matches Ok(t) ==> ({
            &&& t@.author == author@
            &&& t@.timestamp == timestamp
            &&& t@.topic == topic@
            &&& t@.content == content@
            &&& t.wf()
        }),
        r == Err::<Tweet, ErrorCode>(ErrorCode::InvalidAllocator) <==> !is_system_id(allocator@),
        r == Err::<Tweet, ErrorCode>(ErrorCode::TopicTooLong) <==> is_system_id(allocator@)
            && topic@.len() > MAX_TOPIC_CHARS,
        r == Err::<Tweet, ErrorCode>(ErrorCode::ContentTooLong) <==> is_system_id(allocator@)
            && topic@.len() <= MAX_TOPIC_CHARS && content@.len() > MAX_CONTENT_CHARS,
{
    if !check_system_allocator(allocator) {
        return Err(ErrorCode::InvalidAllocator);
    }
    if topic.as_str().unicode_len() > MAX_TOPIC_CHARS {
        return Err(ErrorCode::TopicTooLong);
    }
    if content.as_str().unicode_len() > MAX_CONTENT_CHARS {
        return Err(ErrorCode::ContentTooLong);
    }
    Ok(Tweet { author, timestamp, topic, content })
}

/// Creates a record and commits it to a pre-allocated storage slot of
/// exactly `Tweet::LEN` bytes.
///
/// All validation runs before any state mutation: on success the slot
/// holds the record's complete byte image, and on any failure the slot is
/// exactly as it was, so no partial record is ever observable.
pub fn create_record(
    topic: String,
    content: String,
    author: Pubkey,
    allocator: &Pubkey,
    timestamp: i64,
    slot: &mut Vec<u8>,
) -> (r: Result<(), ErrorCode>)
    requires
        author.wf(),
        allocator.wf(),
        old(slot)@.len() == Tweet::LEN,
    ensures
        r is Ok <==> is_system_id(allocator@) && topic@.len() <= MAX_TOPIC_CHARS && content@.len()
            <= MAX_CONTENT_CHARS,
        r is Ok ==> final(slot)@ == record_bytes(
            (TweetView { author: author@, timestamp, topic: topic@, content: content@ }),
        ),
        r is Err ==> final(slot)@ == old(slot)@,
        r == Err::<(), ErrorCode>(ErrorCode::InvalidAllocator) <==> !is_system_id(allocator@),
        r == Err::<(), ErrorCode>(ErrorCode::TopicTooLong) <==> is_system_id(allocator@)
            && topic@.len() > MAX_TOPIC_CHARS,
        r == Err::<(), ErrorCode>(ErrorCode::ContentTooLong) <==> is_system_id(allocator@)
            && topic@.len() <= MAX_TOPIC_CHARS && content@.len() > MAX_CONTENT_CHARS,
{
    match send_tweet(topic, content, author, allocator, timestamp) {
        Ok(record) => {
            proof {
                assert(record@ =~= (TweetView {
                    author: author@,
                    timestamp,
                    topic: topic@,
                    content: content@,
                }));
            }
            record.write_to_slot(slot);
            Ok(())
        },
        Err(code) => Err(code),
    }
}

} // verus!
