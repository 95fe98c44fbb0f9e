//! A ledger-execution module that creates immutable, size-bounded post
//! records on behalf of a signing identity.
//!
//! The record-creation handler validates the topic and content lengths
//! (counted in characters, not bytes), rejects calls that name a wrong
//! storage allocator, and populates a fixed-size storage slot with the
//! record's byte layout.

pub mod handler;
pub mod layout;
pub mod tweet;

pub use handler::create_record;
pub use handler::send_tweet;
pub use handler::ErrorCode;
pub use tweet::Pubkey;
pub use tweet::Tweet;
pub use tweet::TweetView;
