//! The persisted record: its fields, its well-formedness, and its
//! fixed-size storage byte layout.

use crate::layout::append_bytes;
use crate::layout::append_zeros;
use crate::layout::i64_as_u64;
use crate::layout::lemma_concat_eq;
use crate::layout::lemma_i64_as_u64_injective;
use crate::layout::timestamp_bits;
use crate::layout::zero_pad;
use vstd::bytes::lemma_auto_spec_u32_to_from_le_bytes;
use vstd::bytes::lemma_auto_spec_u64_to_from_le_bytes;
use vstd::bytes::spec_u32_to_le_bytes;
use vstd::bytes::spec_u64_to_le_bytes;
use vstd::bytes::u32_to_le_bytes;
use vstd::bytes::u64_to_le_bytes;
use vstd::prelude::*;
use vstd::slice::slice_to_vec;
use vstd::utf8::decode_utf8;
use vstd::utf8::encode_utf8;
use vstd::utf8::encode_utf8_decode_utf8;

verus! {

/// Size in bytes of the leading record-type discriminator.
pub const DISCRIMINATOR_LENGTH: usize = 8;

/// Size in bytes of an author identity (a public key).
pub const PUBLIC_KEY_LENGTH: usize = 32;

/// Size in bytes of the stored timestamp.
pub const TIMESTAMP_LENGTH: usize = 8;

/// Size in bytes of each string's length prefix.
pub const STRING_LENGTH_PREFIX: usize = 4;

/// Reserved capacity in bytes for the topic (4 bytes per character, worst case).
pub const MAX_TOPIC_LENGTH: usize = 200;

/// Reserved capacity in bytes for the content (4 bytes per character, worst case).
pub const MAX_CONTENT_LENGTH: usize = 280 * 4;

/// Maximum number of characters in a topic.
pub const MAX_TOPIC_CHARS: usize = 50;

/// Maximum number of characters in a content string.
pub const MAX_CONTENT_CHARS: usize = 280;

/// A 32-byte public identity on the host ledger.
#[derive(Debug)]
pub struct Pubkey {
    pub(crate) bytes: Vec<u8>,
}

impl View for Pubkey {
    type V = Seq<u8>;

    closed spec fn view(&self) -> Seq<u8> {
        self.bytes@
    }
}

impl Pubkey {
    /// An identity holds exactly 32 bytes.
    pub open spec fn wf(&self) -> bool {
        self@.len() == PUBLIC_KEY_LENGTH
    }

    /// Wraps raw identity bytes; rejects any length other than 32.
    pub fn new(bytes: Vec<u8>) -> (r: Option<Pubkey>)
        ensures
            r matches Some(p) ==> p@ == bytes@ && p.wf(),
            r is Some <==> bytes@.len() == PUBLIC_KEY_LENGTH,
    {
        if bytes.len() == PUBLIC_KEY_LENGTH {
            Some(Pubkey { bytes })
        } else {
            None
        }
    }

    /// The identity's raw bytes.
    pub fn as_bytes(&self) -> (r: &Vec<u8>)
        ensures
            r@ == self@,
    {
        &self.bytes
    }
}

/// The persisted entity: one immutable post record.
#[derive(Debug)]
pub struct Tweet {
    pub author: Pubkey,
    pub timestamp: i64,
    pub topic: String,
    pub content: String,
}

/// The mathematical model of a record: the author's identity bytes, the
/// clock reading, and the two texts as character sequences.
#[verifier::ext_equal]
pub struct TweetView {
    pub author: Seq<u8>,
    pub timestamp: i64,
    pub topic: Seq<char>,
    pub content: Seq<char>,
}

impl View for Tweet {
    type V = TweetView;

    open spec fn view(&self) -> TweetView {
        TweetView {
            author: self.author@,
            timestamp: self.timestamp,
            topic: self.topic@,
            content: self.content@,
        }
    }
}

/// Well-formedness of a record model: a full-size identity and both texts
/// within their character caps.
pub open spec fn view_wf(t: TweetView) -> bool {
    &&& t.author.len() == PUBLIC_KEY_LENGTH
    &&& t.topic.len() <= MAX_TOPIC_CHARS
    &&& t.content.len() <= MAX_CONTENT_CHARS
}

/// The 8-byte tag that marks a storage slot as holding a post record.
pub open spec fn discriminator_bytes() -> Seq<u8> {
    seq![84u8, 119u8, 101u8, 101u8, 116u8, 82u8, 101u8, 99u8]
}

/// UTF-8 encodes each character in at most four bytes.
pub proof fn lemma_encode_utf8_len(chars: Seq<char>)
    ensures
        encode_utf8(chars).len() <= 4 * chars.len(),
    decreases chars.len(),
{
    if chars.len() == 0 {
    } else {
        lemma_encode_utf8_len(chars.drop_first());
    }
}

/// The complete storage image of a record: a leading type discriminator,
/// the author identity, the timestamp in little-endian two's complement,
/// then each text as a little-endian byte-length prefix followed by its
/// UTF-8 bytes, zero-padded to the text's reserved capacity.
pub open spec fn record_bytes(t: TweetView) -> Seq<u8> {
    discriminator_bytes() + t.author + spec_u64_to_le_bytes(i64_as_u64(t.timestamp))
        + spec_u32_to_le_bytes(encode_utf8(t.topic).len() as u32) + zero_pad(
        encode_utf8(t.topic),
        MAX_TOPIC_LENGTH as int,
    ) + spec_u32_to_le_bytes(encode_utf8(t.content).len() as u32) + zero_pad(
        encode_utf8(t.content),
        MAX_CONTENT_LENGTH as int,
    )
}

/// Appends the record-type discriminator tag.
fn push_discriminator(out: &mut Vec<u8>)
    ensures
        final(out)@ == old(out)@ + discriminator_bytes(),
{
    out.push(84u8);
    out.push(119u8);
    out.push(101u8);
    out.push(101u8);
    out.push(116u8);
    out.push(82u8);
    out.push(101u8);
    out.push(99u8);
    proof {
        assert(out@ =~= old(out)@ + discriminator_bytes());
    }
}

impl Tweet {
    /// Total fixed byte size of a record's storage slot, computed from the
    /// two length caps alone, never from an actual payload length.
    pub const LEN: usize = DISCRIMINATOR_LENGTH + PUBLIC_KEY_LENGTH + TIMESTAMP_LENGTH
        + STRING_LENGTH_PREFIX + MAX_TOPIC_LENGTH + STRING_LENGTH_PREFIX + MAX_CONTENT_LENGTH;

    /// A record is well-formed when its model is.
    pub open spec fn wf(&self) -> bool {
        view_wf(self@)
    }

    /// Serializes the record into its fixed-size storage byte layout.
    pub fn serialize(&self) -> (r: Vec<u8>)
        requires
            self.wf(),
        ensures
            r@ == record_bytes(self@),
            r@.len() == Tweet::LEN,
    {
        proof {
            lemma_encode_utf8_len(self@.topic);
            lemma_encode_utf8_len(self@.content);
        }
        let mut out: Vec<u8> = Vec::new();
        push_discriminator(&mut out);
        append_bytes(&mut out, &self.author.bytes);
        let ts = u64_to_le_bytes(timestamp_bits(self.timestamp));
        append_bytes(&mut out, &ts);

        let tb = slice_to_vec(self.topic.as_str().as_bytes());
        let tp = u32_to_le_bytes(tb.len() as u32);
        append_bytes(&mut out, &tp);
        append_bytes(&mut out, &tb);
        append_zeros(&mut out, MAX_TOPIC_LENGTH - tb.len());

        let cb = slice_to_vec(self.content.as_str().as_bytes());
        let cp = u32_to_le_bytes(cb.len() as u32);
        append_bytes(&mut out, &cp);
        append_bytes(&mut out, &cb);
        append_zeros(&mut out, MAX_CONTENT_LENGTH - cb.len());

        proof {
            assert(out@ =~= record_bytes(self@));
        }
        out
    }

    /// Writes the record's byte layout into a pre-allocated storage slot of
    /// exactly `Tweet::LEN` bytes, in place: the slot is never resized.
    pub fn write_to_slot(&self, slot: &mut Vec<u8>)
        requires
            self.wf(),
            old(slot)@.len() == Tweet::LEN,
        ensures
            final(slot)@ == record_bytes(self@),
    {
        let bytes = self.serialize();
        let mut j: usize = 0;
        while j < bytes.len()
            invariant
                bytes@ == record_bytes(self@),
                bytes@.len() == Tweet::LEN,
                slot@.len() == Tweet::LEN,
                j <= bytes@.len(),
                forall|i: int| 0 <= i < j ==> slot@[i] == bytes@[i],
            decreases bytes@.len() - j,
        {
            slot[j] = bytes[j];
            j = j + 1;
        }
        proof {
            assert(slot@ =~= bytes@);
        }
    }
}

/// Every well-formed record occupies exactly the fixed storage size: the
/// slot size depends on the two length caps alone, never on the payload.
pub proof fn lemma_record_size(t: TweetView)
    requires
        view_wf(t),
    ensures
        record_bytes(t).len() == Tweet::LEN,
{
    lemma_encode_utf8_len(t.topic);
    lemma_encode_utf8_len(t.content);
    lemma_auto_spec_u32_to_from_le_bytes();
    lemma_auto_spec_u64_to_from_le_bytes();
}

/// Distinct well-formed records never share a storage image: the stored
/// bytes determine the author, the timestamp and both texts exactly, so a
/// committed slot can be read back as one record only.
pub proof fn lemma_record_bytes_injective(t1: TweetView, t2: TweetView)
    requires
        view_wf(t1),
        view_wf(t2),
        record_bytes(t1) == record_bytes(t2),
    ensures
        t1 == t2,
{
    broadcast use encode_utf8_decode_utf8;

    lemma_encode_utf8_len(t1.topic);
    lemma_encode_utf8_len(t1.content);
    lemma_encode_utf8_len(t2.topic);
    lemma_encode_utf8_len(t2.content);
    lemma_auto_spec_u32_to_from_le_bytes();
    lemma_auto_spec_u64_to_from_le_bytes();
    let d = discriminator_bytes();
    let ts1 = spec_u64_to_le_bytes(i64_as_u64(t1.timestamp));
    let ts2 = spec_u64_to_le_bytes(i64_as_u64(t2.timestamp));
    let e_t1 = encode_utf8(t1.topic);
    let e_t2 = encode_utf8(t2.topic);
    let e_c1 = encode_utf8(t1.content);
    let e_c2 = encode_utf8(t2.content);
    let p_t1 = spec_u32_to_le_bytes(e_t1.len() as u32);
    let p_t2 = spec_u32_to_le_bytes(e_t2.len() as u32);
    let p_c1 = spec_u32_to_le_bytes(e_c1.len() as u32);
    let p_c2 = spec_u32_to_le_bytes(e_c2.len() as u32);
    let z_t1 = zero_pad(e_t1, MAX_TOPIC_LENGTH as int);
    let z_t2 = zero_pad(e_t2, MAX_TOPIC_LENGTH as int);
    let z_c1 = zero_pad(e_c1, MAX_CONTENT_LENGTH as int);
    let z_c2 = zero_pad(e_c2, MAX_CONTENT_LENGTH as int);

    lemma_concat_eq(
        d + t1.author + ts1 + p_t1 + z_t1 + p_c1,
        z_c1,
        d + t2.author + ts2 + p_t2 + z_t2 + p_c2,
        z_c2,
    );
    lemma_concat_eq(
        d + t1.author + ts1 + p_t1 + z_t1,
        p_c1,
        d + t2.author + ts2 + p_t2 + z_t2,
        p_c2,
    );
    lemma_concat_eq(d + t1.author + ts1 + p_t1, z_t1, d + t2.author + ts2 + p_t2, z_t2);
    lemma_concat_eq(d + t1.author + ts1, p_t1, d + t2.author + ts2, p_t2);
    lemma_concat_eq(d + t1.author, ts1, d + t2.author, ts2);
    lemma_concat_eq(d, t1.author, d, t2.author);

    // The timestamp pieces determine the timestamps.
    assert(i64_as_u64(t1.timestamp) == i64_as_u64(t2.timestamp));
    lemma_i64_as_u64_injective(t1.timestamp, t2.timestamp);

    // The length prefixes determine the encoded byte lengths.
    assert(e_t1.len() == e_t2.len());
    assert(e_c1.len() == e_c2.len());

    // The padded regions determine the UTF-8 bytes, which determine the texts.
    assert(e_t1 =~= z_t1.subrange(0, e_t1.len() as int));
    assert(e_t2 =~= z_t2.subrange(0, e_t2.len() as int));
    assert(e_c1 =~= z_c1.subrange(0, e_c1.len() as int));
    assert(e_c2 =~= z_c2.subrange(0, e_c2.len() as int));
    assert(decode_utf8(e_t1) == t1.topic);
    assert(decode_utf8(e_t2) == t2.topic);
    assert(decode_utf8(e_c1) == t1.content);
    assert(decode_utf8(e_c2) == t2.content);
    assert(t1 =~= t2);
}

} // verus!
