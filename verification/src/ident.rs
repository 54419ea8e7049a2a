//! Time-ordered note identifiers and the note file names built from them.
//!
//! Identifier generation is an outside capability: a 128-bit value embedding
//! a millisecond timestamp, rendered as 26 characters of Crockford's base32
//! alphabet so that lexicographic order approximates creation-time order.

use vstd::prelude::*;
use crate::naming::{is_id_char, is_note_name, note_file_name};

verus! {

/// Relies on `ulid::Ulid::new` and `Ulid::to_string`: a fresh identifier
/// renders as exactly 26 characters of the alphabet
/// `0123456789ABCDEFGHJKMNPQRSTVWXYZ`.  Nothing more is promised: the value
/// embeds the current time and random bits.
#[verifier::external_body]
fn fresh_ulid() -> (r: String)
    ensures
        r@.len() == 26,
        forall|i: int| 0 <= i < r@.len() ==> is_id_char(#[trigger] r@[i]),
{
    ulid::Ulid::new().to_string()
}

/// The first ten characters of an identifier seeded at an instant: they
/// encode the identifier's 48-bit timestamp field and nothing else, so they
/// are a function of the instant alone.
pub uninterp spec fn ulid_time_chars(millis: u64) -> Seq<char>;

/// Relies on `ulid::Ulid::from_datetime` and `Ulid::to_string`: an identifier
/// for a given instant renders as exactly 26 characters of the alphabet
/// `0123456789ABCDEFGHJKMNPQRSTVWXYZ`, and its first ten characters encode
/// the instant's milliseconds, which fill the identifier's 48-bit timestamp
/// field whole when they lie under 2^48.  The remaining bits are random, so
/// nothing more is promised.  Instants of 2^48 milliseconds or more are kept
/// out: the generator would truncate them, and turning them into a
/// `SystemTime` may not be representable.
#[verifier::external_body]
fn ulid_at(millis: u64) -> (r: String)
    requires
        millis < 0x1000000000000,
    ensures
        r@.len() == 26,
        forall|i: int| 0 <= i < r@.len() ==> is_id_char(#[trigger] r@[i]),
        r@.subrange(0, 10) == ulid_time_chars(millis),
{
    let instant = std::time::UNIX_EPOCH + std::time::Duration::from_millis(millis);
    ulid::Ulid::from_datetime(instant).to_string()
}

/// The note file's identifier and extension make a well-formed note name.
proof fn lemma_note_name_shape(id: Seq<char>, r: Seq<char>)
    requires
        id.len() == 26,
        forall|i: int| 0 <= i < id.len() ==> is_id_char(#[trigger] id[i]),
        r == id + ".md"@,
    ensures
        is_note_name(r),
{
    reveal_strlit(".md");
    assert(r.len() == 29);
    assert(forall|i: int| 0 <= i < 26 ==> #[trigger] r[i] == id[i]);
    assert(r[26] == '.');
    assert(r[27] == 'm');
    assert(r[28] == 'd');
}

/// A file name for a fresh note: a newly generated time-ordered identifier
/// with the `.md` extension.
pub fn fresh_note_file_name() -> (r: String)
    ensures
        is_note_name(r@),
{
    let id = fresh_ulid();
    let r = note_file_name(id.as_str());
    proof {
        lemma_note_name_shape(id@, r@);
    }
    r
}

/// A file name for a note seeded at a known instant, given in milliseconds
/// since the Unix epoch: the name opens with the ten characters that encode
/// the instant, so repeated runs against the same seed sort together.
pub fn note_file_name_at(millis: u64) -> (r: String)
    requires
        millis < 0x1000000000000,
    ensures
        is_note_name(r@),
        r@.subrange(0, 10) == ulid_time_chars(millis),
{
    let id = ulid_at(millis);
    let r = note_file_name(id.as_str());
    proof {
        lemma_note_name_shape(id@, r@);
        assert(r@.subrange(0, 10) =~= id@.subrange(0, 10));
    }
    r
}

} // verus!
