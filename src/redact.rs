//! Masking of free-form location text before it is logged.
use vstd::prelude::*;
use vstd::string::*;

verus! {

/// Number of trailing characters that are masked.
pub const MASK_LEN: usize = 4;

/// The masked form of a text: texts shorter than four characters are kept
/// as they are; longer ones keep all but their last four characters, which
/// become `*`.
pub open spec fn redacted(text: Seq<char>) -> Seq<char> {
    if text.len() < 4 {
        text
    } else {
        text.subrange(0, text.len() - 4) + seq!['*', '*', '*', '*']
    }
}

/// Masks the last four characters of `geolocation`, working on characters
/// rather than bytes so that multi-byte text is never split.
pub fn censor_geolocation(geolocation: &str) -> (r: String)
    ensures
        r@ == redacted(geolocation@),
{
    let length = geolocation.unicode_len();
    if length < MASK_LEN {
        return geolocation.to_owned();
    }
    let kept = geolocation.substring_char(0, length - MASK_LEN);
    let mut r = kept.to_owned();
    r.append("****");
    proof {
        reveal_strlit("****");
        assert(r@ =~= redacted(geolocation@));
    }
    r
}

/// Texts shorter than four characters are left unchanged.
pub proof fn lemma_short_text_unchanged(text: Seq<char>)
    requires
        text.len() < 4,
    ensures
        redacted(text) == text,
{
}

/// A text of four characters or more keeps its length, ends in four `*`
/// characters, and keeps every character before them.
pub proof fn lemma_long_text_masked(text: Seq<char>)
    requires
        text.len() >= 4,
    ensures
        redacted(text).len() == text.len(),
        forall|i: int| text.len() - 4 <= i < text.len() ==> #[trigger] redacted(text)[i] == '*',
        redacted(text).subrange(0, text.len() - 4) == text.subrange(0, text.len() - 4),
{
    assert(redacted(text).subrange(0, text.len() - 4) =~= text.subrange(0, text.len() - 4));
}

} // verus!
