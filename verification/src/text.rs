//! Captured bytes as text.

use vstd::prelude::*;
use vstd::utf8::{decode_utf8, valid_utf8};

verus! {

/// The text that lossy UTF-8 decoding makes of `bytes`: well-formed
/// sequences decoded, every ill-formed one replaced by U+FFFD.
pub uninterp spec fn lossy_text(bytes: Seq<u8>) -> Seq<char>;

/// `String::from_utf8_lossy`, which never fails. Trusted: the result is
/// the lossy decoding of `bytes`, and for bytes that already are UTF-8 it is
/// the very text they encode, as the standard library documents.
#[verifier::external_body]
pub(crate) fn decode_lossy(bytes: &[u8]) -> (text: String)
    ensures
        text@ == lossy_text(bytes@),
        valid_utf8(bytes@) ==> text@ == decode_utf8(bytes@),
{
    String::from_utf8_lossy(bytes).into_owned()
}

/// An expected literal without the one leading newline that multi-line
/// literals carry for layout. Nothing else is trimmed.
pub open spec fn expected_body(literal: Seq<char>) -> Seq<char> {
    if literal.len() > 0 && literal[0] == '\n' {
        literal.skip(1)
    } else {
        literal
    }
}

/// Strips one leading newline from `literal`, if it has one.
pub fn strip_leading_newline(literal: &str) -> (body: &str)
    ensures
        body@ == expected_body(literal@),
{
    let n = literal.unicode_len();
    if n > 0 && literal.get_char(0) == '\n' {
        let body = literal.substring_char(1, n);
        assert(literal@.subrange(1, n as int) =~= literal@.skip(1));
        body
    } else {
        literal
    }
}

/// Exactly one newline is stripped: whatever follows the first newline
/// stays, a second newline included.
pub proof fn lemma_strips_one_newline(rest: Seq<char>)
    ensures
        expected_body(seq!['\n'] + rest) == rest,
        expected_body(seq!['\n', '\n'] + rest) == seq!['\n'] + rest,
{
    assert((seq!['\n'] + rest).skip(1) =~= rest);
    assert((seq!['\n', '\n'] + rest).skip(1) =~= seq!['\n'] + rest);
}

/// A literal that does not begin with a newline is taken as it stands.
pub proof fn lemma_plain_literal_unchanged(literal: Seq<char>)
    requires
        literal.len() == 0 || literal[0] != '\n',
    ensures
        expected_body(literal) == literal,
{
}

} // verus!
