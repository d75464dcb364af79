//! The output verifier: captured bytes against an expected literal.

use crate::diff::{
    diff_lines, line_diff, render_diff, rendered, report_views, ReportLine,
};
use crate::text::{decode_lossy, expected_body, lossy_text, strip_leading_newline};
use vstd::prelude::*;
use vstd::string::StringSliceAdditionalSpecFns;
use vstd::utf8::{encode_utf8, encode_utf8_decode_utf8, encode_utf8_valid_utf8};

verus! {

/// Captured text agrees with an expected literal when it equals the
/// literal's body, character for character.
pub open spec fn texts_agree(actual: Seq<char>, literal: Seq<char>) -> bool {
    actual == expected_body(literal)
}

/// A text agrees with itself, unless it begins with a newline: as a
/// literal it would lose that newline.
pub proof fn lemma_agreement_reflexive(text: Seq<char>)
    requires
        text.len() == 0 || text[0] != '\n',
    ensures
        texts_agree(text, text),
{
}

/// A literal with two leading newlines agrees with the text that begins
/// with one: only the first is layout.
pub proof fn lemma_second_newline_is_data(rest: Seq<char>)
    ensures
        texts_agree(seq!['\n'] + rest, seq!['\n', '\n'] + rest),
        rest.len() > 0 ==> !texts_agree(rest, seq!['\n', '\n'] + rest),
{
    crate::text::lemma_strips_one_newline(rest);
    if rest.len() > 0 {
        assert(rest.len() != (seq!['\n'] + rest).len());
    }
}

/// Why a verification failed: both texts, and their difference line by
/// line, ready to be shown.
#[derive(Debug, PartialEq, Eq)]
pub struct Mismatch {
    /// The captured output, decoded.
    pub actual: String,
    /// The expected literal without its leading newline.
    pub expected: String,
    /// The difference from `actual` to `expected`.
    pub report: Vec<ReportLine>,
}

/// Compares captured output with an expected literal. The bytes are
/// decoded lossily, the literal loses one leading newline, and the two must
/// then be equal exactly.
pub fn verify(actual: &[u8], expected: &str) -> (r: Result<(), Mismatch>)
    ensures
        r is Ok <==> texts_agree(lossy_text(actual@), expected@),
        actual@ == encode_utf8(expected_body(expected@)) ==> r is Ok,
        actual@ == expected.spec_bytes() && (expected@.len() == 0 || expected@[0] != '\n')
            ==> r is Ok,
        match r {
            Ok(_) => true,
            Err(m) => {
                &&& m.actual@ == lossy_text(actual@)
                &&& m.expected@ == expected_body(expected@)
                &&& report_views(m.report@) == rendered(line_diff(m.actual@, m.expected@))
            },
        },
{
    let text = decode_lossy(actual);
    let body = String::from_str(strip_leading_newline(expected));
    proof {
        encode_utf8_valid_utf8(body@);
        encode_utf8_decode_utf8(body@);
    }
    if text == body {
        Ok(())
    } else {
        let changes = diff_lines(text.as_str(), body.as_str());
        let report = render_diff(&changes);
        Err(Mismatch { actual: text, expected: body, report })
    }
}

/// Verifies that nothing was captured: `verify` against the literal that
/// is empty once its leading newline is gone.
pub fn verify_empty(actual: &[u8]) -> (r: Result<(), Mismatch>)
    ensures
        r is Ok <==> lossy_text(actual@).len() == 0,
        actual@.len() == 0 ==> r is Ok,
        match r {
            Ok(_) => true,
            Err(m) => {
                &&& m.actual@ == lossy_text(actual@)
                &&& m.expected@.len() == 0
                &&& report_views(m.report@) == rendered(line_diff(m.actual@, m.expected@))
            },
        },
{
    proof {
        reveal_strlit("\n");
        assert(expected_body("\n"@) =~= Seq::<char>::empty());
        assert(encode_utf8(Seq::<char>::empty()) =~= Seq::<u8>::empty()) by {
            reveal_with_fuel(encode_utf8, 2);
        }
        assert(actual@.len() == 0 ==> actual@ =~= Seq::<u8>::empty());
        assert(lossy_text(actual@).len() == 0 ==> lossy_text(actual@) =~= Seq::<char>::empty());
    }
    verify(actual, "\n")
}

} // verus!
