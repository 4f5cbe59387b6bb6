//! Which texts count as a URI. The grammar is that of the `uriparse` crate;
//! the test for a leading scheme is made here, before `uriparse` is asked.

use std::convert::TryFrom;
use uriparse::URI;
use vstd::prelude::*;
use vstd::utf8::encode_utf8;

verus! {

/// Whether `uriparse` accepts the text as a URI.
pub uninterp spec fn uri_accepted(text: Seq<char>) -> bool;

/// An ASCII letter: what a scheme starts with.
pub open spec fn is_scheme_start(b: u8) -> bool {
    (0x41 <= b <= 0x5a) || (0x61 <= b <= 0x7a)
}

/// A letter, a digit, `+`, `-` or `.`: what a scheme is made of.
pub open spec fn is_scheme_char(b: u8) -> bool {
    is_scheme_start(b) || (0x30 <= b <= 0x39) || b == 0x2b || b == 0x2d || b == 0x2e
}

/// The bytes begin with a scheme that ends at the colon at place `k`: a
/// letter, then scheme characters only.
pub open spec fn scheme_ends_at(bytes: Seq<u8>, k: int) -> bool {
    &&& 0 < k < bytes.len()
    &&& bytes[k] == 0x3a
    &&& is_scheme_start(bytes[0])
    &&& forall|j: int| 0 <= j < k ==> is_scheme_char(#[trigger] bytes[j])
}

/// The bytes begin with a scheme and a colon.
pub open spec fn has_scheme(bytes: Seq<u8>) -> bool {
    exists|k: int| scheme_ends_at(bytes, k)
}

/// A text is a valid URI when it begins with a scheme and `uriparse` accepts
/// it. A text without a scheme is never one; the empty text has none.
pub open spec fn valid_uri(text: Seq<char>) -> bool {
    has_scheme(encode_utf8(text)) && uri_accepted(text)
}

fn scheme_start(b: u8) -> (r: bool)
    ensures
        r == is_scheme_start(b),
{
    (0x41 <= b && b <= 0x5a) || (0x61 <= b && b <= 0x7a)
}

fn scheme_char(b: u8) -> (r: bool)
    ensures
        r == is_scheme_char(b),
{
    scheme_start(b) || (0x30 <= b && b <= 0x39) || b == 0x2b || b == 0x2d || b == 0x2e
}

/// Whether the bytes begin with a scheme and a colon.
pub fn starts_with_scheme(bytes: &[u8]) -> (r: bool)
    ensures
        r == has_scheme(bytes@),
{
    if bytes.len() == 0 || !scheme_start(bytes[0]) {
        proof {
            assert forall|k: int| !scheme_ends_at(bytes@, k) by {}
        }
        return false;
    }
    let mut i: usize = 1;
    while i < bytes.len()
        invariant
            1 <= i <= bytes@.len(),
            is_scheme_start(bytes@[0]),
            forall|j: int| 0 <= j < i ==> is_scheme_char(#[trigger] bytes@[j]),
        decreases bytes@.len() - i,
    {
        if bytes[i] == 0x3a {
            proof {
                assert(scheme_ends_at(bytes@, i as int));
            }
            return true;
        }
        if !scheme_char(bytes[i]) {
            proof {
                assert forall|k: int| !scheme_ends_at(bytes@, k) by {
                    if scheme_ends_at(bytes@, k) {
                        if k < i {
                            assert(is_scheme_char(bytes@[k]));
                        } else if k > i {
                            assert(is_scheme_char(bytes@[i as int]));
                        }
                    }
                }
            }
            return false;
        }
        i += 1;
    }
    proof {
        assert forall|k: int| !scheme_ends_at(bytes@, k) by {
            if scheme_ends_at(bytes@, k) {
                assert(is_scheme_char(bytes@[k]));
            }
        }
    }
    false
}

/// Calls `URI::try_from` of `uriparse` on the text and says whether it
/// returned `Ok`.
///
/// Trusted: the answer depends on the text alone. The precondition is there
/// because, on a text without a scheme whose first path segment holds a
/// colon, `uriparse` unwraps an error that it cannot convert, and aborts.
#[verifier::external_body]
fn parses_as_uri(text: &str) -> (r: bool)
    requires
        has_scheme(encode_utf8(text@)),
    ensures
        r == uri_accepted(text@),
{
    URI::try_from(text).is_ok()
}

/// Whether the text is a valid URI.
pub fn is_valid_uri(text: &str) -> (r: bool)
    ensures
        r == valid_uri(text@),
{
    starts_with_scheme(text.as_bytes()) && parses_as_uri(text)
}

} // verus!
