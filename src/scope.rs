//! A validated braid: a scope token as defined in RFC 6749, section 3.3.
use vstd::prelude::*;
use vstd::utf8::encode_utf8;
use crate::braid::{Braid, BraidRef, Validating};
use crate::rules::Validator;

verus! {

/// Why a string is not a scope token.
#[derive(Debug, PartialEq, Eq)]
pub enum InvalidScopeToken {
    EmptyString,
    InvalidCharacter { position: usize, value: u8 },
}

/// The rules of a scope token: non-empty, and every byte a printable ASCII
/// character other than space, `"` and `\`.
#[derive(Debug, PartialEq, Eq, Hash, PartialOrd, Ord)]
pub struct ScopeTokenRules;

/// A scope token.
pub type ScopeToken = Braid<Validating<ScopeTokenRules>>;

/// A borrowed reference to a [`ScopeToken`].
pub type ScopeTokenRef<'a> = BraidRef<'a, Validating<ScopeTokenRules>>;

/// The bytes that may appear in a scope token.
pub open spec fn is_scope_byte(b: u8) -> bool {
    0x20 < b && b != 0x22 && b != 0x5C && b < 0x7F
}

/// The index of the first byte at or after `i` that may not appear in a
/// scope token, or the length when there is none.
pub open spec fn first_bad_byte(bytes: Seq<u8>, i: int) -> int
    decreases bytes.len() - i,
{
    if i >= bytes.len() {
        bytes.len() as int
    } else if !is_scope_byte(bytes[i]) {
        i
    } else {
        first_bad_byte(bytes, i + 1)
    }
}

proof fn lemma_first_bad_byte(bytes: Seq<u8>, i: int)
    requires
        0 <= i <= bytes.len(),
    ensures
        i <= first_bad_byte(bytes, i) <= bytes.len(),
        first_bad_byte(bytes, i) < bytes.len() ==> !is_scope_byte(bytes[first_bad_byte(bytes, i)]),
        forall|j: int| i <= j < first_bad_byte(bytes, i) ==> is_scope_byte(bytes[j]),
    decreases bytes.len() - i,
{
    if i < bytes.len() && is_scope_byte(bytes[i]) {
        lemma_first_bad_byte(bytes, i + 1);
    }
}

impl Validator for ScopeTokenRules {
    type Error = InvalidScopeToken;

    open spec fn is_valid(raw: Seq<char>) -> bool {
        raw.len() > 0 && forall|j: int|
            0 <= j < encode_utf8(raw).len() ==> is_scope_byte(#[trigger] encode_utf8(raw)[j])
    }

    open spec fn rejection(raw: Seq<char>) -> InvalidScopeToken {
        if raw.len() == 0 {
            InvalidScopeToken::EmptyString
        } else {
            let bytes = encode_utf8(raw);
            let p = first_bad_byte(bytes, 0);
            InvalidScopeToken::InvalidCharacter { position: p as usize, value: bytes[p] }
        }
    }

    fn validate(raw: &str) -> (r: Result<(), InvalidScopeToken>) {
        if raw.is_empty() {
            return Err(InvalidScopeToken::EmptyString);
        }
        let bytes = raw.as_bytes();
        let ghost all = encode_utf8(raw@);
        let n = bytes.len();
        let mut i: usize = 0;
        proof {
            lemma_first_bad_byte(all, 0);
        }
        while i < n
            invariant
                bytes@ == all,
                all == encode_utf8(raw@),
                raw@.len() > 0,
                n == all.len(),
                i <= n,
                forall|j: int| 0 <= j < i ==> is_scope_byte(all[j]),
                first_bad_byte(all, 0) == first_bad_byte(all, i as int),
            decreases n - i,
        {
            let b = bytes[i];
            if !(0x20 < b && b != 0x22 && b != 0x5C && b < 0x7F) {
                assert(first_bad_byte(all, i as int) == i as int);
                assert(!is_scope_byte(all[i as int]));
                return Err(InvalidScopeToken::InvalidCharacter { position: i, value: b });
            }
            assert(first_bad_byte(all, i as int) == first_bad_byte(all, i + 1));
            i = i + 1;
        }
        assert forall|j: int| 0 <= j < all.len() implies is_scope_byte(#[trigger] all[j]) by {}
        Ok(())
    }
}

} // verus!
