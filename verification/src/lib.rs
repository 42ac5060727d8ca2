//! Core of a travel-planning library: record families (itinerary, timeline,
//! packing, budget, chat message) with validated construction, partial-update
//! merging, and small display utilities (currency formatting, date-time
//! parsing and duration).

pub mod budget;
pub mod chat;
pub mod clock;
pub mod currency;
pub mod datetime;
pub mod exchange;
pub mod facade;
pub mod ident;
pub mod itinerary;
pub mod merge;
pub mod packing;
pub mod strutil;
pub mod timeline;

use vstd::prelude::*;

verus! {

/// Simple email shape check: the text must contain both an `@` and a `.`
/// somewhere. This is deliberately not a full address validator.
pub fn validate_email(email: &str) -> (r: bool)
    ensures
        r == (email@.contains('@') && email@.contains('.')),
{
    let len: usize = email.unicode_len();
    let mut has_at: bool = false;
    let mut has_dot: bool = false;
    let mut i: usize = 0;
    while i < len
        invariant
            len == email@.len(),
            i <= len,
            has_at == email@.take(i as int).contains('@'),
            has_dot == email@.take(i as int).contains('.'),
        decreases len - i,
    {
        let c = email.get_char(i);
        if c == '@' {
            has_at = true;
        }
        if c == '.' {
            has_dot = true;
        }
        proof {
            assert(email@.take(i + 1 as int).drop_last() =~= email@.take(i as int));
            assert(email@.take(i + 1 as int).last() == email@[i as int]);
        }
        i = i + 1;
    }
    proof {
        assert(email@.take(len as int) =~= email@);
    }
    has_at && has_dot
}

} // verus!
