//! The one merge rule behind every partial update: a field present in the
//! patch overwrites the record's field, an absent field leaves it unchanged.

use vstd::prelude::*;

verus! {

/// Overwrites `dst` with the patch value when one is present.
pub fn merge_field<T>(dst: &mut T, src: Option<T>)
    ensures
        *final(dst) == (match src {
            Some(v) => v,
            None => *old(dst),
        }),
{
    match src {
        Some(v) => {
            *dst = v;
        },
        None => {},
    }
}

/// Overwrites an optional field with the patch value when one is present; an
/// absent patch field leaves it unchanged (a patch cannot clear a field).
pub fn merge_opt_field<T>(dst: &mut Option<T>, src: Option<T>)
    ensures
        *final(dst) == (match src {
            Some(v) => Some(v),
            None => *old(dst),
        }),
{
    match src {
        Some(v) => {
            *dst = Some(v);
        },
        None => {},
    }
}

} // verus!
