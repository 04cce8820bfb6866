//! Character-level helpers: exact string equality and ASCII
//! case-insensitive equality, both decided over the character views.

use vstd::prelude::*;

verus! {

/// Folds one Unicode scalar value: an ASCII capital letter becomes the
/// corresponding small letter, every other scalar is left unchanged.
pub open spec fn fold_scalar(u: u32) -> u32 {
    if 65 <= u && u <= 90 {
        (u + 32) as u32
    } else {
        u
    }
}

/// Two characters match case-insensitively when their ASCII-folded
/// scalar values coincide.
pub open spec fn char_eq_fold(a: char, b: char) -> bool {
    fold_scalar(a as u32) == fold_scalar(b as u32)
}

/// ASCII case-insensitive equality of two character sequences.
pub open spec fn seq_eq_fold(a: Seq<char>, b: Seq<char>) -> bool {
    a.len() == b.len() && (forall|i: int| 0 <= i < a.len() ==> char_eq_fold(a[i], b[i]))
}

/// Exact equality of two string slices.
pub fn str_eq(a: &str, b: &str) -> (r: bool)
    ensures
        r == (a@ == b@),
{
    let sa: String = a.to_owned();
    let sb: String = b.to_owned();
    sa == sb
}

/// ASCII case-insensitive equality of two string slices.
pub fn str_eq_fold(a: &str, b: &str) -> (r: bool)
    ensures
        r == seq_eq_fold(a@, b@),
{
    let la: usize = a.unicode_len();
    let lb: usize = b.unicode_len();
    if la != lb {
        return false;
    }
    let mut i: usize = 0;
    while i < la
        invariant
            la == a@.len(),
            la == b@.len(),
            i <= la,
            forall|j: int| 0 <= j < i ==> char_eq_fold(a@[j], b@[j]),
        decreases la - i,
    {
        let ca: char = a.get_char(i);
        let cb: char = b.get_char(i);
        let ua: u32 = ca as u32;
        let ub: u32 = cb as u32;
        let fa: u32 = if 65 <= ua && ua <= 90 { ua + 32 } else { ua };
        let fb: u32 = if 65 <= ub && ub <= 90 { ub + 32 } else { ub };
        if fa != fb {
            return false;
        }
        i = i + 1;
    }
    true
}

} // verus!
