//! Small math and string utilities designed to sit behind a foreign-function
//! boundary.
//!
//! The foreign boundary passes a string either as a valid null-terminated
//! buffer or as a null address meaning "no input". Here that nullable value is
//! modeled as an `Option`: `None` stands for the null address, `Some` for a
//! decoded string. The binding layer that owns the raw pointers converts in
//! both directions and maps a buffer that does not decode as text to `None`,
//! so a failed decode comes back as the null sentinel instead of aborting.
//!
//! Ownership across the boundary is modeled by Rust moves: the input string is
//! borrowed for the duration of the call, the result is a freshly allocated
//! string owned by the caller, and releasing it consumes the value, so a
//! second release of the same string cannot be written.
#![allow(non_snake_case)]

use vstd::prelude::*;
use vstd::string::StrSliceExecFns;
use vstd::string::StringExecFns;

verus! {

/// Adds two 32-bit integers. Overflow wraps around two's complement: the
/// result is always the mathematical sum reduced modulo 2^32 back into the
/// `i32` range.
pub fn rust_add(a: i32, b: i32) -> (r: i32)
    ensures
        r == vstd::wrapping::i32_specs::wrapping_add(a, b),
        i32::MIN <= a + b <= i32::MAX ==> r == a + b,
        ((a + b) - r) % 0x1_0000_0000 == 0,
{
    a.wrapping_add(b)
}

/// Returns a new string holding the characters of `s` in reverse order.
/// Reversal is by character, not by byte, so a multi-byte character moves as
/// one unit.
pub fn reverse_chars(s: &str) -> (r: String)
    ensures
        r@ == s@.reverse(),
{
    let n = s.unicode_len();
    let mut out = String::new();
    let mut i: usize = 0;
    while i < n
        invariant
            n == s@.len(),
            i <= n,
            out@ =~= s@.subrange(n - i, n as int).reverse(),
        decreases n - i,
    {
        let piece = s.substring_char(n - 1 - i, n - i);
        out.append(piece);
        i = i + 1;
    }
    proof {
        assert(s@.subrange(0, n as int) =~= s@);
    }
    out
}

/// Reverses a nullable borrowed string: a null input (here `None`) comes
/// straight back as null, and any other input yields a newly allocated string
/// with the same characters in reverse order, whose ownership passes to the
/// caller. The caller releases it through [`rust_free_string`].
pub fn rust_reverseString(input: Option<&str>) -> (r: Option<String>)
    ensures
        r is Some <==> input is Some,
        input matches Some(s) ==> r matches Some(out) && out@ == s@.reverse(),
{
    match input {
        None => None,
        Some(s) => Some(reverse_chars(s)),
    }
}

/// Releases a string previously returned by [`rust_reverseString`]. A null
/// value (here `None`) is a no-op; otherwise the string's allocation is
/// reclaimed when the moved-in value is dropped. Because the value is
/// consumed, the same string cannot be released twice nor used after release.
pub fn rust_free_string(owned: Option<String>) {
    match owned {
        None => (),
        Some(s) => {
            let _ = s;
        },
    }
}

/// Reversing a sequence of characters twice restores the original sequence,
/// so reversing a reversed string gives back the string it came from.
pub proof fn lemma_reverse_involutive(s: Seq<char>)
    ensures
        s.reverse().reverse() == s,
{
    assert(s.reverse().reverse() =~= s);
}

} // verus!
