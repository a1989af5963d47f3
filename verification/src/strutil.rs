//! Small string helpers: decimal formatting of integers and string equality,
//! with exact character-level specifications.

use vstd::prelude::*;
use vstd::string::StrSliceExecFns;
use vstd::utf8::{decode_utf8, encode_utf8, encode_utf8_decode_utf8, valid_utf8};

verus! {

/// The character for the decimal digit `d % 10`.
pub open spec fn dec_digit(d: nat) -> char {
    (((d % 10) + 48) as u8) as char
}

/// The decimal representation of `n`, most significant digit first.
pub open spec fn dec_str(n: nat) -> Seq<char>
    decreases n,
{
    if n < 10 {
        seq![dec_digit(n)]
    } else {
        dec_str(n / 10).push(dec_digit(n % 10))
    }
}

pub open spec fn is_digit_char(c: char) -> bool {
    48 <= c as u32 <= 57
}

pub proof fn lemma_dec_digit(d: nat)
    ensures
        is_digit_char(dec_digit(d)),
{
    let v = ((d % 10) + 48) as u8;
    assert(48 <= v <= 57);
    assert((v as char) as u32 == v);
}

pub proof fn lemma_dec_str_digits(n: nat)
    ensures
        forall|i: int| 0 <= i < dec_str(n).len() ==> is_digit_char(#[trigger] dec_str(n)[i]),
    decreases n,
{
    lemma_dec_digit(n);
    lemma_dec_digit(n % 10);
    if n < 10 {
        assert forall|i: int| 0 <= i < dec_str(n).len() implies is_digit_char(
            #[trigger] dec_str(n)[i],
        ) by {
            assert(dec_str(n)[i] == dec_digit(n));
        }
    } else {
        lemma_dec_str_digits(n / 10);
        assert forall|i: int| 0 <= i < dec_str(n).len() implies is_digit_char(
            #[trigger] dec_str(n)[i],
        ) by {
            if i < dec_str(n).len() - 1 {
                assert(dec_str(n)[i] == dec_str(n / 10)[i]);
            } else {
                assert(dec_str(n)[i] == dec_digit(n % 10));
            }
        }
    }
}

pub proof fn lemma_dec_str_len(n: nat, k: nat)
    requires
        1 <= k,
        n < pow10(k),
    ensures
        1 <= dec_str(n).len() <= k,
    decreases k,
{
    if n < 10 {
    } else {
        assert(pow10(k) == 10 * pow10((k - 1) as nat));
        assert(n / 10 < pow10((k - 1) as nat)) by (nonlinear_arith)
            requires
                n < 10 * pow10((k - 1) as nat),
        ;
        assert(k >= 2) by {
            if k == 1 {
                assert(pow10(1nat) == 10);
            }
        }
        lemma_dec_str_len(n / 10, (k - 1) as nat);
    }
}

pub open spec fn pow10(k: nat) -> nat
    decreases k,
{
    if k == 0 {
        1
    } else {
        10 * pow10((k - 1) as nat)
    }
}

/// Relies on `String::push`: appends the given character to the end of the string.
#[verifier::external_body]
pub(crate) fn push_char(s: &mut String, c: char)
    ensures
        final(s)@ == old(s)@.push(c),
{
    s.push(c);
}

/// Formats `n` in decimal, most significant digit first.
pub fn u64_to_dec(n: u64) -> (s: String)
    ensures
        s@ == dec_str(n as nat),
    decreases n,
{
    if n < 10 {
        let mut s = String::new();
        push_char(&mut s, (48 + n as u8) as char);
        proof {
            assert(s@ =~= dec_str(n as nat));
        }
        s
    } else {
        let mut s = u64_to_dec(n / 10);
        push_char(&mut s, (48 + (n % 10) as u8) as char);
        proof {
            assert(s@ =~= dec_str(n as nat));
        }
        s
    }
}

/// Compares two string slices character for character.
pub fn str_eq(a: &str, b: &str) -> (r: bool)
    ensures
        r == (a@ == b@),
{
    let va = a.as_bytes_vec();
    let vb = b.as_bytes_vec();
    let mut same = va.len() == vb.len();
    if same {
        let mut i: usize = 0;
        while i < va.len()
            invariant
                va@.len() == vb@.len(),
                0 <= i <= va@.len(),
                same == (forall|j: int| 0 <= j < i ==> va@[j] == vb@[j]),
            decreases va@.len() - i,
        {
            if va[i] != vb[i] {
                same = false;
            }
            i += 1;
        }
    }
    proof {
        if same {
            assert(va@ =~= vb@);
            encode_utf8_decode_utf8(a@);
            encode_utf8_decode_utf8(b@);
        }
    }
    same
}

} // verus!
