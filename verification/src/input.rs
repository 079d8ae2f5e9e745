//! The input record of a proving session.

use vstd::prelude::*;
use vstd::string::*;

verus! {

/// The public parameters, the ciphertext and the circuit configuration of one
/// proving session. Every field is a 64-bit number but `h_m`, which holds a
/// number of any size in decimal digits.
#[allow(non_snake_case)]
#[derive(Debug, Clone)]
pub struct PaillierDemoInput {
    pub n: u64,
    pub g: u64,
    pub c: u64,
    pub h_m: String,
    pub circuitVersion: u64,
    pub sessionID: u64,
    pub lambda: u64,
    pub mu: u64,
    pub m: u64,
    pub Lc_t: u64,
    pub Lg_t: u64,
    pub eqm_k: u64,
    pub eqk_k: u64,
}

/// A decimal digit.
pub open spec fn is_digit(c: char) -> bool {
    '0' <= c && c <= '9'
}

/// `s` is the decimal notation of a non-negative integer: one digit or more,
/// and nothing else.
pub open spec fn is_decimal(s: Seq<char>) -> bool {
    s.len() > 0 && forall|i: int| 0 <= i < s.len() ==> is_digit(#[trigger] s[i])
}

impl PaillierDemoInput {
    /// The record is valid: `h_m` is the decimal notation of a non-negative
    /// integer. The other fields are valid by their type.
    pub open spec fn well_formed(&self) -> bool {
        is_decimal(self.h_m@)
    }

    /// Whether the record is valid.
    pub fn is_well_formed(&self) -> (ok: bool)
        ensures
            ok == self.well_formed(),
    {
        let digits = self.h_m.as_str();
        if !digits.is_ascii() {
            proof {
                if is_decimal(digits@) {
                    let i = choose|i: int| 0 <= i < digits@.len() && !(digits@[i] as u32 <= 127);
                    assert(is_digit(digits@[i]));
                }
            }
            return false;
        }
        let len = digits.unicode_len();
        if len == 0 {
            return false;
        }
        let mut i: usize = 0;
        while i < len
            invariant
                i <= len,
                len == digits@.len(),
                digits@ == self.h_m@,
                is_ascii(digits),
                forall|j: int| 0 <= j < i ==> is_digit(#[trigger] digits@[j]),
            decreases len - i,
        {
            let b = digits.get_ascii(i);
            if b < 48 || b > 57 {
                assert(!is_digit(digits@[i as int]));
                return false;
            }
            assert(is_digit(digits@[i as int]));
            i += 1;
        }
        true
    }

    /// A copy of the record.
    pub fn copy(&self) -> (record: PaillierDemoInput)
        ensures
            record == *self,
    {
        PaillierDemoInput {
            n: self.n,
            g: self.g,
            c: self.c,
            h_m: self.h_m.clone(),
            circuitVersion: self.circuitVersion,
            sessionID: self.sessionID,
            lambda: self.lambda,
            mu: self.mu,
            m: self.m,
            Lc_t: self.Lc_t,
            Lg_t: self.Lg_t,
            eqm_k: self.eqm_k,
            eqk_k: self.eqk_k,
        }
    }
}

} // verus!
