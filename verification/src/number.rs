//! JSON number tokens.
//!
//! A `Number` carries the decimal token text that will appear verbatim in
//! the rendered document. The library performs no client-side validation of
//! values: a token built with `literal` is passed through uninspected, and
//! only the remote service judges it. `integer` builds a token that is
//! proved to be the exact decimal form of its argument.

use vstd::prelude::*;
use vstd::seq_lib::*;

use crate::json::hex_digit;
use crate::json::hex_digit_char;
use crate::json::chars_to_string;

verus! {

/// The decimal digits of `n`, most significant first.
pub open spec fn dec_digits(n: nat) -> Seq<char>
    decreases n,
{
    if n < 10 {
        seq![hex_digit(n)]
    } else {
        dec_digits(n / 10).push(hex_digit(n % 10))
    }
}

/// The decimal token of a signed integer.
pub open spec fn int_token(i: int) -> Seq<char> {
    if i < 0 {
        seq!['-'] + dec_digits((-i) as nat)
    } else {
        dec_digits(i as nat)
    }
}

/// A JSON number, carried as its decimal token text.
pub struct Number {
    text: String,
}

impl Number {
    /// The token text this number renders as.
    pub closed spec fn token(&self) -> Seq<char> {
        self.text@
    }

    /// Wraps token text as a number, uninspected; the remote service is the
    /// sole judge of its validity.
    pub fn literal(text: &str) -> (n: Number)
        ensures
            n.token() == text@,
    {
        Number { text: text.to_owned() }
    }

    /// The exact decimal token of `i`.
    #[verifier::loop_isolation(false)]
    pub fn integer(i: i64) -> (n: Number)
        ensures
            n.token() == int_token(i as int),
    {
        let neg = i < 0;
        let mag: u64 = if i == i64::MIN {
            9223372036854775808u64
        } else if i < 0 {
            (-i) as u64
        } else {
            i as u64
        };
        assert(mag as int == if i < 0 { -(i as int) } else { i as int });
        let mut rev: Vec<char> = Vec::new();
        let mut cur: u64 = mag;
        assert(dec_digits(mag as nat) =~= dec_digits(cur as nat) + rev@.reverse());
        while cur >= 10
            invariant
                dec_digits(mag as nat) == dec_digits(cur as nat) + rev@.reverse(),
            decreases cur,
        {
            let d: u64 = cur % 10;
            rev.push(hex_digit_char(d as u32));
            proof {
                let prev = cur as nat;
                assert(dec_digits(prev) == dec_digits(prev / 10).push(hex_digit(prev % 10)));
                assert(rev@.reverse() =~= seq![hex_digit(prev % 10)] + rev@.subrange(
                    0,
                    rev@.len() - 1,
                ).reverse());
                assert(dec_digits(prev / 10) + rev@.reverse() =~= dec_digits(mag as nat));
            }
            cur = cur / 10;
        }
        let mut cs: Vec<char> = Vec::new();
        if neg {
            cs.push('-');
        }
        cs.push(hex_digit_char(cur as u32));
        proof {
            assert(dec_digits(cur as nat) == seq![hex_digit(cur as nat)]);
        }
        let ghost base = cs@;
        assert(base + rev@.reverse() =~= if neg { seq!['-'] + dec_digits(mag as nat) } else {
            dec_digits(mag as nat)
        });
        let mut k: usize = rev.len();
        while k > 0
            invariant
                k <= rev.len(),
                cs@ == base + rev@.subrange(k as int, rev@.len() as int).reverse(),
            decreases k,
        {
            k = k - 1;
            cs.push(rev[k]);
            proof {
                assert(rev@.subrange(k as int, rev@.len() as int).reverse() =~= rev@.subrange(
                    k + 1,
                    rev@.len() as int,
                ).reverse().push(rev@[k as int]));
                assert(cs@ =~= base + rev@.subrange(k as int, rev@.len() as int).reverse());
            }
        }
        proof {
            assert(rev@.subrange(0, rev@.len() as int) =~= rev@);
            assert(cs@ =~= int_token(i as int));
        }
        Number { text: chars_to_string(&cs) }
    }

    /// The token text, as an owned string.
    pub fn token_string(&self) -> (s: String)
        ensures
            s@ == self.token(),
    {
        self.text.clone()
    }
}

impl Clone for Number {
    /// The clone carries the same token.
    fn clone(&self) -> (n: Self)
        ensures
            n.token() == self.token(),
    {
        Number { text: self.text.clone() }
    }
}

} // verus!
