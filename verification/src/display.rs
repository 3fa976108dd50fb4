//! Rendering a vector as text: `(c0, c1, ..., cN-1)`, the components in
//! index order, comma-space separated, parenthesized.
//!
//! The decimal rendering of a single component is specified by
//! [`decimal_int`] and obtained from the standard library; the assembly of
//! the full rendering is verified against [`rendered`].

use vstd::prelude::*;
use vstd::string::StringExecFns;

use crate::vector::Vector;

verus! {

broadcast use {
    crate::vector::lemma_view_index,
    crate::vector::lemma_view_is_components,
    crate::vector::lemma_view_len,
    vstd::array::group_array_axioms,
};

/// The decimal digit character for a value between zero and nine.
pub open spec fn digit_char(d: int) -> char {
    if d == 0 {
        '0'
    } else if d == 1 {
        '1'
    } else if d == 2 {
        '2'
    } else if d == 3 {
        '3'
    } else if d == 4 {
        '4'
    } else if d == 5 {
        '5'
    } else if d == 6 {
        '6'
    } else if d == 7 {
        '7'
    } else if d == 8 {
        '8'
    } else {
        '9'
    }
}

/// The decimal digits of a natural number, most significant first, with no
/// leading zeros (a lone zero for zero).
pub open spec fn decimal_nat(n: nat) -> Seq<char>
    decreases n,
{
    if n < 10 {
        seq![digit_char(n as int)]
    } else {
        decimal_nat(n / 10).push(digit_char((n % 10) as int))
    }
}

/// The decimal rendering of an integer: its digits, preceded by a minus
/// sign when negative.
pub open spec fn decimal_int(x: int) -> Seq<char> {
    if x >= 0 {
        decimal_nat(x as nat)
    } else {
        seq!['-'] + decimal_nat((-x) as nat)
    }
}

/// The decimal renderings of a sequence of components, in order, separated
/// by a comma and a space.
pub open spec fn comma_joined(s: Seq<i64>) -> Seq<char>
    decreases s.len(),
{
    if s.len() == 0 {
        Seq::empty()
    } else if s.len() == 1 {
        decimal_int(s[0] as int)
    } else {
        comma_joined(s.drop_last()) + seq![',', ' '] + decimal_int(s.last() as int)
    }
}

/// The full rendering of a component sequence: the comma-joined decimal
/// renderings, parenthesized.
pub open spec fn rendered(s: Seq<i64>) -> Seq<char> {
    seq!['('] + comma_joined(s) + seq![')']
}

/// Extending a prefix of the joined rendering by one component appends a
/// separator (after the first component) and that component's rendering.
proof fn lemma_comma_joined_step(s: Seq<i64>, k: int)
    requires
        0 <= k < s.len(),
    ensures
        k == 0 ==> comma_joined(s.take(1)) == decimal_int(s[0] as int),
        k > 0 ==> comma_joined(s.take(k + 1)) == comma_joined(s.take(k)) + seq![',', ' ']
            + decimal_int(s[k] as int),
{
    assert(s.take(k + 1).drop_last() =~= s.take(k));
}

/// Relies on the `Display` implementation of `i64` in std: it renders the
/// value's decimal digits without leading zeros, preceded by `-` when the
/// value is negative.
#[verifier::external_body]
fn i64_to_string(x: i64) -> (r: String)
    ensures
        r@ == decimal_int(x as int),
{
    x.to_string()
}

impl<const N: usize> Vector<N> {
    /// Render the vector as `(c0, c1, ..., cN-1)`: the components in index
    /// order, each in decimal, comma-space separated, parenthesized.
    #[verifier::loop_isolation(false)]
    pub fn to_display_string(&self) -> (r: String)
        ensures
            r@ == rendered(self@),
    {
        let mut out = String::from_str("(");
        proof {
            reveal_strlit("(");
            reveal_strlit(", ");
            reveal_strlit(")");
            assert(out@ =~= seq!['('] + comma_joined(self@.take(0)));
        }
        let mut i: usize = 0;
        while i < N
            invariant
                0 <= i <= N,
                out@ == seq!['('] + comma_joined(self@.take(i as int)),
            decreases N - i,
        {
            proof {
                lemma_comma_joined_step(self@, i as int);
            }
            if i > 0 {
                out.append(", ");
                proof {
                    reveal_strlit(", ");
                }
            }
            let digits = i64_to_string(self.components[i]);
            out.append(digits.as_str());
            proof {
                assert(out@ =~= seq!['('] + comma_joined(self@.take(i as int + 1)));
            }
            i += 1;
        }
        out.append(")");
        proof {
            reveal_strlit(")");
            assert(self@.take(N as int) =~= self@);
            assert(out@ =~= rendered(self@));
        }
        out
    }
}

} // verus!
