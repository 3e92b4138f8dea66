//! Amounts of currency: natural numbers of any size.
//!
//! An [`Amount`] keeps the base-256 digits of its number, most significant
//! first and without a leading zero, so that every number has exactly one
//! representation and two amounts are equal when their digits are.

use vstd::prelude::*;
use vstd::std_specs::cmp::PartialEqSpecImpl;

verus! {

/// The number that `digits` write in base 256, most significant digit first.
pub open spec fn be_value(digits: Seq<u8>) -> nat
    decreases digits.len(),
{
    if digits.len() == 0 {
        0
    } else {
        be_value(digits.drop_last()) * 256 + digits.last() as nat
    }
}

/// `digits` start with no zero, so they are the shortest that write their number.
pub open spec fn is_minimal(digits: Seq<u8>) -> bool {
    digits.len() > 0 ==> digits[0] != 0
}

/// 256 to the power `n`.
pub open spec fn pow256(n: nat) -> nat
    decreases n,
{
    if n == 0 {
        1
    } else {
        256 * pow256((n - 1) as nat)
    }
}

/// A digit put in front of `digits` counts `pow256(digits.len())` times.
pub proof fn lemma_be_value_prepend(digit: u8, digits: Seq<u8>)
    ensures
        be_value(seq![digit] + digits) == digit as nat * pow256(digits.len()) + be_value(digits),
    decreases digits.len(),
{
    let whole = seq![digit] + digits;
    let front = digit as nat;
    assert(whole.len() == digits.len() + 1);
    assert(be_value(whole) == be_value(whole.drop_last()) * 256 + whole.last() as nat);
    if digits.len() == 0 {
        assert(whole.drop_last() =~= Seq::<u8>::empty());
        assert(be_value(Seq::<u8>::empty()) == 0);
        assert(whole.last() == digit);
        assert(be_value(digits) == 0);
        assert(pow256(0) == 1);
        assert(front * pow256(0) == front) by (nonlinear_arith)
            requires
                pow256(0) == 1,
        ;
    } else {
        let shorter = digits.drop_last();
        let last = digits.last() as nat;
        let weight = pow256(shorter.len());
        let rest = be_value(shorter);
        assert(whole.drop_last() =~= seq![digit] + shorter);
        assert(whole.last() == digits.last());
        lemma_be_value_prepend(digit, shorter);
        assert(be_value(whole.drop_last()) == front * weight + rest);
        assert(be_value(digits) == rest * 256 + last);
        assert(pow256(digits.len()) == 256 * weight);
        assert(front * pow256(digits.len()) == (front * weight) * 256) by (nonlinear_arith)
            requires
                pow256(digits.len()) == 256 * weight,
        ;
        assert((front * weight + rest) * 256 == (front * weight) * 256 + rest * 256)
            by (nonlinear_arith);
    }
}

/// Zeros in front of the digits do not change the number.
pub proof fn lemma_be_value_skip_zeros(digits: Seq<u8>, zeros: int)
    requires
        0 <= zeros <= digits.len(),
        forall|i: int| 0 <= i < zeros ==> digits[i] == 0,
    ensures
        be_value(digits) == be_value(digits.subrange(zeros, digits.len() as int)),
    decreases digits.len(),
{
    if zeros == digits.len() {
        if digits.len() > 0 {
            lemma_be_value_skip_zeros(digits.drop_last(), zeros - 1);
            assert(digits.drop_last().subrange(zeros - 1, digits.len() - 1) =~= Seq::<u8>::empty());
        }
        assert(digits.subrange(zeros, digits.len() as int) =~= Seq::<u8>::empty());
    } else {
        lemma_be_value_skip_zeros(digits.drop_last(), zeros);
        assert(digits.drop_last().subrange(zeros, digits.len() - 1) =~= digits.subrange(
            zeros,
            digits.len() as int,
        ).drop_last());
    }
}

/// Minimal digits write zero only when there are none.
pub proof fn lemma_minimal_positive(digits: Seq<u8>)
    requires
        is_minimal(digits),
        digits.len() > 0,
    ensures
        be_value(digits) > 0,
    decreases digits.len(),
{
    if digits.len() > 1 {
        lemma_minimal_positive(digits.drop_last());
    }
}

/// Two minimal digit sequences that write the same number are the same.
pub proof fn lemma_minimal_unique(a: Seq<u8>, b: Seq<u8>)
    requires
        is_minimal(a),
        is_minimal(b),
        be_value(a) == be_value(b),
    ensures
        a == b,
    decreases a.len(),
{
    if a.len() == 0 {
        if b.len() > 0 {
            lemma_minimal_positive(b);
        }
        assert(a =~= b);
    } else if b.len() == 0 {
        lemma_minimal_positive(a);
    } else {
        lemma_minimal_unique(a.drop_last(), b.drop_last());
        assert(a =~= a.drop_last().push(a.last()));
        assert(b =~= b.drop_last().push(b.last()));
    }
}

/// A natural number of any size.
#[derive(Debug)]
pub struct Amount {
    digits: Vec<u8>,
}

impl View for Amount {
    type V = nat;

    /// The number itself.
    closed spec fn view(&self) -> nat {
        be_value(self.digits@)
    }
}

impl Amount {
    #[verifier::type_invariant]
    spec fn well_formed(self) -> bool {
        is_minimal(self.digits@)
    }

    /// The amount zero.
    pub fn zero() -> (amount: Amount)
        ensures
            amount@ == 0,
    {
        Amount { digits: Vec::new() }
    }

    /// The amount that `bytes` write in base 256, most significant byte first.
    /// Leading zeros are accepted; no bytes at all write zero.
    pub fn from_bytes_be(bytes: &[u8]) -> (amount: Amount)
        ensures
            amount@ == be_value(bytes@),
    {
        let mut start: usize = 0;
        while start < bytes.len() && bytes[start] == 0
            invariant
                start <= bytes.len(),
                forall|i: int| 0 <= i < start ==> bytes@[i] == 0,
            decreases bytes.len() - start,
        {
            start += 1;
        }
        let mut digits: Vec<u8> = Vec::new();
        let mut next: usize = start;
        while next < bytes.len()
            invariant
                start <= next <= bytes.len(),
                digits@ == bytes@.subrange(start as int, next as int),
            decreases bytes.len() - next,
        {
            digits.push(bytes[next]);
            next += 1;
        }
        proof {
            lemma_be_value_skip_zeros(bytes@, start as int);
        }
        Amount { digits }
    }

    /// The shortest bytes that write the amount in base 256, most significant
    /// byte first; none for zero.
    pub fn to_bytes_be(&self) -> (bytes: Vec<u8>)
        ensures
            be_value(bytes@) == self@,
            is_minimal(bytes@),
    {
        proof {
            use_type_invariant(self);
        }
        self.digits.clone()
    }

    /// The amount `value`.
    pub fn from_u128(value: u128) -> (amount: Amount)
        ensures
            amount@ == value,
    {
        let mut digits: Vec<u8> = Vec::new();
        let mut rest: u128 = value;
        proof {
            assert(pow256(0) == 1);
            assert(be_value(digits@) == 0);
            assert(rest as nat * pow256(0) == rest as nat) by (nonlinear_arith)
                requires
                    pow256(0) == 1,
            ;
        }
        while rest > 0
            invariant
                value as nat == rest as nat * pow256(digits@.len()) + be_value(digits@),
                rest == 0 ==> is_minimal(digits@),
            decreases rest,
        {
            let digit: u8 = (rest % 256) as u8;
            let ghost behind = digits@;
            let ghost weight = pow256(behind.len());
            let ghost front = (rest / 256) as nat;
            proof {
                lemma_be_value_prepend(digit, behind);
                assert(pow256(behind.len() + 1) == 256 * weight);
                assert(rest as nat * weight == front * (256 * weight) + digit as nat * weight)
                    by (nonlinear_arith)
                    requires
                        rest as nat == front * 256 + digit as nat,
                ;
            }
            digits.insert(0, digit);
            assert(digits@ =~= seq![digit] + behind);
            rest = rest / 256;
        }
        proof {
            assert(rest as nat * pow256(digits@.len()) == 0) by (nonlinear_arith)
                requires
                    rest == 0,
            ;
        }
        Amount { digits }
    }

    /// The amount `value`.
    pub fn from_u64(value: u64) -> (amount: Amount)
        ensures
            amount@ == value,
    {
        Amount::from_u128(value as u128)
    }

    /// The amount `value`.
    pub fn from_u32(value: u32) -> (amount: Amount)
        ensures
            amount@ == value,
    {
        Amount::from_u128(value as u128)
    }
}

impl Clone for Amount {
    fn clone(&self) -> (copy: Amount)
        ensures
            copy@ == self@,
    {
        proof {
            use_type_invariant(self);
        }
        Amount { digits: self.digits.clone() }
    }
}

impl PartialEq for Amount {
    /// Whether the two amounts are the same number.
    fn eq(&self, other: &Amount) -> (same: bool) {
        proof {
            use_type_invariant(self);
            use_type_invariant(other);
            if self@ == other@ {
                lemma_minimal_unique(self.digits@, other.digits@);
            }
        }
        if self.digits.len() != other.digits.len() {
            return false;
        }
        let mut at: usize = 0;
        while at < self.digits.len()
            invariant
                at <= self.digits.len(),
                self.digits.len() == other.digits.len(),
                forall|i: int| 0 <= i < at ==> self.digits@[i] == other.digits@[i],
                self@ == other@ ==> self.digits@ == other.digits@,
            decreases self.digits.len() - at,
        {
            if self.digits[at] != other.digits[at] {
                return false;
            }
            at += 1;
        }
        assert(self.digits@ =~= other.digits@);
        true
    }
}

impl Eq for Amount {

}

impl PartialEqSpecImpl for Amount {
    open spec fn obeys_eq_spec() -> bool {
        true
    }

    open spec fn eq_spec(&self, other: &Amount) -> bool {
        self@ == other@
    }
}

} // verus!
