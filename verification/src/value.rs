//! Measured values, held as the bit pattern of their IEEE 754 binary64
//! encoding, and the total order of that encoding.

use vstd::prelude::*;

verus! {

/// The smallest bit pattern whose sign bit is set.
pub const SIGN_BIT: u64 = 0x8000_0000_0000_0000;

/// A measured value: the 64 bits of its binary64 encoding. The library
/// moves and orders values; it never does arithmetic on them.
#[derive(Debug, Clone, Copy, PartialEq, Eq, Structural, Hash)]
pub struct Value {
    pub bits: u64,
}

impl Value {
    /// Place of the value in the total order of IEEE 754: a pattern
    /// without the sign bit stands where its bits put it, and one with the
    /// sign bit stands below zero, the further down the larger its
    /// remaining bits. So negative numbers come before positive ones, minus
    /// zero before plus zero, and a not-a-number at either end.
    pub open spec fn order_key(self) -> int {
        if self.bits < SIGN_BIT {
            self.bits as int
        } else {
            SIGN_BIT - 1 - self.bits
        }
    }

    /// The value with these bits.
    pub fn from_bits(bits: u64) -> (value: Value)
        ensures
            value.bits == bits,
    {
        Value { bits }
    }

    /// The bits of the value.
    pub fn to_bits(&self) -> (bits: u64)
        ensures
            bits == self.bits,
    {
        self.bits
    }

    /// Whether this value is the other one or stands before it in the total
    /// order.
    pub fn total_le(&self, other: &Value) -> (before: bool)
        ensures
            before == (self.order_key() <= other.order_key()),
    {
        if self.bits < SIGN_BIT {
            other.bits < SIGN_BIT && self.bits <= other.bits
        } else {
            other.bits < SIGN_BIT || self.bits >= other.bits
        }
    }

    /// Two values stand at the same place of the total order only when
    /// they are the same value.
    pub proof fn lemma_order_key_injective(a: Value, b: Value)
        requires
            a.order_key() == b.order_key(),
        ensures
            a == b,
    {
    }
}

/// Whether every value of `values` stands at or before `top` in the total
/// order, and `top` is one of them.
pub open spec fn is_max_of(values: Seq<Value>, top: Value) -> bool {
    &&& values.contains(top)
    &&& forall|i: int| 0 <= i < values.len() ==> #[trigger] values[i].order_key() <= top.order_key()
}

/// Whether every value of `values` stands at or after `bottom` in the total
/// order, and `bottom` is one of them.
pub open spec fn is_min_of(values: Seq<Value>, bottom: Value) -> bool {
    &&& values.contains(bottom)
    &&& forall|i: int|
        0 <= i < values.len() ==> bottom.order_key() <= #[trigger] values[i].order_key()
}

/// The greatest of the values in the total order; `None` when there is no
/// value.
pub fn max_value(values: &Vec<Value>) -> (top: Option<Value>)
    ensures
        top is None <==> values@.len() == 0,
        top matches Some(t) ==> is_max_of(values@, t),
{
    if values.len() == 0 {
        return None;
    }
    let mut best = values[0];
    let mut i: usize = 1;
    assert(values@.take(1)[0] == best);
    while i < values.len()
        invariant
            1 <= i <= values.len(),
            is_max_of(values@.take(i as int), best),
        decreases values.len() - i,
    {
        let candidate = values[i];
        let ghost seen = values@.take(i as int);
        let ghost next = values@.take(i + 1);
        proof {
            assert(next.drop_last() == seen);
            assert(next.last() == candidate);
            let at = choose|k: int| 0 <= k < seen.len() && seen[k] == best;
            assert(next[at] == best);
        }
        if best.total_le(&candidate) {
            best = candidate;
            proof {
                assert(next[i as int] == candidate);
            }
        }
        assert forall|k: int| 0 <= k < next.len() implies #[trigger] next[k].order_key()
            <= best.order_key() by {
            if k < i {
                assert(seen[k] == next[k]);
            }
        }
        i += 1;
    }
    assert(values@.take(values.len() as int) == values@);
    Some(best)
}

/// The least of the values in the total order; `None` when there is no
/// value.
pub fn min_value(values: &Vec<Value>) -> (bottom: Option<Value>)
    ensures
        bottom is None <==> values@.len() == 0,
        bottom matches Some(b) ==> is_min_of(values@, b),
{
    if values.len() == 0 {
        return None;
    }
    let mut best = values[0];
    let mut i: usize = 1;
    assert(values@.take(1)[0] == best);
    while i < values.len()
        invariant
            1 <= i <= values.len(),
            is_min_of(values@.take(i as int), best),
        decreases values.len() - i,
    {
        let candidate = values[i];
        let ghost seen = values@.take(i as int);
        let ghost next = values@.take(i + 1);
        proof {
            assert(next.drop_last() == seen);
            assert(next.last() == candidate);
            let at = choose|k: int| 0 <= k < seen.len() && seen[k] == best;
            assert(next[at] == best);
        }
        if !best.total_le(&candidate) {
            best = candidate;
            proof {
                assert(next[i as int] == candidate);
            }
        }
        assert forall|k: int| 0 <= k < next.len() implies best.order_key()
            <= #[trigger] next[k].order_key() by {
            if k < i {
                assert(seen[k] == next[k]);
            }
        }
        i += 1;
    }
    assert(values@.take(values.len() as int) == values@);
    Some(best)
}

/// At most one value is the greatest of a sequence, and at most one the
/// least.
pub proof fn lemma_extremes_unique(values: Seq<Value>, a: Value, b: Value)
    ensures
        is_max_of(values, a) && is_max_of(values, b) ==> a == b,
        is_min_of(values, a) && is_min_of(values, b) ==> a == b,
{
    if is_max_of(values, a) && is_max_of(values, b) {
        let i = choose|i: int| 0 <= i < values.len() && values[i] == a;
        let j = choose|j: int| 0 <= j < values.len() && values[j] == b;
        assert(values[i].order_key() <= b.order_key());
        assert(values[j].order_key() <= a.order_key());
        Value::lemma_order_key_injective(a, b);
    }
    if is_min_of(values, a) && is_min_of(values, b) {
        let i = choose|i: int| 0 <= i < values.len() && values[i] == a;
        let j = choose|j: int| 0 <= j < values.len() && values[j] == b;
        assert(b.order_key() <= values[i].order_key());
        assert(a.order_key() <= values[j].order_key());
        Value::lemma_order_key_injective(a, b);
    }
}

} // verus!
