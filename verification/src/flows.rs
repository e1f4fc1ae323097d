//! Cash-flow entries and the solvability checks that precede any iteration.

use vstd::prelude::*;
use crate::date::Date;
use crate::error::{InvalidPaymentsKind, XirrError};
use crate::ieee::{is_strictly_neg_bits, is_strictly_pos_bits, is_strictly_neg, is_strictly_pos};

verus! {

/// One dated, signed amount: the atomic unit of input. The amount is the bit
/// pattern of its binary64 value, and the boundary supplies only finite
/// amounts: the sign tests below read the sign and magnitude bits, so an
/// infinity or NaN pattern would be counted by its sign bit alone — and even
/// then the solver could not report a wrong success, since a non-finite net
/// present value never passes its convergence test.
#[derive(Clone, Copy, Debug, PartialEq, Eq, Structural)]
pub struct CashFlow {
    /// When the amount flows.
    pub date: Date,
    /// The signed amount, as binary64 bits.
    pub amount_bits: u64,
}

/// Some entry's amount is strictly positive.
pub open spec fn has_pos(s: Seq<CashFlow>) -> bool {
    exists|k: int| 0 <= k < s.len() && is_strictly_pos_bits(s[k].amount_bits)
}

/// Some entry's amount is strictly negative.
pub open spec fn has_neg(s: Seq<CashFlow>) -> bool {
    exists|k: int| 0 <= k < s.len() && is_strictly_neg_bits(s[k].amount_bits)
}

/// `m` is the least day number among the entries.
pub open spec fn is_min_day(s: Seq<CashFlow>, m: i64) -> bool {
    (exists|k: int| 0 <= k < s.len() && (#[trigger] s[k]).date.day_number == m)
        && (forall|k: int| 0 <= k < s.len() ==> m <= (#[trigger] s[k]).date.day_number)
}

/// Every entry's date is well-formed.
pub open spec fn all_dates_wf(s: Seq<CashFlow>) -> bool {
    forall|k: int| 0 <= k < s.len() ==> (#[trigger] s[k].date).wf()
}

/// The preconditions under which a rate can exist: a non-empty set holding
/// both an inflow and an outflow.
pub open spec fn solvable(s: Seq<CashFlow>) -> bool {
    s.len() > 0 && has_pos(s) && has_neg(s)
}

/// The error that validation reports for an unsolvable set.
pub open spec fn validation_error(s: Seq<CashFlow>) -> XirrError {
    if s.len() == 0 {
        XirrError::InvalidPayments(InvalidPaymentsKind::Empty)
    } else {
        XirrError::InvalidPayments(InvalidPaymentsKind::OneSided)
    }
}

/// A cash-flow set that passed validation, together with its minimum date,
/// the time origin for discounting.
#[derive(Debug)]
pub struct ValidatedSet {
    /// The entries, in the order given by the caller.
    pub entries: Vec<CashFlow>,
    /// The least date among the entries.
    pub origin: Date,
}

impl ValidatedSet {
    /// What validation established: the set is solvable, every date is
    /// well-formed, and the origin is the minimum date.
    pub open spec fn wf(self) -> bool {
        solvable(self.entries@) && all_dates_wf(self.entries@)
            && is_min_day(self.entries@, self.origin.day_number)
    }
}

/// Checks the solvability preconditions, and on success tags the entries with
/// their minimum date. Fails exactly on an empty set (`Empty`) or on a set
/// whose amounts do not change sign (`OneSided`); never on a solvable one.
pub fn validate(entries: &Vec<CashFlow>) -> (r: Result<ValidatedSet, XirrError>)
    requires
        all_dates_wf(entries@),
    ensures
        r.is_ok() <==> solvable(entries@),
        r matches Ok(vs) ==> vs.wf() && vs.entries@ == entries@,
        r matches Err(e) ==> e == validation_error(entries@),
{
    let n = entries.len();
    if n == 0 {
        return Err(XirrError::InvalidPayments(InvalidPaymentsKind::Empty));
    }
    let mut found_pos = false;
    let mut found_neg = false;
    let mut min_day: i64 = entries[0].date.day_number;
    let mut k: usize = 0;
    while k < n
        invariant
            n == entries@.len(),
            0 < n,
            0 <= k <= n,
            found_pos == has_pos(entries@.take(k as int)),
            found_neg == has_neg(entries@.take(k as int)),
            k == 0 ==> min_day == entries@[0].date.day_number,
            k > 0 ==> is_min_day(entries@.take(k as int), min_day),
        decreases n - k,
    {
        let e = entries[k];
        if is_strictly_pos(e.amount_bits) {
            found_pos = true;
        }
        if is_strictly_neg(e.amount_bits) {
            found_neg = true;
        }
        let ghost prior_min = min_day;
        if k > 0 && e.date.day_number < min_day {
            min_day = e.date.day_number;
        }
        proof {
            let pre = entries@.take(k as int);
            let post = entries@.take(k as int + 1);
            assert(post == pre.push(entries@[k as int]));
            assert(has_pos(post) == (has_pos(pre) || is_strictly_pos_bits(
                entries@[k as int].amount_bits,
            ))) by {
                lemma_signs_push(pre, entries@[k as int]);
            }
            assert(has_neg(post) == (has_neg(pre) || is_strictly_neg_bits(
                entries@[k as int].amount_bits,
            ))) by {
                lemma_signs_push(pre, entries@[k as int]);
            }
            assert forall|i: int| 0 <= i < post.len() implies min_day
                <= post[i].date.day_number by {
                if i < k {
                    assert(post[i] == pre[i]);
                    assert(prior_min <= pre[i].date.day_number);
                } else {
                    assert(post[i] == entries@[k as int]);
                }
            }
            if k == 0 {
                assert(post[0] == entries@[0]);
                assert(post[0].date.day_number == min_day);
            } else if e.date.day_number < prior_min {
                assert(post[k as int].date.day_number == min_day);
            } else {
                let w = choose|w: int|
                    0 <= w < pre.len() && (#[trigger] pre[w]).date.day_number == prior_min;
                assert(post[w] == pre[w]);
                assert(post[w].date.day_number == min_day);
            }
            assert(is_min_day(post, min_day));
        }
        k = k + 1;
    }
    proof {
        assert(entries@.take(n as int) == entries@);
    }
    if !found_pos || !found_neg {
        return Err(XirrError::InvalidPayments(InvalidPaymentsKind::OneSided));
    }
    let origin = Date { day_number: min_day };
    Ok(ValidatedSet { entries: entries.clone(), origin })
}

/// Extending a sequence by one entry extends the sign findings by exactly
/// that entry's sign.
proof fn lemma_signs_push(s: Seq<CashFlow>, e: CashFlow)
    ensures
        has_pos(s.push(e)) == (has_pos(s) || is_strictly_pos_bits(e.amount_bits)),
        has_neg(s.push(e)) == (has_neg(s) || is_strictly_neg_bits(e.amount_bits)),
{
    let t = s.push(e);
    assert(t[s.len() as int] == e);
    assert forall|k: int| 0 <= k < s.len() implies t[k] == s[k] by {}
    if has_pos(s) {
        let k = choose|k: int| 0 <= k < s.len() && is_strictly_pos_bits(s[k].amount_bits);
        assert(is_strictly_pos_bits(t[k].amount_bits));
    }
    if has_pos(t) {
        let k = choose|k: int| 0 <= k < t.len() && is_strictly_pos_bits(t[k].amount_bits);
        if k < s.len() {
            assert(is_strictly_pos_bits(s[k].amount_bits));
        }
    }
    if has_neg(s) {
        let k = choose|k: int| 0 <= k < s.len() && is_strictly_neg_bits(s[k].amount_bits);
        assert(is_strictly_neg_bits(t[k].amount_bits));
    }
    if has_neg(t) {
        let k = choose|k: int| 0 <= k < t.len() && is_strictly_neg_bits(t[k].amount_bits);
        if k < s.len() {
            assert(is_strictly_neg_bits(s[k].amount_bits));
        }
    }
}

/// Validation does not depend on the order of the entries: two sequences
/// holding the same entries (as a multiset) are alike solvable, fail alike,
/// and have the same minimum date. The numerical iteration itself is outside
/// this law, since rounded summation is sensitive to order.
pub proof fn lemma_validation_order_invariant(s1: Seq<CashFlow>, s2: Seq<CashFlow>)
    requires
        s1.to_multiset() == s2.to_multiset(),
    ensures
        s1.len() == s2.len(),
        has_pos(s1) == has_pos(s2),
        has_neg(s1) == has_neg(s2),
        solvable(s1) == solvable(s2),
        validation_error(s1) == validation_error(s2),
        forall|m: i64| is_min_day(s1, m) <==> is_min_day(s2, m),
{
    broadcast use vstd::seq_lib::group_to_multiset_ensures;

    assert(s1.len() == s2.len()) by {
        assert(s1.to_multiset().len() == s1.len());
        assert(s2.to_multiset().len() == s2.len());
    }
    lemma_order_invariant_one_way(s1, s2);
    lemma_order_invariant_one_way(s2, s1);
    assert forall|m: i64| is_min_day(s1, m) <==> is_min_day(s2, m) by {
        if is_min_day(s1, m) {
            lemma_min_day_carries(s1, s2, m);
        }
        if is_min_day(s2, m) {
            lemma_min_day_carries(s2, s1, m);
        }
    }
}

/// One direction of the sign findings under reordering.
proof fn lemma_order_invariant_one_way(s1: Seq<CashFlow>, s2: Seq<CashFlow>)
    requires
        s1.to_multiset() == s2.to_multiset(),
    ensures
        has_pos(s1) ==> has_pos(s2),
        has_neg(s1) ==> has_neg(s2),
{
    broadcast use vstd::seq_lib::group_to_multiset_ensures;

    if has_pos(s1) {
        let k = choose|k: int| 0 <= k < s1.len() && is_strictly_pos_bits(s1[k].amount_bits);
        assert(s1.contains(s1[k]));
        assert(s1.to_multiset().count(s1[k]) > 0);
        assert(s2.to_multiset().count(s1[k]) > 0);
        assert(s2.contains(s1[k]));
        let j = choose|j: int| 0 <= j < s2.len() && s2[j] == s1[k];
        assert(is_strictly_pos_bits(s2[j].amount_bits));
    }
    if has_neg(s1) {
        let k = choose|k: int| 0 <= k < s1.len() && is_strictly_neg_bits(s1[k].amount_bits);
        assert(s1.contains(s1[k]));
        assert(s1.to_multiset().count(s1[k]) > 0);
        assert(s2.to_multiset().count(s1[k]) > 0);
        assert(s2.contains(s1[k]));
        let j = choose|j: int| 0 <= j < s2.len() && s2[j] == s1[k];
        assert(is_strictly_neg_bits(s2[j].amount_bits));
    }
}

/// The minimum-day property carries across a reordering.
proof fn lemma_min_day_carries(s1: Seq<CashFlow>, s2: Seq<CashFlow>, m: i64)
    requires
        s1.to_multiset() == s2.to_multiset(),
        is_min_day(s1, m),
    ensures
        is_min_day(s2, m),
{
    broadcast use vstd::seq_lib::group_to_multiset_ensures;

    let k = choose|k: int| 0 <= k < s1.len() && (#[trigger] s1[k]).date.day_number == m;
    assert(s1.contains(s1[k]));
    assert(s1.to_multiset().count(s1[k]) > 0);
    assert(s2.to_multiset().count(s1[k]) > 0);
    assert(s2.contains(s1[k]));
    let j = choose|j: int| 0 <= j < s2.len() && s2[j] == s1[k];
    assert(s2[j].date.day_number == m);
    assert forall|i: int| 0 <= i < s2.len() implies m <= s2[i].date.day_number by {
        assert(s2.contains(s2[i]));
        assert(s2.to_multiset().count(s2[i]) > 0);
        assert(s1.to_multiset().count(s2[i]) > 0);
        assert(s1.contains(s2[i]));
        let w = choose|w: int| 0 <= w < s1.len() && s1[w] == s2[i];
        assert(m <= s1[w].date.day_number);
    }
}

} // verus!
