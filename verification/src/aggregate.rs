//! Aggregate combinators: sum, mean, max and min, each reducing every
//! (identifier, vector) pair of a traversal to one scalar, skipping `Empty`
//! cells.

use vstd::prelude::*;

use crate::dataframe::DataFrame;
use crate::scalar::add_val;
use crate::scalar::div_val;
use crate::scalar::f64_div;
use crate::scalar::f64_of_usize;
use crate::scalar::float_of_u64;
use crate::scalar::gt_val;
use crate::traits::Empty;
use crate::traits::Num;
use crate::transform::DataFrameIterator;
use crate::transform::iter_model;
use crate::transform::labels_of;
use crate::types::InnerType;
use crate::types::InnerVal;
use crate::types::OuterType;
use crate::types::OuterVal;
use crate::types::UtahAxis;

verus! {

broadcast use crate::types::lemma_deep_view_index, crate::types::lemma_deep_view_len;

/// One step of the sum reduction: `Empty` cells are skipped, the first
/// non-`Empty` cell starts the sum.
pub open spec fn combine_sum(acc: InnerVal, v: InnerVal) -> InnerVal {
    if v == InnerVal::Empty {
        acc
    } else if acc == InnerVal::Empty {
        v
    } else {
        add_val(acc, v)
    }
}

/// The algebraic sum of a vector, skipping `Empty` cells, accumulated left
/// to right; an all-`Empty` vector sums to `Empty`.
pub open spec fn vsum(s: Seq<InnerVal>) -> InnerVal
    decreases s.len(),
{
    if s.len() == 0 {
        InnerVal::Empty
    } else {
        combine_sum(vsum(s.drop_last()), s.last())
    }
}

/// How many cells of a vector are not `Empty`.
pub open spec fn count_nonempty(s: Seq<InnerVal>) -> int
    decreases s.len(),
{
    if s.len() == 0 {
        0int
    } else {
        count_nonempty(s.drop_last()) + if s.last() == InnerVal::Empty {
            0int
        } else {
            1int
        }
    }
}

/// The non-`Empty` count expressed in the sum's own kind, for the division
/// in the mean; counts too large for the kind, or sums of unsummable kinds,
/// give `Empty`.
pub open spec fn count_as(sum: InnerVal, c: int) -> InnerVal {
    match sum {
        InnerVal::Float(_) => InnerVal::Float(float_of_u64(c as u64)),
        InnerVal::Int64(_) => if c <= i64::MAX {
            InnerVal::Int64(c as i64)
        } else {
            InnerVal::Empty
        },
        InnerVal::Int32(_) => if c <= i32::MAX {
            InnerVal::Int32(c as i32)
        } else {
            InnerVal::Empty
        },
        _ => InnerVal::Empty,
    }
}

/// The mean of a vector: the sum of the non-`Empty` cells divided by their
/// count; a vector with no non-`Empty` cell yields `Empty`, not a division
/// error.
pub open spec fn vmean(s: Seq<InnerVal>) -> InnerVal {
    if count_nonempty(s) == 0 {
        InnerVal::Empty
    } else {
        div_val(vsum(s), count_as(vsum(s), count_nonempty(s)))
    }
}

/// One step of the max reduction: ties are broken by first occurrence.
pub open spec fn combine_max(acc: InnerVal, v: InnerVal) -> InnerVal {
    if v == InnerVal::Empty {
        acc
    } else if acc == InnerVal::Empty {
        v
    } else if gt_val(v, acc) {
        v
    } else {
        acc
    }
}

/// The maximum of a vector over its non-`Empty` cells; all-`Empty` input
/// yields `Empty`.
pub open spec fn vmax(s: Seq<InnerVal>) -> InnerVal
    decreases s.len(),
{
    if s.len() == 0 {
        InnerVal::Empty
    } else {
        combine_max(vmax(s.drop_last()), s.last())
    }
}

/// One step of the min reduction: ties are broken by first occurrence.
pub open spec fn combine_min(acc: InnerVal, v: InnerVal) -> InnerVal {
    if v == InnerVal::Empty {
        acc
    } else if acc == InnerVal::Empty {
        v
    } else if gt_val(acc, v) {
        v
    } else {
        acc
    }
}

/// The minimum of a vector over its non-`Empty` cells; all-`Empty` input
/// yields `Empty`.
pub open spec fn vmin(s: Seq<InnerVal>) -> InnerVal
    decreases s.len(),
{
    if s.len() == 0 {
        InnerVal::Empty
    } else {
        combine_min(vmin(s.drop_last()), s.last())
    }
}

/// Whether every cell of a vector is `Empty`, expressed through the
/// non-`Empty` count.
pub proof fn lemma_count_zero(s: Seq<InnerVal>)
    ensures
        count_nonempty(s) == 0 <==> (forall|i: int| 0 <= i < s.len() ==> s[i] == InnerVal::Empty),
        count_nonempty(s) >= 0,
    decreases s.len(),
{
    if s.len() > 0 {
        lemma_count_zero(s.drop_last());
        assert forall|i: int| 0 <= i < s.len() && count_nonempty(s) == 0 implies s[i]
            == InnerVal::Empty by {
            if i < s.len() - 1 {
                assert(s.drop_last()[i] == s[i]);
            }
        }
        if forall|i: int| 0 <= i < s.len() ==> s[i] == InnerVal::Empty {
            assert forall|i: int| 0 <= i < s.drop_last().len() implies s.drop_last()[i]
                == InnerVal::Empty by {
                assert(s.drop_last()[i] == s[i]);
            }
            assert(s.last() == InnerVal::Empty);
        }
    }
}

/// Every aggregate of an all-`Empty` vector is `Empty`: the reductions skip
/// `Empty` cells, and with none left there is nothing to reduce.
pub proof fn lemma_all_empty_aggregates(s: Seq<InnerVal>)
    requires
        forall|i: int| 0 <= i < s.len() ==> s[i] == InnerVal::Empty,
    ensures
        vsum(s) == InnerVal::Empty,
        vmax(s) == InnerVal::Empty,
        vmin(s) == InnerVal::Empty,
        vmean(s) == InnerVal::Empty,
    decreases s.len(),
{
    lemma_count_zero(s);
    if s.len() > 0 {
        assert forall|i: int| 0 <= i < s.drop_last().len() implies s.drop_last()[i]
            == InnerVal::Empty by {
            assert(s.drop_last()[i] == s[i]);
        }
        lemma_all_empty_aggregates(s.drop_last());
        assert(s.last() == InnerVal::Empty);
    }
}

/// The sum of a cell vector, skipping `Empty` cells.
pub fn sum_vector(v: &Vec<InnerType>) -> (r: InnerType)
    ensures
        r@ == vsum(v.deep_view()),
{
    let ghost dv = v.deep_view();
    let mut acc = InnerType::Empty;
    let mut i: usize = 0;
    while i < v.len()
        invariant
            i <= v@.len(),
            dv == v.deep_view(),
            acc@ == vsum(dv.take(i as int)),
        decreases v@.len() - i,
    {
        proof {
            assert(dv.take(i + 1).drop_last() =~~= dv.take(i as int));
            assert(dv.take(i + 1).last() == dv[i as int]);
        }
        let x = v[i].clone();
        if !x.is_empty() {
            if acc.is_empty() {
                acc = x;
            } else {
                acc = acc.add(x);
            }
        }
        i += 1;
    }
    proof {
        assert(dv.take(dv.len() as int) =~~= dv);
    }
    acc
}

/// How many cells of a vector are not `Empty`.
pub fn count_vector(v: &Vec<InnerType>) -> (r: usize)
    ensures
        r == count_nonempty(v.deep_view()),
        r <= v@.len(),
{
    let ghost dv = v.deep_view();
    let mut count: usize = 0;
    let mut i: usize = 0;
    while i < v.len()
        invariant
            i <= v@.len(),
            dv == v.deep_view(),
            count == count_nonempty(dv.take(i as int)),
            count <= i,
        decreases v@.len() - i,
    {
        proof {
            assert(dv.take(i + 1).drop_last() =~~= dv.take(i as int));
            assert(dv.take(i + 1).last() == dv[i as int]);
        }
        if !v[i].is_empty() {
            count += 1;
        }
        i += 1;
    }
    proof {
        assert(dv.take(dv.len() as int) =~~= dv);
    }
    count
}

/// The maximum of a cell vector over its non-`Empty` cells.
pub fn max_vector(v: &Vec<InnerType>) -> (r: InnerType)
    ensures
        r@ == vmax(v.deep_view()),
{
    let ghost dv = v.deep_view();
    let mut acc = InnerType::Empty;
    let mut i: usize = 0;
    while i < v.len()
        invariant
            i <= v@.len(),
            dv == v.deep_view(),
            acc@ == vmax(dv.take(i as int)),
        decreases v@.len() - i,
    {
        proof {
            assert(dv.take(i + 1).drop_last() =~~= dv.take(i as int));
            assert(dv.take(i + 1).last() == dv[i as int]);
        }
        let x = v[i].clone();
        if !x.is_empty() {
            if acc.is_empty() {
                acc = x;
            } else if x.gt(&acc) {
                acc = x;
            }
        }
        i += 1;
    }
    proof {
        assert(dv.take(dv.len() as int) =~~= dv);
    }
    acc
}

/// The minimum of a cell vector over its non-`Empty` cells.
pub fn min_vector(v: &Vec<InnerType>) -> (r: InnerType)
    ensures
        r@ == vmin(v.deep_view()),
{
    let ghost dv = v.deep_view();
    let mut acc = InnerType::Empty;
    let mut i: usize = 0;
    while i < v.len()
        invariant
            i <= v@.len(),
            dv == v.deep_view(),
            acc@ == vmin(dv.take(i as int)),
        decreases v@.len() - i,
    {
        proof {
            assert(dv.take(i + 1).drop_last() =~~= dv.take(i as int));
            assert(dv.take(i + 1).last() == dv[i as int]);
        }
        let x = v[i].clone();
        if !x.is_empty() {
            if acc.is_empty() {
                acc = x;
            } else if acc.gt(&x) {
                acc = x;
            }
        }
        i += 1;
    }
    proof {
        assert(dv.take(dv.len() as int) =~~= dv);
    }
    acc
}

/// The mean of a cell vector: sum of the non-`Empty` cells divided by their
/// count.
pub fn mean_vector(v: &Vec<InnerType>) -> (r: InnerType)
    ensures
        r@ == vmean(v.deep_view()),
{
    let s = sum_vector(v);
    let c = count_vector(v);
    if c == 0 {
        return InnerType::Empty;
    }
    let divisor = match &s {
        InnerType::Float(_) => InnerType::Float(f64_of_usize(c)),
        InnerType::Int64(_) => if (c as u64) <= (i64::MAX as u64) {
            InnerType::Int64(c as i64)
        } else {
            InnerType::Empty
        },
        InnerType::Int32(_) => if (c as u64) <= (i32::MAX as u64) {
            InnerType::Int32(c as i32)
        } else {
            InnerType::Empty
        },
        _ => InnerType::Empty,
    };
    proof {
        assert(divisor@ == count_as(s@, count_nonempty(v.deep_view())));
    }
    s.div(divisor)
}

/// A 1-dimensional labeled result: one scalar per (row or column) group
/// along the traversed axis.
pub struct Aggregated {
    pub labels: Vec<OuterType>,
    pub values: Vec<InnerType>,
}

impl Aggregated {
    /// The raw values, without their labels.
    pub fn as_array(self) -> (r: Vec<InnerType>)
        ensures
            r == self.values,
    {
        self.values
    }
}

/// The sum of every pair's vector, in traversal order.
pub open spec fn sums_of(es: Seq<crate::dataframe::EntryModel>) -> Seq<InnerVal> {
    Seq::new(es.len(), |i: int| vsum(es[i].values))
}

/// The mean of every pair's vector, in traversal order.
pub open spec fn means_of(es: Seq<crate::dataframe::EntryModel>) -> Seq<InnerVal> {
    Seq::new(es.len(), |i: int| vmean(es[i].values))
}

/// The maximum of every pair's vector, in traversal order.
pub open spec fn maxs_of(es: Seq<crate::dataframe::EntryModel>) -> Seq<InnerVal> {
    Seq::new(es.len(), |i: int| vmax(es[i].values))
}

/// The minimum of every pair's vector, in traversal order.
pub open spec fn mins_of(es: Seq<crate::dataframe::EntryModel>) -> Seq<InnerVal> {
    Seq::new(es.len(), |i: int| vmin(es[i].values))
}

impl DataFrameIterator {
    /// Reduce every pair to the sum of its vector.
    pub fn sumdf(self) -> (r: Aggregated)
        ensures
            r.labels.deep_view() == labels_of(self@.entries),
            r.values.deep_view() == sums_of(self@.entries),
    {
        let mut labels: Vec<OuterType> = Vec::new();
        let mut values: Vec<InnerType> = Vec::new();
        let mut i: usize = 0;
        while i < self.entries.len()
            invariant
                i <= self.entries@.len(),
                labels@.len() == i,
                values@.len() == i,
                forall|k: int| 0 <= k < i ==> (#[trigger] labels@[k]) == self.entries@[k].label,
                forall|k: int| 0 <= k < i ==> (#[trigger] values@[k])@ == vsum(
                    self.entries@[k].values.deep_view(),
                ),
            decreases self.entries@.len() - i,
        {
            labels.push(self.entries[i].label.clone());
            values.push(sum_vector(&self.entries[i].values));
            i += 1;
        }
        proof {
            assert(labels.deep_view() =~~= labels_of(self@.entries));
            assert(values.deep_view() =~~= sums_of(self@.entries));
        }
        Aggregated { labels, values }
    }

    /// Reduce every pair to the mean of its vector.
    pub fn mean(self) -> (r: Aggregated)
        ensures
            r.labels.deep_view() == labels_of(self@.entries),
            r.values.deep_view() == means_of(self@.entries),
    {
        let mut labels: Vec<OuterType> = Vec::new();
        let mut values: Vec<InnerType> = Vec::new();
        let mut i: usize = 0;
        while i < self.entries.len()
            invariant
                i <= self.entries@.len(),
                labels@.len() == i,
                values@.len() == i,
                forall|k: int| 0 <= k < i ==> (#[trigger] labels@[k]) == self.entries@[k].label,
                forall|k: int| 0 <= k < i ==> (#[trigger] values@[k])@ == vmean(
                    self.entries@[k].values.deep_view(),
                ),
            decreases self.entries@.len() - i,
        {
            labels.push(self.entries[i].label.clone());
            values.push(mean_vector(&self.entries[i].values));
            i += 1;
        }
        proof {
            assert(labels.deep_view() =~~= labels_of(self@.entries));
            assert(values.deep_view() =~~= means_of(self@.entries));
        }
        Aggregated { labels, values }
    }

    /// Reduce every pair to the maximum of its vector.
    pub fn maxdf(self) -> (r: Aggregated)
        ensures
            r.labels.deep_view() == labels_of(self@.entries),
            r.values.deep_view() == maxs_of(self@.entries),
    {
        let mut labels: Vec<OuterType> = Vec::new();
        let mut values: Vec<InnerType> = Vec::new();
        let mut i: usize = 0;
        while i < self.entries.len()
            invariant
                i <= self.entries@.len(),
                labels@.len() == i,
                values@.len() == i,
                forall|k: int| 0 <= k < i ==> (#[trigger] labels@[k]) == self.entries@[k].label,
                forall|k: int| 0 <= k < i ==> (#[trigger] values@[k])@ == vmax(
                    self.entries@[k].values.deep_view(),
                ),
            decreases self.entries@.len() - i,
        {
            labels.push(self.entries[i].label.clone());
            values.push(max_vector(&self.entries[i].values));
            i += 1;
        }
        proof {
            assert(labels.deep_view() =~~= labels_of(self@.entries));
            assert(values.deep_view() =~~= maxs_of(self@.entries));
        }
        Aggregated { labels, values }
    }

    /// Reduce every pair to the minimum of its vector.
    pub fn mindf(self) -> (r: Aggregated)
        ensures
            r.labels.deep_view() == labels_of(self@.entries),
            r.values.deep_view() == mins_of(self@.entries),
    {
        let mut labels: Vec<OuterType> = Vec::new();
        let mut values: Vec<InnerType> = Vec::new();
        let mut i: usize = 0;
        while i < self.entries.len()
            invariant
                i <= self.entries@.len(),
                labels@.len() == i,
                values@.len() == i,
                forall|k: int| 0 <= k < i ==> (#[trigger] labels@[k]) == self.entries@[k].label,
                forall|k: int| 0 <= k < i ==> (#[trigger] values@[k])@ == vmin(
                    self.entries@[k].values.deep_view(),
                ),
            decreases self.entries@.len() - i,
        {
            labels.push(self.entries[i].label.clone());
            values.push(min_vector(&self.entries[i].values));
            i += 1;
        }
        proof {
            assert(labels.deep_view() =~~= labels_of(self@.entries));
            assert(values.deep_view() =~~= mins_of(self@.entries));
        }
        Aggregated { labels, values }
    }
}

impl DataFrame {
    /// The sum of every group along `axis`.
    pub fn sumdf(&self, axis: UtahAxis) -> (r: Aggregated)
        requires
            self.wf(),
        ensures
            r.labels.deep_view() == labels_of(iter_model(self@, axis).entries),
            r.values.deep_view() == sums_of(iter_model(self@, axis).entries),
    {
        self.df_iter(axis).sumdf()
    }

    /// The mean of every group along `axis`.
    pub fn mean(&self, axis: UtahAxis) -> (r: Aggregated)
        requires
            self.wf(),
        ensures
            r.labels.deep_view() == labels_of(iter_model(self@, axis).entries),
            r.values.deep_view() == means_of(iter_model(self@, axis).entries),
    {
        self.df_iter(axis).mean()
    }

    /// The maximum of every group along `axis`.
    pub fn maxdf(&self, axis: UtahAxis) -> (r: Aggregated)
        requires
            self.wf(),
        ensures
            r.labels.deep_view() == labels_of(iter_model(self@, axis).entries),
            r.values.deep_view() == maxs_of(iter_model(self@, axis).entries),
    {
        self.df_iter(axis).maxdf()
    }

    /// The minimum of every group along `axis`.
    pub fn mindf(&self, axis: UtahAxis) -> (r: Aggregated)
        requires
            self.wf(),
        ensures
            r.labels.deep_view() == labels_of(iter_model(self@, axis).entries),
            r.values.deep_view() == mins_of(iter_model(self@, axis).entries),
    {
        self.df_iter(axis).mindf()
    }
}

} // verus!
