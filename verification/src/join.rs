//! The join engine: inner/outer, left/right label-matching joins of two
//! dataframes on their row identifiers. Matching is identifier equality,
//! first match wins; the output columns are the left frame's columns
//! followed by the right frame's columns.

use vstd::prelude::*;

use crate::dataframe::clone_cells;
use crate::dataframe::clone_labels;
use crate::dataframe::DataFrame;
use crate::types::InnerType;
use crate::types::InnerVal;
use crate::types::OuterType;
use crate::types::OuterVal;

verus! {

broadcast use crate::types::lemma_deep_view_index, crate::types::lemma_deep_view_len;

/// The position of the first identifier equal to `l`, or `-1` when absent.
pub open spec fn first_match(idx: Seq<OuterVal>, l: OuterVal) -> int
    decreases idx.len(),
{
    if idx.len() == 0 {
        -1int
    } else if idx[0] == l {
        0int
    } else {
        let r = first_match(idx.drop_first(), l);
        if r == -1int {
            -1int
        } else {
            r + 1
        }
    }
}

/// `first_match` stays in range and, when it finds, finds `l`.
pub proof fn lemma_first_match_props(idx: Seq<OuterVal>, l: OuterVal)
    ensures
        -1 <= first_match(idx, l) < idx.len(),
        first_match(idx, l) >= 0 ==> idx[first_match(idx, l)] == l,
    decreases idx.len(),
{
    if idx.len() > 0 && idx[0] != l {
        lemma_first_match_props(idx.drop_first(), l);
    }
}

/// A scan that found `l` at position `i` after seeing only other labels
/// found the first match.
proof fn lemma_first_match_found(idx: Seq<OuterVal>, l: OuterVal, i: int)
    requires
        0 <= i < idx.len(),
        forall|k: int| 0 <= k < i ==> idx[k] != l,
        idx[i] == l,
    ensures
        first_match(idx, l) == i,
    decreases i,
{
    if i > 0 {
        assert(idx[0] != l);
        lemma_first_match_found(idx.drop_first(), l, i - 1);
    }
}

/// A scan that saw no label equal to `l` shows there is no match.
proof fn lemma_first_match_absent(idx: Seq<OuterVal>, l: OuterVal)
    requires
        forall|k: int| 0 <= k < idx.len() ==> idx[k] != l,
    ensures
        first_match(idx, l) == -1,
    decreases idx.len(),
{
    if idx.len() > 0 {
        lemma_first_match_absent(idx.drop_first(), l);
    }
}

/// The position of the first label equal to `l`, or `None` when absent.
pub fn find_label(idx: &Vec<OuterType>, l: &OuterType) -> (r: Option<usize>)
    ensures
        match r {
            Some(i) => first_match(idx.deep_view(), l@) == i && i < idx@.len(),
            None => first_match(idx.deep_view(), l@) == -1,
        },
{
    let ghost dv = idx.deep_view();
    let mut i: usize = 0;
    while i < idx.len()
        invariant
            i <= idx@.len(),
            dv == idx.deep_view(),
            forall|k: int| 0 <= k < i ==> dv[k] != l@,
        decreases idx@.len() - i,
    {
        if idx[i] == *l {
            proof {
                assert(dv[i as int] == idx@[i as int]@);
                lemma_first_match_found(dv, l@, i as int);
            }
            return Some(i);
        }
        proof {
            assert(dv[i as int] == idx@[i as int]@);
        }
        i += 1;
    }
    proof {
        lemma_first_match_absent(dv, l@);
    }
    None
}

/// A row of `n` `Empty` cells.
pub open spec fn empties(n: nat) -> Seq<InnerVal> {
    Seq::new(n, |i: int| InnerVal::Empty)
}

/// A vector of `n` `Empty` cells.
pub(crate) fn empty_cells(n: usize) -> (r: Vec<InnerType>)
    ensures
        r.deep_view() == empties(n as nat),
{
    let mut out: Vec<InnerType> = Vec::new();
    let mut i: usize = 0;
    while i < n
        invariant
            i <= n,
            out@.len() == i,
            forall|k: int| 0 <= k < i ==> out@[k] == InnerType::Empty,
        decreases n - i,
    {
        out.push(InnerType::Empty);
        i += 1;
    }
    proof {
        assert(out.deep_view() =~~= empties(n as nat));
    }
    out
}

/// The row identifiers an inner join keeps: the identifiers of the driving
/// side, in order, that also appear on the probed side.
pub open spec fn inner_join_index(pi: Seq<OuterVal>, qi: Seq<OuterVal>) -> Seq<OuterVal>
    decreases pi.len(),
{
    if pi.len() == 0 {
        Seq::empty()
    } else {
        let rest = inner_join_index(pi.drop_last(), qi);
        if first_match(qi, pi.last()) >= 0 {
            rest.push(pi.last())
        } else {
            rest
        }
    }
}

/// The rows of a left-driven inner join: for every left row whose
/// identifier appears on the right, the left row followed by the first
/// matching right row.
pub open spec fn inner_join_data_left(
    li: Seq<OuterVal>,
    ld: Seq<Seq<InnerVal>>,
    ri: Seq<OuterVal>,
    rd: Seq<Seq<InnerVal>>,
) -> Seq<Seq<InnerVal>>
    decreases li.len(),
{
    if li.len() == 0 {
        Seq::empty()
    } else {
        let rest = inner_join_data_left(li.drop_last(), ld.drop_last(), ri, rd);
        let m = first_match(ri, li.last());
        if m >= 0 {
            rest.push(ld.last() + rd[m])
        } else {
            rest
        }
    }
}

/// The rows of a right-driven inner join: for every right row whose
/// identifier appears on the left, the first matching left row followed by
/// the right row.
pub open spec fn inner_join_data_right(
    ri: Seq<OuterVal>,
    rd: Seq<Seq<InnerVal>>,
    li: Seq<OuterVal>,
    ld: Seq<Seq<InnerVal>>,
) -> Seq<Seq<InnerVal>>
    decreases ri.len(),
{
    if ri.len() == 0 {
        Seq::empty()
    } else {
        let rest = inner_join_data_right(ri.drop_last(), rd.drop_last(), li, ld);
        let m = first_match(li, ri.last());
        if m >= 0 {
            rest.push(ld[m] + rd.last())
        } else {
            rest
        }
    }
}

/// The identifiers of `pi` that do not appear in `qi`, in order.
pub open spec fn unmatched_labels(pi: Seq<OuterVal>, qi: Seq<OuterVal>) -> Seq<OuterVal>
    decreases pi.len(),
{
    if pi.len() == 0 {
        Seq::empty()
    } else {
        let rest = unmatched_labels(pi.drop_last(), qi);
        if first_match(qi, pi.last()) == -1 {
            rest.push(pi.last())
        } else {
            rest
        }
    }
}

/// The matched part of a left-driven outer join: every left row, extended
/// with the first matching right row or with `Empty` cells.
pub open spec fn outer_matched_left(
    li: Seq<OuterVal>,
    ld: Seq<Seq<InnerVal>>,
    ri: Seq<OuterVal>,
    rd: Seq<Seq<InnerVal>>,
    rcols: nat,
) -> Seq<Seq<InnerVal>> {
    Seq::new(
        li.len(),
        |i: int|
            if first_match(ri, li[i]) >= 0 {
                ld[i] + rd[first_match(ri, li[i])]
            } else {
                ld[i] + empties(rcols)
            },
    )
}

/// The extra rows of a left-driven outer join: the right rows with no left
/// match, prefixed with `Empty` cells, in right order.
pub open spec fn outer_extra_left(
    ri: Seq<OuterVal>,
    rd: Seq<Seq<InnerVal>>,
    li: Seq<OuterVal>,
    lcols: nat,
) -> Seq<Seq<InnerVal>>
    decreases ri.len(),
{
    if ri.len() == 0 {
        Seq::empty()
    } else {
        let rest = outer_extra_left(ri.drop_last(), rd.drop_last(), li, lcols);
        if first_match(li, ri.last()) == -1 {
            rest.push(empties(lcols) + rd.last())
        } else {
            rest
        }
    }
}

/// The index and the rows of a left-driven inner join stay in step.
proof fn lemma_inner_left_lens(
    li: Seq<OuterVal>,
    ld: Seq<Seq<InnerVal>>,
    ri: Seq<OuterVal>,
    rd: Seq<Seq<InnerVal>>,
)
    ensures
        inner_join_index(li, ri).len() == inner_join_data_left(li, ld, ri, rd).len(),
    decreases li.len(),
{
    if li.len() > 0 {
        lemma_inner_left_lens(li.drop_last(), ld.drop_last(), ri, rd);
    }
}

/// The index and the rows of a right-driven inner join stay in step.
proof fn lemma_inner_right_lens(
    ri: Seq<OuterVal>,
    rd: Seq<Seq<InnerVal>>,
    li: Seq<OuterVal>,
    ld: Seq<Seq<InnerVal>>,
)
    ensures
        inner_join_index(ri, li).len() == inner_join_data_right(ri, rd, li, ld).len(),
    decreases ri.len(),
{
    if ri.len() > 0 {
        lemma_inner_right_lens(ri.drop_last(), rd.drop_last(), li, ld);
    }
}

impl DataFrame {
    /// Left-driven inner join on row identifiers: output rows are the rows
    /// whose identifier appears on both sides, in this frame's order; output
    /// columns are this frame's columns followed by `other`'s.
    pub fn inner_left_join(&self, other: &DataFrame) -> (r: DataFrame)
        requires
            self.wf(),
            other.wf(),
        ensures
            r.wf(),
            r@.columns == self@.columns + other@.columns,
            r@.index == inner_join_index(self@.index, other@.index),
            r@.data == inner_join_data_left(self@.index, self@.data, other@.index, other@.data),
    {
        let ghost li = self@.index;
        let ghost ld = self@.data;
        let ghost ri = other@.index;
        let ghost rd = other@.data;
        let mut index: Vec<OuterType> = Vec::new();
        let mut data: Vec<Vec<InnerType>> = Vec::new();
        let mut i: usize = 0;
        proof {
            assert(self@.index.len() == self.index@.len());
            assert(self@.data.len() == self.data@.len());
        }
        while i < self.index.len()
            invariant
                self.wf(),
                other.wf(),
                li == self@.index,
                ld == self@.data,
                ri == other@.index,
                rd == other@.data,
                i <= self.index@.len(),
                self.index@.len() == self.data@.len(),
                index.deep_view() == inner_join_index(li.take(i as int), ri),
                data.deep_view() == inner_join_data_left(
                    li.take(i as int),
                    ld.take(i as int),
                    ri,
                    rd,
                ),
                forall|k: int| 0 <= k < data@.len() ==> (#[trigger] data@[k])@.len()
                    == self@.columns.len() + other@.columns.len(),
            decreases self.index@.len() - i,
        {
            proof {
                assert(li.take(i + 1).drop_last() =~~= li.take(i as int));
                assert(ld.take(i + 1).drop_last() =~~= ld.take(i as int));
                assert(li.take(i + 1).last() == li[i as int]);
                assert(ld.take(i + 1).last() == ld[i as int]);
                assert(li[i as int] == self.index@[i as int]@);
            }
            match find_label(&other.index, &self.index[i]) {
                Some(m) => {
                    proof {
                        assert(other@.index.len() == other.index@.len());
                        assert(other@.data.len() == other.data@.len());
                        assert(other@.data[m as int] == other.data@[m as int].deep_view());
                    }
                    let mut row = clone_cells(&self.data[i]);
                    let mut extra = clone_cells(&other.data[m]);
                    row.append(&mut extra);
                    proof {
                        assert(row.deep_view() =~~= ld[i as int] + rd[m as int]);
                        assert(ld[i as int].len() == self@.columns.len());
                        assert(rd[m as int].len() == other@.columns.len());
                    }
                    data.push(row);
                    index.push(self.index[i].clone());
                    proof {
                        assert(index.deep_view() =~~= inner_join_index(li.take(i + 1), ri));
                        assert(data.deep_view() =~~= inner_join_data_left(
                            li.take(i + 1),
                            ld.take(i + 1),
                            ri,
                            rd,
                        ));
                    }
                },
                None => {
                    proof {
                        assert(index.deep_view() =~~= inner_join_index(li.take(i + 1), ri));
                        assert(data.deep_view() =~~= inner_join_data_left(
                            li.take(i + 1),
                            ld.take(i + 1),
                            ri,
                            rd,
                        ));
                    }
                },
            }
            i += 1;
        }
        proof {
            assert(li.take(li.len() as int) =~~= li);
            assert(ld.take(ld.len() as int) =~~= ld);
        }
        let mut columns = clone_labels(&self.columns);
        let mut oc = clone_labels(&other.columns);
        columns.append(&mut oc);
        let r = DataFrame { data, index, columns };
        proof {
            assert(r@.columns =~~= self@.columns + other@.columns);
            lemma_inner_left_lens(li, ld, ri, rd);
            assert forall|k: int| 0 <= k < r@.data.len() implies (#[trigger] r@.data[k]).len()
                == r@.columns.len() by {
                assert(r@.data[k] == data@[k].deep_view());
            }
        }
        r
    }

    /// Right-driven inner join: the mirror of `inner_left_join` — output
    /// rows follow `other`'s identifier order; output columns are still this
    /// frame's columns followed by `other`'s.
    pub fn inner_right_join(&self, other: &DataFrame) -> (r: DataFrame)
        requires
            self.wf(),
            other.wf(),
        ensures
            r.wf(),
            r@.columns == self@.columns + other@.columns,
            r@.index == inner_join_index(other@.index, self@.index),
            r@.data == inner_join_data_right(other@.index, other@.data, self@.index, self@.data),
    {
        let ghost li = self@.index;
        let ghost ld = self@.data;
        let ghost ri = other@.index;
        let ghost rd = other@.data;
        let mut index: Vec<OuterType> = Vec::new();
        let mut data: Vec<Vec<InnerType>> = Vec::new();
        let mut j: usize = 0;
        proof {
            assert(other@.index.len() == other.index@.len());
            assert(other@.data.len() == other.data@.len());
        }
        while j < other.index.len()
            invariant
                self.wf(),
                other.wf(),
                li == self@.index,
                ld == self@.data,
                ri == other@.index,
                rd == other@.data,
                j <= other.index@.len(),
                other.index@.len() == other.data@.len(),
                index.deep_view() == inner_join_index(ri.take(j as int), li),
                data.deep_view() == inner_join_data_right(
                    ri.take(j as int),
                    rd.take(j as int),
                    li,
                    ld,
                ),
                forall|k: int| 0 <= k < data@.len() ==> (#[trigger] data@[k])@.len()
                    == self@.columns.len() + other@.columns.len(),
            decreases other.index@.len() - j,
        {
            proof {
                assert(ri.take(j + 1).drop_last() =~~= ri.take(j as int));
                assert(rd.take(j + 1).drop_last() =~~= rd.take(j as int));
                assert(ri.take(j + 1).last() == ri[j as int]);
                assert(rd.take(j + 1).last() == rd[j as int]);
                assert(ri[j as int] == other.index@[j as int]@);
            }
            match find_label(&self.index, &other.index[j]) {
                Some(m) => {
                    proof {
                        assert(self@.index.len() == self.index@.len());
                        assert(self@.data.len() == self.data@.len());
                        assert(self@.data[m as int] == self.data@[m as int].deep_view());
                    }
                    let mut row = clone_cells(&self.data[m]);
                    let mut extra = clone_cells(&other.data[j]);
                    row.append(&mut extra);
                    proof {
                        assert(row.deep_view() =~~= ld[m as int] + rd[j as int]);
                        assert(ld[m as int].len() == self@.columns.len());
                        assert(rd[j as int].len() == other@.columns.len());
                    }
                    data.push(row);
                    index.push(other.index[j].clone());
                    proof {
                        assert(index.deep_view() =~~= inner_join_index(ri.take(j + 1), li));
                        assert(data.deep_view() =~~= inner_join_data_right(
                            ri.take(j + 1),
                            rd.take(j + 1),
                            li,
                            ld,
                        ));
                    }
                },
                None => {
                    proof {
                        assert(index.deep_view() =~~= inner_join_index(ri.take(j + 1), li));
                        assert(data.deep_view() =~~= inner_join_data_right(
                            ri.take(j + 1),
                            rd.take(j + 1),
                            li,
                            ld,
                        ));
                    }
                },
            }
            j += 1;
        }
        proof {
            assert(ri.take(ri.len() as int) =~~= ri);
            assert(rd.take(rd.len() as int) =~~= rd);
        }
        let mut columns = clone_labels(&self.columns);
        let mut oc = clone_labels(&other.columns);
        columns.append(&mut oc);
        let r = DataFrame { data, index, columns };
        proof {
            assert(r@.columns =~~= self@.columns + other@.columns);
            lemma_inner_right_lens(ri, rd, li, ld);
            assert forall|k: int| 0 <= k < r@.data.len() implies (#[trigger] r@.data[k]).len()
                == r@.columns.len() by {
                assert(r@.data[k] == data@[k].deep_view());
            }
        }
        r
    }

    /// Left-driven outer join: every left row first, extended with the first
    /// matching right row or with `Empty` cells; then the unmatched right
    /// rows, prefixed with `Empty` cells, in right order.
    pub fn outer_left_join(&self, other: &DataFrame) -> (r: DataFrame)
        requires
            self.wf(),
            other.wf(),
        ensures
            r.wf(),
            r@.columns == self@.columns + other@.columns,
            r@.index == self@.index + unmatched_labels(other@.index, self@.index),
            r@.data == outer_matched_left(
                self@.index,
                self@.data,
                other@.index,
                other@.data,
                other@.columns.len(),
            ) + outer_extra_left(other@.index, other@.data, self@.index, self@.columns.len()),
    {
        let ghost li = self@.index;
        let ghost ld = self@.data;
        let ghost ri = other@.index;
        let ghost rd = other@.data;
        let ghost lc = self@.columns.len();
        let ghost rc = other@.columns.len();
        let mut index: Vec<OuterType> = Vec::new();
        let mut data: Vec<Vec<InnerType>> = Vec::new();
        let mut i: usize = 0;
        proof {
            assert(self@.index.len() == self.index@.len());
            assert(self@.data.len() == self.data@.len());
            assert(self@.columns.len() == self.columns@.len());
            assert(other@.columns.len() == other.columns@.len());
        }
        while i < self.index.len()
            invariant
                self.wf(),
                other.wf(),
                li == self@.index,
                ld == self@.data,
                ri == other@.index,
                rd == other@.data,
                lc == self@.columns.len(),
                rc == other@.columns.len(),
                lc == self.columns@.len(),
                rc == other.columns@.len(),
                i <= self.index@.len(),
                self.index@.len() == self.data@.len(),
                index@.len() == i,
                data@.len() == i,
                forall|k: int| 0 <= k < i ==> (#[trigger] index@[k]) == self.index@[k],
                forall|k: int| 0 <= k < i ==> (#[trigger] data@[k]).deep_view()
                    == outer_matched_left(li, ld, ri, rd, rc)[k],
                forall|k: int| 0 <= k < i ==> (#[trigger] data@[k])@.len() == lc + rc,
            decreases self.index@.len() - i,
        {
            proof {
                assert(li[i as int] == self.index@[i as int]@);
            }
            let mut row = clone_cells(&self.data[i]);
            proof {
                assert(ld[i as int].len() == lc);
            }
            let mut extra = match find_label(&other.index, &self.index[i]) {
                Some(m) => {
                    proof {
                        assert(other@.data.len() == other.data@.len());
                        assert(rd[m as int].len() == rc);
                    }
                    clone_cells(&other.data[m])
                },
                None => empty_cells(other.columns.len()),
            };
            row.append(&mut extra);
            proof {
                assert(row.deep_view() =~~= outer_matched_left(li, ld, ri, rd, rc)[i as int]);
            }
            data.push(row);
            index.push(self.index[i].clone());
            i += 1;
        }
        let mut j: usize = 0;
        proof {
            assert(other@.index.len() == other.index@.len());
            assert(other@.data.len() == other.data@.len());
        }
        while j < other.index.len()
            invariant
                self.wf(),
                other.wf(),
                li == self@.index,
                ld == self@.data,
                ri == other@.index,
                rd == other@.data,
                lc == self@.columns.len(),
                rc == other@.columns.len(),
                lc == self.columns@.len(),
                rc == other.columns@.len(),
                j <= other.index@.len(),
                other.index@.len() == other.data@.len(),
                index@.len() >= self.index@.len(),
                data@.len() == index@.len(),
                forall|k: int| 0 <= k < self.index@.len() ==> (#[trigger] index@[k])
                    == self.index@[k],
                forall|k: int| 0 <= k < self.index@.len() ==> (#[trigger] data@[k]).deep_view()
                    == outer_matched_left(li, ld, ri, rd, rc)[k],
                index.deep_view().skip(li.len() as int) == unmatched_labels(ri.take(j as int), li),
                data.deep_view().skip(li.len() as int) == outer_extra_left(
                    ri.take(j as int),
                    rd.take(j as int),
                    li,
                    lc,
                ),
                forall|k: int| 0 <= k < data@.len() ==> (#[trigger] data@[k])@.len() == lc + rc,
            decreases other.index@.len() - j,
        {
            proof {
                assert(ri.take(j + 1).drop_last() =~~= ri.take(j as int));
                assert(rd.take(j + 1).drop_last() =~~= rd.take(j as int));
                assert(ri.take(j + 1).last() == ri[j as int]);
                assert(rd.take(j + 1).last() == rd[j as int]);
                assert(ri[j as int] == other.index@[j as int]@);
            }
            match find_label(&self.index, &other.index[j]) {
                Some(_) => {
                    proof {
                        assert(index.deep_view().skip(li.len() as int) =~~= unmatched_labels(
                            ri.take(j + 1),
                            li,
                        ));
                        assert(data.deep_view().skip(li.len() as int) =~~= outer_extra_left(
                            ri.take(j + 1),
                            rd.take(j + 1),
                            li,
                            lc,
                        ));
                    }
                },
                None => {
                    let mut row = empty_cells(self.columns.len());
                    let mut extra = clone_cells(&other.data[j]);
                    row.append(&mut extra);
                    proof {
                        assert(rd[j as int].len() == rc);
                        assert(row.deep_view() =~~= empties(lc) + rd[j as int]);
                    }
                    data.push(row);
                    index.push(other.index[j].clone());
                    proof {
                        assert(index.deep_view().skip(li.len() as int) =~~= unmatched_labels(
                            ri.take(j + 1),
                            li,
                        ));
                        assert(data.deep_view().skip(li.len() as int) =~~= outer_extra_left(
                            ri.take(j + 1),
                            rd.take(j + 1),
                            li,
                            lc,
                        ));
                    }
                },
            }
            j += 1;
        }
        proof {
            assert(ri.take(ri.len() as int) =~~= ri);
            assert(rd.take(rd.len() as int) =~~= rd);
        }
        let mut columns = clone_labels(&self.columns);
        let mut oc = clone_labels(&other.columns);
        columns.append(&mut oc);
        let r = DataFrame { data, index, columns };
        proof {
            assert(r@.columns =~~= self@.columns + other@.columns);
            assert(r@.index =~~= self@.index + unmatched_labels(ri, li));
            assert(r@.data =~~= outer_matched_left(li, ld, ri, rd, rc) + outer_extra_left(
                ri,
                rd,
                li,
                lc,
            ));
        }
        r
    }

    /// Right-driven outer join: the mirror of `outer_left_join` — every
    /// right row first, prefixed with the first matching left row or with
    /// `Empty` cells; then the unmatched left rows, suffixed with `Empty`
    /// cells, in left order.
    pub fn outer_right_join(&self, other: &DataFrame) -> (r: DataFrame)
        requires
            self.wf(),
            other.wf(),
        ensures
            r.wf(),
            r@.columns == self@.columns + other@.columns,
            r@.index == other@.index + unmatched_labels(self@.index, other@.index),
            r@.data == outer_matched_right(
                other@.index,
                other@.data,
                self@.index,
                self@.data,
                self@.columns.len(),
            ) + outer_extra_right(self@.index, self@.data, other@.index, other@.columns.len()),
    {
        let ghost li = self@.index;
        let ghost ld = self@.data;
        let ghost ri = other@.index;
        let ghost rd = other@.data;
        let ghost lc = self@.columns.len();
        let ghost rc = other@.columns.len();
        let mut index: Vec<OuterType> = Vec::new();
        let mut data: Vec<Vec<InnerType>> = Vec::new();
        let mut j: usize = 0;
        proof {
            assert(other@.index.len() == other.index@.len());
            assert(other@.data.len() == other.data@.len());
            assert(self@.columns.len() == self.columns@.len());
            assert(other@.columns.len() == other.columns@.len());
        }
        while j < other.index.len()
            invariant
                self.wf(),
                other.wf(),
                li == self@.index,
                ld == self@.data,
                ri == other@.index,
                rd == other@.data,
                lc == self@.columns.len(),
                rc == other@.columns.len(),
                lc == self.columns@.len(),
                rc == other.columns@.len(),
                j <= other.index@.len(),
                other.index@.len() == other.data@.len(),
                index@.len() == j,
                data@.len() == j,
                forall|k: int| 0 <= k < j ==> (#[trigger] index@[k]) == other.index@[k],
                forall|k: int| 0 <= k < j ==> (#[trigger] data@[k]).deep_view()
                    == outer_matched_right(ri, rd, li, ld, lc)[k],
                forall|k: int| 0 <= k < j ==> (#[trigger] data@[k])@.len() == lc + rc,
            decreases other.index@.len() - j,
        {
            proof {
                assert(ri[j as int] == other.index@[j as int]@);
            }
            let mut row = match find_label(&self.index, &other.index[j]) {
                Some(m) => {
                    proof {
                        assert(self@.data.len() == self.data@.len());
                        assert(ld[m as int].len() == lc);
                    }
                    clone_cells(&self.data[m])
                },
                None => empty_cells(self.columns.len()),
            };
            let mut extra = clone_cells(&other.data[j]);
            proof {
                assert(rd[j as int].len() == rc);
            }
            row.append(&mut extra);
            proof {
                assert(row.deep_view() =~~= outer_matched_right(ri, rd, li, ld, lc)[j as int]);
            }
            data.push(row);
            index.push(other.index[j].clone());
            j += 1;
        }
        let mut i: usize = 0;
        proof {
            assert(self@.index.len() == self.index@.len());
            assert(self@.data.len() == self.data@.len());
        }
        while i < self.index.len()
            invariant
                self.wf(),
                other.wf(),
                li == self@.index,
                ld == self@.data,
                ri == other@.index,
                rd == other@.data,
                lc == self@.columns.len(),
                rc == other@.columns.len(),
                lc == self.columns@.len(),
                rc == other.columns@.len(),
                i <= self.index@.len(),
                self.index@.len() == self.data@.len(),
                index@.len() >= other.index@.len(),
                data@.len() == index@.len(),
                forall|k: int| 0 <= k < other.index@.len() ==> (#[trigger] index@[k])
                    == other.index@[k],
                forall|k: int| 0 <= k < other.index@.len() ==> (#[trigger] data@[k]).deep_view()
                    == outer_matched_right(ri, rd, li, ld, lc)[k],
                index.deep_view().skip(ri.len() as int) == unmatched_labels(li.take(i as int), ri),
                data.deep_view().skip(ri.len() as int) == outer_extra_right(
                    li.take(i as int),
                    ld.take(i as int),
                    ri,
                    rc,
                ),
                forall|k: int| 0 <= k < data@.len() ==> (#[trigger] data@[k])@.len() == lc + rc,
            decreases self.index@.len() - i,
        {
            proof {
                assert(li.take(i + 1).drop_last() =~~= li.take(i as int));
                assert(ld.take(i + 1).drop_last() =~~= ld.take(i as int));
                assert(li.take(i + 1).last() == li[i as int]);
                assert(ld.take(i + 1).last() == ld[i as int]);
                assert(li[i as int] == self.index@[i as int]@);
            }
            match find_label(&other.index, &self.index[i]) {
                Some(_) => {
                    proof {
                        assert(index.deep_view().skip(ri.len() as int) =~~= unmatched_labels(
                            li.take(i + 1),
                            ri,
                        ));
                        assert(data.deep_view().skip(ri.len() as int) =~~= outer_extra_right(
                            li.take(i + 1),
                            ld.take(i + 1),
                            ri,
                            rc,
                        ));
                    }
                },
                None => {
                    let mut row = clone_cells(&self.data[i]);
                    let mut extra = empty_cells(other.columns.len());
                    row.append(&mut extra);
                    proof {
                        assert(ld[i as int].len() == lc);
                        assert(row.deep_view() =~~= ld[i as int] + empties(rc));
                    }
                    data.push(row);
                    index.push(self.index[i].clone());
                    proof {
                        assert(index.deep_view().skip(ri.len() as int) =~~= unmatched_labels(
                            li.take(i + 1),
                            ri,
                        ));
                        assert(data.deep_view().skip(ri.len() as int) =~~= outer_extra_right(
                            li.take(i + 1),
                            ld.take(i + 1),
                            ri,
                            rc,
                        ));
                    }
                },
            }
            i += 1;
        }
        proof {
            assert(li.take(li.len() as int) =~~= li);
            assert(ld.take(ld.len() as int) =~~= ld);
        }
        let mut columns = clone_labels(&self.columns);
        let mut oc = clone_labels(&other.columns);
        columns.append(&mut oc);
        let r = DataFrame { data, index, columns };
        proof {
            assert(r@.columns =~~= self@.columns + other@.columns);
            assert(r@.index =~~= other@.index + unmatched_labels(li, ri));
            assert(r@.data =~~= outer_matched_right(ri, rd, li, ld, lc) + outer_extra_right(
                li,
                ld,
                ri,
                rc,
            ));
        }
        r
    }
}

/// A match is found exactly when the identifier occurs.
pub proof fn lemma_first_match_contains(idx: Seq<OuterVal>, l: OuterVal)
    ensures
        (first_match(idx, l) >= 0) <==> idx.contains(l),
    decreases idx.len(),
{
    if idx.len() > 0 {
        lemma_first_match_contains(idx.drop_first(), l);
        if idx[0] == l {
            assert(idx.contains(l));
        } else {
            if idx.drop_first().contains(l) {
                let i = choose|i: int|
                    0 <= i < idx.drop_first().len() && idx.drop_first()[i] == l;
                assert(idx[i + 1] == l);
            }
            if idx.contains(l) {
                let i = choose|i: int| 0 <= i < idx.len() && idx[i] == l;
                assert(i > 0);
                assert(idx.drop_first()[i - 1] == l);
            }
        }
    }
}

/// Join cardinality: the identifiers of an inner join are exactly those on
/// both sides, and the identifiers of an outer join (the driving side's
/// labels followed by the probed side's unmatched labels) are exactly those
/// on either side.
pub proof fn lemma_join_identifiers(pi: Seq<OuterVal>, qi: Seq<OuterVal>)
    ensures
        inner_join_index(pi, qi).to_set() == pi.to_set().intersect(qi.to_set()),
        (pi + unmatched_labels(qi, pi)).to_set() == pi.to_set().union(qi.to_set()),
{
    assert forall|l: OuterVal| inner_join_index(pi, qi).contains(l) == (pi.contains(l)
        && qi.contains(l)) by {
        lemma_inner_index_contains(pi, qi, l);
    }
    assert(inner_join_index(pi, qi).to_set() =~= pi.to_set().intersect(qi.to_set()));
    assert forall|l: OuterVal| (pi + unmatched_labels(qi, pi)).contains(l) == (pi.contains(l)
        || qi.contains(l)) by {
        lemma_unmatched_contains(qi, pi, l);
        if pi.contains(l) {
            let i = choose|i: int| 0 <= i < pi.len() && pi[i] == l;
            assert((pi + unmatched_labels(qi, pi))[i] == l);
        }
        if unmatched_labels(qi, pi).contains(l) {
            let i = choose|i: int|
                0 <= i < unmatched_labels(qi, pi).len() && unmatched_labels(qi, pi)[i] == l;
            assert((pi + unmatched_labels(qi, pi))[pi.len() + i] == l);
        }
        if (pi + unmatched_labels(qi, pi)).contains(l) {
            let i = choose|i: int|
                0 <= i < (pi + unmatched_labels(qi, pi)).len() && (pi + unmatched_labels(
                    qi,
                    pi,
                ))[i] == l;
            if i < pi.len() {
                assert(pi[i] == l);
            } else {
                assert(unmatched_labels(qi, pi)[i - pi.len()] == l);
            }
        }
    }
    assert((pi + unmatched_labels(qi, pi)).to_set() =~= pi.to_set().union(qi.to_set()));
}

/// The identifiers of an inner join are those on both sides.
proof fn lemma_inner_index_contains(pi: Seq<OuterVal>, qi: Seq<OuterVal>, l: OuterVal)
    ensures
        inner_join_index(pi, qi).contains(l) <==> (pi.contains(l) && qi.contains(l)),
    decreases pi.len(),
{
    if pi.len() == 0 {
        assert(!pi.contains(l));
    } else {
        let rest = pi.drop_last();
        lemma_inner_index_contains(rest, qi, l);
        crate::types::lemma_push_contains(rest, pi.last(), l);
        assert(pi =~= rest.push(pi.last()));
        lemma_first_match_contains(qi, pi.last());
        if first_match(qi, pi.last()) >= 0 {
            crate::types::lemma_push_contains(inner_join_index(rest, qi), pi.last(), l);
        }
    }
}

/// The unmatched labels of `pi` against `qi` are those of `pi` absent from
/// `qi`.
proof fn lemma_unmatched_contains(pi: Seq<OuterVal>, qi: Seq<OuterVal>, l: OuterVal)
    ensures
        unmatched_labels(pi, qi).contains(l) <==> (pi.contains(l) && !qi.contains(l)),
    decreases pi.len(),
{
    if pi.len() == 0 {
        assert(!pi.contains(l));
    } else {
        let rest = pi.drop_last();
        lemma_unmatched_contains(rest, qi, l);
        crate::types::lemma_push_contains(rest, pi.last(), l);
        assert(pi =~= rest.push(pi.last()));
        lemma_first_match_contains(qi, pi.last());
        lemma_first_match_props(qi, pi.last());
        if first_match(qi, pi.last()) == -1 {
            crate::types::lemma_push_contains(unmatched_labels(rest, qi), pi.last(), l);
        }
    }
}

/// The matched part of a right-driven outer join: every right row, prefixed
/// with the first matching left row or with `Empty` cells.
pub open spec fn outer_matched_right(
    ri: Seq<OuterVal>,
    rd: Seq<Seq<InnerVal>>,
    li: Seq<OuterVal>,
    ld: Seq<Seq<InnerVal>>,
    lcols: nat,
) -> Seq<Seq<InnerVal>> {
    Seq::new(
        ri.len(),
        |j: int|
            if first_match(li, ri[j]) >= 0 {
                ld[first_match(li, ri[j])] + rd[j]
            } else {
                empties(lcols) + rd[j]
            },
    )
}

/// The extra rows of a right-driven outer join: the left rows with no right
/// match, suffixed with `Empty` cells, in left order.
pub open spec fn outer_extra_right(
    li: Seq<OuterVal>,
    ld: Seq<Seq<InnerVal>>,
    ri: Seq<OuterVal>,
    rcols: nat,
) -> Seq<Seq<InnerVal>>
    decreases li.len(),
{
    if li.len() == 0 {
        Seq::empty()
    } else {
        let rest = outer_extra_right(li.drop_last(), ld.drop_last(), ri, rcols);
        if first_match(ri, li.last()) == -1 {
            rest.push(ld.last() + empties(rcols))
        } else {
            rest
        }
    }
}

} // verus!
