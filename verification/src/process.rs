//! Process combinators: the exclusive mutable traversal, elementwise map,
//! and missing-value imputation.
//!
//! Exclusivity is structural: obtaining the mutable traversal consumes the
//! dataframe, so no other view of it can exist while the traversal lives;
//! the frame comes back through `to_mut_df`.

use vstd::prelude::*;

use crate::aggregate::count_nonempty;
use crate::aggregate::lemma_count_zero;
use crate::aggregate::count_vector;
use crate::aggregate::max_vector;
use crate::aggregate::mean_vector;
use crate::aggregate::min_vector;
use crate::aggregate::vmax;
use crate::aggregate::vmean;
use crate::aggregate::vmin;
use crate::dataframe::clone_cells;
use crate::dataframe::DataFrame;
use crate::traits::Empty;
use crate::transform::col_of;
use crate::types::ImputeStrategy;
use crate::types::InnerType;
use crate::types::InnerVal;
use crate::types::UtahAxis;

verus! {

broadcast use crate::types::lemma_deep_view_index, crate::types::lemma_deep_view_len;

/// The fill value an imputation strategy computes from the non-`Empty`
/// cells of a vector.
pub open spec fn fill_of(s: Seq<InnerVal>, strategy: ImputeStrategy) -> InnerVal {
    match strategy {
        ImputeStrategy::Mean => vmean(s),
        ImputeStrategy::Max => vmax(s),
        ImputeStrategy::Min => vmin(s),
    }
}

/// A vector after imputation: every `Empty` cell replaced by the strategy's
/// fill value; a vector with no non-`Empty` cell is left unchanged.
pub open spec fn impute_seq(s: Seq<InnerVal>, strategy: ImputeStrategy) -> Seq<InnerVal> {
    if count_nonempty(s) == 0 {
        s
    } else {
        Seq::new(
            s.len(),
            |i: int|
                if s[i] == InnerVal::Empty {
                    fill_of(s, strategy)
                } else {
                    s[i]
                },
        )
    }
}

/// Impute one cell vector.
pub fn impute_vector(v: &Vec<InnerType>, strategy: ImputeStrategy) -> (r: Vec<InnerType>)
    ensures
        r.deep_view() == impute_seq(v.deep_view(), strategy),
{
    let ghost dv = v.deep_view();
    let c = count_vector(v);
    if c == 0 {
        let r = clone_cells(v);
        proof {
            assert(r.deep_view() =~~= dv);
        }
        return r;
    }
    let fill = match strategy {
        ImputeStrategy::Mean => mean_vector(v),
        ImputeStrategy::Max => max_vector(v),
        ImputeStrategy::Min => min_vector(v),
    };
    let mut out: Vec<InnerType> = Vec::new();
    let mut i: usize = 0;
    while i < v.len()
        invariant
            i <= v@.len(),
            dv == v.deep_view(),
            fill@ == fill_of(dv, strategy),
            out@.len() == i,
            forall|k: int| 0 <= k < i ==> (#[trigger] out@[k])@ == (if dv[k] == InnerVal::Empty {
                fill_of(dv, strategy)
            } else {
                dv[k]
            }),
        decreases v@.len() - i,
    {
        if v[i].is_empty() {
            out.push(fill.clone());
        } else {
            out.push(v[i].clone());
        }
        i += 1;
    }
    proof {
        assert(out.deep_view() =~~= impute_seq(dv, strategy));
    }
    out
}

/// An exclusive mutable traversal of a dataframe along one axis. It owns
/// the frame for its whole lifetime, so no other view can coexist with it.
pub struct MutableDataFrame {
    pub frame: DataFrame,
    pub axis: UtahAxis,
}

impl DataFrame {
    /// Obtain the exclusive mutable traversal along `axis`. This consumes
    /// the frame: a second traversal, or any other view, cannot be obtained
    /// while this one is live, and the frame comes back via `to_mut_df`.
    pub fn df_iter_mut(self, axis: UtahAxis) -> (r: MutableDataFrame)
        ensures
            r.frame == self,
            r.axis == axis,
    {
        MutableDataFrame { frame: self, axis }
    }
}

impl MutableDataFrame {
    /// Materialize the (possibly mutated) traversal back into its dataframe.
    pub fn to_mut_df(self) -> (r: DataFrame)
        ensures
            r == self.frame,
    {
        self.frame
    }

    /// Apply a pure element transform to every cell of every vector in the
    /// traversal, in place. The transform sees `Empty` like any other value.
    pub fn mapdf<F: Fn(InnerType) -> InnerType>(self, f: F) -> (r: Self)
        requires
            forall|x: InnerType| f.requires((x,)),
        ensures
            r.axis == self.axis,
            r.frame.index == self.frame.index,
            r.frame.columns == self.frame.columns,
            r.frame.data@.len() == self.frame.data@.len(),
            forall|i: int| 0 <= i < self.frame.data@.len() ==> (#[trigger] r.frame.data@[i])@.len()
                == self.frame.data@[i]@.len(),
            forall|i: int, j: int|
                0 <= i < self.frame.data@.len() && 0 <= j < self.frame.data@[i]@.len()
                    ==> f.ensures((self.frame.data@[i]@[j],), r.frame.data@[i]@[j]),
    {
        let mut data: Vec<Vec<InnerType>> = Vec::new();
        let mut i: usize = 0;
        while i < self.frame.data.len()
            invariant
                forall|x: InnerType| f.requires((x,)),
                i <= self.frame.data@.len(),
                data@.len() == i,
                forall|k: int| 0 <= k < i ==> (#[trigger] data@[k])@.len()
                    == self.frame.data@[k]@.len(),
                forall|k: int, j: int|
                    0 <= k < i && 0 <= j < self.frame.data@[k]@.len() ==> f.ensures(
                        (self.frame.data@[k]@[j],),
                        (#[trigger] data@[k]@[j]),
                    ),
            decreases self.frame.data@.len() - i,
        {
            let mut row: Vec<InnerType> = Vec::new();
            let mut j: usize = 0;
            while j < self.frame.data[i].len()
                invariant
                    forall|x: InnerType| f.requires((x,)),
                    i < self.frame.data@.len(),
                    j <= self.frame.data@[i as int]@.len(),
                    row@.len() == j,
                    forall|m: int| 0 <= m < j ==> f.ensures(
                        (self.frame.data@[i as int]@[m],),
                        (#[trigger] row@[m]),
                    ),
                decreases self.frame.data@[i as int]@.len() - j,
            {
                let cell = self.frame.data[i][j].clone();
                row.push(f(cell));
                j += 1;
            }
            data.push(row);
            i += 1;
        }
        MutableDataFrame {
            frame: DataFrame {
                data,
                index: self.frame.index,
                columns: self.frame.columns,
            },
            axis: self.axis,
        }
    }

    /// For each (identifier, vector) pair of the traversal, compute the
    /// strategy's fill value from the vector's non-`Empty` cells and
    /// overwrite every `Empty` cell with it, in place. A vector with no
    /// non-`Empty` cell is left unchanged.
    pub fn impute(self, strategy: ImputeStrategy) -> (r: Self)
        requires
            self.frame.wf(),
        ensures
            r.axis == self.axis,
            r.frame.wf(),
            r.frame@.index == self.frame@.index,
            r.frame@.columns == self.frame@.columns,
            self.axis == UtahAxis::Row ==> r.frame@.data == Seq::new(
                self.frame@.data.len(),
                |i: int| impute_seq(self.frame@.data[i], strategy),
            ),
            self.axis == UtahAxis::Column ==> r.frame@.data == Seq::new(
                self.frame@.data.len(),
                |i: int|
                    Seq::new(
                        self.frame@.columns.len(),
                        |j: int| impute_seq(col_of(self.frame@.data, j), strategy)[i],
                    ),
            ),
    {
        match self.axis {
            UtahAxis::Row => {
                let mut data: Vec<Vec<InnerType>> = Vec::new();
                let mut i: usize = 0;
                while i < self.frame.data.len()
                    invariant
                        i <= self.frame.data@.len(),
                        data@.len() == i,
                        forall|k: int| 0 <= k < i ==> (#[trigger] data@[k]).deep_view()
                            == impute_seq(self.frame.data@[k].deep_view(), strategy),
                    decreases self.frame.data@.len() - i,
                {
                    data.push(impute_vector(&self.frame.data[i], strategy));
                    i += 1;
                }
                let r = MutableDataFrame {
                    frame: DataFrame {
                        data,
                        index: self.frame.index,
                        columns: self.frame.columns,
                    },
                    axis: self.axis,
                };
                proof {
                    assert(r.frame@.data =~~= Seq::new(
                        self.frame@.data.len(),
                        |i: int| impute_seq(self.frame@.data[i], strategy),
                    ));
                    assert forall|i: int| 0 <= i < r.frame@.data.len() implies (
                    #[trigger] r.frame@.data[i]).len() == r.frame@.columns.len() by {
                        assert(self.frame@.data[i].len() == self.frame@.columns.len());
                    }
                }
                r
            },
            UtahAxis::Column => {
                // extract each column, impute it, then rebuild the matrix
                // transposed back into row-major order
                let rows = self.frame.data.len();
                let cols = self.frame.columns.len();
                let mut newcols: Vec<Vec<InnerType>> = Vec::new();
                let mut j: usize = 0;
                proof {
                    assert(self.frame@.columns.len() == self.frame.columns@.len());
                }
                while j < cols
                    invariant
                        self.frame.wf(),
                        cols == self.frame.columns@.len(),
                        rows == self.frame.data@.len(),
                        j <= cols,
                        newcols@.len() == j,
                        forall|k: int| 0 <= k < j ==> (#[trigger] newcols@[k]).deep_view()
                            == impute_seq(col_of(self.frame@.data, k), strategy),
                    decreases cols - j,
                {
                    let mut colv: Vec<InnerType> = Vec::new();
                    let mut i: usize = 0;
                    while i < rows
                        invariant
                            self.frame.wf(),
                            cols == self.frame.columns@.len(),
                            rows == self.frame.data@.len(),
                            j < cols,
                            i <= rows,
                            colv@.len() == i,
                            forall|k: int| 0 <= k < i ==> (#[trigger] colv@[k])
                                == self.frame.data@[k]@[j as int],
                        decreases rows - i,
                    {
                        proof {
                            assert(self.frame@.data[i as int]
                                == self.frame.data@[i as int].deep_view());
                            assert(self.frame.data@[i as int]@.len()
                                == self.frame@.columns.len());
                        }
                        colv.push(self.frame.data[i][j].clone());
                        i += 1;
                    }
                    proof {
                        assert(colv.deep_view() =~~= col_of(self.frame@.data, j as int));
                    }
                    newcols.push(impute_vector(&colv, strategy));
                    j += 1;
                }
                // transpose back
                let mut data: Vec<Vec<InnerType>> = Vec::new();
                let mut i: usize = 0;
                while i < rows
                    invariant
                        cols == self.frame.columns@.len(),
                        rows == self.frame.data@.len(),
                        newcols@.len() == cols,
                        forall|k: int| 0 <= k < cols ==> (#[trigger] newcols@[k]).deep_view()
                            == impute_seq(col_of(self.frame@.data, k), strategy),
                        forall|k: int| 0 <= k < cols ==> (#[trigger] newcols@[k])@.len() == rows,
                        i <= rows,
                        data@.len() == i,
                        forall|k: int, m: int|
                            0 <= k < i && 0 <= m < cols ==> (#[trigger] data@[k]@[m])
                                == newcols@[m]@[k],
                        forall|k: int| 0 <= k < i ==> (#[trigger] data@[k])@.len() == cols,
                    decreases rows - i,
                {
                    let mut row: Vec<InnerType> = Vec::new();
                    let mut m: usize = 0;
                    while m < cols
                        invariant
                            cols == self.frame.columns@.len(),
                            rows == self.frame.data@.len(),
                            newcols@.len() == cols,
                            forall|k: int| 0 <= k < cols ==> (#[trigger] newcols@[k])@.len()
                                == rows,
                            i < rows,
                            m <= cols,
                            row@.len() == m,
                            forall|k: int| 0 <= k < m ==> (#[trigger] row@[k])
                                == newcols@[k]@[i as int],
                        decreases cols - m,
                    {
                        row.push(newcols[m][i].clone());
                        m += 1;
                    }
                    data.push(row);
                    i += 1;
                }
                let r = MutableDataFrame {
                    frame: DataFrame {
                        data,
                        index: self.frame.index,
                        columns: self.frame.columns,
                    },
                    axis: self.axis,
                };
                proof {
                    assert forall|a: int, b: int|
                        0 <= a < rows && 0 <= b < cols implies #[trigger] r.frame@.data[a][b]
                        == impute_seq(col_of(self.frame@.data, b), strategy)[a] by {
                        assert(r.frame@.data[a] == r.frame.data@[a].deep_view());
                        assert(r.frame.data@[a].deep_view()[b] == r.frame.data@[a]@[b]@);
                        assert(r.frame.data@[a]@[b] == newcols@[b]@[a]);
                        assert(newcols@[b].deep_view()[a] == newcols@[b]@[a]@);
                    }
                    assert(r.frame@.data =~~= Seq::new(
                        self.frame@.data.len(),
                        |i: int|
                            Seq::new(
                                self.frame@.columns.len(),
                                |j: int| impute_seq(col_of(self.frame@.data, j), strategy)[i],
                            ),
                    ));
                    assert forall|i: int| 0 <= i < r.frame@.data.len() implies (
                    #[trigger] r.frame@.data[i]).len() == r.frame@.columns.len() by {}
                }
                r
            },
        }
    }
}

/// Impute idempotence: a vector with no `Empty` cell is left unchanged, and
/// imputing twice with one strategy is the same as imputing once — the
/// second pass finds no `Empty` cell left to fill.
pub proof fn lemma_impute_idempotent(s: Seq<InnerVal>, strategy: ImputeStrategy)
    ensures
        (forall|i: int| 0 <= i < s.len() ==> s[i] != InnerVal::Empty) ==> impute_seq(s, strategy)
            == s,
        impute_seq(impute_seq(s, strategy), strategy) == impute_seq(s, strategy),
{
    lemma_count_zero(s);
    if forall|i: int| 0 <= i < s.len() ==> s[i] != InnerVal::Empty {
        if count_nonempty(s) != 0 {
            assert(impute_seq(s, strategy) =~= s);
        }
    }
    let t = impute_seq(s, strategy);
    if count_nonempty(s) == 0 {
        assert(t == s);
    } else {
        let fill = fill_of(s, strategy);
        if fill == InnerVal::Empty {
            assert(t =~= s);
        } else {
            assert(forall|i: int| 0 <= i < t.len() ==> t[i] != InnerVal::Empty);
            lemma_count_zero(t);
            assert(s.len() > 0);
            assert(t.len() > 0);
            assert(t[0] != InnerVal::Empty);
            assert(count_nonempty(t) != 0);
            assert(impute_seq(t, strategy) =~= t);
        }
    }
}

} // verus!
