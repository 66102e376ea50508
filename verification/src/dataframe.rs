//! The dataframe entity: a dense 2-D matrix of cell values together with an
//! ordered sequence of row identifiers and an ordered sequence of column
//! identifiers.

use vstd::prelude::*;

use crate::types::ErrorKind;
use crate::types::InnerType;
use crate::types::InnerVal;
use crate::types::OuterType;
use crate::types::OuterVal;
use crate::types::UtahAxis;

verus! {

broadcast use crate::types::lemma_deep_view_index, crate::types::lemma_deep_view_len;

/// Mathematical model of a dataframe: a row-major matrix of cell-value
/// models with the two label sequences.
#[verifier::ext_equal]
pub struct DataFrameModel {
    pub data: Seq<Seq<InnerVal>>,
    pub index: Seq<OuterVal>,
    pub columns: Seq<OuterVal>,
}

/// The dataframe invariant: one row per row identifier, and every row as
/// wide as the column-identifier sequence.
pub open spec fn wf_model(d: DataFrameModel) -> bool {
    &&& d.data.len() == d.index.len()
    &&& forall|i: int| 0 <= i < d.data.len() ==> (#[trigger] d.data[i]).len() == d.columns.len()
}

/// The default `0..n` range identifiers used when no labels are given.
pub open spec fn range_labels(n: nat) -> Seq<OuterVal> {
    Seq::new(n, |i: int| OuterVal::USize(i as usize))
}

/// One (identifier, vector) pair of a traversal.
pub struct Entry {
    pub label: OuterType,
    pub values: Vec<InnerType>,
}

/// Mathematical model of a traversal pair.
#[verifier::ext_equal]
pub struct EntryModel {
    pub label: OuterVal,
    pub values: Seq<InnerVal>,
}

impl View for Entry {
    type V = EntryModel;

    open spec fn view(&self) -> EntryModel {
        EntryModel { label: self.label@, values: self.values.deep_view() }
    }
}

impl DeepView for Entry {
    type V = EntryModel;

    open spec fn deep_view(&self) -> EntryModel {
        self.view()
    }
}

/// A dataframe: owns its matrix and both label sequences.
pub struct DataFrame {
    pub data: Vec<Vec<InnerType>>,
    pub index: Vec<OuterType>,
    pub columns: Vec<OuterType>,
}

impl View for DataFrame {
    type V = DataFrameModel;

    open spec fn view(&self) -> DataFrameModel {
        DataFrameModel {
            data: self.data.deep_view(),
            index: self.index.deep_view(),
            columns: self.columns.deep_view(),
        }
    }
}

/// Clone of a vector of cell values.
pub(crate) fn clone_cells(v: &Vec<InnerType>) -> (r: Vec<InnerType>)
    ensures
        r@ == v@,
{
    let mut out: Vec<InnerType> = Vec::new();
    let mut i: usize = 0;
    while i < v.len()
        invariant
            i <= v@.len(),
            out@ == v@.take(i as int),
        decreases v@.len() - i,
    {
        out.push(v[i].clone());
        proof {
            assert(out@ =~~= v@.take(i + 1 as int));
        }
        i += 1;
    }
    proof {
        assert(out@ =~~= v@);
    }
    out
}

/// Clone of a vector of identifiers.
pub(crate) fn clone_labels(v: &Vec<OuterType>) -> (r: Vec<OuterType>)
    ensures
        r@ == v@,
{
    let mut out: Vec<OuterType> = Vec::new();
    let mut i: usize = 0;
    while i < v.len()
        invariant
            i <= v@.len(),
            out@ == v@.take(i as int),
        decreases v@.len() - i,
    {
        out.push(v[i].clone());
        proof {
            assert(out@ =~~= v@.take(i + 1 as int));
        }
        i += 1;
    }
    proof {
        assert(out@ =~~= v@);
    }
    out
}

/// The `0..n` range identifiers.
pub(crate) fn default_labels(n: usize) -> (r: Vec<OuterType>)
    ensures
        r.deep_view() == range_labels(n as nat),
{
    let mut out: Vec<OuterType> = Vec::new();
    let mut i: usize = 0;
    while i < n
        invariant
            i <= n,
            out@.len() == i,
            forall|k: int| 0 <= k < i ==> out@[k] == (OuterType::USize(k as usize)),
        decreases n - i,
    {
        out.push(OuterType::USize(i));
        i += 1;
    }
    proof {
        assert(out.deep_view() =~~= range_labels(n as nat));
    }
    out
}

impl Clone for DataFrame {
    fn clone(&self) -> (r: Self)
        ensures
            r@ == self@,
    {
        let mut data: Vec<Vec<InnerType>> = Vec::new();
        let mut i: usize = 0;
        while i < self.data.len()
            invariant
                i <= self.data@.len(),
                data@.len() == i,
                forall|k: int| 0 <= k < i ==> (#[trigger] data@[k])@ == self.data@[k]@,
            decreases self.data@.len() - i,
        {
            data.push(clone_cells(&self.data[i]));
            i += 1;
        }
        proof {
            assert(data.deep_view() =~~= self.data.deep_view());
        }
        let index = clone_labels(&self.index);
        let columns = clone_labels(&self.columns);
        DataFrame { data, index, columns }
    }
}

impl DataFrame {
    /// The dataframe invariant.
    pub open spec fn wf(&self) -> bool {
        wf_model(self@)
    }

    /// Construct a dataframe from a raw matrix, labeling both axes with the
    /// default `0..n` range identifiers. The matrix must be rectangular.
    pub fn new(data: Vec<Vec<InnerType>>) -> (r: DataFrame)
        requires
            forall|i: int| 0 <= i < data@.len() ==> (#[trigger] data@[i])@.len() == data@[0]@.len(),
        ensures
            r.wf(),
            r@.data == data.deep_view(),
            r@.index == range_labels(data@.len()),
            r@.columns == range_labels(if data@.len() == 0 { 0nat } else { data@[0]@.len() }),
    {
        let rows = data.len();
        let cols = if rows == 0 { 0 } else { data[0].len() };
        let index = default_labels(rows);
        let columns = default_labels(cols);
        DataFrame { data, index, columns }
    }

    /// Replace the row identifiers; fails with `DimensionMismatch` when the
    /// new label sequence does not have one label per row.
    pub fn index(self, index: Vec<OuterType>) -> (r: Result<DataFrame, ErrorKind>)
        ensures
            index@.len() == self@.index.len() ==> (r matches Ok(d) && d@ == (DataFrameModel {
                index: index.deep_view(),
                ..self@
            })),
            index@.len() != self@.index.len() ==> r == Err::<DataFrame, ErrorKind>(
                ErrorKind::DimensionMismatch,
            ),
    {
        if index.len() != self.index.len() {
            return Err(ErrorKind::DimensionMismatch);
        }
        Ok(DataFrame { data: self.data, index, columns: self.columns })
    }

    /// Replace the column identifiers; fails with `DimensionMismatch` when
    /// the new label sequence does not have one label per column.
    pub fn columns(self, columns: Vec<OuterType>) -> (r: Result<DataFrame, ErrorKind>)
        ensures
            columns@.len() == self@.columns.len() ==> (r matches Ok(d) && d@ == (DataFrameModel {
                columns: columns.deep_view(),
                ..self@
            })),
            columns@.len() != self@.columns.len() ==> r == Err::<DataFrame, ErrorKind>(
                ErrorKind::DimensionMismatch,
            ),
    {
        if columns.len() != self.columns.len() {
            return Err(ErrorKind::DimensionMismatch);
        }
        Ok(DataFrame { data: self.data, index: self.index, columns })
    }

    /// Construct a one-row (along `Row`) or one-column (along `Column`)
    /// dataframe from a single vector, with default range identifiers.
    pub fn from_array(data: Vec<InnerType>, axis: UtahAxis) -> (r: DataFrame)
        ensures
            r.wf(),
            axis == UtahAxis::Row ==> r@ == (DataFrameModel {
                data: seq![data.deep_view()],
                index: range_labels(1),
                columns: range_labels(data@.len()),
            }),
            axis == UtahAxis::Column ==> r@ == (DataFrameModel {
                data: Seq::new(data@.len(), |i: int| seq![data.deep_view()[i]]),
                index: range_labels(data@.len()),
                columns: range_labels(1),
            }),
    {
        match axis {
            UtahAxis::Row => {
                let n = data.len();
                let mut matrix: Vec<Vec<InnerType>> = Vec::new();
                matrix.push(data);
                let r = DataFrame {
                    data: matrix,
                    index: default_labels(1),
                    columns: default_labels(n),
                };
                proof {
                    assert(r@.data =~~= seq![r.data@[0].deep_view()]);
                }
                r
            },
            UtahAxis::Column => {
                let n = data.len();
                let mut matrix: Vec<Vec<InnerType>> = Vec::new();
                let mut i: usize = 0;
                while i < data.len()
                    invariant
                        i <= data@.len(),
                        matrix@.len() == i,
                        forall|k: int| 0 <= k < i ==> (#[trigger] matrix@[k])@ == seq![
                            data@[k],
                        ],
                    decreases data@.len() - i,
                {
                    let mut row: Vec<InnerType> = Vec::new();
                    row.push(data[i].clone());
                    matrix.push(row);
                    i += 1;
                }
                let r = DataFrame {
                    data: matrix,
                    index: default_labels(n),
                    columns: default_labels(1),
                };
                proof {
                    assert(r@.data =~~= Seq::new(
                        data@.len(),
                        |i: int| seq![data.deep_view()[i]],
                    ));
                }
                r
            },
        }
    }

    /// The shape of the frame as (row count, column count).
    pub fn shape(&self) -> (r: (usize, usize))
        requires
            self.wf(),
        ensures
            r.0 == self@.index.len(),
            r.1 == self@.columns.len(),
    {
        (self.index.len(), self.columns.len())
    }

    /// Positional access to one cell. Fails with `IndexOutOfBounds` when the
    /// row position is invalid and with `ColumnOutOfBounds` when the column
    /// position is invalid.
    pub fn get(&self, row: usize, col: usize) -> (r: Result<InnerType, ErrorKind>)
        requires
            self.wf(),
        ensures
            row >= self@.index.len() ==> r == Err::<InnerType, ErrorKind>(
                ErrorKind::IndexOutOfBounds,
            ),
            row < self@.index.len() && col >= self@.columns.len() ==> r == Err::<
                InnerType,
                ErrorKind,
            >(ErrorKind::ColumnOutOfBounds),
            row < self@.index.len() && col < self@.columns.len() ==> (r matches Ok(v) && v@
                == self@.data[row as int][col as int]),
    {
        if row >= self.data.len() {
            return Err(ErrorKind::IndexOutOfBounds);
        }
        if col >= self.columns.len() {
            return Err(ErrorKind::ColumnOutOfBounds);
        }
        proof {
            assert(self.data.deep_view()[row as int] == self.data@[row as int].deep_view());
            assert(self.data@[row as int].deep_view().len() == self.data@[row as int]@.len());
            assert(self@.columns.len() == self.columns@.len());
        }
        Ok(self.data[row][col].clone())
    }

    /// Append one row (along `Row`) or one column (along `Column`) and its
    /// identifier, in place. Fails with `DimensionMismatch`, leaving the
    /// frame unmodified, when the vector's length does not match the
    /// orthogonal axis's size.
    pub fn append(&mut self, name: OuterType, data: Vec<InnerType>, axis: UtahAxis) -> (r: Result<
        (),
        ErrorKind,
    >)
        requires
            old(self).wf(),
        ensures
            final(self).wf(),
            axis == UtahAxis::Row && data@.len() == old(self)@.columns.len() ==> (r matches Ok(u)
                && final(self)@ == (DataFrameModel {
                data: old(self)@.data.push(data.deep_view()),
                index: old(self)@.index.push(name@),
                columns: old(self)@.columns,
            })),
            axis == UtahAxis::Row && data@.len() != old(self)@.columns.len() ==> (r == Err::<
                (),
                ErrorKind,
            >(ErrorKind::DimensionMismatch) && *final(self) == *old(self)),
            axis == UtahAxis::Column && data@.len() == old(self)@.index.len() ==> (r matches Ok(u)
                && final(self)@ == (DataFrameModel {
                data: Seq::new(
                    old(self)@.data.len(),
                    |i: int| old(self)@.data[i].push(data.deep_view()[i]),
                ),
                index: old(self)@.index,
                columns: old(self)@.columns.push(name@),
            })),
            axis == UtahAxis::Column && data@.len() != old(self)@.index.len() ==> (r == Err::<
                (),
                ErrorKind,
            >(ErrorKind::DimensionMismatch) && *final(self) == *old(self)),
    {
        match axis {
            UtahAxis::Row => {
                if data.len() != self.columns.len() {
                    return Err(ErrorKind::DimensionMismatch);
                }
                self.data.push(data);
                self.index.push(name);
                proof {
                    assert(self@.data =~~= old(self)@.data.push(
                        self.data@[self.data@.len() - 1].deep_view(),
                    ));
                    assert(self@.index =~~= old(self)@.index.push(name@));
                }
                Ok(())
            },
            UtahAxis::Column => {
                if data.len() != self.data.len() {
                    return Err(ErrorKind::DimensionMismatch);
                }
                let ghost pre = *self;
                let mut nd: Vec<Vec<InnerType>> = Vec::new();
                let mut i: usize = 0;
                while i < self.data.len()
                    invariant
                        *self == pre,
                        data@.len() == pre.data@.len(),
                        i <= pre.data@.len(),
                        nd@.len() == i,
                        forall|k: int| 0 <= k < i ==> (#[trigger] nd@[k])@ == pre.data@[k]@.push(
                            data@[k],
                        ),
                    decreases pre.data@.len() - i,
                {
                    let mut row = clone_cells(&self.data[i]);
                    row.push(data[i].clone());
                    nd.push(row);
                    i += 1;
                }
                self.data = nd;
                self.columns.push(name);
                proof {
                    assert(self@.data =~~= Seq::new(
                        pre@.data.len(),
                        |i: int| pre@.data[i].push(data.deep_view()[i]),
                    ));
                    assert(self@.columns =~~= pre@.columns.push(name@));
                }
                Ok(())
            },
        }
    }

    /// Concatenate another frame after this one along `axis`: new rows below
    /// (along `Row`) or new columns to the right (along `Column`). Fails with
    /// `DimensionMismatch` when the frames disagree on the size of the
    /// non-concatenated axis. This frame's labels are kept on that axis.
    pub fn concat(&self, other: &DataFrame, axis: UtahAxis) -> (r: Result<DataFrame, ErrorKind>)
        requires
            self.wf(),
            other.wf(),
        ensures
            axis == UtahAxis::Row && self@.columns.len() == other@.columns.len() ==> (r matches Ok(
                d,
            ) && d.wf() && d@ == (DataFrameModel {
                data: self@.data + other@.data,
                index: self@.index + other@.index,
                columns: self@.columns,
            })),
            axis == UtahAxis::Row && self@.columns.len() != other@.columns.len() ==> r == Err::<
                DataFrame,
                ErrorKind,
            >(ErrorKind::DimensionMismatch),
            axis == UtahAxis::Column && self@.index.len() == other@.index.len() ==> (r matches Ok(
                d,
            ) && d.wf() && d@ == (DataFrameModel {
                data: Seq::new(self@.data.len(), |i: int| self@.data[i] + other@.data[i]),
                index: self@.index,
                columns: self@.columns + other@.columns,
            })),
            axis == UtahAxis::Column && self@.index.len() != other@.index.len() ==> r == Err::<
                DataFrame,
                ErrorKind,
            >(ErrorKind::DimensionMismatch),
    {
        match axis {
            UtahAxis::Row => {
                if self.columns.len() != other.columns.len() {
                    return Err(ErrorKind::DimensionMismatch);
                }
                let mut data: Vec<Vec<InnerType>> = Vec::new();
                let mut i: usize = 0;
                while i < self.data.len()
                    invariant
                        i <= self.data@.len(),
                        data@.len() == i,
                        forall|k: int| 0 <= k < i ==> (#[trigger] data@[k])@ == self.data@[k]@,
                    decreases self.data@.len() - i,
                {
                    data.push(clone_cells(&self.data[i]));
                    i += 1;
                }
                let mut j: usize = 0;
                while j < other.data.len()
                    invariant
                        j <= other.data@.len(),
                        data@.len() == self.data@.len() + j,
                        forall|k: int|
                            0 <= k < self.data@.len() ==> (#[trigger] data@[k])@ == self.data@[k]@,
                        forall|k: int|
                            self.data@.len() <= k < self.data@.len() + j ==> (
                            #[trigger] data@[k])@ == other.data@[k - self.data@.len()]@,
                    decreases other.data@.len() - j,
                {
                    data.push(clone_cells(&other.data[j]));
                    j += 1;
                }
                let mut index = clone_labels(&self.index);
                let mut oi = clone_labels(&other.index);
                index.append(&mut oi);
                let columns = clone_labels(&self.columns);
                let d = DataFrame { data, index, columns };
                proof {
                    assert(d@.data =~~= self@.data + other@.data);
                    assert(d@.index =~~= self@.index + other@.index);
                }
                Ok(d)
            },
            UtahAxis::Column => {
                if self.data.len() != other.data.len() {
                    return Err(ErrorKind::DimensionMismatch);
                }
                let mut data: Vec<Vec<InnerType>> = Vec::new();
                let mut i: usize = 0;
                while i < self.data.len()
                    invariant
                        i <= self.data@.len(),
                        other.data@.len() == self.data@.len(),
                        data@.len() == i,
                        forall|k: int| 0 <= k < i ==> (#[trigger] data@[k])@ == self.data@[k]@
                            + other.data@[k]@,
                    decreases self.data@.len() - i,
                {
                    let mut row = clone_cells(&self.data[i]);
                    let mut extra = clone_cells(&other.data[i]);
                    row.append(&mut extra);
                    data.push(row);
                    i += 1;
                }
                let index = clone_labels(&self.index);
                let mut columns = clone_labels(&self.columns);
                let mut oc = clone_labels(&other.columns);
                columns.append(&mut oc);
                let d = DataFrame { data, index, columns };
                proof {
                    assert(d@.data =~~= Seq::new(
                        self@.data.len(),
                        |i: int| self@.data[i] + other@.data[i],
                    ));
                    assert(d@.columns =~~= self@.columns + other@.columns);
                }
                Ok(d)
            },
        }
    }
}

} // verus!
