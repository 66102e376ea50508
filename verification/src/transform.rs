//! Read-only traversals over a dataframe and the lazy transform combinators:
//! selection, removal, appending a synthetic pair, and the terminal
//! materializations back into a dataframe, a matrix or a flat vector.

use vstd::prelude::*;

use crate::dataframe::clone_cells;
use crate::dataframe::clone_labels;
use crate::dataframe::DataFrame;
use crate::dataframe::DataFrameModel;
use crate::dataframe::Entry;
use crate::dataframe::EntryModel;
use crate::dataframe::wf_model;
use crate::types::ErrorKind;
use crate::types::InnerType;
use crate::types::InnerVal;
use crate::types::OuterType;
use crate::types::OuterVal;
use crate::types::UtahAxis;

verus! {

broadcast use crate::types::lemma_deep_view_index, crate::types::lemma_deep_view_len;

/// Mathematical model of a traversal: the ordered (identifier, vector)
/// pairs, the labels of the orthogonal axis, and the traversed axis.
#[verifier::ext_equal]
pub struct TravModel {
    pub entries: Seq<EntryModel>,
    pub other: Seq<OuterVal>,
    pub axis: UtahAxis,
}

/// The traversal invariant: every vector is as long as the orthogonal
/// label sequence.
pub open spec fn trav_wf(t: TravModel) -> bool {
    forall|i: int| 0 <= i < t.entries.len() ==> (#[trigger] t.entries[i]).values.len()
        == t.other.len()
}

/// The row-wise traversal pairs of a dataframe.
pub open spec fn row_entries(d: DataFrameModel) -> Seq<EntryModel> {
    Seq::new(d.index.len(), |i: int| EntryModel { label: d.index[i], values: d.data[i] })
}

/// Column `j` of a row-major matrix.
pub open spec fn col_of(data: Seq<Seq<InnerVal>>, j: int) -> Seq<InnerVal> {
    Seq::new(data.len(), |i: int| data[i][j])
}

/// The column-wise traversal pairs of a dataframe.
pub open spec fn col_entries(d: DataFrameModel) -> Seq<EntryModel> {
    Seq::new(d.columns.len(), |j: int| EntryModel { label: d.columns[j], values: col_of(d.data, j) })
}

/// The traversal of a dataframe along an axis.
pub open spec fn iter_model(d: DataFrameModel, axis: UtahAxis) -> TravModel {
    match axis {
        UtahAxis::Row => TravModel { entries: row_entries(d), other: d.columns, axis },
        UtahAxis::Column => TravModel { entries: col_entries(d), other: d.index, axis },
    }
}

/// The pairs whose identifier is among `names`, in traversal order.
pub open spec fn select_entries(es: Seq<EntryModel>, names: Seq<OuterVal>) -> Seq<EntryModel>
    decreases es.len(),
{
    if es.len() == 0 {
        Seq::empty()
    } else {
        let rest = select_entries(es.drop_last(), names);
        if names.contains(es.last().label) {
            rest.push(es.last())
        } else {
            rest
        }
    }
}

/// The pairs whose identifier is not among `names`, in traversal order.
pub open spec fn remove_entries(es: Seq<EntryModel>, names: Seq<OuterVal>) -> Seq<EntryModel>
    decreases es.len(),
{
    if es.len() == 0 {
        Seq::empty()
    } else {
        let rest = remove_entries(es.drop_last(), names);
        if names.contains(es.last().label) {
            rest
        } else {
            rest.push(es.last())
        }
    }
}

/// The identifiers of a traversal, in order.
pub open spec fn labels_of(es: Seq<EntryModel>) -> Seq<OuterVal> {
    Seq::new(es.len(), |i: int| es[i].label)
}

/// The vectors of a traversal, in order.
pub open spec fn vectors_of(es: Seq<EntryModel>) -> Seq<Seq<InnerVal>> {
    Seq::new(es.len(), |i: int| es[i].values)
}

/// The concatenation of all the vectors of a traversal, in order.
pub open spec fn concat_values(es: Seq<EntryModel>) -> Seq<InnerVal>
    decreases es.len(),
{
    if es.len() == 0 {
        Seq::empty()
    } else {
        concat_values(es.drop_last()) + es.last().values
    }
}

/// The dataframe a traversal materializes to: along `Row` the pairs are the
/// rows and the orthogonal labels the columns; along `Column` the pairs are
/// the columns and the matrix is rebuilt transposed.
pub open spec fn frame_of(t: TravModel) -> DataFrameModel {
    match t.axis {
        UtahAxis::Row => DataFrameModel {
            data: vectors_of(t.entries),
            index: labels_of(t.entries),
            columns: t.other,
        },
        UtahAxis::Column => DataFrameModel {
            data: Seq::new(
                t.other.len(),
                |i: int| Seq::new(t.entries.len(), |j: int| t.entries[j].values[i]),
            ),
            index: t.other,
            columns: labels_of(t.entries),
        },
    }
}

/// A read-only traversal: an ordered sequence of (identifier, vector) pairs
/// over one axis, consumed pair by pair through `next` or whole by a
/// combinator. A fresh traversal can always be requested from the frame.
pub struct DataFrameIterator {
    pub entries: Vec<Entry>,
    pub other: Vec<OuterType>,
    pub axis: UtahAxis,
    pub pos: usize,
}

impl View for DataFrameIterator {
    type V = TravModel;

    open spec fn view(&self) -> TravModel {
        TravModel {
            entries: self.entries.deep_view(),
            other: self.other.deep_view(),
            axis: self.axis,
        }
    }
}

/// Clone of one traversal pair.
pub(crate) fn clone_entry(e: &Entry) -> (r: Entry)
    ensures
        r.label == e.label,
        r.values@ == e.values@,
        r@ == e@,
{
    let r = Entry { label: e.label.clone(), values: clone_cells(&e.values) };
    proof {
        assert(r@ =~~= e@);
    }
    r
}

/// Membership test of an identifier among a list of names.
pub(crate) fn contains_label(names: &Vec<OuterType>, l: &OuterType) -> (r: bool)
    ensures
        r == names.deep_view().contains(l@),
{
    let mut i: usize = 0;
    while i < names.len()
        invariant
            i <= names@.len(),
            forall|k: int| 0 <= k < i ==> names@[k]@ != l@,
        decreases names@.len() - i,
    {
        if names[i] == *l {
            proof {
                assert(names.deep_view()[i as int] == l@);
            }
            return true;
        }
        i += 1;
    }
    proof {
        assert forall|k: int| 0 <= k < names.deep_view().len() implies names.deep_view()[k]
            != l@ by {
            assert(names.deep_view()[k] == names@[k]@);
        }
    }
    false
}

impl DataFrame {
    /// A fresh read-only traversal of this frame along `axis`, in label
    /// order.
    pub fn df_iter(&self, axis: UtahAxis) -> (r: DataFrameIterator)
        requires
            self.wf(),
        ensures
            r@ == iter_model(self@, axis),
            trav_wf(r@),
            r.pos == 0,
    {
        match axis {
            UtahAxis::Row => {
                let mut entries: Vec<Entry> = Vec::new();
                let mut i: usize = 0;
                while i < self.data.len()
                    invariant
                        self.wf(),
                        i <= self.data@.len(),
                        entries@.len() == i,
                        self.index@.len() == self.data@.len(),
                        forall|k: int| 0 <= k < i ==> (#[trigger] entries@[k]).label
                            == self.index@[k] && entries@[k].values@ == self.data@[k]@,
                    decreases self.data@.len() - i,
                {
                    proof {
                        assert(self@.index.len() == self.index@.len());
                    }
                    let e = Entry {
                        label: self.index[i].clone(),
                        values: clone_cells(&self.data[i]),
                    };
                    entries.push(e);
                    i += 1;
                }
                let r = DataFrameIterator {
                    entries,
                    other: clone_labels(&self.columns),
                    axis,
                    pos: 0,
                };
                proof {
                    assert(r@.entries =~~= row_entries(self@));
                    assert(r@ =~~= iter_model(self@, axis));
                }
                r
            },
            UtahAxis::Column => {
                let mut entries: Vec<Entry> = Vec::new();
                let mut j: usize = 0;
                proof {
                    assert(self@.columns.len() == self.columns@.len());
                }
                while j < self.columns.len()
                    invariant
                        self.wf(),
                        j <= self.columns@.len(),
                        entries@.len() == j,
                        forall|k: int| 0 <= k < j ==> (#[trigger] entries@[k]).label
                            == self.columns@[k] && entries@[k].values.deep_view() == col_of(
                            self@.data,
                            k,
                        ),
                    decreases self.columns@.len() - j,
                {
                    let mut vals: Vec<InnerType> = Vec::new();
                    let mut i: usize = 0;
                    while i < self.data.len()
                        invariant
                            self.wf(),
                            j < self.columns@.len(),
                            i <= self.data@.len(),
                            vals@.len() == i,
                            forall|k: int| 0 <= k < i ==> vals@[k] == self.data@[k]@[j as int],
                        decreases self.data@.len() - i,
                    {
                        proof {
                            assert(self@.data[i as int] == self.data@[i as int].deep_view());
                            assert(self.data@[i as int]@.len() == self@.columns.len());
                            assert(self@.columns.len() == self.columns@.len());
                        }
                        vals.push(self.data[i][j].clone());
                        i += 1;
                    }
                    proof {
                        assert(vals.deep_view() =~~= col_of(self@.data, j as int));
                    }
                    entries.push(Entry { label: self.columns[j].clone(), values: vals });
                    j += 1;
                }
                let r = DataFrameIterator {
                    entries,
                    other: clone_labels(&self.index),
                    axis,
                    pos: 0,
                };
                proof {
                    assert(r@.entries =~~= col_entries(self@));
                    assert(r@ =~~= iter_model(self@, axis));
                }
                r
            },
        }
    }
}

impl DataFrameIterator {
    /// The next (identifier, vector) pair, or `None` when the traversal is
    /// consumed.
    pub fn next(&mut self) -> (r: Option<Entry>)
        ensures
            final(self).entries == old(self).entries,
            final(self).other == old(self).other,
            final(self).axis == old(self).axis,
            old(self).pos >= old(self)@.entries.len() ==> r is None && final(self).pos == old(
                self,
            ).pos,
            old(self).pos < old(self)@.entries.len() ==> (r matches Some(e) && e@ == old(
                self,
            )@.entries[old(self).pos as int] && final(self).pos == old(self).pos + 1),
    {
        if self.pos >= self.entries.len() {
            return None;
        }
        let e = clone_entry(&self.entries[self.pos]);
        self.pos = self.pos + 1;
        Some(e)
    }

    /// Keep only the pairs whose identifier is among `names`, in traversal
    /// order; unknown names are silently absent from the output.
    pub fn select(self, names: &Vec<OuterType>) -> (r: DataFrameIterator)
        ensures
            r@.entries == select_entries(self@.entries, names.deep_view()),
            r@.other == self@.other,
            r@.axis == self@.axis,
            trav_wf(self@) ==> trav_wf(r@),
            r.pos == 0,
    {
        let ghost es = self.entries.deep_view();
        let ghost ns = names.deep_view();
        let mut out: Vec<Entry> = Vec::new();
        let mut i: usize = 0;
        while i < self.entries.len()
            invariant
                i <= self.entries@.len(),
                es == self.entries.deep_view(),
                ns == names.deep_view(),
                out.deep_view() == select_entries(es.take(i as int), ns),
            decreases self.entries@.len() - i,
        {
            proof {
                assert(es.take(i + 1).drop_last() =~~= es.take(i as int));
                assert(es.take(i + 1).last() == es[i as int]);
            }
            if contains_label(names, &self.entries[i].label) {
                let e = clone_entry(&self.entries[i]);
                out.push(e);
                proof {
                    assert(self.entries@[i as int]@.label == es[i as int].label);
                    assert(out.deep_view() =~~= select_entries(es.take(i + 1), ns));
                }
            } else {
                proof {
                    assert(self.entries@[i as int]@.label == es[i as int].label);
                    assert(out.deep_view() =~~= select_entries(es.take(i + 1), ns));
                }
            }
            i += 1;
        }
        proof {
            assert(es.take(es.len() as int) =~~= es);
        }
        let r = DataFrameIterator { entries: out, other: self.other, axis: self.axis, pos: 0 };
        proof {
            if trav_wf(self@) {
                lemma_select_entries_wf(self@, ns);
            }
        }
        r
    }

    /// Keep only the pairs whose identifier is not among `names`, in
    /// traversal order.
    pub fn remove(self, names: &Vec<OuterType>) -> (r: DataFrameIterator)
        ensures
            r@.entries == remove_entries(self@.entries, names.deep_view()),
            r@.other == self@.other,
            r@.axis == self@.axis,
            trav_wf(self@) ==> trav_wf(r@),
            r.pos == 0,
    {
        let ghost es = self.entries.deep_view();
        let ghost ns = names.deep_view();
        let mut out: Vec<Entry> = Vec::new();
        let mut i: usize = 0;
        while i < self.entries.len()
            invariant
                i <= self.entries@.len(),
                es == self.entries.deep_view(),
                ns == names.deep_view(),
                out.deep_view() == remove_entries(es.take(i as int), ns),
            decreases self.entries@.len() - i,
        {
            proof {
                assert(es.take(i + 1).drop_last() =~~= es.take(i as int));
                assert(es.take(i + 1).last() == es[i as int]);
            }
            if !contains_label(names, &self.entries[i].label) {
                let e = clone_entry(&self.entries[i]);
                out.push(e);
                proof {
                    assert(self.entries@[i as int]@.label == es[i as int].label);
                    assert(out.deep_view() =~~= remove_entries(es.take(i + 1), ns));
                }
            } else {
                proof {
                    assert(self.entries@[i as int]@.label == es[i as int].label);
                    assert(out.deep_view() =~~= remove_entries(es.take(i + 1), ns));
                }
            }
            i += 1;
        }
        proof {
            assert(es.take(es.len() as int) =~~= es);
        }
        let r = DataFrameIterator { entries: out, other: self.other, axis: self.axis, pos: 0 };
        proof {
            if trav_wf(self@) {
                lemma_remove_entries_wf(self@, ns);
            }
        }
        r
    }

    /// Emit the traversal unchanged, followed by one synthetic pair. Fails
    /// with `DimensionMismatch` when the vector's length does not match the
    /// orthogonal axis's size.
    pub fn append(self, name: OuterType, data: Vec<InnerType>) -> (r: Result<
        DataFrameIterator,
        ErrorKind,
    >)
        ensures
            data@.len() == self@.other.len() ==> (r matches Ok(it) && it@ == (TravModel {
                entries: self@.entries.push(
                    EntryModel { label: name@, values: data.deep_view() },
                ),
                ..self@
            }) && it.pos == 0),
            data@.len() != self@.other.len() ==> r == Err::<DataFrameIterator, ErrorKind>(
                ErrorKind::DimensionMismatch,
            ),
    {
        proof {
            assert(self@.other.len() == self.other@.len());
        }
        if data.len() != self.other.len() {
            return Err(ErrorKind::DimensionMismatch);
        }
        let mut entries = self.entries;
        entries.push(Entry { label: name, values: data });
        let r = DataFrameIterator { entries, other: self.other, axis: self.axis, pos: 0 };
        proof {
            assert(r@.entries =~~= self@.entries.push(
                EntryModel { label: name@, values: r.entries@[r.entries@.len() - 1].values.deep_view() },
            ));
        }
        Ok(r)
    }

    /// Materialize the traversal into a dataframe. Fails with
    /// `DimensionMismatch` when some vector disagrees with the orthogonal
    /// axis's size.
    pub fn as_df(self) -> (r: Result<DataFrame, ErrorKind>)
        ensures
            trav_wf(self@) ==> (r matches Ok(d) && d.wf() && d@ == frame_of(self@)),
            !trav_wf(self@) ==> r == Err::<DataFrame, ErrorKind>(ErrorKind::DimensionMismatch),
    {
        let mut i: usize = 0;
        while i < self.entries.len()
            invariant
                i <= self.entries@.len(),
                forall|k: int| 0 <= k < i ==> (#[trigger] self@.entries[k]).values.len()
                    == self@.other.len(),
            decreases self.entries@.len() - i,
        {
            proof {
                assert(self@.entries[i as int].values.len()
                    == self.entries@[i as int].values@.len());
                assert(self@.other.len() == self.other@.len());
            }
            if self.entries[i].values.len() != self.other.len() {
                return Err(ErrorKind::DimensionMismatch);
            }
            i += 1;
        }
        match self.axis {
            UtahAxis::Row => {
                let mut data: Vec<Vec<InnerType>> = Vec::new();
                let mut index: Vec<OuterType> = Vec::new();
                let mut k: usize = 0;
                while k < self.entries.len()
                    invariant
                        k <= self.entries@.len(),
                        data@.len() == k,
                        index@.len() == k,
                        forall|m: int| 0 <= m < k ==> (#[trigger] data@[m])@
                            == self.entries@[m].values@,
                        forall|m: int| 0 <= m < k ==> (#[trigger] index@[m])
                            == self.entries@[m].label,
                    decreases self.entries@.len() - k,
                {
                    data.push(clone_cells(&self.entries[k].values));
                    index.push(self.entries[k].label.clone());
                    k += 1;
                }
                let d = DataFrame { data, index, columns: self.other };
                proof {
                    assert(d@.data =~~= vectors_of(self@.entries));
                    assert(d@.index =~~= labels_of(self@.entries));
                    assert(d@ =~~= frame_of(self@));
                }
                Ok(d)
            },
            UtahAxis::Column => {
                let mut data: Vec<Vec<InnerType>> = Vec::new();
                let mut i: usize = 0;
                while i < self.other.len()
                    invariant
                        trav_wf(self@),
                        i <= self.other@.len(),
                        data@.len() == i,
                        forall|m: int| 0 <= m < i ==> (#[trigger] data@[m]).deep_view()
                            == Seq::new(
                            self@.entries.len(),
                            |j: int| self@.entries[j].values[m],
                        ),
                    decreases self.other@.len() - i,
                {
                    let mut row: Vec<InnerType> = Vec::new();
                    let mut j: usize = 0;
                    while j < self.entries.len()
                        invariant
                            trav_wf(self@),
                            i < self.other@.len(),
                            j <= self.entries@.len(),
                            row@.len() == j,
                            forall|m: int| 0 <= m < j ==> row@[m]
                                == self.entries@[m].values@[i as int],
                        decreases self.entries@.len() - j,
                    {
                        proof {
                            assert(self@.entries[j as int].values.len()
                                == self.entries@[j as int].values@.len());
                            assert(self@.other.len() == self.other@.len());
                        }
                        row.push(self.entries[j].values[i].clone());
                        j += 1;
                    }
                    proof {
                        assert(row.deep_view() =~~= Seq::new(
                            self@.entries.len(),
                            |j: int| self@.entries[j].values[i as int],
                        ));
                    }
                    data.push(row);
                    i += 1;
                }
                let mut columns: Vec<OuterType> = Vec::new();
                let mut k: usize = 0;
                while k < self.entries.len()
                    invariant
                        k <= self.entries@.len(),
                        columns@.len() == k,
                        forall|m: int| 0 <= m < k ==> (#[trigger] columns@[m])
                            == self.entries@[m].label,
                    decreases self.entries@.len() - k,
                {
                    columns.push(self.entries[k].label.clone());
                    k += 1;
                }
                let d = DataFrame { data, index: self.other, columns };
                proof {
                    assert(d@.columns =~~= labels_of(self@.entries));
                    assert(d@ =~~= frame_of(self@));
                }
                Ok(d)
            },
        }
    }

    /// Materialize the traversal into a raw matrix (the pairs' vectors along
    /// `Row`, the transposed matrix along `Column`). Fails with
    /// `DimensionMismatch` as `as_df` does.
    pub fn as_matrix(self) -> (r: Result<Vec<Vec<InnerType>>, ErrorKind>)
        ensures
            trav_wf(self@) ==> (r matches Ok(m) && m.deep_view() == frame_of(self@).data),
            !trav_wf(self@) ==> r == Err::<Vec<Vec<InnerType>>, ErrorKind>(
                ErrorKind::DimensionMismatch,
            ),
    {
        let ghost t = self@;
        match self.as_df() {
            Ok(d) => Ok(d.data),
            Err(e) => Err(e),
        }
    }

    /// Materialize the traversal into one flat vector: the concatenation of
    /// all the pairs' vectors in traversal order.
    pub fn as_array(self) -> (r: Result<Vec<InnerType>, ErrorKind>)
        ensures
            r matches Ok(v) && v.deep_view() == concat_values(self@.entries),
    {
        let ghost es = self.entries.deep_view();
        let mut out: Vec<InnerType> = Vec::new();
        let mut i: usize = 0;
        while i < self.entries.len()
            invariant
                i <= self.entries@.len(),
                es == self.entries.deep_view(),
                out.deep_view() == concat_values(es.take(i as int)),
            decreases self.entries@.len() - i,
        {
            proof {
                assert(es.take(i + 1).drop_last() =~~= es.take(i as int));
                assert(es.take(i + 1).last() == es[i as int]);
            }
            let mut vals = clone_cells(&self.entries[i].values);
            out.append(&mut vals);
            proof {
                assert(out.deep_view() =~~= concat_values(es.take(i + 1)));
            }
            i += 1;
        }
        proof {
            assert(es.take(es.len() as int) =~~= es);
        }
        Ok(out)
    }
}

impl DataFrame {
    /// Construct a dataframe from labeled (identifier, vector) pairs, one
    /// row per pair in the given order, with default range column labels.
    /// Fails with `DimensionMismatch` when the vectors are not all of one
    /// length.
    pub fn from_pairs(entries: Vec<Entry>) -> (r: Result<DataFrame, ErrorKind>)
        ensures
            (forall|k: int|
                0 <= k < entries.deep_view().len() ==> (#[trigger] entries.deep_view()[k]).values.len()
                    == entries.deep_view()[0].values.len()) ==> (r matches Ok(d) && d.wf()
                && d@.data == vectors_of(entries.deep_view()) && d@.index == labels_of(
                entries.deep_view(),
            ) && d@.columns == crate::dataframe::range_labels(
                if entries.deep_view().len() == 0 {
                    0nat
                } else {
                    entries.deep_view()[0].values.len()
                },
            )),
            !(forall|k: int|
                0 <= k < entries.deep_view().len() ==> (#[trigger] entries.deep_view()[k]).values.len()
                    == entries.deep_view()[0].values.len()) ==> r == Err::<DataFrame, ErrorKind>(
                ErrorKind::DimensionMismatch,
            ),
    {
        let ghost es = entries.deep_view();
        let cols = if entries.len() == 0 {
            0
        } else {
            entries[0].values.len()
        };
        proof {
            if entries@.len() > 0 {
                assert(es[0].values.len() == entries@[0].values@.len());
            }
        }
        let it = DataFrameIterator {
            entries,
            other: crate::dataframe::default_labels(cols),
            axis: UtahAxis::Row,
            pos: 0,
        };
        let r = it.as_df();
        proof {
            assert(trav_wf(it@) == (forall|k: int|
                0 <= k < es.len() ==> (#[trigger] es[k]).values.len() == es[0].values.len()));
            if trav_wf(it@) {
                assert(frame_of(it@).data =~~= vectors_of(es));
            }
        }
        r
    }
}

/// Selection keeps the traversal invariant: every selected vector came from
/// the traversal.
pub proof fn lemma_select_entries_wf(t: TravModel, names: Seq<OuterVal>)
    requires
        trav_wf(t),
    ensures
        trav_wf(TravModel { entries: select_entries(t.entries, names), ..t }),
    decreases t.entries.len(),
{
    if t.entries.len() > 0 {
        lemma_select_entries_wf(TravModel { entries: t.entries.drop_last(), ..t }, names);
    }
}

/// Removal keeps the traversal invariant.
pub proof fn lemma_remove_entries_wf(t: TravModel, names: Seq<OuterVal>)
    requires
        trav_wf(t),
    ensures
        trav_wf(TravModel { entries: remove_entries(t.entries, names), ..t }),
    decreases t.entries.len(),
{
    if t.entries.len() > 0 {
        lemma_remove_entries_wf(TravModel { entries: t.entries.drop_last(), ..t }, names);
    }
}

/// A full row-wise traversal materializes back to the very frame it came
/// from: the round trip reproduces matrix and labels exactly.
pub proof fn lemma_round_trip(d: DataFrameModel)
    requires
        wf_model(d),
    ensures
        trav_wf(iter_model(d, UtahAxis::Row)),
        frame_of(iter_model(d, UtahAxis::Row)) == d,
{
    assert(frame_of(iter_model(d, UtahAxis::Row)) =~~= d);
}

/// Which identifiers selection and removal keep: exactly those of the
/// traversal that are (respectively are not) among the names.
pub proof fn lemma_select_remove_labels(es: Seq<EntryModel>, names: Seq<OuterVal>, l: OuterVal)
    ensures
        labels_of(select_entries(es, names)).contains(l) <==> (labels_of(es).contains(l)
            && names.contains(l)),
        labels_of(remove_entries(es, names)).contains(l) <==> (labels_of(es).contains(l)
            && !names.contains(l)),
    decreases es.len(),
{
    if es.len() == 0 {
        assert(!labels_of(es).contains(l));
        assert(!labels_of(select_entries(es, names)).contains(l));
        assert(!labels_of(remove_entries(es, names)).contains(l));
    } else {
        let rest = es.drop_last();
        let x = es.last().label;
        lemma_select_remove_labels(rest, names, l);
        assert(labels_of(es) =~~= labels_of(rest).push(x));
        crate::types::lemma_push_contains(labels_of(rest), x, l);
        if names.contains(x) {
            assert(labels_of(select_entries(es, names)) =~~= labels_of(
                select_entries(rest, names),
            ).push(x));
            crate::types::lemma_push_contains(labels_of(select_entries(rest, names)), x, l);
        } else {
            assert(labels_of(remove_entries(es, names)) =~~= labels_of(
                remove_entries(rest, names),
            ).push(x));
            crate::types::lemma_push_contains(labels_of(remove_entries(rest, names)), x, l);
        }
    }
}

/// Select/remove complement: for any name set, the identifiers kept by
/// selection and by removal together are exactly the traversal's
/// identifiers, and no identifier is kept by both.
pub proof fn lemma_select_remove_complement(es: Seq<EntryModel>, names: Seq<OuterVal>)
    ensures
        labels_of(select_entries(es, names)).to_set().union(
            labels_of(remove_entries(es, names)).to_set(),
        ) == labels_of(es).to_set(),
        labels_of(select_entries(es, names)).to_set().intersect(
            labels_of(remove_entries(es, names)).to_set(),
        ) == Set::<OuterVal>::empty(),
{
    let sel = labels_of(select_entries(es, names)).to_set();
    let rem = labels_of(remove_entries(es, names)).to_set();
    let all = labels_of(es).to_set();
    assert forall|l: OuterVal| sel.union(rem).contains(l) == all.contains(l) by {
        lemma_select_remove_labels(es, names, l);
    }
    assert(sel.union(rem) =~= all);
    assert forall|l: OuterVal| !sel.intersect(rem).contains(l) by {
        lemma_select_remove_labels(es, names, l);
    }
    assert(sel.intersect(rem) =~= Set::<OuterVal>::empty());
}

} // verus!
