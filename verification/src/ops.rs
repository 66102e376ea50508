//! The operation surface of the library as capability traits: construction,
//! whole-frame operations, and the combinator interfaces that traversals
//! implement. Each trait states its methods' behaviour over the mathematical
//! models through a trait-level spec function.

use vstd::prelude::*;

use crate::aggregate::Aggregated;
use crate::aggregate::maxs_of;
use crate::aggregate::means_of;
use crate::aggregate::mins_of;
use crate::aggregate::sums_of;
use crate::dataframe::DataFrame;
use crate::dataframe::DataFrameModel;
use crate::dataframe::Entry;
use crate::dataframe::range_labels;
use crate::dataframe::wf_model;
use crate::join::inner_join_data_left;
use crate::join::inner_join_data_right;
use crate::join::inner_join_index;
use crate::join::outer_extra_left;
use crate::join::outer_extra_right;
use crate::join::outer_matched_left;
use crate::join::outer_matched_right;
use crate::join::unmatched_labels;
use crate::process::impute_seq;
use crate::process::MutableDataFrame;
use crate::transform::col_of;
use crate::transform::concat_values;
use crate::transform::DataFrameIterator;
use crate::transform::frame_of;
use crate::transform::iter_model;
use crate::transform::labels_of;
use crate::transform::remove_entries;
use crate::transform::select_entries;
use crate::transform::TravModel;
use crate::transform::trav_wf;
use crate::transform::vectors_of;
use crate::types::ErrorKind;
use crate::types::ImputeStrategy;
use crate::types::InnerType;
use crate::types::OuterType;
use crate::types::UtahAxis;

verus! {

/// Construction of a dataframe from a raw matrix and label slices, and the
/// two traversals over it.
pub trait Constructor: Sized {
    /// The mathematical model of the frame.
    spec fn model(&self) -> DataFrameModel;

    /// Construct from a rectangular matrix with default range labels.
    fn new(data: Vec<Vec<InnerType>>) -> (r: Self)
        requires
            forall|i: int| 0 <= i < data@.len() ==> (#[trigger] data@[i])@.len() == data@[0]@.len(),
        ensures
            wf_model(r.model()),
            r.model().data == data.deep_view(),
            r.model().index == range_labels(data@.len()),
            r.model().columns == range_labels(
                if data@.len() == 0 {
                    0nat
                } else {
                    data@[0]@.len()
                },
            ),
    ;

    /// Replace the row identifiers.
    fn index(self, index: Vec<OuterType>) -> (r: Result<Self, ErrorKind>)
        ensures
            index@.len() == self.model().index.len() ==> (r matches Ok(d) && d.model()
                == (DataFrameModel { index: index.deep_view(), ..self.model() })),
            index@.len() != self.model().index.len() ==> (r matches Err(e) && e
                == ErrorKind::DimensionMismatch),
    ;

    /// Replace the column identifiers.
    fn columns(self, columns: Vec<OuterType>) -> (r: Result<Self, ErrorKind>)
        ensures
            columns@.len() == self.model().columns.len() ==> (r matches Ok(d) && d.model()
                == (DataFrameModel { columns: columns.deep_view(), ..self.model() })),
            columns@.len() != self.model().columns.len() ==> (r matches Err(e) && e
                == ErrorKind::DimensionMismatch),
    ;

    /// Construct a one-row or one-column frame from a single vector.
    fn from_array(data: Vec<InnerType>, axis: UtahAxis) -> (r: Self)
        ensures
            wf_model(r.model()),
            axis == UtahAxis::Row ==> r.model() == (DataFrameModel {
                data: seq![data.deep_view()],
                index: range_labels(1),
                columns: range_labels(data@.len()),
            }),
            axis == UtahAxis::Column ==> r.model() == (DataFrameModel {
                data: Seq::new(data@.len(), |i: int| seq![data.deep_view()[i]]),
                index: range_labels(data@.len()),
                columns: range_labels(1),
            }),
    ;

    /// A fresh read-only traversal along `axis`.
    fn df_iter(&self, axis: UtahAxis) -> (r: DataFrameIterator)
        requires
            wf_model(self.model()),
        ensures
            r@ == iter_model(self.model(), axis),
            trav_wf(r@),
    ;

    /// The exclusive mutable traversal along `axis`; consumes the frame.
    fn df_iter_mut(self, axis: UtahAxis) -> (r: MutableDataFrame)
        ensures
            r.frame@ == self.model(),
            r.axis == axis,
    ;
}

impl Constructor for DataFrame {
    open spec fn model(&self) -> DataFrameModel {
        self@
    }

    fn new(data: Vec<Vec<InnerType>>) -> (r: Self) {
        DataFrame::new(data)
    }

    fn index(self, index: Vec<OuterType>) -> (r: Result<Self, ErrorKind>) {
        DataFrame::index(self, index)
    }

    fn columns(self, columns: Vec<OuterType>) -> (r: Result<Self, ErrorKind>) {
        DataFrame::columns(self, columns)
    }

    fn from_array(data: Vec<InnerType>, axis: UtahAxis) -> (r: Self) {
        DataFrame::from_array(data, axis)
    }

    fn df_iter(&self, axis: UtahAxis) -> (r: DataFrameIterator) {
        DataFrame::df_iter(self, axis)
    }

    fn df_iter_mut(self, axis: UtahAxis) -> (r: MutableDataFrame) {
        DataFrame::df_iter_mut(self, axis)
    }
}

/// Construction of a dataframe from labeled (identifier, vector) pairs, one
/// row per pair in the given order.
pub trait MixedDataframeConstructor: Sized {
    /// The mathematical model of the frame.
    spec fn model(&self) -> DataFrameModel;

    /// Construct from labeled pairs; fails when the vectors are ragged.
    fn from_pairs(entries: Vec<Entry>) -> (r: Result<Self, ErrorKind>)
        ensures
            (forall|k: int|
                0 <= k < entries.deep_view().len() ==> (
                #[trigger] entries.deep_view()[k]).values.len()
                    == entries.deep_view()[0].values.len()) ==> (r matches Ok(d) && wf_model(
                d.model(),
            ) && d.model().data == vectors_of(entries.deep_view()) && d.model().index == labels_of(
                entries.deep_view(),
            )),
            !(forall|k: int|
                0 <= k < entries.deep_view().len() ==> (
                #[trigger] entries.deep_view()[k]).values.len()
                    == entries.deep_view()[0].values.len()) ==> (r matches Err(e) && e
                == ErrorKind::DimensionMismatch),
    ;
}

impl MixedDataframeConstructor for DataFrame {
    open spec fn model(&self) -> DataFrameModel {
        self@
    }

    fn from_pairs(entries: Vec<Entry>) -> (r: Result<Self, ErrorKind>) {
        DataFrame::from_pairs(entries)
    }
}

/// Whole-frame operations: shape, selection, appending, joins, concatenation,
/// aggregation and imputation, each stated over the frame's model.
pub trait Operations: Sized {
    /// The mathematical model of the frame.
    spec fn model(&self) -> DataFrameModel;

    /// The raw rows of the frame, for relating a transform's input and
    /// output cells.
    spec fn rows_raw(&self) -> Seq<Vec<InnerType>>;

    /// The shape as (row count, column count).
    fn shape(&self) -> (r: (usize, usize))
        requires
            wf_model(self.model()),
        ensures
            r.0 == self.model().index.len(),
            r.1 == self.model().columns.len(),
    ;

    /// The traversal along `axis` restricted to the named pairs.
    fn select(&self, names: &Vec<OuterType>, axis: UtahAxis) -> (r: DataFrameIterator)
        requires
            wf_model(self.model()),
        ensures
            r@.entries == select_entries(iter_model(self.model(), axis).entries, names.deep_view()),
            r@.other == iter_model(self.model(), axis).other,
            r@.axis == axis,
            trav_wf(r@),
    ;

    /// The traversal along `axis` without the named pairs.
    fn remove(&self, names: &Vec<OuterType>, axis: UtahAxis) -> (r: DataFrameIterator)
        requires
            wf_model(self.model()),
        ensures
            r@.entries == remove_entries(iter_model(self.model(), axis).entries, names.deep_view()),
            r@.other == iter_model(self.model(), axis).other,
            r@.axis == axis,
            trav_wf(r@),
    ;

    /// Append one row or column and its identifier, in place.
    fn append(&mut self, name: OuterType, data: Vec<InnerType>, axis: UtahAxis) -> (r: Result<
        (),
        ErrorKind,
    >)
        requires
            wf_model(old(self).model()),
        ensures
            wf_model(final(self).model()),
            axis == UtahAxis::Row && data@.len() == old(self).model().columns.len() ==> (
            r matches Ok(u) && final(self).model() == (DataFrameModel {
                data: old(self).model().data.push(data.deep_view()),
                index: old(self).model().index.push(name@),
                columns: old(self).model().columns,
            })),
            axis == UtahAxis::Row && data@.len() != old(self).model().columns.len() ==> (
            r matches Err(e) && e == ErrorKind::DimensionMismatch && final(self).model() == old(
                self,
            ).model()),
            axis == UtahAxis::Column && data@.len() == old(self).model().index.len() ==> (
            r matches Ok(u) && final(self).model() == (DataFrameModel {
                data: Seq::new(
                    old(self).model().data.len(),
                    |i: int| old(self).model().data[i].push(data.deep_view()[i]),
                ),
                index: old(self).model().index,
                columns: old(self).model().columns.push(name@),
            })),
            axis == UtahAxis::Column && data@.len() != old(self).model().index.len() ==> (
            r matches Err(e) && e == ErrorKind::DimensionMismatch && final(self).model() == old(
                self,
            ).model()),
    ;

    /// Left-driven inner join on row identifiers.
    fn inner_left_join(&self, other: &DataFrame) -> (r: DataFrame)
        requires
            wf_model(self.model()),
            wf_model(other@),
        ensures
            r.wf(),
            r@.columns == self.model().columns + other@.columns,
            r@.index == inner_join_index(self.model().index, other@.index),
            r@.data == inner_join_data_left(
                self.model().index,
                self.model().data,
                other@.index,
                other@.data,
            ),
    ;

    /// Left-driven outer join on row identifiers.
    fn outer_left_join(&self, other: &DataFrame) -> (r: DataFrame)
        requires
            wf_model(self.model()),
            wf_model(other@),
        ensures
            r.wf(),
            r@.columns == self.model().columns + other@.columns,
            r@.index == self.model().index + unmatched_labels(other@.index, self.model().index),
            r@.data == outer_matched_left(
                self.model().index,
                self.model().data,
                other@.index,
                other@.data,
                other@.columns.len(),
            ) + outer_extra_left(
                other@.index,
                other@.data,
                self.model().index,
                self.model().columns.len(),
            ),
    ;

    /// Right-driven inner join on row identifiers.
    fn inner_right_join(&self, other: &DataFrame) -> (r: DataFrame)
        requires
            wf_model(self.model()),
            wf_model(other@),
        ensures
            r.wf(),
            r@.columns == self.model().columns + other@.columns,
            r@.index == inner_join_index(other@.index, self.model().index),
            r@.data == inner_join_data_right(
                other@.index,
                other@.data,
                self.model().index,
                self.model().data,
            ),
    ;

    /// Right-driven outer join on row identifiers.
    fn outer_right_join(&self, other: &DataFrame) -> (r: DataFrame)
        requires
            wf_model(self.model()),
            wf_model(other@),
        ensures
            r.wf(),
            r@.columns == self.model().columns + other@.columns,
            r@.index == other@.index + unmatched_labels(self.model().index, other@.index),
            r@.data == outer_matched_right(
                other@.index,
                other@.data,
                self.model().index,
                self.model().data,
                self.model().columns.len(),
            ) + outer_extra_right(
                self.model().index,
                self.model().data,
                other@.index,
                other@.columns.len(),
            ),
    ;

    /// Concatenate another frame along `axis`.
    fn concat(&self, other: &DataFrame, axis: UtahAxis) -> (r: Result<DataFrame, ErrorKind>)
        requires
            wf_model(self.model()),
            wf_model(other@),
        ensures
            axis == UtahAxis::Row && self.model().columns.len() == other@.columns.len() ==> (
            r matches Ok(d) && d.wf() && d@ == (DataFrameModel {
                data: self.model().data + other@.data,
                index: self.model().index + other@.index,
                columns: self.model().columns,
            })),
            axis == UtahAxis::Row && self.model().columns.len() != other@.columns.len() ==> (
            r matches Err(e) && e == ErrorKind::DimensionMismatch),
            axis == UtahAxis::Column && self.model().index.len() == other@.index.len() ==> (
            r matches Ok(d) && d.wf() && d@ == (DataFrameModel {
                data: Seq::new(
                    self.model().data.len(),
                    |i: int| self.model().data[i] + other@.data[i],
                ),
                index: self.model().index,
                columns: self.model().columns + other@.columns,
            })),
            axis == UtahAxis::Column && self.model().index.len() != other@.index.len() ==> (
            r matches Err(e) && e == ErrorKind::DimensionMismatch),
    ;

    /// The sum of every group along `axis`.
    fn sumdf(&self, axis: UtahAxis) -> (r: Aggregated)
        requires
            wf_model(self.model()),
        ensures
            r.labels.deep_view() == labels_of(iter_model(self.model(), axis).entries),
            r.values.deep_view() == sums_of(iter_model(self.model(), axis).entries),
    ;

    /// The mean of every group along `axis`.
    fn mean(&self, axis: UtahAxis) -> (r: Aggregated)
        requires
            wf_model(self.model()),
        ensures
            r.labels.deep_view() == labels_of(iter_model(self.model(), axis).entries),
            r.values.deep_view() == means_of(iter_model(self.model(), axis).entries),
    ;

    /// The maximum of every group along `axis`.
    fn maxdf(&self, axis: UtahAxis) -> (r: Aggregated)
        requires
            wf_model(self.model()),
        ensures
            r.labels.deep_view() == labels_of(iter_model(self.model(), axis).entries),
            r.values.deep_view() == maxs_of(iter_model(self.model(), axis).entries),
    ;

    /// The minimum of every group along `axis`.
    fn mindf(&self, axis: UtahAxis) -> (r: Aggregated)
        requires
            wf_model(self.model()),
        ensures
            r.labels.deep_view() == labels_of(iter_model(self.model(), axis).entries),
            r.values.deep_view() == mins_of(iter_model(self.model(), axis).entries),
    ;

    /// Apply a pure element transform to every cell, in place. The
    /// transform sees `Empty` like any other value.
    fn map<F: Fn(InnerType) -> InnerType>(self, f: F, axis: UtahAxis) -> (r: Self)
        requires
            forall|x: InnerType| f.requires((x,)),
        ensures
            r.model().index == self.model().index,
            r.model().columns == self.model().columns,
            r.rows_raw().len() == self.rows_raw().len(),
            forall|i: int| 0 <= i < self.rows_raw().len() ==> (#[trigger] r.rows_raw()[i])@.len()
                == self.rows_raw()[i]@.len(),
            forall|i: int, j: int|
                0 <= i < self.rows_raw().len() && 0 <= j < self.rows_raw()[i]@.len() ==> f.ensures(
                    (self.rows_raw()[i]@[j],),
                    r.rows_raw()[i]@[j],
                ),
    ;

    /// Impute every vector along `axis`, in place.
    fn impute(self, strategy: ImputeStrategy, axis: UtahAxis) -> (r: Self)
        requires
            wf_model(self.model()),
        ensures
            wf_model(r.model()),
            r.model().index == self.model().index,
            r.model().columns == self.model().columns,
            axis == UtahAxis::Row ==> r.model().data == Seq::new(
                self.model().data.len(),
                |i: int| impute_seq(self.model().data[i], strategy),
            ),
            axis == UtahAxis::Column ==> r.model().data == Seq::new(
                self.model().data.len(),
                |i: int|
                    Seq::new(
                        self.model().columns.len(),
                        |j: int| impute_seq(col_of(self.model().data, j), strategy)[i],
                    ),
            ),
    ;
}

impl Operations for DataFrame {
    open spec fn model(&self) -> DataFrameModel {
        self@
    }

    open spec fn rows_raw(&self) -> Seq<Vec<InnerType>> {
        self.data@
    }

    fn shape(&self) -> (r: (usize, usize)) {
        DataFrame::shape(self)
    }

    fn select(&self, names: &Vec<OuterType>, axis: UtahAxis) -> (r: DataFrameIterator) {
        DataFrame::df_iter(self, axis).select(names)
    }

    fn remove(&self, names: &Vec<OuterType>, axis: UtahAxis) -> (r: DataFrameIterator) {
        DataFrame::df_iter(self, axis).remove(names)
    }

    fn append(&mut self, name: OuterType, data: Vec<InnerType>, axis: UtahAxis) -> (r: Result<
        (),
        ErrorKind,
    >) {
        DataFrame::append(self, name, data, axis)
    }

    fn inner_left_join(&self, other: &DataFrame) -> (r: DataFrame) {
        DataFrame::inner_left_join(self, other)
    }

    fn outer_left_join(&self, other: &DataFrame) -> (r: DataFrame) {
        DataFrame::outer_left_join(self, other)
    }

    fn inner_right_join(&self, other: &DataFrame) -> (r: DataFrame) {
        DataFrame::inner_right_join(self, other)
    }

    fn outer_right_join(&self, other: &DataFrame) -> (r: DataFrame) {
        DataFrame::outer_right_join(self, other)
    }

    fn concat(&self, other: &DataFrame, axis: UtahAxis) -> (r: Result<DataFrame, ErrorKind>) {
        DataFrame::concat(self, other, axis)
    }

    fn sumdf(&self, axis: UtahAxis) -> (r: Aggregated) {
        DataFrame::sumdf(self, axis)
    }

    fn mean(&self, axis: UtahAxis) -> (r: Aggregated) {
        DataFrame::mean(self, axis)
    }

    fn maxdf(&self, axis: UtahAxis) -> (r: Aggregated) {
        DataFrame::maxdf(self, axis)
    }

    fn mindf(&self, axis: UtahAxis) -> (r: Aggregated) {
        DataFrame::mindf(self, axis)
    }

    fn map<F: Fn(InnerType) -> InnerType>(self, f: F, axis: UtahAxis) -> (r: Self) {
        let ghost pre = self;
        let out = DataFrame::df_iter_mut(self, axis).mapdf(f).to_mut_df();
        proof {
            assert(out@.index =~~= pre@.index);
            assert(out@.columns =~~= pre@.columns);
        }
        out
    }

    fn impute(self, strategy: ImputeStrategy, axis: UtahAxis) -> (r: Self) {
        DataFrame::df_iter_mut(self, axis).impute(strategy).to_mut_df()
    }
}

/// The transform combinators a traversal offers.
pub trait Transform: Sized {
    /// The mathematical model of the traversal.
    spec fn trav(&self) -> TravModel;

    /// Keep only the pairs whose identifier is among `names`.
    fn select(self, names: &Vec<OuterType>) -> (r: Self)
        ensures
            r.trav().entries == select_entries(self.trav().entries, names.deep_view()),
            r.trav().other == self.trav().other,
            r.trav().axis == self.trav().axis,
            trav_wf(self.trav()) ==> trav_wf(r.trav()),
    ;

    /// Keep only the pairs whose identifier is not among `names`.
    fn remove(self, names: &Vec<OuterType>) -> (r: Self)
        ensures
            r.trav().entries == remove_entries(self.trav().entries, names.deep_view()),
            r.trav().other == self.trav().other,
            r.trav().axis == self.trav().axis,
            trav_wf(self.trav()) ==> trav_wf(r.trav()),
    ;

    /// Emit the traversal unchanged, followed by one synthetic pair.
    fn append(self, name: OuterType, data: Vec<InnerType>) -> (r: Result<Self, ErrorKind>)
        ensures
            data@.len() == self.trav().other.len() ==> (r matches Ok(it) && it.trav()
                == (TravModel {
                entries: self.trav().entries.push(
                    crate::dataframe::EntryModel { label: name@, values: data.deep_view() },
                ),
                ..self.trav()
            })),
            data@.len() != self.trav().other.len() ==> (r matches Err(e) && e
                == ErrorKind::DimensionMismatch),
    ;
}

impl Transform for DataFrameIterator {
    open spec fn trav(&self) -> TravModel {
        self@
    }

    fn select(self, names: &Vec<OuterType>) -> (r: Self) {
        DataFrameIterator::select(self, names)
    }

    fn remove(self, names: &Vec<OuterType>) -> (r: Self) {
        DataFrameIterator::remove(self, names)
    }

    fn append(self, name: OuterType, data: Vec<InnerType>) -> (r: Result<Self, ErrorKind>) {
        DataFrameIterator::append(self, name, data)
    }
}

/// The aggregate combinators a traversal offers.
pub trait Aggregate: Sized {
    /// The mathematical model of the traversal.
    spec fn trav(&self) -> TravModel;

    /// Reduce every pair to the sum of its vector.
    fn sumdf(self) -> (r: Aggregated)
        ensures
            r.labels.deep_view() == labels_of(self.trav().entries),
            r.values.deep_view() == sums_of(self.trav().entries),
    ;

    /// Reduce every pair to the maximum of its vector.
    fn maxdf(self) -> (r: Aggregated)
        ensures
            r.labels.deep_view() == labels_of(self.trav().entries),
            r.values.deep_view() == maxs_of(self.trav().entries),
    ;

    /// Reduce every pair to the minimum of its vector.
    fn mindf(self) -> (r: Aggregated)
        ensures
            r.labels.deep_view() == labels_of(self.trav().entries),
            r.values.deep_view() == mins_of(self.trav().entries),
    ;

    /// Reduce every pair to the mean of its vector.
    fn mean(self) -> (r: Aggregated)
        ensures
            r.labels.deep_view() == labels_of(self.trav().entries),
            r.values.deep_view() == means_of(self.trav().entries),
    ;
}

impl Aggregate for DataFrameIterator {
    open spec fn trav(&self) -> TravModel {
        self@
    }

    fn sumdf(self) -> (r: Aggregated) {
        DataFrameIterator::sumdf(self)
    }

    fn maxdf(self) -> (r: Aggregated) {
        DataFrameIterator::maxdf(self)
    }

    fn mindf(self) -> (r: Aggregated) {
        DataFrameIterator::mindf(self)
    }

    fn mean(self) -> (r: Aggregated) {
        DataFrameIterator::mean(self)
    }
}

/// The process combinators the exclusive mutable traversal offers.
pub trait Process: Sized {
    /// The mathematical model of the owned frame.
    spec fn model(&self) -> DataFrameModel;

    /// The traversed axis.
    spec fn paxis(&self) -> UtahAxis;

    /// Impute every vector of the traversal, in place.
    fn impute(self, strategy: ImputeStrategy) -> (r: Self)
        requires
            wf_model(self.model()),
        ensures
            r.paxis() == self.paxis(),
            wf_model(r.model()),
            r.model().index == self.model().index,
            r.model().columns == self.model().columns,
            self.paxis() == UtahAxis::Row ==> r.model().data == Seq::new(
                self.model().data.len(),
                |i: int| impute_seq(self.model().data[i], strategy),
            ),
            self.paxis() == UtahAxis::Column ==> r.model().data == Seq::new(
                self.model().data.len(),
                |i: int|
                    Seq::new(
                        self.model().columns.len(),
                        |j: int| impute_seq(col_of(self.model().data, j), strategy)[i],
                    ),
            ),
    ;

    /// Materialize the (possibly mutated) traversal back into a dataframe.
    fn to_mut_df(self) -> (r: DataFrame)
        ensures
            r@ == self.model(),
    ;
}

impl Process for MutableDataFrame {
    open spec fn model(&self) -> DataFrameModel {
        self.frame@
    }

    open spec fn paxis(&self) -> UtahAxis {
        self.axis
    }

    fn impute(self, strategy: ImputeStrategy) -> (r: Self) {
        MutableDataFrame::impute(self, strategy)
    }

    fn to_mut_df(self) -> (r: DataFrame) {
        MutableDataFrame::to_mut_df(self)
    }
}

/// The terminal materializations a traversal offers.
pub trait ToDataFrame: Sized {
    /// The mathematical model of the traversal.
    spec fn trav(&self) -> TravModel;

    /// Walk the composed chain once and build a dataframe.
    fn as_df(self) -> (r: Result<DataFrame, ErrorKind>)
        ensures
            trav_wf(self.trav()) ==> (r matches Ok(d) && d.wf() && d@ == frame_of(self.trav())),
            !trav_wf(self.trav()) ==> (r matches Err(e) && e == ErrorKind::DimensionMismatch),
    ;

    /// Walk the composed chain once and build a raw matrix.
    fn as_matrix(self) -> (r: Result<Vec<Vec<InnerType>>, ErrorKind>)
        ensures
            trav_wf(self.trav()) ==> (r matches Ok(m) && m.deep_view() == frame_of(
                self.trav(),
            ).data),
            !trav_wf(self.trav()) ==> (r matches Err(e) && e == ErrorKind::DimensionMismatch),
    ;

    /// Walk the composed chain once and build one flat vector.
    fn as_array(self) -> (r: Result<Vec<InnerType>, ErrorKind>)
        ensures
            r matches Ok(v) && v.deep_view() == concat_values(self.trav().entries),
    ;
}

impl ToDataFrame for DataFrameIterator {
    open spec fn trav(&self) -> TravModel {
        self@
    }

    fn as_df(self) -> (r: Result<DataFrame, ErrorKind>) {
        DataFrameIterator::as_df(self)
    }

    fn as_matrix(self) -> (r: Result<Vec<Vec<InnerType>>, ErrorKind>) {
        DataFrameIterator::as_matrix(self)
    }

    fn as_array(self) -> (r: Result<Vec<InnerType>, ErrorKind>) {
        DataFrameIterator::as_array(self)
    }
}

} // verus!
