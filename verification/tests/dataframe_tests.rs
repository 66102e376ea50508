use utah::dataframe::{DataFrame, Entry};
use utah::ops::{Aggregate, Constructor, MixedDataframeConstructor, Operations, Process, ToDataFrame, Transform};
use utah::traits::{Empty, Identifier, Num};
use utah::types::{ErrorKind, ImputeStrategy, InnerType, OuterType, UtahAxis};

fn f(x: f64) -> InnerType {
    InnerType::Float(x.to_bits())
}

fn i(x: i64) -> InnerType {
    InnerType::Int64(x)
}

fn s(x: &str) -> OuterType {
    OuterType::Str(String::from(x))
}

fn small_frame() -> DataFrame {
    // rows a, b over columns x, y
    let data = vec![vec![i(1), i(2)], vec![i(3), i(4)]];
    let df = DataFrame::new(data);
    let df = df.index(vec![s("a"), s("b")]).unwrap();
    df.columns(vec![s("x"), s("y")]).unwrap()
}

#[test]
fn round_trip_row_traversal() {
    let df = small_frame();
    let rebuilt = df.df_iter(UtahAxis::Row).as_df().unwrap();
    assert!(rebuilt.data == df.data);
    assert!(rebuilt.index == df.index);
    assert!(rebuilt.columns == df.columns);
}

#[test]
fn round_trip_column_traversal() {
    let df = small_frame();
    let rebuilt = df.df_iter(UtahAxis::Column).as_df().unwrap();
    assert!(rebuilt.data == df.data);
    assert!(rebuilt.index == df.index);
    assert!(rebuilt.columns == df.columns);
}

#[test]
fn select_keeps_only_named_pairs() {
    let df = small_frame();
    let sel = df.df_iter(UtahAxis::Row).select(&vec![s("b")]).as_df().unwrap();
    assert!(sel.index == vec![s("b")]);
    assert!(sel.data == vec![vec![i(3), i(4)]]);
}

#[test]
fn select_unknown_name_is_silently_absent() {
    let df = small_frame();
    let sel = df.df_iter(UtahAxis::Row).select(&vec![s("zz")]).as_df().unwrap();
    assert!(sel.index.is_empty());
    assert!(sel.data.is_empty());
    assert!(sel.columns == vec![s("x"), s("y")]);
}

#[test]
fn select_remove_partition_identifiers() {
    let df = small_frame();
    let names = vec![s("a")];
    let sel = df.df_iter(UtahAxis::Row).select(&names).as_df().unwrap();
    let rem = df.df_iter(UtahAxis::Row).remove(&names).as_df().unwrap();
    assert!(sel.index == vec![s("a")]);
    assert!(rem.index == vec![s("b")]);
    let mut all = sel.index.clone();
    all.extend(rem.index.clone());
    assert!(all == df.index);
    for l in sel.index.iter() {
        assert!(!rem.index.contains(l));
    }
}

#[test]
fn append_row_adds_pair_at_end() {
    let mut df = small_frame();
    let r = df.append(s("c"), vec![i(5), i(6)], UtahAxis::Row);
    assert!(r.is_ok());
    assert!(df.index == vec![s("a"), s("b"), s("c")]);
    assert!(df.data == vec![vec![i(1), i(2)], vec![i(3), i(4)], vec![i(5), i(6)]]);
}

#[test]
fn append_column_wrong_length_fails_and_leaves_frame_unmodified() {
    let mut df = small_frame();
    let before_data = df.data.clone();
    let before_index = df.index.clone();
    let before_columns = df.columns.clone();
    let r = df.append(s("z"), vec![i(7), i(8), i(9)], UtahAxis::Column);
    assert!(r == Err(ErrorKind::DimensionMismatch));
    assert!(df.data == before_data);
    assert!(df.index == before_index);
    assert!(df.columns == before_columns);
}

#[test]
fn append_column_adds_one_cell_per_row() {
    let mut df = small_frame();
    let r = df.append(s("z"), vec![i(7), i(8)], UtahAxis::Column);
    assert!(r.is_ok());
    assert!(df.columns == vec![s("x"), s("y"), s("z")]);
    assert!(df.data == vec![vec![i(1), i(2), i(7)], vec![i(3), i(4), i(8)]]);
}

#[test]
fn concat_rows_and_dimension_check() {
    let a = small_frame();
    let b = DataFrame::new(vec![vec![i(9), i(10)]]);
    let c = a.concat(&b, UtahAxis::Row).unwrap();
    assert!(c.data == vec![vec![i(1), i(2)], vec![i(3), i(4)], vec![i(9), i(10)]]);
    let narrow = DataFrame::new(vec![vec![i(9)]]);
    assert!(matches!(a.concat(&narrow, UtahAxis::Row), Err(ErrorKind::DimensionMismatch)));
}

#[test]
fn concat_columns_extends_each_row() {
    let a = small_frame();
    let b = DataFrame::new(vec![vec![i(9)], vec![i(10)]]);
    let c = a.concat(&b, UtahAxis::Column).unwrap();
    assert!(c.data == vec![vec![i(1), i(2), i(9)], vec![i(3), i(4), i(10)]]);
    let tall = DataFrame::new(vec![vec![i(9)], vec![i(10)], vec![i(11)]]);
    assert!(matches!(a.concat(&tall, UtahAxis::Column), Err(ErrorKind::DimensionMismatch)));
}

#[test]
fn inner_join_keeps_shared_row_identifiers() {
    let a = DataFrame::new(vec![vec![i(1)], vec![i(2)], vec![i(3)]])
        .index(vec![s("a"), s("b"), s("c")])
        .unwrap();
    let b = DataFrame::new(vec![vec![i(10)], vec![i(20)], vec![i(30)]])
        .index(vec![s("b"), s("c"), s("d")])
        .unwrap();
    let j = a.inner_left_join(&b);
    assert!(j.index == vec![s("b"), s("c")]);
    assert!(j.data == vec![vec![i(2), i(10)], vec![i(3), i(20)]]);
    let jr = a.inner_right_join(&b);
    assert!(jr.index == vec![s("b"), s("c")]);
    assert!(jr.data == vec![vec![i(2), i(10)], vec![i(3), i(20)]]);
}

#[test]
fn outer_join_unions_rows_with_empty_padding() {
    let a = DataFrame::new(vec![vec![i(1)], vec![i(2)], vec![i(3)]])
        .index(vec![s("a"), s("b"), s("c")])
        .unwrap();
    let b = DataFrame::new(vec![vec![i(10)], vec![i(20)], vec![i(30)]])
        .index(vec![s("b"), s("c"), s("d")])
        .unwrap();
    let j = a.outer_left_join(&b);
    assert!(j.index == vec![s("a"), s("b"), s("c"), s("d")]);
    // B's column is Empty on row a; A's column is Empty on row d.
    assert!(j.data == vec![
        vec![i(1), InnerType::Empty],
        vec![i(2), i(10)],
        vec![i(3), i(20)],
        vec![InnerType::Empty, i(30)],
    ]);
    let jr = a.outer_right_join(&b);
    assert!(jr.index == vec![s("b"), s("c"), s("d"), s("a")]);
    assert!(jr.data == vec![
        vec![i(2), i(10)],
        vec![i(3), i(20)],
        vec![InnerType::Empty, i(30)],
        vec![i(1), InnerType::Empty],
    ]);
}

#[test]
fn aggregates_skip_empty_cells() {
    let v = vec![f(1.0), InnerType::Empty, f(3.0)];
    assert!(utah::aggregate::sum_vector(&v) == f(4.0));
    assert!(utah::aggregate::mean_vector(&v) == f(2.0));
    assert!(utah::aggregate::max_vector(&v) == f(3.0));
    assert!(utah::aggregate::min_vector(&v) == f(1.0));
}

#[test]
fn aggregates_of_all_empty_yield_empty() {
    let v = vec![InnerType::Empty, InnerType::Empty];
    assert!(utah::aggregate::sum_vector(&v) == InnerType::Empty);
    assert!(utah::aggregate::mean_vector(&v) == InnerType::Empty);
    assert!(utah::aggregate::max_vector(&v) == InnerType::Empty);
    assert!(utah::aggregate::min_vector(&v) == InnerType::Empty);
}

#[test]
fn whole_frame_aggregation_is_labeled_per_group() {
    let df = small_frame();
    let sums = df.sumdf(UtahAxis::Column);
    assert!(sums.labels == vec![s("x"), s("y")]);
    assert!(sums.values == vec![i(4), i(6)]);
    let maxs = df.maxdf(UtahAxis::Row);
    assert!(maxs.labels == vec![s("a"), s("b")]);
    assert!(maxs.as_array() == vec![i(2), i(4)]);
}

#[test]
fn integer_mean_divides_by_nonempty_count() {
    let v = vec![i(1), InnerType::Empty, i(2), i(4)];
    assert!(utah::aggregate::mean_vector(&v) == i(2));
}

#[test]
fn impute_fills_empty_cells_with_strategy_value() {
    let v = vec![f(1.0), InnerType::Empty, f(3.0)];
    let mean = utah::process::impute_vector(&v, ImputeStrategy::Mean);
    assert!(mean == vec![f(1.0), f(2.0), f(3.0)]);
    let max = utah::process::impute_vector(&v, ImputeStrategy::Max);
    assert!(max == vec![f(1.0), f(3.0), f(3.0)]);
    let min = utah::process::impute_vector(&v, ImputeStrategy::Min);
    assert!(min == vec![f(1.0), f(1.0), f(3.0)]);
}

#[test]
fn impute_is_idempotent() {
    let clean = vec![f(1.0), f(2.0)];
    assert!(utah::process::impute_vector(&clean, ImputeStrategy::Mean) == clean);
    let v = vec![f(1.0), InnerType::Empty, f(3.0)];
    let once = utah::process::impute_vector(&v, ImputeStrategy::Mean);
    let twice = utah::process::impute_vector(&once, ImputeStrategy::Mean);
    assert!(twice == once);
}

#[test]
fn impute_of_all_empty_vector_is_unchanged() {
    let v = vec![InnerType::Empty, InnerType::Empty];
    assert!(utah::process::impute_vector(&v, ImputeStrategy::Mean) == v);
}

#[test]
fn impute_along_columns() {
    let df = DataFrame::new(vec![vec![f(1.0), f(10.0)], vec![InnerType::Empty, f(20.0)]]);
    let out = df.df_iter_mut(UtahAxis::Column).impute(ImputeStrategy::Mean).to_mut_df();
    assert!(out.data == vec![vec![f(1.0), f(10.0)], vec![f(1.0), f(20.0)]]);
}

#[test]
fn impute_along_rows_through_mutable_traversal() {
    let df = DataFrame::new(vec![vec![f(2.0), InnerType::Empty, f(4.0)]]);
    let out = df.df_iter_mut(UtahAxis::Row).impute(ImputeStrategy::Mean).to_mut_df();
    assert!(out.data == vec![vec![f(2.0), f(3.0), f(4.0)]]);
}

#[test]
fn map_applies_transform_to_every_cell() {
    let df = small_frame();
    let out = df
        .df_iter_mut(UtahAxis::Row)
        .mapdf(|v| match v {
            InnerType::Int64(x) => InnerType::Int64(x + 1),
            other => other,
        })
        .to_mut_df();
    assert!(out.data == vec![vec![i(2), i(3)], vec![i(4), i(5)]]);
}

#[test]
fn mutable_traversal_returns_the_frame() {
    let df = small_frame();
    let back = df.df_iter_mut(UtahAxis::Row).to_mut_df();
    assert!(back.data == small_frame().data);
    assert!(back.index == small_frame().index);
}

#[test]
fn parse_prefers_floating_point() {
    assert!(InnerType::from_str("3.5") == Ok(f(3.5)));
    assert!(InnerType::from_str("-2.5") == Ok(f(-2.5)));
    assert!(InnerType::from_str("1e3") == Ok(f(1000.0)));
    assert!(InnerType::from_str("7") == Ok(f(7.0)));
}

#[test]
fn parse_falls_back_to_text() {
    assert!(InnerType::from_str("hello") == Ok(InnerType::Str(String::from("hello"))));
    assert!(InnerType::from_str("") == Ok(InnerType::Str(String::new())));
}

#[test]
fn positional_access_errors() {
    let df = small_frame();
    assert!(df.get(0, 1) == Ok(i(2)));
    assert!(df.get(5, 0) == Err(ErrorKind::IndexOutOfBounds));
    assert!(df.get(0, 5) == Err(ErrorKind::ColumnOutOfBounds));
}

#[test]
fn label_replacement_checks_lengths() {
    let df = small_frame();
    assert!(matches!(df.clone().index(vec![s("only")]), Err(ErrorKind::DimensionMismatch)));
    let relabeled = df.index(vec![s("p"), s("q")]).unwrap();
    assert!(relabeled.index == vec![s("p"), s("q")]);
    assert!(relabeled.clone().columns(vec![s("u")]).is_err());
}

#[test]
fn from_array_builds_single_row_or_column() {
    let row = DataFrame::from_array(vec![i(1), i(2)], UtahAxis::Row);
    assert!(row.shape() == (1, 2));
    assert!(row.data == vec![vec![i(1), i(2)]]);
    let col = DataFrame::from_array(vec![i(1), i(2)], UtahAxis::Column);
    assert!(col.shape() == (2, 1));
    assert!(col.data == vec![vec![i(1)], vec![i(2)]]);
}

#[test]
fn from_pairs_builds_rows_in_given_order() {
    let entries = vec![
        Entry { label: s("a"), values: vec![i(1), i(2)] },
        Entry { label: s("b"), values: vec![i(3), i(4)] },
    ];
    let df = DataFrame::from_pairs(entries).unwrap();
    assert!(df.index == vec![s("a"), s("b")]);
    assert!(df.data == vec![vec![i(1), i(2)], vec![i(3), i(4)]]);
    assert!(df.columns == vec![OuterType::USize(0), OuterType::USize(1)]);
    let ragged = vec![
        Entry { label: s("a"), values: vec![i(1), i(2)] },
        Entry { label: s("b"), values: vec![i(3)] },
    ];
    assert!(matches!(DataFrame::from_pairs(ragged), Err(ErrorKind::DimensionMismatch)));
}

#[test]
fn traversal_append_then_materialize() {
    let df = small_frame();
    let out = df
        .df_iter(UtahAxis::Row)
        .append(s("c"), vec![i(5), i(6)])
        .unwrap()
        .as_df()
        .unwrap();
    assert!(out.index == vec![s("a"), s("b"), s("c")]);
    assert!(out.data == vec![vec![i(1), i(2)], vec![i(3), i(4)], vec![i(5), i(6)]]);
    let bad = small_frame().df_iter(UtahAxis::Row).append(s("c"), vec![i(5)]);
    assert!(bad.is_err());
}

#[test]
fn traversal_next_walks_pairs_in_order() {
    let df = small_frame();
    let mut it = df.df_iter(UtahAxis::Row);
    let first = it.next().unwrap();
    assert!(first.label == s("a"));
    assert!(first.values == vec![i(1), i(2)]);
    let second = it.next().unwrap();
    assert!(second.label == s("b"));
    assert!(it.next().is_none());
}

#[test]
fn as_matrix_and_as_array() {
    let df = small_frame();
    let m = df.df_iter(UtahAxis::Row).as_matrix().unwrap();
    assert!(m == vec![vec![i(1), i(2)], vec![i(3), i(4)]]);
    let a = df.df_iter(UtahAxis::Row).as_array().unwrap();
    assert!(a == vec![i(1), i(2), i(3), i(4)]);
}

#[test]
fn float_arithmetic_is_ieee_double() {
    assert!(f(1.5).add(f(2.25)) == f(3.75));
    assert!(f(5.5).sub(f(2.25)) == f(3.25));
    assert!(f(2.5).mul(f(4.0)) == f(10.0));
    assert!(f(7.5).div(f(2.0)) == f(3.75));
}

#[test]
fn integer_arithmetic_yields_empty_on_overflow_or_zero_division() {
    assert!(i(i64::MAX).add(i(1)) == InnerType::Empty);
    assert!(i(i64::MIN).sub(i(1)) == InnerType::Empty);
    assert!(i(i64::MAX).mul(i(2)) == InnerType::Empty);
    assert!(i(7).div(i(0)) == InnerType::Empty);
    assert!(i(7).div(i(2)) == i(3));
    assert!(i(-7).div(i(2)) == i(-3));
    assert!(i(3).add(i(4)) == i(7));
    assert!(InnerType::Int32(2).mul(InnerType::Int32(3)) == InnerType::Int32(6));
}

#[test]
fn mixed_kind_arithmetic_yields_empty() {
    assert!(i(1).add(f(2.0)) == InnerType::Empty);
    assert!(InnerType::Str(String::from("a")).add(InnerType::Str(String::from("b")))
        == InnerType::Empty);
}

#[test]
fn capability_contracts_on_scalars() {
    assert!(InnerType::empty().is_empty());
    assert!(!i(0).is_empty());
    assert!(<InnerType as Num>::zero() == f(0.0));
    assert!(<InnerType as Num>::one() == f(1.0));
    assert!(OuterType::from_text(String::from("k")) == s("k"));
    assert!(s("k").key_eq(&s("k")));
    assert!(!s("k").key_eq(&s("m")));
    assert!(!s("k").key_eq(&OuterType::Int64(1)));
}

#[test]
fn conversions_into_scalar_kinds() {
    assert!(InnerType::from(5i64) == i(5));
    assert!(InnerType::from(5i32) == InnerType::Int32(5));
    assert!(InnerType::from(String::from("t")) == InnerType::Str(String::from("t")));
    assert!(OuterType::from(5i64) == OuterType::Int64(5));
    assert!(OuterType::from(7usize) == OuterType::USize(7));
    assert!(OuterType::from(String::from("t")) == s("t"));
}

#[test]
fn shape_reports_rows_and_columns() {
    let df = small_frame();
    assert!(df.shape() == (2, 2));
}

#[test]
fn operations_trait_surface() {
    let df = small_frame();
    let d = Operations::select(&df, &vec![s("a")], UtahAxis::Row).as_df().unwrap();
    assert!(d.index == vec![s("a")]);
    let r = Operations::remove(&df, &vec![s("a")], UtahAxis::Row).as_df().unwrap();
    assert!(r.index == vec![s("b")]);
    let agg = Operations::sumdf(&df, UtahAxis::Row);
    assert!(agg.values == vec![i(3), i(7)]);
    let mapped = Operations::map(small_frame(), |v| v, UtahAxis::Row);
    assert!(mapped.data == small_frame().data);
    let imputed = Operations::impute(
        DataFrame::new(vec![vec![f(2.0), InnerType::Empty]]),
        ImputeStrategy::Max,
        UtahAxis::Row,
    );
    assert!(imputed.data == vec![vec![f(2.0), f(2.0)]]);
}

#[test]
fn constructor_trait_surface() {
    let df: DataFrame = Constructor::new(vec![vec![i(1), i(2)]]);
    assert!(df.shape() == (1, 2));
    let it = Constructor::df_iter(&df, UtahAxis::Row);
    assert!(it.entries.len() == 1);
    let built: DataFrame = MixedDataframeConstructor::from_pairs(vec![Entry {
        label: s("a"),
        values: vec![i(1)],
    }])
    .unwrap();
    assert!(built.index == vec![s("a")]);
}

#[test]
fn traversal_trait_surfaces() {
    let df = small_frame();
    let it = Transform::select(df.df_iter(UtahAxis::Row), &vec![s("b")]);
    let m = ToDataFrame::as_matrix(it).unwrap();
    assert!(m == vec![vec![i(3), i(4)]]);
    let agg = Aggregate::mean(df.df_iter(UtahAxis::Row));
    assert!(agg.values == vec![i(1), i(3)]);
}

#[test]
fn process_trait_surface() {
    let df = DataFrame::new(vec![vec![f(1.0), InnerType::Empty, f(3.0)]]);
    let out = Process::to_mut_df(Process::impute(
        df.df_iter_mut(UtahAxis::Row),
        ImputeStrategy::Min,
    ));
    assert!(out.data == vec![vec![f(1.0), f(1.0), f(3.0)]]);
}
