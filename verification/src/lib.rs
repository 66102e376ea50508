//! A typed, in-memory tabular-data engine: a dataframe over a dense 2-D
//! matrix of closed scalar kinds, with row/column labels, traversal along
//! either axis, and a combinator library (selection, joins, aggregation,
//! elementwise transforms, missing-value imputation).

pub mod aggregate;
pub mod dataframe;
pub mod join;
pub mod ops;
pub mod process;
pub mod scalar;
pub mod transform;
pub mod traits;
pub mod types;

pub use aggregate::Aggregated;
pub use dataframe::DataFrame;
pub use dataframe::Entry;
pub use process::MutableDataFrame;
pub use transform::DataFrameIterator;
pub use types::ErrorKind;
pub use types::ImputeStrategy;
pub use types::InnerType;
pub use types::InnerVal;
pub use types::OuterType;
pub use types::OuterVal;
pub use types::UtahAxis;
