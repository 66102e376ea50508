use vstd::prelude::*;

verus! {

/// Bridge between a vector's element-wise view and its deep view: indexing
/// commutes with taking the deep view.
pub broadcast proof fn lemma_deep_view_index<T: DeepView>(v: Vec<T>, i: int)
    requires
        0 <= i < v@.len(),
    ensures
        #[trigger] v.deep_view()[i] == v@[i].deep_view(),
{
}

/// Bridge between a vector's length and its deep view's length.
pub broadcast proof fn lemma_deep_view_len<T: DeepView>(v: Vec<T>)
    ensures
        #[trigger] v.deep_view().len() == v@.len(),
{
}

/// Membership in a sequence extended by one element.
pub proof fn lemma_push_contains<T>(s: Seq<T>, x: T, y: T)
    ensures
        s.push(x).contains(y) <==> (s.contains(y) || x == y),
{
    if s.push(x).contains(y) {
        let i = choose|i: int| 0 <= i < s.push(x).len() && s.push(x)[i] == y;
        if i < s.len() {
            assert(s[i] == y);
        }
    }
    if s.contains(y) {
        let i = choose|i: int| 0 <= i < s.len() && s[i] == y;
        assert(s.push(x)[i] == y);
    }
    if x == y {
        assert(s.push(x)[s.len() as int] == y);
    }
}

/// The two traversal directions of a dataframe.
#[derive(Clone, Copy, PartialEq, Eq, Structural, Debug)]
pub enum UtahAxis {
    Row,
    Column,
}

/// Rule used to compute the fill value for `Empty` cells in a vector.
#[derive(Clone, Copy, PartialEq, Eq, Structural, Debug)]
pub enum ImputeStrategy {
    Mean,
    Max,
    Min,
}

/// The closed set of error kinds raised by fallible operations.
#[derive(Debug, PartialEq)]
pub enum ErrorKind {
    /// Text could not be converted to any recognized cell-value kind.
    ParseError(String),
    /// An operand's size disagrees with the frame's orthogonal axis.
    DimensionMismatch,
    /// A label was required but absent.
    LabelNotFound,
    /// Invalid positional row access to the backing matrix.
    IndexOutOfBounds,
    /// Invalid positional column access to the backing matrix.
    ColumnOutOfBounds,
}

/// Cell value: the closed tagged scalar used for array contents.
///
/// A floating-point cell carries the IEEE 754 binary64 bit pattern of its
/// value, so the matrix itself stays free of machine floats; arithmetic on
/// such cells is delegated to a software float library at the crate's
/// trusted boundary.
pub enum InnerType {
    Float(u64),
    Int64(i64),
    Int32(i32),
    Str(String),
    Empty,
}

/// Identifier value: the closed tagged scalar used for row/column labels.
///
/// A date label carries a timestamp (seconds since the epoch) rather than a
/// calendar-library value, so label equality and ordering stay plain.
pub enum OuterType {
    Str(String),
    Date(i64),
    Int64(i64),
    Int32(i32),
    USize(usize),
    Empty,
}

/// Mathematical model of a cell value: text is a sequence of characters.
pub enum InnerVal {
    Float(u64),
    Int64(i64),
    Int32(i32),
    Str(Seq<char>),
    Empty,
}

/// Mathematical model of an identifier value.
pub enum OuterVal {
    Str(Seq<char>),
    Date(i64),
    Int64(i64),
    Int32(i32),
    USize(usize),
    Empty,
}

impl View for InnerType {
    type V = InnerVal;

    open spec fn view(&self) -> InnerVal {
        match self {
            InnerType::Float(b) => InnerVal::Float(*b),
            InnerType::Int64(x) => InnerVal::Int64(*x),
            InnerType::Int32(x) => InnerVal::Int32(*x),
            InnerType::Str(s) => InnerVal::Str(s@),
            InnerType::Empty => InnerVal::Empty,
        }
    }
}

impl DeepView for InnerType {
    type V = InnerVal;

    open spec fn deep_view(&self) -> InnerVal {
        self.view()
    }
}

impl View for OuterType {
    type V = OuterVal;

    open spec fn view(&self) -> OuterVal {
        match self {
            OuterType::Str(s) => OuterVal::Str(s@),
            OuterType::Date(t) => OuterVal::Date(*t),
            OuterType::Int64(x) => OuterVal::Int64(*x),
            OuterType::Int32(x) => OuterVal::Int32(*x),
            OuterType::USize(x) => OuterVal::USize(*x),
            OuterType::Empty => OuterVal::Empty,
        }
    }
}

impl DeepView for OuterType {
    type V = OuterVal;

    open spec fn deep_view(&self) -> OuterVal {
        self.view()
    }
}

impl Clone for InnerType {
    fn clone(&self) -> (r: Self)
        ensures
            r == *self,
    {
        match self {
            InnerType::Float(b) => InnerType::Float(*b),
            InnerType::Int64(x) => InnerType::Int64(*x),
            InnerType::Int32(x) => InnerType::Int32(*x),
            InnerType::Str(s) => InnerType::Str(s.clone()),
            InnerType::Empty => InnerType::Empty,
        }
    }
}

impl Clone for OuterType {
    fn clone(&self) -> (r: Self)
        ensures
            r == *self,
    {
        match self {
            OuterType::Str(s) => OuterType::Str(s.clone()),
            OuterType::Date(t) => OuterType::Date(*t),
            OuterType::Int64(x) => OuterType::Int64(*x),
            OuterType::Int32(x) => OuterType::Int32(*x),
            OuterType::USize(x) => OuterType::USize(*x),
            OuterType::Empty => OuterType::Empty,
        }
    }
}

impl PartialEq for InnerType {
    fn eq(&self, other: &Self) -> (r: bool) {
        match (self, other) {
            (InnerType::Float(a), InnerType::Float(b)) => a == b,
            (InnerType::Int64(a), InnerType::Int64(b)) => a == b,
            (InnerType::Int32(a), InnerType::Int32(b)) => a == b,
            (InnerType::Str(a), InnerType::Str(b)) => *a == *b,
            (InnerType::Empty, InnerType::Empty) => true,
            _ => false,
        }
    }
}

impl vstd::std_specs::cmp::PartialEqSpecImpl for InnerType {
    open spec fn obeys_eq_spec() -> bool {
        true
    }

    open spec fn eq_spec(&self, other: &Self) -> bool {
        self@ == other@
    }
}

impl PartialEq for OuterType {
    fn eq(&self, other: &Self) -> (r: bool) {
        match (self, other) {
            (OuterType::Str(a), OuterType::Str(b)) => *a == *b,
            (OuterType::Date(a), OuterType::Date(b)) => a == b,
            (OuterType::Int64(a), OuterType::Int64(b)) => a == b,
            (OuterType::Int32(a), OuterType::Int32(b)) => a == b,
            (OuterType::USize(a), OuterType::USize(b)) => a == b,
            (OuterType::Empty, OuterType::Empty) => true,
            _ => false,
        }
    }
}

impl vstd::std_specs::cmp::PartialEqSpecImpl for OuterType {
    open spec fn obeys_eq_spec() -> bool {
        true
    }

    open spec fn eq_spec(&self, other: &Self) -> bool {
        self@ == other@
    }
}

impl From<i64> for InnerType {
    fn from(i: i64) -> (r: InnerType) {
        InnerType::Int64(i)
    }
}

impl vstd::std_specs::convert::FromSpecImpl<i64> for InnerType {
    open spec fn obeys_from_spec() -> bool {
        true
    }

    open spec fn from_spec(i: i64) -> InnerType {
        InnerType::Int64(i)
    }
}

impl From<i32> for InnerType {
    fn from(i: i32) -> (r: InnerType) {
        InnerType::Int32(i)
    }
}

impl vstd::std_specs::convert::FromSpecImpl<i32> for InnerType {
    open spec fn obeys_from_spec() -> bool {
        true
    }

    open spec fn from_spec(i: i32) -> InnerType {
        InnerType::Int32(i)
    }
}

impl From<String> for InnerType {
    fn from(s: String) -> (r: InnerType) {
        InnerType::Str(s)
    }
}

impl vstd::std_specs::convert::FromSpecImpl<String> for InnerType {
    open spec fn obeys_from_spec() -> bool {
        true
    }

    open spec fn from_spec(s: String) -> InnerType {
        InnerType::Str(s)
    }
}

impl From<i64> for OuterType {
    fn from(i: i64) -> (r: OuterType) {
        OuterType::Int64(i)
    }
}

impl vstd::std_specs::convert::FromSpecImpl<i64> for OuterType {
    open spec fn obeys_from_spec() -> bool {
        true
    }

    open spec fn from_spec(i: i64) -> OuterType {
        OuterType::Int64(i)
    }
}

impl From<i32> for OuterType {
    fn from(i: i32) -> (r: OuterType) {
        OuterType::Int32(i)
    }
}

impl vstd::std_specs::convert::FromSpecImpl<i32> for OuterType {
    open spec fn obeys_from_spec() -> bool {
        true
    }

    open spec fn from_spec(i: i32) -> OuterType {
        OuterType::Int32(i)
    }
}

impl From<usize> for OuterType {
    fn from(i: usize) -> (r: OuterType) {
        OuterType::USize(i)
    }
}

impl vstd::std_specs::convert::FromSpecImpl<usize> for OuterType {
    open spec fn obeys_from_spec() -> bool {
        true
    }

    open spec fn from_spec(i: usize) -> OuterType {
        OuterType::USize(i)
    }
}

impl From<String> for OuterType {
    fn from(s: String) -> (r: OuterType) {
        OuterType::Str(s)
    }
}

impl vstd::std_specs::convert::FromSpecImpl<String> for OuterType {
    open spec fn obeys_from_spec() -> bool {
        true
    }

    open spec fn from_spec(s: String) -> OuterType {
        OuterType::Str(s)
    }
}

} // verus!
