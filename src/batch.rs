//! The in-memory batch that generated columns are resolved on: named columns
//! of nullable cells, all of one row count.
use vstd::prelude::*;

verus! {

/// The logical types a generated column may declare.
#[derive(Clone, Copy, Debug, PartialEq, Eq, Structural)]
pub enum DataType {
    Boolean,
    Integer,
    Long,
    Date,
    Utf8,
}

/// A non-null cell value.
#[derive(Clone, Debug)]
pub enum Scalar {
    Boolean(bool),
    Integer(i32),
    Long(i64),
    /// Days since the Unix epoch.
    Date(i32),
    Utf8(String),
}

/// Whether a value already has the type `t`.
pub open spec fn conforms(v: Scalar, t: DataType) -> bool {
    match v {
        Scalar::Boolean(_) => t == DataType::Boolean,
        Scalar::Integer(_) => t == DataType::Integer,
        Scalar::Long(_) => t == DataType::Long,
        Scalar::Date(_) => t == DataType::Date,
        Scalar::Utf8(_) => t == DataType::Utf8,
    }
}

impl Scalar {
    /// A copy of this value.
    pub fn duplicate(&self) -> (r: Scalar)
        ensures
            r == *self,
    {
        match self {
            Scalar::Boolean(b) => Scalar::Boolean(*b),
            Scalar::Integer(x) => Scalar::Integer(*x),
            Scalar::Long(x) => Scalar::Long(*x),
            Scalar::Date(x) => Scalar::Date(*x),
            Scalar::Utf8(s) => Scalar::Utf8(s.clone()),
        }
    }

    /// Whether this value has the type `t`.
    pub fn has_type(&self, t: DataType) -> (r: bool)
        ensures
            r == conforms(*self, t),
    {
        match self {
            Scalar::Boolean(_) => t == DataType::Boolean,
            Scalar::Integer(_) => t == DataType::Integer,
            Scalar::Long(_) => t == DataType::Long,
            Scalar::Date(_) => t == DataType::Date,
            Scalar::Utf8(_) => t == DataType::Utf8,
        }
    }
}

/// A copy of a nullable cell.
pub fn duplicate_cell(c: &Option<Scalar>) -> (r: Option<Scalar>)
    ensures
        r == *c,
{
    match c {
        None => None,
        Some(v) => Some(v.duplicate()),
    }
}

/// One named column; `data_type` is `None` for a placeholder that commits to no type.
#[derive(Clone, Debug)]
pub struct Column {
    pub name: String,
    pub data_type: Option<DataType>,
    pub values: Vec<Option<Scalar>>,
}

/// What a column holds, over mathematical values.
pub struct ColumnView {
    pub name: Seq<char>,
    pub data_type: Option<DataType>,
    pub values: Seq<Option<Scalar>>,
}

impl View for Column {
    type V = ColumnView;

    open spec fn view(&self) -> ColumnView {
        ColumnView { name: self.name@, data_type: self.data_type, values: self.values@ }
    }
}

/// A batch of rows: its columns in schema order, each with `num_rows` cells.
#[derive(Clone, Debug)]
pub struct Batch {
    pub num_rows: usize,
    pub columns: Vec<Column>,
}

/// The columns of a batch as views.
pub open spec fn columns_view(cols: Seq<Column>) -> Seq<ColumnView> {
    cols.map_values(|c: Column| c@)
}

/// Every column holds one cell per row.
pub open spec fn columns_wf(cols: Seq<ColumnView>, num_rows: nat) -> bool {
    forall|i: int| 0 <= i < cols.len() ==> (#[trigger] cols[i]).values.len() == num_rows
}

/// Whether some column is called `name`.
pub open spec fn has_column(cols: Seq<ColumnView>, name: Seq<char>) -> bool {
    exists|i: int| 0 <= i < cols.len() && (#[trigger] cols[i]).name == name
}

impl View for Batch {
    type V = Seq<ColumnView>;

    open spec fn view(&self) -> Seq<ColumnView> {
        columns_view(self.columns@)
    }
}

impl Batch {
    /// Every column of the batch holds one cell per row.
    pub open spec fn wf(&self) -> bool {
        columns_wf(self@, self.num_rows as nat)
    }

    /// The index of a column called `name` when there is one, by unqualified name.
    pub fn find_column(&self, name: &String) -> (r: Option<usize>)
        ensures
            r is None <==> !has_column(self@, name@),
            r matches Some(i) ==> i < self@.len() && self@[i as int].name == name@,
    {
        let mut i: usize = 0;
        while i < self.columns.len()
            invariant
                i <= self.columns@.len(),
                forall|j: int| 0 <= j < i ==> (#[trigger] self@[j]).name != name@,
            decreases self.columns@.len() - i,
        {
            if self.columns[i].name == *name {
                return Some(i);
            }
            i += 1;
        }
        None
    }
}

} // verus!
