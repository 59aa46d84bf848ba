//! The compiled statement as the engine describes it: for each result column
//! its name, its declared type and its origin, each as raw bytes.

use vstd::prelude::*;
use vstd::utf8::valid_utf8;

verus! {

/// Where a result column comes from: the database, the table and the
/// column name before any alias.
pub struct ColumnOrigin {
    pub database: Vec<u8>,
    pub table: Vec<u8>,
    pub column: Vec<u8>,
}

/// What the engine reports for one result column. Computed columns have no
/// origin, and usually no declared type.
pub struct RawColumn {
    pub name: Vec<u8>,
    pub decl_type: Option<Vec<u8>>,
    pub origin: Option<ColumnOrigin>,
}

/// The abstract content of a [`RawColumn`].
pub struct ColumnInfo {
    pub name: Seq<u8>,
    pub decl_type: Option<Seq<u8>>,
    pub origin: Option<(Seq<u8>, Seq<u8>, Seq<u8>)>,
}

impl View for ColumnOrigin {
    type V = (Seq<u8>, Seq<u8>, Seq<u8>);

    open spec fn view(&self) -> (Seq<u8>, Seq<u8>, Seq<u8>) {
        (self.database@, self.table@, self.column@)
    }
}

impl View for RawColumn {
    type V = ColumnInfo;

    open spec fn view(&self) -> ColumnInfo {
        ColumnInfo {
            name: self.name@,
            decl_type: match self.decl_type {
                Some(t) => Some(t@),
                None => None,
            },
            origin: match self.origin {
                Some(o) => Some(o@),
                None => None,
            },
        }
    }
}

/// Every byte string of the column is well-formed UTF-8.
pub open spec fn is_text(c: ColumnInfo) -> bool {
    &&& valid_utf8(c.name)
    &&& (c.decl_type matches Some(t) ==> valid_utf8(t))
    &&& (c.origin matches Some(o) ==> valid_utf8(o.0) && valid_utf8(o.1) && valid_utf8(o.2))
}

/// The database a column comes from, if it has an origin.
pub open spec fn origin_database(c: ColumnInfo) -> Option<Seq<u8>> {
    match c.origin {
        Some(o) => Some(o.0),
        None => None,
    }
}

/// The table a column comes from, if it has an origin.
pub open spec fn origin_table(c: ColumnInfo) -> Option<Seq<u8>> {
    match c.origin {
        Some(o) => Some(o.1),
        None => None,
    }
}

/// The column name before any alias, if the column has an origin.
pub open spec fn origin_column(c: ColumnInfo) -> Option<Seq<u8>> {
    match c.origin {
        Some(o) => Some(o.2),
        None => None,
    }
}

/// The bytes behind an optional borrowed byte string.
pub open spec fn bytes_of(o: Option<&[u8]>) -> Option<Seq<u8>> {
    match o {
        Some(b) => Some(b@),
        None => None,
    }
}

/// The metadata of column `i` of `cols`, picked by `f`; `None` where `i` is
/// out of range.
pub open spec fn field_at(
    cols: Seq<ColumnInfo>,
    i: int,
    f: spec_fn(ColumnInfo) -> Option<Seq<u8>>,
) -> Option<Seq<u8>> {
    if 0 <= i < cols.len() {
        f(cols[i])
    } else {
        None
    }
}

/// A compiled statement's result columns, in order. All of its metadata is
/// text: the engine is expected to hand out UTF-8 only.
pub struct RawStatement {
    columns: Vec<RawColumn>,
}

impl View for RawStatement {
    type V = Seq<ColumnInfo>;

    closed spec fn view(&self) -> Seq<ColumnInfo> {
        self.columns@.map_values(|c: RawColumn| c@)
    }
}

impl RawStatement {
    #[verifier::type_invariant]
    spec fn all_text(&self) -> bool {
        forall|i: int| 0 <= i < self.columns@.len() ==> is_text(#[trigger] self.columns@[i]@)
    }

    /// A statement whose result columns are `columns`, in that order.
    pub fn new(columns: Vec<RawColumn>) -> (r: Self)
        requires
            forall|i: int| 0 <= i < columns@.len() ==> is_text(#[trigger] columns@[i]@),
        ensures
            r@ == columns@.map_values(|c: RawColumn| c@),
    {
        RawStatement { columns }
    }

    /// The number of result columns.
    pub fn column_count(&self) -> (r: usize)
        ensures
            r == self@.len(),
    {
        self.columns.len()
    }

    /// The name of column `i`, or `None` where `i` is out of range.
    pub fn column_name(&self, i: usize) -> (r: Option<&[u8]>)
        ensures
            bytes_of(r) == field_at(self@, i as int, |c: ColumnInfo| Some(c.name)),
            i < self@.len() ==> is_text(self@[i as int]),
    {
        proof {
            use_type_invariant(self);
        }
        if i < self.columns.len() {
            Some(self.columns[i].name.as_slice())
        } else {
            None
        }
    }

    /// The declared type of column `i`; `None` for an expression or where
    /// `i` is out of range.
    pub fn column_decltype(&self, i: usize) -> (r: Option<&[u8]>)
        ensures
            bytes_of(r) == field_at(self@, i as int, |c: ColumnInfo| c.decl_type),
            i < self@.len() ==> is_text(self@[i as int]),
    {
        proof {
            use_type_invariant(self);
        }
        if i < self.columns.len() {
            match &self.columns[i].decl_type {
                Some(t) => Some(t.as_slice()),
                None => None,
            }
        } else {
            None
        }
    }

    /// The database that column `i` comes from; `None` for a computed
    /// column or where `i` is out of range.
    pub fn column_database_name(&self, i: usize) -> (r: Option<&[u8]>)
        ensures
            bytes_of(r) == field_at(self@, i as int, |c: ColumnInfo| origin_database(c)),
            i < self@.len() ==> is_text(self@[i as int]),
    {
        proof {
            use_type_invariant(self);
        }
        if i < self.columns.len() {
            match &self.columns[i].origin {
                Some(o) => Some(o.database.as_slice()),
                None => None,
            }
        } else {
            None
        }
    }

    /// The table that column `i` comes from; `None` for a computed column or
    /// where `i` is out of range.
    pub fn column_table_name(&self, i: usize) -> (r: Option<&[u8]>)
        ensures
            bytes_of(r) == field_at(self@, i as int, |c: ColumnInfo| origin_table(c)),
            i < self@.len() ==> is_text(self@[i as int]),
    {
        proof {
            use_type_invariant(self);
        }
        if i < self.columns.len() {
            match &self.columns[i].origin {
                Some(o) => Some(o.table.as_slice()),
                None => None,
            }
        } else {
            None
        }
    }

    /// The name, before any alias, of the table column that column `i`
    /// reads; `None` for a computed column or where `i` is out of range.
    pub fn column_origin_name(&self, i: usize) -> (r: Option<&[u8]>)
        ensures
            bytes_of(r) == field_at(self@, i as int, |c: ColumnInfo| origin_column(c)),
            i < self@.len() ==> is_text(self@[i as int]),
    {
        proof {
            use_type_invariant(self);
        }
        if i < self.columns.len() {
            match &self.columns[i].origin {
                Some(o) => Some(o.column.as_slice()),
                None => None,
            }
        } else {
            None
        }
    }
}

} // verus!
