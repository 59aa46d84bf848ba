//! Views of a prepared statement's result columns, borrowed from the
//! statement, and the lookup of a column's index by its name.

use vstd::prelude::*;
use vstd::string::StringSliceAdditionalSpecFns;
use vstd::utf8::valid_utf8;

use crate::error::Error;
use crate::raw::{ColumnInfo, RawStatement};
use crate::text::{ascii_lower, eq_ignore_ascii_case, eq_ignore_ascii_case_spec, utf8_text};

verus! {

/// The bytes behind an optional borrowed text.
pub open spec fn text_of(o: Option<&str>) -> Option<Seq<u8>> {
    match o {
        Some(s) => Some(s.spec_bytes()),
        None => None,
    }
}

/// Column `i` is the first of `cols` whose name equals `name` up to ASCII
/// case.
pub open spec fn is_first_match(cols: Seq<ColumnInfo>, name: Seq<u8>, i: int) -> bool {
    &&& 0 <= i < cols.len()
    &&& eq_ignore_ascii_case_spec(name, cols[i].name)
    &&& forall|j: int| 0 <= j < i ==> !eq_ignore_ascii_case_spec(name, #[trigger] cols[j].name)
}

/// Some column of `cols` has a name equal to `name` up to ASCII case.
pub open spec fn has_match(cols: Seq<ColumnInfo>, name: Seq<u8>) -> bool {
    exists|i: int| 0 <= i < cols.len() && eq_ignore_ascii_case_spec(name, #[trigger] cols[i].name)
}

/// Reads bytes that are known to be UTF-8 as text.
fn text(b: &[u8]) -> (r: &str)
    requires
        valid_utf8(b@),
    ensures
        r.spec_bytes() == b@,
{
    utf8_text(b).unwrap()
}

/// Information about a column of a query: its name and its declared type.
pub struct Column<'stmt> {
    name: &'stmt str,
    decl_type: Option<&'stmt str>,
}

impl<'stmt> Column<'stmt> {
    /// The bytes of the column's name.
    pub closed spec fn spec_name(&self) -> Seq<u8> {
        self.name.spec_bytes()
    }

    /// The bytes of the column's declared type, if it has one.
    pub closed spec fn spec_decl_type(&self) -> Option<Seq<u8>> {
        text_of(self.decl_type)
    }

    /// Returns the name of the column.
    pub fn name(&self) -> (r: &str)
        ensures
            r.spec_bytes() == self.spec_name(),
    {
        self.name
    }

    /// Returns the declared type of the column (`None` for an expression).
    pub fn decl_type(&self) -> (r: Option<&str>)
        ensures
            text_of(r) == self.spec_decl_type(),
    {
        self.decl_type
    }
}

/// Where a column of a query comes from. The database, the table and the
/// original column name are present together or not at all.
pub struct ColumnMetadata<'stmt> {
    name: &'stmt str,
    origin: Option<(&'stmt str, &'stmt str, &'stmt str)>,
}

impl<'stmt> ColumnMetadata<'stmt> {
    /// The bytes of the column's name in the query results.
    pub closed spec fn spec_name(&self) -> Seq<u8> {
        self.name.spec_bytes()
    }

    /// The bytes of the database, table and original column name, if the
    /// column is read from a table.
    pub closed spec fn spec_origin(&self) -> Option<(Seq<u8>, Seq<u8>, Seq<u8>)> {
        match self.origin {
            Some((d, t, c)) => Some((d.spec_bytes(), t.spec_bytes(), c.spec_bytes())),
            None => None,
        }
    }

    /// Returns the name of the column in the query results.
    pub fn name(&self) -> (r: &str)
        ensures
            r.spec_bytes() == self.spec_name(),
    {
        self.name
    }

    /// Returns the database name from which the column originates.
    pub fn database_name(&self) -> (r: Option<&str>)
        ensures
            text_of(r) == (match self.spec_origin() {
                Some(o) => Some(o.0),
                None => None,
            }),
    {
        match self.origin {
            Some((d, _, _)) => Some(d),
            None => None,
        }
    }

    /// Returns the table name from which the column originates.
    pub fn table_name(&self) -> (r: Option<&str>)
        ensures
            text_of(r) == (match self.spec_origin() {
                Some(o) => Some(o.1),
                None => None,
            }),
    {
        match self.origin {
            Some((_, t, _)) => Some(t),
            None => None,
        }
    }

    /// Returns the column name from which the column originates.
    pub fn origin_name(&self) -> (r: Option<&str>)
        ensures
            text_of(r) == (match self.spec_origin() {
                Some(o) => Some(o.2),
                None => None,
            }),
    {
        match self.origin {
            Some((_, _, c)) => Some(c),
            None => None,
        }
    }
}

/// A prepared statement, as far as its result columns go.
pub struct Statement {
    stmt: RawStatement,
}

impl View for Statement {
    type V = Seq<ColumnInfo>;

    closed spec fn view(&self) -> Seq<ColumnInfo> {
        self.stmt@
    }
}

impl Statement {
    /// A statement over the compiled form `stmt`.
    pub fn new(stmt: RawStatement) -> (r: Self)
        ensures
            r@ == stmt@,
    {
        Statement { stmt }
    }

    /// Returns the names of the database, table, and column from which each
    /// column of this query's results originates, in column order.
    ///
    /// Computed or otherwise derived columns have `None` for all three.
    pub fn columns_with_metadata(&self) -> (r: Vec<ColumnMetadata<'_>>)
        ensures
            r@.len() == self@.len(),
            forall|i: int|
                0 <= i < r@.len() ==> (#[trigger] r@[i]).spec_name() == self@[i].name
                    && r@[i].spec_origin() == self@[i].origin,
    {
        let n = self.stmt.column_count();
        let mut col_mets: Vec<ColumnMetadata<'_>> = Vec::with_capacity(n);
        let mut i: usize = 0;
        while i < n
            invariant
                n == self@.len(),
                0 <= i <= n,
                col_mets@.len() == i,
                forall|k: int|
                    0 <= k < i ==> (#[trigger] col_mets@[k]).spec_name() == self@[k].name
                        && col_mets@[k].spec_origin() == self@[k].origin,
            decreases n - i,
        {
            let name = self.column_name_unwrap(i);
            let db_slice = self.stmt.column_database_name(i);
            let tbl_slice = self.stmt.column_table_name(i);
            let origin_slice = self.stmt.column_origin_name(i);
            let origin = match (db_slice, tbl_slice, origin_slice) {
                (Some(d), Some(t), Some(c)) => Some((text(d), text(t), text(c))),
                _ => None,
            };
            col_mets.push(ColumnMetadata { name, origin });
            i = i + 1;
        }
        col_mets
    }

    /// The name of a column that is known to exist.
    pub(crate) fn column_name_unwrap(&self, col: usize) -> (r: &str)
        requires
            col < self@.len(),
        ensures
            r.spec_bytes() == self@[col as int].name,
    {
        let b = self.stmt.column_name(col).unwrap();
        text(b)
    }

    /// Replaces the compiled form, as when the statement is prepared again
    /// after a schema change. Views taken before borrow the statement, so
    /// none of them outlives this call.
    pub fn reprepare(&mut self, stmt: RawStatement)
        ensures
            final(self)@ == stmt@,
    {
        self.stmt = stmt;
    }

    /// Returns the number of columns in the result set.
    pub fn column_count(&self) -> (r: usize)
        ensures
            r == self@.len(),
    {
        self.stmt.column_count()
    }

    /// Returns the name of column `col` of the result set.
    ///
    /// Fails with `Error::InvalidColumnIndex(col)` when `col` is not below
    /// the column count.
    pub fn column_name(&self, col: usize) -> (r: Result<&str, Error>)
        ensures
            col < self@.len() ==> (r matches Ok(s) && s.spec_bytes() == self@[col as int].name),
            col >= self@.len() ==> r == Err::<&str, Error>(Error::InvalidColumnIndex(col)),
    {
        match self.stmt.column_name(col) {
            Some(b) => Ok(text(b)),
            None => Err(Error::InvalidColumnIndex(col)),
        }
    }

    /// Returns the names of all the columns of the result set, in order.
    pub fn column_names(&self) -> (r: Vec<&str>)
        ensures
            r@.len() == self@.len(),
            forall|i: int| 0 <= i < r@.len() ==> (#[trigger] r@[i]).spec_bytes() == self@[i].name,
    {
        let n = self.stmt.column_count();
        let mut cols: Vec<&str> = Vec::with_capacity(n);
        let mut i: usize = 0;
        while i < n
            invariant
                n == self@.len(),
                0 <= i <= n,
                cols@.len() == i,
                forall|k: int| 0 <= k < i ==> (#[trigger] cols@[k]).spec_bytes() == self@[k].name,
            decreases n - i,
        {
            let s = self.column_name_unwrap(i);
            cols.push(s);
            i = i + 1;
        }
        cols
    }

    /// Returns the index of the first column whose name equals `name`,
    /// ignoring ASCII case.
    ///
    /// Fails with `Error::InvalidColumnName(name)` when there is no such
    /// column.
    pub fn column_index(&self, name: &str) -> (r: Result<usize, Error>)
        ensures
            r is Ok <==> has_match(self@, name.spec_bytes()),
            r matches Ok(i) ==> is_first_match(self@, name.spec_bytes(), i as int),
            r matches Err(e) ==> (e matches Error::InvalidColumnName(s) && s@ == name@),
    {
        let bytes = name.as_bytes();
        let n = self.stmt.column_count();
        let mut i: usize = 0;
        while i < n
            invariant
                n == self@.len(),
                0 <= i <= n,
                bytes@ == name.spec_bytes(),
                forall|j: int|
                    0 <= j < i ==> !eq_ignore_ascii_case_spec(bytes@, #[trigger] self@[j].name),
            decreases n - i,
        {
            let col_name = self.stmt.column_name(i).unwrap();
            if eq_ignore_ascii_case(bytes, col_name) {
                return Ok(i);
            }
            i = i + 1;
        }
        Err(Error::InvalidColumnName(name.to_owned()))
    }

    /// Returns the name and declared type of each column of the result set,
    /// in order.
    pub fn columns(&self) -> (r: Vec<Column<'_>>)
        ensures
            r@.len() == self@.len(),
            forall|i: int|
                0 <= i < r@.len() ==> (#[trigger] r@[i]).spec_name() == self@[i].name
                    && r@[i].spec_decl_type() == self@[i].decl_type,
    {
        let n = self.stmt.column_count();
        let mut cols: Vec<Column<'_>> = Vec::with_capacity(n);
        let mut i: usize = 0;
        while i < n
            invariant
                n == self@.len(),
                0 <= i <= n,
                cols@.len() == i,
                forall|k: int|
                    0 <= k < i ==> (#[trigger] cols@[k]).spec_name() == self@[k].name
                        && cols@[k].spec_decl_type() == self@[k].decl_type,
            decreases n - i,
        {
            let name = self.column_name_unwrap(i);
            let decl_type = match self.stmt.column_decltype(i) {
                Some(b) => Some(text(b)),
                None => None,
            };
            cols.push(Column { name, decl_type });
            i = i + 1;
        }
        cols
    }
}

/// Looking a column up by name ignores ASCII case: two names that differ only
/// in the case of ASCII letters find the same column, or both find none.
pub proof fn lemma_column_index_ignores_case(stmt: Statement, a: Seq<u8>, b: Seq<u8>)
    requires
        eq_ignore_ascii_case_spec(a, b),
    ensures
        has_match(stmt@, a) == has_match(stmt@, b),
        forall|i: int| is_first_match(stmt@, a, i) == #[trigger] is_first_match(stmt@, b, i),
{
    let cols = stmt@;
    assert forall|n: Seq<u8>|
        eq_ignore_ascii_case_spec(a, n) == #[trigger] eq_ignore_ascii_case_spec(b, n) by {
        if eq_ignore_ascii_case_spec(a, n) {
            assert forall|k: int| 0 <= k < b.len() implies #[trigger] ascii_lower(b[k])
                == ascii_lower(n[k]) by {
                assert(ascii_lower(a[k]) == ascii_lower(b[k]));
            }
        }
        if eq_ignore_ascii_case_spec(b, n) {
            assert forall|k: int| 0 <= k < a.len() implies #[trigger] ascii_lower(a[k])
                == ascii_lower(n[k]) by {
                assert(ascii_lower(a[k]) == ascii_lower(b[k]));
            }
        }
    }
    if has_match(cols, a) {
        let i = choose|i: int| 0 <= i < cols.len() && eq_ignore_ascii_case_spec(a, #[trigger] cols[i].name);
        assert(eq_ignore_ascii_case_spec(b, cols[i].name));
    }
    if has_match(cols, b) {
        let i = choose|i: int| 0 <= i < cols.len() && eq_ignore_ascii_case_spec(b, #[trigger] cols[i].name);
        assert(eq_ignore_ascii_case_spec(a, cols[i].name));
    }
}

/// Where two columns share a name, looking that name up finds a column no
/// later than the first of the two, never the second.
pub proof fn lemma_column_index_prefers_first(stmt: Statement, i: int, j: int)
    requires
        0 <= i < j < stmt@.len(),
        stmt@[i].name == stmt@[j].name,
    ensures
        has_match(stmt@, stmt@[j].name),
        forall|k: int| #[trigger] is_first_match(stmt@, stmt@[j].name, k) ==> k <= i,
{
    let cols = stmt@;
    let n = cols[j].name;
    assert(eq_ignore_ascii_case_spec(n, cols[i].name));
    assert(eq_ignore_ascii_case_spec(n, cols[j].name));
}

} // verus!
