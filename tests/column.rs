use stmt_columns::{Column, ColumnOrigin, Error, RawColumn, RawStatement, Statement};

fn table_column(name: &str, decl_type: &str, table: &str) -> RawColumn {
    RawColumn {
        name: name.as_bytes().to_vec(),
        decl_type: Some(decl_type.as_bytes().to_vec()),
        origin: Some(ColumnOrigin {
            database: b"main".to_vec(),
            table: table.as_bytes().to_vec(),
            column: name.as_bytes().to_vec(),
        }),
    }
}

fn aliased_column(alias: &str, name: &str, decl_type: &str, table: &str) -> RawColumn {
    let mut c = table_column(name, decl_type, table);
    c.name = alias.as_bytes().to_vec();
    c
}

fn computed_column(name: &str) -> RawColumn {
    RawColumn { name: name.as_bytes().to_vec(), decl_type: None, origin: None }
}

fn master_columns() -> Vec<RawColumn> {
    vec![
        table_column("type", "text", "sqlite_master"),
        table_column("name", "text", "sqlite_master"),
        table_column("tbl_name", "text", "sqlite_master"),
        table_column("rootpage", "int", "sqlite_master"),
        table_column("sql", "text", "sqlite_master"),
    ]
}

/// The statement `SELECT * FROM sqlite_master`.
fn select_master() -> Statement {
    Statement::new(RawStatement::new(master_columns()))
}

/// The statement `SELECT *, 1 FROM sqlite_master`.
fn select_master_and_one() -> Statement {
    let mut cols = master_columns();
    cols.push(computed_column("1"));
    Statement::new(RawStatement::new(cols))
}

fn names_statement(names: &[&str]) -> Statement {
    let cols: Vec<RawColumn> = names.iter().map(|n| computed_column(n)).collect();
    Statement::new(RawStatement::new(cols))
}

#[test]
fn test_columns() {
    let query = select_master();
    let columns = query.columns();
    let column_names: Vec<&str> = columns.iter().map(Column::name).collect();
    assert_eq!(column_names.as_slice(), &["type", "name", "tbl_name", "rootpage", "sql"]);
    let column_types: Vec<Option<String>> =
        columns.iter().map(|col| col.decl_type().map(str::to_lowercase)).collect();
    assert_eq!(
        &column_types[..3],
        &[Some("text".to_owned()), Some("text".to_owned()), Some("text".to_owned()),]
    );
}

#[test]
fn test_columns_with_metadata() {
    let query = select_master_and_one();

    let col_mets = query.columns_with_metadata();

    assert_eq!(col_mets.len(), 6);

    for col in col_mets.iter().take(5) {
        assert_eq!(&col.database_name(), &Some("main"));
        assert_eq!(&col.table_name(), &Some("sqlite_master"));
    }

    assert!(col_mets[5].database_name().is_none());
    assert!(col_mets[5].table_name().is_none());
    assert!(col_mets[5].origin_name().is_none());

    let col_origins: Vec<Option<&str>> = col_mets.iter().map(|col| col.origin_name()).collect();

    assert_eq!(
        &col_origins[..5],
        &[Some("type"), Some("name"), Some("tbl_name"), Some("rootpage"), Some("sql"),]
    );
}

/// The statement `SELECT x as renamed, y FROM foo`: the name that a failed
/// read of a column reports is the column's name in the results, and a read
/// by name resolves through `column_index`.
#[test]
fn test_column_name_in_error() {
    let stmt = Statement::new(RawStatement::new(vec![
        aliased_column("renamed", "x", "INTEGER", "foo"),
        table_column("y", "TEXT", "foo"),
    ]));
    assert_eq!(stmt.column_name(0), Ok("renamed"));
    let idx = stmt.column_index("y").unwrap();
    assert_eq!(idx, 1);
    assert_eq!(stmt.column_name(idx), Ok("y"));
    let mets = stmt.columns_with_metadata();
    assert_eq!(mets[0].name(), "renamed");
    assert_eq!(mets[0].origin_name(), Some("x"));
}

/// `SELECT x FROM y;`, then `ALTER TABLE y RENAME COLUMN x TO z;`: until the
/// statement is prepared again its column keeps the old name.
#[test]
fn test_column_name_reference() {
    let stmt = Statement::new(RawStatement::new(vec![table_column("x", "", "y")]));
    let column_name = stmt.column_name(0).unwrap();
    assert_eq!("x", column_name);
    // The schema change reaches the statement only when it is prepared again.
    let same_column_name = stmt.column_name(0).unwrap();
    assert_eq!(same_column_name, column_name);
}

#[test]
fn reprepare_reflects_new_schema() {
    let mut stmt = Statement::new(RawStatement::new(vec![table_column("x", "", "y")]));
    let before: Vec<String> = stmt.column_names().iter().map(|s| s.to_string()).collect();
    stmt.reprepare(RawStatement::new(vec![table_column("z", "", "y")]));
    assert_eq!(before, vec!["x".to_string()]);
    assert_eq!(stmt.column_name(0), Ok("z"));
    assert_eq!(stmt.column_index("x"), Err(Error::InvalidColumnName("x".to_string())));
    assert_eq!(stmt.column_index("Z"), Ok(0));
    let mets = stmt.columns_with_metadata();
    assert_eq!(mets[0].origin_name(), Some("z"));
}

#[test]
fn column_name_in_and_out_of_range() {
    let stmt = select_master();
    for i in 0..stmt.column_count() {
        let name = stmt.column_name(i).unwrap();
        assert!(!name.is_empty());
    }
    assert_eq!(stmt.column_name(5), Err(Error::InvalidColumnIndex(5)));
    assert_eq!(stmt.column_name(usize::MAX), Err(Error::InvalidColumnIndex(usize::MAX)));
}

#[test]
fn column_index_ignores_ascii_case() {
    let stmt = names_statement(&["a", "x", "b"]);
    assert_eq!(stmt.column_index("X"), Ok(1));
    assert_eq!(stmt.column_index("x"), Ok(1));
    let upper = names_statement(&["X"]);
    assert_eq!(upper.column_index("x"), Ok(0));
    assert_eq!(upper.column_index("X"), Ok(0));
    let stmt = select_master();
    assert_eq!(stmt.column_index("TBL_NAME"), Ok(2));
    assert_eq!(stmt.column_index("RootPage"), Ok(3));
}

#[test]
fn column_index_folds_only_ascii() {
    let stmt = names_statement(&["café", "ÉTÉ"]);
    assert_eq!(stmt.column_index("CAFé"), Ok(0));
    assert_eq!(stmt.column_index("CAFÉ"), Err(Error::InvalidColumnName("CAFÉ".to_string())));
    assert_eq!(stmt.column_index("été"), Err(Error::InvalidColumnName("été".to_string())));
    assert_eq!(stmt.column_name(1), Ok("ÉTÉ"));
}

#[test]
fn column_index_prefers_first_duplicate() {
    let stmt = names_statement(&["id", "name", "id", "Name"]);
    assert_eq!(stmt.column_index("id"), Ok(0));
    assert_eq!(stmt.column_index("name"), Ok(1));
    assert_eq!(stmt.column_index("NAME"), Ok(1));
}

#[test]
fn column_index_needs_whole_name() {
    let stmt = names_statement(&["abc", "ab"]);
    assert_eq!(stmt.column_index("ab"), Ok(1));
    assert_eq!(stmt.column_index("a"), Err(Error::InvalidColumnName("a".to_string())));
    assert_eq!(stmt.column_index(""), Err(Error::InvalidColumnName(String::new())));
}

#[test]
fn column_index_nonexistent() {
    let stmt = select_master();
    assert_eq!(
        stmt.column_index("nonexistent"),
        Err(Error::InvalidColumnName("nonexistent".to_string()))
    );
}

#[test]
fn counts_agree() {
    for stmt in [select_master(), select_master_and_one(), names_statement(&[])] {
        let n = stmt.column_count();
        assert_eq!(stmt.columns().len(), n);
        assert_eq!(stmt.columns_with_metadata().len(), n);
        assert_eq!(stmt.column_names().len(), n);
    }
    assert_eq!(select_master_and_one().column_count(), 6);
}

#[test]
fn empty_statement() {
    let stmt = names_statement(&[]);
    assert_eq!(stmt.column_count(), 0);
    assert!(stmt.columns().is_empty());
    assert!(stmt.column_names().is_empty());
    assert_eq!(stmt.column_name(0), Err(Error::InvalidColumnIndex(0)));
    assert_eq!(stmt.column_index("a"), Err(Error::InvalidColumnName("a".to_string())));
}

#[test]
fn column_names_in_order() {
    let stmt = select_master_and_one();
    assert_eq!(stmt.column_names(), vec!["type", "name", "tbl_name", "rootpage", "sql", "1"]);
}

#[test]
fn computed_column_has_no_type_or_origin() {
    let stmt = select_master_and_one();
    let cols = stmt.columns();
    assert_eq!(cols[3].decl_type(), Some("int"));
    assert_eq!(cols[5].name(), "1");
    assert_eq!(cols[5].decl_type(), None);
    let mets = stmt.columns_with_metadata();
    assert_eq!(mets[5].name(), "1");
    assert_eq!(mets[3].database_name(), Some("main"));
    assert_eq!(mets[3].table_name(), Some("sqlite_master"));
    assert_eq!(mets[3].origin_name(), Some("rootpage"));
}

#[test]
fn raw_accessors() {
    let raw = RawStatement::new(vec![table_column("a", "int", "t"), computed_column("b")]);
    assert_eq!(raw.column_count(), 2);
    assert_eq!(raw.column_name(1), Some(&b"b"[..]));
    assert_eq!(raw.column_name(2), None);
    assert_eq!(raw.column_decltype(0), Some(&b"int"[..]));
    assert_eq!(raw.column_decltype(1), None);
    assert_eq!(raw.column_database_name(0), Some(&b"main"[..]));
    assert_eq!(raw.column_table_name(0), Some(&b"t"[..]));
    assert_eq!(raw.column_origin_name(0), Some(&b"a"[..]));
    assert_eq!(raw.column_origin_name(1), None);
    assert_eq!(raw.column_table_name(7), None);
}
