use data_agent::table::{ColumnValues, MaterializedTable, TableColumn};

fn text(values: &[&str]) -> ColumnValues {
    ColumnValues::Text(values.iter().map(|v| v.to_string()).collect())
}

fn column(name: &str, values: ColumnValues) -> TableColumn {
    TableColumn { name: name.to_string(), values }
}

#[test]
fn sample_table_has_three_rows_and_columns() {
    let table = MaterializedTable::sample();
    assert_eq!(table.row_count(), 3);
    assert_eq!(table.column_count(), 3);
    let names = table.column(0).unwrap();
    assert_eq!(names.name, "names");
    match &names.values {
        ColumnValues::Text(v) => assert_eq!(v, &vec!["Data Agent", "Rust", "Tauri"]),
        other => panic!("unexpected values {:?}", other),
    }
    let values = table.column(1).unwrap();
    assert_eq!(values.name, "values");
    match &values.values {
        ColumnValues::Int32(v) => assert_eq!(v, &vec![1, 10, 100]),
        other => panic!("unexpected values {:?}", other),
    }
    let flags = table.column(2).unwrap();
    assert_eq!(flags.name, "is_fast");
    match &flags.values {
        ColumnValues::Bool(v) => assert_eq!(v, &vec![true, true, true]),
        other => panic!("unexpected values {:?}", other),
    }
    assert!(table.column(3).is_none());
}

#[test]
fn workbook_summary_is_one_row_of_three_columns() {
    let table = MaterializedTable::workbook_summary(1_048_576, 16_384);
    assert_eq!(table.row_count(), 1);
    assert_eq!(table.column_count(), 3);
    let columns = table.columns();
    assert_eq!(columns[0].name, "status");
    match &columns[0].values {
        ColumnValues::Text(v) => assert_eq!(v, &vec!["Excel file loaded successfully!"]),
        other => panic!("unexpected values {:?}", other),
    }
    assert_eq!(columns[1].name, "rows");
    match &columns[1].values {
        ColumnValues::UInt32(v) => assert_eq!(v, &vec![1_048_576u32]),
        other => panic!("unexpected values {:?}", other),
    }
    assert_eq!(columns[2].name, "cols");
    match &columns[2].values {
        ColumnValues::UInt32(v) => assert_eq!(v, &vec![16_384u32]),
        other => panic!("unexpected values {:?}", other),
    }
}

#[test]
fn workbook_summary_holds_dimensions_in_32_bits() {
    let table = MaterializedTable::workbook_summary(u32::MAX as usize, 0);
    match &table.columns()[1].values {
        ColumnValues::UInt32(v) => assert_eq!(v, &vec![u32::MAX]),
        other => panic!("unexpected values {:?}", other),
    }
    match &table.columns()[2].values {
        ColumnValues::UInt32(v) => assert_eq!(v, &vec![0]),
        other => panic!("unexpected values {:?}", other),
    }
    let rows: u64 = 4_294_967_296 + 5;
    let table = MaterializedTable::workbook_summary(rows as usize, 7);
    match &table.columns()[1].values {
        ColumnValues::UInt32(v) => assert_eq!(v, &vec![rows as usize as u32]),
        other => panic!("unexpected values {:?}", other),
    }
}

#[test]
fn columns_of_one_length_and_distinct_names_make_a_table() {
    let table = MaterializedTable::new(vec![
        column("a", text(&["x", "y"])),
        column("b", ColumnValues::Int32(vec![1, 2])),
        column("c", ColumnValues::Bool(vec![true, false])),
        column("d", ColumnValues::UInt32(vec![7, 8])),
    ])
    .unwrap();
    assert_eq!(table.row_count(), 2);
    assert_eq!(table.column_count(), 4);
    assert_eq!(table.column(3).unwrap().name, "d");
}

#[test]
fn no_columns_make_an_empty_table() {
    let table = MaterializedTable::new(Vec::new()).unwrap();
    assert_eq!(table.row_count(), 0);
    assert_eq!(table.column_count(), 0);
    assert!(table.column(0).is_none());
}

#[test]
fn unequal_lengths_make_no_table() {
    assert!(MaterializedTable::new(vec![
        column("a", text(&["x", "y"])),
        column("b", ColumnValues::Int32(vec![1])),
    ])
    .is_none());
    assert!(MaterializedTable::new(vec![
        column("a", text(&["x"])),
        column("b", ColumnValues::Int32(vec![1])),
        column("c", ColumnValues::Bool(vec![])),
    ])
    .is_none());
}

#[test]
fn a_repeated_name_makes_no_table() {
    assert!(MaterializedTable::new(vec![
        column("a", text(&["x"])),
        column("b", ColumnValues::Int32(vec![1])),
        column("a", ColumnValues::Bool(vec![true])),
    ])
    .is_none());
}

#[test]
fn column_values_know_their_length() {
    assert_eq!(text(&[]).len(), 0);
    assert_eq!(text(&["a", "b", "c"]).len(), 3);
    assert_eq!(ColumnValues::Int32(vec![1, 2]).len(), 2);
    assert_eq!(ColumnValues::UInt32(vec![1]).len(), 1);
    assert_eq!(ColumnValues::Bool(vec![true; 5]).len(), 5);
}
