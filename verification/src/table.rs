//! In-memory tables: an ordered sequence of named columns, each holding
//! values of one type, all of one length.

use vstd::prelude::*;

verus! {

/// The values of one column.
#[derive(Debug)]
pub enum ColumnValues {
    Text(Vec<String>),
    Int32(Vec<i32>),
    UInt32(Vec<u32>),
    Bool(Vec<bool>),
}

/// What a column's values are, as mathematical sequences.
pub enum ValuesModel {
    Text(Seq<Seq<char>>),
    Int32(Seq<i32>),
    UInt32(Seq<u32>),
    Bool(Seq<bool>),
}

impl ValuesModel {
    pub open spec fn len(self) -> nat {
        match self {
            ValuesModel::Text(v) => v.len(),
            ValuesModel::Int32(v) => v.len(),
            ValuesModel::UInt32(v) => v.len(),
            ValuesModel::Bool(v) => v.len(),
        }
    }
}

impl View for ColumnValues {
    type V = ValuesModel;

    open spec fn view(&self) -> ValuesModel {
        match self {
            ColumnValues::Text(v) => ValuesModel::Text(v@.map_values(|s: String| s@)),
            ColumnValues::Int32(v) => ValuesModel::Int32(v@),
            ColumnValues::UInt32(v) => ValuesModel::UInt32(v@),
            ColumnValues::Bool(v) => ValuesModel::Bool(v@),
        }
    }
}

impl ColumnValues {
    pub fn len(&self) -> (n: usize)
        ensures
            n == self@.len(),
    {
        match self {
            ColumnValues::Text(v) => v.len(),
            ColumnValues::Int32(v) => v.len(),
            ColumnValues::UInt32(v) => v.len(),
            ColumnValues::Bool(v) => v.len(),
        }
    }
}

/// A named column.
#[derive(Debug)]
pub struct TableColumn {
    pub name: String,
    pub values: ColumnValues,
}

pub struct ColumnModel {
    pub name: Seq<char>,
    pub values: ValuesModel,
}

impl View for TableColumn {
    type V = ColumnModel;

    open spec fn view(&self) -> ColumnModel {
        ColumnModel { name: self.name@, values: self.values@ }
    }
}

/// The columns of a table, in order.
pub type TableModel = Seq<ColumnModel>;

pub open spec fn models_of(columns: Seq<TableColumn>) -> TableModel {
    columns.map_values(|c: TableColumn| c@)
}

/// Columns make a table when they are of one length and no two share a name.
pub open spec fn well_formed(table: TableModel) -> bool {
    forall|i: int, j: int|
        0 <= i < j < table.len() ==> table[i].values.len() == table[j].values.len()
            && table[i].name != table[j].name
}

/// The number of rows: the length of the columns; none where there is no column.
pub open spec fn row_count(table: TableModel) -> nat {
    if table.len() == 0 {
        0
    } else {
        table[0].values.len()
    }
}

pub open spec fn column_count(table: TableModel) -> nat {
    table.len()
}

/// A concrete table. It is never changed once it is made.
#[derive(Debug)]
pub struct MaterializedTable {
    columns: Vec<TableColumn>,
}

impl View for MaterializedTable {
    type V = TableModel;

    closed spec fn view(&self) -> TableModel {
        models_of(self.columns@)
    }
}

impl MaterializedTable {
    #[verifier::type_invariant]
    spec fn valid(self) -> bool {
        well_formed(self@)
    }

    /// Makes a table of `columns`, if they are of one length and no two
    /// share a name.
    pub fn new(columns: Vec<TableColumn>) -> (table: Option<MaterializedTable>)
        ensures
            table is Some <==> well_formed(models_of(columns@)),
            table matches Some(t) ==> t@ == models_of(columns@),
    {
        let n: usize = columns.len();
        let ghost model = models_of(columns@);
        let mut j: usize = 0;
        while j < n
            invariant
                j <= n,
                n == columns@.len(),
                model == models_of(columns@),
                forall|a: int, b: int|
                    0 <= a < b < j ==> model[a].values.len() == model[b].values.len()
                        && model[a].name != model[b].name,
            decreases n - j,
        {
            let mut i: usize = 0;
            while i < j
                invariant
                    i <= j < n,
                    n == columns@.len(),
                    model == models_of(columns@),
                    forall|a: int|
                        0 <= a < i ==> model[a].values.len() == model[j as int].values.len()
                            && model[a].name != model[j as int].name,
                decreases j - i,
            {
                if columns[i].values.len() != columns[j].values.len() || columns[i].name
                    == columns[j].name {
                    assert(!well_formed(model)) by {
                        assert(model[i as int] == columns@[i as int]@);
                        assert(model[j as int] == columns@[j as int]@);
                    }
                    return None;
                }
                i += 1;
            }
            j += 1;
        }
        Some(MaterializedTable { columns })
    }

    pub fn row_count(&self) -> (n: usize)
        ensures
            n == row_count(self@),
    {
        if self.columns.len() == 0 {
            0
        } else {
            self.columns[0].values.len()
        }
    }

    pub fn column_count(&self) -> (n: usize)
        ensures
            n == column_count(self@),
    {
        self.columns.len()
    }

    /// The column at `index`, counted from 0.
    pub fn column(&self, index: usize) -> (column: Option<&TableColumn>)
        ensures
            match column {
                Some(c) => index < self@.len() && c@ == self@[index as int],
                None => index >= self@.len(),
            },
    {
        if index < self.columns.len() {
            Some(&self.columns[index])
        } else {
            None
        }
    }

    /// The columns, in order.
    pub fn columns(&self) -> (columns: &Vec<TableColumn>)
        ensures
            models_of(columns@) == self@,
            well_formed(self@),
    {
        proof {
            use_type_invariant(self);
        }
        &self.columns
    }

    /// The fixed table by which the engine is shown to work.
    pub fn sample() -> (table: MaterializedTable)
        ensures
            table@ == sample_model(),
    {
        let names = vec![
            String::from_str("Data Agent"),
            String::from_str("Rust"),
            String::from_str("Tauri"),
        ];
        let values: Vec<i32> = vec![1, 10, 100];
        let flags = vec![true, true, true];
        let columns = vec![
            TableColumn { name: String::from_str("names"), values: ColumnValues::Text(names) },
            TableColumn { name: String::from_str("values"), values: ColumnValues::Int32(values) },
            TableColumn { name: String::from_str("is_fast"), values: ColumnValues::Bool(flags) },
        ];
        proof {
            reveal_strlit("names");
            reveal_strlit("values");
            reveal_strlit("is_fast");
            assert(names@.map_values(|s: String| s@) =~= seq!["Data Agent"@, "Rust"@, "Tauri"@]);
            assert(values@ =~= seq![1i32, 10i32, 100i32]);
            assert(flags@ =~= seq![true, true, true]);
            assert(models_of(columns@) =~= sample_model());
            lemma_sample_shape();
        }
        MaterializedTable { columns }
    }

    /// The one-row table that stands for a workbook whose first sheet has
    /// `rows` rows and `cols` columns. The two numbers are held in 32 bits:
    /// of a larger number the lower 32 bits are kept.
    pub fn workbook_summary(rows: usize, cols: usize) -> (table: MaterializedTable)
        ensures
            table@ == summary_model(rows, cols),
    {
        let status = vec![String::from_str("Excel file loaded successfully!")];
        let row_cells: Vec<u32> = vec![
            #[verifier::truncate]
            (rows as u32),
        ];
        let col_cells: Vec<u32> = vec![
            #[verifier::truncate]
            (cols as u32),
        ];
        let columns = vec![
            TableColumn { name: String::from_str("status"), values: ColumnValues::Text(status) },
            TableColumn { name: String::from_str("rows"), values: ColumnValues::UInt32(row_cells) },
            TableColumn { name: String::from_str("cols"), values: ColumnValues::UInt32(col_cells) },
        ];
        proof {
            reveal_strlit("status");
            reveal_strlit("rows");
            reveal_strlit("cols");
            assert(status@.map_values(|s: String| s@) =~= seq![
                "Excel file loaded successfully!"@,
            ]);
            assert(row_cells@ =~= seq![rows as u32]);
            assert(col_cells@ =~= seq![cols as u32]);
            assert(models_of(columns@) =~= summary_model(rows, cols));
            lemma_summary_shape(rows, cols);
        }
        MaterializedTable { columns }
    }
}

pub open spec fn sample_model() -> TableModel {
    seq![
        ColumnModel {
            name: "names"@,
            values: ValuesModel::Text(seq!["Data Agent"@, "Rust"@, "Tauri"@]),
        },
        ColumnModel { name: "values"@, values: ValuesModel::Int32(seq![1i32, 10i32, 100i32]) },
        ColumnModel { name: "is_fast"@, values: ValuesModel::Bool(seq![true, true, true]) },
    ]
}

/// The sample is a table of three rows and three columns.
pub proof fn lemma_sample_shape()
    ensures
        well_formed(sample_model()),
        row_count(sample_model()) == 3,
        column_count(sample_model()) == 3,
{
    reveal_strlit("names");
    reveal_strlit("values");
    reveal_strlit("is_fast");
    let t = sample_model();
    assert(t[0].values.len() == 3 && t[1].values.len() == 3 && t[2].values.len() == 3);
    assert(t[0].name.len() == 5 && t[1].name.len() == 6 && t[2].name.len() == 7);
}

/// The summary of a workbook: its status, and the dimensions of its first
/// sheet, each in 32 bits, in one row.
pub open spec fn summary_model(rows: usize, cols: usize) -> TableModel {
    seq![
        ColumnModel {
            name: "status"@,
            values: ValuesModel::Text(seq!["Excel file loaded successfully!"@]),
        },
        ColumnModel { name: "rows"@, values: ValuesModel::UInt32(seq![rows as u32]) },
        ColumnModel { name: "cols"@, values: ValuesModel::UInt32(seq![cols as u32]) },
    ]
}

/// A workbook's summary is a table of one row and three columns, whose
/// second and third columns hold the sheet's numbers of rows and columns,
/// where those fit in 32 bits.
pub proof fn lemma_summary_shape(rows: usize, cols: usize)
    ensures
        well_formed(summary_model(rows, cols)),
        row_count(summary_model(rows, cols)) == 1,
        column_count(summary_model(rows, cols)) == 3,
        summary_model(rows, cols)[1].name == "rows"@,
        summary_model(rows, cols)[2].name == "cols"@,
        summary_model(rows, cols)[1].values matches ValuesModel::UInt32(cells) && cells.len() == 1
            && (rows <= u32::MAX ==> cells[0] as int == rows as int),
        summary_model(rows, cols)[2].values matches ValuesModel::UInt32(cells) && cells.len() == 1
            && (cols <= u32::MAX ==> cells[0] as int == cols as int),
{
    reveal_strlit("status");
    reveal_strlit("rows");
    reveal_strlit("cols");
    let t = summary_model(rows, cols);
    assert(t[0].values.len() == 1 && t[1].values.len() == 1 && t[2].values.len() == 1);
    assert(t[0].name.len() == 6 && t[1].name.len() == 4 && t[2].name.len() == 4);
    assert(t[1].name[0] != t[2].name[0]);
}

} // verus!
