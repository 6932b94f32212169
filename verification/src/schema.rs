use vstd::prelude::*;

verus! {

/// The type a column holds.
#[derive(Clone, Copy, PartialEq, Eq, Structural, Debug)]
pub enum ColumnType {
    /// A UTF-8 string.
    Text,
    /// A signed 64-bit integer.
    Int64,
    /// An unsigned 64-bit integer.
    UInt64,
    /// A point in time.
    Time,
}

/// One column of a table's declared shape.
pub struct ColumnDef {
    pub name: &'static str,
    pub column_type: ColumnType,
}

/// The declared shape of one table: its columns, which column is the
/// primary key, and whether the store assigns that key itself
/// (auto-increment; callers then pass a placeholder of 0 on insert).
pub struct TableSchema {
    pub table_name: &'static str,
    pub columns: Vec<ColumnDef>,
    pub primary_key: usize,
    pub auto_increment: bool,
}

impl TableSchema {
    /// The primary key names an actual column.
    pub open spec fn wf(&self) -> bool {
        self.primary_key < self.columns@.len()
    }
}

/// The shape of the counters table: keyed by `name`, which callers pass
/// themselves (no auto-increment).
pub fn counter_schema() -> (s: TableSchema)
    ensures
        s.wf(),
        s.table_name@ == "counter"@,
        !s.auto_increment,
        s.primary_key == 0,
        s.columns@.len() == 3,
        s.columns@[0].name@ == "name"@ && s.columns@[0].column_type == ColumnType::Text,
        s.columns@[1].name@ == "value"@ && s.columns@[1].column_type == ColumnType::Int64,
        s.columns@[2].name@ == "last_updated"@ && s.columns@[2].column_type == ColumnType::Time,
{
    let mut columns: Vec<ColumnDef> = Vec::new();
    columns.push(ColumnDef { name: "name", column_type: ColumnType::Text });
    columns.push(ColumnDef { name: "value", column_type: ColumnType::Int64 });
    columns.push(ColumnDef { name: "last_updated", column_type: ColumnType::Time });
    TableSchema { table_name: "counter", columns, primary_key: 0, auto_increment: false }
}

/// The shape of the messages table: keyed by `id`, which the store
/// assigns itself.
pub fn message_schema() -> (s: TableSchema)
    ensures
        s.wf(),
        s.table_name@ == "message"@,
        s.auto_increment,
        s.primary_key == 0,
        s.columns@.len() == 5,
        s.columns@[0].name@ == "id"@ && s.columns@[0].column_type == ColumnType::UInt64,
        s.columns@[1].name@ == "sender"@ && s.columns@[1].column_type == ColumnType::Text,
        s.columns@[2].name@ == "content"@ && s.columns@[2].column_type == ColumnType::Text,
        s.columns@[3].name@ == "channel"@ && s.columns@[3].column_type == ColumnType::Text,
        s.columns@[4].name@ == "timestamp"@ && s.columns@[4].column_type == ColumnType::Time,
{
    let mut columns: Vec<ColumnDef> = Vec::new();
    columns.push(ColumnDef { name: "id", column_type: ColumnType::UInt64 });
    columns.push(ColumnDef { name: "sender", column_type: ColumnType::Text });
    columns.push(ColumnDef { name: "content", column_type: ColumnType::Text });
    columns.push(ColumnDef { name: "channel", column_type: ColumnType::Text });
    columns.push(ColumnDef { name: "timestamp", column_type: ColumnType::Time });
    TableSchema { table_name: "message", columns, primary_key: 0, auto_increment: true }
}

/// The shape of the events table: keyed by `id`, which the store
/// assigns itself.
pub fn event_schema() -> (s: TableSchema)
    ensures
        s.wf(),
        s.table_name@ == "event"@,
        s.auto_increment,
        s.primary_key == 0,
        s.columns@.len() == 5,
        s.columns@[0].name@ == "id"@ && s.columns@[0].column_type == ColumnType::UInt64,
        s.columns@[1].name@ == "event_type"@ && s.columns@[1].column_type == ColumnType::Text,
        s.columns@[2].name@ == "source"@ && s.columns@[2].column_type == ColumnType::Text,
        s.columns@[3].name@ == "data"@ && s.columns@[3].column_type == ColumnType::Text,
        s.columns@[4].name@ == "timestamp"@ && s.columns@[4].column_type == ColumnType::Time,
{
    let mut columns: Vec<ColumnDef> = Vec::new();
    columns.push(ColumnDef { name: "id", column_type: ColumnType::UInt64 });
    columns.push(ColumnDef { name: "event_type", column_type: ColumnType::Text });
    columns.push(ColumnDef { name: "source", column_type: ColumnType::Text });
    columns.push(ColumnDef { name: "data", column_type: ColumnType::Text });
    columns.push(ColumnDef { name: "timestamp", column_type: ColumnType::Time });
    TableSchema { table_name: "event", columns, primary_key: 0, auto_increment: true }
}

} // verus!
