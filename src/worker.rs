use vstd::prelude::*;

use crate::cell::{cell_text, cell_text_of, CellValue};

verus! {

/// The connection URL for the SQLite database file at `path`.
pub open spec fn database_url(path: Seq<char>) -> Seq<char> {
    "sqlite:"@ + path
}

/// The query that lists the names of a database's tables.
pub open spec fn schema_query_text() -> Seq<char> {
    "SELECT name FROM sqlite_schema WHERE type = \"table\""@
}

/// The query that lists the columns of `table`, with their names and types.
pub open spec fn table_info_query(table: Seq<char>) -> Seq<char> {
    "PRAGMA table_info("@ + table + ")"@
}

/// The query that reads the first 25 rows of `table`.
pub open spec fn table_data_query(table: Seq<char>) -> Seq<char> {
    "SELECT * FROM "@ + table + " LIMIT 25"@
}

/// The connection URL for the SQLite database file at `path`.
pub fn make_database_url(path: &str) -> (r: String)
    ensures
        r@ == database_url(path@),
{
    let mut s = String::from_str("sqlite:");
    s.append(path);
    s
}

/// The query that lists the names of a database's tables.
pub fn make_schema_query() -> (r: String)
    ensures
        r@ == schema_query_text(),
{
    String::from_str("SELECT name FROM sqlite_schema WHERE type = \"table\"")
}

/// The query that lists the columns of `table`.
pub fn make_table_info_query(table: &str) -> (r: String)
    ensures
        r@ == table_info_query(table@),
{
    let mut s = String::from_str("PRAGMA table_info(");
    s.append(table);
    s.append(")");
    s
}

/// The query that reads the first rows of `table`.
pub fn make_table_data_query(table: &str) -> (r: String)
    ensures
        r@ == table_data_query(table@),
{
    let mut s = String::from_str("SELECT * FROM ");
    s.append(table);
    s.append(" LIMIT 25");
    s
}

/// The texts that a grid of cells shows, row by row and cell by cell.
pub open spec fn grid_text(rows: Seq<Vec<CellValue>>) -> Seq<Seq<Seq<char>>> {
    Seq::new(rows.len(), |i: int| Seq::new(rows[i]@.len(), |j: int| cell_text_of(rows[i]@[j])))
}

/// The texts that one row of cells shows.
pub fn row_text(row: &Vec<CellValue>) -> (r: Vec<String>)
    ensures
        r.deep_view() == Seq::new(row@.len(), |j: int| cell_text_of(row@[j])),
{
    let mut out: Vec<String> = Vec::new();
    let mut j: usize = 0;
    while j < row.len()
        invariant
            j <= row@.len(),
            out@.len() == j,
            forall|k: int| 0 <= k < j ==> #[trigger] out@[k]@ == cell_text_of(row@[k]),
        decreases row@.len() - j,
    {
        out.push(cell_text(&row[j]));
        j = j + 1;
    }
    assert(out.deep_view() =~= Seq::new(row@.len(), |j: int| cell_text_of(row@[j])));
    out
}

/// The texts that the grid shows for `rows`.
pub fn grid(rows: &Vec<Vec<CellValue>>) -> (r: Vec<Vec<String>>)
    ensures
        r.deep_view() == grid_text(rows@),
{
    let mut out: Vec<Vec<String>> = Vec::new();
    let mut i: usize = 0;
    while i < rows.len()
        invariant
            i <= rows@.len(),
            out@.len() == i,
            forall|k: int| 0 <= k < i ==> #[trigger] out@[k].deep_view() == Seq::new(
                rows@[k]@.len(),
                |j: int| cell_text_of(rows@[k]@[j]),
            ),
        decreases rows@.len() - i,
    {
        out.push(row_text(&rows[i]));
        i = i + 1;
    }
    assert(out.deep_view() =~= grid_text(rows@));
    out
}


/// A request from the screen to the worker.
pub enum WorkerMessage {
    /// Open the SQLite database file at this path.
    ChangeDatabase(String),
    /// Show the table of this name.
    ChangeTable(String),
}

/// A column of a table: its name and its declared type name.
pub struct ColumnInfo {
    pub name: String,
    pub declared: String,
}

/// What happened since the worker's last step.
pub enum WorkerEvent {
    /// A message from the screen came in; `None` once every sender is gone.
    Received(Option<WorkerMessage>),
    /// The query of the table names came back with these names.
    SchemaLoaded(Vec<String>),
    /// The column query of a table came back with these columns, and the row
    /// query with these rows (`None` where it failed), each row's cells read
    /// in the order of the columns as their kinds say.
    TableLoaded(Vec<ColumnInfo>, Option<Vec<Vec<CellValue>>>),
    /// A query failed.
    QueryFailed,
}

/// What the worker knows between two steps.
#[derive(Clone, Copy, Debug, PartialEq, Eq, Structural)]
pub struct WorkerState {
    /// A database is open.
    pub connected: bool,
    /// The query of the table names is running.
    pub schema_pending: bool,
    /// The queries of a table's columns and rows are running.
    pub table_pending: bool,
}

/// The state before any message: no database, no query.
pub open spec fn initial_state() -> WorkerState {
    WorkerState { connected: false, schema_pending: false, table_pending: false }
}

impl WorkerState {
    /// The state before any message: no database, no query.
    pub fn new() -> (r: WorkerState)
        ensures
            r == initial_state(),
    {
        WorkerState { connected: false, schema_pending: false, table_pending: false }
    }
}

/// A change to what the screen shows; an empty list clears the part.
pub enum ScreenUpdate {
    /// The titles of the grid's columns.
    ColumnNames(Vec<String>),
    /// The cells of the grid, row by row.
    TableData(Vec<Vec<String>>),
    /// The list of the database's tables.
    DatabaseTables(Vec<String>),
}

/// A screen update as the texts it carries.
pub enum ScreenUpdateView {
    ColumnNames(Seq<Seq<char>>),
    TableData(Seq<Seq<Seq<char>>>),
    DatabaseTables(Seq<Seq<char>>),
}

impl View for ScreenUpdate {
    type V = ScreenUpdateView;

    open spec fn view(&self) -> ScreenUpdateView {
        match self {
            ScreenUpdate::ColumnNames(v) => ScreenUpdateView::ColumnNames(v.deep_view()),
            ScreenUpdate::TableData(v) => ScreenUpdateView::TableData(v.deep_view()),
            ScreenUpdate::DatabaseTables(v) => ScreenUpdateView::DatabaseTables(v.deep_view()),
        }
    }
}

/// What the worker's loop is to do next.
pub enum WorkerCommand {
    /// Connect to `url`, then start `schema_query` on the new connection.
    Open { url: String, schema_query: String },
    /// Start `info_query`, then `data_query`, on the open connection.
    LoadTable { info_query: String, data_query: String },
    /// Leave the loop.
    Stop,
}

/// A command as the texts it carries.
pub enum WorkerCommandView {
    Open { url: Seq<char>, schema_query: Seq<char> },
    LoadTable { info_query: Seq<char>, data_query: Seq<char> },
    Stop,
}

impl View for WorkerCommand {
    type V = WorkerCommandView;

    open spec fn view(&self) -> WorkerCommandView {
        match self {
            WorkerCommand::Open { url, schema_query } => WorkerCommandView::Open {
                url: url@,
                schema_query: schema_query@,
            },
            WorkerCommand::LoadTable { info_query, data_query } => WorkerCommandView::LoadTable {
                info_query: info_query@,
                data_query: data_query@,
            },
            WorkerCommand::Stop => WorkerCommandView::Stop,
        }
    }
}

/// The outcome of one step: the next state, the screen updates to apply in
/// order, and the command to carry out, if any.
pub struct WorkerStep {
    pub state: WorkerState,
    pub updates: Vec<ScreenUpdate>,
    pub command: Option<WorkerCommand>,
}

/// A step's outcome as plain values.
pub struct WorkerStepView {
    pub state: WorkerState,
    pub updates: Seq<ScreenUpdateView>,
    pub command: Option<WorkerCommandView>,
}

impl View for WorkerStep {
    type V = WorkerStepView;

    open spec fn view(&self) -> WorkerStepView {
        WorkerStepView {
            state: self.state,
            updates: Seq::new(self.updates@.len(), |i: int| self.updates@[i]@),
            command: match self.command {
                Some(c) => Some(c@),
                None => None,
            },
        }
    }
}

/// The updates that empty the grid, titles and cells.
pub open spec fn clear_grid() -> Seq<ScreenUpdateView> {
    seq![ScreenUpdateView::ColumnNames(Seq::empty()), ScreenUpdateView::TableData(Seq::empty())]
}

/// One step of the worker in state `s` on event `e`.
///
/// Every message, and the end of the channel, first empties the grid. A new
/// database is opened and its table names asked for; a new table is asked
/// for only where a database is open; the end of the channel stops the
/// worker. Table names that come back replace the list of tables and empty
/// the grid titles. A table that comes back without columns empties the grid
/// and stops the worker; one with columns shows their names, then its rows,
/// or no rows where the row query failed. A failed query drops both queries.
pub open spec fn step_spec(s: WorkerState, e: WorkerEvent) -> WorkerStepView {
    match e {
        WorkerEvent::Received(m) => match m {
            Some(WorkerMessage::ChangeDatabase(path)) => WorkerStepView {
                state: WorkerState { connected: true, schema_pending: true, ..s },
                updates: clear_grid(),
                command: Some(
                    WorkerCommandView::Open {
                        url: database_url(path@),
                        schema_query: schema_query_text(),
                    },
                ),
            },
            Some(WorkerMessage::ChangeTable(table)) => if s.connected {
                WorkerStepView {
                    state: WorkerState { table_pending: true, ..s },
                    updates: clear_grid(),
                    command: Some(
                        WorkerCommandView::LoadTable {
                            info_query: table_info_query(table@),
                            data_query: table_data_query(table@),
                        },
                    ),
                }
            } else {
                WorkerStepView { state: s, updates: clear_grid(), command: None }
            },
            None => WorkerStepView {
                state: s,
                updates: clear_grid(),
                command: Some(WorkerCommandView::Stop),
            },
        },
        WorkerEvent::SchemaLoaded(names) => WorkerStepView {
            state: WorkerState { schema_pending: false, ..s },
            updates: seq![
                ScreenUpdateView::DatabaseTables(names.deep_view()),
                ScreenUpdateView::ColumnNames(Seq::empty()),
            ],
            command: None,
        },
        WorkerEvent::TableLoaded(columns, rows) => if columns@.len() == 0 {
            WorkerStepView {
                state: WorkerState { table_pending: false, ..s },
                updates: clear_grid(),
                command: Some(WorkerCommandView::Stop),
            }
        } else {
            WorkerStepView {
                state: WorkerState { table_pending: false, ..s },
                updates: seq![
                    ScreenUpdateView::ColumnNames(column_names(columns@)),
                    ScreenUpdateView::TableData(
                        match rows {
                            Some(r) => grid_text(r@),
                            None => Seq::empty(),
                        },
                    ),
                ],
                command: None,
            }
        },
        WorkerEvent::QueryFailed => WorkerStepView {
            state: WorkerState { schema_pending: false, table_pending: false, ..s },
            updates: Seq::empty(),
            command: None,
        },
    }
}

/// The names of `columns`, in order.
pub open spec fn column_names(columns: Seq<ColumnInfo>) -> Seq<Seq<char>> {
    Seq::new(columns.len(), |i: int| columns[i].name@)
}

fn no_names() -> (r: Vec<String>)
    ensures
        r.deep_view() == Seq::<Seq<char>>::empty(),
{
    let r: Vec<String> = Vec::new();
    assert(r.deep_view() =~= Seq::<Seq<char>>::empty());
    r
}

fn no_rows() -> (r: Vec<Vec<String>>)
    ensures
        r.deep_view() == Seq::<Seq<Seq<char>>>::empty(),
{
    let r: Vec<Vec<String>> = Vec::new();
    assert(r.deep_view() =~= Seq::<Seq<Seq<char>>>::empty());
    r
}

fn clear_updates() -> (r: Vec<ScreenUpdate>)
    ensures
        Seq::new(r@.len(), |i: int| r@[i]@) == clear_grid(),
{
    let mut r: Vec<ScreenUpdate> = Vec::new();
    r.push(ScreenUpdate::ColumnNames(no_names()));
    r.push(ScreenUpdate::TableData(no_rows()));
    assert(Seq::new(r@.len(), |i: int| r@[i]@) =~= clear_grid());
    r
}

fn names_of(columns: &Vec<ColumnInfo>) -> (r: Vec<String>)
    ensures
        r.deep_view() == column_names(columns@),
{
    let mut out: Vec<String> = Vec::new();
    let mut i: usize = 0;
    while i < columns.len()
        invariant
            i <= columns@.len(),
            out@.len() == i,
            forall|k: int| 0 <= k < i ==> #[trigger] out@[k]@ == columns@[k].name@,
        decreases columns@.len() - i,
    {
        out.push(columns[i].name.clone());
        i = i + 1;
    }
    assert(out.deep_view() =~= column_names(columns@));
    out
}

/// One step of the worker in state `s` on event `e`: see `step_spec`.
pub fn step(s: WorkerState, e: WorkerEvent) -> (r: WorkerStep)
    ensures
        r@ == step_spec(s, e),
{
    match e {
        WorkerEvent::Received(m) => {
            let updates = clear_updates();
            match m {
                Some(WorkerMessage::ChangeDatabase(path)) => {
                    let url = make_database_url(path.as_str());
                    let schema_query = make_schema_query();
                    let r = WorkerStep {
                        state: WorkerState { connected: true, schema_pending: true, ..s },
                        updates,
                        command: Some(WorkerCommand::Open { url, schema_query }),
                    };
                    assert(r@.updates =~= step_spec(s, e).updates);
                    r
                },
                Some(WorkerMessage::ChangeTable(table)) => {
                    if s.connected {
                        let info_query = make_table_info_query(table.as_str());
                        let data_query = make_table_data_query(table.as_str());
                        WorkerStep {
                            state: WorkerState { table_pending: true, ..s },
                            updates,
                            command: Some(WorkerCommand::LoadTable { info_query, data_query }),
                        }
                    } else {
                        WorkerStep { state: s, updates, command: None }
                    }
                },
                None => WorkerStep { state: s, updates, command: Some(WorkerCommand::Stop) },
            }
        },
        WorkerEvent::SchemaLoaded(names) => {
            let mut updates: Vec<ScreenUpdate> = Vec::new();
            updates.push(ScreenUpdate::DatabaseTables(names));
            updates.push(ScreenUpdate::ColumnNames(no_names()));
            let r = WorkerStep {
                state: WorkerState { schema_pending: false, ..s },
                updates,
                command: None,
            };
            assert(r@.updates =~= step_spec(s, e).updates);
            r
        },
        WorkerEvent::TableLoaded(columns, rows) => {
            if columns.len() == 0 {
                WorkerStep {
                    state: WorkerState { table_pending: false, ..s },
                    updates: clear_updates(),
                    command: Some(WorkerCommand::Stop),
                }
            } else {
                let mut updates: Vec<ScreenUpdate> = Vec::new();
                updates.push(ScreenUpdate::ColumnNames(names_of(&columns)));
                let data = match &rows {
                    Some(g) => grid(g),
                    None => no_rows(),
                };
                updates.push(ScreenUpdate::TableData(data));
                let r = WorkerStep {
                    state: WorkerState { table_pending: false, ..s },
                    updates,
                    command: None,
                };
                assert(r@.updates =~= step_spec(s, e).updates);
                r
            }
        },
        WorkerEvent::QueryFailed => {
            let r = WorkerStep {
                state: WorkerState { schema_pending: false, table_pending: false, ..s },
                updates: Vec::new(),
                command: None,
            };
            assert(r@.updates =~= step_spec(s, e).updates);
            r
        },
    }
}

} // verus!
