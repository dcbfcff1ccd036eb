use sqlite_browser::cell::CellValue;
use sqlite_browser::worker::{
    grid, make_database_url, make_schema_query, make_table_data_query, make_table_info_query, step,
    ColumnInfo, ScreenUpdate, WorkerCommand, WorkerEvent, WorkerMessage, WorkerState,
};

fn connected() -> WorkerState {
    WorkerState { connected: true, schema_pending: false, table_pending: false }
}

fn assert_cleared(updates: &[ScreenUpdate]) {
    assert_eq!(updates.len(), 2);
    assert!(matches!(&updates[0], ScreenUpdate::ColumnNames(v) if v.is_empty()));
    assert!(matches!(&updates[1], ScreenUpdate::TableData(v) if v.is_empty()));
}

fn column(name: &str, declared: &str) -> ColumnInfo {
    ColumnInfo { name: String::from(name), declared: String::from(declared) }
}

#[test]
fn query_texts() {
    assert_eq!(make_database_url("/tmp/a.db"), "sqlite:/tmp/a.db");
    assert_eq!(make_schema_query(), "SELECT name FROM sqlite_schema WHERE type = \"table\"");
    assert_eq!(make_table_info_query("users"), "PRAGMA table_info(users)");
    assert_eq!(make_table_data_query("users"), "SELECT * FROM users LIMIT 25");
}

#[test]
fn new_state_is_idle() {
    let s = WorkerState::new();
    assert!(!s.connected && !s.schema_pending && !s.table_pending);
}

#[test]
fn change_database_opens_and_asks_for_tables() {
    let r = step(
        WorkerState::new(),
        WorkerEvent::Received(Some(WorkerMessage::ChangeDatabase(String::from("x.db")))),
    );
    assert_eq!(r.state, WorkerState { connected: true, schema_pending: true, table_pending: false });
    assert_cleared(&r.updates);
    match r.command {
        Some(WorkerCommand::Open { url, schema_query }) => {
            assert_eq!(url, "sqlite:x.db");
            assert_eq!(schema_query, "SELECT name FROM sqlite_schema WHERE type = \"table\"");
        }
        _ => panic!("expected an open command"),
    }
}

#[test]
fn change_table_without_database_does_nothing_but_clear() {
    let s = WorkerState::new();
    let r = step(s, WorkerEvent::Received(Some(WorkerMessage::ChangeTable(String::from("t")))));
    assert_eq!(r.state, s);
    assert_cleared(&r.updates);
    assert!(r.command.is_none());
}

#[test]
fn change_table_with_database_loads_it() {
    let r = step(connected(), WorkerEvent::Received(Some(WorkerMessage::ChangeTable(String::from("t")))));
    assert_eq!(r.state, WorkerState { connected: true, schema_pending: false, table_pending: true });
    assert_cleared(&r.updates);
    match r.command {
        Some(WorkerCommand::LoadTable { info_query, data_query }) => {
            assert_eq!(info_query, "PRAGMA table_info(t)");
            assert_eq!(data_query, "SELECT * FROM t LIMIT 25");
        }
        _ => panic!("expected a load command"),
    }
}

#[test]
fn closed_channel_stops() {
    let r = step(connected(), WorkerEvent::Received(None));
    assert_eq!(r.state, connected());
    assert_cleared(&r.updates);
    assert!(matches!(r.command, Some(WorkerCommand::Stop)));
}

#[test]
fn schema_loaded_lists_tables() {
    let s = WorkerState { connected: true, schema_pending: true, table_pending: false };
    let names = vec![String::from("a"), String::from("b")];
    let r = step(s, WorkerEvent::SchemaLoaded(names));
    assert_eq!(r.state, connected());
    assert_eq!(r.updates.len(), 2);
    match &r.updates[0] {
        ScreenUpdate::DatabaseTables(v) => assert_eq!(v, &vec![String::from("a"), String::from("b")]),
        _ => panic!("expected the table list first"),
    }
    assert!(matches!(&r.updates[1], ScreenUpdate::ColumnNames(v) if v.is_empty()));
    assert!(r.command.is_none());
}

#[test]
fn table_without_columns_clears_and_stops() {
    let s = WorkerState { connected: true, schema_pending: false, table_pending: true };
    let r = step(s, WorkerEvent::TableLoaded(Vec::new(), Some(Vec::new())));
    assert_eq!(r.state, connected());
    assert_cleared(&r.updates);
    assert!(matches!(r.command, Some(WorkerCommand::Stop)));
}

#[test]
fn table_with_rows_fills_grid() {
    let s = WorkerState { connected: true, schema_pending: false, table_pending: true };
    let columns = vec![column("id", "INTEGER"), column("name", "TEXT"), column("x", "BLOB")];
    let rows = vec![
        vec![CellValue::Integer(1), CellValue::Text(String::from("ann")), CellValue::Unknown],
        vec![CellValue::Integer(-20), CellValue::Text(String::new()), CellValue::Unknown],
    ];
    let r = step(s, WorkerEvent::TableLoaded(columns, Some(rows)));
    assert_eq!(r.state, connected());
    assert!(r.command.is_none());
    assert_eq!(r.updates.len(), 2);
    match &r.updates[0] {
        ScreenUpdate::ColumnNames(v) => assert_eq!(v, &vec!["id", "name", "x"]),
        _ => panic!("expected column names first"),
    }
    match &r.updates[1] {
        ScreenUpdate::TableData(g) => {
            assert_eq!(g, &vec![vec!["1", "ann", "type not known"], vec!["-20", "", "type not known"]]);
        }
        _ => panic!("expected table data second"),
    }
}

#[test]
fn table_with_failed_rows_shows_no_rows() {
    let s = WorkerState { connected: true, schema_pending: false, table_pending: true };
    let r = step(s, WorkerEvent::TableLoaded(vec![column("v", "REAL")], None));
    assert_eq!(r.updates.len(), 2);
    assert!(matches!(&r.updates[0], ScreenUpdate::ColumnNames(v) if v == &vec!["v"]));
    assert!(matches!(&r.updates[1], ScreenUpdate::TableData(v) if v.is_empty()));
    assert!(r.command.is_none());
}

#[test]
fn failed_query_drops_both_queries() {
    let s = WorkerState { connected: true, schema_pending: true, table_pending: true };
    let r = step(s, WorkerEvent::QueryFailed);
    assert_eq!(r.state, connected());
    assert!(r.updates.is_empty());
    assert!(r.command.is_none());
}

#[test]
fn grid_of_empty_rows() {
    assert!(grid(&Vec::new()).is_empty());
    let g = grid(&vec![Vec::new(), vec![CellValue::Null]]);
    assert_eq!(g, vec![Vec::<String>::new(), vec![String::new()]]);
}
