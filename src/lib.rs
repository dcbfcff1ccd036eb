//! The logic of a small SQLite table browser: how a column's declared type
//! decides how its cells read as text, and the background worker's decisions
//! as a step function from state and event to next state, screen updates and
//! the next database command.
pub mod cell;
pub mod worker;
