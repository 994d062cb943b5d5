//! Agent **teams**: a persisted, ordered collection of agent ids plus a coordination
//! strategy, addressed as one unit.
//!
//! - [`coordination`], [`record`], [`roster`]: the strategy, the records, and the rules by
//!   which a team is created, patched, joined and left.
//! - [`row`], [`json`], [`statement`]: how a record lies in the `teams` table and which
//!   statements read and write it.
//! - [`store`], [`api`]: the operations of the store and the requests of the surface, each
//!   as the statements it runs and what it makes of the replies.
//! - [`document`]: how a record reads as JSON, in answers and events.
//! - [`auth`], [`settings`]: who is let in to the surface, and what is configured.
//! - [`table`], [`laws`]: a model of the database, and what holds over it of the operations
//!   and requests as a whole.
//! - [`outcomes`], [`steps`], [`meaning`]: what each request comes to in the fields of teams
//!   and answers, what becomes of each reply, and what the values of the contracts show.
//! - [`stamp`], [`chronology`], [`text`]: ids, times and their order, and text.

pub mod api;
pub mod auth;
pub mod chronology;
pub mod coordination;
pub mod document;
pub mod json;
pub mod laws;
pub mod meaning;
pub mod outcomes;
pub mod record;
pub mod roster;
pub mod row;
pub mod settings;
pub mod stamp;
pub mod statement;
pub mod steps;
pub mod store;
pub mod table;
pub mod text;

pub use coordination::Coordination;
pub use record::{CreateTeam, TeamRecord, UpdateTeam};
pub use store::TeamStore;
