//! The statements that the store runs against the `teams` table.

use vstd::prelude::*;

use crate::record::Team;
use crate::row::TeamRow;

verus! {

/// Creates the table where it does not exist yet.
pub const SCHEMA: &'static str = "CREATE TABLE IF NOT EXISTS teams (
    id            TEXT PRIMARY KEY,
    name          TEXT NOT NULL,
    description   TEXT,
    members       TEXT NOT NULL DEFAULT '[]',
    coordination  TEXT NOT NULL DEFAULT 'broadcast',
    lead_agent_id TEXT,
    created_at    TEXT NOT NULL,
    updated_at    TEXT NOT NULL
);";

/// Every team, the oldest first.
pub const SELECT_ALL: &'static str =
    "SELECT id, name, description, members, coordination, lead_agent_id, created_at, updated_at \
     FROM teams ORDER BY created_at ASC";

/// One team.
pub const SELECT_BY_ID: &'static str =
    "SELECT id, name, description, members, coordination, lead_agent_id, created_at, updated_at \
     FROM teams WHERE id = ?1";

/// A new team, last changed when it was created.
pub const INSERT: &'static str =
    "INSERT INTO teams \
     (id, name, description, members, coordination, lead_agent_id, created_at, updated_at) \
     VALUES (?1, ?2, ?3, ?4, ?5, ?6, ?7, ?7)";

/// All of a team but its id and when it was created.
pub const UPDATE: &'static str =
    "UPDATE teams SET name = ?1, description = ?2, members = ?3, coordination = ?4, \
     lead_agent_id = ?5, updated_at = ?6 WHERE id = ?7";

/// One team less.
pub const DELETE: &'static str = "DELETE FROM teams WHERE id = ?1";

/// A statement, as a value: rows are taken as the teams that they stand for.
#[verifier::ext_equal]
pub enum Command {
    SelectAll,
    SelectById { id: Seq<char> },
    Insert { team: Team },
    Update { id: Seq<char>, team: Team },
    Delete { id: Seq<char> },
}

/// A statement with its arguments.
#[derive(Debug)]
pub enum Statement {
    /// Read every team.
    SelectAll,
    /// Read the team with this id.
    SelectById { id: String },
    /// Add a team.
    Insert { row: TeamRow },
    /// Write the team with this id, but not its id nor when it was created.
    Update { id: String, row: TeamRow },
    /// Remove the team with this id.
    Delete { id: String },
}

impl View for Statement {
    type V = Command;

    open spec fn view(&self) -> Command {
        match self {
            Statement::SelectAll => Command::SelectAll,
            Statement::SelectById { id } => Command::SelectById { id: id@ },
            Statement::Insert { row } => Command::Insert { team: row@ },
            Statement::Update { id, row } => Command::Update { id: id@, team: row@ },
            Statement::Delete { id } => Command::Delete { id: id@ },
        }
    }
}

impl Statement {
    /// What a statement writes is written in its canonical form.
    pub open spec fn canonical(self) -> bool {
        match self {
            Statement::Insert { row } => row.canonical(),
            Statement::Update { row, .. } => row.canonical(),
            _ => true,
        }
    }

    /// The text of the statement.
    pub open spec fn sql_text(self) -> Seq<char> {
        match self {
            Statement::SelectAll => SELECT_ALL@,
            Statement::SelectById { .. } => SELECT_BY_ID@,
            Statement::Insert { .. } => INSERT@,
            Statement::Update { .. } => UPDATE@,
            Statement::Delete { .. } => DELETE@,
        }
    }

    /// The values for the numbered places of the text, in their order; `None` is NULL.
    pub open spec fn arguments(self) -> Seq<Option<Seq<char>>> {
        match self {
            Statement::SelectAll => seq![],
            Statement::SelectById { id } => seq![Some(id@)],
            Statement::Insert { row } => seq![
                Some(row.id@),
                Some(row.name@),
                row.description.deep_view(),
                Some(row.members@),
                Some(row.coordination@),
                row.lead_agent_id.deep_view(),
                row.created_at.deep_view(),
            ],
            Statement::Update { id, row } => seq![
                Some(row.name@),
                row.description.deep_view(),
                Some(row.members@),
                Some(row.coordination@),
                row.lead_agent_id.deep_view(),
                row.updated_at.deep_view(),
                Some(id@),
            ],
            Statement::Delete { id } => seq![Some(id@)],
        }
    }

    /// The text of the statement.
    pub fn sql(&self) -> (text: &'static str)
        ensures
            text@ == self.sql_text(),
    {
        match self {
            Statement::SelectAll => SELECT_ALL,
            Statement::SelectById { .. } => SELECT_BY_ID,
            Statement::Insert { .. } => INSERT,
            Statement::Update { .. } => UPDATE,
            Statement::Delete { .. } => DELETE,
        }
    }

    /// The values for the numbered places of the text, in their order; `None` is NULL.
    pub fn params(&self) -> (values: Vec<Option<String>>)
        ensures
            values.deep_view() == self.arguments(),
    {
        let values: Vec<Option<String>> = match self {
            Statement::SelectAll => Vec::new(),
            Statement::SelectById { id } => vec![Some(id.clone())],
            Statement::Insert { row } => vec![
                Some(row.id.clone()),
                Some(row.name.clone()),
                row.description.clone(),
                Some(row.members.clone()),
                Some(row.coordination.clone()),
                row.lead_agent_id.clone(),
                row.created_at.clone(),
            ],
            Statement::Update { id, row } => vec![
                Some(row.name.clone()),
                row.description.clone(),
                Some(row.members.clone()),
                Some(row.coordination.clone()),
                row.lead_agent_id.clone(),
                row.updated_at.clone(),
                Some(id.clone()),
            ],
            Statement::Delete { id } => vec![Some(id.clone())],
        };
        assert(values.deep_view() =~= self.arguments());
        values
    }
}

} // verus!
