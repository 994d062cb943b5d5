//! A row of the `teams` table, and how it stands for a record.

use vstd::prelude::*;

use crate::coordination::{lenient, Coordination};
use crate::json::{decode_members, decoded, encode_members, members_json};
use crate::record::{Team, TeamRecord};

verus! {

/// The columns of one row, in the order in which the queries name them.
#[derive(Debug)]
pub struct TeamRow {
    pub id: String,
    pub name: String,
    pub description: Option<String>,
    /// The member list, as JSON text.
    pub members: String,
    /// The text form of the strategy.
    pub coordination: String,
    pub lead_agent_id: Option<String>,
    pub created_at: Option<String>,
    pub updated_at: Option<String>,
}

/// The team that a row stands for. Every row stands for one: a member list that cannot
/// be read counts as empty, and a strategy that is not known as the default.
impl View for TeamRow {
    type V = Team;

    open spec fn view(&self) -> Team {
        Team {
            id: self.id@,
            name: self.name@,
            description: self.description.deep_view(),
            members: decoded(self.members@),
            coordination: lenient(self.coordination@),
            lead_agent_id: self.lead_agent_id.deep_view(),
            created_at: self.created_at.deep_view(),
            updated_at: self.updated_at.deep_view(),
        }
    }
}

impl DeepView for TeamRow {
    type V = Team;

    open spec fn deep_view(&self) -> Team {
        self@
    }
}

impl TeamRow {
    /// The two encoded columns hold what is written for the team that the row stands for.
    pub open spec fn canonical(self) -> bool {
        &&& self.members@ == members_json(self@.members)
        &&& self.coordination@ == self@.coordination.name()
    }
}

/// The record that a row stands for.
pub fn row_to_record(row: TeamRow) -> (record: TeamRecord)
    ensures
        record@ == row@,
{
    let members = decode_members(row.members.as_str());
    record_with(row, members)
}

/// The record that a row stands for whose member list is this.
pub fn record_with(row: TeamRow, members: Vec<String>) -> (record: TeamRecord)
    ensures
        record@ == (Team { members: members.deep_view(), ..row@ }),
{
    TeamRecord {
        id: row.id,
        name: row.name,
        description: row.description,
        members,
        coordination: Coordination::from_str_lenient(row.coordination.as_str()),
        lead_agent_id: row.lead_agent_id,
        created_at: row.created_at,
        updated_at: row.updated_at,
    }
}

/// The row that is written for a record. It stands for that record: nothing is lost in
/// the table.
pub fn record_to_row(record: TeamRecord) -> (row: TeamRow)
    ensures
        row@ == record@,
        row.canonical(),
{
    proof {
        crate::coordination::law_name_round_trip(record.coordination);
    }
    TeamRow {
        id: record.id,
        name: record.name,
        description: record.description,
        members: encode_members(&record.members),
        coordination: record.coordination.as_str().to_owned(),
        lead_agent_id: record.lead_agent_id,
        created_at: record.created_at,
        updated_at: record.updated_at,
    }
}

} // verus!
