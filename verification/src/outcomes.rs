//! What each request comes to, in the fields of the teams before and after it and of its
//! answer, when nothing else writes to the table while it runs.

use vstd::prelude::*;

use crate::api::{
    create_request, delete_request, health_request, list_request, lookup_api, member_request,
    Answer, BodyModel, EventKind, PayloadModel, TaskModel,
};
use crate::laws::{
    law_blank_name_is_refused, law_create_request, law_delete_request, law_get_request,
    law_health_request, law_join_request, law_leave_request, law_list_request, law_taken_id,
    law_update_request,
};
use crate::record::{NewTeam, Patch, Team};
use crate::roster::left;
use crate::store::{get_step, update_step, MemberChange};
use crate::table::{run_api, valid, Surroundings, Table};
use crate::text::{lemma_trim_empty, text_le, white_space};

verus! {

/// Whether a table is another but for one team, which may have come, gone or changed.
pub open spec fn same_but(after: Table, table: Table, id: Seq<char>) -> bool {
    forall|other: Seq<char>|
        other != id ==> {
            &&& #[trigger] after.contains_key(other) <==> table.contains_key(other)
            &&& table.contains_key(other) ==> after[other] == table[other]
        }
}

/// Whether an answer tells of the success of a request that raised no event, with this team.
pub open spec fn gives_quietly(answer: Answer, team: Team) -> bool {
    &&& answer.status == 200
    &&& answer.event is None
    &&& answer.body == (BodyModel::Team { team })
}

/// Whether an answer says that there is no team with this id.
pub open spec fn says_missing(answer: Answer, id: Seq<char>) -> bool {
    &&& answer.status == 404
    &&& answer.event is None
    &&& answer.body == (BodyModel::Error { message: "team '"@ + id + "' not found"@ })
}

/// A request to create a team whose name is not blank stores, under the id that it was
/// given, every field as the client sent it and both times as the time of the call; it
/// answers with that team, and its event is that of a creation and carries that team.
pub proof fn law_creation_stores_what_was_sent(
    table: Table,
    input: NewTeam,
    id: Seq<char>,
    now: Seq<char>,
    with: Surroundings,
)
    requires
        exists|i: int| 0 <= i < input.name.len() && !white_space(#[trigger] input.name[i]),
        !table.contains_key(id),
    ensures
        ({
            let (after, answer) = run_api(table, create_request(input, id, now), with);
            let team = after[id];
            &&& same_but(after, table, id)
            &&& after.contains_key(id)
            &&& team.id == id
            &&& team.name == input.name
            &&& team.description == input.description
            &&& team.members.len() == input.members.len()
            &&& forall|i: int|
                0 <= i < input.members.len() ==> #[trigger] team.members[i] == input.members[i]
            &&& team.coordination == input.coordination
            &&& team.lead_agent_id == input.lead_agent_id
            &&& team.created_at == Some(now)
            &&& team.updated_at == Some(now)
            &&& answer.status == 200
            &&& answer.body == (BodyModel::Team { team })
            &&& answer.event is Some
            &&& answer.event->0.kind == EventKind::Created
            &&& answer.event->0.payload == (PayloadModel::Record { team })
        }),
{
    lemma_trim_empty(input.name);
    law_create_request(table, input, id, now, with);
}

/// A request to create a team is refused where the name is blank and fails where the id is
/// taken; either way nothing is stored and nothing raised.
pub proof fn law_refused_creation_stores_nothing(
    table: Table,
    input: NewTeam,
    id: Seq<char>,
    now: Seq<char>,
    with: Surroundings,
)
    ensures
        ({
            let (after, answer) = run_api(table, create_request(input, id, now), with);
            let blank = forall|i: int|
                0 <= i < input.name.len() ==> white_space(#[trigger] input.name[i]);
            &&& blank || table.contains_key(id) ==> after == table && answer.event is None
            &&& blank ==> {
                &&& answer.status == 400
                &&& answer.body == (BodyModel::Error { message: "team name is required"@ })
            }
            &&& !blank && table.contains_key(id) ==> {
                &&& answer.status == 500
                &&& answer.body == (BodyModel::Error { message: with.refusal })
            }
        }),
{
    lemma_trim_empty(input.name);
    if input.name.len() == 0 || forall|i: int|
        0 <= i < input.name.len() ==> white_space(#[trigger] input.name[i]) {
        law_blank_name_is_refused(table, input, id, now, with);
    } else if table.contains_key(id) {
        law_taken_id(table, input, id, now, with);
    }
}

/// The read of a team answers with the very team that is stored, raises nothing and changes
/// nothing.
pub proof fn law_read_gives_the_stored_team(table: Table, id: Seq<char>, with: Surroundings)
    ensures
        ({
            let (after, answer) = run_api(
                table,
                lookup_api(id, TaskModel::Get, get_step(id)),
                with,
            );
            &&& after == table
            &&& table.contains_key(id) ==> gives_quietly(answer, table[id])
            &&& !table.contains_key(id) ==> says_missing(answer, id)
        }),
{
    law_get_request(table, id, with);
}

/// A patch leaves the id and the time of creation of a team, sets the time of its last
/// change, and of the other fields changes those that it holds. The team is answered with,
/// and its event is that of a change and carries it.
pub proof fn law_patch_outcome(table: Table, id: Seq<char>, patch: Patch, with: Surroundings)
    ensures
        ({
            let (after, answer) = run_api(
                table,
                lookup_api(id, TaskModel::Update, update_step(id, patch)),
                with,
            );
            let was = table[id];
            let team = after[id];
            &&& !table.contains_key(id) ==> after == table && says_missing(answer, id)
            &&& table.contains_key(id) ==> {
                &&& same_but(after, table, id)
                &&& after.contains_key(id)
                &&& team.id == was.id
                &&& team.created_at == was.created_at
                &&& team.updated_at == Some(with.now)
                &&& team.name == match patch.name {
                    Some(name) => name,
                    None => was.name,
                }
                &&& team.description == match patch.description {
                    Some(description) => Some(description),
                    None => was.description,
                }
                &&& team.members == match patch.members {
                    Some(members) => members,
                    None => was.members,
                }
                &&& team.coordination == match patch.coordination {
                    Some(coordination) => coordination,
                    None => was.coordination,
                }
                &&& team.lead_agent_id == match patch.lead_agent_id {
                    Some(lead) => lead,
                    None => was.lead_agent_id,
                }
                &&& answer.status == 200
                &&& answer.body == (BodyModel::Team { team })
                &&& answer.event is Some
                &&& answer.event->0.kind == EventKind::Updated
                &&& answer.event->0.payload == (PayloadModel::Record { team })
            }
        }),
{
    law_update_request(table, id, patch, with);
}

/// Whether of a team only the member list and the time of its last change differ.
pub open spec fn same_but_members(team: Team, was: Team) -> bool {
    &&& team.id == was.id
    &&& team.name == was.name
    &&& team.description == was.description
    &&& team.coordination == was.coordination
    &&& team.lead_agent_id == was.lead_agent_id
    &&& team.created_at == was.created_at
}

/// An agent that joins a team comes last in its member list; nothing else of the team
/// changes but the time of its last change. The team is answered with, and its event is that
/// of a change and carries it. An agent that is in the team already changes nothing and
/// raises nothing, and the team is answered with as it is stored.
pub proof fn law_join_outcome(
    table: Table,
    id: Seq<char>,
    agent_id: Seq<char>,
    with: Surroundings,
)
    ensures
        ({
            let (after, answer) = run_api(
                table,
                member_request(id, agent_id, MemberChange::Join),
                with,
            );
            let was = table[id];
            let team = after[id];
            if !table.contains_key(id) {
                after == table && says_missing(answer, id)
            } else if was.members.contains(agent_id) {
                after == table && gives_quietly(answer, was)
            } else {
                &&& same_but(after, table, id)
                &&& after.contains_key(id)
                &&& same_but_members(team, was)
                &&& team.updated_at == Some(with.now)
                &&& team.members.len() == was.members.len() + 1
                &&& team.members.last() == agent_id
                &&& forall|i: int|
                    0 <= i < was.members.len() ==> #[trigger] team.members[i] == was.members[i]
                &&& answer.status == 200
                &&& answer.body == (BodyModel::Team { team })
                &&& answer.event is Some
                &&& answer.event->0.kind == EventKind::Updated
                &&& answer.event->0.payload == (PayloadModel::Record { team })
            }
        }),
{
    law_join_request(table, id, agent_id, with);
}

/// An agent that leaves a team is gone from its member list, and the others stay in their
/// order; nothing else of the team changes but the time of its last change. The team is
/// answered with, and its event is that of a change and carries it. An agent that is not in
/// the team changes nothing and raises nothing, and the team is answered with as it is
/// stored.
pub proof fn law_leave_outcome(
    table: Table,
    id: Seq<char>,
    agent_id: Seq<char>,
    with: Surroundings,
)
    ensures
        ({
            let (after, answer) = run_api(
                table,
                member_request(id, agent_id, MemberChange::Leave),
                with,
            );
            let was = table[id];
            let team = after[id];
            if !table.contains_key(id) {
                after == table && says_missing(answer, id)
            } else if !was.members.contains(agent_id) {
                after == table && gives_quietly(answer, was)
            } else {
                &&& same_but(after, table, id)
                &&& after.contains_key(id)
                &&& same_but_members(team, was)
                &&& team.updated_at == Some(with.now)
                &&& team.members == left(was.members, agent_id)
                &&& !team.members.contains(agent_id)
                &&& forall|other: Seq<char>|
                    other != agent_id ==> (#[trigger] team.members.contains(other)
                        <==> was.members.contains(other))
                &&& answer.status == 200
                &&& answer.body == (BodyModel::Team { team })
                &&& answer.event is Some
                &&& answer.event->0.kind == EventKind::Updated
                &&& answer.event->0.payload == (PayloadModel::Record { team })
            }
        }),
{
    law_leave_request(table, id, agent_id, with);
    crate::roster::law_leave(table[id].members, agent_id);
}

/// A removal takes the team out of the table and no other; its event is that of a removal
/// and carries the team as it was stored.
pub proof fn law_removal_outcome(table: Table, id: Seq<char>, with: Surroundings)
    ensures
        ({
            let (after, answer) = run_api(table, delete_request(id), with);
            &&& same_but(after, table, id)
            &&& !after.contains_key(id)
            &&& !table.contains_key(id) ==> says_missing(answer, id)
            &&& table.contains_key(id) ==> {
                &&& answer.status == 200
                &&& answer.body is Success
                &&& answer.event is Some
                &&& answer.event->0.kind == EventKind::Deleted
                &&& answer.event->0.payload == (PayloadModel::Record { team: table[id] })
            }
        }),
{
    law_delete_request(table, id, with);
}

/// A listing answers with as many teams as are stored, each one as it is stored, none
/// twice, those created first first; a health probe with how many there are. Neither
/// changes or raises anything.
pub proof fn law_listing_outcome(table: Table, with: Surroundings)
    requires
        valid(table),
    ensures
        ({
            let (after, answer) = run_api(table, list_request(), with);
            let teams = answer.body->teams;
            &&& after == table
            &&& answer.status == 200
            &&& answer.event is None
            &&& answer.body is Teams
            &&& teams.len() == table.dom().len()
            &&& forall|i: int|
                0 <= i < teams.len() ==> table.contains_key(#[trigger] teams[i].id)
                    && table[teams[i].id] == teams[i]
            &&& forall|i: int, j: int|
                0 <= i < j < teams.len() ==> {
                    &&& #[trigger] teams[i].id != #[trigger] teams[j].id
                    &&& text_le(teams[i].created_at->0, teams[j].created_at->0)
                }
        }),
        ({
            let (after, answer) = run_api(table, health_request(), with);
            &&& after == table
            &&& answer.status == 200
            &&& answer.event is None
            &&& answer.body == (BodyModel::Healthy { team_count: table.dom().len() })
        }),
{
    law_list_request(table, with);
    law_health_request(table, with);
    let teams = run_api(table, list_request(), with).1.body->teams;
    crate::table::law_listing_is_complete(table, teams);
    assert forall|i: int| 0 <= i < teams.len() implies table.contains_key(#[trigger] teams[i].id)
        && table[teams[i].id] == teams[i] by {
        assert(crate::table::lookup(table, teams[i].id) == Some(teams[i]));
    }
    assert forall|i: int, j: int| 0 <= i < j < teams.len() implies {
        &&& #[trigger] teams[i].id != #[trigger] teams[j].id
        &&& text_le(teams[i].created_at->0, teams[j].created_at->0)
    } by {
        let (a, b) = (teams[i], teams[j]);
        assert(text_le(a.created_at->0, b.created_at->0));
    }
}

} // verus!
