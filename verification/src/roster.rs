//! The rules of a team: what its fields are when it is created, what a patch changes,
//! and how members come and go.

use vstd::prelude::*;

use crate::record::{no_patch, CreateTeam, NewTeam, Patch, Team, TeamRecord, UpdateTeam};
use crate::text::same_text;

verus! {

/// The team that is stored for a client's input, under this id and at this time.
pub open spec fn created(input: NewTeam, id: Seq<char>, now: Seq<char>) -> Team {
    Team {
        id,
        name: input.name,
        description: input.description,
        members: input.members,
        coordination: input.coordination,
        lead_agent_id: input.lead_agent_id,
        created_at: Some(now),
        updated_at: Some(now),
    }
}

/// The record of a new team.
pub fn new_record(input: CreateTeam, id: String, now: String) -> (record: TeamRecord)
    ensures
        record@ == created(input@, id@, now@),
{
    TeamRecord {
        id,
        name: input.name,
        description: input.description,
        members: input.members,
        coordination: input.coordination,
        lead_agent_id: input.lead_agent_id,
        created_at: Some(now.clone()),
        updated_at: Some(now),
    }
}

/// The new value where there is one, else the old.
pub open spec fn or_else<T>(new: Option<T>, old: T) -> T {
    match new {
        Some(value) => value,
        None => old,
    }
}

/// A team with the fields of a patch put in. The description can be replaced but not
/// cleared; the lead can be both.
pub open spec fn applied(team: Team, patch: Patch) -> Team {
    Team {
        name: or_else(patch.name, team.name),
        description: if patch.description is Some {
            patch.description
        } else {
            team.description
        },
        members: or_else(patch.members, team.members),
        coordination: or_else(patch.coordination, team.coordination),
        lead_agent_id: or_else(patch.lead_agent_id, team.lead_agent_id),
        ..team
    }
}

/// A team last changed at this time.
pub open spec fn stamped(team: Team, now: Seq<char>) -> Team {
    Team { updated_at: Some(now), ..team }
}

/// Put the fields of a patch into a record.
pub fn apply_patch(record: TeamRecord, patch: UpdateTeam) -> (changed: TeamRecord)
    ensures
        changed@ == applied(record@, patch@),
{
    let mut changed = record;
    if let Some(name) = patch.name {
        changed.name = name;
    }
    if let Some(description) = patch.description {
        changed.description = Some(description);
    }
    if let Some(members) = patch.members {
        changed.members = members;
    }
    if let Some(coordination) = patch.coordination {
        changed.coordination = coordination;
    }
    if let Some(lead) = patch.lead_agent_id {
        changed.lead_agent_id = lead;
    }
    changed
}

/// The patch that replaces the member list and nothing else.
pub open spec fn members_patch(members: Seq<Seq<char>>) -> Patch {
    Patch { members: Some(members), ..no_patch() }
}

/// The patch that replaces the member list and nothing else.
pub fn replace_members(members: Vec<String>) -> (patch: UpdateTeam)
    ensures
        patch@ == members_patch(members.deep_view()),
{
    UpdateTeam {
        name: None,
        description: None,
        members: Some(members),
        coordination: None,
        lead_agent_id: None,
    }
}

/// A member list after an agent joined: it comes last, unless it was there already.
pub open spec fn joined(members: Seq<Seq<char>>, agent: Seq<char>) -> Seq<Seq<char>> {
    if members.contains(agent) {
        members
    } else {
        members.push(agent)
    }
}

/// A member list after an agent left: the others, in their order.
pub open spec fn left(members: Seq<Seq<char>>, agent: Seq<char>) -> Seq<Seq<char>> {
    members.filter(|m: Seq<char>| m != agent)
}

/// Whether an agent is in a member list.
pub fn is_member(members: &Vec<String>, agent: &str) -> (yes: bool)
    ensures
        yes == members.deep_view().contains(agent@),
{
    let ghost list = members.deep_view();
    let mut i: usize = 0;
    while i < members.len()
        invariant
            i <= members@.len(),
            list == members.deep_view(),
            forall|j: int| 0 <= j < i ==> #[trigger] list[j] != agent@,
        decreases members@.len() - i,
    {
        if same_text(members[i].as_str(), agent) {
            assert(list[i as int] == agent@);
            return true;
        }
        i = i + 1;
    }
    false
}

/// One more element and whether it stays.
proof fn lemma_left_push(members: Seq<Seq<char>>, m: Seq<char>, agent: Seq<char>)
    ensures
        left(members.push(m), agent) == if m == agent {
            left(members, agent)
        } else {
            left(members, agent).push(m)
        },
{
    reveal(Seq::filter);
    assert(members.push(m).drop_last() == members);
}

/// The member list without an agent.
pub fn without_member(members: Vec<String>, agent: &str) -> (rest: Vec<String>)
    ensures
        rest.deep_view() == left(members.deep_view(), agent@),
{
    let ghost list = members.deep_view();
    let mut rest: Vec<String> = Vec::new();
    let mut i: usize = 0;
    proof {
        reveal(Seq::filter);
        assert(left(list.take(0), agent@) =~= Seq::<Seq<char>>::empty());
        assert(rest.deep_view() =~= Seq::<Seq<char>>::empty());
    }
    while i < members.len()
        invariant
            i <= members@.len(),
            list == members.deep_view(),
            rest.deep_view() == left(list.take(i as int), agent@),
        decreases members@.len() - i,
    {
        let ghost before = rest.deep_view();
        proof {
            assert(list.take(i + 1) == list.take(i as int).push(list[i as int]));
            lemma_left_push(list.take(i as int), list[i as int], agent@);
        }
        if !same_text(members[i].as_str(), agent) {
            rest.push(members[i].clone());
            assert(rest.deep_view() =~= before.push(list[i as int]));
        }
        i = i + 1;
    }
    assert(list.take(i as int) == list);
    rest
}

/// The patch without fields changes nothing.
pub proof fn law_empty_patch(team: Team)
    ensures
        applied(team, no_patch()) == team,
{
}

/// A patch changes the fields that it holds and no other: the id and the times stay, and
/// so does each field that the patch leaves out.
pub proof fn law_patch_changes_only_present_fields(team: Team, patch: Patch)
    ensures
        applied(team, patch).id == team.id,
        applied(team, patch).created_at == team.created_at,
        applied(team, patch).updated_at == team.updated_at,
        patch.name is None ==> applied(team, patch).name == team.name,
        patch.name is Some ==> applied(team, patch).name == patch.name->0,
        patch.description is None ==> applied(team, patch).description == team.description,
        patch.description is Some ==> applied(team, patch).description == patch.description,
        patch.members is None ==> applied(team, patch).members == team.members,
        patch.members is Some ==> applied(team, patch).members == patch.members->0,
        patch.coordination is None ==> applied(team, patch).coordination == team.coordination,
        patch.coordination is Some ==> applied(team, patch).coordination == patch.coordination->0,
        patch.lead_agent_id is None ==> applied(team, patch).lead_agent_id == team.lead_agent_id,
        patch.lead_agent_id is Some ==> applied(team, patch).lead_agent_id
            == patch.lead_agent_id->0,
{
}

/// A patch put in twice is as good as once.
pub proof fn law_patch_idempotent(team: Team, patch: Patch)
    ensures
        applied(applied(team, patch), patch) == applied(team, patch),
{
}

/// No patch clears the description of a team.
pub proof fn law_description_cannot_be_cleared(team: Team, patch: Patch)
    requires
        team.description is Some,
    ensures
        applied(team, patch).description is Some,
{
}

/// Of an agent that joins: it is a member then, the others keep their places, and a second
/// time changes nothing.
pub proof fn law_join(members: Seq<Seq<char>>, agent: Seq<char>)
    ensures
        joined(members, agent).contains(agent),
        members.is_prefix_of(joined(members, agent)),
        joined(joined(members, agent), agent) == joined(members, agent),
        members.no_duplicates() ==> joined(members, agent).no_duplicates(),
        !members.contains(agent) ==> joined(members, agent).last() == agent,
{
    if !members.contains(agent) {
        assert(members.push(agent)[members.len() as int] == agent);
    }
}

proof fn lemma_push_contains<T>(s: Seq<T>, x: T, y: T)
    ensures
        s.push(x).contains(y) <==> s.contains(y) || x == y,
{
    let longer = s.push(x);
    if s.contains(y) {
        let i = choose|i: int| 0 <= i < s.len() && s[i] == y;
        assert(longer[i] == y);
    }
    if x == y {
        assert(longer[s.len() as int] == y);
    }
}

/// Of an agent that leaves: it is no member then, the others are as before, and a second
/// time changes nothing.
pub proof fn law_leave(members: Seq<Seq<char>>, agent: Seq<char>)
    ensures
        !left(members, agent).contains(agent),
        forall|other: Seq<char>|
            other != agent ==> (#[trigger] left(members, agent).contains(other)
                <==> members.contains(other)),
        !members.contains(agent) <==> left(members, agent) == members,
        left(left(members, agent), agent) == left(members, agent),
        members.no_duplicates() ==> left(members, agent).no_duplicates(),
    decreases members.len(),
{
    reveal(Seq::filter);
    if members.len() > 0 {
        let front = members.drop_last();
        let last = members.last();
        assert(members == front.push(last));
        law_leave(front, agent);
        lemma_left_push(front, last, agent);
        let rest = left(front, agent);
        lemma_left_push(rest, last, agent);
        assert forall|other: Seq<char>| other != agent implies (#[trigger] left(
            members,
            agent,
        ).contains(other) <==> members.contains(other)) by {
            lemma_push_contains(front, last, other);
            lemma_push_contains(rest, last, other);
        }
        lemma_push_contains(front, last, agent);
        lemma_push_contains(rest, last, agent);
        if left(members, agent) == members {
            assert(left(members, agent).contains(last));
        }
        if members.no_duplicates() && last != agent {
            if front.contains(last) {
                let i = choose|i: int| 0 <= i < front.len() && front[i] == last;
                assert(members[i] == members[members.len() - 1]);
            }
            assert(!rest.contains(last));
            assert forall|i: int, j: int|
                0 <= i < j < rest.push(last).len() implies rest.push(last)[i] != rest.push(
                last,
            )[j] by {
                if j == rest.len() {
                    assert(rest.contains(rest[i]));
                }
            }
        }
    }
}

/// Members that stay keep their order: what stays of two lists in a row is what stays of
/// the first, then what stays of the second.
pub proof fn law_leave_keeps_order(a: Seq<Seq<char>>, b: Seq<Seq<char>>, agent: Seq<char>)
    ensures
        left(a + b, agent) == left(a, agent) + left(b, agent),
{
    Seq::filter_distributes_over_add(a, b, |m: Seq<char>| m != agent);
}

/// To leave undoes to join, for an agent that was no member.
pub proof fn law_join_then_leave(members: Seq<Seq<char>>, agent: Seq<char>)
    requires
        !members.contains(agent),
    ensures
        left(joined(members, agent), agent) == members,
{
    lemma_left_push(members, agent, agent);
    law_leave(members, agent);
}

} // verus!
