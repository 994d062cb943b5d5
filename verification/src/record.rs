//! Team records and what clients send to create and change them.

use vstd::prelude::*;

use crate::coordination::Coordination;

verus! {

/// A team, as a value.
#[verifier::ext_equal]
pub struct Team {
    pub id: Seq<char>,
    pub name: Seq<char>,
    pub description: Option<Seq<char>>,
    pub members: Seq<Seq<char>>,
    pub coordination: Coordination,
    pub lead_agent_id: Option<Seq<char>>,
    pub created_at: Option<Seq<char>>,
    pub updated_at: Option<Seq<char>>,
}

/// A persisted team.
#[derive(Debug)]
pub struct TeamRecord {
    pub id: String,
    pub name: String,
    pub description: Option<String>,
    /// Ordered list of member agent ids. The order is the turn order for
    /// [`Coordination::RoundRobin`].
    pub members: Vec<String>,
    /// How members respond when the team is called.
    pub coordination: Coordination,
    /// The synthesizer for [`Coordination::DebateSynthesis`] and the classifier for
    /// [`Coordination::Router`].
    pub lead_agent_id: Option<String>,
    pub created_at: Option<String>,
    pub updated_at: Option<String>,
}

impl View for TeamRecord {
    type V = Team;

    open spec fn view(&self) -> Team {
        Team {
            id: self.id@,
            name: self.name@,
            description: self.description.deep_view(),
            members: self.members.deep_view(),
            coordination: self.coordination,
            lead_agent_id: self.lead_agent_id.deep_view(),
            created_at: self.created_at.deep_view(),
            updated_at: self.updated_at.deep_view(),
        }
    }
}

impl DeepView for TeamRecord {
    type V = Team;

    open spec fn deep_view(&self) -> Team {
        self@
    }
}

/// A copy of a string list.
pub fn clone_strings(list: &Vec<String>) -> (copy: Vec<String>)
    ensures
        copy.deep_view() == list.deep_view(),
{
    let copy = list.clone();
    assert(copy.deep_view() =~= list.deep_view());
    copy
}

impl Clone for TeamRecord {
    fn clone(&self) -> (copy: Self)
        ensures
            copy@ == self@,
    {
        TeamRecord {
            id: self.id.clone(),
            name: self.name.clone(),
            description: self.description.clone(),
            members: clone_strings(&self.members),
            coordination: self.coordination,
            lead_agent_id: self.lead_agent_id.clone(),
            created_at: self.created_at.clone(),
            updated_at: self.updated_at.clone(),
        }
    }
}

/// What a client supplies to create a team, as a value.
#[verifier::ext_equal]
pub struct NewTeam {
    pub name: Seq<char>,
    pub description: Option<Seq<char>>,
    pub members: Seq<Seq<char>>,
    pub coordination: Coordination,
    pub lead_agent_id: Option<Seq<char>>,
}

/// Fields a client may supply when creating a team. The id is assigned by the store.
#[derive(Debug)]
pub struct CreateTeam {
    pub name: String,
    pub description: Option<String>,
    pub members: Vec<String>,
    pub coordination: Coordination,
    pub lead_agent_id: Option<String>,
}

impl View for CreateTeam {
    type V = NewTeam;

    open spec fn view(&self) -> NewTeam {
        NewTeam {
            name: self.name@,
            description: self.description.deep_view(),
            members: self.members.deep_view(),
            coordination: self.coordination,
            lead_agent_id: self.lead_agent_id.deep_view(),
        }
    }
}

impl Clone for CreateTeam {
    fn clone(&self) -> (copy: Self)
        ensures
            copy@ == self@,
    {
        CreateTeam {
            name: self.name.clone(),
            description: self.description.clone(),
            members: clone_strings(&self.members),
            coordination: self.coordination,
            lead_agent_id: self.lead_agent_id.clone(),
        }
    }
}

impl Default for CreateTeam {
    fn default() -> (input: Self)
        ensures
            input@ == (NewTeam {
                name: Seq::empty(),
                description: None,
                members: Seq::empty(),
                coordination: Coordination::Broadcast,
                lead_agent_id: None,
            }),
    {
        CreateTeam {
            name: String::new(),
            description: None,
            members: Vec::new(),
            coordination: Coordination::Broadcast,
            lead_agent_id: None,
        }
    }
}

/// A change to a team, as a value.
#[verifier::ext_equal]
pub struct Patch {
    pub name: Option<Seq<char>>,
    pub description: Option<Seq<char>>,
    pub members: Option<Seq<Seq<char>>>,
    pub coordination: Option<Coordination>,
    pub lead_agent_id: Option<Option<Seq<char>>>,
}

/// Fields a client may patch. Absent fields are left unchanged.
#[derive(Debug)]
pub struct UpdateTeam {
    pub name: Option<String>,
    pub description: Option<String>,
    /// Replaces the full ordered member list.
    pub members: Option<Vec<String>>,
    pub coordination: Option<Coordination>,
    /// `Some(Some(id))` sets the lead, `Some(None)` clears it, `None` leaves it unchanged.
    pub lead_agent_id: Option<Option<String>>,
}

impl View for UpdateTeam {
    type V = Patch;

    open spec fn view(&self) -> Patch {
        Patch {
            name: self.name.deep_view(),
            description: self.description.deep_view(),
            members: self.members.deep_view(),
            coordination: self.coordination,
            lead_agent_id: self.lead_agent_id.deep_view(),
        }
    }
}

impl Clone for UpdateTeam {
    fn clone(&self) -> (copy: Self)
        ensures
            copy@ == self@,
    {
        UpdateTeam {
            name: self.name.clone(),
            description: self.description.clone(),
            members: match &self.members {
                Some(members) => Some(clone_strings(members)),
                None => None,
            },
            coordination: self.coordination,
            lead_agent_id: match &self.lead_agent_id {
                Some(lead) => Some(lead.clone()),
                None => None,
            },
        }
    }
}

/// What a lead that a client's patch holds comes to: present, and either an id or null.
pub fn double_option(lead: Option<String>) -> (patched: Option<Option<String>>)
    ensures
        patched == Some(lead),
{
    Some(lead)
}

/// The patch that changes nothing.
pub open spec fn no_patch() -> Patch {
    Patch { name: None, description: None, members: None, coordination: None, lead_agent_id: None }
}

impl Default for UpdateTeam {
    fn default() -> (patch: Self)
        ensures
            patch@ == no_patch(),
    {
        UpdateTeam {
            name: None,
            description: None,
            members: None,
            coordination: None,
            lead_agent_id: None,
        }
    }
}

} // verus!
