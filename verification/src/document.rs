//! The JSON object that a record is read as, and that an event carries: its keys and their
//! values, in order. Turning them into text is left to whoever sends them.

use vstd::prelude::*;

use crate::api::{Payload, PayloadModel};
use crate::record::{Team, TeamRecord};

verus! {

/// A value in a document, as a value.
#[verifier::ext_equal]
pub enum ValueModel {
    Null,
    Text { text: Seq<char> },
    List { items: Seq<Seq<char>> },
}

/// A value in a document: null, a string, or an array of strings.
#[derive(Debug)]
pub enum Value {
    Null,
    Text { text: String },
    List { items: Vec<String> },
}

impl View for Value {
    type V = ValueModel;

    open spec fn view(&self) -> ValueModel {
        match self {
            Value::Null => ValueModel::Null,
            Value::Text { text } => ValueModel::Text { text: text@ },
            Value::List { items } => ValueModel::List { items: items.deep_view() },
        }
    }
}

/// A key of a document and its value, as a value.
#[verifier::ext_equal]
pub struct FieldModel {
    pub key: Seq<char>,
    pub value: ValueModel,
}

/// A key of a document and its value.
#[derive(Debug)]
pub struct Field {
    pub key: &'static str,
    pub value: Value,
}

impl View for Field {
    type V = FieldModel;

    open spec fn view(&self) -> FieldModel {
        FieldModel { key: self.key@, value: self.value@ }
    }
}

impl DeepView for Field {
    type V = FieldModel;

    open spec fn deep_view(&self) -> FieldModel {
        self@
    }
}

/// A key with a string.
pub open spec fn text_field(key: Seq<char>, text: Seq<char>) -> FieldModel {
    FieldModel { key, value: ValueModel::Text { text } }
}

/// A key with a string or null.
pub open spec fn nullable_field(key: Seq<char>, text: Option<Seq<char>>) -> FieldModel {
    FieldModel {
        key,
        value: match text {
            Some(text) => ValueModel::Text { text },
            None => ValueModel::Null,
        },
    }
}

/// The document of a team. The strategy stands in it by its name, the members in their
/// order. A lead that is not set is left out; whatever else is not set is null.
pub open spec fn team_document(team: Team) -> Seq<FieldModel> {
    seq![
        text_field("id"@, team.id),
        text_field("name"@, team.name),
        nullable_field("description"@, team.description),
        FieldModel { key: "members"@, value: ValueModel::List { items: team.members } },
        text_field("coordination"@, team.coordination.name()),
    ] + (match team.lead_agent_id {
        Some(lead) => seq![text_field("lead_agent_id"@, lead)],
        None => seq![],
    }) + seq![
        nullable_field("created_at"@, team.created_at),
        nullable_field("updated_at"@, team.updated_at),
    ]
}

fn text_value(key: &'static str, text: String) -> (field: Field)
    ensures
        field@ == text_field(key@, text@),
{
    Field { key, value: Value::Text { text } }
}

fn nullable_value(key: &'static str, text: Option<String>) -> (field: Field)
    ensures
        field@ == nullable_field(key@, text.deep_view()),
{
    match text {
        Some(text) => Field { key, value: Value::Text { text } },
        None => Field { key, value: Value::Null },
    }
}

/// The document of a record.
pub fn record_fields(record: TeamRecord) -> (fields: Vec<Field>)
    ensures
        fields.deep_view() == team_document(record@),
{
    let ghost document = team_document(record@);
    let mut fields: Vec<Field> = Vec::new();
    fields.push(text_value("id", record.id));
    fields.push(text_value("name", record.name));
    fields.push(nullable_value("description", record.description));
    fields.push(Field { key: "members", value: Value::List { items: record.members } });
    fields.push(text_value("coordination", record.coordination.as_str().to_owned()));
    if let Some(lead) = record.lead_agent_id {
        fields.push(text_value("lead_agent_id", lead));
    }
    fields.push(nullable_value("created_at", record.created_at));
    fields.push(nullable_value("updated_at", record.updated_at));
    assert(fields.deep_view() =~= document);
    fields
}

/// What an event carries: the document of the team, or one of its id alone.
pub open spec fn payload_document(payload: PayloadModel) -> Seq<FieldModel> {
    match payload {
        PayloadModel::Record { team } => team_document(team),
        PayloadModel::IdOnly { id } => seq![text_field("id"@, id)],
    }
}

/// What an event carries.
pub fn payload_fields(payload: Payload) -> (fields: Vec<Field>)
    ensures
        fields.deep_view() == payload_document(payload@),
{
    match payload {
        Payload::Record { team } => record_fields(team),
        Payload::IdOnly { id } => {
            let ghost document = payload_document(payload@);
            let mut fields: Vec<Field> = Vec::new();
            fields.push(text_value("id", id));
            assert(fields.deep_view() =~= document);
            fields
        },
    }
}

/// Whether a document has a key.
pub open spec fn has_key(document: Seq<FieldModel>, key: Seq<char>) -> bool {
    exists|i: int| 0 <= i < document.len() && #[trigger] document[i].key == key
}

/// The keys of a team's document differ.
proof fn lemma_keys_distinct()
    ensures
        "id"@.len() == 2,
        "name"@.len() == 4,
        "description"@.len() == 11,
        "members"@.len() == 7,
        "coordination"@.len() == 12,
        "lead_agent_id"@.len() == 13,
        "created_at"@.len() == 10,
        "updated_at"@.len() == 10,
        "created_at"@ != "updated_at"@,
{
    reveal_strlit("id");
    reveal_strlit("name");
    reveal_strlit("description");
    reveal_strlit("members");
    reveal_strlit("coordination");
    reveal_strlit("lead_agent_id");
    reveal_strlit("created_at");
    reveal_strlit("updated_at");
    assert("created_at"@[0] != "updated_at"@[0]);
}

/// No key stands twice in the document of a team; the lead stands in it exactly when it is
/// set; every other key always does.
pub proof fn law_team_document(team: Team)
    ensures
        team_document(team).len() == if team.lead_agent_id is Some {
            8int
        } else {
            7int
        },
        forall|i: int, j: int|
            0 <= i < j < team_document(team).len() ==> #[trigger] team_document(team)[i].key
                != #[trigger] team_document(team)[j].key,
        has_key(team_document(team), "lead_agent_id"@) <==> team.lead_agent_id is Some,
        team.lead_agent_id is Some ==> team_document(team).contains(
            text_field("lead_agent_id"@, team.lead_agent_id->0),
        ),
        team_document(team).contains(text_field("id"@, team.id)),
        team_document(team).contains(text_field("name"@, team.name)),
        team_document(team).contains(nullable_field("description"@, team.description)),
        team_document(team).contains(
            FieldModel { key: "members"@, value: ValueModel::List { items: team.members } },
        ),
        team_document(team).contains(text_field("coordination"@, team.coordination.name())),
        team_document(team).contains(nullable_field("created_at"@, team.created_at)),
        team_document(team).contains(nullable_field("updated_at"@, team.updated_at)),
{
    lemma_keys_distinct();
    let document = team_document(team);
    let n = document.len() as int;
    assert(document[0] == text_field("id"@, team.id));
    assert(document[1] == text_field("name"@, team.name));
    assert(document[2] == nullable_field("description"@, team.description));
    assert(document[3].key == "members"@);
    assert(document[4] == text_field("coordination"@, team.coordination.name()));
    assert(document[n - 2] == nullable_field("created_at"@, team.created_at));
    assert(document[n - 1] == nullable_field("updated_at"@, team.updated_at));
    if team.lead_agent_id is Some {
        assert(document[5] == text_field("lead_agent_id"@, team.lead_agent_id->0));
        assert(document[5].key == "lead_agent_id"@);
    } else {
        assert forall|i: int| 0 <= i < n implies #[trigger] document[i].key != "lead_agent_id"@ by {
            assert(i == 0 || i == 1 || i == 2 || i == 3 || i == 4 || i == n - 2 || i == n - 1);
        }
    }
}

/// Whatever an event carries names its team.
pub proof fn law_payload_names_the_team(payload: PayloadModel)
    ensures
        payload_document(payload).contains(
            text_field(
                "id"@,
                match payload {
                    PayloadModel::Record { team } => team.id,
                    PayloadModel::IdOnly { id } => id,
                },
            ),
        ),
{
    match payload {
        PayloadModel::Record { team } => law_team_document(team),
        PayloadModel::IdOnly { id } => {
            assert(payload_document(payload)[0] == text_field("id"@, id));
        },
    }
}

/// A key with a string holds that string; a key with a string or null holds the string where
/// there is one, else null.
pub proof fn law_fields_hold_their_text(key: Seq<char>, text: Seq<char>)
    ensures
        text_field(key, text).key == key,
        text_field(key, text).value == (ValueModel::Text { text }),
        nullable_field(key, Some(text)).key == key,
        nullable_field(key, Some(text)).value == (ValueModel::Text { text }),
        nullable_field(key, None).key == key,
        nullable_field(key, None).value is Null,
{
}

/// What an event with a record carries is the document of that record; an event with an id
/// carries the id under its key and nothing else.
pub proof fn law_payload_is_the_document(team: Team, id: Seq<char>)
    ensures
        payload_document(PayloadModel::Record { team }) == team_document(team),
        payload_document(PayloadModel::IdOnly { id }).len() == 1,
        payload_document(PayloadModel::IdOnly { id })[0].key == "id"@,
        payload_document(PayloadModel::IdOnly { id })[0].value == (ValueModel::Text { text: id }),
{
}

} // verus!
