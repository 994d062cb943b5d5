use ryu_teams::coordination::coordination_lenient;
use ryu_teams::document::{record_fields, Value};
use ryu_teams::json::decode_members;
use ryu_teams::{Coordination, CreateTeam, TeamRecord};

const ALL: [Coordination; 4] = [
    Coordination::Broadcast,
    Coordination::RoundRobin,
    Coordination::DebateSynthesis,
    Coordination::Router,
];

#[test]
fn as_str_and_from_str_lenient_round_trip() {
    for c in ALL {
        assert_eq!(Coordination::from_str_lenient(c.as_str()), c);
    }
}

#[test]
fn from_str_lenient_defaults_unknown_to_broadcast() {
    assert_eq!(
        Coordination::from_str_lenient("nonsense"),
        Coordination::Broadcast
    );
}

#[test]
fn coordination_string_roundtrip() {
    for c in ALL {
        assert_eq!(Coordination::from_str_lenient(c.as_str()), c);
    }
    assert_eq!(
        Coordination::from_str_lenient("nonsense"),
        Coordination::Broadcast
    );
}

#[test]
fn coordination_serializes_kebab_case() {
    assert_eq!(Coordination::Broadcast.as_str(), "broadcast");
    assert_eq!(Coordination::RoundRobin.as_str(), "round-robin");
    assert_eq!(Coordination::DebateSynthesis.as_str(), "debate-synthesis");
    assert_eq!(Coordination::Router.as_str(), "router");
}

#[test]
fn coordination_deserializes_kebab_case() {
    let raw: String = serde_json::from_str(r#""round-robin""#).unwrap();
    assert_eq!(
        Coordination::from_str_strict(&raw),
        Some(Coordination::RoundRobin)
    );
    let raw: String = serde_json::from_str(r#""debate-synthesis""#).unwrap();
    assert_eq!(
        Coordination::from_str_strict(&raw),
        Some(Coordination::DebateSynthesis)
    );
}

#[test]
fn near_misses_are_unknown() {
    for s in ["", "Router", "router ", "round_robin", "roundrobin", "debate"] {
        assert_eq!(Coordination::from_str_strict(s), None);
        assert_eq!(Coordination::from_str_lenient(s), Coordination::Broadcast);
    }
}

#[test]
fn strict_reading_accepts_the_four_names_only() {
    for c in ALL {
        assert_eq!(Coordination::from_str_strict(c.as_str()), Some(c));
    }
    assert_eq!(Coordination::from_str_strict("swarm"), None);
}

/// The strategy of a record that a JSON text holds.
fn strategy_in(record: &str) -> Coordination {
    let value: serde_json::Value = serde_json::from_str(record).unwrap();
    coordination_lenient(value.get("coordination").and_then(|v| v.as_str()))
}

#[test]
fn team_record_tolerates_an_unknown_strategy() {
    let text = r#"{"id":"t1","name":"Growth","members":["a"],"coordination":"swarm"}"#;
    assert_eq!(strategy_in(text), Coordination::Broadcast);
    let value: serde_json::Value = serde_json::from_str(text).unwrap();
    let members = decode_members(&value["members"].to_string());
    assert_eq!(members, vec!["a".to_owned()]);
}

/// The strategy as it stands in the document of a record.
fn written_strategy(coordination: Coordination) -> String {
    let record = TeamRecord {
        id: "t1".to_owned(),
        name: "G".to_owned(),
        description: None,
        members: vec![],
        coordination,
        lead_agent_id: None,
        created_at: None,
        updated_at: None,
    };
    for field in record_fields(record) {
        if let ("coordination", Value::Text { text }) = (field.key, field.value) {
            return text;
        }
    }
    panic!("no strategy in the document")
}

#[test]
fn serde_repr_matches_as_str() {
    for c in ALL {
        let written = written_strategy(c);
        assert_eq!(written, c.as_str());
        assert_eq!(Coordination::from_str_strict(&written), Some(c));
    }
}

#[test]
fn create_team_rejects_an_unknown_strategy() {
    let text = r#"{"name":"G","coordination":"swarm"}"#;
    let value: serde_json::Value = serde_json::from_str(text).unwrap();
    let raw = value["coordination"].as_str().unwrap();
    assert_eq!(raw, "swarm");
    assert_eq!(Coordination::from_str_strict(raw), None);
}

#[test]
fn create_team_defaults_coordination_to_broadcast_when_absent() {
    let c = CreateTeam {
        name: "n".to_owned(),
        ..Default::default()
    };
    assert_eq!(c.coordination, Coordination::Broadcast);
    assert!(c.members.is_empty());
}

#[test]
fn team_record_tolerates_a_missing_or_null_strategy() {
    let missing = strategy_in(r#"{"id":"t1","name":"G"}"#);
    assert_eq!(missing, Coordination::Broadcast);
    let null = strategy_in(r#"{"id":"t1","name":"G","coordination":null}"#);
    assert_eq!(null, Coordination::Broadcast);
}

#[test]
fn a_record_keeps_a_known_strategy() {
    let text = r#"{"id":"t1","name":"G","coordination":"router"}"#;
    assert_eq!(strategy_in(text), Coordination::Router);
}

#[test]
fn default_strategy_is_broadcast() {
    assert_eq!(Coordination::default(), Coordination::Broadcast);
}
