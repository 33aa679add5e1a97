use midi_macro_pad::actions::{Action, ActionRunner, AdapterCall};
use midi_macro_pad::config::ConfigError;
use midi_macro_pad::event_matching::{Event, EventMatcher, MidiEventMatcher};
use midi_macro_pad::match_checker::{NumberMatcher, StringMatcher};
use midi_macro_pad::midi::MidiMessage;
use midi_macro_pad::preconditions::{Condition, Precondition};
use midi_macro_pad::raw_config::{get_integer, get_string, RawConfig};
use midi_macro_pad::resolve::{
    build_event_matcher, build_macro, build_number_matcher, build_precondition, build_scope,
    build_string_matcher, resolve_config,
};
use midi_macro_pad::resolve_actions::{
    build_action, build_action_enter_text, build_action_key_sequence, build_action_shell,
};
use midi_macro_pad::state::State;

fn text(s: &str) -> RawConfig {
    RawConfig::String(s.to_string())
}

fn hash(entries: Vec<(&str, RawConfig)>) -> RawConfig {
    RawConfig::Hash(entries.into_iter().map(|(k, v)| (k.to_string(), v)).collect())
}

fn is_invalid<T>(r: Result<T, ConfigError>) -> bool {
    matches!(r, Err(ConfigError::InvalidConfig(_)))
}

fn cc(channel: u8, control: u8, value: u8) -> Event {
    Event::Midi(MidiMessage::ControlChange { channel, control, value })
}

fn example_document() -> RawConfig {
    hash(vec![(
        "macros",
        RawConfig::List(vec![hash(vec![
            (
                "match_events",
                RawConfig::List(vec![hash(vec![
                    ("type", text("control_change")),
                    ("control", RawConfig::Integer(7)),
                    (
                        "value",
                        hash(vec![("min", RawConfig::Integer(0)), ("max", RawConfig::Integer(63))]),
                    ),
                ])]),
            ),
            (
                "actions",
                RawConfig::List(vec![hash(vec![
                    ("type", text("key_sequence")),
                    ("data", text("ctrl+shift+t")),
                ])]),
            ),
        ])]),
    )])
}

#[test]
fn key_sequence_from_text() {
    let raw = text("ctrl+shift+t");
    match build_action_key_sequence(Some(&raw)) {
        Ok(Action::KeySequence(s, n)) => {
            assert_eq!(s, "ctrl+shift+t");
            assert_eq!(n, 1);
        }
        _ => panic!("expected a key sequence"),
    }
}

#[test]
fn key_sequence_from_hash_with_count() {
    let raw = hash(vec![("sequence", text("alt+tab")), ("count", RawConfig::Integer(3))]);
    match build_action_key_sequence(Some(&raw)) {
        Ok(Action::KeySequence(s, n)) => {
            assert_eq!(s, "alt+tab");
            assert_eq!(n, 3);
        }
        _ => panic!("expected a key sequence"),
    }
}

#[test]
fn key_sequence_count_defaults_to_one() {
    let raw = hash(vec![("sequence", text("a")), ("count", text("many"))]);
    assert!(matches!(build_action_key_sequence(Some(&raw)), Ok(Action::KeySequence(_, 1))));
    let raw = hash(vec![("sequence", text("a"))]);
    assert!(matches!(build_action_key_sequence(Some(&raw)), Ok(Action::KeySequence(_, 1))));
}

#[test]
fn key_sequence_errors() {
    assert!(is_invalid(build_action_key_sequence(None)));
    assert!(is_invalid(build_action_key_sequence(Some(&RawConfig::Integer(4)))));
    let raw = hash(vec![("count", RawConfig::Integer(2))]);
    assert!(is_invalid(build_action_key_sequence(Some(&raw))));
    let raw = hash(vec![("sequence", RawConfig::Integer(2))]);
    assert!(is_invalid(build_action_key_sequence(Some(&raw))));
}

#[test]
fn negative_count_is_refused() {
    let raw = hash(vec![("sequence", text("a")), ("count", RawConfig::Integer(-1))]);
    assert!(is_invalid(build_action_key_sequence(Some(&raw))));
    let raw = hash(vec![("text", text("a")), ("count", RawConfig::Integer(-5))]);
    assert!(is_invalid(build_action_enter_text(Some(&raw))));
}

#[test]
fn zero_count_sends_nothing() {
    let raw = hash(vec![("sequence", text("a")), ("count", RawConfig::Integer(0))]);
    let action = build_action_key_sequence(Some(&raw)).unwrap();
    assert!(matches!(action, Action::KeySequence(_, 0)));
    let runner = ActionRunner::new();
    assert!(runner.run(&action).is_empty());
    assert!(runner.run(&Action::EnterText("x".to_string(), 0)).is_empty());
}

#[test]
fn enter_text_forms() {
    let raw = hash(vec![("text", text("hello")), ("count", RawConfig::Integer(2))]);
    match build_action_enter_text(Some(&raw)) {
        Ok(Action::EnterText(s, n)) => {
            assert_eq!(s, "hello");
            assert_eq!(n, 2);
        }
        _ => panic!("expected text entry"),
    }
    assert!(is_invalid(build_action_enter_text(Some(&RawConfig::Null))));
}

#[test]
fn shell_with_args_and_env() {
    let raw = hash(vec![
        ("command", text("/usr/bin/notify-send")),
        ("args", RawConfig::List(vec![text("hello world"), text("-u")])),
        ("env_vars", hash(vec![("LANG", text("C"))])),
    ]);
    match build_action_shell(Some(&raw)) {
        Ok(Action::Shell { command, args, env_vars }) => {
            assert_eq!(command, "/usr/bin/notify-send");
            assert_eq!(args, Some(vec!["hello world".to_string(), "-u".to_string()]));
            assert_eq!(env_vars, Some(vec![("LANG".to_string(), "C".to_string())]));
        }
        _ => panic!("expected a shell action"),
    }
    let raw = hash(vec![("command", text("/bin/true"))]);
    assert!(matches!(
        build_action_shell(Some(&raw)),
        Ok(Action::Shell { args: None, env_vars: None, .. })
    ));
}

#[test]
fn shell_errors() {
    assert!(is_invalid(build_action_shell(Some(&hash(vec![("args", RawConfig::List(vec![]))])))));
    let raw = hash(vec![("command", text("/bin/ls")), ("args", RawConfig::List(vec![RawConfig::Integer(1)]))]);
    assert!(is_invalid(build_action_shell(Some(&raw))));
    let raw = hash(vec![("command", text("/bin/ls")), ("env_vars", text("A=1"))]);
    assert!(is_invalid(build_action_shell(Some(&raw))));
}

#[test]
fn combination_of_actions() {
    let raw = hash(vec![
        ("type", text("combination")),
        (
            "data",
            RawConfig::List(vec![
                hash(vec![("type", text("shell")), ("data", hash(vec![("command", text("/bin/false"))]))]),
                hash(vec![
                    ("type", text("enter_text")),
                    ("data", hash(vec![("text", text("x")), ("count", RawConfig::Integer(1))])),
                ]),
            ]),
        ),
    ]);
    match build_action(&raw) {
        Ok(Action::Combination(v)) => {
            assert_eq!(v.len(), 2);
            assert!(matches!(&v[0], Action::Shell { command, .. } if command == "/bin/false"));
            assert!(matches!(&v[1], Action::EnterText(t, 1) if t == "x"));
        }
        _ => panic!("expected a combination"),
    }
    let bad = hash(vec![("type", text("combination")), ("data", RawConfig::List(vec![text("?")]))]);
    assert!(is_invalid(build_action(&bad)));
    let unknown = hash(vec![("type", text("dance")), ("data", text("x"))]);
    assert!(is_invalid(build_action(&unknown)));
}

#[test]
fn number_matchers() {
    assert_eq!(build_number_matcher(&RawConfig::Integer(5)).unwrap(), NumberMatcher::Val(5));
    let range = hash(vec![("min", RawConfig::Integer(1)), ("max", RawConfig::Integer(9))]);
    assert_eq!(build_number_matcher(&range).unwrap(), NumberMatcher::Range(1, 9));
    assert_eq!(build_number_matcher(&text("any")).unwrap(), NumberMatcher::Any);
    assert!(is_invalid(build_number_matcher(&text("some"))));
    assert!(is_invalid(build_number_matcher(&hash(vec![("min", RawConfig::Integer(1))]))));
    assert!(is_invalid(build_number_matcher(&RawConfig::Bool(true))));
}

#[test]
fn string_matchers_and_scope() {
    assert_eq!(build_string_matcher(&text("foo")).unwrap(), StringMatcher::Equals("foo".to_string()));
    assert_eq!(
        build_string_matcher(&hash(vec![("starts_with", text("Fire"))])).unwrap(),
        StringMatcher::StartsWith("Fire".to_string())
    );
    assert!(is_invalid(build_string_matcher(&hash(vec![("regex", text(".*"))]))));
    let scope = build_scope(&hash(vec![("window_class", text("foo"))])).unwrap();
    assert_eq!(scope.window_class, Some(StringMatcher::Equals("foo".to_string())));
    assert_eq!(scope.window_name, None);
    assert!(is_invalid(build_scope(&text("foo"))));
}

#[test]
fn event_matchers() {
    let raw = hash(vec![("type", text("note_on")), ("key", RawConfig::Integer(60))]);
    assert_eq!(
        build_event_matcher(&raw).unwrap(),
        EventMatcher::Midi(MidiEventMatcher::NoteOn {
            channel_match: None,
            key_match: Some(NumberMatcher::Val(60)),
            velocity_match: None
        })
    );
    assert!(is_invalid(build_event_matcher(&hash(vec![("type", text("sysex"))]))));
    let bad_field = hash(vec![("type", text("control_change")), ("value", RawConfig::Null)]);
    assert!(is_invalid(build_event_matcher(&bad_field)));
}

#[test]
fn preconditions_from_documents() {
    let raw = hash(vec![
        ("type", text("control_value")),
        ("channel", RawConfig::Integer(0)),
        ("control", RawConfig::Integer(64)),
        ("value", hash(vec![("min", RawConfig::Integer(64)), ("max", RawConfig::Integer(127))])),
    ]);
    let p = build_precondition(&raw).unwrap();
    assert!(!p.invert);
    assert_eq!(
        p.condition,
        Condition::ControlValue { channel: 0, control: 64, value_match: NumberMatcher::Range(64, 127) }
    );
    let raw = hash(vec![
        ("type", text("note_held")),
        ("channel", RawConfig::Integer(1)),
        ("key", RawConfig::Integer(300)),
    ]);
    assert!(is_invalid(build_precondition(&raw)));
}

#[test]
fn missing_required_fields_are_refused() {
    assert!(is_invalid(resolve_config(&hash(vec![]), "1")));
    assert!(is_invalid(resolve_config(&text("macros"), "1")));
    let no_events = hash(vec![("macros", RawConfig::List(vec![hash(vec![("actions", RawConfig::List(vec![]))])]))]);
    assert!(is_invalid(resolve_config(&no_events, "1")));
    let no_actions = hash(vec![(
        "macros",
        RawConfig::List(vec![hash(vec![(
            "match_events",
            RawConfig::List(vec![hash(vec![("type", text("program_change"))])]),
        )])]),
    )]);
    assert!(is_invalid(resolve_config(&no_actions, "1")));
    let empty_events = hash(vec![
        ("match_events", RawConfig::List(vec![])),
        ("actions", RawConfig::List(vec![])),
    ]);
    assert!(is_invalid(build_macro(&empty_events)));
}

#[test]
fn unknown_version_is_refused() {
    assert!(is_invalid(resolve_config(&example_document(), "2")));
    assert!(resolve_config(&example_document(), "1").is_ok());
}

#[test]
fn example_control_change_macro() {
    let config = resolve_config(&example_document(), "1").unwrap();
    assert_eq!(config.macros.len(), 1);
    let state = State::new("xterm".to_string(), "shell".to_string());
    let runner = ActionRunner::new();
    let actions = config.evaluate(&cc(0, 7, 40), &state).expect("macro should fire");
    assert_eq!(actions.len(), 1);
    let calls = runner.run(&actions[0]);
    assert_eq!(
        calls,
        vec![AdapterCall::SendKeySequence { sequence: "ctrl+shift+t".to_string(), delay_us: 100 }]
    );
    assert!(config.evaluate(&cc(0, 7, 100), &state).is_none());
}

#[test]
fn raw_accessors() {
    let raw = vec![
        ("a".to_string(), RawConfig::Integer(1)),
        ("b".to_string(), text("x")),
        ("a".to_string(), RawConfig::Integer(2)),
    ];
    assert_eq!(get_integer(&raw, "a"), Some(1));
    assert_eq!(get_integer(&raw, "b"), None);
    assert_eq!(get_string(&raw, "b").map(|s| s.as_str()), Some("x"));
    assert_eq!(get_string(&raw, "c"), None);
}

#[test]
fn precondition_constructor() {
    let p = Precondition::new(Condition::NoteHeld { channel: 2, key: 60 }, true);
    assert!(p.invert);
    assert_eq!(p.condition, Condition::NoteHeld { channel: 2, key: 60 });
}
