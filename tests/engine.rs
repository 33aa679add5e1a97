use midi_macro_pad::actions::{Action, ActionRunner, AdapterCall, DELAY_BETWEEN_KEYS_US};
use midi_macro_pad::engine::{find_winner, Config};
use midi_macro_pad::event_matching::{Event, EventMatcher, MidiEventMatcher};
use midi_macro_pad::macros::{Macro, MacroBuilder, Scope};
use midi_macro_pad::match_checker::{NumberMatcher, StringMatcher};
use midi_macro_pad::midi::MidiMessage;
use midi_macro_pad::preconditions::{Condition, Precondition};
use midi_macro_pad::state::State;

fn cc_matcher(control: Option<NumberMatcher>, value: Option<NumberMatcher>) -> EventMatcher {
    EventMatcher::Midi(MidiEventMatcher::ControlChange {
        channel_match: None,
        control_match: control,
        value_match: value,
    })
}

fn cc(channel: u8, control: u8, value: u8) -> Event {
    Event::Midi(MidiMessage::ControlChange { channel, control, value })
}

fn text_macro(matcher: EventMatcher, t: &str) -> Macro {
    MacroBuilder::from_event_matcher(matcher)
        .add_action(Action::EnterText(t.to_string(), 1))
        .build()
        .unwrap()
}

fn entered_text(actions: &Vec<Action>) -> String {
    match &actions[0] {
        Action::EnterText(t, _) => t.clone(),
        _ => panic!("expected text entry"),
    }
}

fn state() -> State {
    State::new("foo".to_string(), "editor".to_string())
}

#[test]
fn string_matcher_modes() {
    assert!(StringMatcher::Equals("foo".to_string()).matches("foo"));
    assert!(!StringMatcher::Equals("foo".to_string()).matches("Foo"));
    assert!(StringMatcher::Contains("ref".to_string()).matches("Firefox"));
    assert!(!StringMatcher::Contains("xyz".to_string()).matches("Firefox"));
    assert!(StringMatcher::Contains("".to_string()).matches(""));
    assert!(StringMatcher::StartsWith("Fire".to_string()).matches("Firefox"));
    assert!(!StringMatcher::StartsWith("fox".to_string()).matches("Firefox"));
    assert!(StringMatcher::EndsWith("fox".to_string()).matches("Firefox"));
    assert!(!StringMatcher::EndsWith("Firefox!".to_string()).matches("Firefox"));
    assert!(StringMatcher::Any.matches("anything"));
}

#[test]
fn number_matcher_modes() {
    assert!(NumberMatcher::Val(7).matches(7));
    assert!(!NumberMatcher::Val(7).matches(8));
    assert!(NumberMatcher::Range(0, 63).matches(0));
    assert!(NumberMatcher::Range(0, 63).matches(63));
    assert!(!NumberMatcher::Range(0, 63).matches(64));
    assert!(NumberMatcher::Any.matches(-3));
}

#[test]
fn first_match_wins() {
    let macros = vec![
        text_macro(cc_matcher(Some(NumberMatcher::Val(1)), None), "m1"),
        text_macro(cc_matcher(None, None), "m2"),
        text_macro(cc_matcher(Some(NumberMatcher::Val(2)), None), "m3"),
    ];
    let s = state();
    assert_eq!(find_winner(&macros, &cc(0, 1, 5), &s), Some(0));
    assert_eq!(find_winner(&macros, &cc(0, 2, 5), &s), Some(1));
    let config = Config { macros };
    assert_eq!(entered_text(config.evaluate(&cc(0, 1, 5), &s).unwrap()), "m1");
    let note = Event::Midi(MidiMessage::NoteOn { channel: 0, key: 1, velocity: 5 });
    assert!(config.evaluate(&note, &s).is_none());
}

#[test]
fn evaluation_is_repeatable() {
    let macros = vec![
        text_macro(cc_matcher(Some(NumberMatcher::Range(10, 20)), None), "a"),
        text_macro(cc_matcher(None, Some(NumberMatcher::Val(0))), "b"),
    ];
    let s = state();
    for e in [cc(0, 15, 3), cc(0, 30, 0), cc(0, 30, 1)] {
        assert_eq!(find_winner(&macros, &e, &s), find_winner(&macros, &e, &s));
    }
    assert_eq!(find_winner(&macros, &cc(0, 30, 1), &s), None);
}

#[test]
fn dont_care_matcher_accepts_every_value() {
    let m = text_macro(cc_matcher(None, None), "any");
    let s = state();
    for (ch, control, value) in [(0, 0, 0), (15, 127, 127), (3, 64, 1)] {
        assert!(m.evaluate(&cc(ch, control, value), &s).is_some());
    }
    let prog = Event::Midi(MidiMessage::ProgramChange { channel: 0, program: 3 });
    assert!(m.evaluate(&prog, &s).is_none());
}

#[test]
fn scope_gates_on_window_class() {
    let global = text_macro(cc_matcher(None, None), "g");
    let scoped = MacroBuilder::from_event_matcher(cc_matcher(None, None))
        .set_scope(Scope::new(Some(StringMatcher::Equals("foo".to_string())), None))
        .add_action(Action::EnterText("s".to_string(), 1))
        .build()
        .unwrap();
    let mut s = state();
    assert!(global.evaluate(&cc(0, 1, 1), &s).is_some());
    assert!(scoped.evaluate(&cc(0, 1, 1), &s).is_some());
    s.set_focus("bar".to_string(), "editor".to_string());
    assert!(global.evaluate(&cc(0, 1, 1), &s).is_some());
    assert!(scoped.evaluate(&cc(0, 1, 1), &s).is_none());
}

#[test]
fn preconditions_gate_on_device_state() {
    let m = MacroBuilder::from_event_matcher(cc_matcher(Some(NumberMatcher::Val(1)), None))
        .add_precondition(Precondition::new(
            Condition::ControlValue { channel: 0, control: 64, value_match: NumberMatcher::Range(64, 127) },
            false,
        ))
        .add_precondition(Precondition::new(Condition::NoteHeld { channel: 0, key: 60 }, true))
        .add_action(Action::EnterText("p".to_string(), 1))
        .build()
        .unwrap();
    let mut s = state();
    assert!(m.evaluate(&cc(0, 1, 1), &s).is_none());
    s.record_message(&MidiMessage::ControlChange { channel: 0, control: 64, value: 127 });
    assert_eq!(s.control_value(0, 64), 127);
    assert!(m.evaluate(&cc(0, 1, 1), &s).is_some());
    s.record_message(&MidiMessage::NoteOn { channel: 0, key: 60, velocity: 90 });
    assert!(s.note_held(0, 60));
    assert!(m.evaluate(&cc(0, 1, 1), &s).is_none());
    s.record_message(&MidiMessage::NoteOff { channel: 0, key: 60, velocity: 0 });
    assert!(!s.note_held(0, 60));
    assert!(m.evaluate(&cc(0, 1, 1), &s).is_some());
}

#[test]
fn state_ignores_untracked_numbers() {
    let mut s = state();
    s.record_message(&MidiMessage::ControlChange { channel: 16, control: 1, value: 9 });
    s.record_message(&MidiMessage::ControlChange { channel: 0, control: 200, value: 9 });
    assert_eq!(s.control_value(16, 1), 0);
    assert_eq!(s.control_value(0, 200), 0);
    s.record_message(&MidiMessage::NoteOn { channel: 2, key: 5, velocity: 0 });
    assert!(!s.note_held(2, 5));
    assert_eq!(s.window_class(), "foo");
    assert_eq!(s.window_name(), "editor");
}

#[test]
fn builder_keeps_staged_fields() {
    let m = MacroBuilder::from_event_matchers(vec![cc_matcher(None, None)])
        .set_name("volume".to_string())
        .add_event_matcher(cc_matcher(Some(NumberMatcher::Val(3)), None))
        .set_actions(vec![Action::KeySequence("ctrl+c".to_string(), 2)])
        .set_preconditions(vec![])
        .build()
        .unwrap();
    assert_eq!(m.name(), Some("volume"));
    let unnamed = text_macro(cc_matcher(None, None), "x");
    assert_eq!(unnamed.name(), None);
    let empty = MacroBuilder::from_event_matchers(vec![]).build();
    assert!(empty.is_err());
    let replaced = MacroBuilder::from_event_matchers(vec![])
        .set_event_matchers(vec![cc_matcher(None, None)])
        .build();
    assert!(replaced.is_ok());
}

#[test]
fn runner_repeats_and_orders_calls() {
    let runner = ActionRunner::new();
    assert_eq!(runner.delay_us, DELAY_BETWEEN_KEYS_US);
    let calls = runner.run(&Action::KeySequence("a".to_string(), 2));
    assert_eq!(calls.len(), 2);
    assert_eq!(calls[1], AdapterCall::SendKeySequence { sequence: "a".to_string(), delay_us: 100 });
}

#[test]
fn combination_runs_every_child() {
    let runner = ActionRunner::new();
    let action = Action::Combination(vec![
        Action::Shell { command: "/bin/false".to_string(), args: None, env_vars: None },
        Action::EnterText("x".to_string(), 1),
    ]);
    let calls = runner.run(&action);
    assert_eq!(
        calls,
        vec![
            AdapterCall::Spawn { command: "/bin/false".to_string(), args: None, env_vars: None },
            AdapterCall::SendText { text: "x".to_string(), delay_us: 100 },
        ]
    );
}

#[test]
fn shell_call_keeps_arguments() {
    let runner = ActionRunner::new();
    let action = Action::Shell {
        command: "/usr/bin/env".to_string(),
        args: Some(vec!["a b".to_string()]),
        env_vars: Some(vec![("K".to_string(), "V".to_string())]),
    };
    assert_eq!(
        runner.run(&action),
        vec![AdapterCall::Spawn {
            command: "/usr/bin/env".to_string(),
            args: Some(vec!["a b".to_string()]),
            env_vars: Some(vec![("K".to_string(), "V".to_string())]),
        }]
    );
}
