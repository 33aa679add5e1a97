//! Macros: immutable rules made of event matchers, gates and actions, and the
//! builder that assembles them.

use vstd::prelude::*;
use crate::actions::Action;
use crate::config::ConfigError;
use crate::event_matching::{Event, EventMatcher};
use crate::match_checker::StringMatcher;
use crate::preconditions::Precondition;
use crate::state::State;

verus! {

/// Windows a macro is restricted to. Both matchers absent means any window.
#[derive(Clone, Debug, PartialEq)]
pub struct Scope {
    pub window_class: Option<StringMatcher>,
    pub window_name: Option<StringMatcher>,
}

impl Scope {
    pub fn new(window_class: Option<StringMatcher>, window_name: Option<StringMatcher>) -> (r:
        Scope)
        ensures
            r.window_class == window_class,
            r.window_name == window_name,
    {
        Scope { window_class, window_name }
    }
}

/// Whether some matcher of the list accepts the event.
pub open spec fn any_event_matches(ms: Seq<EventMatcher>, e: Event, s: State) -> bool {
    exists|i: int| 0 <= i < ms.len() && #[trigger] ms[i].spec_matches(e, s)
}

/// Whether every precondition of the list holds.
pub open spec fn all_hold(ps: Seq<Precondition>, s: State) -> bool {
    forall|i: int| 0 <= i < ps.len() ==> #[trigger] s.spec_holds(ps[i])
}

/// Whether every precondition of the list holds; an absent list holds.
pub open spec fn preconditions_hold(ps: Option<Seq<Precondition>>, s: State) -> bool {
    match ps {
        None => true,
        Some(v) => all_hold(v, s),
    }
}

/// Staging record for a `Macro`.
pub struct MacroBuilder {
    name: Option<String>,
    match_events: Vec<EventMatcher>,
    required_preconditions: Option<Vec<Precondition>>,
    actions: Vec<Action>,
    scope: Option<Scope>,
}

impl MacroBuilder {
    pub closed spec fn spec_name(&self) -> Option<String> {
        self.name
    }

    pub closed spec fn spec_match_events(&self) -> Seq<EventMatcher> {
        self.match_events@
    }

    pub closed spec fn spec_preconditions(&self) -> Option<Seq<Precondition>> {
        match self.required_preconditions {
            Some(v) => Some(v@),
            None => None,
        }
    }

    pub closed spec fn spec_actions(&self) -> Seq<Action> {
        self.actions@
    }

    pub closed spec fn spec_scope(&self) -> Option<Scope> {
        self.scope
    }

    pub fn from_event_matcher(event_matcher: EventMatcher) -> (r: MacroBuilder)
        ensures
            r.spec_name() is None,
            r.spec_match_events() == seq![event_matcher],
            r.spec_preconditions() is None,
            r.spec_actions().len() == 0,
            r.spec_scope() is None,
    {
        let mut match_events: Vec<EventMatcher> = Vec::new();
        match_events.push(event_matcher);
        proof {
            assert(match_events@ =~= seq![event_matcher]);
        }
        MacroBuilder {
            name: None,
            match_events,
            required_preconditions: None,
            actions: Vec::new(),
            scope: None,
        }
    }

    pub fn from_event_matchers(event_matchers: Vec<EventMatcher>) -> (r: MacroBuilder)
        ensures
            r.spec_name() is None,
            r.spec_match_events() == event_matchers@,
            r.spec_preconditions() is None,
            r.spec_actions().len() == 0,
            r.spec_scope() is None,
    {
        MacroBuilder {
            name: None,
            match_events: event_matchers,
            required_preconditions: None,
            actions: Vec::new(),
            scope: None,
        }
    }

    pub fn set_event_matchers(self, event_matchers: Vec<EventMatcher>) -> (r: Self)
        ensures
            r.spec_name() == self.spec_name(),
            r.spec_match_events() == event_matchers@,
            r.spec_preconditions() == self.spec_preconditions(),
            r.spec_actions() == self.spec_actions(),
            r.spec_scope() == self.spec_scope(),
    {
        MacroBuilder { match_events: event_matchers, ..self }
    }

    pub fn add_event_matcher(self, event_matcher: EventMatcher) -> (r: Self)
        ensures
            r.spec_name() == self.spec_name(),
            r.spec_match_events() == self.spec_match_events().push(event_matcher),
            r.spec_preconditions() == self.spec_preconditions(),
            r.spec_actions() == self.spec_actions(),
            r.spec_scope() == self.spec_scope(),
    {
        let mut b = self;
        b.match_events.push(event_matcher);
        b
    }

    pub fn set_actions(self, actions: Vec<Action>) -> (r: Self)
        ensures
            r.spec_name() == self.spec_name(),
            r.spec_match_events() == self.spec_match_events(),
            r.spec_preconditions() == self.spec_preconditions(),
            r.spec_actions() == actions@,
            r.spec_scope() == self.spec_scope(),
    {
        MacroBuilder { actions, ..self }
    }

    pub fn add_action(self, action: Action) -> (r: Self)
        ensures
            r.spec_name() == self.spec_name(),
            r.spec_match_events() == self.spec_match_events(),
            r.spec_preconditions() == self.spec_preconditions(),
            r.spec_actions() == self.spec_actions().push(action),
            r.spec_scope() == self.spec_scope(),
    {
        let mut b = self;
        b.actions.push(action);
        b
    }

    pub fn set_name(self, name: String) -> (r: Self)
        ensures
            r.spec_name() == Some(name),
            r.spec_match_events() == self.spec_match_events(),
            r.spec_preconditions() == self.spec_preconditions(),
            r.spec_actions() == self.spec_actions(),
            r.spec_scope() == self.spec_scope(),
    {
        MacroBuilder { name: Some(name), ..self }
    }

    pub fn set_preconditions(self, preconditions: Vec<Precondition>) -> (r: Self)
        ensures
            r.spec_name() == self.spec_name(),
            r.spec_match_events() == self.spec_match_events(),
            r.spec_preconditions() == Some(preconditions@),
            r.spec_actions() == self.spec_actions(),
            r.spec_scope() == self.spec_scope(),
    {
        MacroBuilder { required_preconditions: Some(preconditions), ..self }
    }

    /// Appends a precondition, starting the list if there is none yet.
    pub fn add_precondition(self, precondition: Precondition) -> (r: Self)
        ensures
            r.spec_name() == self.spec_name(),
            r.spec_match_events() == self.spec_match_events(),
            r.spec_preconditions() == Some(
                match self.spec_preconditions() {
                    Some(ps) => ps.push(precondition),
                    None => seq![precondition],
                },
            ),
            r.spec_actions() == self.spec_actions(),
            r.spec_scope() == self.spec_scope(),
    {
        let mut b = self;
        match b.required_preconditions {
            Some(mut ps) => {
                ps.push(precondition);
                b.required_preconditions = Some(ps);
            },
            None => {
                let mut ps: Vec<Precondition> = Vec::new();
                ps.push(precondition);
                proof {
                    assert(ps@ =~= seq![precondition]);
                }
                b.required_preconditions = Some(ps);
            },
        }
        b
    }

    pub fn set_scope(self, scope: Scope) -> (r: Self)
        ensures
            r.spec_name() == self.spec_name(),
            r.spec_match_events() == self.spec_match_events(),
            r.spec_preconditions() == self.spec_preconditions(),
            r.spec_actions() == self.spec_actions(),
            r.spec_scope() == Some(scope),
    {
        MacroBuilder { scope: Some(scope), ..self }
    }

    /// Freezes the staged fields into a macro. A macro without any event
    /// matcher could never fire, so it is refused.
    pub fn build(self) -> (r: Result<Macro, ConfigError>)
        ensures
            r is Err <==> self.spec_match_events().len() == 0,
            r matches Err(e) ==> e is InvalidConfig,
            r matches Ok(m) ==> {
                &&& m.spec_name() == self.spec_name()
                &&& m.spec_match_events() == self.spec_match_events()
                &&& m.spec_preconditions() == self.spec_preconditions()
                &&& m.spec_actions() == self.spec_actions()
                &&& m.spec_scope() == self.spec_scope()
            },
    {
        if self.match_events.len() == 0 {
            return Err(ConfigError::InvalidConfig("Macro: at least one event matcher is required".to_string()));
        }
        Ok(
            Macro {
                name: self.name,
                match_events: self.match_events,
                required_preconditions: self.required_preconditions,
                actions: self.actions,
                scope: self.scope,
            },
        )
    }
}

/// An immutable rule: it fires on an event when the focused window lies in
/// its scope, all its preconditions hold, and one of its event matchers
/// accepts the event.
pub struct Macro {
    name: Option<String>,
    match_events: Vec<EventMatcher>,
    required_preconditions: Option<Vec<Precondition>>,
    actions: Vec<Action>,
    scope: Option<Scope>,
}

impl Macro {
    #[verifier::type_invariant]
    spec fn has_event_matcher(&self) -> bool {
        self.match_events@.len() > 0
    }

    pub closed spec fn spec_name(&self) -> Option<String> {
        self.name
    }

    pub closed spec fn spec_match_events(&self) -> Seq<EventMatcher> {
        self.match_events@
    }

    pub closed spec fn spec_preconditions(&self) -> Option<Seq<Precondition>> {
        match self.required_preconditions {
            Some(v) => Some(v@),
            None => None,
        }
    }

    pub closed spec fn spec_actions(&self) -> Seq<Action> {
        self.actions@
    }

    pub closed spec fn spec_scope(&self) -> Option<Scope> {
        self.scope
    }

    /// The rule's firing condition on an event in a state.
    pub open spec fn fires(&self, e: Event, s: State) -> bool {
        &&& s.spec_matches_scope(self.spec_scope())
        &&& preconditions_hold(self.spec_preconditions(), s)
        &&& any_event_matches(self.spec_match_events(), e, s)
    }

    pub fn name(&self) -> (r: Option<&str>)
        ensures
            r is None <==> self.spec_name() is None,
            r matches Some(n) ==> n@ == self.spec_name()->0@,
    {
        match &self.name {
            Some(n) => Some(n.as_str()),
            None => None,
        }
    }

    /// The macro's actions if it fires on `event` in `state`, else `None`.
    /// The scope is checked first, then the preconditions, then the events.
    pub fn evaluate<'a>(&'a self, event: &Event, state: &State) -> (r: Option<&'a Vec<Action>>)
        ensures
            r is Some <==> self.fires(*event, *state),
            r matches Some(a) ==> a@ == self.spec_actions(),
    {
        if !state.matches_scope(&self.scope) {
            return None;
        }
        if let Some(conditions) = &self.required_preconditions {
            let mut i: usize = 0;
            while i < conditions.len()
                invariant
                    i <= conditions.len(),
                    self.spec_preconditions() == Some(conditions@),
                    forall|k: int| 0 <= k < i ==> state.spec_holds(#[trigger] conditions@[k]),
                decreases conditions.len() - i,
            {
                if !state.matches(&conditions[i]) {
                    assert(!state.spec_holds(conditions@[i as int]));
                    return None;
                }
                i = i + 1;
            }
        }
        if self.matches_event(event, state) {
            Some(&self.actions)
        } else {
            None
        }
    }

    fn matches_event(&self, event: &Event, state: &State) -> (r: bool)
        ensures
            r == any_event_matches(self.spec_match_events(), *event, *state),
    {
        let mut i: usize = 0;
        while i < self.match_events.len()
            invariant
                i <= self.match_events.len(),
                forall|k: int| 0 <= k < i ==> !(#[trigger] self.match_events@[k]).spec_matches(*event, *state),
            decreases self.match_events.len() - i,
        {
            if self.match_events[i].matches(event, state) {
                return true;
            }
            i = i + 1;
        }
        false
    }
}

} // verus!
