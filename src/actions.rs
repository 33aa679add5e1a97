//! Actions a macro performs, and the runner that turns an action into the
//! ordered calls that the keyboard and process adapters carry out.

use vstd::prelude::*;

verus! {

broadcast use vstd::std_specs::vec::axiom_vec_index_decreases;

/// Something to do in response to an event. Any action can be handed to
/// `ActionRunner::run`.
#[derive(Debug)]
pub enum Action {
    /// Sends a key combination (X keysym notation, such as "ctrl+shift+t")
    /// the given number of times.
    KeySequence(String, usize),
    /// Types the text exactly as given, the given number of times.
    EnterText(String, usize),
    /// Runs a program, with optional arguments and environment variables.
    Shell {
        command: String,
        args: Option<Vec<String>>,
        env_vars: Option<Vec<(String, String)>>,
    },
    /// Runs each action in turn.
    Combination(Vec<Action>),
}

/// One call into a device adapter.
#[derive(Clone, Debug, PartialEq)]
pub enum AdapterCall {
    SendKeySequence { sequence: String, delay_us: u32 },
    SendText { text: String, delay_us: u32 },
    Spawn { command: String, args: Option<Vec<String>>, env_vars: Option<Vec<(String, String)>> },
}

/// Pause between two key events, in microseconds.
pub const DELAY_BETWEEN_KEYS_US: u32 = 100;

pub open spec fn opt_seq<T>(o: Option<Vec<T>>) -> Option<Seq<T>> {
    match o {
        Some(v) => Some(v@),
        None => None,
    }
}

/// Two adapter calls that do the same thing.
pub open spec fn same_call(c: AdapterCall, d: AdapterCall) -> bool {
    match (c, d) {
        (
            AdapterCall::Spawn { command: c1, args: a1, env_vars: e1 },
            AdapterCall::Spawn { command: c2, args: a2, env_vars: e2 },
        ) => c1 == c2 && opt_seq(a1) == opt_seq(a2) && opt_seq(e1) == opt_seq(e2),
        (AdapterCall::Spawn { .. }, _) => false,
        (_, AdapterCall::Spawn { .. }) => false,
        _ => c == d,
    }
}

/// Two sequences of adapter calls that do the same things in the same order.
pub open spec fn same_calls(s: Seq<AdapterCall>, t: Seq<AdapterCall>) -> bool {
    s.len() == t.len() && forall|i: int| 0 <= i < s.len() ==> same_call(#[trigger] s[i], t[i])
}

/// The adapter calls that carry out an action, in order.
pub open spec fn calls_of(a: Action, delay_us: u32) -> Seq<AdapterCall>
    decreases a, 0int,
{
    match a {
        Action::KeySequence(s, n) => Seq::new(
            n as nat,
            |i: int| AdapterCall::SendKeySequence { sequence: s, delay_us },
        ),
        Action::EnterText(t, n) => Seq::new(
            n as nat,
            |i: int| AdapterCall::SendText { text: t, delay_us },
        ),
        Action::Shell { command, args, env_vars } => seq![
            AdapterCall::Spawn { command, args, env_vars },
        ],
        Action::Combination(v) => calls_of_from(v, 0, delay_us),
    }
}

/// The adapter calls of `v[i]`, `v[i + 1]`, ... in order.
pub open spec fn calls_of_from(v: Vec<Action>, i: int, delay_us: u32) -> Seq<AdapterCall>
    decreases v, v.len() - i,
{
    if 0 <= i < v.len() {
        calls_of(v[i], delay_us) + calls_of_from(v, i + 1, delay_us)
    } else {
        Seq::empty()
    }
}

/// The adapter calls of `v[0]`, ..., `v[i - 1]`, in order.
pub open spec fn calls_of_upto(v: Vec<Action>, i: int, delay_us: u32) -> Seq<AdapterCall>
    decreases i,
{
    if 0 < i <= v.len() {
        calls_of_upto(v, i - 1, delay_us) + calls_of(v[i - 1], delay_us)
    } else {
        Seq::empty()
    }
}

proof fn lemma_upto_from(v: Vec<Action>, i: int, d: u32)
    requires
        0 <= i <= v.len(),
    ensures
        calls_of_upto(v, i, d) + calls_of_from(v, i, d) == calls_of_from(v, 0, d),
    decreases i,
{
    if i > 0 {
        lemma_upto_from(v, i - 1, d);
        assert(calls_of_from(v, i - 1, d) == calls_of(v[i - 1], d) + calls_of_from(v, i, d));
        assert(calls_of_upto(v, i, d) + calls_of_from(v, i, d) =~= calls_of_upto(v, i - 1, d)
            + calls_of_from(v, i - 1, d));
    } else {
        assert(calls_of_upto(v, i, d) + calls_of_from(v, i, d) =~= calls_of_from(v, i, d));
    }
}

proof fn lemma_same_calls_append(a: Seq<AdapterCall>, b: Seq<AdapterCall>, c: Seq<AdapterCall>)
    requires
        same_calls(a, b),
    ensures
        same_calls(a + c, b + c),
{
    assert forall|i: int| 0 <= i < (a + c).len() implies same_call(#[trigger] (a + c)[i], (b + c)[i]) by {
        if i >= a.len() {
            assert((a + c)[i] == (b + c)[i]);
        }
    }
}

proof fn lemma_same_calls_trans(a: Seq<AdapterCall>, b: Seq<AdapterCall>, c: Seq<AdapterCall>)
    requires
        same_calls(a, b),
        same_calls(b, c),
    ensures
        same_calls(a, c),
{
    assert forall|i: int| 0 <= i < a.len() implies same_call(#[trigger] a[i], c[i]) by {
        assert(same_call(a[i], b[i]));
        assert(same_call(b[i], c[i]));
    }
}

/// A count of 0 sends nothing: neither keys nor text.
pub proof fn lemma_zero_count_sends_nothing(s: String, delay_us: u32)
    ensures
        calls_of(Action::KeySequence(s, 0), delay_us).len() == 0,
        calls_of(Action::EnterText(s, 0), delay_us).len() == 0,
{
}

/// A combination of two actions carries out every call of the first, then
/// every call of the second, whatever the first one's calls come to.
pub proof fn lemma_combination_runs_both(v: Vec<Action>, delay_us: u32)
    requires
        v@.len() == 2,
    ensures
        calls_of(Action::Combination(v), delay_us) == calls_of(v[0], delay_us) + calls_of(
            v[1],
            delay_us,
        ),
{
    assert(calls_of_from(v, 2, delay_us) == Seq::<AdapterCall>::empty());
    assert(calls_of_from(v, 1, delay_us) =~= calls_of(v[1], delay_us));
}

/// Runs actions through the device adapters.
pub struct ActionRunner {
    pub delay_us: u32,
}

impl ActionRunner {
    pub fn new() -> (r: ActionRunner)
        ensures
            r.delay_us == DELAY_BETWEEN_KEYS_US,
    {
        ActionRunner { delay_us: DELAY_BETWEEN_KEYS_US }
    }

    /// The adapter calls that carry out `action`. A combination yields the
    /// calls of every child in order: a child's failure at run time does not
    /// remove the calls of the ones after it.
    pub fn run(&self, action: &Action) -> (r: Vec<AdapterCall>)
        ensures
            same_calls(r@, calls_of(*action, self.delay_us)),
    {
        let mut out: Vec<AdapterCall> = Vec::new();
        self.run_into(action, &mut out);
        proof {
            assert(Seq::<AdapterCall>::empty() + calls_of(*action, self.delay_us) =~= calls_of(
                *action,
                self.delay_us,
            ));
        }
        out
    }

    fn run_into(&self, action: &Action, out: &mut Vec<AdapterCall>)
        ensures
            same_calls(final(out)@, old(out)@ + calls_of(*action, self.delay_us)),
        decreases *action,
    {
        match action {
            Action::KeySequence(sequence, count) => {
                self.run_key_sequence(sequence, *count, out);
            },
            Action::EnterText(text, count) => {
                self.run_enter_text(text, *count, out);
            },
            Action::Shell { command, args, env_vars } => {
                self.run_shell(command, args, env_vars, out);
            },
            Action::Combination(actions) => {
                let ghost start = old(out)@;
                let ghost d = self.delay_us;
                let mut i: usize = 0;
                while i < actions.len()
                    invariant
                        i <= actions.len(),
                        same_calls(out@, start + calls_of_upto(*actions, i as int, d)),
                        d == self.delay_us,
                        *action == Action::Combination(*actions),
                    decreases actions.len() - i,
                {
                    let ghost before = out@;
                    proof {
                        assert(decreases_to!(*action => (*action)->Combination_0));
                        assert(decreases_to!(*actions => actions[i as int]));
                    }
                    self.run_into(&actions[i], out);
                    proof {
                        let c = calls_of(actions[i as int], d);
                        lemma_same_calls_append(before, start + calls_of_upto(*actions, i as int, d), c);
                        lemma_same_calls_trans(out@, before + c, start + calls_of_upto(*actions, i as int, d) + c);
                        assert(start + calls_of_upto(*actions, i as int, d) + c =~= start + calls_of_upto(*actions, i + 1, d));
                    }
                    i = i + 1;
                }
                proof {
                    lemma_upto_from(*actions, actions.len() as int, d);
                    assert(calls_of_from(*actions, actions.len() as int, d) =~= Seq::<AdapterCall>::empty());
                    assert(calls_of_upto(*actions, actions.len() as int, d) =~= calls_of(*action, d));
                }
            },
        }
    }

    fn run_key_sequence(&self, sequence: &String, count: usize, out: &mut Vec<AdapterCall>)
        ensures
            same_calls(
                final(out)@,
                old(out)@ + calls_of(Action::KeySequence(*sequence, count), self.delay_us),
            ),
    {
        let ghost start = old(out)@;
        let ghost call = AdapterCall::SendKeySequence { sequence: *sequence, delay_us: self.delay_us };
        let mut i: usize = 0;
        while i < count
            invariant
                i <= count,
                out@ == start + Seq::new(i as nat, |k: int| call),
                call == (AdapterCall::SendKeySequence { sequence: *sequence, delay_us: self.delay_us }),
            decreases count - i,
        {
            let s = sequence.clone();
            assert(s == *sequence);
            out.push(AdapterCall::SendKeySequence { sequence: s, delay_us: self.delay_us });
            proof {
                assert(out@.len() == start.len() + i + 1);
                assert(out@.last() == AdapterCall::SendKeySequence { sequence: s, delay_us: self.delay_us });
                assert(out@ =~= start + Seq::new((i + 1) as nat, |k: int| call));
            }
            i = i + 1;
        }
        proof {
            assert(calls_of(Action::KeySequence(*sequence, count), self.delay_us) =~= Seq::new(
                count as nat,
                |k: int| call,
            ));
        }
    }

    fn run_enter_text(&self, text: &String, count: usize, out: &mut Vec<AdapterCall>)
        ensures
            same_calls(
                final(out)@,
                old(out)@ + calls_of(Action::EnterText(*text, count), self.delay_us),
            ),
    {
        let ghost start = old(out)@;
        let ghost call = AdapterCall::SendText { text: *text, delay_us: self.delay_us };
        let mut i: usize = 0;
        while i < count
            invariant
                i <= count,
                out@ == start + Seq::new(i as nat, |k: int| call),
                call == (AdapterCall::SendText { text: *text, delay_us: self.delay_us }),
            decreases count - i,
        {
            let s = text.clone();
            assert(s == *text);
            out.push(AdapterCall::SendText { text: s, delay_us: self.delay_us });
            proof {
                assert(out@ =~= start + Seq::new((i + 1) as nat, |k: int| call));
            }
            i = i + 1;
        }
        proof {
            assert(calls_of(Action::EnterText(*text, count), self.delay_us) =~= Seq::new(
                count as nat,
                |k: int| call,
            ));
        }
    }

    fn run_shell(
        &self,
        command: &String,
        args: &Option<Vec<String>>,
        env_vars: &Option<Vec<(String, String)>>,
        out: &mut Vec<AdapterCall>,
    )
        ensures
            same_calls(
                final(out)@,
                old(out)@ + seq![AdapterCall::Spawn { command: *command, args: *args, env_vars: *env_vars }],
            ),
    {
        let a = match args {
            Some(v) => Some(clone_strings(v)),
            None => None,
        };
        let e = match env_vars {
            Some(v) => Some(clone_pairs(v)),
            None => None,
        };
        out.push(AdapterCall::Spawn { command: command.clone(), args: a, env_vars: e });
    }
}

fn clone_strings(v: &Vec<String>) -> (r: Vec<String>)
    ensures
        r@ == v@,
{
    let mut r: Vec<String> = Vec::new();
    let mut i: usize = 0;
    while i < v.len()
        invariant
            i <= v.len(),
            r@ == v@.subrange(0, i as int),
        decreases v.len() - i,
    {
        r.push(v[i].clone());
        proof {
            assert(r@ =~= v@.subrange(0, i + 1));
        }
        i = i + 1;
    }
    proof {
        assert(v@.subrange(0, v.len() as int) =~= v@);
    }
    r
}

fn clone_pairs(v: &Vec<(String, String)>) -> (r: Vec<(String, String)>)
    ensures
        r@ == v@,
{
    let mut r: Vec<(String, String)> = Vec::new();
    let mut i: usize = 0;
    while i < v.len()
        invariant
            i <= v.len(),
            r@ == v@.subrange(0, i as int),
        decreases v.len() - i,
    {
        let pair = (v[i].0.clone(), v[i].1.clone());
        r.push(pair);
        proof {
            assert(r@ =~= v@.subrange(0, i + 1));
        }
        i = i + 1;
    }
    proof {
        assert(v@.subrange(0, v.len() as int) =~= v@);
    }
    r
}

} // verus!
