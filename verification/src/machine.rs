//! A reusable, domain-agnostic finite-state machine: named states, guarded
//! transitions and entry/exit/update hooks, parameterized over an arbitrary
//! mutable context type.
//!
//! Guards, actions and hooks are small strategy values implementing the
//! [`Condition`], [`Action`] and [`State`] traits; each carries a spec-level
//! description of its behaviour, so the machine's own operations can promise
//! exactly how a `decide` step transforms the context.

use vstd::prelude::*;

verus! {

/// Identifier of a state in the machine's graph.
///
/// The graph is kept as an association list keyed by this type; `same` is the
/// decidable equality used to look a state up, tied to spec-level equality so
/// that contracts can speak about keys directly.
pub trait StateId: Copy + Sized {
    fn same(&self, other: &Self) -> (r: bool)
        ensures
            r == (self == other),
    ;
}

/// A transition guard: a read-only predicate over the context.
pub trait Condition<T>: Sized {
    /// What the guard tests, at the specification level.
    spec fn holds(self, context: T) -> bool;

    fn eval(&self, context: &T) -> (r: bool)
        ensures
            r == self.holds(*context),
    ;
}

/// A side-effecting action run while a transition is taken.
pub trait Action<T>: Sized {
    /// How the action transforms the context, at the specification level.
    spec fn effect(self, pre: T) -> T;

    fn run(&self, context: &mut T)
        ensures
            *final(context) == self.effect(*old(context)),
    ;
}

/// The behaviour attached to one state: hooks run on entry, on exit and on
/// an explicit update step. Each hook is described by a spec-level effect.
pub trait State<T>: Sized {
    spec fn entry_effect(self, pre: T) -> T;

    spec fn exit_effect(self, pre: T) -> T;

    spec fn update_effect(self, pre: T) -> T;

    fn entry(&self, context: &mut T)
        ensures
            *final(context) == self.entry_effect(*old(context)),
    ;

    fn exit(&self, context: &mut T)
        ensures
            *final(context) == self.exit_effect(*old(context)),
    ;

    fn update(&self, context: &mut T)
        ensures
            *final(context) == self.update_effect(*old(context)),
    ;
}

/// A guarded transition: when `condition` holds, the machine moves to the
/// state identified by `to`, running `actions` in order on the way.
pub struct FSMTransition<K, C, A> {
    pub to: K,
    pub condition: C,
    pub actions: Vec<A>,
}

/// One state of the graph: its behaviour object and its ordered transitions.
pub struct FSMState<K, B, C, A> {
    pub state: B,
    pub transitions: Vec<FSMTransition<K, C, A>>,
}

/// The machine: an association list from state identifier to state, and the
/// identifier of the state that is currently active.
pub struct FSM<K, B, C, A> {
    pub states: Vec<(K, FSMState<K, B, C, A>)>,
    pub active_state: K,
}

/// Whether `table` holds an entry keyed by `k`.
pub open spec fn has_key<K, V>(table: Seq<(K, V)>, k: K) -> bool {
    exists|i: int| 0 <= i < table.len() && table[i].0 == k
}

/// Index of the first entry keyed by `k`, or `table.len()` when absent.
pub open spec fn key_index<K, V>(table: Seq<(K, V)>, k: K) -> int
    decreases table.len(),
{
    if table.len() == 0 {
        0
    } else if table[0].0 == k {
        0
    } else {
        1 + key_index(table.drop_first(), k)
    }
}

/// The table after binding `k` to `v`: the first entry keyed by `k` is
/// replaced when one exists, else a new entry is appended.
pub open spec fn table_insert<K, V>(table: Seq<(K, V)>, k: K, v: V) -> Seq<(K, V)> {
    if has_key(table, k) {
        table.update(key_index(table, k), (k, v))
    } else {
        table.push((k, v))
    }
}

pub proof fn lemma_key_index<K, V>(table: Seq<(K, V)>, k: K)
    ensures
        has_key(table, k) ==> 0 <= key_index(table, k) < table.len()
            && table[key_index(table, k)].0 == k
            && forall|j: int| 0 <= j < key_index(table, k) ==> table[j].0 != k,
        !has_key(table, k) ==> key_index(table, k) == table.len(),
    decreases table.len(),
{
    if table.len() > 0 && table[0].0 != k {
        lemma_key_index(table.drop_first(), k);
        assert(forall|i: int| 0 < i < table.len() ==> table.drop_first()[i - 1] == table[i]);
        if has_key(table.drop_first(), k) {
            let i = choose|i: int|
                0 <= i < table.drop_first().len() && table.drop_first()[i].0 == k;
            assert(table[i + 1].0 == k);
        } else if has_key(table, k) {
            let i = choose|i: int| 0 <= i < table.len() && table[i].0 == k;
            assert(table.drop_first()[i - 1].0 == k);
        }
    }
}

/// Index of the first transition whose guard holds in `context`, if any.
pub open spec fn first_match<K, C: Condition<T>, A, T>(
    transitions: Seq<FSMTransition<K, C, A>>,
    context: T,
) -> Option<int>
    decreases transitions.len(),
{
    if transitions.len() == 0 {
        None
    } else if transitions[0].condition.holds(context) {
        Some(0int)
    } else {
        match first_match(transitions.drop_first(), context) {
            Some(i) => Some(i + 1),
            None => None,
        }
    }
}

/// First-match-wins, one direction: whatever `first_match` selects is a
/// transition whose guard holds, and every earlier guard fails. In
/// particular, when the guards of two transitions both hold, the one
/// declared first is selected, never the later one.
pub proof fn lemma_first_match_wins<K, C: Condition<T>, A, T>(
    transitions: Seq<FSMTransition<K, C, A>>,
    context: T,
)
    ensures
        match first_match(transitions, context) {
            Some(i) => 0 <= i < transitions.len() && transitions[i].condition.holds(context)
                && forall|j: int| 0 <= j < i ==> !transitions[j].condition.holds(context),
            None => forall|j: int|
                0 <= j < transitions.len() ==> !transitions[j].condition.holds(context),
        },
    decreases transitions.len(),
{
    if transitions.len() > 0 && !transitions[0].condition.holds(context) {
        lemma_first_match_wins(transitions.drop_first(), context);
        assert(forall|i: int|
            0 < i < transitions.len() ==> transitions.drop_first()[i - 1] == transitions[i]);
    }
}

/// First-match-wins, the other direction: the first index whose guard holds
/// is exactly what `first_match` selects.
pub proof fn lemma_first_match_is_first<K, C: Condition<T>, A, T>(
    transitions: Seq<FSMTransition<K, C, A>>,
    context: T,
    i: int,
)
    requires
        0 <= i < transitions.len(),
        transitions[i].condition.holds(context),
        forall|j: int| 0 <= j < i ==> !transitions[j].condition.holds(context),
    ensures
        first_match(transitions, context) == Some(i),
    decreases transitions.len(),
{
    if i > 0 {
        assert(forall|j: int|
            0 < j < transitions.len() ==> transitions.drop_first()[j - 1] == transitions[j]);
        lemma_first_match_is_first(transitions.drop_first(), context, i - 1);
    }
}

/// The context after folding `actions` over `pre`, in order.
pub open spec fn run_actions<A: Action<T>, T>(actions: Seq<A>, pre: T) -> T
    decreases actions.len(),
{
    if actions.len() == 0 {
        pre
    } else {
        run_actions(actions.drop_first(), actions[0].effect(pre))
    }
}

pub proof fn lemma_run_actions_push<A: Action<T>, T>(actions: Seq<A>, action: A, pre: T)
    ensures
        run_actions(actions.push(action), pre) == action.effect(run_actions(actions, pre)),
    decreases actions.len(),
{
    if actions.len() == 0 {
        assert(actions.push(action)[0] == action);
        assert(actions.push(action).drop_first() =~= Seq::<A>::empty());
        assert(run_actions(Seq::<A>::empty(), action.effect(pre)) == action.effect(pre));
        assert(run_actions(actions.push(action), pre) == action.effect(pre));
    } else {
        assert(actions.push(action)[0] == actions[0]);
        assert(actions.push(action).drop_first() =~= actions.drop_first().push(action));
        lemma_run_actions_push(actions.drop_first(), action, actions[0].effect(pre));
        assert(run_actions(actions.push(action), pre) == run_actions(
            actions.drop_first().push(action),
            actions[0].effect(pre),
        ));
        assert(run_actions(actions, pre) == run_actions(actions.drop_first(), actions[0].effect(pre)));
    }
}

impl<K, B, C, A> FSMState<K, B, C, A> {
    pub fn new(state: B) -> (r: Self)
        ensures
            r.state == state,
            r.transitions@ =~= Seq::<FSMTransition<K, C, A>>::empty(),
    {
        Self { state, transitions: Vec::new() }
    }

    /// Append one guarded transition; transitions keep declaration order.
    pub fn transition(self, to: K, condition: C, actions: Vec<A>) -> (r: Self)
        ensures
            r.state == self.state,
            r.transitions@ == self.transitions@.push(
                FSMTransition { to, condition, actions },
            ),
    {
        let mut next = self;
        next.transitions.push(FSMTransition { to, condition, actions });
        next
    }

    /// Index of the first transition whose guard holds in `context`, if any.
    pub fn decide<T>(&self, context: &T) -> (r: Option<usize>) where C: Condition<T>
        ensures
            match r {
                Some(i) => first_match(self.transitions@, *context) == Some(i as int),
                None => first_match(self.transitions@, *context) is None,
            },
    {
        let n = self.transitions.len();
        let mut i: usize = 0;
        while i < n
            invariant
                n == self.transitions@.len(),
                0 <= i <= n,
                forall|j: int| 0 <= j < i ==> !self.transitions@[j].condition.holds(*context),
            decreases n - i,
        {
            if self.transitions[i].condition.eval(context) {
                proof {
                    lemma_first_match_is_first(self.transitions@, *context, i as int);
                }
                return Some(i);
            }
            i = i + 1;
        }
        proof {
            lemma_first_match_wins(self.transitions@, *context);
        }
        None
    }
}

/// Index of the first entry of `table` keyed by `k`, if any.
fn find_key<K: StateId, V>(table: &Vec<(K, V)>, k: &K) -> (r: Option<usize>)
    ensures
        match r {
            Some(i) => has_key(table@, *k) && i as int == key_index(table@, *k),
            None => !has_key(table@, *k),
        },
{
    let n = table.len();
    let mut i: usize = 0;
    while i < n
        invariant
            n == table@.len(),
            0 <= i <= n,
            forall|j: int| 0 <= j < i ==> table@[j].0 != *k,
        decreases n - i,
    {
        if table[i].0.same(k) {
            proof {
                lemma_key_index(table@, *k);
            }
            return Some(i);
        }
        i = i + 1;
    }
    None
}

impl<K: StateId, B, C, A> FSM<K, B, C, A> {
    /// Whether the graph holds a state identified by `k`.
    pub open spec fn spec_has_state(self, k: K) -> bool {
        has_key(self.states@, k)
    }

    /// The state identified by `k`; meaningful only when `spec_has_state(k)`.
    pub open spec fn spec_state(self, k: K) -> FSMState<K, B, C, A> {
        self.states@[key_index(self.states@, k)].1
    }

    pub fn new(active_state: K) -> (r: Self)
        ensures
            r.active_state == active_state,
            r.states@ =~= Seq::<(K, FSMState<K, B, C, A>)>::empty(),
    {
        Self { states: Vec::new(), active_state }
    }

    /// Bind `id` to `state` in the graph, replacing any earlier binding.
    pub fn state(self, id: K, state: FSMState<K, B, C, A>) -> (r: Self)
        ensures
            r.active_state == self.active_state,
            r.states@ == table_insert(self.states@, id, state),
    {
        let mut next = self;
        let found = find_key(&next.states, &id);
        match found {
            Some(i) => {
                proof {
                    lemma_key_index(next.states@, id);
                }
                next.states.remove(i);
                next.states.insert(i, (id, state));
                proof {
                    assert(next.states@ =~= table_insert(self.states@, id, state));
                }
            },
            None => {
                next.states.push((id, state));
            },
        }
        next
    }
}

/// How one `set_active_state(to, actions)` step transforms the context:
/// the active state's exit hook, then the actions in order, then the target
/// state's entry hook; a missing state contributes nothing.
pub open spec fn step_context<K: StateId, B: State<T>, C, A: Action<T>, T>(
    m: FSM<K, B, C, A>,
    to: K,
    actions: Seq<A>,
    pre: T,
) -> T {
    let after_exit = if m.spec_has_state(m.active_state) {
        m.spec_state(m.active_state).state.exit_effect(pre)
    } else {
        pre
    };
    let after_actions = run_actions(actions, after_exit);
    if m.spec_has_state(to) {
        m.spec_state(to).state.entry_effect(after_actions)
    } else {
        after_actions
    }
}

/// The active state after a step towards `to`: the target when it exists in
/// the graph, else the old active state (the step is then a no-op there).
pub open spec fn step_active<K: StateId, B, C, A>(m: FSM<K, B, C, A>, to: K) -> K {
    if m.spec_has_state(to) {
        to
    } else {
        m.active_state
    }
}

/// How one `decide` step relates the machine and context before and after:
/// if the active state exists and some guard of it holds, the earliest such
/// transition is taken; otherwise nothing changes.
pub open spec fn decide_step<K: StateId, B: State<T>, C: Condition<T>, A: Action<T>, T>(
    pre: FSM<K, B, C, A>,
    pre_context: T,
    post: FSM<K, B, C, A>,
    post_context: T,
) -> bool {
    post.states == pre.states && if pre.spec_has_state(pre.active_state) {
        match first_match(pre.spec_state(pre.active_state).transitions@, pre_context) {
            Some(i) => {
                let t = pre.spec_state(pre.active_state).transitions@[i];
                post.active_state == step_active(pre, t.to) && post_context == step_context(
                    pre,
                    t.to,
                    t.actions@,
                    pre_context,
                )
            },
            None => post.active_state == pre.active_state && post_context == pre_context,
        }
    } else {
        post.active_state == pre.active_state && post_context == pre_context
    }
}

impl<K: StateId, B, C, A> FSM<K, B, C, A> {
    /// Exit the active state, run `actions` in order, then enter `id` and
    /// make it active; a target absent from the graph leaves the machine in
    /// its old state (callers must not rely on that silent edge case).
    pub fn set_active_state<T>(&mut self, id: K, actions: &Vec<A>, context: &mut T) where
        B: State<T>,
        A: Action<T>,

        ensures
            final(self).states == old(self).states,
            final(self).active_state == step_active(*old(self), id),
            *final(context) == step_context(*old(self), id, actions@, *old(context)),
    {
        let current = find_key(&self.states, &self.active_state);
        match current {
            Some(i) => {
                proof {
                    lemma_key_index(self.states@, self.active_state);
                }
                self.states[i].1.state.exit(context);
            },
            None => {},
        }
        let ghost after_exit = *context;
        let n = actions.len();
        let mut j: usize = 0;
        while j < n
            invariant
                n == actions@.len(),
                0 <= j <= n,
                *context == run_actions(actions@.take(j as int), after_exit),
            decreases n - j,
        {
            proof {
                assert(actions@.take(j + 1) =~= actions@.take(j as int).push(actions@[j as int]));
                lemma_run_actions_push(actions@.take(j as int), actions@[j as int], after_exit);
            }
            actions[j].run(context);
            j = j + 1;
        }
        proof {
            assert(actions@.take(n as int) =~= actions@);
        }
        let target = find_key(&self.states, &id);
        match target {
            Some(i) => {
                proof {
                    lemma_key_index(self.states@, id);
                }
                self.states[i].1.state.entry(context);
                self.active_state = id;
            },
            None => {},
        }
    }

    /// Evaluate the active state's transitions in declaration order; on the
    /// first whose guard holds, step to its target (first-match-wins).
    pub fn decide<T>(&mut self, context: &mut T) where
        B: State<T>,
        C: Condition<T>,
        A: Action<T>,

        ensures
            decide_step(*old(self), *old(context), *final(self), *final(context)),
    {
        let current = find_key(&self.states, &self.active_state);
        match current {
            Some(i) => {
                proof {
                    lemma_key_index(self.states@, self.active_state);
                }
                let selected = self.states[i].1.decide(context);
                match selected {
                    Some(j) => {
                        proof {
                            lemma_first_match_wins(
                                self.states@[i as int].1.transitions@,
                                *context,
                            );
                        }
                        let to = self.states[i].1.transitions[j].to;
                        self.states[i].1.state.exit(context);
                        let ghost after_exit = *context;
                        let n = self.states[i].1.transitions[j].actions.len();
                        let mut a: usize = 0;
                        while a < n
                            invariant
                                i < self.states@.len(),
                                j < self.states@[i as int].1.transitions@.len(),
                                n == self.states@[i as int].1.transitions@[j as int].actions@.len(),
                                0 <= a <= n,
                                *context == run_actions(
                                    self.states@[i as int].1.transitions@[j as int].actions@.take(
                                        a as int,
                                    ),
                                    after_exit,
                                ),
                            decreases n - a,
                        {
                            let ghost acts = self.states@[i as int].1.transitions@[
                                j as int].actions@;
                            proof {
                                assert(acts.take(a + 1) =~= acts.take(a as int).push(
                                    acts[a as int],
                                ));
                                lemma_run_actions_push(acts.take(a as int), acts[a as int],
                                    after_exit);
                            }
                            self.states[i].1.transitions[j].actions[a].run(context);
                            a = a + 1;
                        }
                        proof {
                            let acts = self.states@[i as int].1.transitions@[j as int].actions@;
                            assert(acts.take(n as int) =~= acts);
                        }
                        let target = find_key(&self.states, &to);
                        match target {
                            Some(t) => {
                                proof {
                                    lemma_key_index(self.states@, to);
                                }
                                self.states[t].1.state.entry(context);
                                self.active_state = to;
                            },
                            None => {},
                        }
                    },
                    None => {},
                }
            },
            None => {},
        }
    }

    /// Run the active state's update hook only; transitions are not
    /// evaluated and the machine's structure does not change.
    pub fn update<T>(&mut self, context: &mut T) where B: State<T>
        ensures
            *final(self) == *old(self),
            *final(context) == if old(self).spec_has_state(old(self).active_state) {
                old(self).spec_state(old(self).active_state).state.update_effect(*old(context))
            } else {
                *old(context)
            },
    {
        let current = find_key(&self.states, &self.active_state);
        match current {
            Some(i) => {
                proof {
                    lemma_key_index(self.states@, self.active_state);
                }
                self.states[i].1.state.update(context);
            },
            None => {},
        }
    }
}

} // verus!
