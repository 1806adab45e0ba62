//! The per-agent trust lifecycle: a finite-state machine whose transitions are
//! validated against a fixed edge table and recorded in an append-only history.
use vstd::prelude::*;

use crate::clock;
use crate::delegation::copy_entries;
use crate::score::TrustError;

verus! {

/// States of a trust relationship.
#[derive(Debug, Clone, Copy, PartialEq, Eq, Structural, Hash)]
pub enum TrustState {
    Initial,
    Establishing,
    Active,
    Suspended,
    Reviewing,
    Revoked,
    Expired,
    GracePeriod,
}

/// The edge table: the only moves a lifecycle may make.
pub open spec fn valid_edge(from: TrustState, to: TrustState) -> bool {
    match (from, to) {
        (TrustState::Initial, TrustState::Establishing) => true,
        (TrustState::Establishing, TrustState::Active) => true,
        (TrustState::Establishing, TrustState::Revoked) => true,
        (TrustState::Active, TrustState::Suspended) => true,
        (TrustState::Active, TrustState::Reviewing) => true,
        (TrustState::Active, TrustState::Revoked) => true,
        (TrustState::Active, TrustState::Expired) => true,
        (TrustState::Suspended, TrustState::Active) => true,
        (TrustState::Suspended, TrustState::Reviewing) => true,
        (TrustState::Suspended, TrustState::Revoked) => true,
        (TrustState::Reviewing, TrustState::Active) => true,
        (TrustState::Reviewing, TrustState::Suspended) => true,
        (TrustState::Reviewing, TrustState::Revoked) => true,
        (TrustState::GracePeriod, TrustState::Active) => true,
        (TrustState::GracePeriod, TrustState::Expired) => true,
        (_, TrustState::GracePeriod) => true,
        _ => false,
    }
}

/// Whether moving from `from` to `to` is in the edge table.
pub fn is_valid_edge(from: TrustState, to: TrustState) -> (r: bool)
    ensures
        r == valid_edge(from, to),
{
    match (from, to) {
        (TrustState::Initial, TrustState::Establishing) => true,
        (TrustState::Establishing, TrustState::Active) => true,
        (TrustState::Establishing, TrustState::Revoked) => true,
        (TrustState::Active, TrustState::Suspended) => true,
        (TrustState::Active, TrustState::Reviewing) => true,
        (TrustState::Active, TrustState::Revoked) => true,
        (TrustState::Active, TrustState::Expired) => true,
        (TrustState::Suspended, TrustState::Active) => true,
        (TrustState::Suspended, TrustState::Reviewing) => true,
        (TrustState::Suspended, TrustState::Revoked) => true,
        (TrustState::Reviewing, TrustState::Active) => true,
        (TrustState::Reviewing, TrustState::Suspended) => true,
        (TrustState::Reviewing, TrustState::Revoked) => true,
        (TrustState::GracePeriod, TrustState::Active) => true,
        (TrustState::GracePeriod, TrustState::Expired) => true,
        (_, TrustState::GracePeriod) => true,
        _ => false,
    }
}

/// A requested move to `target_state`, taking effect at `transition_at`.
#[derive(Debug)]
pub struct StateTransition {
    pub target_state: TrustState,
    pub reason: String,
    /// When the transition takes effect (nanoseconds since the Unix epoch).
    pub transition_at: i64,
    pub metadata: Vec<(String, serde_json::Value)>,
}

impl Clone for StateTransition {
    fn clone(&self) -> (r: Self)
        ensures
            r.target_state == self.target_state,
            r.reason == self.reason,
            r.transition_at == self.transition_at,
            r.metadata@ == self.metadata@,
    {
        StateTransition {
            target_state: self.target_state,
            reason: self.reason.clone(),
            transition_at: self.transition_at,
            metadata: copy_entries(&self.metadata),
        }
    }
}

impl StateTransition {
    /// A transition to `target_state` taking effect at time `at`.
    pub fn new_at(target_state: TrustState, reason: String, at: i64) -> (r: StateTransition)
        ensures
            r.target_state == target_state,
            r.reason == reason,
            r.transition_at == at,
            r.metadata@.len() == 0,
    {
        StateTransition { target_state, reason, transition_at: at, metadata: Vec::new() }
    }

    /// A transition to `target_state` taking effect now.
    pub fn new(target_state: TrustState, reason: String) -> (r: StateTransition)
        ensures
            r.target_state == target_state,
            r.reason == reason,
            r.metadata@.len() == 0,
    {
        Self::new_at(target_state, reason, clock::now())
    }

    /// Moves the effective time to `duration` nanoseconds from now.
    pub fn with_future_transition(self, duration: i64) -> (r: StateTransition)
        ensures
            r.target_state == self.target_state,
            r.reason == self.reason,
            r.metadata == self.metadata,
    {
        let now = clock::now();
        StateTransition { transition_at: clock::offset(now, duration), ..self }
    }

    /// Adds a metadata entry.
    pub fn with_metadata(self, key: String, value: serde_json::Value) -> (r: StateTransition)
        ensures
            r.target_state == self.target_state,
            r.reason == self.reason,
            r.transition_at == self.transition_at,
            r.metadata@ == self.metadata@.push((key, value)),
    {
        let mut s = self;
        s.metadata.push((key, value));
        s
    }
}

/// A state that was left, with when it was entered and why it was left.
#[derive(Debug)]
pub struct StateHistoryEntry {
    pub state: TrustState,
    pub entered_at: i64,
    pub reason: String,
    pub metadata: Vec<(String, serde_json::Value)>,
}

impl StateHistoryEntry {
    /// The entry records leaving `state`, entered at `entered_at`, for `reason`.
    pub open spec fn records(
        self,
        state: TrustState,
        entered_at: i64,
        reason: String,
        metadata: Seq<(String, serde_json::Value)>,
    ) -> bool {
        &&& self.state == state
        &&& self.entered_at == entered_at
        &&& self.reason == reason
        &&& self.metadata@ == metadata
    }
}

/// `after` is `before` with one entry appended that records leaving `state`.
pub open spec fn history_appended(
    before: Seq<StateHistoryEntry>,
    after: Seq<StateHistoryEntry>,
    state: TrustState,
    entered_at: i64,
    reason: String,
    metadata: Seq<(String, serde_json::Value)>,
) -> bool {
    &&& after.len() == before.len() + 1
    &&& after.subrange(0, before.len() as int) == before
    &&& after.last().records(state, entered_at, reason, metadata)
}

/// The lifecycle of one trust relationship.
#[derive(Debug)]
pub struct TrustLifecycle {
    pub current_state: TrustState,
    /// When the current state was entered (nanoseconds since the Unix epoch).
    pub state_entered_at: i64,
    pub next_transition: Option<StateTransition>,
    /// Append-only record of the states left so far.
    pub state_history: Vec<StateHistoryEntry>,
    /// Metadata attached to states: `(state, key, value)`, one entry per state and key.
    pub state_metadata: Vec<(TrustState, String, serde_json::Value)>,
}

impl TrustLifecycle {
    /// A lifecycle in `Initial`, entered at `now`, whose history holds that entry.
    pub fn new_at(now: i64) -> (r: TrustLifecycle)
        ensures
            r.current_state == TrustState::Initial,
            r.state_entered_at == now,
            r.next_transition is None,
            r.state_history@.len() == 1,
            r.state_history@[0].state == TrustState::Initial,
            r.state_history@[0].entered_at == now,
    {
        let mut history: Vec<StateHistoryEntry> = Vec::new();
        history.push(
            StateHistoryEntry {
                state: TrustState::Initial,
                entered_at: now,
                reason: "Initial state".to_owned(),
                metadata: Vec::new(),
            },
        );
        TrustLifecycle {
            current_state: TrustState::Initial,
            state_entered_at: now,
            next_transition: None,
            state_history: history,
            state_metadata: Vec::new(),
        }
    }

    /// A lifecycle in `Initial`, entered now.
    pub fn new() -> (r: TrustLifecycle)
        ensures
            r.current_state == TrustState::Initial,
            r.next_transition is None,
            r.state_history@.len() == 1,
    {
        Self::new_at(clock::now())
    }

    /// The transition is in the edge table from the current state.
    pub fn is_valid_transition(&self, transition: &StateTransition) -> (r: bool)
        ensures
            r == valid_edge(self.current_state, transition.target_state),
    {
        is_valid_edge(self.current_state, transition.target_state)
    }

    /// Applies `transition` if the edge table allows it: the state being left is
    /// appended to the history, the target becomes current, and any scheduled
    /// transition is cleared. Otherwise fails with `InvalidStateTransition` and
    /// changes nothing.
    pub fn apply_transition(&mut self, transition: StateTransition) -> (r: Result<(), TrustError>)
        ensures
            r is Ok <==> valid_edge(old(self).current_state, transition.target_state),
            r is Err ==> r->Err_0 is InvalidStateTransition && *final(self) == *old(self),
            r is Ok ==> {
                &&& final(self).current_state == transition.target_state
                &&& final(self).state_entered_at == transition.transition_at
                &&& final(self).next_transition is None
                &&& history_appended(
                    old(self).state_history@,
                    final(self).state_history@,
                    old(self).current_state,
                    old(self).state_entered_at,
                    transition.reason,
                    transition.metadata@,
                )
            },
    {
        if !self.is_valid_transition(&transition) {
            return Err(TrustError::InvalidStateTransition("transition not in the edge table".to_owned()));
        }
        let target = transition.target_state;
        let at = transition.transition_at;
        self.state_history.push(
            StateHistoryEntry {
                state: self.current_state,
                entered_at: self.state_entered_at,
                reason: transition.reason,
                metadata: transition.metadata,
            },
        );
        self.current_state = target;
        self.state_entered_at = at;
        self.next_transition = None;
        assert(self.state_history@.subrange(0, old(self).state_history@.len() as int) =~= old(
            self,
        ).state_history@);
        Ok(())
    }

    /// Stores `transition` as the pending one if the edge table allows it and it
    /// takes effect strictly after `now`; otherwise fails with
    /// `InvalidStateTransition` and changes nothing.
    pub fn schedule_transition_at(&mut self, transition: StateTransition, now: i64) -> (r: Result<
        (),
        TrustError,
    >)
        ensures
            r is Ok <==> (valid_edge(old(self).current_state, transition.target_state)
                && transition.transition_at > now),
            r is Err ==> r->Err_0 is InvalidStateTransition && *final(self) == *old(self),
            r is Ok ==> *final(self) == (TrustLifecycle {
                next_transition: Some(transition),
                ..*old(self)
            }),
    {
        if !self.is_valid_transition(&transition) {
            return Err(TrustError::InvalidStateTransition("transition not in the edge table".to_owned()));
        }
        if transition.transition_at <= now {
            return Err(
                TrustError::InvalidStateTransition("transition time must lie in the future".to_owned()),
            );
        }
        self.next_transition = Some(transition);
        Ok(())
    }

    /// `schedule_transition_at` with the current time.
    pub fn schedule_transition(&mut self, transition: StateTransition) -> (r: Result<(), TrustError>)
        ensures
            !valid_edge(old(self).current_state, transition.target_state) ==> r is Err,
            r is Err ==> *final(self) == *old(self) && r->Err_0 is InvalidStateTransition,
            r is Ok ==> valid_edge(old(self).current_state, transition.target_state),
            r is Ok ==> final(self).next_transition == Some(transition)
                && final(self).current_state == old(self).current_state
                && final(self).state_history == old(self).state_history,
    {
        self.schedule_transition_at(transition, clock::now())
    }

    /// Applies the pending transition if its time has come by `now` and returns the
    /// new state; returns `None` and changes nothing otherwise.
    pub fn check_pending_transitions_at(&mut self, now: i64) -> (r: Result<Option<TrustState>, TrustError>)
        ensures
            match old(self).next_transition {
                Some(t) => if t.transition_at <= now {
                    if valid_edge(old(self).current_state, t.target_state) {
                        &&& r == Ok::<Option<TrustState>, TrustError>(Some(t.target_state))
                        &&& final(self).current_state == t.target_state
                        &&& final(self).state_entered_at == t.transition_at
                        &&& final(self).next_transition is None
                        &&& history_appended(
                            old(self).state_history@,
                            final(self).state_history@,
                            old(self).current_state,
                            old(self).state_entered_at,
                            t.reason,
                            t.metadata@,
                        )
                    } else {
                        r is Err && r->Err_0 is InvalidStateTransition && *final(self) == *old(self)
                    }
                } else {
                    r == Ok::<Option<TrustState>, TrustError>(None) && *final(self) == *old(self)
                },
                None => r == Ok::<Option<TrustState>, TrustError>(None) && *final(self) == *old(self),
            },
    {
        let due = match &self.next_transition {
            Some(t) => if t.transition_at <= now {
                Some(t.clone())
            } else {
                None
            },
            None => None,
        };
        match due {
            Some(t) => {
                let target = t.target_state;
                match self.apply_transition(t) {
                    Ok(()) => Ok(Some(target)),
                    Err(e) => Err(e),
                }
            },
            None => Ok(None),
        }
    }

    /// `check_pending_transitions_at` with the current time.
    pub fn check_pending_transitions(&mut self) -> (r: Result<Option<TrustState>, TrustError>)
        ensures
            old(self).next_transition is None ==> r == Ok::<Option<TrustState>, TrustError>(None)
                && *final(self) == *old(self),
            r matches Ok(Some(st)) ==> (old(self).next_transition matches Some(t) && st
                == t.target_state && final(self).current_state == st
                && final(self).state_entered_at == t.transition_at
                && final(self).next_transition is None && history_appended(
                old(self).state_history@,
                final(self).state_history@,
                old(self).current_state,
                old(self).state_entered_at,
                t.reason,
                t.metadata@,
            )),
            r == Ok::<Option<TrustState>, TrustError>(None) ==> *final(self) == *old(self),
            r is Err ==> *final(self) == *old(self) && r->Err_0 is InvalidStateTransition,
    {
        self.check_pending_transitions_at(clock::now())
    }

    /// Nanoseconds spent in the current state as of `now`.
    pub fn current_state_duration_at(&self, now: i64) -> (r: i128)
        ensures
            r == now - self.state_entered_at,
    {
        clock::elapsed(self.state_entered_at, now)
    }

    /// Nanoseconds spent in the current state so far.
    pub fn current_state_duration(&self) -> i128 {
        self.current_state_duration_at(clock::now())
    }

    /// The states left so far, oldest first.
    pub fn state_history(&self) -> (r: &Vec<StateHistoryEntry>)
        ensures
            r == &self.state_history,
    {
        &self.state_history
    }

    /// Sets `key` to `value` in the metadata of the current state.
    pub fn add_state_metadata(&mut self, key: String, value: serde_json::Value)
        ensures
            final(self).current_state == old(self).current_state,
            final(self).state_history == old(self).state_history,
            final(self).state_metadata@.contains((old(self).current_state, key, value)),
            forall|e: (TrustState, String, serde_json::Value)|
                (e.0 != old(self).current_state || e.1@ != key@) ==> (
                #[trigger] final(self).state_metadata@.contains(e)
                    <==> old(self).state_metadata@.contains(e)),
    {
        let state = self.current_state;
        let mut i: usize = 0;
        while i < self.state_metadata.len()
            invariant
                i <= self.state_metadata@.len(),
                state == old(self).current_state,
                self.current_state == old(self).current_state,
                self.state_history == old(self).state_history,
                self.state_metadata == old(self).state_metadata,
                forall|j: int|
                    0 <= j < i ==> !((#[trigger] self.state_metadata@[j]).0 == state
                        && self.state_metadata@[j].1@ == key@),
            decreases self.state_metadata.len() - i,
        {
            if self.state_metadata[i].0 == state && self.state_metadata[i].1 == key {
                let ghost before = self.state_metadata@;
                self.state_metadata.set(i, (state, key, value));
                proof {
                    assert(self.state_metadata@[i as int] == (state, key, value));
                    assert forall|e: (TrustState, String, serde_json::Value)|
                        (e.0 != state || e.1@ != key@) implies (#[trigger] self.state_metadata@.contains(e)
                        <==> before.contains(e)) by {
                        if before.contains(e) {
                            let k = choose|k: int| 0 <= k < before.len() && before[k] == e;
                            assert(self.state_metadata@[k] == e);
                        }
                        if self.state_metadata@.contains(e) {
                            let k = choose|k: int| 0 <= k < self.state_metadata@.len() && self.state_metadata@[k] == e;
                            assert(before[k] == e);
                        }
                    }
                }
                return;
            }
            i = i + 1;
        }
        let ghost before = self.state_metadata@;
        self.state_metadata.push((state, key, value));
        proof {
            assert(self.state_metadata@[before.len() as int] == (state, key, value));
            assert forall|e: (TrustState, String, serde_json::Value)|
                (e.0 != state || e.1@ != key@) implies (#[trigger] self.state_metadata@.contains(e)
                <==> before.contains(e)) by {
                if before.contains(e) {
                    let k = choose|k: int| 0 <= k < before.len() && before[k] == e;
                    assert(self.state_metadata@[k] == e);
                }
                if self.state_metadata@.contains(e) {
                    let k = choose|k: int| 0 <= k < self.state_metadata@.len() && self.state_metadata@[k] == e;
                    assert(k < before.len());
                    assert(before[k] == e);
                }
            }
        }
    }

    /// The metadata entries of `state` as `(key, value)` pairs, or `None` when it has none.
    pub fn get_state_metadata(&self, state: TrustState) -> (r: Option<Vec<(String, serde_json::Value)>>)
        ensures
            r is None <==> !(exists|i: int|
                0 <= i < self.state_metadata@.len() && (#[trigger] self.state_metadata@[i]).0 == state),
            r matches Some(v) ==> forall|k: String, x: serde_json::Value|
                #[trigger] v@.contains((k, x)) <==> self.state_metadata@.contains((state, k, x)),
    {
        let mut out: Vec<(String, serde_json::Value)> = Vec::new();
        let mut i: usize = 0;
        while i < self.state_metadata.len()
            invariant
                i <= self.state_metadata@.len(),
                forall|k: String, x: serde_json::Value|
                    #[trigger] out@.contains((k, x)) <==> exists|j: int|
                        0 <= j < i && self.state_metadata@[j] == (state, k, x),
                out@.len() == 0 <==> !(exists|j: int|
                    0 <= j < i && (#[trigger] self.state_metadata@[j]).0 == state),
            decreases self.state_metadata.len() - i,
        {
            if self.state_metadata[i].0 == state {
                let ghost before = out@;
                out.push((self.state_metadata[i].1.clone(), self.state_metadata[i].2.clone()));
                proof {
                    assert forall|k: String, x: serde_json::Value|
                        #[trigger] out@.contains((k, x)) <==> exists|j: int|
                            0 <= j < i + 1 && self.state_metadata@[j] == (state, k, x) by {
                        if out@.contains((k, x)) {
                            let t = choose|t: int| 0 <= t < out@.len() && out@[t] == (k, x);
                            if t < before.len() {
                                assert(before[t] == (k, x));
                                assert(before.contains((k, x)));
                            } else {
                                assert(self.state_metadata@[i as int] == (state, k, x));
                            }
                        }
                        if exists|j: int| 0 <= j < i + 1 && self.state_metadata@[j] == (state, k, x) {
                            let j = choose|j: int| 0 <= j < i + 1 && self.state_metadata@[j] == (state, k, x);
                            if j < i {
                                assert(before.contains((k, x)));
                                let t = choose|t: int| 0 <= t < before.len() && before[t] == (k, x);
                                assert(out@[t] == (k, x));
                            } else {
                                assert(out@[before.len() as int] == (k, x));
                            }
                        }
                    }
                }
            }
            i = i + 1;
        }
        if out.len() == 0 {
            None
        } else {
            proof {
                assert forall|k: String, x: serde_json::Value|
                    #[trigger] out@.contains((k, x)) <==> self.state_metadata@.contains((state, k, x)) by {
                    if self.state_metadata@.contains((state, k, x)) {
                        let j = choose|j: int| 0 <= j < self.state_metadata@.len() && self.state_metadata@[j] == (state, k, x);
                    }
                }
            }
            Some(out)
        }
    }

    pub fn is_active(&self) -> (r: bool)
        ensures
            r == (self.current_state == TrustState::Active),
    {
        self.current_state == TrustState::Active
    }

    /// Trust-bearing operations (key rotation included) are permitted only in
    /// `Active` or `GracePeriod`.
    pub fn is_valid_for_trust(&self) -> (r: bool)
        ensures
            r == (self.current_state == TrustState::Active || self.current_state
                == TrustState::GracePeriod),
    {
        self.current_state == TrustState::Active || self.current_state == TrustState::GracePeriod
    }
}

} // verus!
