//! Trust delegations and the relationships they give rise to.
use vstd::prelude::*;

use crate::clock;
use crate::score::{TrustError, TrustLevel, TrustScore};

verus! {

/// How two agents come to trust each other.
#[derive(Debug, Clone, Copy, PartialEq, Eq, Structural, Hash)]
pub enum RelationshipType {
    Direct,
    Delegated,
    ThirdParty,
    Consortium,
    Hierarchical,
}

/// Not expired at `now`: no expiry, or `now` before it.
pub open spec fn unexpired(expires_at: Option<i64>, now: i64) -> bool {
    match expires_at {
        Some(e) => now < e,
        None => true,
    }
}

fn is_unexpired(expires_at: Option<i64>, now: i64) -> (r: bool)
    ensures
        r == unexpired(expires_at, now),
{
    match expires_at {
        Some(e) => now < e,
        None => true,
    }
}

/// A copy of a list of strings.
pub fn copy_strings(v: &Vec<String>) -> (r: Vec<String>)
    ensures
        r@ == v@,
{
    let mut r: Vec<String> = Vec::new();
    let mut i: usize = 0;
    while i < v.len()
        invariant
            i <= v@.len(),
            r@ == v@.subrange(0, i as int),
        decreases v.len() - i,
    {
        r.push(v[i].clone());
        i = i + 1;
        assert(r@ =~= v@.subrange(0, i as int));
    }
    assert(v@.subrange(0, v@.len() as int) =~= v@);
    r
}

/// A copy of a list of JSON entries.
pub fn copy_entries(v: &Vec<(String, serde_json::Value)>) -> (r: Vec<(String, serde_json::Value)>)
    ensures
        r@ == v@,
{
    let mut r: Vec<(String, serde_json::Value)> = Vec::new();
    let mut i: usize = 0;
    while i < v.len()
        invariant
            i <= v@.len(),
            r@ == v@.subrange(0, i as int),
        decreases v.len() - i,
    {
        r.push((v[i].0.clone(), v[i].1.clone()));
        i = i + 1;
        assert(r@ =~= v@.subrange(0, i as int));
    }
    assert(v@.subrange(0, v@.len() as int) =~= v@);
    r
}

/// One agent handing trust on to another within a scope, up to a depth.
#[derive(Debug, Clone)]
pub struct TrustDelegation {
    pub delegator_id: String,
    pub delegate_id: String,
    pub relationship_type: RelationshipType,
    pub scope: Vec<String>,
    /// Longest delegation chain allowed.
    pub max_depth: u32,
    /// Expiry (nanoseconds since the Unix epoch), if any.
    pub expires_at: Option<i64>,
    pub constraints: Vec<(String, serde_json::Value)>,
}

impl TrustDelegation {
    /// A delegation of depth 1 without expiry or constraints.
    pub fn new(delegator_id: &str, delegate_id: &str, relationship_type: RelationshipType, scope: Vec<String>) -> (r:
        TrustDelegation)
        ensures
            r.delegator_id@ == delegator_id@,
            r.delegate_id@ == delegate_id@,
            r.relationship_type == relationship_type,
            r.scope == scope,
            r.max_depth == 1,
            r.expires_at is None,
            r.constraints@.len() == 0,
    {
        TrustDelegation {
            delegator_id: delegator_id.to_owned(),
            delegate_id: delegate_id.to_owned(),
            relationship_type,
            scope,
            max_depth: 1,
            expires_at: None,
            constraints: Vec::new(),
        }
    }

    pub fn with_max_depth(self, max_depth: u32) -> (r: TrustDelegation)
        ensures
            r == (TrustDelegation { max_depth, ..self }),
    {
        TrustDelegation { max_depth, ..self }
    }

    pub fn with_expiration(self, expires_at: i64) -> (r: TrustDelegation)
        ensures
            r == (TrustDelegation { expires_at: Some(expires_at), ..self }),
    {
        TrustDelegation { expires_at: Some(expires_at), ..self }
    }

    pub fn with_constraint(self, key: String, value: serde_json::Value) -> (r: TrustDelegation)
        ensures
            r.delegator_id == self.delegator_id && r.delegate_id == self.delegate_id,
            r.relationship_type == self.relationship_type && r.scope == self.scope,
            r.max_depth == self.max_depth && r.expires_at == self.expires_at,
            r.constraints@ == self.constraints@.push((key, value)),
    {
        let mut r = self;
        r.constraints.push((key, value));
        r
    }

    pub fn is_valid_at(&self, now: i64) -> (r: bool)
        ensures
            r == unexpired(self.expires_at, now),
    {
        is_unexpired(self.expires_at, now)
    }

    pub fn is_valid(&self) -> bool {
        self.is_valid_at(clock::now())
    }
}

/// A trust relationship from a source agent to a target agent.
#[derive(Debug)]
pub struct TrustRelationship {
    pub source_id: String,
    pub target_id: String,
    pub relationship_type: RelationshipType,
    /// When it was established (nanoseconds since the Unix epoch).
    pub established_at: i64,
    /// Expiry (nanoseconds since the Unix epoch), if any.
    pub expires_at: Option<i64>,
    pub trust_score: Option<TrustScore>,
    pub scope: Vec<String>,
    /// The agents the trust was delegated through.
    pub delegation_chain: Vec<String>,
    pub metadata: Vec<(String, serde_json::Value)>,
}

impl TrustRelationship {
    /// A relationship established now, without expiry, score or delegation chain.
    pub fn new(source_id: &str, target_id: &str, relationship_type: RelationshipType, scope: Vec<String>) -> (r:
        TrustRelationship)
        ensures
            r.source_id@ == source_id@,
            r.target_id@ == target_id@,
            r.relationship_type == relationship_type,
            r.scope == scope,
            r.expires_at is None,
            r.trust_score is None,
            r.delegation_chain@.len() == 0,
            r.metadata@.len() == 0,
    {
        TrustRelationship {
            source_id: source_id.to_owned(),
            target_id: target_id.to_owned(),
            relationship_type,
            established_at: clock::now(),
            expires_at: None,
            trust_score: None,
            scope,
            delegation_chain: Vec::new(),
            metadata: Vec::new(),
        }
    }

    /// The relationship a delegation gives at `now`. Fails with `DelegationError`
    /// when the delegation has expired or the chain is longer than its `max_depth`.
    pub fn from_delegation_at(delegation: &TrustDelegation, delegation_chain: Vec<String>, now: i64) -> (r: Result<
        TrustRelationship,
        TrustError,
    >)
        ensures
            r is Ok <==> (unexpired(delegation.expires_at, now) && delegation_chain@.len()
                <= delegation.max_depth),
            r matches Err(e) ==> e is DelegationError,
            r matches Ok(t) ==> {
                &&& t.source_id == delegation.delegator_id
                &&& t.target_id == delegation.delegate_id
                &&& t.relationship_type == delegation.relationship_type
                &&& t.established_at == now
                &&& t.expires_at == delegation.expires_at
                &&& t.trust_score is None
                &&& t.scope@ == delegation.scope@
                &&& t.delegation_chain == delegation_chain
                &&& t.metadata@ == delegation.constraints@
            },
    {
        if !delegation.is_valid_at(now) {
            return Err(TrustError::DelegationError("delegation is no longer valid".to_owned()));
        }
        if delegation_chain.len() > delegation.max_depth as usize {
            return Err(TrustError::DelegationError("delegation chain exceeds maximum depth".to_owned()));
        }
        Ok(
            TrustRelationship {
                source_id: delegation.delegator_id.clone(),
                target_id: delegation.delegate_id.clone(),
                relationship_type: delegation.relationship_type,
                established_at: now,
                expires_at: delegation.expires_at,
                trust_score: None,
                scope: copy_strings(&delegation.scope),
                delegation_chain,
                metadata: copy_entries(&delegation.constraints),
            },
        )
    }

    /// `from_delegation_at` with the current time.
    pub fn from_delegation(delegation: &TrustDelegation, delegation_chain: Vec<String>) -> (r: Result<
        TrustRelationship,
        TrustError,
    >)
        ensures
            delegation_chain@.len() > delegation.max_depth ==> r is Err,
            r matches Err(e) ==> e is DelegationError,
    {
        Self::from_delegation_at(delegation, delegation_chain, clock::now())
    }

    pub fn is_valid_at(&self, now: i64) -> (r: bool)
        ensures
            r == unexpired(self.expires_at, now),
    {
        is_unexpired(self.expires_at, now)
    }

    pub fn is_valid(&self) -> bool {
        self.is_valid_at(clock::now())
    }

    pub fn update_trust_score(&mut self, score: TrustScore)
        ensures
            final(self).trust_score == Some(score),
            final(self).source_id == old(self).source_id,
            final(self).target_id == old(self).target_id,
    {
        self.trust_score = Some(score);
    }

    pub fn with_expiration(self, expires_at: i64) -> (r: TrustRelationship)
        ensures
            r == (TrustRelationship { expires_at: Some(expires_at), ..self }),
    {
        TrustRelationship { expires_at: Some(expires_at), ..self }
    }

    pub fn with_metadata(self, key: String, value: serde_json::Value) -> (r: TrustRelationship)
        ensures
            r.source_id == self.source_id && r.target_id == self.target_id,
            r.relationship_type == self.relationship_type && r.expires_at == self.expires_at,
            r.trust_score == self.trust_score,
            r.metadata@ == self.metadata@.push((key, value)),
    {
        let mut r = self;
        r.metadata.push((key, value));
        r
    }

    /// The scope list names `scope`.
    pub fn has_scope(&self, scope: &str) -> (r: bool)
        ensures
            r == exists|i: int| 0 <= i < self.scope@.len() && (#[trigger] self.scope@[i])@ == scope@,
    {
        let wanted = scope.to_owned();
        let mut i: usize = 0;
        while i < self.scope.len()
            invariant
                i <= self.scope@.len(),
                wanted@ == scope@,
                forall|j: int| 0 <= j < i ==> (#[trigger] self.scope@[j])@ != scope@,
            decreases self.scope.len() - i,
        {
            if self.scope[i] == wanted {
                return true;
            }
            i = i + 1;
        }
        false
    }

    /// The level of the relationship's trust score, if it has one.
    pub fn trust_level(&self) -> (r: Option<TrustLevel>)
        ensures
            r == match self.trust_score {
                Some(s) => Some(s.level),
                None => None::<TrustLevel>,
            },
    {
        match &self.trust_score {
            Some(s) => Some(s.level),
            None => None,
        }
    }

    /// Scored at or above `minimum_level`; false without a score.
    pub fn meets_trust_requirements(&self, minimum_level: TrustLevel) -> (r: bool)
        ensures
            r == match self.trust_score {
                Some(s) => s.level.spec_at_least(minimum_level),
                None => false,
            },
    {
        match self.trust_level() {
            Some(level) => level.at_least(minimum_level),
            None => false,
        }
    }
}

/// No two relationships share a target.
pub open spec fn targets_unique(s: Seq<TrustRelationship>) -> bool {
    forall|i: int, j: int| 0 <= i < s.len() && 0 <= j < s.len() && i != j ==> (#[trigger] s[i]).target_id@ != (#[trigger] s[j]).target_id@
}

pub open spec fn has_target(s: Seq<TrustRelationship>, name: Seq<char>) -> bool {
    exists|i: int| 0 <= i < s.len() && (#[trigger] s[i]).target_id@ == name
}

/// The relationship with target `target`, if any.
pub open spec fn rel_lookup(s: Seq<TrustRelationship>, name: Seq<char>) -> Option<TrustRelationship> {
    if has_target(s, name) {
        Some(s[choose|i: int| 0 <= i < s.len() && (#[trigger] s[i]).target_id@ == name])
    } else {
        None
    }
}

proof fn lemma_rel_lookup_at(s: Seq<TrustRelationship>, i: int)
    requires
        targets_unique(s),
        0 <= i < s.len(),
    ensures
        rel_lookup(s, s[i].target_id@) == Some(s[i]),
{
    assert(has_target(s, s[i].target_id@));
    let j = choose|j: int| 0 <= j < s.len() && (#[trigger] s[j]).target_id@ == s[i].target_id@;
    assert(j == i);
}

/// Replacing the relationship at `k` by one with the same target changes only that target.
proof fn lemma_update_target(before: Seq<TrustRelationship>, k: int, x: TrustRelationship)
    requires
        targets_unique(before),
        0 <= k < before.len(),
        before[k].target_id@ == x.target_id@,
    ensures
        targets_unique(before.update(k, x)),
        rel_lookup(before.update(k, x), x.target_id@) == Some(x),
        forall|n: Seq<char>|
            n != x.target_id@ ==> #[trigger] rel_lookup(before.update(k, x), n) == rel_lookup(before, n),
{
    let after = before.update(k, x);
    assert(targets_unique(after));
    lemma_rel_lookup_at(after, k);
    assert forall|n: Seq<char>| n != x.target_id@ implies #[trigger] rel_lookup(after, n) == rel_lookup(before, n) by {
        if has_target(before, n) {
            let j = choose|j: int| 0 <= j < before.len() && (#[trigger] before[j]).target_id@ == n;
            lemma_rel_lookup_at(before, j);
            lemma_rel_lookup_at(after, j);
        } else {
            assert forall|j: int| 0 <= j < after.len() implies (#[trigger] after[j]).target_id@ != n by {
                if j != k {
                    assert(after[j] == before[j]);
                }
            }
        }
    }
}

/// Appending a relationship with a new target adds only that target.
proof fn lemma_push_target(before: Seq<TrustRelationship>, x: TrustRelationship)
    requires
        targets_unique(before),
        !has_target(before, x.target_id@),
    ensures
        targets_unique(before.push(x)),
        rel_lookup(before.push(x), x.target_id@) == Some(x),
        forall|n: Seq<char>| n != x.target_id@ ==> #[trigger] rel_lookup(before.push(x), n) == rel_lookup(before, n),
{
    let after = before.push(x);
    assert forall|i: int, j: int|
        0 <= i < after.len() && 0 <= j < after.len() && i != j implies (#[trigger] after[i]).target_id@
        != (#[trigger] after[j]).target_id@ by {
        if i == before.len() as int {
            assert(before[j] == after[j]);
        } else if j == before.len() as int {
            assert(before[i] == after[i]);
        }
    }
    lemma_rel_lookup_at(after, before.len() as int);
    assert forall|n: Seq<char>| n != x.target_id@ implies #[trigger] rel_lookup(after, n) == rel_lookup(before, n) by {
        if has_target(before, n) {
            let j = choose|j: int| 0 <= j < before.len() && (#[trigger] before[j]).target_id@ == n;
            lemma_rel_lookup_at(before, j);
            assert(after[j] == before[j]);
            lemma_rel_lookup_at(after, j);
        } else {
            assert forall|j: int| 0 <= j < after.len() implies (#[trigger] after[j]).target_id@ != n by {
                if j < before.len() {
                    assert(after[j] == before[j]);
                }
            }
        }
    }
}

/// Index of the relationship with target `target`.
fn find_target(relationships: &Vec<TrustRelationship>, target: &String) -> (r: Option<usize>)
    ensures
        r matches Some(i) ==> i < relationships@.len() && relationships@[i as int].target_id@ == target@,
        r is None ==> !has_target(relationships@, target@),
{
    let mut i: usize = 0;
    while i < relationships.len()
        invariant
            i <= relationships@.len(),
            forall|j: int| 0 <= j < i ==> (#[trigger] relationships@[j]).target_id@ != target@,
        decreases relationships.len() - i,
    {
        if relationships[i].target_id == *target {
            return Some(i);
        }
        i = i + 1;
    }
    None
}


/// The relationships of one agent, one per target.
#[derive(Debug)]
pub struct TrustRelationshipSet {
    agent_id: String,
    relationships: Vec<TrustRelationship>,
    /// Last update (nanoseconds since the Unix epoch).
    updated_at: i64,
}

impl TrustRelationshipSet {
    #[verifier::type_invariant]
    spec fn well_formed(self) -> bool {
        targets_unique(self.relationships@)
    }

    pub closed spec fn spec_relationships(self) -> Seq<TrustRelationship> {
        self.relationships@
    }

    pub closed spec fn spec_agent_id(self) -> Seq<char> {
        self.agent_id@
    }

    /// An empty set for `agent_id`.
    pub fn new(agent_id: &str) -> (r: TrustRelationshipSet)
        ensures
            r.spec_agent_id() == agent_id@,
            r.spec_relationships().len() == 0,
    {
        TrustRelationshipSet { agent_id: agent_id.to_owned(), relationships: Vec::new(), updated_at: clock::now() }
    }

    pub fn agent_id(&self) -> (r: &str)
        ensures
            r@ == self.spec_agent_id(),
    {
        self.agent_id.as_str()
    }

    /// Time of the last change (nanoseconds since the Unix epoch).
    pub fn updated_at(&self) -> i64 {
        self.updated_at
    }

    /// Puts `relationship` in, replacing the one with the same target.
    pub fn add_relationship(&mut self, relationship: TrustRelationship)
        ensures
            rel_lookup(final(self).spec_relationships(), relationship.target_id@) == Some(relationship),
            forall|n: Seq<char>|
                n != relationship.target_id@ ==> #[trigger] rel_lookup(final(self).spec_relationships(), n)
                    == rel_lookup(old(self).spec_relationships(), n),
            final(self).spec_agent_id() == old(self).spec_agent_id(),
    {
        proof {
            use_type_invariant(&*self);
        }
        let ghost before = self.relationships@;
        let pos = find_target(&self.relationships, &relationship.target_id);
        let mut relationships: Vec<TrustRelationship> = Vec::new();
        std::mem::swap(&mut relationships, &mut self.relationships);
        match pos {
            Some(i) => {
                relationships.set(i, relationship);
            },
            None => {
                relationships.push(relationship);
            },
        }
        assert(pos is Some ==> relationships@ == before.update(pos->0 as int, relationship));
        assert(pos is None ==> relationships@ == before.push(relationship));
        proof {
            match pos {
                Some(i) => lemma_update_target(before, i as int, relationships@[i as int]),
                None => lemma_push_target(before, relationships@.last()),
            }
        }
        self.relationships = relationships;
        self.updated_at = clock::now();
    }

    /// The relationship with target `target_id`, if any.
    pub fn get_relationship(&self, target_id: &str) -> (r: Option<&TrustRelationship>)
        ensures
            r == match rel_lookup(self.spec_relationships(), target_id@) {
                Some(a) => Some(&a),
                None => None::<&TrustRelationship>,
            },
    {
        proof {
            use_type_invariant(self);
        }
        match find_target(&self.relationships, &target_id.to_owned()) {
            Some(i) => {
                proof {
                    lemma_rel_lookup_at(self.relationships@, i as int);
                }
                Some(&self.relationships[i])
            },
            None => None,
        }
    }

    /// Takes out the relationship with target `target_id`, if any.
    pub fn remove_relationship(&mut self, target_id: &str) -> (r: Option<TrustRelationship>)
        ensures
            r == rel_lookup(old(self).spec_relationships(), target_id@),
            rel_lookup(final(self).spec_relationships(), target_id@) is None,
            forall|n: Seq<char>|
                n != target_id@ ==> #[trigger] rel_lookup(final(self).spec_relationships(), n) == rel_lookup(
                    old(self).spec_relationships(),
                    n,
                ),
            final(self).spec_agent_id() == old(self).spec_agent_id(),
    {
        proof {
            use_type_invariant(&*self);
        }
        let ghost before = self.relationships@;
        match find_target(&self.relationships, &target_id.to_owned()) {
            Some(i) => {
                let mut relationships: Vec<TrustRelationship> = Vec::new();
                std::mem::swap(&mut relationships, &mut self.relationships);
                let removed = relationships.remove(i);
                let ghost after = relationships@;
                proof {
                    lemma_rel_lookup_at(before, i as int);
                    assert(forall|j: int| 0 <= j < after.len() ==> #[trigger] after[j] == before[if j < i { j } else { j + 1 }]);
                    assert(targets_unique(after));
                    assert forall|j: int| 0 <= j < after.len() implies (#[trigger] after[j]).target_id@ != target_id@ by {
                        assert(after[j] == before[if j < i { j } else { j + 1 }]);
                    }
                    assert forall|n: Seq<char>| n != target_id@ implies #[trigger] rel_lookup(after, n) == rel_lookup(before, n) by {
                        if has_target(before, n) {
                            let j = choose|j: int| 0 <= j < before.len() && (#[trigger] before[j]).target_id@ == n;
                            lemma_rel_lookup_at(before, j);
                            assert(j != i);
                            let k = if j < i { j } else { j - 1 };
                            assert(after[k] == before[j]);
                            lemma_rel_lookup_at(after, k);
                        } else {
                            assert forall|j: int| 0 <= j < after.len() implies (#[trigger] after[j]).target_id@ != n by {
                                assert(after[j] == before[if j < i { j } else { j + 1 }]);
                            }
                        }
                    }
                }
                self.relationships = relationships;
                self.updated_at = clock::now();
                Some(removed)
            },
            None => None,
        }
    }

    /// The relationships not expired at `now`, in insertion order.
    pub fn valid_relationships_at(&self, now: i64) -> (r: Vec<&TrustRelationship>)
        ensures
            forall|i: int| 0 <= i < r@.len() ==> self.spec_relationships().contains(*#[trigger] r@[i]) && unexpired(r@[i].expires_at, now),
            forall|a: TrustRelationship| #[trigger] self.spec_relationships().contains(a) && unexpired(a.expires_at, now) ==> r@.contains(&a),
    {
        let mut r: Vec<&TrustRelationship> = Vec::new();
        let mut i: usize = 0;
        while i < self.relationships.len()
            invariant
                i <= self.relationships@.len(),
                forall|j: int| 0 <= j < r@.len() ==> self.relationships@.contains(*#[trigger] r@[j]) && unexpired(r@[j].expires_at, now),
                forall|j: int| 0 <= j < i && unexpired((#[trigger] self.relationships@[j]).expires_at, now) ==> r@.contains(&self.relationships@[j]),
            decreases self.relationships.len() - i,
        {
            if self.relationships[i].is_valid_at(now) {
                let ghost r_old = r@;
                r.push(&self.relationships[i]);
                proof {
                    assert forall|y: &TrustRelationship| r_old.contains(y) implies r@.contains(y) by {
                        let k = choose|k: int| 0 <= k < r_old.len() && r_old[k] == y;
                        assert(r@[k] == y);
                    }
                    assert(r@[r@.len() - 1] == &self.relationships@[i as int]);
                }
            }
            i = i + 1;
        }
        r
    }

    /// The relationships not expired now.
    pub fn valid_relationships(&self) -> Vec<&TrustRelationship> {
        self.valid_relationships_at(clock::now())
    }

    /// The relationships of one type, in insertion order.
    pub fn relationships_by_type(&self, relationship_type: RelationshipType) -> (r: Vec<&TrustRelationship>)
        ensures
            forall|i: int| 0 <= i < r@.len() ==> self.spec_relationships().contains(*#[trigger] r@[i]) && r@[i].relationship_type == relationship_type,
            forall|a: TrustRelationship| #[trigger] self.spec_relationships().contains(a) && a.relationship_type == relationship_type ==> r@.contains(&a),
    {
        let mut r: Vec<&TrustRelationship> = Vec::new();
        let mut i: usize = 0;
        while i < self.relationships.len()
            invariant
                i <= self.relationships@.len(),
                forall|j: int| 0 <= j < r@.len() ==> self.relationships@.contains(*#[trigger] r@[j]) && r@[j].relationship_type == relationship_type,
                forall|j: int| 0 <= j < i && (#[trigger] self.relationships@[j]).relationship_type == relationship_type ==> r@.contains(&self.relationships@[j]),
            decreases self.relationships.len() - i,
        {
            if self.relationships[i].relationship_type == relationship_type {
                let ghost r_old = r@;
                r.push(&self.relationships[i]);
                proof {
                    assert forall|y: &TrustRelationship| r_old.contains(y) implies r@.contains(y) by {
                        let k = choose|k: int| 0 <= k < r_old.len() && r_old[k] == y;
                        assert(r@[k] == y);
                    }
                    assert(r@[r@.len() - 1] == &self.relationships@[i as int]);
                }
            }
            i = i + 1;
        }
        r
    }

    /// The relationships scored at or above `minimum_level`, in insertion order.
    pub fn trusted_relationships(&self, minimum_level: TrustLevel) -> (r: Vec<&TrustRelationship>)
        ensures
            forall|i: int| 0 <= i < r@.len() ==> self.spec_relationships().contains(*#[trigger] r@[i]) && (r@[i].trust_score matches Some(s) && s.level.spec_at_least(minimum_level)),
            forall|a: TrustRelationship| #[trigger] self.spec_relationships().contains(a) && (a.trust_score matches Some(s) && s.level.spec_at_least(minimum_level)) ==> r@.contains(&a),
    {
        let mut r: Vec<&TrustRelationship> = Vec::new();
        let mut i: usize = 0;
        while i < self.relationships.len()
            invariant
                i <= self.relationships@.len(),
                forall|j: int| 0 <= j < r@.len() ==> self.relationships@.contains(*#[trigger] r@[j]) && (r@[j].trust_score matches Some(s) && s.level.spec_at_least(minimum_level)),
                forall|j: int| 0 <= j < i && ((#[trigger] self.relationships@[j]).trust_score matches Some(s) && s.level.spec_at_least(minimum_level)) ==> r@.contains(&self.relationships@[j]),
            decreases self.relationships.len() - i,
        {
            if self.relationships[i].meets_trust_requirements(minimum_level) {
                let ghost r_old = r@;
                r.push(&self.relationships[i]);
                proof {
                    assert forall|y: &TrustRelationship| r_old.contains(y) implies r@.contains(y) by {
                        let k = choose|k: int| 0 <= k < r_old.len() && r_old[k] == y;
                        assert(r@[k] == y);
                    }
                    assert(r@[r@.len() - 1] == &self.relationships@[i as int]);
                }
            }
            i = i + 1;
        }
        r
    }
}

} // verus!
