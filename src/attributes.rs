//! Trust attributes: named, sourced facts about an agent with a confidence and an
//! optional expiry, kept in a set with one attribute per name.
use vstd::prelude::*;

use crate::clock;
use crate::score::{TrustError, SCORE_SCALE};

verus! {

/// Where an attribute comes from.
#[derive(Debug, Clone, Copy, PartialEq, Eq, Structural, Hash)]
pub enum AttributeSource {
    SelfReported,
    Verified,
    Derived,
    Delegated,
    System,
}

/// One attribute.
#[derive(Debug, Clone)]
pub struct TrustAttribute {
    pub name: String,
    pub value: serde_json::Value,
    pub source: AttributeSource,
    /// Creation time (nanoseconds since the Unix epoch).
    pub created_at: i64,
    /// Expiry time (nanoseconds since the Unix epoch), if any.
    pub expires_at: Option<i64>,
    /// Confidence, in thousandths (at most `SCORE_SCALE`).
    pub confidence: u32,
    pub metadata: Vec<(String, serde_json::Value)>,
}

impl TrustAttribute {
    /// An attribute created now; fails with `InvalidAttributes` exactly when the
    /// confidence exceeds `SCORE_SCALE`.
    pub fn new(name: &str, value: serde_json::Value, source: AttributeSource, confidence: u32) -> (r: Result<
        TrustAttribute,
        TrustError,
    >)
        ensures
            r is Ok <==> confidence <= SCORE_SCALE,
            r matches Err(e) ==> e is InvalidAttributes,
            r matches Ok(a) ==> (a.name@ == name@ && a.value == value && a.source == source
                && a.confidence == confidence && a.expires_at is None && a.metadata@.len() == 0),
    {
        if confidence > SCORE_SCALE {
            return Err(TrustError::InvalidAttributes("confidence must lie between 0 and 1".to_owned()));
        }
        Ok(
            TrustAttribute {
                name: name.to_owned(),
                value,
                source,
                created_at: clock::now(),
                expires_at: None,
                confidence,
                metadata: Vec::new(),
            },
        )
    }

    /// Not expired at `now`.
    pub open spec fn spec_valid_at(self, now: i64) -> bool {
        match self.expires_at {
            Some(e) => now < e,
            None => true,
        }
    }

    pub fn is_valid_at(&self, now: i64) -> (r: bool)
        ensures
            r == self.spec_valid_at(now),
    {
        match self.expires_at {
            Some(e) => now < e,
            None => true,
        }
    }

    /// Not expired now.
    pub fn is_valid(&self) -> bool {
        self.is_valid_at(clock::now())
    }

    pub fn with_expiration(self, expires_at: i64) -> (r: TrustAttribute)
        ensures
            r == (TrustAttribute { expires_at: Some(expires_at), ..self }),
    {
        TrustAttribute { expires_at: Some(expires_at), ..self }
    }

    pub fn with_metadata(self, key: String, value: serde_json::Value) -> (r: TrustAttribute)
        ensures
            r.name == self.name && r.value == self.value && r.source == self.source,
            r.created_at == self.created_at && r.expires_at == self.expires_at,
            r.confidence == self.confidence,
            r.metadata@ == self.metadata@.push((key, value)),
    {
        let mut r = self;
        r.metadata.push((key, value));
        r
    }

    /// `self` replaces `existing` in a merge: it is newer or more confident.
    pub open spec fn supersedes(self, existing: TrustAttribute) -> bool {
        self.created_at > existing.created_at || self.confidence > existing.confidence
    }
}

/// No two attributes share a name.
pub open spec fn names_unique(s: Seq<TrustAttribute>) -> bool {
    forall|i: int, j: int| 0 <= i < s.len() && 0 <= j < s.len() && i != j ==> (#[trigger] s[i]).name@ != (#[trigger] s[j]).name@
}

pub open spec fn has_name(s: Seq<TrustAttribute>, name: Seq<char>) -> bool {
    exists|i: int| 0 <= i < s.len() && (#[trigger] s[i]).name@ == name
}

/// The attribute called `name`, if any.
pub open spec fn lookup(s: Seq<TrustAttribute>, name: Seq<char>) -> Option<TrustAttribute> {
    if has_name(s, name) {
        Some(s[choose|i: int| 0 <= i < s.len() && (#[trigger] s[i]).name@ == name])
    } else {
        None
    }
}

/// The outcome of merging `incoming` over `existing` for one name.
pub open spec fn merged(existing: Option<TrustAttribute>, incoming: Option<TrustAttribute>) -> Option<TrustAttribute> {
    match (existing, incoming) {
        (Some(a), Some(b)) => if b.supersedes(a) {
            Some(b)
        } else {
            Some(a)
        },
        (Some(a), None) => Some(a),
        (None, b) => b,
    }
}

proof fn lemma_lookup_at(s: Seq<TrustAttribute>, i: int)
    requires
        names_unique(s),
        0 <= i < s.len(),
    ensures
        lookup(s, s[i].name@) == Some(s[i]),
{
    assert(has_name(s, s[i].name@));
    let j = choose|j: int| 0 <= j < s.len() && (#[trigger] s[j]).name@ == s[i].name@;
    assert(j == i);
}

/// Replacing the attribute at `k` by one of the same name changes only that name.
proof fn lemma_update_named(before: Seq<TrustAttribute>, k: int, x: TrustAttribute)
    requires
        names_unique(before),
        0 <= k < before.len(),
        before[k].name@ == x.name@,
    ensures
        names_unique(before.update(k, x)),
        lookup(before.update(k, x), x.name@) == Some(x),
        forall|n: Seq<char>|
            n != x.name@ ==> #[trigger] lookup(before.update(k, x), n) == lookup(before, n),
{
    let after = before.update(k, x);
    assert(names_unique(after));
    lemma_lookup_at(after, k);
    assert forall|n: Seq<char>| n != x.name@ implies #[trigger] lookup(after, n) == lookup(before, n) by {
        if has_name(before, n) {
            let j = choose|j: int| 0 <= j < before.len() && (#[trigger] before[j]).name@ == n;
            lemma_lookup_at(before, j);
            lemma_lookup_at(after, j);
        } else {
            assert forall|j: int| 0 <= j < after.len() implies (#[trigger] after[j]).name@ != n by {
                if j != k {
                    assert(after[j] == before[j]);
                }
            }
        }
    }
}

/// Appending an attribute with a new name adds only that name.
proof fn lemma_push_named(before: Seq<TrustAttribute>, x: TrustAttribute)
    requires
        names_unique(before),
        !has_name(before, x.name@),
    ensures
        names_unique(before.push(x)),
        lookup(before.push(x), x.name@) == Some(x),
        forall|n: Seq<char>| n != x.name@ ==> #[trigger] lookup(before.push(x), n) == lookup(before, n),
{
    let after = before.push(x);
    assert forall|i: int, j: int|
        0 <= i < after.len() && 0 <= j < after.len() && i != j implies (#[trigger] after[i]).name@
        != (#[trigger] after[j]).name@ by {
        if i == before.len() as int {
            assert(before[j] == after[j]);
        } else if j == before.len() as int {
            assert(before[i] == after[i]);
        }
    }
    lemma_lookup_at(after, before.len() as int);
    assert forall|n: Seq<char>| n != x.name@ implies #[trigger] lookup(after, n) == lookup(before, n) by {
        if has_name(before, n) {
            let j = choose|j: int| 0 <= j < before.len() && (#[trigger] before[j]).name@ == n;
            lemma_lookup_at(before, j);
            assert(after[j] == before[j]);
            lemma_lookup_at(after, j);
        } else {
            assert forall|j: int| 0 <= j < after.len() implies (#[trigger] after[j]).name@ != n by {
                if j < before.len() {
                    assert(after[j] == before[j]);
                }
            }
        }
    }
}

/// Index of the attribute called `name`.
fn find_index(attributes: &Vec<TrustAttribute>, name: &String) -> (r: Option<usize>)
    ensures
        r matches Some(i) ==> i < attributes@.len() && attributes@[i as int].name@ == name@,
        r is None ==> !has_name(attributes@, name@),
{
    let mut i: usize = 0;
    while i < attributes.len()
        invariant
            i <= attributes@.len(),
            forall|j: int| 0 <= j < i ==> (#[trigger] attributes@[j]).name@ != name@,
        decreases attributes.len() - i,
    {
        if attributes[i].name == *name {
            return Some(i);
        }
        i = i + 1;
    }
    None
}

/// The attributes of one agent, one per name.
#[derive(Debug)]
pub struct TrustAttributeSet {
    agent_id: String,
    attributes: Vec<TrustAttribute>,
    /// Last update (nanoseconds since the Unix epoch).
    updated_at: i64,
}

impl TrustAttributeSet {
    #[verifier::type_invariant]
    spec fn well_formed(self) -> bool {
        names_unique(self.attributes@)
    }

    pub closed spec fn spec_attributes(self) -> Seq<TrustAttribute> {
        self.attributes@
    }

    pub closed spec fn spec_agent_id(self) -> Seq<char> {
        self.agent_id@
    }

    pub fn agent_id(&self) -> (r: &str)
        ensures
            r@ == self.spec_agent_id(),
    {
        self.agent_id.as_str()
    }

    /// Time of the last change (nanoseconds since the Unix epoch).
    pub fn updated_at(&self) -> i64 {
        self.updated_at
    }

    /// An empty set for `agent_id`.
    pub fn new(agent_id: &str) -> (r: TrustAttributeSet)
        ensures
            r.spec_agent_id() == agent_id@,
            r.spec_attributes().len() == 0,
    {
        TrustAttributeSet { agent_id: agent_id.to_owned(), attributes: Vec::new(), updated_at: clock::now() }
    }

    /// All attributes, in insertion order.
    pub fn attributes(&self) -> (r: &Vec<TrustAttribute>)
        ensures
            r@ == self.spec_attributes(),
            names_unique(r@),
    {
        proof {
            use_type_invariant(self);
        }
        &self.attributes
    }

    /// Puts `attribute` in, replacing the one with the same name.
    pub fn add_attribute(&mut self, attribute: TrustAttribute)
        ensures
            lookup(final(self).spec_attributes(), attribute.name@) == Some(attribute),
            forall|n: Seq<char>|
                n != attribute.name@ ==> #[trigger] lookup(final(self).spec_attributes(), n) == lookup(
                    old(self).spec_attributes(),
                    n,
                ),
            final(self).spec_agent_id() == old(self).spec_agent_id(),
    {
        proof {
            use_type_invariant(&*self);
        }
        let ghost before = self.attributes@;
        let ghost name = attribute.name@;
        let pos = find_index(&self.attributes, &attribute.name);
        let mut attributes: Vec<TrustAttribute> = Vec::new();
        std::mem::swap(&mut attributes, &mut self.attributes);
        match pos {
            Some(i) => {
                attributes.set(i, attribute);
            },
            None => {
                attributes.push(attribute);
            },
        }
        assert(pos is Some ==> attributes@ == before.update(pos->0 as int, attribute));
        assert(pos is None ==> attributes@ == before.push(attribute));
        proof {
            match pos {
                Some(i) => lemma_update_named(before, i as int, attributes@[i as int]),
                None => lemma_push_named(before, attributes@.last()),
            }
        }
        self.attributes = attributes;
        self.updated_at = clock::now();
    }

    /// The attribute called `name`, if any.
    pub fn get_attribute(&self, name: &str) -> (r: Option<&TrustAttribute>)
        ensures
            r == match lookup(self.spec_attributes(), name@) {
                Some(a) => Some(&a),
                None => None::<&TrustAttribute>,
            },
    {
        proof {
            use_type_invariant(self);
        }
        match find_index(&self.attributes, &name.to_owned()) {
            Some(i) => {
                proof {
                    lemma_lookup_at(self.attributes@, i as int);
                }
                Some(&self.attributes[i])
            },
            None => None,
        }
    }

    /// Takes out the attribute called `name`, if any.
    pub fn remove_attribute(&mut self, name: &str) -> (r: Option<TrustAttribute>)
        ensures
            r == lookup(old(self).spec_attributes(), name@),
            lookup(final(self).spec_attributes(), name@) is None,
            forall|n: Seq<char>|
                n != name@ ==> #[trigger] lookup(final(self).spec_attributes(), n) == lookup(
                    old(self).spec_attributes(),
                    n,
                ),
            final(self).spec_agent_id() == old(self).spec_agent_id(),
    {
        proof {
            use_type_invariant(&*self);
        }
        let ghost before = self.attributes@;
        match find_index(&self.attributes, &name.to_owned()) {
            Some(i) => {
                let mut attributes: Vec<TrustAttribute> = Vec::new();
        std::mem::swap(&mut attributes, &mut self.attributes);
                let removed = attributes.remove(i);
                let ghost after = attributes@;
                proof {
                    lemma_lookup_at(before, i as int);
                    assert(forall|j: int| 0 <= j < after.len() ==> #[trigger] after[j] == before[if j < i { j } else { j + 1 }]);
                    assert(names_unique(after));
                    assert forall|j: int| 0 <= j < after.len() implies (#[trigger] after[j]).name@ != name@ by {
                        assert(after[j] == before[if j < i { j } else { j + 1 }]);
                    }
                    assert forall|n: Seq<char>| n != name@ implies #[trigger] lookup(after, n) == lookup(before, n) by {
                        if has_name(before, n) {
                            let j = choose|j: int| 0 <= j < before.len() && (#[trigger] before[j]).name@ == n;
                            lemma_lookup_at(before, j);
                            assert(j != i);
                            let k = if j < i { j } else { j - 1 };
                            assert(after[k] == before[j]);
                            lemma_lookup_at(after, k);
                        } else {
                            assert forall|j: int| 0 <= j < after.len() implies (#[trigger] after[j]).name@ != n by {
                                assert(after[j] == before[if j < i { j } else { j + 1 }]);
                            }
                        }
                    }
                }
                self.attributes = attributes;
                self.updated_at = clock::now();
                Some(removed)
            },
            None => None,
        }
    }

    /// The attributes not expired at `now`, in insertion order.
    pub fn valid_attributes_at(&self, now: i64) -> (r: Vec<&TrustAttribute>)
        ensures
            forall|i: int| 0 <= i < r@.len() ==> self.spec_attributes().contains(*#[trigger] r@[i]) && r@[i].spec_valid_at(now),
            forall|a: TrustAttribute| #[trigger] self.spec_attributes().contains(a) && a.spec_valid_at(now) ==> r@.contains(&a),
    {
        let mut r: Vec<&TrustAttribute> = Vec::new();
        let mut i: usize = 0;
        while i < self.attributes.len()
            invariant
                i <= self.attributes@.len(),
                forall|j: int| 0 <= j < r@.len() ==> self.attributes@.contains(*#[trigger] r@[j]) && r@[j].spec_valid_at(now),
                forall|j: int| 0 <= j < i && (#[trigger] self.attributes@[j]).spec_valid_at(now) ==> r@.contains(&self.attributes@[j]),
            decreases self.attributes.len() - i,
        {
            if self.attributes[i].is_valid_at(now) {
                let ghost r_old = r@;
                r.push(&self.attributes[i]);
                proof {
                    assert forall|y: &TrustAttribute| r_old.contains(y) implies r@.contains(y) by {
                        let k = choose|k: int| 0 <= k < r_old.len() && r_old[k] == y;
                        assert(r@[k] == y);
                    }
                    assert(r@[r@.len() - 1] == &self.attributes@[i as int]);
                }
            }
            i = i + 1;
        }
        r
    }

    /// The attributes not expired now.
    pub fn valid_attributes(&self) -> Vec<&TrustAttribute> {
        self.valid_attributes_at(clock::now())
    }

    /// The attributes from `source`, in insertion order.
    pub fn attributes_by_source(&self, source: AttributeSource) -> (r: Vec<&TrustAttribute>)
        ensures
            forall|i: int| 0 <= i < r@.len() ==> self.spec_attributes().contains(*#[trigger] r@[i]) && r@[i].source == source,
            forall|a: TrustAttribute| #[trigger] self.spec_attributes().contains(a) && a.source == source ==> r@.contains(&a),
    {
        let mut r: Vec<&TrustAttribute> = Vec::new();
        let mut i: usize = 0;
        while i < self.attributes.len()
            invariant
                i <= self.attributes@.len(),
                forall|j: int| 0 <= j < r@.len() ==> self.attributes@.contains(*#[trigger] r@[j]) && r@[j].source == source,
                forall|j: int| 0 <= j < i && (#[trigger] self.attributes@[j]).source == source ==> r@.contains(&self.attributes@[j]),
            decreases self.attributes.len() - i,
        {
            if self.attributes[i].source == source {
                let ghost r_old = r@;
                r.push(&self.attributes[i]);
                proof {
                    assert forall|y: &TrustAttribute| r_old.contains(y) implies r@.contains(y) by {
                        let k = choose|k: int| 0 <= k < r_old.len() && r_old[k] == y;
                        assert(r@[k] == y);
                    }
                    assert(r@[r@.len() - 1] == &self.attributes@[i as int]);
                }
            }
            i = i + 1;
        }
        r
    }

    /// Merges `other` in: an incoming attribute replaces the one of the same name when
    /// it is newer or more confident, and attributes with new names are added.
    pub fn merge(&mut self, other: TrustAttributeSet)
        ensures
            forall|n: Seq<char>|
                #[trigger] lookup(final(self).spec_attributes(), n) == merged(
                    lookup(old(self).spec_attributes(), n),
                    lookup(other.spec_attributes(), n),
                ),
            final(self).spec_agent_id() == old(self).spec_agent_id(),
    {
        proof {
            use_type_invariant(&*self);
            use_type_invariant(&other);
        }
        let ghost start = self.attributes@;
        let ghost all_in = other.attributes@;
        let mut incoming = other.attributes;
        let mut current: Vec<TrustAttribute> = Vec::new();
        std::mem::swap(&mut current, &mut self.attributes);
        while incoming.len() > 0
            invariant
                names_unique(current@),
                names_unique(all_in),
                incoming@.len() <= all_in.len(),
                incoming@ == all_in.subrange(0, incoming@.len() as int),
                forall|n: Seq<char>|
                    #[trigger] lookup(current@, n) == if has_name(
                        all_in.subrange(incoming@.len() as int, all_in.len() as int),
                        n,
                    ) {
                        merged(lookup(start, n), lookup(all_in, n))
                    } else {
                        lookup(start, n)
                    },
            decreases incoming.len(),
        {
            let ghost m = incoming@.len() as int;
            let a = incoming.pop().unwrap();
            let ghost name = a.name@;
            let ghost before = current@;
            proof {
                assert(a == all_in[m - 1]);
                lemma_lookup_at(all_in, m - 1);
                assert(!has_name(all_in.subrange(m, all_in.len() as int), name)) by {
                    if has_name(all_in.subrange(m, all_in.len() as int), name) {
                        let j = choose|j: int|
                            0 <= j < all_in.len() - m && (#[trigger] all_in.subrange(m, all_in.len() as int)[j]).name@ == name;
                        assert(all_in[m + j].name@ == all_in[m - 1].name@);
                    }
                }
                assert forall|n: Seq<char>| n != name implies has_name(
                    all_in.subrange(m - 1, all_in.len() as int),
                    n,
                ) == has_name(all_in.subrange(m, all_in.len() as int), n) by {
                    let lo = all_in.subrange(m - 1, all_in.len() as int);
                    let hi = all_in.subrange(m, all_in.len() as int);
                    if has_name(lo, n) {
                        let j = choose|j: int| 0 <= j < lo.len() && (#[trigger] lo[j]).name@ == n;
                        assert(j > 0);
                        assert(hi[j - 1] == lo[j]);
                    }
                    if has_name(hi, n) {
                        let j = choose|j: int| 0 <= j < hi.len() && (#[trigger] hi[j]).name@ == n;
                        assert(lo[j + 1] == hi[j]);
                    }
                }
                assert(has_name(all_in.subrange(m - 1, all_in.len() as int), name)) by {
                    assert(all_in.subrange(m - 1, all_in.len() as int)[0] == a);
                }
                assert(incoming@ =~= all_in.subrange(0, m - 1));
            }
            match find_index(&current, &a.name) {
                Some(i) => {
                    proof {
                        lemma_lookup_at(before, i as int);
                    }
                    if a.created_at > current[i].created_at || a.confidence > current[i].confidence {
                        current.set(i, a);
                        proof {
                            lemma_update_named(before, i as int, a);
                        }
                    }
                },
                None => {
                    current.push(a);
                    proof {
                        lemma_push_named(before, a);
                    }
                },
            }
        }
        proof {
            assert(all_in.subrange(0, all_in.len() as int) =~= all_in);
        }
        self.attributes = current;
        self.updated_at = clock::now();
    }
}

} // verus!
