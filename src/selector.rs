//! Verifier selection: ranks the candidates that meet a required trust level by
//! suitability and returns the best ones, never a short list.
use vstd::prelude::*;
use vstd::relations::sorted_by;

use crate::agent::AgentId;
use crate::rotation::RotationError;
use crate::score::TrustLevel;

verus! {

broadcast use vstd::multiset::group_multiset_axioms, vstd::seq_lib::group_to_multiset_ensures;

/// What the selector knows of a candidate verifier.
#[derive(Debug)]
pub struct VerifierCandidate {
    pub agent: AgentId,
    /// The candidate's trust level, as the trust-score engine classified it.
    pub level: TrustLevel,
    /// Earlier successful verifications of the rotating agent by this candidate.
    pub successful_verifications: u32,
    /// The candidate's trust has been stable.
    pub is_stable: bool,
    /// The candidate has been active recently.
    pub recently_active: bool,
}

impl Clone for VerifierCandidate {
    fn clone(&self) -> (r: Self)
        ensures
            r == *self,
    {
        VerifierCandidate {
            agent: self.agent.clone(),
            level: self.level,
            successful_verifications: self.successful_verifications,
            is_stable: self.is_stable,
            recently_active: self.recently_active,
        }
    }
}

/// Base suitability of a trust level, in thousandths: 1.0 from `High` up, 0.7 for
/// `Medium`, 0.4 for `Low`, nothing for `NoTrust`.
pub open spec fn base_suitability(level: TrustLevel) -> int {
    match level {
        TrustLevel::VeryHigh => 1000,
        TrustLevel::High => 1000,
        TrustLevel::Medium => 700,
        TrustLevel::Low => 400,
        TrustLevel::NoTrust => 0,
    }
}

/// Suitability in thousandths: the base of the level, 0.1 per earlier successful
/// verification, 0.2 if stable, 0.1 if recently active.
pub open spec fn spec_suitability(c: VerifierCandidate) -> int {
    base_suitability(c.level) + 100 * c.successful_verifications + (if c.is_stable {
        200int
    } else {
        0int
    }) + (if c.recently_active {
        100int
    } else {
        0int
    })
}

/// `a` comes no later than `b`: higher suitability first, ties by smaller identifier.
pub open spec fn ranks_before(a: VerifierCandidate, b: VerifierCandidate) -> bool {
    spec_suitability(a) > spec_suitability(b) || (spec_suitability(a) == spec_suitability(b)
        && a.agent.id <= b.agent.id)
}

pub open spec fn rank_order() -> spec_fn(VerifierCandidate, VerifierCandidate) -> bool {
    |a: VerifierCandidate, b: VerifierCandidate| ranks_before(a, b)
}

/// The candidate is at or above the required level.
pub open spec fn eligibility(required: TrustLevel) -> spec_fn(VerifierCandidate) -> bool {
    |c: VerifierCandidate| c.level.spec_at_least(required)
}

/// The candidates of `pool` that meet `required`, in pool order.
pub open spec fn eligible_pool(pool: Seq<VerifierCandidate>, required: TrustLevel) -> Seq<VerifierCandidate> {
    pool.filter(eligibility(required))
}

/// Suitability of one candidate.
pub fn suitability(c: &VerifierCandidate) -> (r: u64)
    ensures
        r == spec_suitability(*c),
{
    let base: u64 = match c.level {
        TrustLevel::VeryHigh => 1000,
        TrustLevel::High => 1000,
        TrustLevel::Medium => 700,
        TrustLevel::Low => 400,
        TrustLevel::NoTrust => 0,
    };
    let stable: u64 = if c.is_stable {
        200
    } else {
        0
    };
    let active: u64 = if c.recently_active {
        100
    } else {
        0
    };
    base + 100 * (c.successful_verifications as u64) + stable + active
}

fn ranks_before_exec(a: &VerifierCandidate, b: &VerifierCandidate) -> (r: bool)
    ensures
        r == ranks_before(*a, *b),
{
    let sa = suitability(a);
    let sb = suitability(b);
    sa > sb || (sa == sb && a.agent.id <= b.agent.id)
}

proof fn lemma_rank_order()
    ensures
        forall|a: VerifierCandidate, b: VerifierCandidate, c: VerifierCandidate|
            #[trigger] ranks_before(a, b) && #[trigger] ranks_before(b, c) ==> ranks_before(a, c),
        forall|a: VerifierCandidate, b: VerifierCandidate|
            #[trigger] ranks_before(a, b) || #[trigger] ranks_before(b, a),
{
}

/// Index of a best-ranked element of a non-empty `rest`.
fn best_index(rest: &Vec<VerifierCandidate>) -> (r: usize)
    requires
        rest@.len() > 0,
    ensures
        r < rest@.len(),
        forall|t: int| 0 <= t < rest@.len() ==> ranks_before(rest@[r as int], #[trigger] rest@[t]),
{
    proof {
        lemma_rank_order();
    }
    let mut best: usize = 0;
    let mut j: usize = 1;
    while j < rest.len()
        invariant
            0 < j <= rest@.len(),
            best < j,
            forall|t: int| 0 <= t < j ==> ranks_before(rest@[best as int], #[trigger] rest@[t]),
        decreases rest.len() - j,
    {
        if !ranks_before_exec(&rest[best], &rest[j]) {
            best = j;
        }
        j = j + 1;
    }
    best
}

/// The candidates of `pool` at or above `required`, in pool order.
fn filter_eligible(pool: &Vec<VerifierCandidate>, required: TrustLevel) -> (r: Vec<VerifierCandidate>)
    ensures
        r@ == eligible_pool(pool@, required),
{
    let mut r: Vec<VerifierCandidate> = Vec::new();
    let mut i: usize = 0;
    while i < pool.len()
        invariant
            i <= pool@.len(),
            r@ == pool@.subrange(0, i as int).filter(eligibility(required)),
        decreases pool.len() - i,
    {
        let ghost s = pool@.subrange(0, i + 1);
        assert(s.drop_last() =~= pool@.subrange(0, i as int));
        proof {
            reveal(Seq::filter);
        }
        assert(s.last() == pool@[i as int]);
        if pool[i].level.at_least(required) {
            let c = pool[i].clone();
            r.push(c);
            assert(eligibility(required)(s.last()));
            assert(r@ =~= s.filter(eligibility(required)));
        } else {
            assert(!eligibility(required)(s.last()));
            assert(r@ =~= s.filter(eligibility(required)));
        }
        i = i + 1;
    }
    assert(pool@.subrange(0, pool@.len() as int) =~= pool@);
    r
}

/// Selects `count` verifiers from `pool`: the candidates at or above `required`,
/// ranked by descending suitability (ties by identifier), best first. Fails with
/// `NotAllowed` exactly when fewer than `count` candidates qualify.
pub fn select(pool: &Vec<VerifierCandidate>, required: TrustLevel, count: usize) -> (r: Result<
    Vec<VerifierCandidate>,
    RotationError,
>)
    ensures
        r is Err <==> eligible_pool(pool@, required).len() < count,
        r matches Err(e) ==> e is NotAllowed,
        r matches Ok(v) ==> {
            let e = eligible_pool(pool@, required);
            &&& v@.len() == count
            &&& sorted_by(v@, rank_order())
            &&& v@.to_multiset().subset_of(e.to_multiset())
            &&& count > 0 ==> forall|c: VerifierCandidate|
                #[trigger] e.to_multiset().sub(v@.to_multiset()).contains(c) ==> ranks_before(
                    v@.last(),
                    c,
                )
        },
{
    proof {
        lemma_rank_order();
    }
    let mut rest = filter_eligible(pool, required);
    if rest.len() < count {
        return Err(RotationError::NotAllowed("not enough eligible verifiers".to_owned()));
    }
    let ghost all = rest@;
    let mut out: Vec<VerifierCandidate> = Vec::new();
    let mut k: usize = 0;
    while k < count
        invariant
            k <= count <= all.len(),
            all == eligible_pool(pool@, required),
            out@.len() == k,
            out@.len() + rest@.len() == all.len(),
            out@.to_multiset().add(rest@.to_multiset()) == all.to_multiset(),
            sorted_by(out@, rank_order()),
            k > 0 ==> forall|t: int| 0 <= t < rest@.len() ==> ranks_before(out@.last(), #[trigger] rest@[t]),
        decreases count - k,
    {
        let b = best_index(&rest);
        let ghost old_rest = rest@;
        let ghost old_out = out@;
        let chosen = rest.remove(b);
        proof {
            assert(old_rest.to_multiset().contains(chosen));
            assert(old_rest.remove(b as int).to_multiset() =~= old_rest.to_multiset().remove(chosen));
        }
        out.push(chosen);
        proof {
            assert(out@.to_multiset() =~= old_out.to_multiset().insert(chosen));
            assert(out@.to_multiset().add(rest@.to_multiset()) =~= all.to_multiset());
            assert forall|i: int, j: int| 0 <= i < j < out@.len() implies #[trigger] rank_order()(
                out@[i],
                out@[j],
            ) by {
                if j < k {
                    assert(rank_order()(old_out[i], old_out[j]));
                } else if i < k - 1 {
                    assert(rank_order()(old_out[i], old_out[k - 1]));
                    assert(ranks_before(old_out.last(), old_rest[b as int]));
                } else {
                    assert(ranks_before(old_out.last(), old_rest[b as int]));
                }
            }
            assert forall|t: int| 0 <= t < rest@.len() implies ranks_before(
                out@.last(),
                #[trigger] rest@[t],
            ) by {
                if t < b {
                    assert(rest@[t] == old_rest[t]);
                } else {
                    assert(rest@[t] == old_rest[t + 1]);
                }
            }
        }
        k = k + 1;
    }
    proof {
        assert(all.to_multiset().sub(out@.to_multiset()) =~= rest@.to_multiset());
        if count > 0 {
            assert forall|c: VerifierCandidate|
                #[trigger] all.to_multiset().sub(out@.to_multiset()).contains(c) implies ranks_before(
                out@.last(),
                c,
            ) by {
                assert(rest@.to_multiset().count(c) > 0);
                assert(rest@.contains(c));
                let t = choose|t: int| 0 <= t < rest@.len() && rest@[t] == c;
                assert(ranks_before(out@.last(), rest@[t]));
            }
        }
    }
    Ok(out)
}

} // verus!
