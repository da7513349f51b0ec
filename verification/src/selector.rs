use vstd::prelude::*;

use crate::errors::DrawError;
use crate::identity::Identity;

verus! {

/// No identity occurs twice in the sequence.
pub open spec fn distinct_seq(s: Seq<Identity>) -> bool {
    forall|i: int, j: int| 0 <= i < j < s.len() ==> s[i] != s[j]
}

/// One sampling attempt of the selection loop.
///
/// The seed byte under the cursor, reduced modulo the pool size, is the
/// candidate index; the cursor then steps to the next byte, wrapping around
/// the seed. A candidate not yet chosen is accepted, which refills the
/// attempt budget; a collision spends one unit of it. Once a full pass over
/// the seed yields no fresh index the same collisions would repeat forever,
/// so the draw is declared stalled (`None`) instead of looping.
pub open spec fn spec_draw_from(
    members: Seq<Identity>,
    seed: Seq<u8>,
    k: nat,
    chosen: Set<int>,
    winners: Seq<Identity>,
    cursor: nat,
    budget: nat,
) -> Option<Seq<Identity>>
    recommends
        seed.len() >= 1,
        cursor < seed.len(),
    decreases k - winners.len(), budget,
{
    if winners.len() >= k {
        Some(winners)
    } else if budget == 0 {
        None
    } else {
        let idx = seed[cursor as int] as int % members.len() as int;
        let next = if cursor + 1 == seed.len() { 0 } else { cursor + 1 };
        if chosen.contains(idx) {
            spec_draw_from(members, seed, k, chosen, winners, next, (budget - 1) as nat)
        } else {
            spec_draw_from(
                members,
                seed,
                k,
                chosen.insert(idx),
                winners.push(members[idx]),
                next,
                seed.len(),
            )
        }
    }
}

/// The winners that sampling `k` identities out of `members` under `seed`
/// produces, in selection order, or `None` where the draw stalls.
pub open spec fn spec_draw(members: Seq<Identity>, seed: Seq<u8>, k: nat) -> Option<
    Seq<Identity>,
>
    recommends
        seed.len() >= 1,
{
    spec_draw_from(members, seed, k, Set::empty(), Seq::empty(), 0, seed.len())
}

/// Samples `k` unique members of the pool, without replacement, driven
/// deterministically by the seed bytes.
///
/// The result is exactly `spec_draw`: reproducible for a fixed pool and
/// seed. On success the winners are `k` distinct identities drawn from
/// `members`, in selection order; the draw stalls (`SelectionStalled`)
/// exactly where every seed byte keeps colliding with an index that was
/// already taken.
pub fn select_winners(members: &Vec<Identity>, k: u8, seed: &Vec<u8>) -> (r: Result<
    Vec<Identity>,
    DrawError,
>)
    requires
        seed@.len() >= 1,
        k as nat <= members@.len(),
        distinct_seq(members@),
    ensures
        ({
            let d = spec_draw(members@, seed@, k as nat);
            match r {
                Ok(w) => d == Some(w@),
                Err(e) => e == DrawError::SelectionStalled && d is None,
            }
        }),
        r matches Ok(w) ==> w@.len() == k as nat && distinct_seq(w@) && (forall|j: int|
            0 <= j < w@.len() ==> members@.contains(w@[j])),
{
    let ghost kn = k as nat;
    let n = members.len();
    let seed_len = seed.len();
    let mut chosen: Vec<bool> = Vec::new();
    let mut i: usize = 0;
    while i < n
        invariant
            i <= n,
            chosen@.len() == i,
            forall|t: int| 0 <= t < i ==> !chosen@[t],
        decreases n - i,
    {
        chosen.push(false);
        i = i + 1;
    }

    let mut winners: Vec<Identity> = Vec::new();
    let ghost mut chosen_set: Set<int> = Set::empty();
    let ghost mut order: Seq<int> = Seq::empty();
    let mut cursor: usize = 0;
    let mut budget: usize = seed_len;

    while winners.len() < k as usize
        invariant
            n == members@.len(),
            seed_len == seed@.len(),
            seed_len >= 1,
            kn == k as nat,
            kn <= n,
            distinct_seq(members@),
            chosen@.len() == n,
            cursor < seed_len,
            budget <= seed_len,
            winners@.len() <= kn,
            spec_draw_from(members@, seed@, kn, chosen_set, winners@, cursor as nat, budget as nat)
                == spec_draw(members@, seed@, kn),
            forall|t: int| 0 <= t < n ==> (chosen@[t] <==> chosen_set.contains(t)),
            order.len() == winners@.len(),
            forall|j: int| 0 <= j < order.len() ==> 0 <= #[trigger] order[j] < n,
            forall|j: int| 0 <= j < order.len() ==> winners@[j] == members@[#[trigger] order[j]],
            forall|j: int| 0 <= j < order.len() ==> chosen_set.contains(#[trigger] order[j]),
            forall|j1: int, j2: int| 0 <= j1 < j2 < order.len() ==> order[j1] != order[j2],
        decreases kn - winners@.len(), budget,
    {
        if budget == 0 {
            // a full pass over the seed found no fresh index: fail closed
            return Err(DrawError::SelectionStalled);
        }
        let b = seed[cursor];
        let idx = (b as usize) % n;
        let ghost prev_chosen = chosen_set;
        let ghost prev_winners = winners@;
        let ghost prev_cursor = cursor as nat;
        let ghost prev_budget = budget as nat;
        if !chosen[idx] {
            chosen.set(idx, true);
            winners.push(members[idx]);
            proof {
                chosen_set = chosen_set.insert(idx as int);
                order = order.push(idx as int);
            }
            budget = seed_len;
        } else {
            budget = budget - 1;
        }
        cursor = if cursor + 1 == seed_len {
            0
        } else {
            cursor + 1
        };
        proof {
            assert(spec_draw_from(
                members@,
                seed@,
                kn,
                prev_chosen,
                prev_winners,
                prev_cursor,
                prev_budget,
            ) == spec_draw_from(
                members@,
                seed@,
                kn,
                chosen_set,
                winners@,
                cursor as nat,
                budget as nat,
            ));
        }
    }
    proof {
        assert(spec_draw(members@, seed@, kn) == Some(winners@));
        assert forall|j: int| 0 <= j < winners@.len() implies members@.contains(winners@[j]) by {
            assert(winners@[j] == members@[order[j]]);
        }
        assert forall|j1: int, j2: int|
            0 <= j1 < j2 < winners@.len() implies winners@[j1] != winners@[j2] by {
            let i1 = order[j1];
            let i2 = order[j2];
            assert(i1 != i2);
            if i1 < i2 {
                assert(members@[i1] != members@[i2]);
            } else {
                assert(members@[i2] != members@[i1]);
            }
        }
    }
    Ok(winners)
}

} // verus!
