//! The collision resolver: cross-checks the player's projectiles against
//! the live invaders and removes matched pairs.

use vstd::prelude::*;
use crate::player::Player;
use crate::player::PlayerV;
use crate::player::Projectile;
use crate::swarm::Invaders;
use crate::swarm::Invader;
use crate::swarm::SwarmV;

verus! {

/// True iff the invader and the projectile occupy the same cell: same
/// column, and the projectile's floored row is the invader's row.
pub open spec fn hits_at(inv: Invader, s: Projectile) -> bool {
    inv.x == s.x && inv.y == s.cell_row()
}

/// Index of the first invader in army order that the projectile hits, or
/// -1 when it hits none. First match wins: a projectile destroys at most
/// one invader per call.
pub open spec fn find_first_hit(army: Seq<Invader>, s: Projectile) -> int
    decreases army.len(),
{
    if army.len() == 0 {
        -1
    } else if hits_at(army[0], s) {
        0
    } else {
        let r = find_first_hit(army.drop_first(), s);
        if r < 0 {
            -1
        } else {
            r + 1
        }
    }
}

/// What `find_first_hit` finds: a valid index of a hit invader that no
/// earlier invader precedes, or -1 when no invader is hit.
pub proof fn lemma_find_first_hit(army: Seq<Invader>, s: Projectile)
    ensures
        find_first_hit(army, s) == -1 || 0 <= find_first_hit(army, s) < army.len(),
        find_first_hit(army, s) >= 0 ==> hits_at(army[find_first_hit(army, s)], s),
        forall|j: int|
            0 <= j < army.len() && (find_first_hit(army, s) == -1 || j < find_first_hit(army, s))
                ==> !hits_at(#[trigger] army[j], s),
    decreases army.len(),
{
    if army.len() > 0 && !hits_at(army[0], s) {
        lemma_find_first_hit(army.drop_first(), s);
        assert forall|j: int|
            0 <= j < army.len() && (find_first_hit(army, s) == -1 || j < find_first_hit(army, s))
                implies !hits_at(#[trigger] army[j], s) by {
            if j > 0 {
                assert(army.drop_first()[j - 1] == army[j]);
            }
        }
    }
}

/// Effect of `detect_hits`: with a projectile in flight that hits some
/// invader, the first hit invader and the projectile are both removed;
/// otherwise nothing changes. The returned flag says whether a
/// destruction occurred (the cue for the explosion sound).
pub open spec fn detect_hits_v(p: PlayerV, s: SwarmV) -> (PlayerV, SwarmV, bool) {
    if p.shots.len() > 0 && find_first_hit(s.army, p.shots[0]) >= 0 {
        (
            PlayerV { shots: p.shots.remove(0), ..p },
            SwarmV { army: s.army.remove(find_first_hit(s.army, p.shots[0])), ..s },
            true,
        )
    } else {
        (p, s, false)
    }
}

/// Law: one collision call removes exactly one invader and one
/// projectile per coincident pair — one of each on a hit, none
/// otherwise — so it never removes more invaders than there were
/// projectiles in flight when it was called.
pub proof fn lemma_detect_hits_counts(p: PlayerV, s: SwarmV)
    ensures
        ({
            let (p2, s2, hit) = detect_hits_v(p, s);
            &&& s.army.len() - s2.army.len() == p.shots.len() - p2.shots.len()
            &&& s.army.len() - s2.army.len() <= p.shots.len()
            &&& hit ==> s2.army.len() == s.army.len() - 1 && p2.shots.len() == p.shots.len() - 1
            &&& !hit ==> s2 == s && p2 == p
        }),
{
    if p.shots.len() > 0 {
        lemma_find_first_hit(s.army, p.shots[0]);
    }
}

/// Cross-checks the player's in-flight projectile against the live
/// invaders: on a coincident cell, removes that invader from the swarm
/// and the projectile from the player. Returns true iff a destruction
/// occurred this call.
pub fn detect_hits(player: &mut Player, swarm: &mut Invaders) -> (hit: bool)
    requires
        old(player).wf(),
        old(swarm)@.wf(),
    ensures
        final(player).wf(),
        final(swarm)@.wf(),
        ({
            let (p2, s2, h) = detect_hits_v(old(player)@, old(swarm)@);
            &&& final(player)@ == p2
            &&& final(swarm)@ == s2
            &&& hit == h
        }),
{
    if player.shots.len() == 0 {
        return false;
    }
    let s = player.shots[0];
    let sy = (s.row_mu / crate::player::SUBCELL) as usize;
    proof {
        assert(old(player)@.shots[0].wf());
        assert(sy == s.cell_row());
        lemma_find_first_hit(old(swarm)@.army, s);
    }
    let mut i: usize = 0;
    while i < swarm.army.len()
        invariant
            old(player).wf(),
            old(swarm)@.wf(),
            old(player)@.shots.len() > 0,
            s == old(player)@.shots[0],
            sy == s.cell_row(),
            *player == *old(player),
            *swarm == *old(swarm),
            i <= swarm.army@.len(),
            forall|j: int| 0 <= j < i ==> !hits_at(#[trigger] swarm.army@[j], s),
        decreases swarm.army@.len() - i,
    {
        let v = swarm.army[i];
        if v.x == s.x && v.y == sy {
            proof {
                lemma_find_first_hit(old(swarm)@.army, s);
                assert(find_first_hit(old(swarm)@.army, s) == i);
            }
            let _ = swarm.army.remove(i);
            let _ = player.shots.remove(0);
            proof {
                old(swarm)@.army.remove_ensures(i as int);
                old(player)@.shots.remove_ensures(0);
                assert forall|j: int| 0 <= j < swarm.army@.len() implies (#[trigger] swarm.army@[
                    j
                ]).x < crate::NUM_COLS && swarm.army@[j].y < crate::NUM_ROWS by {
                    if j < i {
                        assert(swarm.army@[j] == old(swarm)@.army[j]);
                    } else {
                        assert(swarm.army@[j] == old(swarm)@.army[j + 1]);
                    }
                }
            }
            return true;
        }
        i = i + 1;
    }
    proof {
        lemma_find_first_hit(old(swarm)@.army, s);
        assert(find_first_hit(old(swarm)@.army, s) == -1);
    }
    false
}

} // verus!
