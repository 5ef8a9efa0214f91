//! Projectile replicas and local hit detection. Every peer, the firing one
//! included, owns and advances an independent copy of each projectile it
//! knows of; no protocol message corrects or destroys a replica once spawned,
//! so peers' views of one projectile may silently diverge — an accepted
//! fire-and-forget boundary of the design, not repaired here.
use vstd::prelude::*;

use crate::player::PlayerState;
use crate::Vec3Bits;

verus! {

/// How long a projectile replica lives, in milliseconds.
pub const PROJECTILE_LIFETIME_MS: u64 = 10000;

/// A replica's remaining time to live.
#[derive(Clone, Copy, Debug, PartialEq, Eq, Structural)]
pub struct Lifetime {
    pub remaining_ms: u64,
}

impl Lifetime {
    /// The countdown after `elapsed_ms` have passed: it never goes below
    /// zero.
    pub open spec fn spec_ticked(self, elapsed_ms: u64) -> Lifetime {
        Lifetime {
            remaining_ms: if self.remaining_ms >= elapsed_ms {
                (self.remaining_ms - elapsed_ms) as u64
            } else {
                0
            },
        }
    }

    /// Counts `elapsed_ms` down, saturating at zero.
    pub fn tick(&mut self, elapsed_ms: u64)
        ensures
            *final(self) == old(self).spec_ticked(elapsed_ms),
    {
        if self.remaining_ms >= elapsed_ms {
            self.remaining_ms = self.remaining_ms - elapsed_ms;
        } else {
            self.remaining_ms = 0;
        }
    }

    /// Whether the countdown has run out.
    pub fn finished(&self) -> (r: bool)
        ensures
            r == (self.remaining_ms == 0),
    {
        self.remaining_ms == 0
    }
}

/// One independently simulated, non-authoritative copy of a projectile:
/// who fired it, where it was spawned, which way it flies, a spawn-time
/// derived identifier, and its countdown. The per-frame position advance is
/// the presentation layer's floating-point work and stays outside this
/// model; expiry is decided here.
#[derive(Clone, Copy, Debug, PartialEq, Eq, Structural)]
pub struct ProjectileReplica {
    pub owner: u64,
    pub position: Vec3Bits,
    pub direction: Vec3Bits,
    pub replica_id: u64,
    pub lifetime: Lifetime,
}

/// The replica after `elapsed_ms`: only the countdown changes.
pub open spec fn ticked_replica(r: ProjectileReplica, elapsed_ms: u64) -> ProjectileReplica {
    ProjectileReplica { lifetime: r.lifetime.spec_ticked(elapsed_ms), ..r }
}

/// The replicas surviving one simulation tick, in order: each countdown is
/// decreased, and a replica whose countdown ran out is destroyed locally.
pub open spec fn replicas_advanced(rs: Seq<ProjectileReplica>, elapsed_ms: u64) -> Seq<
    ProjectileReplica,
>
    decreases rs.len(),
{
    if rs.len() == 0 {
        Seq::empty()
    } else {
        let prev = replicas_advanced(rs.drop_last(), elapsed_ms);
        let t = ticked_replica(rs.last(), elapsed_ms);
        if t.lifetime.remaining_ms == 0 {
            prev
        } else {
            prev.push(t)
        }
    }
}

/// The projectile replicas a peer currently simulates, in spawn order.
#[derive(Debug)]
pub struct Replicas {
    pub list: Vec<ProjectileReplica>,
}

impl View for Replicas {
    type V = Seq<ProjectileReplica>;

    open spec fn view(&self) -> Seq<ProjectileReplica> {
        self.list@
    }
}

impl Replicas {
    /// No replicas yet.
    pub fn new() -> (r: Replicas)
        ensures
            r@ == Seq::<ProjectileReplica>::empty(),
    {
        Replicas { list: Vec::new() }
    }

    /// How many replicas are alive.
    pub fn len(&self) -> (n: usize)
        ensures
            n == self@.len(),
    {
        self.list.len()
    }

    /// The replica at `i`, in spawn order.
    pub fn get(&self, i: usize) -> (r: ProjectileReplica)
        requires
            i < self@.len(),
        ensures
            r == self@[i as int],
    {
        self.list[i]
    }

    /// Records a newly announced projectile with a full countdown.
    pub fn spawn(&mut self, owner: u64, position: Vec3Bits, direction: Vec3Bits, replica_id: u64)
        ensures
            final(self)@ == old(self)@.push(
                (ProjectileReplica {
                    owner,
                    position,
                    direction,
                    replica_id,
                    lifetime: (Lifetime { remaining_ms: PROJECTILE_LIFETIME_MS }),
                }),
            ),
    {
        self.list.push(
            ProjectileReplica {
                owner,
                position,
                direction,
                replica_id,
                lifetime: Lifetime { remaining_ms: PROJECTILE_LIFETIME_MS },
            },
        );
    }

    /// One simulation tick: counts every replica down by `elapsed_ms` and
    /// destroys the expired ones, as [`replicas_advanced`] states.
    pub fn update_projectiles(&mut self, elapsed_ms: u64)
        ensures
            final(self)@ == replicas_advanced(old(self)@, elapsed_ms),
    {
        let mut kept: Vec<ProjectileReplica> = Vec::new();
        let n = self.list.len();
        for i in 0..n
            invariant
                n == self.list@.len(),
                self.list@ == old(self).list@,
                kept@ == replicas_advanced(self.list@.take(i as int), elapsed_ms),
        {
            proof {
                assert(self.list@.take(i as int + 1).drop_last() =~= self.list@.take(i as int));
                assert(self.list@.take(i as int + 1).last() == self.list@[i as int]);
            }
            let mut r = self.list[i];
            r.lifetime.tick(elapsed_ms);
            if !r.lifetime.finished() {
                kept.push(r);
            }
        }
        proof {
            assert(self.list@.take(n as int) =~= self.list@);
        }
        self.list = kept;
    }
}

/// How the local physical simulation classifies a body in a collision.
#[derive(Clone, Copy, Debug, PartialEq, Eq, Structural)]
pub enum ColliderKind {
    /// A projectile's body, locally simulated.
    ProjectileBody,
    /// The local player's own avatar.
    LocalAvatar,
    /// Anything else: walls, ground, remote representations.
    Scenery,
}

/// One started collision between two classified bodies, as the physics
/// collaborator reports it.
#[derive(Clone, Copy, Debug, PartialEq, Eq, Structural)]
pub struct CollisionPair {
    pub first: ColliderKind,
    pub second: ColliderKind,
}

/// The alive flag after one collision: a projectile striking the local
/// avatar kills it; every other pairing leaves the flag alone.
pub open spec fn state_after_collision(s: PlayerState, c: CollisionPair) -> PlayerState {
    if (c.first is ProjectileBody && c.second is LocalAvatar) || (c.second is ProjectileBody
        && c.first is LocalAvatar) {
        PlayerState::Dead
    } else {
        s
    }
}

/// The alive flag after a burst of collisions, in order.
pub open spec fn state_after_collisions(s: PlayerState, cs: Seq<CollisionPair>) -> PlayerState
    decreases cs.len(),
{
    if cs.len() == 0 {
        s
    } else {
        state_after_collision(state_after_collisions(s, cs.drop_last()), cs.last())
    }
}

/// Local hit detection: drains one tick's started collisions and flips the
/// local alive flag to `Dead` when any of them pairs a projectile with the
/// local avatar. Each peer observes only its own simulation's collisions,
/// and this transition sends no network message — `PlayerDeath` is handled
/// on receipt elsewhere, but nothing here constructs one; that open point of
/// the design is preserved, not repaired.
pub fn detect_collisions(state: &mut PlayerState, events: &Vec<CollisionPair>)
    ensures
        *final(state) == state_after_collisions(*old(state), events@),
{
    let n = events.len();
    for i in 0..n
        invariant
            n == events@.len(),
            *state == state_after_collisions(*old(state), events@.take(i as int)),
    {
        proof {
            assert(events@.take(i as int + 1).drop_last() =~= events@.take(i as int));
            assert(events@.take(i as int + 1).last() == events@[i as int]);
        }
        let c = events[i];
        if (c.first == ColliderKind::ProjectileBody && c.second == ColliderKind::LocalAvatar) || (
        c.second == ColliderKind::ProjectileBody && c.first == ColliderKind::LocalAvatar) {
            *state = PlayerState::Dead;
        }
    }
    proof {
        assert(events@.take(n as int) =~= events@);
    }
}

} // verus!
