//! The trail of points that a body leaves behind it on the screen.

use bevy::ecs::entity::Entity;
use vstd::prelude::*;

verus! {

/// `bevy::ecs::entity::Entity`, the handle by which the engine knows a thing
/// on the screen, taken as it is. Nothing is claimed of what a handle holds:
/// a trail only keeps handles and hands them on.
#[verifier::external_type_specification]
#[verifier::external_body]
pub struct ExEntity(Entity);

/// A trail is cut back as soon as it holds this many points, so it never
/// keeps more than one less.
pub const TRACE_LIMIT: usize = 100;

/// The points that mark where a body has been, oldest first, and whether the
/// trail is shown at all.
#[derive(Debug)]
pub struct TraceLine {
    pub points: Vec<Entity>,
    pub draw: bool,
}

/// How many of the oldest points leave a trail of `len` points that has to be
/// shorter than `limit`: none while it is, else as many as bring it to one
/// below `limit`.
pub open spec fn excess(len: nat, limit: nat) -> nat
    recommends
        limit > 0,
{
    if len >= limit {
        (len - limit + 1) as nat
    } else {
        0
    }
}

impl TraceLine {
    /// A trail is well formed when it is shorter than [`TRACE_LIMIT`].
    pub open spec fn wf(&self) -> bool {
        self.points@.len() < TRACE_LIMIT
    }

    /// Takes the oldest points off the trail until fewer than `limit` are
    /// left, and hands them back, oldest first.
    fn cut_back(&mut self, limit: usize) -> (removed: Vec<Entity>)
        requires
            limit > 0,
        ensures
            removed@ == old(self).points@.take(excess(old(self).points@.len(), limit as nat) as int),
            final(self).points@ == old(self).points@.skip(
                excess(old(self).points@.len(), limit as nat) as int,
            ),
            final(self).draw == old(self).draw,
    {
        let mut removed: Vec<Entity> = Vec::new();
        while self.points.len() >= limit
            invariant
                limit > 0,
                self.draw == old(self).draw,
                removed@ + self.points@ == old(self).points@,
                removed@.len() > 0 ==> self.points@.len() + 1 >= limit,
            decreases self.points@.len(),
        {
            let oldest = self.points.remove(0);
            removed.push(oldest);
        }
        proof {
            let cut = excess(old(self).points@.len(), limit as nat) as int;
            assert(removed@.len() + self.points@.len() == old(self).points@.len());
            assert(removed@ =~= old(self).points@.take(cut));
            assert(self.points@ =~= old(self).points@.skip(cut));
        }
        removed
    }

    /// Puts a new point at the end of the trail. The oldest points that the
    /// trail can then no longer keep are taken off and handed back, oldest
    /// first, for the caller to wipe from the screen.
    pub fn add(&mut self, point_entity: Entity) -> (removed: Vec<Entity>)
        ensures
            removed@ == old(self).points@.push(point_entity).take(
                excess(old(self).points@.len() + 1, TRACE_LIMIT as nat) as int,
            ),
            final(self).points@ == old(self).points@.push(point_entity).skip(
                excess(old(self).points@.len() + 1, TRACE_LIMIT as nat) as int,
            ),
            removed@ + final(self).points@ == old(self).points@.push(point_entity),
            final(self).draw == old(self).draw,
            final(self).wf(),
    {
        self.points.push(point_entity);
        self.cut_back(TRACE_LIMIT)
    }

    /// Shows or hides the trail. A trail that is hidden loses all its
    /// points, which are handed back, oldest first; one that is shown keeps
    /// what it has.
    pub fn show(&mut self, turn_on: bool) -> (removed: Vec<Entity>)
        ensures
            final(self).draw == turn_on,
            turn_on ==> final(self).points@ == old(self).points@ && removed@ == Seq::<Entity>::empty(),
            !turn_on ==> final(self).points@ == Seq::<Entity>::empty() && removed@ == old(
                self,
            ).points@,
    {
        self.draw = turn_on;
        if turn_on {
            Vec::new()
        } else {
            self.cut_back(1)
        }
    }
}

impl Default for TraceLine {
    /// An empty trail that is not shown.
    fn default() -> (trace: Self)
        ensures
            trace.points@ == Seq::<Entity>::empty(),
            !trace.draw,
            trace.wf(),
    {
        TraceLine { points: Vec::with_capacity(TRACE_LIMIT), draw: false }
    }
}

} // verus!
