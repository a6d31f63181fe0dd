//! Choosing whom a bot engages.

use crate::geometry::Point3;
use crate::handle::Handle;
use vstd::prelude::*;

verus! {

/// The radius, in millimetres, within which a bot notices a hostile without
/// having to see it.
pub const PROXIMITY_RADIUS: u32 = 1600;

/// The entity that a bot engages: who it is, and where it was last found.
#[derive(Clone, Copy, PartialEq, Eq, Structural, Debug)]
pub struct Target {
    pub position: Point3,
    pub handle: Handle,
}

/// What the world knows about one entity that could be engaged.
#[derive(Clone, Copy, PartialEq, Eq, Structural, Debug)]
pub struct TargetDescriptor {
    pub handle: Handle,
    /// In thousandths of a point; none left means dead.
    pub health: u32,
    pub position: Point3,
}

/// One thing that a ray met on its way.
#[derive(Clone, Copy, PartialEq, Eq, Structural, Debug)]
pub struct RayHit {
    /// The body that the struck collider belongs to.
    pub body: Handle,
    /// Whether the struck shape is a triangle mesh: a large static surface
    /// that hides what is behind it.
    pub occluder: bool,
}

/// An entity that could be engaged, with what the bot perceives of it.
#[derive(Clone, Debug)]
pub struct Candidate {
    pub descriptor: TargetDescriptor,
    /// Whether the entity's position lies inside the bot's view frustum.
    pub in_view: bool,
    /// What a ray from the entity to the bot meets, nearest first.
    pub hits: Vec<RayHit>,
}

/// Hit `i` hides the candidate: it is on an occluder, and the ray has not
/// reached the bot's own body by then. What the ray meets at or behind the
/// bot's own body hides nothing from the bot.
pub open spec fn hit_blocks(hits: Seq<RayHit>, own_body: Handle, i: int) -> bool {
    &&& 0 <= i < hits.len()
    &&& hits[i].occluder
    &&& forall|j: int| 0 <= j <= i ==> (#[trigger] hits[j]).body != own_body
}

/// Whether something stands between a candidate and the bot: whether the
/// ray from the candidate, whose hits come nearest first, meets an occluder
/// before it meets the bot's own body.
pub open spec fn spec_is_blocked(hits: Seq<RayHit>, own_body: Handle) -> bool {
    exists|i: int| hit_blocks(hits, own_body, i)
}

/// Whether a squared distance is that of an entity close enough to be
/// noticed unseen. An entity at the bot's very position is not.
pub open spec fn within_proximity(distance_squared: int) -> bool {
    0 < distance_squared < PROXIMITY_RADIUS * PROXIMITY_RADIUS
}

/// An entity at `at` is eligible when it is close by or in view.
pub open spec fn spec_is_eligible(at: Point3, in_view: bool, position: Point3) -> bool {
    within_proximity(position.spec_distance_squared(at)) || in_view
}

/// A candidate can be engaged when it is not the bot itself, is alive, is
/// eligible, and nothing stands in between.
pub open spec fn spec_is_acceptable(
    candidate: Candidate,
    self_handle: Handle,
    own_body: Handle,
    position: Point3,
) -> bool {
    &&& candidate.descriptor.handle != self_handle
    &&& candidate.descriptor.health > 0
    &&& spec_is_eligible(candidate.descriptor.position, candidate.in_view, position)
    &&& !spec_is_blocked(candidate.hits@, own_body)
}

/// Candidate `best` is the one to engage among the first `n`: it can be
/// engaged, none of them that can be is nearer, and of those as near it
/// comes first.
pub open spec fn is_nearest_among(
    candidates: Seq<Candidate>,
    self_handle: Handle,
    own_body: Handle,
    position: Point3,
    n: int,
    best: int,
) -> bool {
    &&& 0 <= best < n <= candidates.len()
    &&& spec_is_acceptable(candidates[best], self_handle, own_body, position)
    &&& forall|j: int|
        0 <= j < n && spec_is_acceptable(#[trigger] candidates[j], self_handle, own_body, position)
            ==> position.spec_distance_squared(candidates[best].descriptor.position)
            <= position.spec_distance_squared(candidates[j].descriptor.position)
    &&& forall|j: int|
        0 <= j < best && spec_is_acceptable(
            #[trigger] candidates[j],
            self_handle,
            own_body,
            position,
        ) ==> position.spec_distance_squared(candidates[best].descriptor.position)
            < position.spec_distance_squared(candidates[j].descriptor.position)
}

/// The target that a bot without one acquires: the nearest candidate that
/// can be engaged, the first of several equally near; none if no candidate
/// can be engaged.
pub open spec fn spec_acquire(
    candidates: Seq<Candidate>,
    self_handle: Handle,
    own_body: Handle,
    position: Point3,
) -> Option<Target> {
    if exists|i: int|
        is_nearest_among(candidates, self_handle, own_body, position, candidates.len() as int, i) {
        let i = choose|i: int|
            is_nearest_among(
                candidates,
                self_handle,
                own_body,
                position,
                candidates.len() as int,
                i,
            );
        Some(
            Target {
                position: candidates[i].descriptor.position,
                handle: candidates[i].descriptor.handle,
            },
        )
    } else {
        None
    }
}

/// A descriptor confirms a target when it describes the same entity, alive,
/// and that entity is not the bot itself.
pub open spec fn confirms(candidate: Candidate, target: Target, self_handle: Handle) -> bool {
    &&& candidate.descriptor.handle != self_handle
    &&& candidate.descriptor.handle == target.handle
    &&& candidate.descriptor.health > 0
}

/// Candidate `k` is the first that confirms the target.
pub open spec fn is_first_confirmation(
    candidates: Seq<Candidate>,
    target: Target,
    self_handle: Handle,
    k: int,
) -> bool {
    &&& 0 <= k < candidates.len()
    &&& confirms(candidates[k], target, self_handle)
    &&& forall|j: int| 0 <= j < k ==> !confirms(#[trigger] candidates[j], target, self_handle)
}

/// The target as it is kept: with its position refreshed from the first
/// candidate that confirms it; none if no candidate does.
pub open spec fn spec_revalidate(
    target: Target,
    candidates: Seq<Candidate>,
    self_handle: Handle,
) -> Option<Target> {
    if exists|k: int| is_first_confirmation(candidates, target, self_handle, k) {
        let k = choose|k: int| is_first_confirmation(candidates, target, self_handle, k);
        Some(Target { position: candidates[k].descriptor.position, handle: target.handle })
    } else {
        None
    }
}

/// The target after selection: the current one as long as a candidate
/// confirms it, and otherwise whatever can be acquired afresh.
pub open spec fn spec_select_target(
    current: Option<Target>,
    candidates: Seq<Candidate>,
    self_handle: Handle,
    own_body: Handle,
    position: Point3,
) -> Option<Target> {
    match current {
        Some(target) if spec_revalidate(target, candidates, self_handle) is Some => spec_revalidate(
            target,
            candidates,
            self_handle,
        ),
        _ => spec_acquire(candidates, self_handle, own_body, position),
    }
}

/// Decides whether the hits of a ray hide a candidate from the bot.
pub fn is_blocked(hits: &Vec<RayHit>, own_body: Handle) -> (r: bool)
    ensures
        r == spec_is_blocked(hits@, own_body),
{
    let mut i: usize = 0;
    while i < hits.len()
        invariant
            i <= hits.len(),
            forall|j: int| 0 <= j < i ==> (#[trigger] hits@[j]).body != own_body,
            forall|j: int| 0 <= j < i ==> !(#[trigger] hits@[j]).occluder,
        decreases hits.len() - i,
    {
        if hits[i].body == own_body {
            assert forall|k: int| !hit_blocks(hits@, own_body, k) by {
                if hit_blocks(hits@, own_body, k) {
                    if k >= i {
                        assert(hits@[i as int].body == own_body);
                    } else {
                        assert(!hits@[k].occluder);
                    }
                }
            }
            return false;
        }
        if hits[i].occluder {
            assert(hit_blocks(hits@, own_body, i as int));
            return true;
        }
        i += 1;
    }
    assert forall|k: int| !hit_blocks(hits@, own_body, k) by {
        if hit_blocks(hits@, own_body, k) {
            assert(!hits@[k].occluder);
        }
    }
    false
}

/// Decides whether an entity at `at` is eligible for a bot at `position`.
/// Only for an eligible entity is it worth finding out what stands in
/// between.
pub fn is_eligible(at: Point3, in_view: bool, position: Point3) -> (r: bool)
    ensures
        r == spec_is_eligible(at, in_view, position),
{
    let distance_squared = position.distance_squared(at);
    let radius: u128 = PROXIMITY_RADIUS as u128;
    assert(radius * radius == 2_560_000) by (nonlinear_arith)
        requires
            radius == 1600,
    ;
    (0 < distance_squared && distance_squared < radius * radius) || in_view
}

/// Decides whether a candidate can be engaged from `position`.
pub fn is_acceptable(
    candidate: &Candidate,
    self_handle: Handle,
    own_body: Handle,
    position: Point3,
) -> (r: bool)
    ensures
        r == spec_is_acceptable(*candidate, self_handle, own_body, position),
{
    if candidate.descriptor.handle == self_handle || candidate.descriptor.health == 0 {
        return false;
    }
    if !is_eligible(candidate.descriptor.position, candidate.in_view, position) {
        return false;
    }
    !is_blocked(&candidate.hits, own_body)
}

/// Looks for the current target among the candidates.
pub fn revalidate(
    target: Target,
    candidates: &Vec<Candidate>,
    self_handle: Handle,
) -> (r: Option<Target>)
    ensures
        r == spec_revalidate(target, candidates@, self_handle),
{
    let mut k: usize = 0;
    while k < candidates.len()
        invariant
            k <= candidates.len(),
            forall|j: int| 0 <= j < k ==> !confirms(#[trigger] candidates@[j], target, self_handle),
        decreases candidates.len() - k,
    {
        let descriptor = candidates[k].descriptor;
        if descriptor.handle != self_handle && descriptor.handle == target.handle
            && descriptor.health > 0 {
            proof {
                assert(is_first_confirmation(candidates@, target, self_handle, k as int));
                let chosen = choose|c: int|
                    is_first_confirmation(candidates@, target, self_handle, c);
                assert(chosen == k);
            }
            return Some(Target { position: descriptor.position, handle: target.handle });
        }
        k += 1;
    }
    None
}

/// Looks for the nearest candidate that can be engaged.
pub fn acquire(
    candidates: &Vec<Candidate>,
    self_handle: Handle,
    own_body: Handle,
    position: Point3,
) -> (r: Option<Target>)
    ensures
        r == spec_acquire(candidates@, self_handle, own_body, position),
{
    let mut best: Option<usize> = None;
    let mut closest: u128 = 0;
    let mut i: usize = 0;
    while i < candidates.len()
        invariant
            i <= candidates.len(),
            match best {
                Some(b) => is_nearest_among(
                    candidates@,
                    self_handle,
                    own_body,
                    position,
                    i as int,
                    b as int,
                ) && closest == position.spec_distance_squared(
                    candidates@[b as int].descriptor.position,
                ),
                None => forall|j: int|
                    0 <= j < i ==> !spec_is_acceptable(
                        #[trigger] candidates@[j],
                        self_handle,
                        own_body,
                        position,
                    ),
            },
        decreases candidates.len() - i,
    {
        if is_acceptable(&candidates[i], self_handle, own_body, position) {
            let distance_squared = position.distance_squared(candidates[i].descriptor.position);
            if best.is_none() || distance_squared < closest {
                best = Some(i);
                closest = distance_squared;
            }
        }
        i += 1;
    }
    match best {
        Some(b) => {
            proof {
                let n = candidates@.len() as int;
                let chosen = choose|c: int|
                    is_nearest_among(candidates@, self_handle, own_body, position, n, c);
                lemma_nearest_is_unique(
                    candidates@,
                    self_handle,
                    own_body,
                    position,
                    b as int,
                    chosen,
                );
            }
            let descriptor = candidates[b].descriptor;
            Some(Target { position: descriptor.position, handle: descriptor.handle })
        },
        None => None,
    }
}

/// Brings a bot's target up to date with the entities that are there now.
pub fn select_target(
    current: Option<Target>,
    candidates: &Vec<Candidate>,
    self_handle: Handle,
    own_body: Handle,
    position: Point3,
) -> (r: Option<Target>)
    ensures
        r == spec_select_target(current, candidates@, self_handle, own_body, position),
{
    if let Some(target) = current {
        let kept = revalidate(target, candidates, self_handle);
        if kept.is_some() {
            return kept;
        }
    }
    acquire(candidates, self_handle, own_body, position)
}

/// There is at most one candidate to engage.
pub proof fn lemma_nearest_is_unique(
    candidates: Seq<Candidate>,
    self_handle: Handle,
    own_body: Handle,
    position: Point3,
    a: int,
    b: int,
)
    requires
        is_nearest_among(candidates, self_handle, own_body, position, candidates.len() as int, a),
        is_nearest_among(candidates, self_handle, own_body, position, candidates.len() as int, b),
    ensures
        a == b,
{
}

/// No dangling reference: a selected target is always one of the candidates
/// of this very tick, alive, and never the bot itself. A target whose entity
/// is no longer among the candidates is therefore dropped, or replaced by
/// another entity; and whenever the current target is not confirmed, what
/// replaces it is a candidate that can be engaged.
pub proof fn lemma_selected_target_is_a_candidate(
    current: Option<Target>,
    candidates: Seq<Candidate>,
    self_handle: Handle,
    own_body: Handle,
    position: Point3,
)
    ensures
        match spec_select_target(current, candidates, self_handle, own_body, position) {
            Some(target) => target.handle != self_handle && exists|i: int|
                0 <= i < candidates.len() && (#[trigger] candidates[i]).descriptor.handle
                    == target.handle && candidates[i].descriptor.position == target.position
                    && candidates[i].descriptor.health > 0,
            None => true,
        },
        candidates.len() == 0 ==> spec_select_target(
            current,
            candidates,
            self_handle,
            own_body,
            position,
        ) is None,
        (current matches Some(old_target) && forall|i: int|
            0 <= i < candidates.len() ==> (#[trigger] candidates[i]).descriptor.handle
                != old_target.handle) ==> match spec_select_target(
            current,
            candidates,
            self_handle,
            own_body,
            position,
        ) {
            Some(target) => target.handle != current.unwrap().handle,
            None => true,
        },
        (current matches Some(old_target) ==> spec_revalidate(old_target, candidates, self_handle)
            is None) ==> match spec_select_target(
            current,
            candidates,
            self_handle,
            own_body,
            position,
        ) {
            Some(target) => exists|i: int|
                0 <= i < candidates.len() && spec_is_acceptable(
                    #[trigger] candidates[i],
                    self_handle,
                    own_body,
                    position,
                ) && candidates[i].descriptor.handle == target.handle,
            None => forall|i: int|
                0 <= i < candidates.len() ==> !spec_is_acceptable(
                    #[trigger] candidates[i],
                    self_handle,
                    own_body,
                    position,
                ),
        },
{
    let n = candidates.len() as int;
    if current is Some && spec_revalidate(current.unwrap(), candidates, self_handle) is Some {
        let k = choose|k: int|
            is_first_confirmation(candidates, current.unwrap(), self_handle, k);
        assert(candidates[k].descriptor.handle == current.unwrap().handle);
    } else if exists|i: int|
        is_nearest_among(candidates, self_handle, own_body, position, n, i) {
        let i = choose|i: int| is_nearest_among(candidates, self_handle, own_body, position, n, i);
        assert(candidates[i].descriptor.handle != self_handle);
    } else {
        assert forall|i: int| 0 <= i < n implies !spec_is_acceptable(
            #[trigger] candidates[i],
            self_handle,
            own_body,
            position,
        ) by {
            if spec_is_acceptable(candidates[i], self_handle, own_body, position) {
                lemma_nearest_exists(candidates, self_handle, own_body, position, n, i);
            }
        }
    }
}

/// Where one of the first `n` candidates can be engaged, one of them is the
/// one to engage.
proof fn lemma_nearest_exists(
    candidates: Seq<Candidate>,
    self_handle: Handle,
    own_body: Handle,
    position: Point3,
    n: int,
    i: int,
)
    requires
        0 <= i < n <= candidates.len(),
        spec_is_acceptable(candidates[i], self_handle, own_body, position),
    ensures
        exists|b: int| is_nearest_among(candidates, self_handle, own_body, position, n, b),
    decreases n,
{
    let last = n - 1;
    if exists|j: int|
        0 <= j < last && spec_is_acceptable(
            #[trigger] candidates[j],
            self_handle,
            own_body,
            position,
        ) {
        let j = choose|j: int|
            0 <= j < last && spec_is_acceptable(
                #[trigger] candidates[j],
                self_handle,
                own_body,
                position,
            );
        lemma_nearest_exists(candidates, self_handle, own_body, position, last, j);
        let b = choose|b: int|
            is_nearest_among(candidates, self_handle, own_body, position, last, b);
        if spec_is_acceptable(candidates[last], self_handle, own_body, position)
            && position.spec_distance_squared(candidates[last].descriptor.position)
            < position.spec_distance_squared(candidates[b].descriptor.position) {
            assert(is_nearest_among(candidates, self_handle, own_body, position, n, last));
        } else {
            assert(is_nearest_among(candidates, self_handle, own_body, position, n, b));
        }
    } else {
        assert(is_nearest_among(candidates, self_handle, own_body, position, n, i));
    }
}

/// Stability: a target that a live candidate still describes is kept,
/// however near, visible or hidden the candidates are.
pub proof fn lemma_confirmed_target_is_kept(
    target: Target,
    candidates: Seq<Candidate>,
    self_handle: Handle,
    own_body: Handle,
    position: Point3,
    k: int,
)
    requires
        0 <= k < candidates.len(),
        confirms(candidates[k], target, self_handle),
    ensures
        spec_select_target(Some(target), candidates, self_handle, own_body, position) is Some,
        spec_select_target(
            Some(target),
            candidates,
            self_handle,
            own_body,
            position,
        ).unwrap().handle == target.handle,
{
    lemma_first_confirmation_exists(target, candidates, self_handle, k);
}

/// Where some candidate confirms a target, a first one does.
proof fn lemma_first_confirmation_exists(
    target: Target,
    candidates: Seq<Candidate>,
    self_handle: Handle,
    k: int,
)
    requires
        0 <= k < candidates.len(),
        confirms(candidates[k], target, self_handle),
    ensures
        exists|f: int| is_first_confirmation(candidates, target, self_handle, f),
    decreases k,
{
    if exists|j: int| 0 <= j < k && confirms(#[trigger] candidates[j], target, self_handle) {
        let j = choose|j: int|
            0 <= j < k && confirms(#[trigger] candidates[j], target, self_handle);
        lemma_first_confirmation_exists(target, candidates, self_handle, j);
    } else {
        assert(is_first_confirmation(candidates, target, self_handle, k));
    }
}

} // verus!
