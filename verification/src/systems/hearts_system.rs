use std::collections::HashMap;

use vstd::prelude::*;

verus! {

broadcast use vstd::std_specs::hash::group_hash_axioms;

/// The sprite of a full heart.
pub const FULL_HEART_SPRITE_ID: usize = 0;

/// The sprite of a half heart.
pub const HALF_HEART_SPRITE_ID: usize = 1;

/// A heart shows two health points; an odd last point shows as a half heart.
pub open spec fn spec_heart_count(health: u32) -> int {
    health / 2 + health % 2
}

/// The number of hearts that show `health` points.
pub fn heart_count(health: u32) -> (r: u32)
    ensures
        r == spec_heart_count(health),
{
    health / 2 + health % 2
}

/// The number of full hearts among them.
pub fn full_hearts(health: u32) -> (r: u32)
    ensures
        r == health / 2,
{
    health / 2
}

/// The number of half hearts among them: the health left after the full hearts.
pub fn half_hearts(health: u32) -> (r: u32)
    ensures
        r == health - 2 * (health / 2),
{
    health - (health / 2) * 2
}

/// The hearts show exactly the health: two points per full heart, one per half heart,
/// at most one half heart, and as many hearts as `heart_count` says.
pub proof fn lemma_hearts_show_health(health: u32)
    ensures
        2 * (health / 2) + (health - 2 * (health / 2)) == health,
        0 <= health - 2 * (health / 2) <= 1,
        spec_heart_count(health) == health / 2 + (health - 2 * (health / 2)),
{
}

/// The sprite of each heart that shows `health`, in order: the full hearts come first,
/// then the half heart, if any.
pub fn heart_sprites(health: u32) -> (r: Vec<usize>)
    ensures
        r.len() == spec_heart_count(health),
        forall|i: int|
            0 <= i < r.len() ==> #[trigger] r[i] == if i < health / 2 {
                FULL_HEART_SPRITE_ID
            } else {
                HALF_HEART_SPRITE_ID
            },
{
    let full = full_hearts(health);
    let half = half_hearts(health);
    let mut sprites: Vec<usize> = Vec::new();
    let mut i: u32 = 0;
    while i < full
        invariant
            full == health / 2,
            i <= full,
            sprites.len() == i,
            forall|j: int| 0 <= j < sprites.len() ==> #[trigger] sprites[j] == FULL_HEART_SPRITE_ID,
        decreases full - i,
    {
        sprites.push(FULL_HEART_SPRITE_ID);
        i = i + 1;
    }
    let mut k: u32 = 0;
    while k < half
        invariant
            full == health / 2,
            half == health - 2 * (health / 2),
            half <= 1,
            k <= half,
            sprites.len() == full + k,
            forall|j: int|
                0 <= j < sprites.len() ==> #[trigger] sprites[j] == if j < full {
                    FULL_HEART_SPRITE_ID
                } else {
                    HALF_HEART_SPRITE_ID
                },
        decreases half - k,
    {
        sprites.push(HALF_HEART_SPRITE_ID);
        k = k + 1;
    }
    sprites
}

/// A hearts container is handled when its entity is both loadable and loaded, or
/// neither.
pub fn is_handled(has_loadable: bool, has_loaded: bool) -> (r: bool)
    ensures
        r == (has_loadable == has_loaded),
{
    has_loadable == has_loaded
}

/// How a hearts container's hearts are brought up to date.
#[derive(Clone, Copy, Debug, PartialEq, Eq, Structural)]
pub enum HeartsUpdateAction {
    /// The hearts stay; only their positions follow the container.
    MoveTransforms,
    /// The hearts are deleted and created anew.
    Recreate,
}

/// What the system remembers of a hearts container: the health it showed, and where.
pub struct HeartsContainerData<P> {
    pub health: u32,
    pub pos: P,
}

/// The update a hearts container needs, given what was last seen of it (if anything),
/// its health now, how many heart entities it holds, and whether it moved.
pub open spec fn spec_update_action<P>(
    previous: Option<HeartsContainerData<P>>,
    health: u32,
    heart_ids_len: usize,
    pos_changed: bool,
) -> Option<HeartsUpdateAction> {
    match previous {
        None => Some(HeartsUpdateAction::Recreate),
        Some(data) => {
            let hp_changed = health != data.health;
            let incorrect_heart_ids = heart_ids_len as u32 != spec_heart_count(health);
            if hp_changed || incorrect_heart_ids {
                Some(HeartsUpdateAction::Recreate)
            } else if pos_changed {
                Some(HeartsUpdateAction::MoveTransforms)
            } else {
                None
            }
        },
    }
}

/// A hearts container seen for the first time gets its hearts created; one seen again
/// with the health it had, the right number of heart entities and no move needs nothing;
/// a change of health always recreates the hearts.
pub proof fn lemma_update_action_cases<P>(
    data: HeartsContainerData<P>,
    health: u32,
    heart_ids_len: usize,
    pos_changed: bool,
)
    ensures
        spec_update_action::<P>(None, health, heart_ids_len, pos_changed) == Some(
            HeartsUpdateAction::Recreate,
        ),
        data.health == health && heart_ids_len as u32 == spec_heart_count(health) && !pos_changed
            ==> spec_update_action(Some(data), health, heart_ids_len, pos_changed) is None,
        data.health != health ==> spec_update_action(Some(data), health, heart_ids_len, pos_changed)
            == Some(HeartsUpdateAction::Recreate),
{
}

/// Keeps the heart entities of every hearts container in line with its health and
/// position. `P` is a position.
pub struct HeartsSystem<P> {
    hearts_containers_data: HashMap<u32, HeartsContainerData<P>>,
}

impl<P> View for HeartsSystem<P> {
    type V = Map<u32, HeartsContainerData<P>>;

    closed spec fn view(&self) -> Self::V {
        self.hearts_containers_data@
    }
}

impl<P> HeartsSystem<P> {
    /// What was last seen of the hearts container `id`.
    pub fn remembered(&self, id: u32) -> (r: Option<&HeartsContainerData<P>>)
        ensures
            r matches Some(d) ==> self@.contains_key(id) && *d == self@[id],
            r is None ==> !self@.contains_key(id),
    {
        self.hearts_containers_data.get(&id)
    }

    /// Decides the update of the hearts container `id` and remembers its health and
    /// position. `pos_changed` tells whether `pos` differs from the position remembered.
    pub fn plan_update(
        &mut self,
        id: u32,
        health: u32,
        heart_ids_len: usize,
        pos: P,
        pos_changed: bool,
    ) -> (r: Option<HeartsUpdateAction>)
        ensures
            r == spec_update_action(
                if old(self)@.contains_key(id) {
                    Some(old(self)@[id])
                } else {
                    None
                },
                health,
                heart_ids_len,
                pos_changed,
            ),
            final(self)@ == old(self)@.insert(id, HeartsContainerData { health, pos }),
    {
        let action = match self.hearts_containers_data.get(&id) {
            Some(data) => {
                let hp_changed = health != data.health;
                let incorrect_heart_ids = heart_ids_len as u32 != heart_count(health);
                if hp_changed || incorrect_heart_ids {
                    Some(HeartsUpdateAction::Recreate)
                } else if pos_changed {
                    Some(HeartsUpdateAction::MoveTransforms)
                } else {
                    None
                }
            },
            None => Some(HeartsUpdateAction::Recreate),
        };
        self.hearts_containers_data.insert(id, HeartsContainerData { health, pos });
        action
    }
}

impl<P> Default for HeartsSystem<P> {
    /// A system that has seen no hearts container yet.
    fn default() -> (s: Self)
        ensures
            s@ == Map::<u32, HeartsContainerData<P>>::empty(),
    {
        HeartsSystem { hearts_containers_data: HashMap::new() }
    }
}

} // verus!
