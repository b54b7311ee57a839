//! The entity arena: stable integer handles and, per handle, the components
//! that the entity carries.

use vstd::prelude::*;
use crate::camera_controller::{Camera, CameraFollower};
use crate::cursor::Cursor;
use crate::debug::{DebugCircle, DebugRect};
use crate::math::{Vec2, Vec3};
use crate::player::{Laser, Player, Rock};
use crate::tilemap::TileKind;

verus! {

/// Handle of an entity: its slot in the arena. Slots are never reused.
#[derive(Clone, Copy, Debug, PartialEq, Eq, Structural)]
pub struct Entity {
    pub index: usize,
}

/// Handle of a texture that the asset loader gave out.
#[derive(Clone, Copy, Debug, PartialEq, Eq, Structural)]
pub struct TextureHandle {
    pub id: u64,
}

/// Where an entity is, which way it faces and how small it is drawn.
/// `facing` is a direction of length [`crate::math::UNIT`]; the entity is
/// drawn at one `shrink`-th of its size.
#[derive(Clone, Copy, Debug, PartialEq, Eq)]
pub struct Transform {
    pub translation: Vec3,
    pub facing: Vec2,
    pub shrink: u32,
}

impl Transform {
    /// The direction that an unrotated entity faces.
    pub open spec fn default_facing() -> Vec2 {
        Vec2 { x: 0, y: 1000 }
    }

    /// An unrotated transform at `translation`, at full size.
    pub open spec fn at(translation: Vec3) -> Transform {
        Transform { translation, facing: Transform::default_facing(), shrink: 1 }
    }

    /// An unrotated transform at `translation`, at full size.
    pub fn from_translation(translation: Vec3) -> (t: Transform)
        ensures
            t == Transform::at(translation),
    {
        Transform { translation, facing: Vec2 { x: 0, y: 1000 }, shrink: 1 }
    }

    /// The same transform, drawn at one `shrink`-th of its size.
    pub open spec fn shrunk(self, shrink: u32) -> Transform {
        Transform { shrink, ..self }
    }

    /// The same transform, drawn at one `shrink`-th of its size.
    pub fn with_shrink(self, shrink: u32) -> (t: Transform)
        ensures
            t == self.shrunk(shrink),
    {
        Transform { translation: self.translation, facing: self.facing, shrink }
    }
}

/// Everything one entity carries. An absent component is `None`.
#[derive(Clone, Copy, Debug, PartialEq, Eq)]
pub struct EntityData {
    pub transform: Transform,
    pub texture: Option<TextureHandle>,
    pub custom_size: Option<Vec2>,
    pub visible: bool,
    pub circle: Option<DebugCircle>,
    pub rect: Option<DebugRect>,
    pub tile: Option<TileKind>,
    pub player: Option<Player>,
    pub laser: Option<Laser>,
    pub rock: Option<Rock>,
    pub cursor: Option<Cursor>,
    pub camera: Option<Camera>,
    pub follower: Option<CameraFollower>,
    pub quad: Option<Vec2>,
}

impl EntityData {
    /// A visible entity with a transform and no other component.
    pub open spec fn bare(transform: Transform) -> EntityData {
        EntityData {
            transform,
            texture: None,
            custom_size: None,
            visible: true,
            circle: None,
            rect: None,
            tile: None,
            player: None,
            laser: None,
            rock: None,
            cursor: None,
            camera: None,
            follower: None,
            quad: None,
        }
    }

    /// A visible entity with a transform and no other component.
    pub fn new(transform: Transform) -> (d: EntityData)
        ensures
            d == EntityData::bare(transform),
    {
        EntityData {
            transform,
            texture: None,
            custom_size: None,
            visible: true,
            circle: None,
            rect: None,
            tile: None,
            player: None,
            laser: None,
            rock: None,
            cursor: None,
            camera: None,
            follower: None,
            quad: None,
        }
    }
}

/// The queries by which a scene's one-of-a-kind entities are found: a
/// component that the entity has and, for some, one that it must not have.
#[derive(Clone, Copy, Debug, PartialEq, Eq)]
pub enum Marker {
    /// Any player.
    Player,
    /// Any camera.
    Camera,
    /// Any cursor.
    Cursor,
    /// A player that is no camera.
    PlayerNotCamera,
    /// A player that is no tile.
    PlayerNotTile,
    /// A camera that follows no camera.
    CameraNotFollower,
}

/// Whether a slot holds a live entity with the marked component.
pub open spec fn carries(slot: Option<EntityData>, marker: Marker) -> bool {
    match slot {
        Some(d) => match marker {
            Marker::Player => d.player is Some,
            Marker::Camera => d.camera is Some,
            Marker::Cursor => d.cursor is Some,
            Marker::PlayerNotCamera => d.player is Some && d.camera is None,
            Marker::PlayerNotTile => d.player is Some && d.tile is None,
            Marker::CameraNotFollower => d.camera is Some && d.follower is None,
        },
        None => false,
    }
}

/// Slot `i` holds the only entity with the marked component.
pub open spec fn is_single(slots: Seq<Option<EntityData>>, marker: Marker, i: int) -> bool {
    &&& 0 <= i < slots.len()
    &&& carries(slots[i], marker)
    &&& forall|j: int| 0 <= j < slots.len() && carries(#[trigger] slots[j], marker) ==> j == i
}

/// Exactly one live entity has the marked component.
pub open spec fn has_single(slots: Seq<Option<EntityData>>, marker: Marker) -> bool {
    exists|i: int| is_single(slots, marker, i)
}

/// The slot of the only entity with the marked component.
pub open spec fn the_single(slots: Seq<Option<EntityData>>, marker: Marker) -> int {
    choose|i: int| is_single(slots, marker, i)
}

/// The two arenas have the same slots live, and each live entity answers
/// every singleton query in the one as in the other.
pub open spec fn same_markers(a: Seq<Option<EntityData>>, b: Seq<Option<EntityData>>) -> bool {
    &&& a.len() == b.len()
    &&& forall|j: int, marker: Marker|
        0 <= j < a.len() ==> #[trigger] carries(a[j], marker) == carries(b[j], marker)
}

/// Between two arenas with the same markers, a singleton of the one is the
/// singleton of the other.
pub proof fn lemma_same_markers_keep_single(
    a: Seq<Option<EntityData>>,
    b: Seq<Option<EntityData>>,
    marker: Marker,
)
    requires
        same_markers(a, b),
        has_single(a, marker),
    ensures
        has_single(b, marker),
        the_single(b, marker) == the_single(a, marker),
{
    let i = the_single(a, marker);
    assert(is_single(a, marker, i));
    assert(carries(a[i], marker) == carries(b[i], marker));
    assert forall|j: int| 0 <= j < b.len() && carries(#[trigger] b[j], marker) implies j == i by {
        assert(carries(a[j], marker) == carries(b[j], marker));
    }
    assert(is_single(b, marker, i));
    let c = the_single(b, marker);
    assert(is_single(b, marker, c));
}

/// The two entities carry the same kinds of components; what the
/// components hold may differ.
pub open spec fn same_components(a: EntityData, b: EntityData) -> bool {
    &&& a.player is Some == b.player is Some
    &&& a.camera is Some == b.camera is Some
    &&& a.cursor is Some == b.cursor is Some
    &&& a.tile is Some == b.tile is Some
    &&& a.follower is Some == b.follower is Some
}

/// Replacing a live entity by one with the same kinds of components leaves
/// every singleton query with the answer it had.
pub proof fn lemma_update_keeps_markers(slots: Seq<Option<EntityData>>, i: int, d: EntityData)
    requires
        0 <= i < slots.len(),
        slots[i] is Some,
        same_components(slots[i].unwrap(), d),
    ensures
        same_markers(slots, slots.update(i, Some(d))),
        forall|marker: Marker| #[trigger]
            has_single(slots, marker) ==> has_single(slots.update(i, Some(d)), marker) && the_single(
                slots.update(i, Some(d)),
                marker,
            ) == the_single(slots, marker),
{
    let after = slots.update(i, Some(d));
    assert forall|j: int, marker: Marker| 0 <= j < slots.len() implies #[trigger] carries(
        slots[j],
        marker,
    ) == carries(after[j], marker) by {}
    assert forall|marker: Marker| #[trigger] has_single(slots, marker) implies has_single(after, marker)
        && the_single(after, marker) == the_single(slots, marker) by {
        lemma_same_markers_keep_single(slots, after, marker);
    }
}

/// The arena after the entity in slot `i` is removed.
pub open spec fn without(slots: Seq<Option<EntityData>>, i: int) -> Seq<Option<EntityData>> {
    if 0 <= i < slots.len() {
        slots.update(i, None)
    } else {
        slots
    }
}

/// The arena. Its view is the sequence of slots: `Some` for a live entity,
/// `None` for one that was despawned.
pub struct World {
    slots: Vec<Option<EntityData>>,
}

impl View for World {
    type V = Seq<Option<EntityData>>;

    closed spec fn view(&self) -> Seq<Option<EntityData>> {
        self.slots@
    }
}

impl World {
    /// An arena without entities.
    pub fn new() -> (w: World)
        ensures
            w@ == Seq::<Option<EntityData>>::empty(),
    {
        World { slots: Vec::new() }
    }

    /// Number of slots ever given out.
    pub fn len(&self) -> (n: usize)
        ensures
            n == self@.len(),
    {
        self.slots.len()
    }

    /// What the handle stands for: the entity's components while it lives.
    pub open spec fn lookup(&self, e: Entity) -> Option<EntityData> {
        if e.index < self@.len() {
            self@[e.index as int]
        } else {
            None
        }
    }

    /// The components of a live entity; `None` for a despawned or unknown
    /// handle.
    pub fn get(&self, e: Entity) -> (r: Option<EntityData>)
        ensures
            r == self.lookup(e),
    {
        if e.index < self.slots.len() {
            self.slots[e.index]
        } else {
            None
        }
    }

    /// Adds an entity in a fresh slot and returns its handle.
    pub fn spawn(&mut self, data: EntityData) -> (e: Entity)
        ensures
            final(self)@ == old(self)@.push(Some(data)),
            e.index == old(self)@.len(),
    {
        let index = self.slots.len();
        self.slots.push(Some(data));
        Entity { index }
    }

    /// Removes an entity. A despawned or unknown handle changes nothing.
    pub fn despawn(&mut self, e: Entity)
        ensures
            final(self)@ == without(old(self)@, e.index as int),
    {
        if e.index < self.slots.len() {
            self.slots.set(e.index, None);
        }
    }

    /// Replaces the components of a live entity. Returns whether the handle
    /// was live; otherwise nothing changes.
    pub fn replace(&mut self, e: Entity, data: EntityData) -> (done: bool)
        ensures
            done == (old(self).lookup(e) is Some),
            done ==> final(self)@ == old(self)@.update(e.index as int, Some(data)),
            !done ==> final(self)@ == old(self)@,
    {
        if e.index < self.slots.len() {
            if self.slots[e.index].is_some() {
                self.slots.set(e.index, Some(data));
                return true;
            }
        }
        false
    }

    /// The only entity with the marked component, if there is exactly one.
    pub fn single(&self, marker: Marker) -> (r: Option<Entity>)
        ensures
            r is Some <==> has_single(self@, marker),
            r is Some ==> r.unwrap().index as int == the_single(self@, marker),
    {
        let mut found: Option<usize> = None;
        let n: usize = self.slots.len();
        let mut i: usize = 0;
        while i < n
            invariant
                n == self@.len(),
                i <= n,
                found is None ==> forall|j: int| 0 <= j < i ==> !carries(#[trigger] self@[j], marker),
                found is Some ==> {
                    &&& found.unwrap() < i
                    &&& carries(self@[found.unwrap() as int], marker)
                    &&& forall|j: int|
                        0 <= j < i && carries(#[trigger] self@[j], marker) ==> j == found.unwrap()
                },
            decreases n - i,
        {
            if slot_carries(&self.slots[i], marker) {
                match found {
                    Some(k) => {
                        proof {
                            assert forall|c: int| !is_single(self@, marker, c) by {
                                if is_single(self@, marker, c) {
                                    assert(carries(self@[k as int], marker));
                                    assert(carries(self@[i as int], marker));
                                }
                            }
                        }
                        return None;
                    },
                    None => {
                        found = Some(i);
                    },
                }
            }
            i += 1;
        }
        match found {
            Some(k) => {
                proof {
                    assert(is_single(self@, marker, k as int));
                    let c = the_single(self@, marker);
                    assert(is_single(self@, marker, c));
                    assert(carries(self@[c], marker));
                }
                Some(Entity { index: k })
            },
            None => {
                proof {
                    assert forall|c: int| !is_single(self@, marker, c) by {
                        if is_single(self@, marker, c) {
                            assert(carries(self@[c], marker));
                        }
                    }
                }
                None
            },
        }
    }
}

/// Whether a slot holds a live entity with the marked component.
pub fn slot_carries(slot: &Option<EntityData>, marker: Marker) -> (r: bool)
    ensures
        r == carries(*slot, marker),
{
    match slot {
        Some(d) => match marker {
            Marker::Player => d.player.is_some(),
            Marker::Camera => d.camera.is_some(),
            Marker::Cursor => d.cursor.is_some(),
            Marker::PlayerNotCamera => d.player.is_some() && d.camera.is_none(),
            Marker::PlayerNotTile => d.player.is_some() && d.tile.is_none(),
            Marker::CameraNotFollower => d.camera.is_some() && d.follower.is_none(),
        },
        None => false,
    }
}

} // verus!
