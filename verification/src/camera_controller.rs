//! The camera and what follows it.

use vstd::prelude::*;
use crate::math::{clamp_i32, div_toward_zero, quotient, saturating_offset, IVec2, Vec2, Vec3};
use crate::world::{has_single, the_single, Entity, EntityData, Marker, Transform, World};

verus! {

/// Half the height of the visible world, in fixed-point steps.
pub const CAMERA_SIZE: i32 = 4000;

/// How far in front of the scene the camera stands.
pub const CAMERA_HEIGHT: i32 = 999_900;

/// The bounds of an orthographic view, relative to the camera.
#[derive(Clone, Copy, Debug, PartialEq, Eq)]
pub struct Camera {
    pub top: i32,
    pub bottom: i32,
    pub right: i32,
    pub left: i32,
}

/// Marks an entity that is kept at the camera's position.
#[derive(Clone, Copy, Debug, PartialEq, Eq)]
pub struct CameraFollower;

/// Half the width of the view in a window of the given size: the camera's
/// size times the window's aspect ratio.
pub open spec fn half_view_width(window: Vec2) -> int {
    clamp_i32(div_toward_zero(4000 * window.x, window.y as int))
}

/// What the camera entity carries: a view `CAMERA_SIZE` high on either
/// side of the centre and as wide as the window's aspect ratio makes it.
pub open spec fn camera_entity(window: Vec2) -> EntityData {
    EntityData {
        camera: Some(
            Camera {
                top: 4000,
                bottom: -4000i32,
                right: half_view_width(window) as i32,
                left: clamp_i32(-half_view_width(window)) as i32,
            },
        ),
        ..EntityData::bare(Transform::at(Vec3 { x: 0, y: 0, z: 999_900 }))
    }
}

/// Spawns the camera for a window of `window` pixels, whose height is
/// positive.
pub fn spawn_camera(world: &mut World, window: Vec2) -> (e: Entity)
    requires
        window.y > 0,
    ensures
        final(world)@ == old(world)@.push(Some(camera_entity(window))),
        e.index == old(world)@.len(),
{
    let size: i128 = CAMERA_SIZE as i128;
    let half: i32 = saturating_offset(0, quotient(size * window.x as i128, window.y as i128));
    let mut d = EntityData::new(Transform::from_translation(Vec3 { x: 0, y: 0, z: CAMERA_HEIGHT }));
    d.camera = Some(
        Camera {
            top: CAMERA_SIZE,
            bottom: -CAMERA_SIZE,
            right: half,
            left: saturating_offset(0, -(half as i128)),
        },
    );
    world.spawn(d)
}

/// An entity moved to `(x, y)` at height `z`.
pub open spec fn moved_to(d: EntityData, x: i32, y: i32, z: i32) -> EntityData {
    EntityData {
        transform: Transform { translation: Vec3 { x, y, z }, ..d.transform },
        ..d
    }
}

/// The arena after the scene's only camera is put above the scene's only
/// player that is no camera.
pub open spec fn camera_over_player(slots: Seq<Option<EntityData>>) -> Seq<Option<EntityData>> {
    slots.update(
        the_single(slots, Marker::Camera),
        Some(
            moved_to(
                slots[the_single(slots, Marker::Camera)].unwrap(),
                slots[the_single(slots, Marker::PlayerNotCamera)].unwrap().transform.translation.x,
                slots[the_single(slots, Marker::PlayerNotCamera)].unwrap().transform.translation.y,
                999_900,
            ),
        ),
    )
}

/// Puts the camera above the player. The scene must hold exactly one
/// camera, and exactly one player that is no camera.
pub fn follow_player(world: &mut World)
    requires
        has_single(old(world)@, Marker::Camera),
        has_single(old(world)@, Marker::PlayerNotCamera),
    ensures
        final(world)@ == camera_over_player(old(world)@),
{
    let camera = world.single(Marker::Camera).unwrap();
    let player = world.single(Marker::PlayerNotCamera).unwrap();
    let target = world.get(player).unwrap().transform.translation;
    let mut d = world.get(camera).unwrap();
    d.transform.translation = target.xy().extend(CAMERA_HEIGHT);
    world.replace(camera, d);
}

/// A slot after the followers are moved: a follower sits where the camera
/// is and keeps its height; any other slot stays as it is.
pub open spec fn follow_slot(slot: Option<EntityData>, camera: Vec3) -> Option<EntityData> {
    match slot {
        Some(d) => if d.follower is Some {
            Some(moved_to(d, camera.x, camera.y, d.transform.translation.z))
        } else {
            slot
        },
        None => None,
    }
}

/// The arena after every follower is moved to the scene's only camera
/// that is no follower.
pub open spec fn followed(slots: Seq<Option<EntityData>>) -> Seq<Option<EntityData>> {
    Seq::new(
        slots.len(),
        |i: int|
            follow_slot(
                slots[i],
                slots[the_single(slots, Marker::CameraNotFollower)].unwrap().transform.translation,
            ),
    )
}

/// Moves every follower to the camera's position, keeping its height and
/// its facing. The scene must hold exactly one camera that is no follower.
pub fn follow_camera(world: &mut World)
    requires
        has_single(old(world)@, Marker::CameraNotFollower),
    ensures
        final(world)@ == followed(old(world)@),
{
    let camera = world.single(Marker::CameraNotFollower).unwrap();
    let at = world.get(camera).unwrap().transform.translation;
    let n: usize = world.len();
    let mut i: usize = 0;
    while i < n
        invariant
            n == old(world)@.len(),
            world@.len() == n,
            i <= n,
            forall|c: int| 0 <= c < i ==> #[trigger] world@[c] == follow_slot(old(world)@[c], at),
            forall|c: int| i <= c < n ==> world@[c] == old(world)@[c],
        decreases n - i,
    {
        let e = Entity { index: i };
        match world.get(e) {
            Some(d) => {
                if d.follower.is_some() {
                    let mut moved = d;
                    moved.transform.translation.x = at.x;
                    moved.transform.translation.y = at.y;
                    world.replace(e, moved);
                }
            },
            None => {},
        }
        i += 1;
    }
}

/// Where a window goes on a display of 2560 by 1440 pixels, and whether
/// the window system's cursor shows over it.
#[derive(Clone, Copy, Debug, PartialEq, Eq)]
pub struct WindowSetup {
    pub position: IVec2,
    pub cursor_visible: bool,
}

/// Centres a window of the given size on the display and hides the window
/// system's cursor over it.
pub fn setup(width: i32, height: i32) -> (w: WindowSetup)
    ensures
        w.position.x == div_toward_zero(2560 - width, 2),
        w.position.y == div_toward_zero(1440 - height, 2),
        !w.cursor_visible,
{
    let x: i128 = quotient(2560 - width as i128, 2);
    let y: i128 = quotient(1440 - height as i128, 2);
    WindowSetup { position: IVec2::new(x as i32, y as i32), cursor_visible: false }
}

} // verus!
