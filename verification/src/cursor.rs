//! The in-game cursor and the pointer's position in the world.

use vstd::prelude::*;
use crate::camera_controller::CAMERA_SIZE;
use crate::math::{clamp_i32, div_toward_zero, quotient, saturate, saturating_offset, Vec2, Vec3};
use crate::world::{has_single, the_single, Entity, EntityData, Marker, TextureHandle, Transform, World};

verus! {

/// Path of the cursor's texture.
pub const CURSOR_SPRITE: &'static str = "cursor.png";

/// Which cursor is shown: the game's own sprite, or the window system's.
#[derive(Clone, Copy, Debug, PartialEq, Eq, Hash, Structural)]
pub enum CursorState {
    GameCursor,
    UICursor,
}

impl CursorState {
    /// The state that the pointer's place calls for: the window system's
    /// cursor over the interface, the game's own elsewhere.
    pub open spec fn wanted(pointer_over_ui: bool) -> CursorState {
        if pointer_over_ui {
            CursorState::UICursor
        } else {
            CursorState::GameCursor
        }
    }
}

/// Marks the entity that draws the in-game cursor.
#[derive(Clone, Copy, Debug, PartialEq, Eq)]
pub struct Cursor;

/// Where the pointer is: in the world (`x`, `y`) and relative to the
/// camera (`screen_x`, `screen_y`), all in fixed-point steps.
#[derive(Clone, Copy, Debug, PartialEq, Eq)]
pub struct MousePos {
    pub x: i32,
    pub y: i32,
    pub screen_x: i32,
    pub screen_y: i32,
}

impl MousePos {
    /// The pointer at the camera's centre, with the camera at the origin.
    pub fn new() -> (m: MousePos)
        ensures
            m == (MousePos { x: 0, y: 0, screen_x: 0, screen_y: 0 }),
    {
        MousePos { x: 0, y: 0, screen_x: 0, screen_y: 0 }
    }
}

/// The camera-relative coordinate of pixel `p` on an axis of `extent`
/// pixels, in a window `height` pixels high: the distance from the middle
/// of the axis, scaled so that half the height is the camera's size.
pub open spec fn to_screen(p: int, extent: int, height: int) -> int {
    clamp_i32(div_toward_zero(4000 * (2 * p - extent), height))
}

/// See [`to_screen`].
pub fn screen_coordinate(p: i32, extent: i32, height: i32) -> (s: i32)
    requires
        height > 0,
    ensures
        s == to_screen(p as int, extent as int, height as int),
{
    let offset: i128 = 2 * (p as i128) - extent as i128;
    let size: i128 = CAMERA_SIZE as i128;
    let q: i128 = quotient(size * offset, height as i128);
    saturating_offset(0, q)
}

/// The camera-relative position after the given pointer events: that of the
/// last event, or the old one if there was none.
pub open spec fn screen_after(old_pos: MousePos, events: Seq<Vec2>, window: Vec2) -> (int, int) {
    if events.len() > 0 {
        (
            to_screen(events.last().x as int, window.x as int, window.y as int),
            to_screen(events.last().y as int, window.y as int, window.y as int),
        )
    } else {
        (old_pos.screen_x as int, old_pos.screen_y as int)
    }
}

/// The translation of the scene's only camera.
pub open spec fn camera_translation(slots: Seq<Option<EntityData>>) -> Vec3 {
    slots[the_single(slots, Marker::Camera)].unwrap().transform.translation
}

/// The pointer after the given events, with the camera at `camera`.
pub open spec fn pointer_after(old_pos: MousePos, events: Seq<Vec2>, window: Vec2, camera: Vec3) -> MousePos {
    let screen = screen_after(old_pos, events, window);
    MousePos {
        x: clamp_i32(screen.0 + camera.x) as i32,
        y: clamp_i32(screen.1 + camera.y) as i32,
        screen_x: screen.0 as i32,
        screen_y: screen.1 as i32,
    }
}

/// Takes in the frame's pointer events, each a pixel position in a window
/// of `window` pixels, and places the pointer in the world relative to the
/// camera. The scene must hold exactly one camera, and a window that
/// reports events has a positive height.
pub fn update_mouse_pos(world: &World, mouse_pos: &mut MousePos, events: &Vec<Vec2>, window: Vec2)
    requires
        has_single(world@, Marker::Camera),
        events@.len() > 0 ==> window.y > 0,
    ensures
        *final(mouse_pos) == pointer_after(*old(mouse_pos), events@, window, camera_translation(world@)),
{
    let mut i: usize = 0;
    while i < events.len()
        invariant
            i <= events@.len(),
            events@.len() > 0 ==> window.y > 0,
            mouse_pos.screen_x == screen_after(*old(mouse_pos), events@.take(i as int), window).0,
            mouse_pos.screen_y == screen_after(*old(mouse_pos), events@.take(i as int), window).1,
        decreases events@.len() - i,
    {
        let ev = events[i];
        mouse_pos.screen_x = screen_coordinate(ev.x, window.x, window.y);
        mouse_pos.screen_y = screen_coordinate(ev.y, window.y, window.y);
        assert(events@.take(i + 1).last() == ev);
        i += 1;
    }
    assert(events@.take(events@.len() as int) =~= events@);
    let camera = world.single(Marker::Camera).unwrap();
    let camera_translation = world.get(camera).unwrap().transform.translation;
    mouse_pos.x = saturate(mouse_pos.screen_x as i64 + camera_translation.x as i64);
    mouse_pos.y = saturate(mouse_pos.screen_y as i64 + camera_translation.y as i64);
}

/// The cursor entity moved to the pointer, just above the ground.
pub open spec fn cursor_at(d: EntityData, mouse_pos: MousePos) -> EntityData {
    EntityData {
        transform: Transform {
            translation: Vec3 { x: mouse_pos.x, y: mouse_pos.y, z: 100 },
            ..d.transform
        },
        ..d
    }
}

/// The arena after the scene's only cursor is moved to the pointer.
pub open spec fn cursor_placed(slots: Seq<Option<EntityData>>, mouse_pos: MousePos) -> Seq<
    Option<EntityData>,
> {
    slots.update(
        the_single(slots, Marker::Cursor),
        Some(cursor_at(slots[the_single(slots, Marker::Cursor)].unwrap(), mouse_pos)),
    )
}

/// Moves the in-game cursor to the pointer. The scene must hold exactly
/// one cursor.
pub fn place_mouse_cursor(world: &mut World, mouse_pos: &MousePos)
    requires
        has_single(old(world)@, Marker::Cursor),
    ensures
        final(world)@ == cursor_placed(old(world)@, *mouse_pos),
{
    let e = world.single(Marker::Cursor).unwrap();
    let mut d = world.get(e).unwrap();
    d.transform.translation = Vec3::new(mouse_pos.x, mouse_pos.y, 100);
    world.replace(e, d);
}

/// What the cursor entity carries at the start: it sits at the origin and
/// is drawn at a 128th of its texture's size.
pub open spec fn cursor_entity(image: TextureHandle) -> EntityData {
    EntityData {
        texture: Some(image),
        cursor: Some(Cursor),
        ..EntityData::bare(Transform::at(Vec3 { x: 0, y: 0, z: 0 }).shrunk(128))
    }
}

/// Spawns the in-game cursor at the origin.
pub fn spawn_mouse_cursor(world: &mut World, image: TextureHandle) -> (e: Entity)
    ensures
        final(world)@ == old(world)@.push(Some(cursor_entity(image))),
        e.index == old(world)@.len(),
{
    let mut d = EntityData::new(Transform::from_translation(Vec3::splat(0)).with_shrink(128));
    d.texture = Some(image);
    d.cursor = Some(Cursor);
    world.spawn(d)
}

} // verus!
