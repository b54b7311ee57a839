//! A frame's stages in their fixed order.

use vstd::prelude::*;
use crate::camera_controller::{
    camera_over_player, follow_camera, follow_player, follow_slot, followed, moved_to,
};
use crate::cursor::{
    camera_translation, cursor_at, cursor_placed, place_mouse_cursor, pointer_after, update_mouse_pos,
    MousePos,
};
use crate::debug::{
    circle_records, holds_buffers, line_records, update_debug_overlay, DebugMaterial, GpuDebugMaterial,
};
use crate::math::Vec2;
use crate::player::{move_player, walked, walked_scene, MoveKeys};
use crate::tilemap::{
    handles_from, highlighted, player_xy, reconciled, red_if_occupied, update_tiles, Tile, TileMap,
    TileSprites,
};
use crate::world::{
    carries, has_single, is_single, lemma_same_markers_keep_single, lemma_update_keeps_markers,
    same_markers, the_single, Entity, EntityData, Marker, World,
};

verus! {

/// Reconciling neither removes nor adds a player that is no tile: if the
/// scene holds exactly one before, it holds the same one after, where it
/// was.
pub proof fn lemma_reconcile_keeps_player(
    slots: Seq<Option<EntityData>>,
    live: Seq<Entity>,
    pending: Seq<Tile>,
    sprites: TileSprites,
)
    requires
        has_single(slots, Marker::PlayerNotTile),
    ensures
        has_single(reconciled(slots, live, pending, sprites), Marker::PlayerNotTile),
        the_single(reconciled(slots, live, pending, sprites), Marker::PlayerNotTile) == the_single(
            slots,
            Marker::PlayerNotTile,
        ),
        player_xy(reconciled(slots, live, pending, sprites)) == player_xy(slots),
{
    let after = reconciled(slots, live, pending, sprites);
    let i = the_single(slots, Marker::PlayerNotTile);
    assert(is_single(slots, Marker::PlayerNotTile, i));
    assert(after[i] == slots[i]);
    assert forall|j: int|
        0 <= j < after.len() && carries(#[trigger] after[j], Marker::PlayerNotTile) implies j == i by {
        if j < slots.len() {
            assert(carries(slots[j], Marker::PlayerNotTile));
        }
    }
    assert(is_single(after, Marker::PlayerNotTile, i));
    let c = the_single(after, Marker::PlayerNotTile);
    assert(is_single(after, Marker::PlayerNotTile, c));
}

/// Moving the followers changes where entities are and nothing else: every
/// singleton query finds what it found before.
pub proof fn lemma_follow_keeps_markers(slots: Seq<Option<EntityData>>)
    ensures
        same_markers(slots, followed(slots)),
{
    let after = followed(slots);
    assert forall|j: int, marker: Marker| 0 <= j < slots.len() implies #[trigger] carries(
        slots[j],
        marker,
    ) == carries(after[j], marker) by {
        let at = slots[the_single(slots, Marker::CameraNotFollower)].unwrap().transform.translation;
        assert(after[j] == follow_slot(slots[j], at));
    }
}

/// The arena after the overlay's stages: the followers are at the camera,
/// the tile model is reconciled, and every tile is highlighted against the
/// player's position.
pub open spec fn after_overlay_stages(
    slots: Seq<Option<EntityData>>,
    live: Seq<Entity>,
    pending: Seq<Tile>,
    sprites: TileSprites,
) -> Seq<Option<EntityData>> {
    let grid = reconciled(followed(slots), live, pending, sprites);
    highlighted(grid, player_xy(grid))
}

/// Runs the overlay's stages of one frame in the order in which each needs
/// the one before: the overlay is moved to the camera, the tile model is
/// reconciled, every tile is highlighted against the player's position, the
/// snapshot is taken of the arena as it then is, and the snapshot is laid
/// out in the two buffers. The scene must hold exactly one camera that is
/// no follower, and exactly one player that is no tile.
pub fn run_overlay_stages(world: &mut World, tilemap: &mut TileMap, sprites: &TileSprites) -> (gpu:
    GpuDebugMaterial)
    requires
        has_single(old(world)@, Marker::CameraNotFollower),
        has_single(old(world)@, Marker::PlayerNotTile),
    ensures
        final(world)@ == after_overlay_stages(
            old(world)@,
            old(tilemap).live(),
            old(tilemap).pending(),
            *sprites,
        ),
        final(tilemap).live() == old(tilemap).live() + handles_from(
            old(world)@.len() as int,
            old(tilemap).pending().len(),
        ),
        final(tilemap).pending() == Seq::<Tile>::empty(),
        holds_buffers(gpu, circle_records(final(world)@), line_records(final(world)@)),
{
    proof {
        lemma_follow_keeps_markers(old(world)@);
        lemma_same_markers_keep_single(old(world)@, followed(old(world)@), Marker::PlayerNotTile);
        lemma_reconcile_keeps_player(
            followed(old(world)@),
            old(tilemap).live(),
            old(tilemap).pending(),
            *sprites,
        );
    }
    follow_camera(world);
    update_tiles(world, tilemap, sprites);
    red_if_occupied(world);
    let snapshot = update_debug_overlay(world);
    DebugMaterial::prepare_asset(snapshot)
}

/// What the devices report for one frame.
#[derive(Debug, PartialEq, Eq)]
pub struct Tick {
    /// The movement keys that are held down.
    pub keys: MoveKeys,
    /// The pointer's pixel positions since the last frame, oldest first.
    pub pointer_events: Vec<Vec2>,
    /// The window's width and height in pixels.
    pub window: Vec2,
    /// Milliseconds since the last frame.
    pub delta_millis: u32,
}

/// The scene holds each of the one-of-a-kind entities that a frame looks
/// up: a player, a camera and a cursor, the player being no camera and no
/// tile and the camera no follower.
pub open spec fn scene_ready(slots: Seq<Option<EntityData>>) -> bool {
    &&& has_single(slots, Marker::Player)
    &&& has_single(slots, Marker::Camera)
    &&& has_single(slots, Marker::Cursor)
    &&& has_single(slots, Marker::PlayerNotCamera)
    &&& has_single(slots, Marker::PlayerNotTile)
    &&& has_single(slots, Marker::CameraNotFollower)
}

/// Whether a frame can run on the scene; see [`scene_ready`].
pub fn is_scene_ready(world: &World) -> (ready: bool)
    ensures
        ready == scene_ready(world@),
{
    world.single(Marker::Player).is_some() && world.single(Marker::Camera).is_some() && world.single(
        Marker::Cursor,
    ).is_some() && world.single(Marker::PlayerNotCamera).is_some() && world.single(
        Marker::PlayerNotTile,
    ).is_some() && world.single(Marker::CameraNotFollower).is_some()
}

/// The arena after the player has walked and the camera has gone above it.
pub open spec fn after_movement(slots: Seq<Option<EntityData>>, mouse_pos: MousePos, tick: Tick) -> Seq<
    Option<EntityData>,
> {
    camera_over_player(walked_scene(slots, tick.keys, mouse_pos, tick.delta_millis))
}

/// The pointer after the frame's events, relative to the camera where the
/// frame's movement has put it.
pub open spec fn pointer_in_frame(slots: Seq<Option<EntityData>>, mouse_pos: MousePos, tick: Tick) -> MousePos {
    pointer_after(
        mouse_pos,
        tick.pointer_events@,
        tick.window,
        camera_translation(after_movement(slots, mouse_pos, tick)),
    )
}

/// Runs one frame's stages in their fixed order: the player walks and turns
/// towards where the pointer was, the camera goes above the player, the
/// pointer is placed relative to the camera and the cursor moved to it, and
/// then the overlay's stages run as [`run_overlay_stages`] has them. The
/// scene must be ready, and a window that reports pointer events has a
/// positive height.
pub fn run_frame(
    world: &mut World,
    tilemap: &mut TileMap,
    sprites: &TileSprites,
    mouse_pos: &mut MousePos,
    tick: &Tick,
) -> (gpu: GpuDebugMaterial)
    requires
        scene_ready(old(world)@),
        tick.pointer_events@.len() > 0 ==> tick.window.y > 0,
    ensures
        *final(mouse_pos) == pointer_in_frame(old(world)@, *old(mouse_pos), *tick),
        final(world)@ == after_overlay_stages(
            cursor_placed(after_movement(old(world)@, *old(mouse_pos), *tick), *final(mouse_pos)),
            old(tilemap).live(),
            old(tilemap).pending(),
            *sprites,
        ),
        final(tilemap).live() == old(tilemap).live() + handles_from(
            old(world)@.len() as int,
            old(tilemap).pending().len(),
        ),
        final(tilemap).pending() == Seq::<Tile>::empty(),
        holds_buffers(gpu, circle_records(final(world)@), line_records(final(world)@)),
{
    proof {
        let w0 = old(world)@;
        let p = the_single(w0, Marker::Player);
        assert(is_single(w0, Marker::Player, p));
        lemma_update_keeps_markers(
            w0,
            p,
            walked(w0[p].unwrap(), tick.keys, *old(mouse_pos), tick.delta_millis),
        );
    }
    move_player(world, tick.keys, mouse_pos, tick.delta_millis);
    proof {
        let w1 = world@;
        let c = the_single(w1, Marker::Camera);
        let q = the_single(w1, Marker::PlayerNotCamera);
        assert(is_single(w1, Marker::Camera, c));
        lemma_update_keeps_markers(
            w1,
            c,
            moved_to(
                w1[c].unwrap(),
                w1[q].unwrap().transform.translation.x,
                w1[q].unwrap().transform.translation.y,
                999_900,
            ),
        );
    }
    follow_player(world);
    update_mouse_pos(world, mouse_pos, &tick.pointer_events, tick.window);
    proof {
        let w2 = world@;
        let k = the_single(w2, Marker::Cursor);
        assert(is_single(w2, Marker::Cursor, k));
        lemma_update_keeps_markers(w2, k, cursor_at(w2[k].unwrap(), *mouse_pos));
    }
    place_mouse_cursor(world, mouse_pos);
    run_overlay_stages(world, tilemap, sprites)
}

} // verus!
