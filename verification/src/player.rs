//! The player, its lasers and the rocks they hit.

use vstd::prelude::*;
use crate::color::Color;
use crate::cursor::{CursorState, MousePos};
use crate::debug::{DebugCircle, DebugRect};
use crate::math::{clamp_i32, div_toward_zero, quotient, saturating_offset, Vec2, Vec3};
use crate::time::Duration;
use crate::world::{has_single, the_single, Entity, EntityData, Marker, TextureHandle, Transform, World};

verus! {

/// The player; `speed` is in fixed-point steps per second.
#[derive(Clone, Copy, Debug, PartialEq, Eq)]
pub struct Player {
    pub speed: i32,
}

/// A projectile that lives for `lifetime` from `origin`.
#[derive(Clone, Copy, Debug, PartialEq, Eq)]
pub struct Laser {
    pub lifetime: Duration,
    pub origin: Duration,
}

impl Laser {
    /// The laser's time is up at `now`: its lifetime, counted from its
    /// origin, has passed.
    pub open spec fn expired(self, now: Duration) -> bool {
        self.lifetime.total_nanos() + self.origin.total_nanos() <= now.total_nanos()
    }

    /// Whether the laser's time is up at `now`.
    pub fn is_expired(&self, now: Duration) -> (r: bool)
        ensures
            r == self.expired(now),
    {
        now.covers(self.lifetime, self.origin)
    }
}

/// Marks a rock.
#[derive(Clone, Copy, Debug, PartialEq, Eq)]
pub struct Rock;

/// Path of the player's texture.
pub const COMPASS_SPRITE: &'static str = "compass.png";

/// Path of a laser's texture.
pub const LASER_SPRITE: &'static str = "laser.png";

/// Path of a rock's texture.
pub const ROCK_SPRITE: &'static str = "rock.png";

/// A laser's speed in world units per second.
pub const LASER_SPEED: i32 = 10;

/// Largest distance, in fixed-point steps, at which a laser hits a rock.
pub const HIT_DISTANCE: i32 = 200;

/// Rocks spawned at a time.
pub const ROCKS_PER_BATCH: usize = 10;

/// What a rock carries: it sits at `(x, y)` a little above the ground, is
/// drawn as a quarter of a unit square, and has a blue circle and a green
/// square around it.
pub open spec fn rock_entity(x: i32, y: i32, image: TextureHandle) -> EntityData {
    EntityData {
        texture: Some(image),
        custom_size: Some(Vec2 { x: 1000, y: 1000 }),
        rock: Some(Rock),
        circle: Some(DebugCircle { color: Color::blue_spec(), radius: 250 }),
        rect: Some(DebugRect { color: Color::green_spec(), rotation: 0, size: Vec2 { x: 250, y: 250 } }),
        ..EntityData::bare(Transform::at(Vec3 { x, y, z: 100 }).shrunk(4))
    }
}

/// A slot holds a rock as `rock_entity` makes it, somewhere in the square
/// that reaches three units from the origin on each axis.
pub open spec fn is_scattered_rock(slot: Option<EntityData>, image: TextureHandle) -> bool {
    &&& slot is Some
    &&& -3000 <= slot.unwrap().transform.translation.x < 3000
    &&& -3000 <= slot.unwrap().transform.translation.y < 3000
    &&& slot.unwrap() == rock_entity(
        slot.unwrap().transform.translation.x,
        slot.unwrap().transform.translation.y,
        image,
    )
}

/// The coordinate that a raw random number stands for: a step in the six
/// units around the origin.
pub fn rock_coordinate(raw: u32) -> (c: i32)
    ensures
        c == (raw % 6000) - 3000,
{
    (raw % 6000) as i32 - 3000
}

/// Draws a number with `rand::random::<u32>()`, which uses the thread's
/// generator. Nothing is claimed of the outcome.
#[verifier::external_body]
fn random_u32() -> (raw: u32) {
    rand::random::<u32>()
}

/// Spawns one rock at `(x, y)`.
pub fn spawn_rock(world: &mut World, x: i32, y: i32, image: TextureHandle) -> (e: Entity)
    ensures
        final(world)@ == old(world)@.push(Some(rock_entity(x, y, image))),
        e.index == old(world)@.len(),
{
    let mut d = EntityData::new(Transform::from_translation(Vec3 { x, y, z: 100 }).with_shrink(4));
    d.texture = Some(image);
    d.custom_size = Some(Vec2 { x: 1000, y: 1000 });
    d.rock = Some(Rock);
    d.circle = Some(DebugCircle { color: Color::blue(), radius: 250 });
    d.rect = Some(DebugRect { color: Color::green(), rotation: 0, size: Vec2 { x: 250, y: 250 } });
    world.spawn(d)
}

/// Spawns ten rocks at random places around the origin. What was in the
/// arena stays as it is.
pub fn spawn_some_rocks(world: &mut World, image: TextureHandle)
    ensures
        final(world)@.len() == old(world)@.len() + 10,
        final(world)@.take(old(world)@.len() as int) == old(world)@,
        forall|k: int|
            old(world)@.len() <= k < final(world)@.len() ==> is_scattered_rock(
                #[trigger] final(world)@[k],
                image,
            ),
{
    let ghost base = world@.len() as int;
    let mut i: usize = 0;
    assert(world@.take(base) =~= world@);
    while i < ROCKS_PER_BATCH
        invariant
            i <= ROCKS_PER_BATCH,
            base == old(world)@.len(),
            world@.len() == base + i,
            world@.take(base) == old(world)@,
            forall|k: int| base <= k < world@.len() ==> is_scattered_rock(#[trigger] world@[k], image),
        decreases ROCKS_PER_BATCH - i,
    {
        let x = rock_coordinate(random_u32());
        let y = rock_coordinate(random_u32());
        let ghost before = world@;
        spawn_rock(world, x, y, image);
        assert(world@.take(base) =~= before.take(base));
        i += 1;
    }
}

/// Spawns a batch of rocks when the space key was just pressed, and
/// nothing otherwise.
pub fn spawn_some_rocks_on_space(world: &mut World, image: TextureHandle, space_just_pressed: bool)
    ensures
        !space_just_pressed ==> final(world)@ == old(world)@,
        space_just_pressed ==> final(world)@.len() == old(world)@.len() + 10,
        final(world)@.take(old(world)@.len() as int) == old(world)@,
        forall|k: int|
            old(world)@.len() <= k < final(world)@.len() ==> is_scattered_rock(
                #[trigger] final(world)@[k],
                image,
            ),
{
    if space_just_pressed {
        spawn_some_rocks(world, image);
    } else {
    }
}

/// Whether a slot holds a live laser.
pub open spec fn is_laser(slot: Option<EntityData>) -> bool {
    slot is Some && slot.unwrap().laser is Some
}

/// Whether a slot holds a live rock.
pub open spec fn is_rock(slot: Option<EntityData>) -> bool {
    slot is Some && slot.unwrap().rock is Some
}

/// `a` holds a laser and `b` a rock no further from it than the hit
/// distance.
pub open spec fn hits(a: Option<EntityData>, b: Option<EntityData>) -> bool {
    &&& is_laser(a)
    &&& is_rock(b)
    &&& a.unwrap().transform.translation.xy_spec().within_distance(
        b.unwrap().transform.translation.xy_spec(),
        HIT_DISTANCE as int,
    )
}

/// Slot `i` holds a laser that hits some rock, or a rock that some laser
/// hits.
pub open spec fn struck(slots: Seq<Option<EntityData>>, i: int) -> bool {
    exists|j: int| 0 <= j < slots.len() && #[trigger] collide(slots, i, j)
}

/// The entities in slots `i` and `j` are a laser and a rock in reach of one
/// another, in either order.
pub open spec fn collide(slots: Seq<Option<EntityData>>, i: int, j: int) -> bool {
    hits(slots[i], slots[j]) || hits(slots[j], slots[i])
}

/// The arena after every struck laser and rock is removed.
pub open spec fn after_hits(slots: Seq<Option<EntityData>>) -> Seq<Option<EntityData>> {
    Seq::new(
        slots.len(),
        |i: int|
            if struck(slots, i) {
                None
            } else {
                slots[i]
            },
    )
}

/// Whether `a` holds a laser and `b` a rock in its reach.
pub fn is_hit(a: &Option<EntityData>, b: &Option<EntityData>) -> (r: bool)
    ensures
        r == hits(*a, *b),
{
    match a {
        Some(laser) => match b {
            Some(rock) => {
                laser.laser.is_some() && rock.rock.is_some()
                    && laser.transform.translation.xy().is_within_distance(
                    rock.transform.translation.xy(),
                    HIT_DISTANCE,
                )
            },
            None => false,
        },
        None => false,
    }
}

/// Removes every laser that is within the hit distance of a rock, and every
/// rock that is within the hit distance of a laser. All pairs are judged by
/// where the entities were when the pass began.
pub fn on_hit_rock(world: &mut World)
    ensures
        final(world)@ == after_hits(old(world)@),
{
    let n: usize = world.len();
    let mut doomed: Vec<bool> = Vec::new();
    let mut i: usize = 0;
    while i < n
        invariant
            n == world@.len(),
            world@ == old(world)@,
            i <= n,
            doomed@.len() == i,
            forall|k: int| 0 <= k < i ==> #[trigger] doomed@[k] == struck(world@, k),
        decreases n - i,
    {
        let a = world.get(Entity { index: i });
        let mut found: bool = false;
        let mut j: usize = 0;
        while j < n
            invariant
                n == world@.len(),
                i < n,
                j <= n,
                a == world@[i as int],
                found == exists|jj: int| 0 <= jj < j && #[trigger] collide(world@, i as int, jj),
            decreases n - j,
        {
            let b = world.get(Entity { index: j });
            if is_hit(&a, &b) || is_hit(&b, &a) {
                assert(collide(world@, i as int, j as int));
                found = true;
            }
            j += 1;
        }
        doomed.push(found);
        i += 1;
    }
    let mut k: usize = 0;
    while k < n
        invariant
            n == old(world)@.len(),
            world@.len() == n,
            k <= n,
            doomed@.len() == n,
            forall|c: int| 0 <= c < n ==> #[trigger] doomed@[c] == struck(old(world)@, c),
            forall|c: int| 0 <= c < k ==> world@[c] == after_hits(old(world)@)[c],
            forall|c: int| k <= c < n ==> world@[c] == old(world)@[c],
        decreases n - k,
    {
        if doomed[k] {
            world.despawn(Entity { index: k });
        }
        k += 1;
    }
}

/// Every entity within the hit distance of a laser, if it is a rock, is
/// removed by the next pass, and so is the laser.
pub proof fn lemma_hit_removes_both(slots: Seq<Option<EntityData>>, laser: int, rock: int)
    requires
        0 <= laser < slots.len(),
        0 <= rock < slots.len(),
        hits(slots[laser], slots[rock]),
    ensures
        after_hits(slots)[laser] is None,
        after_hits(slots)[rock] is None,
{
    assert(collide(slots, laser, rock));
    assert(collide(slots, rock, laser));
}

/// An entity that is neither a laser nor a rock is never removed by a
/// collision pass.
pub proof fn lemma_bystander_survives(slots: Seq<Option<EntityData>>, i: int)
    requires
        0 <= i < slots.len(),
        !is_laser(slots[i]),
        !is_rock(slots[i]),
    ensures
        after_hits(slots)[i] == slots[i],
{
}

/// What the player carries at the start: it sits at the origin just under
/// the overlay, is drawn at a sixteenth of its texture's size, and has a
/// green circle and a red rectangle around it.
pub open spec fn player_entity(image: TextureHandle) -> EntityData {
    EntityData {
        texture: Some(image),
        player: Some(Player { speed: 4000 }),
        circle: Some(DebugCircle { color: Color::green_spec(), radius: 500 }),
        rect: Some(DebugRect { color: Color::red_spec(), rotation: 0, size: Vec2 { x: 2000, y: 1000 } }),
        ..EntityData::bare(Transform::at(Vec3 { x: 0, y: 0, z: 900 }).shrunk(16))
    }
}

/// Spawns the player.
pub fn spawn_player(world: &mut World, image: TextureHandle) -> (e: Entity)
    ensures
        final(world)@ == old(world)@.push(Some(player_entity(image))),
        e.index == old(world)@.len(),
{
    let mut d = EntityData::new(
        Transform::from_translation(Vec3 { x: 0, y: 0, z: 900 }).with_shrink(16),
    );
    d.texture = Some(image);
    d.player = Some(Player { speed: 4000 });
    d.circle = Some(DebugCircle { color: Color::green(), radius: 500 });
    d.rect = Some(DebugRect { color: Color::red(), rotation: 0, size: Vec2 { x: 2000, y: 1000 } });
    world.spawn(d)
}

/// What a laser carries when it is shot at `now` by a shooter with the
/// given transform: it starts at the shooter's position on the ground,
/// faces the same way, is drawn at a 64th of its texture's size, lives one
/// second and has a blue circle around it.
pub open spec fn laser_entity(shooter: Transform, image: TextureHandle, now: Duration) -> EntityData {
    EntityData {
        texture: Some(image),
        laser: Some(Laser { lifetime: Duration { secs: 1, nanos: 0 }, origin: now }),
        circle: Some(DebugCircle { color: Color::blue_spec(), radius: 200 }),
        ..EntityData::bare(
            Transform {
                translation: Vec3 { x: shooter.translation.x, y: shooter.translation.y, z: 0 },
                facing: shooter.facing,
                shrink: 64,
            },
        )
    }
}

/// The transform of the scene's only player.
pub open spec fn player_transform(slots: Seq<Option<EntityData>>) -> Transform {
    slots[the_single(slots, Marker::Player)].unwrap().transform
}

/// Shoots a laser from the player when the left button was just pressed,
/// and does nothing otherwise. A shot needs exactly one player.
pub fn shoot(world: &mut World, image: TextureHandle, left_just_pressed: bool, now: Duration) -> (shot:
    Option<Entity>)
    requires
        left_just_pressed ==> has_single(old(world)@, Marker::Player),
    ensures
        !left_just_pressed ==> shot is None && final(world)@ == old(world)@,
        left_just_pressed ==> shot == Some(Entity { index: old(world)@.len() as usize })
            && final(world)@ == old(world)@.push(
            Some(laser_entity(player_transform(old(world)@), image, now)),
        ),
{
    if !left_just_pressed {
        return None;
    }
    let player = world.single(Marker::Player).unwrap();
    let transform = world.get(player).unwrap().transform;
    let mut d = EntityData::new(
        Transform {
            translation: transform.translation.xy().extend(0),
            facing: transform.facing,
            shrink: 64,
        },
    );
    d.texture = Some(image);
    d.laser = Some(Laser { lifetime: Duration::from_secs(1), origin: now });
    d.circle = Some(DebugCircle { color: Color::blue(), radius: 200 });
    Some(world.spawn(d))
}

/// How far, in fixed-point steps, something moves along one axis in
/// `delta_millis` milliseconds at `speed` steps per second while it faces
/// `facing` thousandths along that axis.
pub open spec fn travel(speed: int, delta_millis: int, facing: int) -> int {
    div_toward_zero(speed * delta_millis * facing, 1_000_000)
}

/// A laser after `delta_millis` milliseconds of flight along its facing.
pub open spec fn flown(d: EntityData, delta_millis: u32) -> EntityData {
    EntityData {
        transform: Transform {
            translation: Vec3 {
                x: clamp_i32(
                    d.transform.translation.x + travel(10_000, delta_millis as int, d.transform.facing.x as int),
                ) as i32,
                y: clamp_i32(
                    d.transform.translation.y + travel(10_000, delta_millis as int, d.transform.facing.y as int),
                ) as i32,
                z: d.transform.translation.z,
            },
            ..d.transform
        },
        ..d
    }
}

/// A slot after the lasers' step: a laser whose time is up is gone, any
/// other laser has flown on, and what is no laser stays as it is.
pub open spec fn laser_step(slot: Option<EntityData>, now: Duration, delta_millis: u32) -> Option<
    EntityData,
> {
    if is_laser(slot) {
        if slot.unwrap().laser.unwrap().expired(now) {
            None
        } else {
            Some(flown(slot.unwrap(), delta_millis))
        }
    } else {
        slot
    }
}

/// Distance travelled along one axis; see [`travel`].
pub fn travel_steps(speed: i32, delta_millis: u32, facing: i32) -> (t: i128)
    ensures
        t == travel(speed as int, delta_millis as int, facing as int),
{
    let s: i128 = speed as i128;
    let d: i128 = delta_millis as i128;
    let f: i128 = facing as i128;
    assert(-0x8000_0000 * 0x1_0000_0000 <= s * d <= 0x8000_0000 * 0x1_0000_0000) by (nonlinear_arith)
        requires
            -0x8000_0000 <= s <= 0x8000_0000,
            0 <= d <= 0x1_0000_0000,
    ;
    let sd: i128 = s * d;
    assert(-0x8000_0000 * 0x1_0000_0000 * 0x8000_0000 <= sd * f <= 0x8000_0000 * 0x1_0000_0000
        * 0x8000_0000) by (nonlinear_arith)
        requires
            -0x8000_0000 * 0x1_0000_0000 <= sd <= 0x8000_0000 * 0x1_0000_0000,
            -0x8000_0000 <= f <= 0x8000_0000,
    ;
    quotient(sd * f, 1_000_000)
}

/// Moves every laser along its facing at ten units per second, and removes
/// each laser whose lifetime has passed at `now`.
pub fn move_laser(world: &mut World, now: Duration, delta_millis: u32)
    ensures
        final(world)@.len() == old(world)@.len(),
        forall|i: int|
            0 <= i < old(world)@.len() ==> #[trigger] final(world)@[i] == laser_step(
                old(world)@[i],
                now,
                delta_millis,
            ),
{
    let n: usize = world.len();
    let mut i: usize = 0;
    while i < n
        invariant
            n == old(world)@.len(),
            world@.len() == n,
            i <= n,
            forall|c: int|
                0 <= c < i ==> #[trigger] world@[c] == laser_step(old(world)@[c], now, delta_millis),
            forall|c: int| i <= c < n ==> world@[c] == old(world)@[c],
        decreases n - i,
    {
        let e = Entity { index: i };
        match world.get(e) {
            Some(d) => {
                match d.laser {
                    Some(laser) => {
                        if laser.is_expired(now) {
                            world.despawn(e);
                        } else {
                            let mut moved = d;
                            moved.transform.translation.x = saturating_offset(
                                d.transform.translation.x,
                                travel_steps(LASER_SPEED * 1000, delta_millis, d.transform.facing.x),
                            );
                            moved.transform.translation.y = saturating_offset(
                                d.transform.translation.y,
                                travel_steps(LASER_SPEED * 1000, delta_millis, d.transform.facing.y),
                            );
                            world.replace(e, moved);
                        }
                    },
                    None => {},
                }
            },
            None => {},
        }
        i += 1;
    }
}

/// Which of the movement keys are held down.
#[derive(Clone, Copy, Debug, PartialEq, Eq)]
pub struct MoveKeys {
    pub up: bool,
    pub down: bool,
    pub left: bool,
    pub right: bool,
}

/// `v` moved by `step` forwards if `forward` is held and backwards if
/// `backward` is held, in that order, stopping at the ends of the range.
pub open spec fn pushed(v: int, step: int, forward: bool, backward: bool) -> int {
    let after_forward = if forward {
        clamp_i32(v + step)
    } else {
        v
    };
    if backward {
        clamp_i32(after_forward - step)
    } else {
        after_forward
    }
}

/// The player after `delta_millis` milliseconds with the given keys held:
/// moved along each axis by the keys, then turned to face the pointer.
pub open spec fn walked(d: EntityData, keys: MoveKeys, mouse_pos: MousePos, delta_millis: u32) -> EntityData {
    let step = travel(d.player.unwrap().speed as int, delta_millis as int, 1000);
    let x = pushed(d.transform.translation.x as int, step, keys.right, keys.left);
    let y = pushed(d.transform.translation.y as int, step, keys.up, keys.down);
    EntityData {
        transform: Transform {
            translation: Vec3 { x: x as i32, y: y as i32, z: d.transform.translation.z },
            facing: (Vec2 { x: x as i32, y: y as i32 }).direction_to_spec(
                Vec2 { x: mouse_pos.x, y: mouse_pos.y },
            ),
            shrink: d.transform.shrink,
        },
        ..d
    }
}

/// The arena after the scene's only player has walked and turned.
pub open spec fn walked_scene(
    slots: Seq<Option<EntityData>>,
    keys: MoveKeys,
    mouse_pos: MousePos,
    delta_millis: u32,
) -> Seq<Option<EntityData>> {
    slots.update(
        the_single(slots, Marker::Player),
        Some(walked(slots[the_single(slots, Marker::Player)].unwrap(), keys, mouse_pos, delta_millis)),
    )
}

/// Moves `v` as [`pushed`] says.
pub fn push_axis(v: i32, step: i128, forward: bool, backward: bool) -> (r: i32)
    ensures
        r == pushed(v as int, step as int, forward, backward),
{
    let mut r: i32 = v;
    if forward {
        r = saturating_offset(r, step);
    }
    if backward {
        r = if step == i128::MIN {
            i32::MAX
        } else {
            saturating_offset(r, -step)
        };
    }
    r
}

/// Moves the player by the held keys at its speed: up and down along y,
/// right and left along x. Then turns it to face the pointer. The scene
/// must hold exactly one player.
pub fn move_player(world: &mut World, keys: MoveKeys, mouse_pos: &MousePos, delta_millis: u32)
    requires
        has_single(old(world)@, Marker::Player),
    ensures
        final(world)@ == walked_scene(old(world)@, keys, *mouse_pos, delta_millis),
{
    let e = world.single(Marker::Player).unwrap();
    let d = world.get(e).unwrap();
    let step = travel_steps(d.player.unwrap().speed, delta_millis, 1000);
    let mut moved = d;
    moved.transform.translation.x = push_axis(d.transform.translation.x, step, keys.right, keys.left);
    moved.transform.translation.y = push_axis(d.transform.translation.y, step, keys.up, keys.down);
    moved.transform.facing = moved.transform.translation.xy().direction_to(
        Vec2::new(mouse_pos.x, mouse_pos.y),
    );
    world.replace(e, moved);
}

/// Picks the cursor state that the pointer's place calls for. Returns the
/// state that was entered, or `None` on a frame where the state stays as it
/// was.
pub fn change_cursor_state(cursor_state: &mut CursorState, pointer_over_ui: bool) -> (entered: Option<
    CursorState,
>)
    ensures
        *final(cursor_state) == CursorState::wanted(pointer_over_ui),
        entered == if CursorState::wanted(pointer_over_ui) != *old(cursor_state) {
            Some(CursorState::wanted(pointer_over_ui))
        } else {
            None
        },
{
    let new_state = if pointer_over_ui {
        CursorState::UICursor
    } else {
        CursorState::GameCursor
    };
    if new_state != *cursor_state {
        *cursor_state = new_state;
        Some(new_state)
    } else {
        None
    }
}

/// The arena with the scene's only cursor shown or hidden.
pub open spec fn with_cursor_shown(slots: Seq<Option<EntityData>>, shown: bool) -> Seq<
    Option<EntityData>,
> {
    slots.update(
        the_single(slots, Marker::Cursor),
        Some(EntityData { visible: shown, ..slots[the_single(slots, Marker::Cursor)].unwrap() }),
    )
}

/// Shows or hides the scene's only cursor.
fn show_cursor(world: &mut World, shown: bool)
    requires
        has_single(old(world)@, Marker::Cursor),
    ensures
        final(world)@ == with_cursor_shown(old(world)@, shown),
{
    let e = world.single(Marker::Cursor).unwrap();
    let mut d = world.get(e).unwrap();
    d.visible = shown;
    world.replace(e, d);
}

/// Enters the game-cursor state: shows the in-game cursor and returns
/// whether the window system's cursor is to show, which it is not. The
/// scene must hold exactly one cursor.
pub fn to_game_cursor(world: &mut World) -> (window_cursor_visible: bool)
    requires
        has_single(old(world)@, Marker::Cursor),
    ensures
        final(world)@ == with_cursor_shown(old(world)@, true),
        !window_cursor_visible,
{
    show_cursor(world, true);
    false
}

/// Enters the interface-cursor state: hides the in-game cursor and returns
/// whether the window system's cursor is to show, which it is. The scene
/// must hold exactly one cursor.
pub fn to_ui_cursor(world: &mut World) -> (window_cursor_visible: bool)
    requires
        has_single(old(world)@, Marker::Cursor),
    ensures
        final(world)@ == with_cursor_shown(old(world)@, false),
        window_cursor_visible,
{
    show_cursor(world, false);
    true
}

} // verus!
