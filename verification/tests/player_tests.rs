use tile_overlay::color::Color;
use tile_overlay::cursor::{spawn_mouse_cursor, CursorState, MousePos};
use tile_overlay::debug::{DebugCircle, DebugRect};
use tile_overlay::math::{isqrt, Vec2, Vec3};
use tile_overlay::player::{
    change_cursor_state, is_hit, move_laser, move_player, on_hit_rock, push_axis, rock_coordinate,
    shoot, spawn_player, spawn_rock, spawn_some_rocks, spawn_some_rocks_on_space, to_game_cursor,
    to_ui_cursor, travel_steps, Laser, MoveKeys, Player, Rock,
};
use tile_overlay::time::Duration;
use tile_overlay::world::{Entity, EntityData, TextureHandle, Transform, World};

const IMAGE: TextureHandle = TextureHandle { id: 5 };
const NO_KEYS: MoveKeys = MoveKeys { up: false, down: false, left: false, right: false };

fn laser_at(world: &mut World, x: i32, y: i32, origin: Duration) -> Entity {
    let mut d = EntityData::new(Transform::from_translation(Vec3::new(x, y, 0)));
    d.laser = Some(Laser { lifetime: Duration::from_secs(1), origin });
    world.spawn(d)
}

fn place(world: &mut World, e: Entity, x: i32, y: i32) {
    let mut d = world.get(e).unwrap();
    d.transform.translation.x = x;
    d.transform.translation.y = y;
    assert!(world.replace(e, d));
}

#[test]
fn a_laser_lives_for_its_lifetime_and_no_longer() {
    let t0 = Duration::from_millis(5_250);
    let mut world = World::new();
    let laser = laser_at(&mut world, 0, 0, t0);
    move_laser(&mut world, Duration::from_millis(5_250 + 990), 16);
    assert!(world.get(laser).is_some());
    move_laser(&mut world, Duration::from_millis(5_250 + 1_010), 16);
    assert_eq!(world.get(laser), None);
}

#[test]
fn a_laser_is_removed_at_the_very_end_of_its_lifetime() {
    let mut world = World::new();
    let a = laser_at(&mut world, 0, 0, Duration::from_millis(2_000));
    let b = laser_at(&mut world, 0, 0, Duration::from_millis(2_001));
    move_laser(&mut world, Duration::from_millis(3_000), 0);
    assert_eq!(world.get(a), None);
    assert!(world.get(b).is_some());
    assert!(Laser { lifetime: Duration::from_secs(1), origin: Duration { secs: 1, nanos: 999_999_999 } }
        .is_expired(Duration { secs: 2, nanos: 999_999_999 }));
    assert!(!Laser { lifetime: Duration::from_secs(1), origin: Duration { secs: 1, nanos: 999_999_999 } }
        .is_expired(Duration { secs: 2, nanos: 999_999_998 }));
    assert!(!Laser { lifetime: Duration::from_secs(u64::MAX), origin: Duration::from_secs(u64::MAX) }
        .is_expired(Duration::from_secs(u64::MAX)));
}

#[test]
fn a_laser_flies_ten_units_a_second_along_its_facing() {
    let mut world = World::new();
    let up = laser_at(&mut world, 100, 200, Duration::from_secs(0));
    let mut d = EntityData::new(Transform {
        translation: Vec3::new(0, 0, 7),
        facing: Vec2::new(-600, 800),
        shrink: 64,
    });
    d.laser = Some(Laser { lifetime: Duration::from_secs(1), origin: Duration::from_secs(0) });
    let slanted = world.spawn(d);
    let bystander = world.spawn(EntityData::new(Transform::from_translation(Vec3::new(1, 1, 1))));
    move_laser(&mut world, Duration::from_millis(100), 100);
    assert_eq!(world.get(up).unwrap().transform.translation, Vec3::new(100, 1200, 0));
    assert_eq!(world.get(slanted).unwrap().transform.translation, Vec3::new(-600, 800, 7));
    assert_eq!(world.get(slanted).unwrap().transform.facing, Vec2::new(-600, 800));
    assert_eq!(world.get(slanted).unwrap().transform.shrink, 64);
    assert_eq!(world.get(bystander).unwrap().transform.translation, Vec3::new(1, 1, 1));
    move_laser(&mut world, Duration::from_millis(133), 33);
    assert_eq!(world.get(slanted).unwrap().transform.translation, Vec3::new(-600 - 198, 800 + 264, 7));
}

#[test]
fn travel_rounds_towards_zero_and_a_flight_stops_at_the_end_of_the_range() {
    assert_eq!(travel_steps(10_000, 1, 1), 0);
    assert_eq!(travel_steps(10_000, 1, -1), 0);
    assert_eq!(travel_steps(10_000, 33, 600), 198);
    assert_eq!(travel_steps(10_000, 33, -600), -198);
    assert_eq!(travel_steps(4_000, 250, 1000), 1000);
    assert_eq!(travel_steps(10_000, 1, 199), 1);
    assert_eq!(travel_steps(10_000, 1, -199), -1);
    let mut world = World::new();
    let laser = laser_at(&mut world, 0, i32::MAX - 5, Duration::from_secs(0));
    move_laser(&mut world, Duration::from_millis(1), 1);
    assert_eq!(world.get(laser).unwrap().transform.translation.y, i32::MAX);
}

#[test]
fn rocks_within_reach_of_a_laser_are_removed_with_it() {
    let mut world = World::new();
    let laser = laser_at(&mut world, 1000, 1000, Duration::from_secs(0));
    let near = spawn_rock(&mut world, 1100, 1100, IMAGE);
    let also_near = spawn_rock(&mut world, 1000, 800, IMAGE);
    let far = spawn_rock(&mut world, 1000, 1201, IMAGE);
    let idle_laser = laser_at(&mut world, -5000, -5000, Duration::from_secs(0));
    let player = spawn_player(&mut world, IMAGE);
    place(&mut world, player, 1000, 1000);
    on_hit_rock(&mut world);
    assert_eq!(world.get(laser), None);
    assert_eq!(world.get(near), None);
    assert_eq!(world.get(also_near), None);
    assert!(world.get(far).is_some());
    assert!(world.get(idle_laser).is_some());
    assert!(world.get(player).is_some());
    assert_eq!(world.len(), 6);
}

#[test]
fn the_hit_distance_is_a_fifth_of_a_unit_and_inclusive() {
    let mut laser = EntityData::new(Transform::from_translation(Vec3::new(0, 0, 0)));
    laser.laser = Some(Laser { lifetime: Duration::from_secs(1), origin: Duration::from_secs(0) });
    let rock = |x: i32, y: i32| {
        let mut d = EntityData::new(Transform::from_translation(Vec3::new(x, y, 100)));
        d.rock = Some(Rock);
        Some(d)
    };
    let laser = Some(laser);
    assert!(is_hit(&laser, &rock(200, 0)));
    assert!(is_hit(&laser, &rock(0, -200)));
    assert!(is_hit(&laser, &rock(120, 160)));
    assert!(!is_hit(&laser, &rock(121, 160)));
    assert!(!is_hit(&laser, &rock(200, 1)));
    assert!(!is_hit(&laser, &rock(142, 142)));
    assert!(is_hit(&laser, &rock(141, 141)));
    assert!(!is_hit(&rock(0, 0), &laser));
    assert!(!is_hit(&laser, &laser));
    assert!(!is_hit(&laser, &None));
    assert!(!is_hit(&None, &rock(0, 0)));
}

#[test]
fn two_lasers_on_one_rock_are_both_removed() {
    let mut world = World::new();
    let a = laser_at(&mut world, 0, 0, Duration::from_secs(0));
    let rock = spawn_rock(&mut world, 100, 0, IMAGE);
    let b = laser_at(&mut world, 200, 0, Duration::from_secs(0));
    on_hit_rock(&mut world);
    assert_eq!(world.get(a), None);
    assert_eq!(world.get(rock), None);
    assert_eq!(world.get(b), None);
}

#[test]
fn a_pass_without_lasers_removes_nothing() {
    let mut world = World::new();
    let a = spawn_rock(&mut world, 0, 0, IMAGE);
    let b = spawn_rock(&mut world, 0, 0, IMAGE);
    on_hit_rock(&mut world);
    assert!(world.get(a).is_some());
    assert!(world.get(b).is_some());
}

#[test]
fn a_batch_is_ten_rocks_around_the_origin() {
    let mut world = World::new();
    let player = spawn_player(&mut world, IMAGE);
    let before = world.get(player);
    spawn_some_rocks(&mut world, IMAGE);
    assert_eq!(world.len(), 11);
    assert_eq!(world.get(player), before);
    for i in 1..11 {
        let d = world.get(Entity { index: i }).unwrap();
        let at = d.transform.translation;
        assert!(-3000 <= at.x && at.x < 3000);
        assert!(-3000 <= at.y && at.y < 3000);
        assert_eq!(at.z, 100);
        let mut wanted = EntityData::new(Transform::from_translation(at).with_shrink(4));
        wanted.texture = Some(IMAGE);
        wanted.custom_size = Some(Vec2::new(1000, 1000));
        wanted.rock = Some(Rock);
        wanted.circle = Some(DebugCircle { color: Color::blue(), radius: 250 });
        wanted.rect = Some(DebugRect { color: Color::green(), rotation: 0, size: Vec2::new(250, 250) });
        assert_eq!(d, wanted);
    }
}

#[test]
fn rocks_come_only_when_space_was_pressed() {
    let mut world = World::new();
    spawn_some_rocks_on_space(&mut world, IMAGE, false);
    assert_eq!(world.len(), 0);
    spawn_some_rocks_on_space(&mut world, IMAGE, true);
    assert_eq!(world.len(), 10);
}

#[test]
fn a_raw_number_maps_into_six_units_around_the_origin() {
    assert_eq!(rock_coordinate(0), -3000);
    assert_eq!(rock_coordinate(5999), 2999);
    assert_eq!(rock_coordinate(6000), -3000);
    assert_eq!(rock_coordinate(3000), 0);
    assert_eq!(rock_coordinate(u32::MAX), (u32::MAX % 6000) as i32 - 3000);
}

#[test]
fn the_player_starts_at_the_origin() {
    let mut world = World::new();
    let e = spawn_player(&mut world, IMAGE);
    let mut wanted = EntityData::new(Transform::from_translation(Vec3::new(0, 0, 900)).with_shrink(16));
    wanted.texture = Some(IMAGE);
    wanted.player = Some(Player { speed: 4000 });
    wanted.circle = Some(DebugCircle { color: Color::green(), radius: 500 });
    wanted.rect = Some(DebugRect { color: Color::red(), rotation: 0, size: Vec2::new(2000, 1000) });
    assert_eq!(world.get(e), Some(wanted));
}

#[test]
fn a_shot_starts_at_the_player_and_faces_as_the_player_does() {
    let mut world = World::new();
    let player = spawn_player(&mut world, IMAGE);
    place(&mut world, player, 1500, -2500);
    let mut turned = world.get(player).unwrap();
    turned.transform.facing = Vec2::new(600, -800);
    assert!(world.replace(player, turned));
    assert_eq!(shoot(&mut world, IMAGE, false, Duration::from_secs(3)), None);
    assert_eq!(world.len(), 1);
    let shot = shoot(&mut world, IMAGE, true, Duration::from_millis(3_500)).unwrap();
    assert_eq!(shot, Entity { index: 1 });
    let mut wanted = EntityData::new(Transform {
        translation: Vec3::new(1500, -2500, 0),
        facing: Vec2::new(600, -800),
        shrink: 64,
    });
    wanted.texture = Some(IMAGE);
    wanted.laser = Some(Laser { lifetime: Duration { secs: 1, nanos: 0 }, origin: Duration { secs: 3, nanos: 500_000_000 } });
    wanted.circle = Some(DebugCircle { color: Color::blue(), radius: 200 });
    assert_eq!(world.get(shot), Some(wanted));
}

#[test]
fn the_player_walks_at_its_speed_and_faces_the_pointer() {
    let mut world = World::new();
    let player = spawn_player(&mut world, IMAGE);
    let before = world.get(player).unwrap();
    let mouse = MousePos { x: 3000, y: -1000, screen_x: 0, screen_y: 0 };
    let up = MoveKeys { up: true, ..NO_KEYS };
    move_player(&mut world, up, &mouse, 250);
    let after = world.get(player).unwrap();
    assert_eq!(after.transform.translation, Vec3::new(0, 1000, 900));
    assert_eq!(after.transform.facing, Vec2::new(832, -554));
    let mut wanted = before;
    wanted.transform = after.transform;
    assert_eq!(after, wanted);
    let down_left = MoveKeys { down: true, left: true, ..NO_KEYS };
    move_player(&mut world, down_left, &mouse, 500);
    assert_eq!(world.get(player).unwrap().transform.translation, Vec3::new(-2000, -1000, 900));
    assert_eq!(world.get(player).unwrap().transform.facing, Vec2::new(1000, 0));
    let all = MoveKeys { up: true, down: true, left: true, right: true };
    move_player(&mut world, all, &mouse, 125);
    assert_eq!(world.get(player).unwrap().transform.translation, Vec3::new(-2000, -1000, 900));
    let right = MoveKeys { right: true, ..NO_KEYS };
    move_player(&mut world, right, &MousePos { x: -2000, y: 5000, screen_x: 0, screen_y: 0 }, 1000);
    assert_eq!(world.get(player).unwrap().transform.translation, Vec3::new(2000, -1000, 900));
    assert_eq!(world.get(player).unwrap().transform.facing, Vec2::new(-554, 832));
}

#[test]
fn a_player_on_the_pointer_faces_along_the_x_axis() {
    let mut world = World::new();
    let player = spawn_player(&mut world, IMAGE);
    move_player(&mut world, NO_KEYS, &MousePos { x: 0, y: 0, screen_x: 9, screen_y: 9 }, 16);
    assert_eq!(world.get(player).unwrap().transform.facing, Vec2::new(1000, 0));
}

#[test]
fn directions_have_unit_length_up_to_rounding() {
    let o = Vec2::new(0, 0);
    assert_eq!(o.direction_to(o), Vec2::new(1000, 0));
    assert_eq!(o.direction_to(Vec2::new(3, 4)), Vec2::new(600, 800));
    assert_eq!(o.direction_to(Vec2::new(-3, 4)), Vec2::new(-600, 800));
    assert_eq!(o.direction_to(Vec2::new(1, 1)), Vec2::new(707, 707));
    assert_eq!(o.direction_to(Vec2::new(0, -7)), Vec2::new(0, -1000));
    assert_eq!(o.direction_to(Vec2::new(-1, 0)), Vec2::new(-1000, 0));
    assert_eq!(Vec2::new(10, 10).direction_to(Vec2::new(13, 14)), Vec2::new(600, 800));
    assert_eq!(
        Vec2::new(i32::MIN, i32::MIN).direction_to(Vec2::new(i32::MAX, i32::MAX)),
        Vec2::new(707, 707)
    );
    assert_eq!(Vec2::new(i32::MAX, 0).direction_to(Vec2::new(i32::MIN, 1)), Vec2::new(-1000, 0));
}

#[test]
fn whole_square_roots() {
    assert_eq!(isqrt(0), 0);
    assert_eq!(isqrt(1), 1);
    assert_eq!(isqrt(3), 1);
    assert_eq!(isqrt(4), 2);
    assert_eq!(isqrt(24), 4);
    assert_eq!(isqrt(25), 5);
    assert_eq!(isqrt(13_000_000_000_000), 3_605_551);
    assert_eq!(isqrt(u128::MAX), u64::MAX);
    assert_eq!(isqrt(u64::MAX as u128 * u64::MAX as u128 - 1), u64::MAX - 1);
}

#[test]
fn a_push_stops_at_the_ends_of_the_range() {
    assert_eq!(push_axis(i32::MAX - 10, 100, true, false), i32::MAX);
    assert_eq!(push_axis(i32::MAX - 10, 100, true, true), i32::MAX - 100);
    assert_eq!(push_axis(i32::MIN + 10, 100, false, true), i32::MIN);
    assert_eq!(push_axis(0, i128::MIN, false, true), i32::MAX);
    assert_eq!(push_axis(0, i128::MIN, true, false), i32::MIN);
    assert_eq!(push_axis(7, 5, false, false), 7);
}

#[test]
fn the_cursor_state_changes_on_an_edge_only() {
    let mut state = CursorState::GameCursor;
    assert_eq!(change_cursor_state(&mut state, false), None);
    assert_eq!(state, CursorState::GameCursor);
    assert_eq!(change_cursor_state(&mut state, true), Some(CursorState::UICursor));
    assert_eq!(state, CursorState::UICursor);
    assert_eq!(change_cursor_state(&mut state, true), None);
    assert_eq!(state, CursorState::UICursor);
    assert_eq!(change_cursor_state(&mut state, false), Some(CursorState::GameCursor));
    assert_eq!(state, CursorState::GameCursor);
}

#[test]
fn entering_a_cursor_state_swaps_the_two_cursors() {
    let mut world = World::new();
    let cursor = spawn_mouse_cursor(&mut world, IMAGE);
    assert!(to_ui_cursor(&mut world));
    assert!(!world.get(cursor).unwrap().visible);
    assert!(!to_game_cursor(&mut world));
    assert!(world.get(cursor).unwrap().visible);
    let mut wanted = EntityData::new(Transform::from_translation(Vec3::new(0, 0, 0)).with_shrink(128));
    wanted.texture = Some(IMAGE);
    wanted.cursor = Some(tile_overlay::cursor::Cursor);
    assert_eq!(world.get(cursor), Some(wanted));
}
