use tile_overlay::color::Color;
use tile_overlay::debug::{
    spawn_debug_overlay, update_debug_overlay, write_circle_buffer, write_line_buffer, ActiveCircles,
    ActiveLines, BindGroupLayoutEntry, BindingType, BufferBindingType, DebugCircle, DebugCircleData,
    DebugLineData, DebugMaterial, DebugRect, ShaderStages, half,
};
use tile_overlay::camera_controller::CameraFollower;
use tile_overlay::math::{DVec2, Vec2, Vec3, Vec4};
use tile_overlay::world::{Entity, EntityData, Transform, World};

fn entity_at(x: i32, y: i32, z: i32) -> EntityData {
    EntityData::new(Transform::from_translation(Vec3::new(x, y, z)))
}

fn with_circle(x: i32, y: i32, color: Color, radius: i32) -> EntityData {
    let mut d = entity_at(x, y, 0);
    d.circle = Some(DebugCircle { color, radius });
    d
}

fn with_rect(x: i32, y: i32, color: Color, w: i32, h: i32) -> EntityData {
    let mut d = entity_at(x, y, 0);
    d.rect = Some(DebugRect { color, rotation: 0, size: Vec2::new(w, h) });
    d
}

#[test]
fn default_descriptors() {
    assert_eq!(DebugCircle::default(), DebugCircle { color: Color::red(), radius: 500 });
    assert_eq!(
        DebugRect::default(),
        DebugRect { color: Color::red(), rotation: 0, size: Vec2::new(1000, 1000) }
    );
}

#[test]
fn named_colours_have_full_alpha() {
    assert_eq!(Color::red().as_linear_rgba(), Vec4 { x: 1000, y: 0, z: 0, w: 1000 });
    assert_eq!(Color::green().as_linear_rgba(), Vec4 { x: 0, y: 1000, z: 0, w: 1000 });
    assert_eq!(Color::blue().as_linear_rgba(), Vec4 { x: 0, y: 0, z: 1000, w: 1000 });
    assert_eq!(Color::black().as_linear_rgba(), Vec4 { x: 0, y: 0, z: 0, w: 1000 });
}

#[test]
fn halves_round_towards_zero() {
    assert_eq!(half(900), 450);
    assert_eq!(half(901), 450);
    assert_eq!(half(-901), -450);
    assert_eq!(half(1), 0);
    assert_eq!(half(-1), 0);
    assert_eq!(half(i32::MIN), -1_073_741_824);
    assert_eq!(half(i32::MAX), 1_073_741_823);
}

#[test]
fn corners_are_half_extents_from_the_centre() {
    let r = DebugRect { color: Color::red(), rotation: 0, size: Vec2::new(2000, 1000) };
    let tf = Transform::from_translation(Vec3::new(300, -200, 50));
    assert_eq!(r.top_left(&tf), DVec2 { x: -700, y: 300 });
    assert_eq!(r.top_right(&tf), DVec2 { x: 1300, y: 300 });
    assert_eq!(r.bottom_left(&tf), DVec2 { x: -700, y: -700 });
    assert_eq!(r.bottom_right(&tf), DVec2 { x: 1300, y: -700 });
}

#[test]
fn rotation_does_not_turn_the_outline() {
    let tf = Transform::from_translation(Vec3::new(0, 0, 0));
    let plain = DebugRect { color: Color::red(), rotation: 0, size: Vec2::new(400, 200) };
    let turned = DebugRect { color: Color::red(), rotation: 1571, size: Vec2::new(400, 200) };
    assert_eq!(plain.edges(&tf), turned.edges(&tf));
}

#[test]
fn corners_at_the_ends_of_the_range_do_not_wrap() {
    let r = DebugRect { color: Color::red(), rotation: 0, size: Vec2::new(i32::MAX, i32::MAX) };
    let tf = Transform::from_translation(Vec3::new(i32::MAX, i32::MIN, 0));
    assert_eq!(r.top_right(&tf), DVec2 { x: 2_147_483_647 + 1_073_741_823, y: -2_147_483_648 + 1_073_741_823 });
    assert_eq!(r.bottom_left(&tf), DVec2 { x: 2_147_483_647 - 1_073_741_823, y: -2_147_483_648 - 1_073_741_823 });
}

#[test]
fn an_outline_is_four_edges_in_a_closed_loop() {
    let r = DebugRect { color: Color::green(), rotation: 0, size: Vec2::new(900, 500) };
    let tf = Transform::from_translation(Vec3::new(1000, 2000, 0));
    let e = r.edges(&tf);
    let tl = DVec2 { x: 550, y: 2250 };
    let tr = DVec2 { x: 1450, y: 2250 };
    let br = DVec2 { x: 1450, y: 1750 };
    let bl = DVec2 { x: 550, y: 1750 };
    let color = Vec4 { x: 0, y: 1000, z: 0, w: 1000 };
    assert_eq!(
        e,
        [
            DebugLineData { color, start: tl, end: tr },
            DebugLineData { color, start: tr, end: br },
            DebugLineData { color, start: br, end: bl },
            DebugLineData { color, start: bl, end: tl },
        ]
    );
    for k in 0..4 {
        assert_eq!(e[k].end, e[(k + 1) % 4].start);
    }
    assert_eq!(e[0].end.x - e[0].start.x, 900);
    assert_eq!(e[1].start.y - e[1].end.y, 500);
    assert_eq!(e[0].start.x + e[0].end.x, 2 * 1000);
    assert_eq!(e[1].start.y + e[1].end.y, 2 * 2000);
}

#[test]
fn the_snapshot_of_an_empty_arena_is_empty() {
    let m = update_debug_overlay(&World::new());
    assert_eq!(m.active_circles().0.len(), 0);
    assert_eq!(m.active_lines().0.len(), 0);
    assert_eq!(m, DebugMaterial::empty());
}

#[test]
fn the_snapshot_holds_one_circle_per_carrier_in_arena_order() {
    let mut world = World::new();
    world.spawn(with_circle(100, 200, Color::blue(), 250));
    world.spawn(entity_at(5, 5, 5));
    let gone = world.spawn(with_circle(7, 7, Color::red(), 1));
    let mut both = with_circle(-300, 400, Color::green(), 500);
    both.transform.translation.z = 900;
    both.rect = Some(DebugRect { color: Color::red(), rotation: 0, size: Vec2::new(2000, 1000) });
    world.spawn(both);
    world.despawn(gone);
    let m = update_debug_overlay(&world);
    assert_eq!(
        m.active_circles().0,
        vec![
            DebugCircleData {
                color: Vec4 { x: 0, y: 0, z: 1000, w: 1000 },
                center: Vec3::new(100, 200, 0),
                radius: 250
            },
            DebugCircleData {
                color: Vec4 { x: 0, y: 1000, z: 0, w: 1000 },
                center: Vec3::new(-300, 400, 900),
                radius: 500
            },
        ]
    );
    assert_eq!(m.active_lines().0.len(), 4);
    assert_eq!(m.active_lines().0[0].start, DVec2 { x: -1300, y: 900 });
    assert_eq!(m.active_lines().0[0].end, DVec2 { x: 700, y: 900 });
}

#[test]
fn the_snapshot_holds_four_lines_per_rectangle_in_arena_order() {
    let mut world = World::new();
    let a = with_rect(0, 0, Color::black(), 900, 900);
    let b = with_rect(1000, 0, Color::red(), 900, 900);
    world.spawn(a);
    world.spawn(b);
    let m = update_debug_overlay(&world);
    let lines = &m.active_lines().0;
    assert_eq!(lines.len(), 8);
    let tf_a = a.transform;
    let tf_b = b.transform;
    assert_eq!(&lines[0..4], &a.rect.unwrap().edges(&tf_a)[..]);
    assert_eq!(&lines[4..8], &b.rect.unwrap().edges(&tf_b)[..]);
    assert_eq!(m.active_circles().0.len(), 0);
}

#[test]
fn removing_a_descriptor_changes_the_next_snapshot_only() {
    let mut world = World::new();
    let first = world.spawn(with_circle(0, 0, Color::red(), 100));
    world.spawn(with_circle(10, 0, Color::blue(), 200));
    let past = update_debug_overlay(&world);
    assert_eq!(past.active_circles().0.len(), 2);
    let mut d = world.get(first).unwrap();
    d.circle = None;
    assert!(world.replace(first, d));
    let next = update_debug_overlay(&world);
    assert_eq!(next.active_circles().0.len(), 1);
    assert_eq!(next.active_circles().0[0].radius, 200);
    assert_eq!(past.active_circles().0.len(), 2);
    assert_eq!(past.active_circles().0[0].radius, 100);
}

#[test]
fn the_circle_buffer_lays_records_out_field_by_field() {
    let circles = ActiveCircles(vec![
        DebugCircleData { color: Vec4 { x: 1, y: 2, z: 3, w: 4 }, center: Vec3::new(5, 6, 7), radius: 8 },
        DebugCircleData { color: Vec4 { x: -1, y: -2, z: -3, w: -4 }, center: Vec3::new(-5, -6, -7), radius: -8 },
    ]);
    assert_eq!(write_circle_buffer(&circles), vec![1, 2, 3, 4, 5, 6, 7, 8, -1, -2, -3, -4, -5, -6, -7, -8]);
    assert_eq!(write_circle_buffer(&ActiveCircles(Vec::new())), Vec::<i64>::new());
}

#[test]
fn the_line_buffer_lays_records_out_field_by_field() {
    let lines = ActiveLines(vec![DebugLineData {
        color: Vec4 { x: 1, y: 2, z: 3, w: 4 },
        start: DVec2 { x: 5_000_000_000, y: 6 },
        end: DVec2 { x: 7, y: -8_000_000_000 },
    }]);
    assert_eq!(write_line_buffer(&lines), vec![1, 2, 3, 4, 5_000_000_000, 6, 7, -8_000_000_000]);
}

#[test]
fn a_prepared_snapshot_binds_circles_to_slot_0_and_lines_to_slot_1() {
    let mut world = World::new();
    world.spawn(with_circle(100, 200, Color::blue(), 250));
    world.spawn(with_rect(0, 0, Color::red(), 200, 100));
    let m = update_debug_overlay(&world);
    let copy = m.extract_asset();
    assert_eq!(copy, m);
    let gpu = DebugMaterial::prepare_asset(copy);
    let group = DebugMaterial::bind_group(&gpu);
    assert_eq!(group.label, "debug_material_bind_group");
    assert_eq!(group.entries.len(), 2);
    assert_eq!(group.entries[0].binding, 0);
    assert_eq!(group.entries[0].resource, vec![0, 0, 1000, 1000, 100, 200, 0, 250]);
    assert_eq!(group.entries[1].binding, 1);
    assert_eq!(
        group.entries[1].resource,
        vec![
            1000, 0, 0, 1000, -100, 50, 100, 50, //
            1000, 0, 0, 1000, 100, 50, 100, -50, //
            1000, 0, 0, 1000, 100, -50, -100, -50, //
            1000, 0, 0, 1000, -100, -50, -100, 50,
        ]
    );
}

#[test]
fn an_empty_snapshot_still_binds_both_buffers() {
    let gpu = DebugMaterial::prepare_asset(DebugMaterial::empty());
    assert_eq!(gpu.bind_group.entries.len(), 2);
    assert_eq!(gpu.bind_group.entries[0].resource, Vec::<i64>::new());
    assert_eq!(gpu.bind_group.entries[1].resource, Vec::<i64>::new());
}

#[test]
fn the_layout_has_two_read_only_storage_slots_for_the_fragment_stage() {
    let layout = DebugMaterial::bind_group_layout();
    assert_eq!(layout.label, "debug_material_layout");
    let slot = |binding: u32| BindGroupLayoutEntry {
        binding,
        visibility: ShaderStages::Fragment,
        ty: BindingType::Buffer {
            ty: BufferBindingType::Storage { read_only: true },
            has_dynamic_offset: false,
            min_binding_size: None,
        },
        count: None,
    };
    assert_eq!(layout.entries, vec![slot(0), slot(1)]);
    assert_eq!(DebugMaterial::fragment_shader(), "debug.wgsl");
}

#[test]
fn the_overlay_entity_is_a_quad_that_follows_the_camera() {
    let mut world = World::new();
    world.spawn(entity_at(1, 2, 3));
    let (e, m) = spawn_debug_overlay(&mut world);
    assert_eq!(e, Entity { index: 1 });
    let mut wanted = entity_at(0, 0, 990_000);
    wanted.follower = Some(CameraFollower);
    wanted.quad = Some(Vec2::new(16_000, 8_000));
    assert_eq!(world.get(e), Some(wanted));
    assert_eq!(m, DebugMaterial::empty());
}
