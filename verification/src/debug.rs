//! The debug overlay: circle and rectangle descriptors on entities, the
//! per-frame snapshot of all of them, and the buffers that the overlay
//! shader reads.

use vstd::prelude::*;
use crate::camera_controller::{CameraFollower, CAMERA_SIZE};
use crate::color::Color;
use crate::math::{DVec2, Vec2, Vec3, Vec4};
use crate::world::{EntityData, Transform, World, Entity};

verus! {

/// Half of `v`, rounded towards zero.
pub open spec fn half_spec(v: int) -> int {
    if v >= 0 {
        v / 2
    } else {
        -((-v) / 2)
    }
}

/// Half of `v`, rounded towards zero.
pub fn half(v: i32) -> (h: i64)
    ensures
        h == half_spec(v as int),
{
    if v >= 0 {
        (v / 2) as i64
    } else {
        -((-(v as i64)) / 2)
    }
}

/// A circle drawn around the entity's position.
#[derive(Clone, Copy, Debug, PartialEq, Eq)]
pub struct DebugCircle {
    pub color: Color,
    pub radius: i32,
}

impl DebugCircle {
    /// A red circle of half a unit.
    pub open spec fn default_spec() -> DebugCircle {
        DebugCircle { color: Color::red_spec(), radius: 500 }
    }
}

impl Default for DebugCircle {
    fn default() -> (c: DebugCircle)
        ensures
            c == DebugCircle::default_spec(),
    {
        DebugCircle { color: Color::red(), radius: 500 }
    }
}

/// One circle as the overlay shader reads it.
#[derive(Clone, Copy, Debug, PartialEq, Eq)]
pub struct DebugCircleData {
    pub color: Vec4,
    pub center: Vec3,
    pub radius: i32,
}

/// An outlined rectangle centred on the entity's position. `rotation` is
/// carried along but the outline is always axis-aligned.
#[derive(Clone, Copy, Debug, PartialEq, Eq)]
pub struct DebugRect {
    pub color: Color,
    pub rotation: i32,
    pub size: Vec2,
}

impl Default for DebugRect {
    fn default() -> (r: DebugRect)
        ensures
            r == DebugRect::default_spec(),
    {
        DebugRect { color: Color::red(), rotation: 0, size: Vec2 { x: 1000, y: 1000 } }
    }
}

impl DebugRect {
    /// An unrotated red square of one unit.
    pub open spec fn default_spec() -> DebugRect {
        DebugRect { color: Color::red_spec(), rotation: 0, size: Vec2 { x: 1000, y: 1000 } }
    }

    /// Half the width, rounded towards zero.
    pub open spec fn half_width(&self) -> int {
        half_spec(self.size.x as int)
    }

    /// Half the height, rounded towards zero.
    pub open spec fn half_height(&self) -> int {
        half_spec(self.size.y as int)
    }

    /// The corner at `sx` half-widths and `sy` half-heights from the centre,
    /// each of them 1 or -1.
    pub open spec fn corner(&self, tf: &Transform, sx: int, sy: int) -> DVec2 {
        DVec2 {
            x: (tf.translation.x + sx * self.half_width()) as i64,
            y: (tf.translation.y + sy * self.half_height()) as i64,
        }
    }

    pub open spec fn top_left_spec(&self, tf: &Transform) -> DVec2 {
        self.corner(tf, -1, 1)
    }

    pub open spec fn top_right_spec(&self, tf: &Transform) -> DVec2 {
        self.corner(tf, 1, 1)
    }

    pub open spec fn bottom_left_spec(&self, tf: &Transform) -> DVec2 {
        self.corner(tf, -1, -1)
    }

    pub open spec fn bottom_right_spec(&self, tf: &Transform) -> DVec2 {
        self.corner(tf, 1, -1)
    }

    #[verifier::when_used_as_spec(top_left_spec)]
    pub fn top_left(&self, tf: &Transform) -> (p: DVec2)
        ensures
            p == self.top_left_spec(tf),
            p.x == tf.translation.x - self.half_width(),
            p.y == tf.translation.y + self.half_height(),
    {
        DVec2 {
            x: tf.translation.x as i64 - half(self.size.x),
            y: tf.translation.y as i64 + half(self.size.y),
        }
    }

    #[verifier::when_used_as_spec(top_right_spec)]
    pub fn top_right(&self, tf: &Transform) -> (p: DVec2)
        ensures
            p == self.top_right_spec(tf),
            p.x == tf.translation.x + self.half_width(),
            p.y == tf.translation.y + self.half_height(),
    {
        DVec2 {
            x: tf.translation.x as i64 + half(self.size.x),
            y: tf.translation.y as i64 + half(self.size.y),
        }
    }

    #[verifier::when_used_as_spec(bottom_left_spec)]
    pub fn bottom_left(&self, tf: &Transform) -> (p: DVec2)
        ensures
            p == self.bottom_left_spec(tf),
            p.x == tf.translation.x - self.half_width(),
            p.y == tf.translation.y - self.half_height(),
    {
        DVec2 {
            x: tf.translation.x as i64 - half(self.size.x),
            y: tf.translation.y as i64 - half(self.size.y),
        }
    }

    #[verifier::when_used_as_spec(bottom_right_spec)]
    pub fn bottom_right(&self, tf: &Transform) -> (p: DVec2)
        ensures
            p == self.bottom_right_spec(tf),
            p.x == tf.translation.x + self.half_width(),
            p.y == tf.translation.y - self.half_height(),
    {
        DVec2 {
            x: tf.translation.x as i64 + half(self.size.x),
            y: tf.translation.y as i64 - half(self.size.y),
        }
    }

    /// The outline as four edges, clockwise from the top-left corner.
    pub open spec fn edges_spec(&self, tf: &Transform) -> Seq<DebugLineData> {
        seq![
            DebugLineData {
                color: self.color.channels(),
                start: self.top_left_spec(tf),
                end: self.top_right_spec(tf),
            },
            DebugLineData {
                color: self.color.channels(),
                start: self.top_right_spec(tf),
                end: self.bottom_right_spec(tf),
            },
            DebugLineData {
                color: self.color.channels(),
                start: self.bottom_right_spec(tf),
                end: self.bottom_left_spec(tf),
            },
            DebugLineData {
                color: self.color.channels(),
                start: self.bottom_left_spec(tf),
                end: self.top_left_spec(tf),
            },
        ]
    }

    /// The outline as four edges, clockwise from the top-left corner.
    pub fn edges(&self, tf: &Transform) -> (lines: [DebugLineData; 4])
        ensures
            lines@ == self.edges_spec(tf),
    {
        let color = self.color.as_linear_rgba();
        let tl = self.top_left(tf);
        let tr = self.top_right(tf);
        let br = self.bottom_right(tf);
        let bl = self.bottom_left(tf);
        let lines = [
            DebugLineData { color, start: tl, end: tr },
            DebugLineData { color, start: tr, end: br },
            DebugLineData { color, start: br, end: bl },
            DebugLineData { color, start: bl, end: tl },
        ];
        lines
    }
}

/// One line segment as the overlay shader reads it.
#[derive(Clone, Copy, Debug, PartialEq, Eq)]
pub struct DebugLineData {
    pub color: Vec4,
    pub start: DVec2,
    pub end: DVec2,
}

/// The circle records of one frame, in arena order.
#[derive(Debug, PartialEq, Eq)]
pub struct ActiveCircles(pub Vec<DebugCircleData>);

/// The line records of one frame, in arena order.
#[derive(Debug, PartialEq, Eq)]
pub struct ActiveLines(pub Vec<DebugLineData>);

impl View for ActiveCircles {
    type V = Seq<DebugCircleData>;

    open spec fn view(&self) -> Seq<DebugCircleData> {
        self.0@
    }
}

impl View for ActiveLines {
    type V = Seq<DebugLineData>;

    open spec fn view(&self) -> Seq<DebugLineData> {
        self.0@
    }
}

/// Whether a slot holds a live entity with a circle descriptor.
pub open spec fn has_circle(slot: Option<EntityData>) -> bool {
    slot is Some && slot.unwrap().circle is Some
}

/// Whether a slot holds a live entity with a rectangle descriptor.
pub open spec fn has_rect(slot: Option<EntityData>) -> bool {
    slot is Some && slot.unwrap().rect is Some
}

/// The record of an entity's circle: centre at the entity, colour and radius
/// as given.
pub open spec fn circle_record(d: EntityData) -> DebugCircleData {
    DebugCircleData {
        color: d.circle.unwrap().color.channels(),
        center: d.transform.translation,
        radius: d.circle.unwrap().radius,
    }
}

/// One record per live entity with a circle, in arena order.
pub open spec fn circle_records(slots: Seq<Option<EntityData>>) -> Seq<DebugCircleData>
    decreases slots.len(),
{
    if slots.len() == 0 {
        Seq::empty()
    } else if has_circle(slots.last()) {
        circle_records(slots.drop_last()).push(circle_record(slots.last().unwrap()))
    } else {
        circle_records(slots.drop_last())
    }
}

/// Four records per live entity with a rectangle, in arena order.
pub open spec fn line_records(slots: Seq<Option<EntityData>>) -> Seq<DebugLineData>
    decreases slots.len(),
{
    if slots.len() == 0 {
        Seq::empty()
    } else if has_rect(slots.last()) {
        line_records(slots.drop_last()) + slots.last().unwrap().rect.unwrap().edges_spec(
            &slots.last().unwrap().transform,
        )
    } else {
        line_records(slots.drop_last())
    }
}

/// Number of slots for which `has_circle` holds.
pub open spec fn circle_count(slots: Seq<Option<EntityData>>) -> nat {
    slots.filter(|s: Option<EntityData>| has_circle(s)).len()
}

/// Number of slots for which `has_rect` holds.
pub open spec fn rect_count(slots: Seq<Option<EntityData>>) -> nat {
    slots.filter(|s: Option<EntityData>| has_rect(s)).len()
}

/// The snapshot of one frame: every circle and every rectangle edge that is
/// to be drawn. It is built whole and never changed afterwards.
#[derive(Debug, PartialEq, Eq)]
pub struct DebugMaterial {
    active_circles: ActiveCircles,
    active_lines: ActiveLines,
}

impl DebugMaterial {
    /// The circle records.
    pub closed spec fn circles(&self) -> Seq<DebugCircleData> {
        self.active_circles@
    }

    /// The line records.
    pub closed spec fn lines(&self) -> Seq<DebugLineData> {
        self.active_lines@
    }

    /// A snapshot without records.
    pub fn empty() -> (m: DebugMaterial)
        ensures
            m.circles() == Seq::<DebugCircleData>::empty(),
            m.lines() == Seq::<DebugLineData>::empty(),
    {
        DebugMaterial {
            active_circles: ActiveCircles(Vec::new()),
            active_lines: ActiveLines(Vec::new()),
        }
    }

    /// The circle records.
    pub fn active_circles(&self) -> (c: &ActiveCircles)
        ensures
            c@ == self.circles(),
    {
        &self.active_circles
    }

    /// The line records.
    pub fn active_lines(&self) -> (l: &ActiveLines)
        ensures
            l@ == self.lines(),
    {
        &self.active_lines
    }
}

/// Builds the frame's snapshot from every live entity that carries a circle
/// or a rectangle.
pub fn update_debug_overlay(world: &World) -> (m: DebugMaterial)
    ensures
        m.circles() == circle_records(world@),
        m.lines() == line_records(world@),
{
    let mut circles: Vec<DebugCircleData> = Vec::new();
    let mut lines: Vec<DebugLineData> = Vec::new();
    let n: usize = world.len();
    let mut i: usize = 0;
    while i < n
        invariant
            n == world@.len(),
            i <= n,
            circles@ == circle_records(world@.take(i as int)),
            lines@ == line_records(world@.take(i as int)),
        decreases n - i,
    {
        proof {
            let next = world@.take(i + 1);
            assert(next.drop_last() =~= world@.take(i as int));
            assert(next.last() == world@[i as int]);
        }
        match world.get(Entity { index: i }) {
            Some(d) => {
                match d.circle {
                    Some(c) => {
                        circles.push(
                            DebugCircleData {
                                color: c.color.as_linear_rgba(),
                                center: d.transform.translation,
                                radius: c.radius,
                            },
                        );
                    },
                    None => {},
                }
                match d.rect {
                    Some(r) => {
                        let e = r.edges(&d.transform);
                        let ghost before = lines@;
                        lines.push(e[0]);
                        lines.push(e[1]);
                        lines.push(e[2]);
                        lines.push(e[3]);
                        assert(lines@ =~= before + r.edges_spec(&d.transform));
                    },
                    None => {},
                }
            },
            None => {},
        }
        i += 1;
    }
    assert(world@.take(n as int) =~= world@);
    DebugMaterial { active_circles: ActiveCircles(circles), active_lines: ActiveLines(lines) }
}

/// The snapshot holds one circle record per live entity that carries a
/// circle descriptor, and four line records per live entity that carries a
/// rectangle descriptor.
pub proof fn lemma_record_counts(slots: Seq<Option<EntityData>>)
    ensures
        circle_records(slots).len() == circle_count(slots),
        line_records(slots).len() == 4 * rect_count(slots),
    decreases slots.len(),
{
    reveal(Seq::filter);
    if slots.len() > 0 {
        lemma_record_counts(slots.drop_last());
    }
}

/// The arena after the entity in slot `i` loses its circle descriptor.
pub open spec fn without_circle(slots: Seq<Option<EntityData>>, i: int) -> Seq<
    Option<EntityData>,
> {
    slots.update(i, Some(EntityData { circle: None, ..slots[i].unwrap() }))
}

/// Taking the circle descriptor off one entity leaves the next snapshot with
/// one circle record fewer and the same line records. A snapshot built
/// before is a value of its own and keeps its records.
pub proof fn lemma_circle_removed(slots: Seq<Option<EntityData>>, i: int)
    requires
        0 <= i < slots.len(),
        has_circle(slots[i]),
    ensures
        circle_records(without_circle(slots, i)).len() == circle_records(slots).len() - 1,
        line_records(without_circle(slots, i)) == line_records(slots),
    decreases slots.len(),
{
    let after = without_circle(slots, i);
    if i == slots.len() - 1 {
        assert(after.drop_last() =~= slots.drop_last());
    } else {
        assert(after.drop_last() =~= without_circle(slots.drop_last(), i));
        assert(after.last() == slots.last());
        lemma_circle_removed(slots.drop_last(), i);
    }
}

/// A rectangle's outline is four edges that form a closed loop, each edge
/// ending where the next begins. The top and bottom edges are horizontal and
/// the side edges vertical. The loop is centred on the entity and is twice
/// the half-width wide and twice the half-height high, which is the
/// rectangle's size wherever that size is even.
pub proof fn lemma_outline_is_centred_loop(rect: DebugRect, tf: Transform)
    ensures
        rect.edges_spec(&tf).len() == 4,
        forall|k: int|
            0 <= k < 4 ==> (#[trigger] rect.edges_spec(&tf)[k]).end == rect.edges_spec(&tf)[(k + 1)
                % 4].start,
        forall|k: int| 0 <= k < 4 ==> (#[trigger] rect.edges_spec(&tf)[k]).color == rect.color.channels(),
        rect.edges_spec(&tf)[0].start.y == rect.edges_spec(&tf)[0].end.y,
        rect.edges_spec(&tf)[2].start.y == rect.edges_spec(&tf)[2].end.y,
        rect.edges_spec(&tf)[1].start.x == rect.edges_spec(&tf)[1].end.x,
        rect.edges_spec(&tf)[3].start.x == rect.edges_spec(&tf)[3].end.x,
        rect.edges_spec(&tf)[0].end.x - rect.edges_spec(&tf)[0].start.x == 2 * rect.half_width(),
        rect.edges_spec(&tf)[1].start.y - rect.edges_spec(&tf)[1].end.y == 2 * rect.half_height(),
        rect.edges_spec(&tf)[0].start.x + rect.edges_spec(&tf)[0].end.x == 2 * tf.translation.x,
        rect.edges_spec(&tf)[1].start.y + rect.edges_spec(&tf)[1].end.y == 2 * tf.translation.y,
        rect.size.x % 2 == 0 ==> 2 * rect.half_width() == rect.size.x,
        rect.size.y % 2 == 0 ==> 2 * rect.half_height() == rect.size.y,
{
}

/// Which shader stages may read a binding.
#[derive(Clone, Copy, Debug, PartialEq, Eq, Structural)]
pub enum ShaderStages {
    Vertex,
    Fragment,
    Compute,
}

/// How a buffer is bound.
#[derive(Clone, Copy, Debug, PartialEq, Eq)]
pub enum BufferBindingType {
    Uniform,
    Storage { read_only: bool },
}

/// What a binding slot holds.
#[derive(Clone, Copy, Debug, PartialEq, Eq)]
pub enum BindingType {
    Buffer { ty: BufferBindingType, has_dynamic_offset: bool, min_binding_size: Option<u64> },
}

/// One slot of a bind group layout.
#[derive(Clone, Copy, Debug, PartialEq, Eq)]
pub struct BindGroupLayoutEntry {
    pub binding: u32,
    pub visibility: ShaderStages,
    pub ty: BindingType,
    pub count: Option<u32>,
}

/// The slots that the overlay shader declares.
#[derive(Debug, PartialEq, Eq)]
pub struct BindGroupLayout {
    pub label: &'static str,
    pub entries: Vec<BindGroupLayoutEntry>,
}

/// A storage buffer bound to a slot. The buffer holds fixed-point scalars in
/// the order in which the shader's record layout has them.
#[derive(Debug, PartialEq, Eq)]
pub struct BindGroupEntry {
    pub binding: u32,
    pub resource: Vec<i64>,
}

/// The buffers of one frame, by slot.
#[derive(Debug, PartialEq, Eq)]
pub struct BindGroup {
    pub label: &'static str,
    pub entries: Vec<BindGroupEntry>,
}

/// A snapshot made ready for the overlay shader.
#[derive(Debug, PartialEq, Eq)]
pub struct GpuDebugMaterial {
    pub bind_group: BindGroup,
}

/// The slot of the circle buffer.
pub const CIRCLE_BINDING: u32 = 0;

/// The slot of the line buffer.
pub const LINE_BINDING: u32 = 1;

/// The scalars of one circle record, in layout order.
pub open spec fn circle_scalars(c: DebugCircleData) -> Seq<i64> {
    seq![
        c.color.x as i64,
        c.color.y as i64,
        c.color.z as i64,
        c.color.w as i64,
        c.center.x as i64,
        c.center.y as i64,
        c.center.z as i64,
        c.radius as i64,
    ]
}

/// The scalars of one line record, in layout order.
pub open spec fn line_scalars(l: DebugLineData) -> Seq<i64> {
    seq![
        l.color.x as i64,
        l.color.y as i64,
        l.color.z as i64,
        l.color.w as i64,
        l.start.x,
        l.start.y,
        l.end.x,
        l.end.y,
    ]
}

/// The circle buffer: the records' scalars one record after the other.
pub open spec fn circle_buffer(circles: Seq<DebugCircleData>) -> Seq<i64> {
    Seq::new(8 * circles.len(), |k: int| circle_scalars(circles[k / 8])[k % 8])
}

/// The line buffer: the records' scalars one record after the other.
pub open spec fn line_buffer(lines: Seq<DebugLineData>) -> Seq<i64> {
    Seq::new(8 * lines.len(), |k: int| line_scalars(lines[k / 8])[k % 8])
}

/// Lays the circle records out as the circle buffer.
pub fn write_circle_buffer(circles: &ActiveCircles) -> (buffer: Vec<i64>)
    ensures
        buffer@ == circle_buffer(circles@),
{
    let mut buffer: Vec<i64> = Vec::new();
    let n: usize = circles.0.len();
    let mut i: usize = 0;
    while i < n
        invariant
            n == circles@.len(),
            i <= n,
            buffer@.len() == 8 * i,
            forall|k: int|
                0 <= k < 8 * i ==> #[trigger] buffer@[k] == circle_scalars(circles@[k / 8])[k % 8],
        decreases n - i,
    {
        let c = circles.0[i];
        buffer.push(c.color.x as i64);
        buffer.push(c.color.y as i64);
        buffer.push(c.color.z as i64);
        buffer.push(c.color.w as i64);
        buffer.push(c.center.x as i64);
        buffer.push(c.center.y as i64);
        buffer.push(c.center.z as i64);
        buffer.push(c.radius as i64);
        i += 1;
    }
    buffer
}

/// Lays the line records out as the line buffer.
pub fn write_line_buffer(lines: &ActiveLines) -> (buffer: Vec<i64>)
    ensures
        buffer@ == line_buffer(lines@),
{
    let mut buffer: Vec<i64> = Vec::new();
    let n: usize = lines.0.len();
    let mut i: usize = 0;
    while i < n
        invariant
            n == lines@.len(),
            i <= n,
            buffer@.len() == 8 * i,
            forall|k: int|
                0 <= k < 8 * i ==> #[trigger] buffer@[k] == line_scalars(lines@[k / 8])[k % 8],
        decreases n - i,
    {
        let l = lines.0[i];
        buffer.push(l.color.x as i64);
        buffer.push(l.color.y as i64);
        buffer.push(l.color.z as i64);
        buffer.push(l.color.w as i64);
        buffer.push(l.start.x);
        buffer.push(l.start.y);
        buffer.push(l.end.x);
        buffer.push(l.end.y);
        i += 1;
    }
    buffer
}

/// The prepared snapshot binds exactly two buffers: the circle records'
/// scalars to slot 0 and the line records' scalars to slot 1.
pub open spec fn holds_buffers(
    gpu: GpuDebugMaterial,
    circles: Seq<DebugCircleData>,
    lines: Seq<DebugLineData>,
) -> bool {
    &&& gpu.bind_group.label@ == "debug_material_bind_group"@
    &&& gpu.bind_group.entries@.len() == 2
    &&& gpu.bind_group.entries@[0].binding == 0
    &&& gpu.bind_group.entries@[0].resource@ == circle_buffer(circles)
    &&& gpu.bind_group.entries@[1].binding == 1
    &&& gpu.bind_group.entries@[1].resource@ == line_buffer(lines)
}

/// A read-only storage buffer that only the fragment stage sees.
pub open spec fn fragment_storage_slot(binding: u32) -> BindGroupLayoutEntry {
    BindGroupLayoutEntry {
        binding,
        visibility: ShaderStages::Fragment,
        ty: BindingType::Buffer {
            ty: BufferBindingType::Storage { read_only: true },
            has_dynamic_offset: false,
            min_binding_size: None,
        },
        count: None,
    }
}

impl DebugMaterial {
    /// A copy of the snapshot for the render stage.
    pub fn extract_asset(&self) -> (copy: DebugMaterial)
        ensures
            copy.circles() == self.circles(),
            copy.lines() == self.lines(),
    {
        let mut circles: Vec<DebugCircleData> = Vec::new();
        let mut i: usize = 0;
        while i < self.active_circles.0.len()
            invariant
                i <= self.active_circles.0@.len(),
                circles@ == self.active_circles.0@.take(i as int),
            decreases self.active_circles.0@.len() - i,
        {
            circles.push(self.active_circles.0[i]);
            i += 1;
        }
        let mut lines: Vec<DebugLineData> = Vec::new();
        let mut k: usize = 0;
        while k < self.active_lines.0.len()
            invariant
                k <= self.active_lines.0@.len(),
                lines@ == self.active_lines.0@.take(k as int),
            decreases self.active_lines.0@.len() - k,
        {
            lines.push(self.active_lines.0[k]);
            k += 1;
        }
        DebugMaterial { active_circles: ActiveCircles(circles), active_lines: ActiveLines(lines) }
    }

    /// Builds the frame's buffers from the snapshot and binds the circle
    /// buffer to slot 0 and the line buffer to slot 1. Both buffers are
    /// built anew on every call.
    pub fn prepare_asset(material: DebugMaterial) -> (gpu: GpuDebugMaterial)
        ensures
            holds_buffers(gpu, material.circles(), material.lines()),
    {
        let circle_storage = write_circle_buffer(&material.active_circles);
        let line_storage = write_line_buffer(&material.active_lines);
        let mut entries: Vec<BindGroupEntry> = Vec::new();
        entries.push(BindGroupEntry { binding: CIRCLE_BINDING, resource: circle_storage });
        entries.push(BindGroupEntry { binding: LINE_BINDING, resource: line_storage });
        GpuDebugMaterial { bind_group: BindGroup { label: "debug_material_bind_group", entries } }
    }

    /// Path of the overlay's fragment shader.
    pub fn fragment_shader() -> (path: &'static str)
        ensures
            path@ == "debug.wgsl"@,
    {
        "debug.wgsl"
    }

    /// The bind group of a prepared snapshot.
    pub fn bind_group(asset: &GpuDebugMaterial) -> (group: &BindGroup)
        ensures
            *group == asset.bind_group,
    {
        &asset.bind_group
    }

    /// The layout that the overlay shader declares: slots 0 and 1, each a
    /// read-only storage buffer visible to the fragment stage alone.
    pub fn bind_group_layout() -> (layout: BindGroupLayout)
        ensures
            layout.label@ == "debug_material_layout"@,
            layout.entries@ == seq![fragment_storage_slot(0), fragment_storage_slot(1)],
    {
        let mut entries: Vec<BindGroupLayoutEntry> = Vec::new();
        entries.push(
            BindGroupLayoutEntry {
                binding: CIRCLE_BINDING,
                visibility: ShaderStages::Fragment,
                ty: BindingType::Buffer {
                    ty: BufferBindingType::Storage { read_only: true },
                    has_dynamic_offset: false,
                    min_binding_size: None,
                },
                count: None,
            },
        );
        entries.push(
            BindGroupLayoutEntry {
                binding: LINE_BINDING,
                visibility: ShaderStages::Fragment,
                ty: BindingType::Buffer {
                    ty: BufferBindingType::Storage { read_only: true },
                    has_dynamic_offset: false,
                    min_binding_size: None,
                },
                count: None,
            },
        );
        BindGroupLayout { label: "debug_material_layout", entries }
    }
}

/// Size of the overlay's quad: wide and high enough to cover the view.
pub open spec fn overlay_quad() -> Vec2 {
    Vec2 { x: 16000, y: 8000 }
}

/// What the overlay entity carries: a quad far in front of the scene that
/// follows the camera.
pub open spec fn overlay_entity() -> EntityData {
    EntityData {
        follower: Some(CameraFollower),
        quad: Some(overlay_quad()),
        ..EntityData::bare(Transform::at(Vec3 { x: 0, y: 0, z: 990_000 }))
    }
}

/// Spawns the overlay entity and returns it with the empty snapshot that it
/// starts with.
pub fn spawn_debug_overlay(world: &mut World) -> (r: (Entity, DebugMaterial))
    ensures
        final(world)@ == old(world)@.push(Some(overlay_entity())),
        r.0.index == old(world)@.len(),
        r.1.circles() == Seq::<DebugCircleData>::empty(),
        r.1.lines() == Seq::<DebugLineData>::empty(),
{
    let mut d = EntityData::new(Transform::from_translation(Vec3 { x: 0, y: 0, z: 990_000 }));
    d.follower = Some(CameraFollower);
    d.quad = Some(Vec2::new(CAMERA_SIZE * 4, CAMERA_SIZE * 2));
    let e = world.spawn(d);
    (e, DebugMaterial::empty())
}

} // verus!
