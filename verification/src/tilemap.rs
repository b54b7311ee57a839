//! The tile grid: staged tiles, the tile entities that render them, and the
//! highlight of the tile that the player stands on.

use vstd::prelude::*;
use crate::color::Color;
use crate::debug::DebugRect;
use crate::math::{abs_diff, clamp_i32, saturate, IVec2, Vec2, Vec3};
use crate::world::{has_single, the_single, Entity, EntityData, Marker, TextureHandle, Transform, World};

verus! {

/// What a tile is made of.
#[derive(Clone, Copy, Debug, Hash, PartialEq, Eq, Structural)]
pub enum TileKind {
    Stone,
    Water,
    Grass,
    Wall,
}

impl TileKind {
    /// Path of the kind's texture. Kinds without a texture of their own use
    /// the grass texture.
    pub open spec fn sprite_path(self) -> Seq<char> {
        match self {
            TileKind::Stone => "stone.png"@,
            _ => "grass.png"@,
        }
    }

    /// Path of the kind's texture.
    pub fn get_sprite(&self) -> (path: &'static str)
        ensures
            path@ == self.sprite_path(),
    {
        match self {
            TileKind::Grass => "grass.png",
            TileKind::Stone => "stone.png",
            _ => "grass.png",
        }
    }
}

/// A table from numbers to numbers, kept in a `bevy::utils::HashMap`.
#[verifier::external_body]
pub struct SpriteTable {
    map: bevy::utils::HashMap<u64, u64>,
}

/// What a table holds: the value under each key that it has.
pub uninterp spec fn table_contents(table: SpriteTable) -> Map<u64, u64>;

/// The contents of a table that holds nothing.
pub open spec fn no_entries() -> Map<u64, u64> {
    Map::empty()
}

/// Makes a table with `bevy::utils::HashMap::default()`, which holds
/// nothing.
#[verifier::external_body]
fn table_new() -> (table: SpriteTable)
    ensures
        table_contents(table) == no_entries(),
{
    SpriteTable { map: bevy::utils::HashMap::default() }
}

/// Calls `HashMap::insert`: afterwards the table holds `value` under `key`,
/// in place of what it held there, and everything else as before.
#[verifier::external_body]
fn table_insert(table: &mut SpriteTable, key: u64, value: u64)
    ensures
        table_contents(*final(table)) == table_contents(*old(table)).insert(key, value),
{
    table.map.insert(key, value);
}

/// Calls `HashMap::get`: the value that the table holds under `key`, if it
/// holds one.
#[verifier::external_body]
fn table_get(table: &SpriteTable, key: u64) -> (value: Option<u64>)
    ensures
        value == if table_contents(*table).contains_key(key) {
            Some(table_contents(*table)[key])
        } else {
            None::<u64>
        },
{
    table.map.get(&key).copied()
}

/// The number under which a kind's texture is kept.
pub open spec fn kind_index(kind: TileKind) -> u64 {
    match kind {
        TileKind::Stone => 0,
        TileKind::Water => 1,
        TileKind::Grass => 2,
        TileKind::Wall => 3,
    }
}

/// The number under which a kind's texture is kept.
pub fn index_of(kind: TileKind) -> (i: u64)
    ensures
        i == kind_index(kind),
{
    match kind {
        TileKind::Stone => 0,
        TileKind::Water => 1,
        TileKind::Grass => 2,
        TileKind::Wall => 3,
    }
}

/// The textures of the tile kinds, loaded once and not changed afterwards.
/// Stone and grass have a texture of their own; the grass texture stands in
/// for every kind without one.
pub struct TileSprites {
    sprites: SpriteTable,
    fallback: TextureHandle,
}

impl TileSprites {
    /// The texture ids by kind index.
    pub closed spec fn table(&self) -> Map<u64, u64> {
        table_contents(self.sprites)
    }

    /// The texture that stands in for a kind without one.
    pub closed spec fn fallback(&self) -> TextureHandle {
        self.fallback
    }

    /// The texture that the kind is mapped to, if any.
    pub open spec fn mapped(&self, kind: TileKind) -> Option<TextureHandle> {
        if self.table().contains_key(kind_index(kind)) {
            Some(TextureHandle { id: self.table()[kind_index(kind)] })
        } else {
            None
        }
    }

    /// The texture to draw the kind with: its own, or else the fallback.
    pub open spec fn texture(&self, kind: TileKind) -> TextureHandle {
        match self.mapped(kind) {
            Some(t) => t,
            None => self.fallback(),
        }
    }

    /// Maps stone and grass to the given textures and nothing else; the
    /// grass texture is the fallback.
    pub fn new(stone: TextureHandle, grass: TextureHandle) -> (s: TileSprites)
        ensures
            s.table() == no_entries().insert(0, stone.id).insert(2, grass.id),
            s.fallback() == grass,
            s.mapped(TileKind::Stone) == Some(stone),
            s.mapped(TileKind::Grass) == Some(grass),
            s.mapped(TileKind::Water) is None,
            s.mapped(TileKind::Wall) is None,
    {
        let mut sprites = table_new();
        table_insert(&mut sprites, index_of(TileKind::Stone), stone.id);
        table_insert(&mut sprites, index_of(TileKind::Grass), grass.id);
        TileSprites { sprites, fallback: grass }
    }

    /// The texture that the kind is mapped to, if any.
    pub fn get(&self, kind: TileKind) -> (r: Option<TextureHandle>)
        ensures
            r == self.mapped(kind),
    {
        match table_get(&self.sprites, index_of(kind)) {
            Some(id) => Some(TextureHandle { id }),
            None => None,
        }
    }

    /// The texture to draw the kind with; never fails.
    pub fn sprite(&self, kind: TileKind) -> (t: TextureHandle)
        ensures
            t == self.texture(kind),
    {
        match self.get(kind) {
            Some(t) => t,
            None => self.fallback,
        }
    }
}

/// A staged tile: where it goes and what it is made of.
#[derive(Clone, Copy, Debug, PartialEq, Eq)]
pub struct Tile {
    pub pos: IVec2,
    pub kind: TileKind,
}

/// What a tile's render entity carries: it sits at the tile's coordinate,
/// shows the kind's texture as a unit square and has a black outline a
/// little smaller than the tile.
pub open spec fn tile_entity(tile: Tile, sprites: TileSprites) -> EntityData {
    EntityData {
        texture: Some(sprites.texture(tile.kind)),
        custom_size: Some(Vec2 { x: 1000, y: 1000 }),
        tile: Some(tile.kind),
        rect: Some(DebugRect { color: Color::black_spec(), rotation: 0, size: Vec2 { x: 900, y: 900 } }),
        ..EntityData::bare(
            Transform::at(
                Vec3 {
                    x: clamp_i32(tile.pos.x * 1000) as i32,
                    y: clamp_i32(tile.pos.y * 1000) as i32,
                    z: 0,
                },
            ),
        )
    }
}

/// Builds what a tile's render entity carries.
pub fn make_tile_entity(tile: &Tile, sprites: &TileSprites) -> (d: EntityData)
    ensures
        d == tile_entity(*tile, *sprites),
{
    let x: i32 = saturate(tile.pos.x as i64 * 1000);
    let y: i32 = saturate(tile.pos.y as i64 * 1000);
    let mut d = EntityData::new(Transform::from_translation(Vec3 { x, y, z: 0 }));
    d.texture = Some(sprites.sprite(tile.kind));
    d.custom_size = Some(Vec2 { x: 1000, y: 1000 });
    d.tile = Some(tile.kind);
    d.rect = Some(DebugRect { color: Color::black(), rotation: 0, size: Vec2 { x: 900, y: 900 } });
    d
}

/// The grid model: the tile entities that were spawned for it, and the tiles
/// that are staged but not yet spawned.
pub struct TileMap {
    tiles: Vec<Entity>,
    to_be_added: Vec<Tile>,
}

/// Slot `j` holds a tile entity that the model does not track.
pub open spec fn untracked_tile(slot: Option<EntityData>, j: int, live: Seq<Entity>) -> bool {
    slot is Some && slot.unwrap().tile is Some && !live.contains(Entity { index: j as usize })
}

/// The arena without the tile entities that the model does not track.
pub open spec fn pruned(slots: Seq<Option<EntityData>>, live: Seq<Entity>) -> Seq<Option<EntityData>> {
    Seq::new(
        slots.len(),
        |j: int|
            if untracked_tile(slots[j], j, live) {
                None
            } else {
                slots[j]
            },
    )
}

/// One new render entity per staged tile, in staging order.
pub open spec fn spawned(pending: Seq<Tile>, sprites: TileSprites) -> Seq<Option<EntityData>> {
    Seq::new(pending.len(), |k: int| Some(tile_entity(pending[k], sprites)))
}

/// The arena after the model is reconciled: as it was if nothing is staged,
/// and else without its untracked tile entities and with one new entity per
/// staged tile.
pub open spec fn reconciled(
    slots: Seq<Option<EntityData>>,
    live: Seq<Entity>,
    pending: Seq<Tile>,
    sprites: TileSprites,
) -> Seq<Option<EntityData>> {
    if pending.len() == 0 {
        slots
    } else {
        pruned(slots, live) + spawned(pending, sprites)
    }
}

/// `count` consecutive handles from slot `first` on.
pub open spec fn handles_from(first: int, count: nat) -> Seq<Entity> {
    Seq::new(count, |k: int| Entity { index: (first + k) as usize })
}

impl TileMap {
    /// The handles of the tile entities spawned so far, oldest first.
    pub closed spec fn live(&self) -> Seq<Entity> {
        self.tiles@
    }

    /// The staged tiles, in staging order.
    pub closed spec fn pending(&self) -> Seq<Tile> {
        self.to_be_added@
    }

    /// A model without tiles.
    pub fn new() -> (m: TileMap)
        ensures
            m.live() == Seq::<Entity>::empty(),
            m.pending() == Seq::<Tile>::empty(),
    {
        TileMap { tiles: Vec::new(), to_be_added: Vec::new() }
    }

    /// The handles of the tile entities spawned so far.
    pub fn tiles(&self) -> (t: &Vec<Entity>)
        ensures
            t@ == self.live(),
    {
        &self.tiles
    }

    /// The staged tiles.
    pub fn to_be_added(&self) -> (t: &Vec<Tile>)
        ensures
            t@ == self.pending(),
    {
        &self.to_be_added
    }

    /// Whether tiles were staged since the model was last reconciled.
    pub fn is_changed(&self) -> (r: bool)
        ensures
            r == (self.pending().len() > 0),
    {
        self.to_be_added.len() > 0
    }

    /// Whether the model tracks the entity.
    pub fn tracks(&self, e: Entity) -> (r: bool)
        ensures
            r == self.live().contains(e),
    {
        let n: usize = self.tiles.len();
        let mut i: usize = 0;
        while i < n
            invariant
                n == self.tiles@.len(),
                i <= n,
                forall|j: int| 0 <= j < i ==> self.tiles@[j] != e,
            decreases n - i,
        {
            if self.tiles[i].index == e.index {
                assert(self.tiles@[i as int] == e);
                return true;
            }
            i += 1;
        }
        false
    }

    /// Stages a tile of the given kind at `(x, y)`. Nothing is spawned until
    /// the model is reconciled; staging the same coordinate twice stages two
    /// tiles.
    pub fn set_tile(&mut self, x: i32, y: i32, kind: TileKind)
        ensures
            final(self).pending() == old(self).pending().push(Tile { pos: IVec2 { x, y }, kind }),
            final(self).live() == old(self).live(),
    {
        self.to_be_added.push(Tile { pos: IVec2::new(x, y), kind });
    }
}

impl Default for TileMap {
    fn default() -> (m: TileMap)
        ensures
            m.live() == Seq::<Entity>::empty(),
            m.pending() == Seq::<Tile>::empty(),
    {
        TileMap::new()
    }
}

/// Reconciles the arena with the model. Without staged tiles nothing
/// happens. Otherwise every tile entity that the model does not track is
/// despawned, one entity is spawned per staged tile in staging order, its
/// handle is appended to the model, and the staging queue is emptied.
pub fn update_tiles(world: &mut World, tilemap: &mut TileMap, sprites: &TileSprites)
    ensures
        final(world)@ == reconciled(
            old(world)@,
            old(tilemap).live(),
            old(tilemap).pending(),
            *sprites,
        ),
        old(tilemap).pending().len() == 0 ==> final(world)@ == old(world)@ && final(tilemap).live()
            == old(tilemap).live(),
        final(tilemap).live() == old(tilemap).live() + handles_from(
            old(world)@.len() as int,
            old(tilemap).pending().len(),
        ),
        final(tilemap).live().len() == old(tilemap).live().len() + old(tilemap).pending().len(),
        final(tilemap).pending() == Seq::<Tile>::empty(),
{
    if !tilemap.is_changed() {
        return;
    }
    let n: usize = world.len();
    let mut i: usize = 0;
    while i < n
        invariant
            n == old(world)@.len(),
            world@.len() == n,
            i <= n,
            *tilemap == *old(tilemap),
            forall|j: int|
                0 <= j < i ==> world@[j] == pruned(old(world)@, old(tilemap).live())[j],
            forall|j: int| i <= j < n ==> world@[j] == old(world)@[j],
        decreases n - i,
    {
        let e = Entity { index: i };
        match world.get(e) {
            Some(d) => {
                if d.tile.is_some() && !tilemap.tracks(e) {
                    world.despawn(e);
                }
            },
            None => {},
        }
        i += 1;
    }
    let m: usize = tilemap.to_be_added.len();
    let mut k: usize = 0;
    while k < m
        invariant
            n == old(world)@.len(),
            m == old(tilemap).pending().len(),
            k <= m,
            tilemap.to_be_added@ == old(tilemap).pending(),
            world@ == pruned(old(world)@, old(tilemap).live()) + spawned(
                old(tilemap).pending().take(k as int),
                *sprites,
            ),
            tilemap.tiles@ == old(tilemap).live() + handles_from(n as int, k as nat),
        decreases m - k,
    {
        let d = make_tile_entity(&tilemap.to_be_added[k], sprites);
        let e = world.spawn(d);
        tilemap.tiles.push(e);
        proof {
            let p = old(tilemap).pending();
            assert(spawned(p.take(k + 1), *sprites) =~= spawned(p.take(k as int), *sprites).push(
                Some(d),
            ));
            assert(world@ =~= pruned(old(world)@, old(tilemap).live()) + spawned(
                p.take(k + 1),
                *sprites,
            ));
            assert(handles_from(n as int, (k + 1) as nat) =~= handles_from(n as int, k as nat).push(
                e,
            ));
        }
        k += 1;
    }
    tilemap.to_be_added.clear();
}

/// The kind that a coin toss picks for a freshly staged tile.
pub fn kind_for_toss(heads: bool) -> (kind: TileKind)
    ensures
        kind == if heads {
            TileKind::Grass
        } else {
            TileKind::Stone
        },
{
    if heads {
        TileKind::Grass
    } else {
        TileKind::Stone
    }
}

/// Tosses a coin with `rand::random::<bool>()`, which draws from the
/// thread's generator. Nothing is claimed of the outcome.
#[verifier::external_body]
fn toss() -> (heads: bool) {
    rand::random::<bool>()
}

/// Stages a grid of ten by ten tiles, column by column from the origin, each
/// of them grass or stone by a coin toss.
pub fn spawn_tiles(tilemap: &mut TileMap)
    ensures
        final(tilemap).live() == old(tilemap).live(),
        final(tilemap).pending().len() == old(tilemap).pending().len() + 100,
        final(tilemap).pending().take(old(tilemap).pending().len() as int) == old(
            tilemap,
        ).pending(),
        forall|k: int|
            0 <= k < 100 ==> {
                let t = #[trigger] final(tilemap).pending()[old(tilemap).pending().len() + k];
                &&& t.pos == IVec2 { x: (k / 10) as i32, y: (k % 10) as i32 }
                &&& (t.kind == TileKind::Grass || t.kind == TileKind::Stone)
            },
{
    let ghost base = tilemap.pending().len() as int;
    let mut x: i32 = 0;
    assert(tilemap.pending().take(base) =~= tilemap.pending());
    while x < 10
        invariant
            0 <= x <= 10,
            base == old(tilemap).pending().len(),
            tilemap.live() == old(tilemap).live(),
            tilemap.pending().len() == base + 10 * x,
            tilemap.pending().take(base) == old(tilemap).pending(),
            forall|k: int|
                0 <= k < 10 * x ==> {
                    let t = #[trigger] tilemap.pending()[base + k];
                    &&& t.pos == IVec2 { x: (k / 10) as i32, y: (k % 10) as i32 }
                    &&& (t.kind == TileKind::Grass || t.kind == TileKind::Stone)
                },
        decreases 10 - x,
    {
        let mut y: i32 = 0;
        while y < 10
            invariant
                0 <= x < 10,
                0 <= y <= 10,
                base == old(tilemap).pending().len(),
                tilemap.live() == old(tilemap).live(),
                tilemap.pending().len() == base + 10 * x + y,
                tilemap.pending().take(base) == old(tilemap).pending(),
                forall|k: int|
                    0 <= k < 10 * x + y ==> {
                        let t = #[trigger] tilemap.pending()[base + k];
                        &&& t.pos == IVec2 { x: (k / 10) as i32, y: (k % 10) as i32 }
                        &&& (t.kind == TileKind::Grass || t.kind == TileKind::Stone)
                    },
            decreases 10 - y,
        {
            let ghost before = tilemap.pending();
            tilemap.set_tile(x, y, kind_for_toss(toss()));
            proof {
                assert(tilemap.pending().take(base) =~= before.take(base));
                assert forall|k: int| 0 <= k < 10 * x + y + 1 implies {
                    let t = #[trigger] tilemap.pending()[base + k];
                    &&& t.pos == IVec2 { x: (k / 10) as i32, y: (k % 10) as i32 }
                    &&& (t.kind == TileKind::Grass || t.kind == TileKind::Stone)
                } by {
                    if k < 10 * x + y {
                        assert(tilemap.pending()[base + k] == before[base + k]);
                    }
                }
            }
            y += 1;
        }
        x += 1;
    }
}

/// Largest per-axis distance, in fixed-point steps, at which the player
/// still counts as standing on a tile: half a unit.
pub const OCCUPIED_TOLERANCE: i32 = 500;

/// The outline colour of a tile at `tile` while the player is at `player`:
/// red when they are within the tolerance on both axes, black otherwise.
pub open spec fn highlight_color(tile: Vec2, player: Vec2) -> Color {
    if tile.within_tolerance(player, OCCUPIED_TOLERANCE as int) {
        Color::red_spec()
    } else {
        Color::black_spec()
    }
}

/// The outline colour of a tile at `tile` while the player is at `player`.
pub fn tile_color(tile: Vec2, player: Vec2) -> (c: Color)
    ensures
        c == highlight_color(tile, player),
{
    if tile.abs_diff_eq(player, OCCUPIED_TOLERANCE) {
        Color::red()
    } else {
        Color::black()
    }
}

/// A slot after highlighting: a tile entity with an outline gets the colour
/// that its position calls for; any other slot stays as it is.
pub open spec fn highlight_slot(slot: Option<EntityData>, player: Vec2) -> Option<EntityData> {
    match slot {
        Some(d) => if d.tile is Some && d.rect is Some {
            Some(
                EntityData {
                    rect: Some(
                        DebugRect {
                            color: highlight_color(d.transform.translation.xy_spec(), player),
                            ..d.rect.unwrap()
                        },
                    ),
                    ..d
                },
            )
        } else {
            slot
        },
        None => None,
    }
}

/// The arena after highlighting every tile against the player's position.
pub open spec fn highlighted(slots: Seq<Option<EntityData>>, player: Vec2) -> Seq<
    Option<EntityData>,
> {
    Seq::new(slots.len(), |j: int| highlight_slot(slots[j], player))
}

/// The position of the scene's only player that is no tile.
pub open spec fn player_xy(slots: Seq<Option<EntityData>>) -> Vec2 {
    slots[the_single(slots, Marker::PlayerNotTile)].unwrap().transform.translation.xy_spec()
}

/// Colours the outline of every tile entity: red where the player stands on
/// the tile, black elsewhere. The scene must hold exactly one player that is
/// no tile.
pub fn red_if_occupied(world: &mut World)
    requires
        has_single(old(world)@, Marker::PlayerNotTile),
    ensures
        final(world)@ == highlighted(old(world)@, player_xy(old(world)@)),
{
    let player = world.single(Marker::PlayerNotTile).unwrap();
    let player_pos = world.get(player).unwrap().transform.translation.xy();
    assert(player_pos == player_xy(world@));
    let n: usize = world.len();
    let mut i: usize = 0;
    while i < n
        invariant
            n == old(world)@.len(),
            world@.len() == n,
            i <= n,
            forall|j: int| 0 <= j < i ==> world@[j] == highlight_slot(old(world)@[j], player_pos),
            forall|j: int| i <= j < n ==> world@[j] == old(world)@[j],
        decreases n - i,
    {
        let e = Entity { index: i };
        match world.get(e) {
            Some(d) => {
                match d.rect {
                    Some(r) => {
                        if d.tile.is_some() {
                            let mut changed = d;
                            let mut outline = r;
                            outline.color = tile_color(d.transform.translation.xy(), player_pos);
                            changed.rect = Some(outline);
                            world.replace(e, changed);
                        }
                    },
                    None => {},
                }
            },
            None => {},
        }
        i += 1;
    }
}

/// Highlighting twice against the same player position is the same as
/// highlighting once: the colour depends on the positions alone, not on the
/// colour that was there before.
pub proof fn lemma_highlight_idempotent(slots: Seq<Option<EntityData>>, player: Vec2)
    ensures
        highlighted(highlighted(slots, player), player) == highlighted(slots, player),
{
    assert(highlighted(highlighted(slots, player), player) =~= highlighted(slots, player));
}

/// Whatever colour a tile's outline had, after highlighting it is red if the
/// tile is within half a unit of the player on both axes and black if not.
pub proof fn lemma_highlight_by_position(slots: Seq<Option<EntityData>>, player: Vec2, j: int)
    requires
        0 <= j < slots.len(),
        slots[j] is Some,
        slots[j].unwrap().tile is Some,
        slots[j].unwrap().rect is Some,
    ensures
        highlighted(slots, player)[j] is Some,
        highlighted(slots, player)[j].unwrap().rect is Some,
        ({
            let tile = slots[j].unwrap().transform.translation;
            let color = highlighted(slots, player)[j].unwrap().rect.unwrap().color;
            let near = abs_diff(tile.x as int, player.x as int) <= 500 && abs_diff(
                tile.y as int,
                player.y as int,
            ) <= 500;
            &&& near ==> color == Color::red_spec()
            &&& !near ==> color == Color::black_spec()
        }),
{
}

/// The staging queue after each of `tiles` is staged in turn, as
/// `set_tile` stages one.
pub open spec fn staged(pending: Seq<Tile>, tiles: Seq<Tile>) -> Seq<Tile>
    decreases tiles.len(),
{
    if tiles.len() == 0 {
        pending
    } else {
        staged(pending, tiles.drop_last()).push(tiles.last())
    }
}

/// Staging keeps every tile, in order, whether or not two of them share a
/// coordinate.
pub proof fn lemma_staged_keeps_all(pending: Seq<Tile>, tiles: Seq<Tile>)
    ensures
        staged(pending, tiles) == pending + tiles,
    decreases tiles.len(),
{
    if tiles.len() == 0 {
        assert(pending + tiles =~= pending);
    } else {
        lemma_staged_keeps_all(pending, tiles.drop_last());
        assert(pending + tiles =~= (pending + tiles.drop_last()).push(tiles.last()));
    }
}

/// After any run of stagings on an emptied queue, reconciling grows the
/// live set by exactly the number of tiles staged, and what was live before
/// stays in place at the front.
pub proof fn lemma_reconcile_grows_live_by_staged(live: Seq<Entity>, first: int, tiles: Seq<Tile>)
    ensures
        (live + handles_from(first, staged(Seq::empty(), tiles).len())).len() == live.len()
            + tiles.len(),
        (live + handles_from(first, staged(Seq::empty(), tiles).len())).take(live.len() as int)
            == live,
{
    lemma_staged_keeps_all(Seq::empty(), tiles);
    assert(Seq::<Tile>::empty() + tiles =~= tiles);
    let grown = live + handles_from(first, staged(Seq::empty(), tiles).len());
    assert(grown.take(live.len() as int) =~= live);
}

} // verus!
