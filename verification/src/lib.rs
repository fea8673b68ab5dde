//! Mosaic: a utility layer for drawing rectangular tiles cut from a single
//! tilesheet image, on top of an external batched-sprite renderer.
//!
//! A [`TileSet`] maps caller-chosen keys to grid coordinates on a tilesheet,
//! queues per-frame draw requests, and hands the accumulated batch to the
//! host renderer. All geometry is kept exact: source rectangles are stored
//! as rationals over the sheet's grid dimensions and destination positions
//! as integer pixel coordinates, so the host can derive the renderer's
//! floating-point parameters without this library interpreting them.

use std::collections::HashMap;
use std::hash::Hash;
use vstd::prelude::*;
use vstd::std_specs::hash::obeys_key_model;

verus! {

broadcast use vstd::std_specs::hash::group_hash_axioms;

/// Relies on mint's `Point2`: a plain record of two public `x`/`y` fields.
#[verifier::external_type_specification]
#[verifier::reject_recursive_types(T)]
pub struct ExPoint2<T>(mint::Point2<T>);

/// Relies on mint's `Vector2`: a plain record of two public `x`/`y` fields.
#[verifier::external_type_specification]
#[verifier::reject_recursive_types(T)]
pub struct ExVector2<T>(mint::Vector2<T>);

/// The IEEE 754 single-precision bit pattern of 1.0, the default scale
/// factor. Scale factors are carried as bit patterns so that the library
/// hands them to the renderer exactly without holding floating point.
pub const SCALE_ONE_BITS: u32 = 0x3F80_0000;

/// An RGBA color tint, one byte per channel.
#[derive(Clone, Copy, Debug, PartialEq, Eq, Structural)]
pub struct Color {
    /// Red channel.
    pub r: u8,
    /// Green channel.
    pub g: u8,
    /// Blue channel.
    pub b: u8,
    /// Alpha channel.
    pub a: u8,
}

/// A per-axis scale factor, each axis an IEEE 754 single-precision bit
/// pattern (see [`SCALE_ONE_BITS`]).
#[derive(Clone, Copy, Debug, PartialEq, Eq, Structural)]
pub struct Scale {
    /// Bit pattern of the horizontal scale factor.
    pub x_bits: u32,
    /// Bit pattern of the vertical scale factor.
    pub y_bits: u32,
}

/// A source rectangle in normalized sheet coordinates, kept exact: the
/// rectangle is `(x_num/x_den, y_num/y_den)` with width `1/x_den` and
/// height `1/y_den` — one grid cell of a sheet `x_den` cells wide and
/// `y_den` cells high.
#[derive(Clone, Copy, Debug, PartialEq, Eq, Structural)]
pub struct SrcRect {
    /// Numerator of the left edge; the registered column.
    pub x_num: i32,
    /// Numerator of the top edge; the registered row.
    pub y_num: i32,
    /// Common denominator of the horizontal axis; the sheet's width in cells.
    pub x_den: i32,
    /// Common denominator of the vertical axis; the sheet's height in cells.
    pub y_den: i32,
}

/// One queued draw request: which cell of the sheet to draw, where, and how.
#[derive(Clone, Copy, Debug, PartialEq)]
pub struct DrawCommand {
    /// Source rectangle on the sheet, in normalized coordinates.
    pub src: SrcRect,
    /// Destination position, in pixels, top-left origin.
    pub dest: mint::Point2<i32>,
    /// Optional color tint; `None` leaves the renderer's default tint.
    pub color: Option<Color>,
    /// Scale factor for drawing.
    pub scale: Scale,
}

/// Additional parameters for drawing tiles.
#[derive(Clone, Copy, Debug, PartialEq)]
pub struct TileParams {
    /// The optional color to draw the tile with.
    pub color: Option<Color>,
    /// Scale factor for drawing. Default is 1.0 (no scaling).
    pub scale: Option<Scale>,
}

impl Default for TileParams {
    /// No overrides: no color tint, no explicit scale.
    fn default() -> (r: TileParams)
        ensures
            r.color is None,
            r.scale is None,
            r == params_or_default(None),
    {
        TileParams { color: None, scale: None }
    }
}

/// Possible errors from `TileSet` operations.
#[derive(Debug, Clone, Copy, PartialEq, Eq, Structural)]
pub enum TileSetError {
    /// The tile position to register was outside the tilesheet bounds.
    OutOfRange,
    /// Tile not found.
    TileNotFound,
}

impl TileSetError {
    /// A human-readable description of the error.
    pub fn message(&self) -> (s: &'static str)
        ensures
            self is OutOfRange ==> s@ == "Position out of range of tilesheet dimensions"@,
            self is TileNotFound ==> s@ == "Tile not found during lookup"@,
    {
        match self {
            TileSetError::OutOfRange => "Position out of range of tilesheet dimensions",
            TileSetError::TileNotFound => "Tile not found during lookup",
        }
    }
}

/// Whether `index` is an acceptable grid coordinate for a sheet of `dims`
/// cells. The upper bound is non-strict, as the bounds check admits one
/// column and one row past the last cell.
pub open spec fn in_bounds(index: mint::Point2<i32>, dims: mint::Vector2<i32>) -> bool {
    &&& 0 <= index.x <= dims.x
    &&& 0 <= index.y <= dims.y
}

/// The exact source rectangle of grid cell `index` on a sheet of `dims`
/// cells: left edge `index.x/dims.x`, top edge `index.y/dims.y`, one cell
/// wide and high.
pub open spec fn src_rect_for(index: mint::Point2<i32>, dims: mint::Vector2<i32>) -> SrcRect {
    SrcRect { x_num: index.x, y_num: index.y, x_den: dims.x, y_den: dims.y }
}

/// The destination pixel position of a draw at grid cell `loc`, for tiles of
/// `tile_size` pixels.
pub open spec fn dest_for(loc: mint::Point2<i32>, tile_size: mint::Vector2<i32>) -> mint::Point2<
    i32,
> {
    mint::Point2 { x: (loc.x * tile_size.x) as i32, y: (loc.y * tile_size.y) as i32 }
}

/// The scale factor of 1.0 in both axes.
pub open spec fn scale_one() -> Scale {
    Scale { x_bits: SCALE_ONE_BITS, y_bits: SCALE_ONE_BITS }
}

/// The parameters that a draw request carries when the caller supplied
/// `options`: absent options mean no overrides.
pub open spec fn params_or_default(options: Option<TileParams>) -> TileParams {
    match options {
        Some(p) => p,
        None => TileParams { color: None, scale: None },
    }
}

/// The effective scale factor: an explicit one, or 1.0 in both axes.
pub open spec fn scale_or_one(scale: Option<Scale>) -> Scale {
    match scale {
        Some(s) => s,
        None => scale_one(),
    }
}

/// The draw command queued for the tile registered at grid cell `index`,
/// drawn at destination grid cell `loc`, on a sheet of `dims` cells with
/// tiles of `tile_size` pixels, under `params`.
pub open spec fn command_for(
    index: mint::Point2<i32>,
    loc: mint::Point2<i32>,
    dims: mint::Vector2<i32>,
    tile_size: mint::Vector2<i32>,
    params: TileParams,
) -> DrawCommand {
    DrawCommand {
        src: src_rect_for(index, dims),
        dest: dest_for(loc, tile_size),
        color: params.color,
        scale: scale_or_one(params.scale),
    }
}

/// The abstract state of a [`TileSet`]: its fixed geometry, the registered
/// tiles, and the pending draw commands in queueing order.
#[verifier::reject_recursive_types(Key)]
pub struct TileSetView<Key> {
    /// Size of one tile, in pixels.
    pub tile_size: mint::Vector2<i32>,
    /// Size of the sheet, in whole tiles.
    pub sheet_dimensions: mint::Vector2<i32>,
    /// The registered tiles: key to grid coordinate on the sheet.
    pub tiles: Map<Key, mint::Point2<i32>>,
    /// The pending draw commands, oldest first.
    pub queue: Seq<DrawCommand>,
}

/// Every registered coordinate lies within the sheet's bounds.
pub open spec fn registry_in_bounds<Key>(v: TileSetView<Key>) -> bool {
    forall|k: Key| #[trigger]
        v.tiles.contains_key(k) ==> in_bounds(v.tiles[k], v.sheet_dimensions)
}

/// A set of tiles made from a tilesheet image.
#[verifier::reject_recursive_types(Key)]
pub struct TileSet<Key: Hash + Eq> {
    tile_size: mint::Vector2<i32>,
    tile_cache: HashMap<Key, mint::Point2<i32>>,
    sheet_dimensions: mint::Vector2<i32>,
    queue: Vec<DrawCommand>,
}

impl<Key: Hash + Eq> View for TileSet<Key> {
    type V = TileSetView<Key>;

    closed spec fn view(&self) -> TileSetView<Key> {
        TileSetView {
            tile_size: self.tile_size,
            sheet_dimensions: self.sheet_dimensions,
            tiles: self.tile_cache@,
            queue: self.queue@,
        }
    }
}

impl<Key: Hash + Eq> TileSet<Key> {
    /// Create a new `TileSet` from the sheet's pixel size and the tile size.
    ///
    /// The sheet is divided into a grid of `sheet_size / tile_size` cells,
    /// rounding down; the registry and the draw queue start empty.
    pub fn new(sheet_size: mint::Vector2<i32>, tile_size: mint::Vector2<i32>) -> (ts: TileSet<
        Key,
    >)
        requires
            sheet_size.x >= 0,
            sheet_size.y >= 0,
            tile_size.x > 0,
            tile_size.y > 0,
        ensures
            ts@.tile_size == tile_size,
            ts@.sheet_dimensions.x == sheet_size.x as int / tile_size.x as int,
            ts@.sheet_dimensions.y == sheet_size.y as int / tile_size.y as int,
            ts@.tiles == Map::<Key, mint::Point2<i32>>::empty(),
            ts@.queue == Seq::<DrawCommand>::empty(),
            registry_in_bounds(ts@),
    {
        let sheet_dimensions = mint::Vector2 {
            x: sheet_size.x / tile_size.x,
            y: sheet_size.y / tile_size.y,
        };
        TileSet {
            tile_size,
            tile_cache: HashMap::new(),
            sheet_dimensions,
            queue: Vec::new(),
        }
    }

    /// The size of the sheet, in whole tiles per axis.
    pub fn sheet_dimensions(&self) -> (d: mint::Vector2<i32>)
        ensures
            d == self@.sheet_dimensions,
    {
        self.sheet_dimensions
    }

    /// The size of one tile, in pixels per axis.
    pub fn tile_size(&self) -> (t: mint::Vector2<i32>)
        ensures
            t == self@.tile_size,
    {
        self.tile_size
    }

    /// The pending draw commands, oldest first.
    pub fn commands(&self) -> (c: &Vec<DrawCommand>)
        ensures
            c@ == self@.queue,
    {
        &self.queue
    }

    /// Register a tile from the tilesheet to the `TileSet` with the lookup
    /// value of `key`.
    ///
    /// Succeeds exactly when `index` lies within the sheet's bounds; on
    /// success the registration overwrites any earlier one for the same key,
    /// and on failure nothing changes.
    ///
    /// Verified callers instantiate `Key` with a type whose hash is a
    /// function of the value (vstd's hash-table key model), as any ordinary
    /// key type's is.
    pub fn register_tile(&mut self, key: Key, index: mint::Point2<i32>) -> (r: Result<
        (),
        TileSetError,
    >)
        requires
            obeys_key_model::<Key>(),
        ensures
            r is Ok <==> in_bounds(index, old(self)@.sheet_dimensions),
            r is Ok ==> final(self)@ == (TileSetView {
                tiles: old(self)@.tiles.insert(key, index),
                ..old(self)@
            }),
            r is Err ==> final(self)@ == old(self)@ && r == Err::<(), TileSetError>(
                TileSetError::OutOfRange,
            ),
            registry_in_bounds(old(self)@) ==> registry_in_bounds(final(self)@),
    {
        if index.x < 0 || index.y < 0 || index.x > self.sheet_dimensions.x || index.y
            > self.sheet_dimensions.y {
            return Err(TileSetError::OutOfRange);
        }

        self.tile_cache.insert(key, index);

        Ok(())
    }

    /// Queue a tile with the lookup value `key` to be drawn at
    /// `draw_location`, with optional drawing options.
    ///
    /// Succeeds exactly when `key` is registered; on success it appends one
    /// draw command — source rectangle `(x/dims.x, y/dims.y, 1/dims.x,
    /// 1/dims.y)` for the registered cell `(x, y)`, destination pixel
    /// position `draw_location * tile_size`, the requested color, and the
    /// requested scale or 1.0 — and on failure nothing changes.
    ///
    /// Verified callers instantiate `Key` as under
    /// [`register_tile`](Self::register_tile), and keep the destination
    /// position of a registered tile within `i32`.
    pub fn queue_tile(
        &mut self,
        key: Key,
        draw_location: mint::Point2<i32>,
        options: Option<TileParams>,
    ) -> (r: Result<(), TileSetError>)
        requires
            obeys_key_model::<Key>(),
            old(self)@.tiles.contains_key(key) ==> i32::MIN <= draw_location.x
                * old(self)@.tile_size.x <= i32::MAX,
            old(self)@.tiles.contains_key(key) ==> i32::MIN <= draw_location.y
                * old(self)@.tile_size.y <= i32::MAX,
        ensures
            r is Ok <==> old(self)@.tiles.contains_key(key),
            r is Ok ==> final(self)@ == (TileSetView {
                queue: old(self)@.queue.push(
                    command_for(
                        old(self)@.tiles[key],
                        draw_location,
                        old(self)@.sheet_dimensions,
                        old(self)@.tile_size,
                        params_or_default(options),
                    ),
                ),
                ..old(self)@
            }),
            r is Ok ==> final(self)@.queue.last().dest.x == draw_location.x
                * old(self)@.tile_size.x,
            r is Ok ==> final(self)@.queue.last().dest.y == draw_location.y
                * old(self)@.tile_size.y,
            r is Err ==> final(self)@ == old(self)@ && r == Err::<(), TileSetError>(
                TileSetError::TileNotFound,
            ),
    {
        let tile = match self.tile_cache.get(&key) {
            Some(t) => *t,
            None => {
                return Err(TileSetError::TileNotFound);
            },
        };

        let options = match options {
            Some(tp) => tp,
            None => TileParams { color: None, scale: None },
        };

        let scale = match options.scale {
            Some(s) => s,
            None => Scale { x_bits: SCALE_ONE_BITS, y_bits: SCALE_ONE_BITS },
        };

        let src = SrcRect {
            x_num: tile.x,
            y_num: tile.y,
            x_den: self.sheet_dimensions.x,
            y_den: self.sheet_dimensions.y,
        };

        let dest = mint::Point2 {
            x: draw_location.x * self.tile_size.x,
            y: draw_location.y * self.tile_size.y,
        };

        self.queue.push(DrawCommand { src, dest, color: options.color, scale });

        Ok(())
    }

    /// Clear the tile queue: the pending draw commands are dropped and
    /// everything else stays as it was. Idempotent.
    pub fn clear_queue(&mut self)
        ensures
            final(self)@ == (TileSetView { queue: Seq::<DrawCommand>::empty(), ..old(self)@ }),
    {
        self.queue.clear();
    }
}

/// Registering the same key twice overwrites the prior coordinate: on the
/// registry that [`TileSet::register_tile`] maintains, the last write wins.
pub proof fn lemma_register_last_wins<Key>(
    tiles: Map<Key, mint::Point2<i32>>,
    key: Key,
    first: mint::Point2<i32>,
    second: mint::Point2<i32>,
)
    ensures
        tiles.insert(key, first).insert(key, second) =~= tiles.insert(key, second),
{
}

/// Supplying no options draws with no color override and a scale of 1.0 in
/// both axes, whatever the tile, location and geometry.
pub proof fn lemma_default_options(
    index: mint::Point2<i32>,
    loc: mint::Point2<i32>,
    dims: mint::Vector2<i32>,
    tile_size: mint::Vector2<i32>,
)
    ensures
        command_for(index, loc, dims, tile_size, params_or_default(None)).color is None,
        command_for(index, loc, dims, tile_size, params_or_default(None)).scale == scale_one(),
{
}

} // verus!
