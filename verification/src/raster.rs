//! The raster surface ("layer") every widget and layout draws into.
//!
//! A layer is an opaque pixel buffer owned by the `tiny_skia` crate. The core
//! only creates layers, fills them with a solid color, blits one onto another
//! at an offset, and crops a region out of one; those four operations stand
//! behind trusted wrappers here, and everything above them is verified
//! against the wrappers' contracts.

use vstd::prelude::*;
use crate::child_window::Rgba;

verus! {

#[verifier::external_type_specification]
#[verifier::external_body]
pub struct ExPixmap(tiny_skia::Pixmap);

/// Width in pixels of the layer `p`.
pub uninterp spec fn layer_width(p: tiny_skia::Pixmap) -> u32;

/// Height in pixels of the layer `p`.
pub uninterp spec fn layer_height(p: tiny_skia::Pixmap) -> u32;

/// Largest width or height this crate ever asks a layer to have.
pub const MAX_LAYER_DIM: u32 = 16384;

/// Relies on `tiny_skia::Pixmap::new`: allocates a `width` x `height` layer
/// filled with transparent black — every byte zero, the same content that
/// filling with transparent black produces. Its source returns `None` exactly
/// when a size is zero or the byte length does not fit; sizes up to 16384 in
/// both directions always pass those checks.
#[verifier::external_body]
fn layer_try_new(width: u32, height: u32) -> (r: Option<tiny_skia::Pixmap>)
    ensures
        r is Some ==> r->0 == filled_layer(width, height, 0, 0, 0, 0),
        r is Some ==> layer_width(r->0) == width && layer_height(r->0) == height,
        width == 0 || height == 0 ==> r is None,
        1 <= width <= MAX_LAYER_DIM && 1 <= height <= MAX_LAYER_DIM ==> r is Some,
{
    tiny_skia::Pixmap::new(width, height)
}

/// Relies on `tiny_skia::Pixmap::width`.
#[verifier::external_body]
pub fn layer_width_of(p: &tiny_skia::Pixmap) -> (r: u32)
    ensures
        r == layer_width(*p),
{
    p.width()
}

/// Relies on `tiny_skia::Pixmap::height`.
#[verifier::external_body]
pub fn layer_height_of(p: &tiny_skia::Pixmap) -> (r: u32)
    ensures
        r == layer_height(*p),
{
    p.height()
}

/// Relies on `tiny_skia::Pixmap::clone` (derived): the clone is the same
/// value as the original.
pub assume_specification[ <tiny_skia::Pixmap as Clone>::clone ](p: &tiny_skia::Pixmap) -> (r:
    tiny_skia::Pixmap)
    ensures
        r == *p,
;

/// The layer that `layer_fill` produces on a layer of size `width` x
/// `height` with the straight RGBA color `(r, g, b, a)`: every pixel holds
/// that one color. It depends on the size and the color alone.
pub uninterp spec fn filled_layer(width: u32, height: u32, r: u8, g: u8, b: u8, a: u8) -> tiny_skia::Pixmap;

/// The layer that `layer_blit` produces: `src` drawn over `dst` with its
/// top-left corner at `(x, y)`, clipped to `dst` (and `dst` untouched at an
/// offset whose source rectangle cannot be formed). It depends on the two
/// layers and the offset alone.
pub uninterp spec fn blitted_layer(dst: tiny_skia::Pixmap, x: i32, y: i32, src: tiny_skia::Pixmap) -> tiny_skia::Pixmap;

/// Relies on `tiny_skia::Pixmap::fill`: fills the whole layer with one color,
/// leaving its size unchanged. The result is a function of the layer's size
/// and the color alone.
#[verifier::external_body]
pub fn layer_fill(p: &mut tiny_skia::Pixmap, color: Rgba)
    ensures
        layer_width(*final(p)) == layer_width(*old(p)),
        layer_height(*final(p)) == layer_height(*old(p)),
        *final(p) == filled_layer(
            layer_width(*old(p)),
            layer_height(*old(p)),
            color.r,
            color.g,
            color.b,
            color.a,
        ),
{
    p.fill(tiny_skia::Color::from_rgba8(color.r, color.g, color.b, color.a));
}

/// Relies on `tiny_skia::Pixmap::draw_pixmap` and
/// `tiny_skia::IntRect::from_xywh`: draws `src` over `dst` with its top-left
/// corner at `(x, y)`, clipped to `dst`; `dst` keeps its size, and the
/// result is a function of the two layers and the offset alone. An offset so
/// large that the source rectangle cannot even be formed (its far edge past
/// the coordinate limit, where nothing could land on `dst`) skips the draw
/// instead of attempting it.
#[verifier::external_body]
pub fn layer_blit(dst: &mut tiny_skia::Pixmap, x: i32, y: i32, src: &tiny_skia::Pixmap)
    ensures
        layer_width(*final(dst)) == layer_width(*old(dst)),
        layer_height(*final(dst)) == layer_height(*old(dst)),
        *final(dst) == blitted_layer(*old(dst), x, y, *src),
{
    if tiny_skia::IntRect::from_xywh(x, y, src.width(), src.height()).is_some() {
        dst.draw_pixmap(
            x,
            y,
            src.as_ref(),
            &tiny_skia::PixmapPaint::default(),
            tiny_skia::Transform::identity(),
            None,
        );
    }
}

/// The crop region `(x, y, width, height)` is non-empty and lies inside a
/// layer of size `pw` x `ph`.
pub open spec fn crop_fits(x: i32, y: i32, width: u32, height: u32, pw: u32, ph: u32) -> bool {
    &&& 1 <= width
    &&& 1 <= height
    &&& 0 <= x
    &&& 0 <= y
    &&& x as int + width as int <= pw as int
    &&& y as int + height as int <= ph as int
}

/// Relies on `tiny_skia::Pixmap::clone_rect` and
/// `tiny_skia::IntRect::from_xywh`: copies out the part of the layer the
/// given region intersects. The source clips the region to the layer, so the
/// copy is never larger than the request; a region lying fully inside the
/// layer comes back whole, and one missing the layer (or with an invalid
/// size) yields nothing.
#[verifier::external_body]
pub fn layer_crop(
    p: &tiny_skia::Pixmap,
    x: i32,
    y: i32,
    width: u32,
    height: u32,
) -> (r: Option<tiny_skia::Pixmap>)
    ensures
        r is Some ==> r->0 == cropped_layer(*p, x, y, width, height),
        r is Some ==> layer_width(r->0) <= width && layer_height(r->0) <= height,
        (crop_fits(x, y, width, height, layer_width(*p), layer_height(*p)) ==> r is Some
            && layer_width(r->0) == width && layer_height(r->0) == height),
{
    let rect = tiny_skia::IntRect::from_xywh(x, y, width, height)?;
    p.clone_rect(rect)
}

/// The RGBA bytes of the layer `p`, four per pixel, rows top to bottom.
pub uninterp spec fn layer_data(p: tiny_skia::Pixmap) -> Seq<u8>;

/// The layer that `layer_crop` copies out of `p` for the given region. It
/// depends on the layer and the region alone.
pub uninterp spec fn cropped_layer(p: tiny_skia::Pixmap, x: i32, y: i32, width: u32, height: u32) -> tiny_skia::Pixmap;

/// Relies on `tiny_skia::Pixmap::data`: the layer's pixels as RGBA bytes,
/// four per pixel, rows top to bottom.
#[verifier::external_body]
pub fn layer_bytes(p: &tiny_skia::Pixmap) -> (r: Vec<u8>)
    ensures
        r@ == layer_data(*p),
        r@.len() == 4 * layer_width(*p) * layer_height(*p),
{
    p.data().to_vec()
}

/// Clamps a coordinate into the offset range a blit accepts.
pub open spec fn clamp_blit(v: int) -> i32 {
    if v < i32::MIN as int {
        i32::MIN
    } else if v > i32::MAX as int {
        i32::MAX
    } else {
        v as i32
    }
}

/// Blits `src` over `dst` at a wide-coordinate offset, saturating the offset
/// into the range a blit accepts (an offset that far out is entirely off the
/// layer either way).
pub fn layer_blit_at(dst: &mut tiny_skia::Pixmap, x: i64, y: i64, src: &tiny_skia::Pixmap)
    ensures
        layer_width(*final(dst)) == layer_width(*old(dst)),
        layer_height(*final(dst)) == layer_height(*old(dst)),
        *final(dst) == blitted_layer(*old(dst), clamp_blit(x as int), clamp_blit(y as int), *src),
{
    let cx: i32 = if x < i32::MIN as i64 {
        i32::MIN
    } else if x > i32::MAX as i64 {
        i32::MAX
    } else {
        x as i32
    };
    let cy: i32 = if y < i32::MIN as i64 {
        i32::MIN
    } else if y > i32::MAX as i64 {
        i32::MAX
    } else {
        y as i32
    };
    layer_blit(dst, cx, cy, src);
}

/// The size a layer allocated for a `width` x `height` request actually
/// gets: the request when it is usable, the minimal 1 x 1 fallback when not.
pub open spec fn layer_alloc_dims(width: i64, height: i64) -> (u32, u32) {
    if 1 <= width <= MAX_LAYER_DIM && 1 <= height <= MAX_LAYER_DIM {
        (width as u32, height as u32)
    } else {
        (1u32, 1u32)
    }
}

/// Creates a layer of the requested size, degrading to a minimal 1 x 1 layer
/// when the size is unusable, so that a malformed size never crashes a render
/// pass.
pub fn layer_new_or_fallback(width: i64, height: i64) -> (r: tiny_skia::Pixmap)
    ensures
        layer_width(r) == layer_alloc_dims(width, height).0,
        layer_height(r) == layer_alloc_dims(width, height).1,
        r == filled_layer(
            layer_alloc_dims(width, height).0,
            layer_alloc_dims(width, height).1,
            0,
            0,
            0,
            0,
        ),
{
    if 1 <= width && width <= MAX_LAYER_DIM as i64 && 1 <= height && height
        <= MAX_LAYER_DIM as i64 {
        match layer_try_new(width as u32, height as u32) {
            Some(p) => p,
            None => fallback_layer(),
        }
    } else {
        fallback_layer()
    }
}

/// The minimal valid layer used when an allocation is refused.
pub fn fallback_layer() -> (r: tiny_skia::Pixmap)
    ensures
        layer_width(r) == 1,
        layer_height(r) == 1,
        r == filled_layer(1, 1, 0, 0, 0, 0),
{
    match layer_try_new(1, 1) {
        Some(p) => p,
        // `layer_try_new` promises `Some` for 1 x 1.
        None => vstd::pervasive::unreached(),
    }
}

} // verus!
