//! Utility functions used by widgets: layer copying and borders, bus
//! shorthands, timestamps, and decoding images into layers.

use vstd::prelude::*;
use crate::child_window::{Rgba, UserEvent, WidgetId};
use crate::event_bus::EventQueue;
use crate::raster::{
    blitted_layer,
    clamp_blit,
    crop_fits,
    filled_layer,
    layer_alloc_dims,
    layer_blit,
    layer_blit_at,
    layer_bytes,
    layer_crop,
    layer_fill,
    layer_height,
    layer_new_or_fallback,
    layer_width,
};
use crate::{valid_coord, valid_dim};

verus! {

#[verifier::external_type_specification]
#[verifier::external_body]
pub struct ExDynamicImage(image::DynamicImage);

/// Width in pixels of the image `img`.
pub uninterp spec fn image_width(img: image::DynamicImage) -> u32;

/// Height in pixels of the image `img`.
pub uninterp spec fn image_height(img: image::DynamicImage) -> u32;

/// Utility functions used by child windows.
#[derive(Debug)]
pub struct WindowUtils {}

impl WindowUtils {
    /// Copies the contents of one layer onto another at the given offset.
    pub fn copy_pixmap(
        src_pixmap: &tiny_skia::Pixmap,
        dest_pixmap: &mut tiny_skia::Pixmap,
        dest_x: i32,
        dest_y: i32,
    )
        ensures
            layer_width(*final(dest_pixmap)) == layer_width(*old(dest_pixmap)),
            layer_height(*final(dest_pixmap)) == layer_height(*old(dest_pixmap)),
            *final(dest_pixmap) == blitted_layer(*old(dest_pixmap), dest_x, dest_y, *src_pixmap),
    {
        layer_blit(dest_pixmap, dest_x, dest_y, src_pixmap);
    }

    /// Relies on `chrono::Local::now` and `chrono::DateTime::format`: the
    /// current date and time as text. The result depends on the clock, so
    /// nothing is promised of it.
    #[verifier::external_body]
    pub fn date_str() -> String {
        let date = chrono::Local::now();
        format!("{}", date.format("%Y-%m-%d %H:%M:%S%.3f"))
    }

    /// Draws a one-pixel border around the inner perimeter of a layer, as
    /// four thin filled bars: top, bottom, left, right, in that order.
    pub fn draw_border(pixmap: &mut tiny_skia::Pixmap, width: i64, height: i64, color: Rgba)
        requires
            valid_dim(width),
            valid_dim(height),
        ensures
            layer_width(*final(pixmap)) == layer_width(*old(pixmap)),
            layer_height(*final(pixmap)) == layer_height(*old(pixmap)),
            ({
                let hdims = layer_alloc_dims(width, 1);
                let vdims = layer_alloc_dims(1, height);
                let hbar = filled_layer(hdims.0, hdims.1, color.r, color.g, color.b, color.a);
                let vbar = filled_layer(vdims.0, vdims.1, color.r, color.g, color.b, color.a);
                *final(pixmap) == blitted_layer(
                    blitted_layer(
                        blitted_layer(
                            blitted_layer(*old(pixmap), 0, 0, hbar),
                            0,
                            clamp_blit(height - 1),
                            hbar,
                        ),
                        0,
                        0,
                        vbar,
                    ),
                    clamp_blit(width - 1),
                    0,
                    vbar,
                )
            }),
    {
        let mut hbar = layer_new_or_fallback(width, 1);
        layer_fill(&mut hbar, color);
        let mut vbar = layer_new_or_fallback(1, height);
        layer_fill(&mut vbar, color);
        layer_blit_at(pixmap, 0, 0, &hbar);
        layer_blit_at(pixmap, 0, height - 1, &hbar);
        layer_blit_at(pixmap, 0, 0, &vbar);
        layer_blit_at(pixmap, width - 1, 0, &vbar);
    }

    /// Publishes an application event, unless the controller is still
    /// initializing — repaint traffic from widgets being built is dropped
    /// until the event loop runs.
    pub fn fire_user_event(events: &mut EventQueue, running: bool, event: UserEvent)
        ensures
            running ==> final(events)@ == old(events)@.push(event),
            !running ==> final(events)@ == old(events)@,
    {
        if running {
            events.publish(event);
        }
    }

    /// Asks for a partial repaint: the given layer drawn at the given spot.
    pub fn request_redraw(
        events: &mut EventQueue,
        running: bool,
        main_win_uuid: WidgetId,
        x: i64,
        y: i64,
        pixmap: tiny_skia::Pixmap,
    )
        ensures
            running ==> final(events)@ == old(events)@.push(
                UserEvent::Redraw(main_win_uuid, x, y, pixmap),
            ),
            !running ==> final(events)@ == old(events)@,
    {
        Self::fire_user_event(events, running, UserEvent::Redraw(main_win_uuid, x, y, pixmap));
    }

    /// Asks for the whole window to be recomposed.
    pub fn request_full_redraw(events: &mut EventQueue, running: bool, main_win_uuid: WidgetId)
        ensures
            running ==> final(events)@ == old(events)@.push(UserEvent::RedrawAll(main_win_uuid)),
            !running ==> final(events)@ == old(events)@,
    {
        Self::fire_user_event(events, running, UserEvent::RedrawAll(main_win_uuid));
    }

    /// The RGBA bytes of a region of a layer, four per pixel, rows top to
    /// bottom: exactly the cropped region's pixels, clipped to the layer;
    /// empty when the region misses the layer entirely.
    pub fn get_pixel_data(
        src_pixmap: &tiny_skia::Pixmap,
        x: i32,
        y: i32,
        width: u32,
        height: u32,
    ) -> (r: Vec<u8>)
        ensures
            crop_fits(x, y, width, height, layer_width(*src_pixmap), layer_height(*src_pixmap))
                ==> r@ == crate::raster::layer_data(
                crate::raster::cropped_layer(*src_pixmap, x, y, width, height),
            ) && r@.len() == 4 * width * height,
    {
        match layer_crop(src_pixmap, x, y, width, height) {
            Some(portion) => layer_bytes(&portion),
            None => Vec::new(),
        }
    }

    /// Relies on `image::ImageReader::new`, `set_format` and `decode`:
    /// decodes PNG bytes held in memory into an image, or says why it could
    /// not.
    #[verifier::external_body]
    pub fn load_image_from_resource(image_data: &[u8]) -> Result<image::DynamicImage, String> {
        let mut reader = image::ImageReader::new(std::io::Cursor::new(image_data));
        reader.set_format(image::ImageFormat::Png);
        match reader.decode() {
            Ok(img) => Ok(img),
            Err(err) => Err(format!("Could not decode image: {err}")),
        }
    }

    /// Relies on `image::DynamicImage::to_rgba8` (into its raw buffer) and
    /// `width`/`height`: the image's pixels as RGBA bytes, four per pixel,
    /// rows top to bottom, with the image's dimensions. An image buffer may
    /// legally be longer than its pixels need (its constructor only checks a
    /// lower bound, and the pixels occupy the leading bytes), so the buffer
    /// is truncated to exactly the pixel data; the needed length never
    /// exceeds the buffer's, so the truncation is to four bytes per pixel.
    #[verifier::external_body]
    fn image_rgba_bytes(img: &image::DynamicImage) -> (r: (Vec<u8>, u32, u32))
        ensures
            r.0@.len() == 4 * r.1 * r.2,
            r.1 == image_width(*img),
            r.2 == image_height(*img),
    {
        let buf = img.to_rgba8();
        let (w, h) = (buf.width(), buf.height());
        let mut data = buf.into_raw();
        data.truncate(4usize * w as usize * h as usize);
        (data, w, h)
    }

    /// Relies on `tiny_skia::Pixmap::from_vec` and
    /// `tiny_skia_path::IntSize::from_wh`: wraps RGBA bytes as a layer; its
    /// source succeeds on a non-zero size within its limits whose byte
    /// length matches — which 4096 x 4096 and below always is.
    #[verifier::external_body]
    fn layer_from_rgba(data: Vec<u8>, width: u32, height: u32) -> (r: Option<tiny_skia::Pixmap>)
        requires
            data@.len() == 4 * width * height,
        ensures
            r matches Some(p) ==> layer_width(p) == width && layer_height(p) == height,
            (1 <= width <= 4096 && 1 <= height <= 4096) ==> r is Some,
    {
        let size = tiny_skia::IntSize::from_wh(width, height)?;
        tiny_skia::Pixmap::from_vec(data, size)
    }

    /// Draws a decoded image into a layer of the image's size; an image a
    /// layer cannot hold degrades to a blank layer of the clamped size.
    pub fn create_image_pixmap(img: &image::DynamicImage) -> (r: tiny_skia::Pixmap)
        ensures
            (1 <= image_width(*img) <= 4096 && 1 <= image_height(*img) <= 4096) ==> layer_width(r)
                == image_width(*img) && layer_height(r) == image_height(*img),
    {
        let (data, w, h) = Self::image_rgba_bytes(img);
        match Self::layer_from_rgba(data, w, h) {
            Some(p) => p,
            None => {
                let rw = if w > 16384 {
                    16384
                } else {
                    w
                };
                let rh = if h > 16384 {
                    16384
                } else {
                    h
                };
                layer_new_or_fallback(rw as i64, rh as i64)
            },
        }
    }
}

} // verus!
