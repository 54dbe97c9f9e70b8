//! Pixel formats and the BGRA framebuffer that scanouts and updates build.

use vstd::prelude::*;
use crate::console_listener::ConsoleEvent;

verus! {

/// pixman's `x8r8g8b8` format code: 32-bit pixels, blue in the lowest byte.
pub const PIXMAN_X8R8G8B8: u32 = 0x20020888u32;

/// A VNC pixel format.
#[derive(Debug, Clone, Copy, PartialEq, Eq)]
pub struct PixelFormat {
    pub bits_per_pixel: u8,
    pub depth: u8,
    pub big_endian: bool,
    pub true_colour: bool,
    pub red_max: u16,
    pub green_max: u16,
    pub blue_max: u16,
    pub red_shift: u8,
    pub green_shift: u8,
    pub blue_shift: u8,
}

/// The VNC pixel format of pixman's `x8r8g8b8`: 32 bits a pixel, 24 of them
/// colour, eight bits a channel, red at bit 16, green at 8, blue at 0.
pub open spec fn spec_pixman_xrgb() -> PixelFormat {
    PixelFormat {
        bits_per_pixel: 32,
        depth: 24,
        big_endian: true,
        true_colour: true,
        red_max: 255,
        green_max: 255,
        blue_max: 255,
        red_shift: 16,
        green_shift: 8,
        blue_shift: 0,
    }
}

/// The VNC pixel format in which the framebuffer is sent.
pub fn pixman_xrgb() -> (f: PixelFormat)
    ensures
        f == spec_pixman_xrgb(),
{
    PixelFormat {
        bits_per_pixel: 32,
        depth: 24,
        big_endian: true,
        true_colour: true,
        red_max: 255,
        green_max: 255,
        blue_max: 255,
        red_shift: 16,
        green_shift: 8,
        blue_shift: 0,
    }
}

/// Bits per pixel of a pixman format code.
pub open spec fn pixman_bpp(code: u32) -> u32 {
    code >> 24u32
}

/// Channel layout of a pixman format code (2: ARGB, blue in the low bits).
pub open spec fn pixman_type(code: u32) -> u32 {
    (code >> 16u32) & 0xffu32
}

/// Bits of alpha, red, green and blue of a pixman format code.
pub open spec fn pixman_channel_bits(code: u32) -> (u32, u32, u32, u32) {
    ((code >> 12u32) & 0xfu32, (code >> 8u32) & 0xfu32, (code >> 4u32) & 0xfu32, code & 0xfu32)
}

/// The VNC format in which the framebuffer is sent describes the pixman
/// format that QEMU paints it in: as many bits a pixel, no alpha, channels
/// of as many bits (each at its full range), blue lowest, then green, then
/// red, with the colour depth the sum of the channels.
pub proof fn law_pixman_xrgb_matches_format_code()
    ensures
        ({
            let f = spec_pixman_xrgb();
            let (a, r, g, b) = pixman_channel_bits(PIXMAN_X8R8G8B8);
            &&& f.bits_per_pixel == pixman_bpp(PIXMAN_X8R8G8B8)
            &&& pixman_type(PIXMAN_X8R8G8B8) == 2
            &&& a == 0
            &&& f.red_max + 1 == vstd::arithmetic::power2::pow2(r as nat)
            &&& f.green_max + 1 == vstd::arithmetic::power2::pow2(g as nat)
            &&& f.blue_max + 1 == vstd::arithmetic::power2::pow2(b as nat)
            &&& f.blue_shift == 0
            &&& f.green_shift == b
            &&& f.red_shift == b + g
            &&& f.depth == r + g + b
            &&& f.true_colour
        }),
{
    assert((0x20020888u32 >> 24u32) == 32u32) by (bit_vector);
    assert(((0x20020888u32 >> 16u32) & 0xffu32) == 2u32) by (bit_vector);
    assert(((0x20020888u32 >> 12u32) & 0xfu32) == 0u32) by (bit_vector);
    assert(((0x20020888u32 >> 8u32) & 0xfu32) == 8u32) by (bit_vector);
    assert(((0x20020888u32 >> 4u32) & 0xfu32) == 8u32) by (bit_vector);
    assert((0x20020888u32 & 0xfu32) == 8u32) by (bit_vector);
    vstd::arithmetic::power2::lemma2_to64();
}

/// A rectangle of the framebuffer, as VNC describes it.
#[derive(Debug, Clone, Copy, PartialEq, Eq)]
pub struct Rect {
    pub left: u16,
    pub top: u16,
    pub width: u16,
    pub height: u16,
}

/// What a BGRA image is: its size and its bytes, row after row, four bytes
/// a pixel, with no gap between rows; bytes past the last row are allowed.
pub struct ImageView {
    pub width: u32,
    pub height: u32,
    pub raw: Seq<u8>,
}

impl ImageView {
    /// Bytes in one row.
    pub open spec fn row_len(self) -> int {
        4 * self.width
    }

    /// Byte `j` of row `y` (`j < 4 * width`: byte `j % 4` of pixel `j / 4`).
    pub open spec fn sample(self, y: int, j: int) -> u8 {
        self.raw[y * self.row_len() + j]
    }

    /// Whether the bytes hold every pixel.
    pub open spec fn holds_all(self) -> bool {
        self.raw.len() >= 4 * self.width * self.height
    }

    /// Whether `(y, j)` is a byte of the image.
    pub open spec fn in_image(self, y: int, j: int) -> bool {
        0 <= y < self.height && 0 <= j < self.row_len()
    }
}

/// Byte `j` of row `y` of strided pixel data.
pub open spec fn strided(data: Seq<u8>, stride: int, y: int, j: int) -> u8 {
    data[y * stride + j]
}

/// Whether `len` bytes hold every pixel of a `width` x `height` image whose
/// rows start `stride` bytes apart.
pub open spec fn flat_fits(width: u32, height: u32, stride: u32, len: int) -> bool {
    width == 0 || height == 0 || (height - 1) * stride + 4 * width <= len
}

/// What an image built from strided data holds: the data's pixels, row by row.
pub open spec fn holds_strided(img: ImageView, width: u32, height: u32, stride: u32, data: Seq<u8>) -> bool {
    &&& img.width == width
    &&& img.height == height
    &&& img.holds_all()
    &&& forall|y: int, j: int| img.in_image(y, j) ==> #[trigger] img.sample(y, j) == strided(data, stride as int, y, j)
}

/// Why an image operation was refused.
#[derive(Debug, Clone, Copy, PartialEq, Eq)]
pub enum ImageError {
    /// The source does not fit in the destination at the given position.
    DimensionMismatch,
}

/// Whether `len` bytes hold every pixel of a strided image.
pub fn fits_flat(width: u32, height: u32, stride: u32, len: usize) -> (b: bool)
    ensures
        b == flat_fits(width, height, stride, len as int),
{
    if width == 0 || height == 0 {
        return true;
    }
    proof {
        assert((height - 1) * stride <= 0xffff_ffff * 0xffff_ffff) by (nonlinear_arith)
            requires
                0 <= height - 1 <= 0xffff_ffff,
                0 <= stride <= 0xffff_ffff,
        ;
    }
    let need: u128 = ((height - 1) as u128) * (stride as u128) + 4 * (width as u128);
    need <= len as u128
}

/// Whether an image of `width` x `height` BGRA pixels can be held in memory.
pub fn size_fits(width: u32, height: u32) -> (b: bool)
    ensures
        b == (4 * width * height <= usize::MAX),
{
    proof {
        assert(4 * width * height <= 4 * 0xffff_ffff * 0xffff_ffff) by (nonlinear_arith)
            requires
                0 <= width <= 0xffff_ffff,
                0 <= height <= 0xffff_ffff,
        ;
    }
    let size: u128 = 4 * (width as u128) * (height as u128);
    size <= usize::MAX as u128
}

/// What `image_from_vec` builds: the data's pixels; as its buffer, the data
/// itself when the rows are packed, else a packed copy.
pub open spec fn built_from(img: ImageView, width: u32, height: u32, stride: u32, data: Seq<u8>) -> bool {
    &&& holds_strided(img, width, height, stride, data)
    &&& if keeps_samples(width, height, stride, data.len() as int) {
        img.raw == data
    } else {
        img.raw.len() == 4 * width * height
    }
}

/// Whether `image`'s flat samples of this layout convert to an image buffer
/// without a copy: rows packed (`stride == 4 * width`), samples that hold the
/// whole image, and a layout that the crate counts as row-major packed, which
/// leaves out an empty width, and a single column of no rows.
pub open spec fn keeps_samples(width: u32, height: u32, stride: u32, len: int) -> bool {
    &&& stride == 4 * width
    &&& len >= 4 * width * height
    &&& width >= 1
    &&& (height >= 1 || width >= 2)
}

/// An update in the pixman `x8r8g8b8` format, whose data hold its pixels,
/// whose sides and position are in VNC's 16-bit range, and whose rectangle
/// lies inside the framebuffer (reaching its right and bottom edges
/// included) can be taken; in particular a whole-image update at the origin.
pub proof fn law_update_inside_framebuffer_applies(img: ImageView, u: crate::console_listener::Update)
    requires
        u.format == PIXMAN_X8R8G8B8,
        0 <= u.x <= 0xffff,
        0 <= u.y <= 0xffff,
        0 <= u.w <= 0xffff,
        0 <= u.h <= 0xffff,
        u.w == 0 || u.h == 0 || (u.h - 1) * u.stride + 4 * u.w <= u.data@.len(),
        4 * u.w * u.h <= usize::MAX,
        u.x + u.w <= img.width,
        u.y + u.h <= img.height,
    ensures
        console_event_applicable(img, ConsoleEvent::Update(u)),
{
}

/// An update is taken only where its rectangle lies inside the framebuffer.
pub proof fn law_applied_update_inside_framebuffer(img: ImageView, u: crate::console_listener::Update)
    requires
        console_event_applicable(img, ConsoleEvent::Update(u)),
    ensures
        0 <= u.x,
        0 <= u.y,
        0 <= u.w,
        0 <= u.h,
        u.x + u.w <= img.width,
        u.y + u.h <= img.height,
{
}

/// A 32-bit BGRA image.
pub struct BgraImage {
    width: u32,
    height: u32,
    data: Vec<u8>,
}

/// Byte `(yy, j)` of `dst` after the `rows` first rows and `cols` first bytes
/// of each row of `src` have been copied to it at pixel `(x, y)`.
pub open spec fn copied_sample(
    dst: ImageView,
    src: ImageView,
    x: int,
    y: int,
    rows: int,
    cols: int,
    yy: int,
    j: int,
) -> u8 {
    if y <= yy < y + rows && 4 * x <= j < 4 * x + cols {
        src.sample(yy - y, j - 4 * x)
    } else {
        dst.sample(yy, j)
    }
}

/// Whether an image's bytes are those of `old` but inside the rectangle of
/// `rows` rows and `cols` bytes at pixel `(x, y)`, which come from `src`.
pub open spec fn copied_into(
    new: ImageView,
    old: ImageView,
    src: ImageView,
    x: int,
    y: int,
    rows: int,
    cols: int,
) -> bool {
    &&& new.width == old.width
    &&& new.height == old.height
    &&& new.raw.len() == old.raw.len()
    &&& forall|yy: int, j: int| old.in_image(yy, j) ==> #[trigger] new.sample(yy, j) == copied_sample(
        old,
        src,
        x,
        y,
        rows,
        cols,
        yy,
        j,
    )
    &&& forall|k: int| 4 * old.width * old.height <= k < old.raw.len() ==> #[trigger] new.raw[k] == old.raw[k]
}

/// Whether an update of `w` x `h` pixels at `(x, y)`, taken from strided
/// data, fits the framebuffer and can be applied.
pub open spec fn update_applicable(img: ImageView, x: i32, y: i32, w: i32, h: i32, stride: u32, format: u32, len: int) -> bool {
    &&& format == PIXMAN_X8R8G8B8
    &&& 0 <= x <= 0xffff
    &&& 0 <= y <= 0xffff
    &&& 0 <= w <= 0xffff
    &&& 0 <= h <= 0xffff
    &&& flat_fits(w as u32, h as u32, stride, len)
    &&& 4 * w * h <= usize::MAX
    &&& x + w <= img.width
    &&& y + h <= img.height
}

/// Whether the framebuffer can take a console event: scanouts and updates
/// in the pixman `x8r8g8b8` format whose data hold their pixels, and updates
/// that fit; DMA buffer scanouts and updates are not handled.
pub open spec fn console_event_applicable(img: ImageView, event: ConsoleEvent) -> bool {
    match event {
        ConsoleEvent::Scanout(s) => {
            &&& s.format == PIXMAN_X8R8G8B8
            &&& flat_fits(s.width, s.height, s.stride, s.data@.len() as int)
            &&& 4 * s.width * s.height <= usize::MAX
        },
        ConsoleEvent::Update(u) => update_applicable(img, u.x, u.y, u.w, u.h, u.stride, u.format, u.data@.len() as int),
        ConsoleEvent::ScanoutDMABUF(_) => false,
        ConsoleEvent::UpdateDMABUF(_) => false,
        _ => true,
    }
}

/// The framebuffer after an update: the update's pixels inside its
/// rectangle, the old ones elsewhere.
pub open spec fn updated_with(new: ImageView, old: ImageView, x: int, y: int, w: int, h: int, stride: u32, data: Seq<u8>) -> bool {
    &&& new.width == old.width
    &&& new.height == old.height
    &&& new.holds_all()
    &&& forall|yy: int, j: int| old.in_image(yy, j) ==> #[trigger] new.sample(yy, j) == (if y <= yy < y + h && 4 * x <= j < 4 * x + 4 * w {
        strided(data, stride as int, yy - y, j - 4 * x)
    } else {
        old.sample(yy, j)
    })
}

impl BgraImage {
    /// An image of `width` x `height` black pixels.
    pub fn new(width: u32, height: u32) -> (img: BgraImage)
        requires
            4 * width * height <= usize::MAX,
        ensures
            img@.width == width,
            img@.height == height,
            img@.raw.len() == 4 * width * height,
            forall|k: int| 0 <= k < img@.raw.len() ==> #[trigger] img@.raw[k] == 0,
    {
        proof {
            assert(width * height <= 4 * width * height) by (nonlinear_arith);
            assert(4 * width * height == (width * height) * 4) by (nonlinear_arith);
        }
        let n: usize = (width as usize) * (height as usize) * 4;
        let mut data: Vec<u8> = Vec::new();
        let mut i: usize = 0;
        while i < n
            invariant
                i <= n,
                data@.len() == i,
                forall|k: int| 0 <= k < i ==> #[trigger] data@[k] == 0,
            decreases n - i,
        {
            data.push(0u8);
            i = i + 1;
        }
        BgraImage { width, height, data }
    }

    pub fn width(&self) -> (w: u32)
        ensures
            w == self@.width,
    {
        self.width
    }

    pub fn height(&self) -> (h: u32)
        ensures
            h == self@.height,
    {
        self.height
    }

    /// The image's bytes.
    pub fn as_raw(&self) -> (raw: &Vec<u8>)
        ensures
            raw@ == self@.raw,
    {
        &self.data
    }

    /// The size of the image as VNC sends it: each side cut to 16 bits.
    pub fn dimensions(&self) -> (d: (u16, u16))
        ensures
            d.0 == self@.width as u16,
            d.1 == self@.height as u16,
    {
        (self.width as u16, self.height as u16)
    }

    /// The rectangle of the whole image, as VNC sends it.
    pub fn full_rect(&self) -> (r: Rect)
        ensures
            r == (Rect { left: 0, top: 0, width: self@.width as u16, height: self@.height as u16 }),
    {
        Rect { left: 0, top: 0, width: self.width as u16, height: self.height as u16 }
    }

    #[verifier::spinoff_prover]
    /// Copies `other` into this image with its top left pixel at `(x, y)`;
    /// refused, with the image unchanged, where it does not fit.
    pub fn copy_from(&mut self, other: &BgraImage, x: u32, y: u32) -> (res: Result<(), ImageError>)
        requires
            old(self)@.holds_all(),
            other@.holds_all(),
            other@.width + x <= u32::MAX,
            other@.height + y <= u32::MAX,
        ensures
            res is Err <==> (old(self)@.width < other@.width + x || old(self)@.height < other@.height + y),
            res is Err ==> final(self)@ == old(self)@,
            res is Ok ==> copied_into(final(self)@, old(self)@, other@, x as int, y as int, other@.height as int, 4 * other@.width),
    {
        if self.width < other.width + x || self.height < other.height + y {
            return Err(ImageError::DimensionMismatch);
        }
        let ghost old_v = self@;
        let ghost src = other@;
        let oh: u32 = other.height;
        if oh == 0 || other.width == 0 {
            proof {
                assert forall|yy: int, j: int| old_v.in_image(yy, j) implies #[trigger] self@.sample(yy, j)
                    == copied_sample(old_v, src, x as int, y as int, oh as int, 4 * src.width, yy, j) by {}
            }
            return Ok(());
        }
        proof {
            assert(4 * self.width <= 4 * self.width * self.height) by (nonlinear_arith)
                requires
                    self.height >= 1,
            ;
            assert(4 * other.width <= 4 * other.width * other.height) by (nonlinear_arith)
                requires
                    other.height >= 1,
            ;
        }
        let dst_len: usize = self.data.len();
        let src_len: usize = other.data.len();
        let row: usize = 4 * (self.width as usize);
        let cols: usize = 4 * (other.width as usize);
        let ghost m = row as int;
        let ghost om = cols as int;
        let mut k: u32 = 0;
        while k < oh
            invariant
                0 <= k <= oh,
                oh == src.height,
                oh >= 1,
                om >= 4,
                dst_len == old_v.raw.len(),
                src_len == src.raw.len(),
                row == 4 * old_v.width,
                cols == 4 * src.width,
                m == row,
                om == cols,
                other@ == src,
                src.raw.len() >= 4 * src.width * src.height,
                old_v.raw.len() >= 4 * old_v.width * old_v.height,
                src.width + x <= old_v.width,
                src.height + y <= old_v.height,
                copied_into(self@, old_v, src, x as int, y as int, k as int, om),
            decreases oh - k,
        {
            proof {
                assert(4 * x + om <= m);
                lemma_row_index((y + k) as int, 4 * x + om - 1, old_v.height as int, m);
                lemma_row_index(k as int, om - 1, oh as int, om);
                assert(4 * old_v.width * old_v.height == old_v.height * m) by (nonlinear_arith)
                    requires
                        m == 4 * old_v.width,
                ;
                assert(4 * src.width * src.height == src.height * om) by (nonlinear_arith)
                    requires
                        om == 4 * src.width,
                ;
            }
            let dst_base: usize = ((y + k) as usize) * row + 4 * (x as usize);
            let src_base: usize = (k as usize) * cols;
            let ghost row_start = self@;
            let mut i: usize = 0;
            while i < cols
                invariant
                    0 <= i <= cols,
                    0 <= k < oh,
                    oh == src.height,
                    row == 4 * old_v.width,
                    cols == 4 * src.width,
                    m == row,
                    om == cols,
                    other@ == src,
                    dst_base == (y + k) * m + 4 * x,
                    dst_len == old_v.raw.len(),
                    src_len == src.raw.len(),
                    src_base == k * om,
                    dst_base + om <= old_v.raw.len(),
                    src_base + om <= src.raw.len(),
                    (y + k) * m + 4 * x + om <= old_v.height * m,
                    old_v.height * m == 4 * old_v.width * old_v.height,
                    old_v.raw.len() >= 4 * old_v.width * old_v.height,
                    src.width + x <= old_v.width,
                    src.height + y <= old_v.height,
                    self@.width == old_v.width,
                    self@.height == old_v.height,
                    self@.raw.len() == old_v.raw.len(),
                    forall|yy: int, j: int| old_v.in_image(yy, j) ==> #[trigger] self@.sample(yy, j) == (
                    if (y <= yy < y + k && 4 * x <= j < 4 * x + om) || (yy == y + k && 4 * x <= j < 4 * x + i) {
                        src.sample(yy - y, j - 4 * x)
                    } else {
                        old_v.sample(yy, j)
                    }),
                    forall|q: int| 4 * old_v.width * old_v.height <= q < old_v.raw.len() ==> #[trigger] self@.raw[q] == old_v.raw[q],
                decreases cols - i,
            {
                let ghost before = self@;
                let b = other.data[src_base + i];
                self.data.set(dst_base + i, b);
                proof {
                    let p = dst_base + i;
                    assert(p == (y + k) * m + (4 * x + i));
                    assert(self@.raw == before.raw.update(p, b));
                    assert(4 * x + i < m);
                    assert forall|yy: int, j: int| old_v.in_image(yy, j) implies #[trigger] self@.sample(yy, j) == (
                    if (y <= yy < y + k && 4 * x <= j < 4 * x + om) || (yy == y + k && 4 * x <= j < 4 * x + i + 1) {
                        src.sample(yy - y, j - 4 * x)
                    } else {
                        old_v.sample(yy, j)
                    }) by {
                        lemma_row_index(yy, j, old_v.height as int, m);
                        if yy * m + j == p {
                            lemma_row_major_unique(yy, j, (y + k) as int, 4 * x + i, m);
                            assert(src.sample(k as int, i as int) == b);
                        } else {
                            assert(self@.row_len() == m);
                            assert(before.row_len() == m);
                            assert(self@.raw[yy * m + j] == before.raw[yy * m + j]);
                            assert(self@.sample(yy, j) == before.sample(yy, j));
                            if yy == y + k && j == 4 * x + i {
                                assert(false);
                            }
                        }
                    }
                    assert forall|q: int| 4 * old_v.width * old_v.height <= q < old_v.raw.len() implies #[trigger] self@.raw[q] == old_v.raw[q] by {
                        assert(self@.raw[q] == before.raw[q]);
                    }
                }
                i = i + 1;
            }
            proof {
                assert forall|yy: int, j: int| old_v.in_image(yy, j) implies #[trigger] self@.sample(yy, j)
                    == copied_sample(old_v, src, x as int, y as int, k + 1, om, yy, j) by {}
            }
            k = k + 1;
        }
        Ok(())
    }

    /// Whether the framebuffer holds all of its pixels and can take `event`
    /// (see `console_event_applicable`).
    pub fn can_apply_console_event(&self, event: &ConsoleEvent) -> (b: bool)
        ensures
            b == (self@.holds_all() && console_event_applicable(self@, *event)),
    {
        proof {
            assert(4 * self.width * self.height <= 4 * 0xffff_ffff * 0xffff_ffff) by (nonlinear_arith)
                requires
                    0 <= self.width <= 0xffff_ffff,
                    0 <= self.height <= 0xffff_ffff,
            ;
        }
        let need: u128 = 4 * (self.width as u128) * (self.height as u128);
        if (self.data.len() as u128) < need {
            return false;
        }
        match event {
            ConsoleEvent::Scanout(s) => {
                s.format == PIXMAN_X8R8G8B8 && fits_flat(s.width, s.height, s.stride, s.data.len())
                    && size_fits(s.width, s.height)
            },
            ConsoleEvent::Update(u) => {
                u.format == PIXMAN_X8R8G8B8 && 0 <= u.x && u.x <= 0xffff && 0 <= u.y && u.y <= 0xffff
                    && 0 <= u.w && u.w <= 0xffff && 0 <= u.h && u.h <= 0xffff
                    && fits_flat(u.w as u32, u.h as u32, u.stride, u.data.len())
                    && size_fits(u.w as u32, u.h as u32)
                    && (u.x as u32) + (u.w as u32) <= self.width
                    && (u.y as u32) + (u.h as u32) <= self.height
            },
            ConsoleEvent::ScanoutDMABUF(_) => false,
            ConsoleEvent::UpdateDMABUF(_) => false,
            _ => true,
        }
    }

    /// Takes a console event into the framebuffer. A scanout replaces the
    /// image; an update paints its rectangle and asks, by the returned
    /// rectangle, that it be sent to the client (an update of the whole image
    /// at the origin replaces the image, buffer and all; any other keeps the
    /// buffer's length and the bytes past its pixels); cursor and mouse
    /// events and disconnection change nothing.
    pub fn apply_console_event(&mut self, event: ConsoleEvent) -> (redraw: Option<Rect>)
        requires
            old(self)@.holds_all(),
            console_event_applicable(old(self)@, event),
        ensures
            final(self)@.holds_all(),
            match event {
                ConsoleEvent::Scanout(s) => {
                    &&& built_from(final(self)@, s.width, s.height, s.stride, s.data@)
                    &&& redraw is None
                },
                ConsoleEvent::Update(u) => {
                    &&& updated_with(final(self)@, old(self)@, u.x as int, u.y as int, u.w as int, u.h as int, u.stride, u.data@)
                    &&& if u.x == 0 && u.y == 0 && u.w == old(self)@.width && u.h == old(self)@.height {
                        built_from(final(self)@, u.w as u32, u.h as u32, u.stride, u.data@)
                    } else {
                        &&& final(self)@.raw.len() == old(self)@.raw.len()
                        &&& forall|k: int| 4 * old(self)@.width * old(self)@.height <= k < old(self)@.raw.len()
                            ==> #[trigger] final(self)@.raw[k] == old(self)@.raw[k]
                    }
                    &&& redraw == Some(Rect { left: u.x as u16, top: u.y as u16, width: u.w as u16, height: u.h as u16 })
                },
                _ => {
                    &&& final(self)@ == old(self)@
                    &&& redraw is None
                },
            },
    {
        match event {
            ConsoleEvent::Scanout(s) => {
                *self = image_from_vec(s.format, s.width, s.height, s.stride, s.data);
                None
            },
            ConsoleEvent::Update(u) => {
                let ghost old_v = self@;
                let ghost data = u.data@;
                let update = image_from_vec(u.format, u.w as u32, u.h as u32, u.stride, u.data);
                if u.x == 0 && u.y == 0 && update.width == self.width && update.height == self.height {
                    *self = update;
                } else {
                    let res = self.copy_from(&update, u.x as u32, u.y as u32);
                    proof {
                        assert(res is Ok);
                    }
                }
                Some(Rect { left: u.x as u16, top: u.y as u16, width: u.w as u16, height: u.h as u16 })
            },
            _ => None,
        }
    }
}

impl View for BgraImage {
    type V = ImageView;

    closed spec fn view(&self) -> ImageView {
        ImageView { width: self.width, height: self.height, raw: self.data@ }
    }
}

/// `y * m + j` lies in `[0, h * m)` and before row `y + 1`.
pub proof fn lemma_row_index(y: int, j: int, h: int, m: int)
    requires
        0 <= y < h,
        0 <= j < m,
    ensures
        0 <= y * m,
        0 <= y * m + j < h * m,
        y * m + j < (y + 1) * m,
        (y + 1) * m == y * m + m,
        (y + 1) * m <= h * m,
{
    assert(0 <= y * m) by (nonlinear_arith)
        requires
            0 <= y,
            0 <= m,
    ;
    assert((y + 1) * m == y * m + m) by (nonlinear_arith);
    assert((y + 1) * m <= h * m) by (nonlinear_arith)
        requires
            y + 1 <= h,
            0 <= m,
    ;
}

/// Two positions of a row-major layout with rows of `m` are equal only when
/// their rows and columns are.
pub proof fn lemma_row_major_unique(a: int, b: int, c: int, d: int, m: int)
    requires
        0 <= a,
        0 <= c,
        0 <= b < m,
        0 <= d < m,
        a * m + b == c * m + d,
    ensures
        a == c,
        b == d,
{
    if a < c {
        assert((a + 1) * m <= c * m) by (nonlinear_arith)
            requires
                a + 1 <= c,
                m > 0,
        ;
        assert((a + 1) * m == a * m + m) by (nonlinear_arith);
    } else if c < a {
        assert((c + 1) * m <= a * m) by (nonlinear_arith)
            requires
                c + 1 <= a,
                m > 0,
        ;
        assert((c + 1) * m == c * m + m) by (nonlinear_arith);
    }
}

/// Wraps `image::flat::FlatSamples::try_into_buffer` for BGRA samples laid out
/// four bytes a pixel with rows `stride` bytes apart. The crate succeeds only
/// for a row-major packed layout (`stride == 4 * width`) whose samples hold the
/// whole image and that is not degenerate (see `keeps_samples`), and then
/// keeps the samples as the image's buffer, unchanged; when it fails it gives
/// the samples back unchanged.
#[verifier::external_body]
fn flat_samples_into_buffer(width: u32, height: u32, stride: u32, data: Vec<u8>) -> (res: Result<
    Vec<u8>,
    Vec<u8>,
>)
    ensures
        match res {
            Ok(v) => v@ == data@,
            Err(v) => v@ == data@,
        },
        res is Ok <==> keeps_samples(width, height, stride, data@.len() as int),
{
    let layout = image::flat::SampleLayout {
        channels: 4,
        channel_stride: 1,
        width,
        width_stride: 4,
        height,
        height_stride: stride as usize,
    };
    let samples = image::flat::FlatSamples { samples: data, layout, color_hint: None };
    match samples.try_into_buffer::<image::Bgra<u8>>() {
        Ok(buffer) => Ok(buffer.into_raw()),
        Err((_error, samples)) => Err(samples.samples),
    }
}

/// Copies the rows of strided pixel data into a packed buffer.
fn copy_strided_rows(width: u32, height: u32, stride: u32, data: &Vec<u8>) -> (out: Vec<u8>)
    requires
        flat_fits(width, height, stride, data@.len() as int),
        4 * width * height <= usize::MAX,
    ensures
        out@.len() == 4 * width * height,
        holds_strided(ImageView { width, height, raw: out@ }, width, height, stride, data@),
{
    let mut out: Vec<u8> = Vec::new();
    if height == 0 || width == 0 {
        proof {
            assert(4 * width * height == 0) by (nonlinear_arith)
                requires
                    height == 0 || width == 0,
            ;
        }
        return out;
    }
    proof {
        assert(4 * width <= 4 * width * height) by (nonlinear_arith)
            requires
                height >= 1,
                width >= 0,
        ;
    }
    let data_len: usize = data.len();
    let row_len: usize = 4 * (width as usize);
    let ghost m = row_len as int;
    let ghost view = ImageView { width, height, raw: Seq::<u8>::empty() };
    assert(view.row_len() == m);
    let mut y: u32 = 0;
    while y < height
        invariant
            0 <= y <= height,
            height > 0,
            width > 0,
            row_len == 4 * width,
            m == row_len,
            flat_fits(width, height, stride, data@.len() as int),
            data@.len() == data_len,
            4 * width * height <= usize::MAX,
            out@.len() == y * m,
            forall|yy: int, jj: int|
                0 <= yy < y && 0 <= jj < m ==> #[trigger] out@[yy * m + jj] == strided(
                    data@,
                    stride as int,
                    yy,
                    jj,
                ),
        decreases height - y,
    {
        proof {
            assert(y * stride <= (height - 1) * stride) by (nonlinear_arith)
                requires
                    y <= height - 1,
                    stride >= 0,
            ;
            lemma_row_index(y as int, 0, height as int, m);
            assert(4 * width * height == height * m) by (nonlinear_arith)
                requires
                    m == 4 * width,
            ;
        }
        let base: usize = (y as usize) * (stride as usize);
        let ghost start = out@.len();
        let mut j: usize = 0;
        while j < row_len
            invariant
                0 <= j <= row_len,
                0 <= y < height,
                row_len == m,
                m == 4 * width,
                base == y * stride,
                base + m <= data@.len(),
                data@.len() == data_len,
                start == y * m,
                out@.len() == start + j,
                forall|yy: int, jj: int|
                    0 <= yy < y && 0 <= jj < m ==> #[trigger] out@[yy * m + jj] == strided(
                        data@,
                        stride as int,
                        yy,
                        jj,
                    ),
                forall|jj: int|
                    0 <= jj < j ==> #[trigger] out@[start + jj] == strided(
                        data@,
                        stride as int,
                        y as int,
                        jj,
                    ),
            decreases row_len - j,
        {
            let ghost before = out@;
            out.push(data[base + j]);
            proof {
                assert forall|yy: int, jj: int| 0 <= yy < y && 0 <= jj < m implies #[trigger] out@[yy
                    * m + jj] == strided(data@, stride as int, yy, jj) by {
                    lemma_row_index(yy, jj, y as int, m);
                    assert(out@[yy * m + jj] == before[yy * m + jj]);
                }
            }
            j = j + 1;
        }
        proof {
            assert forall|yy: int, jj: int| 0 <= yy < y + 1 && 0 <= jj < m implies #[trigger] out@[yy
                * m + jj] == strided(data@, stride as int, yy, jj) by {
                if yy == y {
                    assert(out@[start + jj] == strided(data@, stride as int, y as int, jj));
                }
            }
            assert((y + 1) * m == y * m + m) by (nonlinear_arith);
        }
        y = y + 1;
    }
    proof {
        assert(4 * width * height == height * m) by (nonlinear_arith)
            requires
                m == 4 * width,
        ;
        let img = ImageView { width, height, raw: out@ };
        assert forall|yy: int, jj: int| img.in_image(yy, jj) implies #[trigger] img.sample(yy, jj)
            == strided(data@, stride as int, yy, jj) by {
            assert(out@[yy * m + jj] == strided(data@, stride as int, yy, jj));
        }
    }
    out
}

/// Builds a BGRA image from pixman `x8r8g8b8` pixels whose rows start
/// `stride` bytes apart. Rows laid out packed keep `data` as the image's
/// buffer; other layouts are copied row by row.
pub fn image_from_vec(format: u32, width: u32, height: u32, stride: u32, data: Vec<u8>) -> (img:
    BgraImage)
    requires
        format == PIXMAN_X8R8G8B8,
        flat_fits(width, height, stride, data@.len() as int),
        4 * width * height <= usize::MAX,
    ensures
        built_from(img@, width, height, stride, data@),
{
    let ghost original = data@;
    proof {
        if width > 0 && height > 0 && stride == 4 * width {
            assert((height - 1) * stride + 4 * width == 4 * width * height) by (nonlinear_arith)
                requires
                    stride == 4 * width,
            ;
        }
    }
    match flat_samples_into_buffer(width, height, stride, data) {
        Ok(raw) => {
            let img = BgraImage { width, height, data: raw };
            proof {
                assert forall|y: int, j: int| img@.in_image(y, j) implies #[trigger] img@.sample(y, j)
                    == strided(original, stride as int, y, j) by {
                    assert(img@.row_len() == stride);
                }
            }
            img
        },
        Err(data) => {
            let out = copy_strided_rows(width, height, stride, &data);
            BgraImage { width, height, data: out }
        },
    }
}

} // verus!
