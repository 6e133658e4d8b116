//! An RGBA8 image held in memory, with sub-image extraction and blitting.

use vstd::prelude::*;
use vstd::arithmetic::div_mod::{lemma_fundamental_div_mod, lemma_fundamental_div_mod_converse};
use vstd::arithmetic::mul::lemma_mul_inequality;

verus! {

#[verifier::external_type_specification]
#[verifier::external_body]
pub struct ExImageError(::image::ImageError);

#[verifier::external_type_specification]
#[verifier::external_body]
pub struct ExImageFormat(::image::ImageFormat);

/// Why an image could not be loaded.
pub enum ImageLoadError {
    /// The file name has no extension, or its extension names no image format.
    UnknownExtension,
    /// No format was recognised from the content, or the bytes could not be decoded in the
    /// format; the decoder's own error is kept.
    Decode(::image::ImageError),
}

/// Decodes `bytes` with `image::load_from_memory`, which guesses the format from the content,
/// and converts the decoded image to 8-bit RGBA with `DynamicImage::to_rgba8`, handing back its
/// `dimensions()` and `into_raw()` buffer. Claimed: on success the buffer holds exactly four
/// bytes per pixel (the decoder fills a buffer of `total_bytes()` bytes, which for RGBA8 is
/// width × height × 4). Whether it succeeds and which pixels it gives are not described: the
/// crate also consults detection and decoding hooks that any code in the process may register.
#[verifier::external_body]
fn decode_rgba8(bytes: &[u8]) -> (r: Result<(u32, u32, Vec<u8>), ::image::ImageError>)
    ensures
        r matches Ok((w, h, d)) ==> d@.len() == w * h * 4,
{
    let img = ::image::load_from_memory(bytes)?.to_rgba8();
    let (w, h) = img.dimensions();
    Ok((w, h, img.into_raw()))
}

/// `c` with the ASCII capitals turned into small letters.
pub open spec fn ascii_lowercase(c: char) -> char {
    if 'A' <= c && c <= 'Z' { ((c as u32) + 32) as char } else { c }
}

/// Whether `ext`, with ASCII capitals taken as small letters, is one of the file extensions
/// that name an image format.
pub open spec fn known_image_extension(ext: Seq<char>) -> bool {
    let e = lowercase_extension(ext);
    ||| e == "avif"@ ||| e == "jpg"@ ||| e == "jpeg"@ ||| e == "jfif"@ ||| e == "png"@
    ||| e == "apng"@ ||| e == "gif"@ ||| e == "webp"@ ||| e == "tif"@ ||| e == "tiff"@
    ||| e == "tga"@ ||| e == "dds"@ ||| e == "bmp"@ ||| e == "ico"@ ||| e == "hdr"@
    ||| e == "exr"@ ||| e == "pbm"@ ||| e == "pam"@ ||| e == "ppm"@ ||| e == "pgm"@
    ||| e == "pnm"@ ||| e == "ff"@ ||| e == "qoi"@
}

/// `image::ImageFormat::from_extension`: the image format that a file extension names, its
/// ASCII letters compared without regard to case. Claimed: there is one exactly when the
/// extension is one that `known_image_extension` lists (the table in the crate's source).
#[verifier::external_body]
fn format_of_extension(ext: &str) -> (r: Option<::image::ImageFormat>)
    ensures
        r is Some <==> known_image_extension(ext@),
{
    ::image::ImageFormat::from_extension(ext)
}

/// `ext` with its ASCII capitals turned into small letters.
pub open spec fn lowercase_extension(ext: Seq<char>) -> Seq<char> {
    ext.map_values(|c: char| ascii_lowercase(c))
}

/// The width, height and 8-bit RGBA pixel bytes of the image encoded in `bytes`, decoded in the
/// built-in format that the (small-letter) file extension `ext` names, when the decoder
/// decodes the bytes in that format.
pub uninterp spec fn rgba8_decoded(bytes: Seq<u8>, ext: Seq<char>) -> Option<(u32, u32, Seq<u8>)>;

/// Takes the built-in format that `ext` names with `image::ImageFormat::from_extension` (there
/// is one, as `format_of_extension` reports), decodes `bytes` in it with
/// `image::load_from_memory_with_format`, which consults no hook for a built-in format, and
/// converts the result to 8-bit RGBA with `DynamicImage::to_rgba8`, handing back its
/// `dimensions()` and `into_raw()` buffer. Claimed: the result is `rgba8_decoded` of the bytes
/// and the small-letter extension (the crate lowercases the extension before its table, and
/// the decoding depends on the bytes and the format alone), and on success the buffer holds
/// exactly four bytes per pixel. What the decoder makes of given bytes is left to the name;
/// the error's content is not described.
#[verifier::external_body]
fn decode_rgba8_in(bytes: &[u8], ext: &str) -> (r: Result<(u32, u32, Vec<u8>), ::image::ImageError>)
    requires
        known_image_extension(ext@),
    ensures
        r is Err <==> rgba8_decoded(bytes@, lowercase_extension(ext@)) is None,
        r matches Ok((w, h, d)) ==> rgba8_decoded(bytes@, lowercase_extension(ext@)) == Some((w, h, d@))
            && d@.len() == w * h * 4,
{
    let format = ::image::ImageFormat::from_extension(ext).expect("the extension names a format");
    let img = ::image::load_from_memory_with_format(bytes, format)?.to_rgba8();
    let (w, h) = img.dimensions();
    Ok((w, h, img.into_raw()))
}

/// Whether `c` separates the parts of a path: `/` or `\`, on every platform.
pub open spec fn is_separator(c: char) -> bool {
    c == '/' || c == '\\'
}

/// The position of the last `.` of `s` that no separator follows, if any.
pub open spec fn last_dot_in_name(s: Seq<char>) -> Option<int>
    decreases s.len(),
{
    if s.len() == 0 {
        None
    } else if s.last() == '.' {
        Some(s.len() - 1)
    } else if is_separator(s.last()) {
        None
    } else {
        last_dot_in_name(s.drop_last())
    }
}

/// The extension of the last part of the path `s`: what follows its last `.`, when that `.`
/// is neither the part's first character nor its last.
pub open spec fn file_extension(s: Seq<char>) -> Option<Seq<char>> {
    match last_dot_in_name(s) {
        Some(k) => if k >= 1 && !is_separator(s[k - 1]) && k + 1 < s.len() {
            Some(s.subrange(k + 1, s.len() as int))
        } else {
            None
        },
        None => None,
    }
}

/// `last_dot_in_name` finds a `.` that only non-separators follow.
proof fn lemma_last_dot_in_name(s: Seq<char>)
    ensures
        last_dot_in_name(s) matches Some(k) ==> 0 <= k < s.len() && s[k] == '.',
    decreases s.len(),
{
    if s.len() > 0 {
        lemma_last_dot_in_name(s.drop_last());
    }
}

/// The position of the last `.` of `s` that no separator follows, if any.
fn find_last_dot_in_name(s: &str) -> (r: Option<usize>)
    ensures
        r matches Some(k) ==> last_dot_in_name(s@) == Some(k as int),
        r is None <==> last_dot_in_name(s@) is None,
{
    let n = s.unicode_len();
    let mut i: usize = n;
    assert(s@.take(n as int) =~= s@);
    while i > 0
        invariant
            i <= n,
            n == s@.len(),
            last_dot_in_name(s@) == last_dot_in_name(s@.take(i as int)),
        decreases i,
    {
        let c = s.get_char(i - 1);
        let ghost t = s@.take(i as int);
        assert(t.last() == c);
        if c == '.' {
            return Some(i - 1);
        }
        if c == '/' || c == '\\' {
            return None;
        }
        assert(t.drop_last() =~= s@.take(i - 1));
        i = i - 1;
    }
    assert(s@.take(0) =~= Seq::<char>::empty());
    None
}

/// The extension of the last part of the path `file_name`, as `file_extension` describes it.
pub fn extension_of(file_name: &str) -> (r: Option<&str>)
    ensures
        r matches Some(e) ==> file_extension(file_name@) == Some(e@),
        r is None <==> file_extension(file_name@) is None,
{
    proof {
        lemma_last_dot_in_name(file_name@);
    }
    let n = file_name.unicode_len();
    match find_last_dot_in_name(file_name) {
        Some(k) => {
            if k >= 1 && k + 1 < n {
                let before = file_name.get_char(k - 1);
                if before != '/' && before != '\\' {
                    return Some(file_name.substring_char(k + 1, n));
                }
            }
            None
        },
        None => None,
    }
}

/// An image of `width` × `height` pixels, four bytes (R, G, B, A) per pixel, stored row by row.
pub struct Image {
    pub width: u32,
    pub height: u32,
    pub data: Vec<u8>,
}

impl Clone for Image {
    fn clone(&self) -> (c: Self)
        ensures
            c.width == self.width,
            c.height == self.height,
            c.data@ == self.data@,
    {
        let data = self.data.clone();
        assert(data@ =~= self.data@);
        Image { width: self.width, height: self.height, data }
    }
}

/// Byte offset of the pixel at column `x`, row `y` in an image `w` pixels wide.
pub open spec fn pixel_offset(w: int, x: int, y: int) -> int {
    (y * w + x) * 4
}

/// The bytes of the `w` × `h` rectangle whose top-left pixel is (`x`, `y`) in an image
/// `src_w` pixels wide, row after row, four bytes per pixel.
pub open spec fn sub_image_bytes(src: Seq<u8>, src_w: int, x: int, y: int, w: int, h: int) -> Seq<u8> {
    Seq::new(
        (w * h * 4) as nat,
        |i: int| src[pixel_offset(src_w, x, y + i / (4 * w)) + i % (4 * w)],
    )
}

/// Whether byte `i` of an image `dst_w` pixels wide lies in the `w` × `h` rectangle whose
/// top-left pixel is (`dx`, `dy`).
pub open spec fn in_rect(i: int, dst_w: int, w: int, h: int, dx: int, dy: int) -> bool {
    &&& dst_w > 0
    &&& 0 <= i
    &&& dy <= i / (4 * dst_w) < dy + h
    &&& 4 * dx <= i % (4 * dst_w) < 4 * (dx + w)
}

/// The source byte that lands on byte `i` of the destination when the `w` × `h` rectangle at
/// (`sx`, `sy`) of the source is copied to (`dx`, `dy`) of the destination.
pub open spec fn blit_source_byte(
    src: Seq<u8>, src_w: int, sx: int, sy: int, i: int, dst_w: int, dx: int, dy: int,
) -> u8 {
    src[pixel_offset(src_w, sx, sy + (i / (4 * dst_w) - dy)) + (i % (4 * dst_w) - 4 * dx)]
}

/// The destination bytes after the `w` × `h` rectangle at (`sx`, `sy`) of `src` (an image
/// `src_w` pixels wide) is copied to (`dx`, `dy`) of `dst` (an image `dst_w` pixels wide);
/// every other byte of `dst` keeps its value.
pub open spec fn blit_bytes(
    dst: Seq<u8>, dst_w: int, src: Seq<u8>, src_w: int,
    sx: int, sy: int, w: int, h: int, dx: int, dy: int,
) -> Seq<u8> {
    Seq::new(
        dst.len(),
        |i: int|
            if in_rect(i, dst_w, w, h, dx, dy) {
                blit_source_byte(src, src_w, sx, sy, i, dst_w, dx, dy)
            } else {
                dst[i]
            },
    )
}

/// Whether reading the `w` × `h` rectangle at (`x`, `y`) pixel by pixel stays within
/// 32-bit pixel indices and within `len` bytes of data, for an image `img_w` pixels wide.
pub open spec fn pixels_readable(len: int, img_w: int, x: int, y: int, w: int, h: int) -> bool {
    w > 0 && h > 0 ==> {
        &&& (y + h - 1) * img_w + (x + w - 1) <= u32::MAX
        &&& pixel_offset(img_w, x + w - 1, y + h - 1) + 4 <= len
    }
}

/// Whether copying the `w` × `h` rectangle at (`x`, `y`) row by row stays within 32-bit
/// pixel indices and within `len` bytes of data, for an image `img_w` pixels wide.
pub open spec fn rows_accessible(len: int, img_w: int, x: int, y: int, w: int, h: int) -> bool {
    h > 0 ==> {
        &&& (y + h - 1) * img_w + x <= u32::MAX
        &&& pixel_offset(img_w, x, y + h - 1) + 4 * w <= len
    }
}

/// `q * s + r` divided by `s` is `q`, with remainder `r`.
proof fn lemma_div_mod_row(q: int, r: int, s: int)
    requires
        s > 0,
        0 <= r < s,
    ensures
        (q * s + r) / s == q,
        (q * s + r) % s == r,
{
    lemma_fundamental_div_mod_converse(q * s + r, s, q, r);
}

/// The byte `c` of a row that starts at pixel (`x`, `y`) is byte `4 * x + c` of row `y`.
proof fn lemma_offset_row(w: int, x: int, y: int, c: int)
    requires
        w > 0,
        0 <= x,
        0 <= y,
        0 <= c,
        4 * x + c < 4 * w,
    ensures
        (pixel_offset(w, x, y) + c) / (4 * w) == y,
        (pixel_offset(w, x, y) + c) % (4 * w) == 4 * x + c,
{
    assert(pixel_offset(w, x, y) + c == y * (4 * w) + (4 * x + c)) by (nonlinear_arith);
    lemma_div_mod_row(y, 4 * x + c, 4 * w);
}

/// Rows further down start at larger offsets.
proof fn lemma_row_monotone(w: int, x: int, y1: int, y2: int)
    requires
        0 <= w,
        0 <= y1 <= y2,
    ensures
        y1 * w + x <= y2 * w + x,
        pixel_offset(w, x, y1) <= pixel_offset(w, x, y2),
{
    lemma_mul_inequality(y1, y2, w);
}

impl Image {
    /// Whether `data` holds at least the `width * height * 4` bytes that the pixels need.
    pub open spec fn wf(&self) -> bool {
        self.width * self.height * 4 <= self.data@.len()
    }

    /// A `width` × `height` image whose bytes are all zero.
    pub fn new(width: u32, height: u32) -> (img: Self)
        requires
            width * height * 4 <= u32::MAX,
        ensures
            img.width == width,
            img.height == height,
            img.data@ == Seq::new((width * height * 4) as nat, |i: int| 0u8),
    {
        let len = (width * height * 4) as usize;
        let mut data: Vec<u8> = Vec::with_capacity(len);
        let mut i: usize = 0;
        while i < len
            invariant
                i <= len,
                data@ == Seq::new(i as nat, |j: int| 0u8),
            decreases len - i,
        {
            data.push(0u8);
            i = i + 1;
        }
        Self { width, height, data }
    }

    /// The image that a decoder's result describes: its width, height and RGBA bytes, or the
    /// decoder's error.
    pub fn from_decoded(decoded: Result<(u32, u32, Vec<u8>), ::image::ImageError>) -> (r: Result<Self, ImageLoadError>)
        ensures
            decoded is Ok <==> r is Ok,
            r matches Ok(img) ==> decoded matches Ok((w, h, d)) && img.width == w && img.height == h && img.data@ == d@,
            r matches Err(e) ==> decoded matches Err(de) && e == ImageLoadError::Decode(de),
    {
        match decoded {
            Ok((width, height, data)) => Ok(Self { width, height, data }),
            Err(e) => Err(ImageLoadError::Decode(e)),
        }
    }

    /// Decodes an encoded image, its format recognised from the content, into RGBA bytes.
    pub fn load_from_bytes(bytes: &[u8]) -> (r: Result<Self, ImageLoadError>)
        ensures
            r matches Ok(img) ==> img.data@.len() == img.width * img.height * 4,
            r matches Err(e) ==> e is Decode,
    {
        Self::from_decoded(decode_rgba8(bytes))
    }

    /// Decodes the contents of an image file named `file_name`, in the format that the
    /// extension of the file name names (see [`extension_of`]), into RGBA bytes.
    pub fn load_from_encoded(bytes: &[u8], file_name: &str) -> (r: Result<Self, ImageLoadError>)
        ensures
            (r matches Err(ImageLoadError::UnknownExtension)) <==> !(file_extension(file_name@) matches Some(e)
                && known_image_extension(e)),
            r matches Ok(img) ==> {
                &&& file_extension(file_name@) matches Some(e)
                &&& rgba8_decoded(bytes@, lowercase_extension(e)) == Some((img.width, img.height, img.data@))
                &&& img.data@.len() == img.width * img.height * 4
            },
            r matches Err(ImageLoadError::Decode(_)) ==> file_extension(file_name@) matches Some(e)
                && rgba8_decoded(bytes@, lowercase_extension(e)) is None,
            (file_extension(file_name@) matches Some(e) && known_image_extension(e)
                && rgba8_decoded(bytes@, lowercase_extension(e)) is Some) ==> r is Ok,
    {
        let ext = match extension_of(file_name) {
            Some(e) => e,
            None => return Err(ImageLoadError::UnknownExtension),
        };
        if format_of_extension(ext).is_none() {
            return Err(ImageLoadError::UnknownExtension);
        }
        Self::from_decoded(decode_rgba8_in(bytes, ext))
    }

    /// A copy of the `width` × `height` rectangle whose top-left pixel is (`x`, `y`).
    pub fn extract_sub_image(&self, x: u32, y: u32, width: u32, height: u32) -> (sub: Self)
        requires
            x + width <= self.width,
            y + height <= self.height,
            width * height * 4 <= u32::MAX,
            pixels_readable(self.data@.len() as int, self.width as int, x as int, y as int, width as int, height as int),
        ensures
            sub.width == width,
            sub.height == height,
            sub.data@ == sub_image_bytes(self.data@, self.width as int, x as int, y as int, width as int, height as int),
    {
        let mut data: Vec<u8> = Vec::with_capacity((width * height * 4) as usize);
        let ghost src = self.data@;
        let ghost w = width as int;
        if width == 0 {
            proof {
                assert(data@ =~= sub_image_bytes(src, self.width as int, x as int, y as int, w, height as int));
            }
            return Self { width, height, data };
        }
        if height == 0 {
            proof {
                assert(data@ =~= sub_image_bytes(src, self.width as int, x as int, y as int, w, height as int));
            }
            return Self { width, height, data };
        }
        proof {
            assert(width * 4 <= width * height * 4) by (nonlinear_arith)
                requires height >= 1;
        }
        let row_len: usize = (width * 4) as usize;
        let mut row: u32 = 0;
        while row < height
            invariant
                row <= height,
                row_len == 4 * w,
                w == width,
                w > 0,
                src == self.data@,
                x + width <= self.width,
                y + height <= self.height,
                width * height * 4 <= u32::MAX,
                pixels_readable(src.len() as int, self.width as int, x as int, y as int, w, height as int),
                data@.len() == row * row_len,
                forall|j: int| 0 <= j < data@.len() ==>
                    #[trigger] data@[j] == src[pixel_offset(self.width as int, x as int, y + j / (4 * w)) + j % (4 * w)],
            decreases height - row,
        {
            proof {
                lemma_row_monotone(self.width as int, x as int, (y + row) as int, (y + height - 1) as int);
                lemma_row_monotone(self.width as int, (x + width - 1) as int, (y + row) as int, (y + height - 1) as int);
                assert(row * row_len + row_len == (row + 1) * row_len) by (nonlinear_arith);
                assert((row + 1) * row_len <= height * row_len) by (nonlinear_arith)
                    requires row + 1 <= height;
                assert(pixel_offset(self.width as int, x as int, (y + row) as int) + row_len
                    <= pixel_offset(self.width as int, (x + width - 1) as int, (y + height - 1) as int) + 4);
            }
            let pixel: u32 = (y + row) * self.width + x;
            assert(self.data@.len() == self.data.len());
            let start: usize = pixel as usize * 4;
            let mut b: usize = 0;
            while b < row_len
                invariant
                    b <= row_len,
                    row < height,
                    row_len == 4 * w,
                    w == width,
                    w > 0,
                    src == self.data@,
                    start == pixel_offset(self.width as int, x as int, (y + row) as int),
                    start + row_len <= src.len(),
                    data@.len() == row * row_len + b,
                    forall|j: int| 0 <= j < data@.len() ==>
                        #[trigger] data@[j] == src[pixel_offset(self.width as int, x as int, y + j / (4 * w)) + j % (4 * w)],
                decreases row_len - b,
            {
                proof {
                    lemma_div_mod_row(row as int, b as int, 4 * w);
                }
                assert(self.data@.len() == self.data.len());
                data.push(self.data[start + b]);
                b = b + 1;
            }
            row = row + 1;
        }
        proof {
            assert(height * row_len == w * height * 4) by (nonlinear_arith)
                requires row_len == 4 * w;
            assert(data@ =~= sub_image_bytes(src, self.width as int, x as int, y as int, w, height as int));
        }
        Self { width, height, data }
    }

    /// Copies the `src_w` × `src_h` rectangle whose top-left pixel is (`src_x`, `src_y`) into
    /// `target`, with its top-left pixel at (`dst_x`, `dst_y`). Every other byte of `target`
    /// keeps its value.
    pub fn blit_sub_image(
        &self,
        src_x: u32,
        src_y: u32,
        src_w: u32,
        src_h: u32,
        target: &mut Image,
        dst_x: u32,
        dst_y: u32,
    )
        requires
            src_x + src_w <= self.width,
            src_y + src_h <= self.height,
            dst_x + src_w <= old(target).width,
            dst_y + src_h <= old(target).height,
            rows_accessible(self.data@.len() as int, self.width as int, src_x as int, src_y as int, src_w as int, src_h as int),
            rows_accessible(old(target).data@.len() as int, old(target).width as int, dst_x as int, dst_y as int, src_w as int, src_h as int),
        ensures
            final(target).width == old(target).width,
            final(target).height == old(target).height,
            final(target).data@ == blit_bytes(
                old(target).data@, old(target).width as int, self.data@, self.width as int,
                src_x as int, src_y as int, src_w as int, src_h as int, dst_x as int, dst_y as int,
            ),
    {
        let ghost old_data = target.data@;
        let ghost tw = target.width as int;
        let ghost sw = self.width as int;
        let ghost src = self.data@;
        let mut row: u32 = 0;
        while row < src_h
            invariant
                row <= src_h,
                tw == target.width,
                sw == self.width,
                src == self.data@,
                target.width == old(target).width,
                target.height == old(target).height,
                src_x + src_w <= self.width,
                src_y + src_h <= self.height,
                dst_x + src_w <= target.width,
                dst_y + src_h <= target.height,
                rows_accessible(src.len() as int, sw, src_x as int, src_y as int, src_w as int, src_h as int),
                rows_accessible(old_data.len() as int, tw, dst_x as int, dst_y as int, src_w as int, src_h as int),
                target.data@.len() == old_data.len(),
                forall|i: int| 0 <= i < old_data.len() ==> #[trigger] target.data@[i] == (
                    if in_rect(i, tw, src_w as int, row as int, dst_x as int, dst_y as int) {
                        blit_source_byte(src, sw, src_x as int, src_y as int, i, tw, dst_x as int, dst_y as int)
                    } else {
                        old_data[i]
                    }),
            decreases src_h - row,
        {
            proof {
                lemma_row_monotone(sw, src_x as int, (src_y + row) as int, (src_y + src_h - 1) as int);
                lemma_row_monotone(tw, dst_x as int, (dst_y + row) as int, (dst_y + src_h - 1) as int);
            }
            assert(self.data@.len() == self.data.len());
            assert(target.data@.len() == target.data.len());
            let src_pixel: u32 = (src_y + row) * self.width + src_x;
            let dst_pixel: u32 = (dst_y + row) * target.width + dst_x;
            let src_index: usize = src_pixel as usize * 4;
            let dst_index: usize = dst_pixel as usize * 4;
            let n: usize = src_w as usize * 4;
            let mut b: usize = 0;
            while b < n
                invariant
                    b <= n,
                    n == 4 * src_w,
                    row < src_h,
                    tw == target.width,
                    sw == self.width,
                    src == self.data@,
                    target.width == old(target).width,
                    target.height == old(target).height,
                    dst_x + src_w <= tw,
                    src_index == pixel_offset(sw, src_x as int, (src_y + row) as int),
                    dst_index == pixel_offset(tw, dst_x as int, (dst_y + row) as int),
                    src_index + n <= src.len(),
                    dst_index + n <= old_data.len(),
                    target.data@.len() == old_data.len(),
                    forall|i: int| 0 <= i < old_data.len() ==> #[trigger] target.data@[i] == (
                        if in_rect(i, tw, src_w as int, row as int, dst_x as int, dst_y as int)
                            || (tw > 0 && i / (4 * tw) == dst_y + row && 4 * dst_x <= i % (4 * tw) < 4 * dst_x + b) {
                            blit_source_byte(src, sw, src_x as int, src_y as int, i, tw, dst_x as int, dst_y as int)
                        } else {
                            old_data[i]
                        }),
                decreases n - b,
            {
                assert(self.data@.len() == self.data.len());
                assert(target.data@.len() == target.data.len());
                let ghost before = target.data@;
                let idx: usize = dst_index + b;
                proof {
                    lemma_offset_row(tw, dst_x as int, (dst_y + row) as int, b as int);
                }
                target.data[idx] = self.data[src_index + b];
                proof {
                    assert forall|i: int| 0 <= i < old_data.len() implies #[trigger] target.data@[i] == (
                        if in_rect(i, tw, src_w as int, row as int, dst_x as int, dst_y as int)
                            || (tw > 0 && i / (4 * tw) == dst_y + row && 4 * dst_x <= i % (4 * tw) < 4 * dst_x + b + 1) {
                            blit_source_byte(src, sw, src_x as int, src_y as int, i, tw, dst_x as int, dst_y as int)
                        } else {
                            old_data[i]
                        }) by {
                        if i != idx {
                            assert(target.data@[i] == before[i]);
                            lemma_fundamental_div_mod(i, 4 * tw);
                            lemma_fundamental_div_mod(idx as int, 4 * tw);
                        }
                    }
                }
                b = b + 1;
            }
            row = row + 1;
        }
        proof {
            assert(target.data@ =~= blit_bytes(
                old_data, tw, src, sw,
                src_x as int, src_y as int, src_w as int, src_h as int, dst_x as int, dst_y as int,
            ));
        }
    }

    /// Copies the whole image into `target`, with its top-left pixel at (`dst_x`, `dst_y`).
    pub fn blit(&self, target: &mut Image, dst_x: u32, dst_y: u32)
        requires
            dst_x + self.width <= old(target).width,
            dst_y + self.height <= old(target).height,
            rows_accessible(self.data@.len() as int, self.width as int, 0, 0, self.width as int, self.height as int),
            rows_accessible(old(target).data@.len() as int, old(target).width as int, dst_x as int, dst_y as int, self.width as int, self.height as int),
        ensures
            final(target).width == old(target).width,
            final(target).height == old(target).height,
            final(target).data@ == blit_bytes(
                old(target).data@, old(target).width as int, self.data@, self.width as int,
                0, 0, self.width as int, self.height as int, dst_x as int, dst_y as int,
            ),
    {
        self.blit_sub_image(0, 0, self.width, self.height, target, dst_x, dst_y);
    }

    /// Copies the `w` × `h` rectangle whose top-left pixel is (`src_x`, `src_y`) so that its
    /// top-left pixel lands on (`dst_x`, `dst_y`) of the same image. The two rectangles may
    /// overlap: every destination byte receives the source byte as it was before the copy.
    /// Every other byte keeps its value.
    pub fn blit_to_self(&mut self, src_x: u32, src_y: u32, w: u32, h: u32, dst_x: u32, dst_y: u32)
        requires
            src_x + w <= old(self).width,
            src_y + h <= old(self).height,
            dst_x + w <= old(self).width,
            dst_y + h <= old(self).height,
            rows_accessible(old(self).data@.len() as int, old(self).width as int, src_x as int, src_y as int, w as int, h as int),
            rows_accessible(old(self).data@.len() as int, old(self).width as int, dst_x as int, dst_y as int, w as int, h as int),
        ensures
            final(self).width == old(self).width,
            final(self).height == old(self).height,
            final(self).data@ == blit_bytes(
                old(self).data@, old(self).width as int, old(self).data@, old(self).width as int,
                src_x as int, src_y as int, w as int, h as int, dst_x as int, dst_y as int,
            ),
    {
        let snapshot = self.clone();
        snapshot.blit_sub_image(src_x, src_y, w, h, self, dst_x, dst_y);
    }
}

/// Copying a rectangle straight from one image into another gives the same bytes as first
/// extracting the rectangle as an image of its own and then copying all of that image.
pub proof fn lemma_blit_sub_image_is_blit_of_extract(
    dst: Seq<u8>, dst_w: int, src: Seq<u8>, src_w: int,
    sx: int, sy: int, w: int, h: int, dx: int, dy: int,
)
    requires
        0 <= sx,
        0 <= sy,
        0 <= w,
        0 <= h,
        0 <= dx,
        0 <= dy,
    ensures
        blit_bytes(dst, dst_w, src, src_w, sx, sy, w, h, dx, dy)
            == blit_bytes(dst, dst_w, sub_image_bytes(src, src_w, sx, sy, w, h), w, 0, 0, w, h, dx, dy),
{
    let sub = sub_image_bytes(src, src_w, sx, sy, w, h);
    assert forall|i: int| 0 <= i < dst.len() implies
        #[trigger] blit_bytes(dst, dst_w, src, src_w, sx, sy, w, h, dx, dy)[i]
            == blit_bytes(dst, dst_w, sub, w, 0, 0, w, h, dx, dy)[i] by {
        if in_rect(i, dst_w, w, h, dx, dy) {
            let r = i / (4 * dst_w) - dy;
            let c = i % (4 * dst_w) - 4 * dx;
            assert(pixel_offset(w, 0, 0 + r) + c == r * (4 * w) + c) by (nonlinear_arith);
            lemma_div_mod_row(r, c, 4 * w);
            assert(r * (4 * w) + c < w * h * 4) by (nonlinear_arith)
                requires 0 <= r < h, 0 <= c < 4 * w;
        }
    }
    assert(blit_bytes(dst, dst_w, src, src_w, sx, sy, w, h, dx, dy)
        =~= blit_bytes(dst, dst_w, sub, w, 0, 0, w, h, dx, dy));
}

/// Extracting a rectangle and copying it back to where it came from leaves the image as it was.
pub proof fn lemma_extract_then_blit_back(d: Seq<u8>, img_w: int, x: int, y: int, w: int, h: int)
    requires
        0 <= x,
        0 <= y,
        0 <= w,
        0 <= h,
    ensures
        blit_bytes(d, img_w, sub_image_bytes(d, img_w, x, y, w, h), w, 0, 0, w, h, x, y) == d,
{
    let sub = sub_image_bytes(d, img_w, x, y, w, h);
    assert forall|i: int| 0 <= i < d.len() implies
        #[trigger] blit_bytes(d, img_w, sub, w, 0, 0, w, h, x, y)[i] == d[i] by {
        if in_rect(i, img_w, w, h, x, y) {
            let q = i / (4 * img_w);
            let m = i % (4 * img_w);
            let r = q - y;
            let c = m - 4 * x;
            assert(pixel_offset(w, 0, 0 + r) + c == r * (4 * w) + c) by (nonlinear_arith);
            lemma_div_mod_row(r, c, 4 * w);
            assert(r * (4 * w) + c < w * h * 4) by (nonlinear_arith)
                requires 0 <= r < h, 0 <= c < 4 * w;
            lemma_fundamental_div_mod(i, 4 * img_w);
            assert(pixel_offset(img_w, x, y + r) + c == (4 * img_w) * q + m) by (nonlinear_arith)
                requires r == q - y, c == m - 4 * x;
        }
    }
    assert(blit_bytes(d, img_w, sub, w, 0, 0, w, h, x, y) =~= d);
}

/// Blitting an image into a target and then extracting the rectangle it landed on gives back
/// the blitted image's pixels; every byte of the target outside that rectangle keeps its value.
pub proof fn lemma_extract_after_blit(dst: Seq<u8>, dst_w: int, src: Seq<u8>, w: int, h: int, dx: int, dy: int)
    requires
        0 <= w,
        0 <= h,
        0 <= dx,
        0 <= dy,
        dx + w <= dst_w,
        w * h * 4 <= src.len(),
        h > 0 ==> pixel_offset(dst_w, dx, dy + h - 1) + 4 * w <= dst.len(),
    ensures
        sub_image_bytes(blit_bytes(dst, dst_w, src, w, 0, 0, w, h, dx, dy), dst_w, dx, dy, w, h)
            == src.take(w * h * 4),
        blit_bytes(dst, dst_w, src, w, 0, 0, w, h, dx, dy).len() == dst.len(),
        forall|i: int| 0 <= i < dst.len() && !in_rect(i, dst_w, w, h, dx, dy) ==>
            #[trigger] blit_bytes(dst, dst_w, src, w, 0, 0, w, h, dx, dy)[i] == dst[i],
{
    let b = blit_bytes(dst, dst_w, src, w, 0, 0, w, h, dx, dy);
    let lhs = sub_image_bytes(b, dst_w, dx, dy, w, h);
    assert forall|i: int| 0 <= i < w * h * 4 implies #[trigger] lhs[i] == src[i] by {
        let q = i / (4 * w);
        let m = i % (4 * w);
        assert(w > 0 && h > 0) by (nonlinear_arith) requires 0 <= i < w * h * 4, w >= 0, h >= 0;
        lemma_fundamental_div_mod(i, 4 * w);
        assert(0 <= q < h) by {
            assert(i < (4 * w) * h) by (nonlinear_arith) requires i < w * h * 4;
            if q >= h {
                assert((4 * w) * q >= (4 * w) * h) by (nonlinear_arith) requires q >= h, w > 0;
            }
        }
        let j = pixel_offset(dst_w, dx, dy + q) + m;
        lemma_offset_row(dst_w, dx, dy + q, m);
        lemma_row_monotone(dst_w, dx, dy + q, dy + h - 1);
        assert(in_rect(j, dst_w, w, h, dx, dy));
        assert(j < dst.len());
        assert(pixel_offset(w, 0, 0 + (j / (4 * dst_w) - dy)) + (j % (4 * dst_w) - 4 * dx) == i) by (nonlinear_arith)
            requires
                j / (4 * dst_w) == dy + q,
                j % (4 * dst_w) == 4 * dx + m,
                i == (4 * w) * q + m;
    }
    assert(lhs =~= src.take(w * h * 4));
}

/// Extracting the whole of an image gives back its pixel bytes.
pub proof fn lemma_extract_whole_image(d: Seq<u8>, w: int, h: int)
    requires
        0 <= w,
        0 <= h,
        w * h * 4 <= d.len(),
    ensures
        sub_image_bytes(d, w, 0, 0, w, h) == d.take(w * h * 4),
{
    assert forall|i: int| 0 <= i < w * h * 4 implies
        #[trigger] sub_image_bytes(d, w, 0, 0, w, h)[i] == d[i] by {
        let q = i / (4 * w);
        let m = i % (4 * w);
        lemma_fundamental_div_mod(i, 4 * w);
        assert(pixel_offset(w, 0, 0 + q) + m == (4 * w) * q + m) by (nonlinear_arith);
    }
    assert(sub_image_bytes(d, w, 0, 0, w, h) =~= d.take(w * h * 4));
}

/// Extracting a rectangle from an extracted rectangle is extracting the combined rectangle
/// from the full image.
pub proof fn lemma_extract_of_extract(
    d: Seq<u8>, img_w: int,
    x1: int, y1: int, w1: int, h1: int,
    x2: int, y2: int, w2: int, h2: int,
)
    requires
        0 <= x1,
        0 <= y1,
        0 <= x2,
        0 <= y2,
        0 <= w2,
        0 <= h2,
        x2 + w2 <= w1,
        y2 + h2 <= h1,
    ensures
        sub_image_bytes(sub_image_bytes(d, img_w, x1, y1, w1, h1), w1, x2, y2, w2, h2)
            == sub_image_bytes(d, img_w, x1 + x2, y1 + y2, w2, h2),
{
    let inner = sub_image_bytes(d, img_w, x1, y1, w1, h1);
    let lhs = sub_image_bytes(inner, w1, x2, y2, w2, h2);
    let rhs = sub_image_bytes(d, img_w, x1 + x2, y1 + y2, w2, h2);
    assert forall|i: int| 0 <= i < w2 * h2 * 4 implies #[trigger] lhs[i] == rhs[i] by {
        let q = i / (4 * w2);
        let m = i % (4 * w2);
        assert(0 <= q < h2) by {
            lemma_fundamental_div_mod(i, 4 * w2);
            assert(i < (4 * w2) * h2) by (nonlinear_arith) requires i < w2 * h2 * 4;
            if q >= h2 {
                assert((4 * w2) * q >= (4 * w2) * h2) by (nonlinear_arith) requires q >= h2, w2 > 0;
            }
        }
        lemma_offset_row(w1, x2, y2 + q, m);
        assert(pixel_offset(w1, x2, y2 + q) + m < w1 * h1 * 4) by (nonlinear_arith)
            requires 0 <= y2 + q < h1, 0 <= x2, 4 * x2 + m < 4 * w1, 0 <= m;
        assert(pixel_offset(img_w, x1, y1 + (y2 + q)) + (4 * x2 + m)
            == pixel_offset(img_w, x1 + x2, y1 + y2 + q) + m) by (nonlinear_arith);
    }
    assert(lhs =~= rhs);
}

} // verus!
