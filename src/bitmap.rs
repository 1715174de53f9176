use vstd::prelude::*;
use crate::api::Disposable;
use crate::error::{Error, ErrorKind};

verus! {

/// A pixel image in memory.
pub struct Bitmap {
    width: u32,
    height: u32,
    bits_per_pixel: u32,
    bytes_per_line: u32,
    size: usize,
    pixels: Vec<u8>,
}

/// The model of a `Bitmap`.
pub struct BitmapModel {
    pub width: u32,
    pub height: u32,
    pub bits_per_pixel: u32,
    pub bytes_per_line: u32,
    pub size: nat,
    pub pixels: Seq<u8>,
}

impl View for Bitmap {
    type V = BitmapModel;

    closed spec fn view(&self) -> BitmapModel {
        BitmapModel {
            width: self.width,
            height: self.height,
            bits_per_pixel: self.bits_per_pixel,
            bytes_per_line: self.bytes_per_line,
            size: self.size as nat,
            pixels: self.pixels@,
        }
    }
}

/// Line length of a bitmap: the given one, or else the packed width in bytes.
pub open spec fn spec_bytes_per_line(width: u32, bits_per_pixel: u32, bytes_per_line: u32) -> u32 {
    if bytes_per_line > 0 { bytes_per_line } else { ((width * bits_per_pixel) / 8) as u32 }
}

/// The sizes of a bitmap's layout fit its 32-bit fields.
pub open spec fn spec_layout_fits(width: u32, height: u32, bits_per_pixel: u32, bytes_per_line: u32) -> bool {
    width * bits_per_pixel <= u32::MAX && height * spec_bytes_per_line(width, bits_per_pixel, bytes_per_line) <= u32::MAX
}

/// Number of characters in a character set of `len` bytes: eight bytes each,
/// after an optional two-byte load address.
pub open spec fn spec_charmem_count(len: nat) -> nat {
    len / 8
}

/// Where the character data starts: a length of 2 modulo 8 means a two-byte
/// load address comes first.
pub open spec fn spec_charmem_offset(len: nat) -> nat {
    if len % 8 == 2 { 2 } else { 0 }
}

/// Byte `k` of a decoded character set of `count` 8x8 characters laid side by
/// side, 32 bits per pixel: bit `7 - x` of byte `y` of character `i` becomes
/// four bytes of 0xff when set and of 0 when clear.
pub open spec fn spec_charmem_byte(data: Seq<u8>, count: nat, k: int) -> u8 {
    let bytes_per_line = (count * 32) as int;
    let y = k / bytes_per_line;
    let column = (k % bytes_per_line) / 4;
    let i = column / 8;
    let x = column % 8;
    let src = data[spec_charmem_offset(data.len()) + i * 8 + y];
    if (src >> ((7 - x) as u8)) & 1 == 1 { 0xffu8 } else { 0u8 }
}

/// A quotient stays below `n` when the dividend is below `n` times the divisor.
proof fn lemma_div_below(a: int, b: int, n: int)
    requires
        0 <= a < n * b,
        b > 0,
    ensures
        a / b < n,
        0 <= a / b,
{
    vstd::arithmetic::div_mod::lemma_fundamental_div_mod(a, b);
    vstd::arithmetic::div_mod::lemma_mod_pos_bound(a, b);
    let q = a / b;
    let r = a % b;
    assert(q < n) by (nonlinear_arith)
        requires
            a == b * q + r,
            0 <= r,
            a < n * b,
            b > 0,
    ;
    vstd::arithmetic::div_mod::lemma_div_pos_is_pos(a, b);
}

impl Bitmap {
    pub const FORMAT_DEFAULT: u32 = 0x0;
    pub const FORMAT_CHARSET: u32 = 0x1;

    pub fn width(&self) -> (r: u32)
        ensures
            r == self@.width,
    {
        self.width
    }

    pub fn height(&self) -> (r: u32)
        ensures
            r == self@.height,
    {
        self.height
    }

    pub fn bits_per_pixel(&self) -> (r: u32)
        ensures
            r == self@.bits_per_pixel,
    {
        self.bits_per_pixel
    }

    pub fn bytes_per_line(&self) -> (r: u32)
        ensures
            r == self@.bytes_per_line,
    {
        self.bytes_per_line
    }

    pub fn size(&self) -> (r: usize)
        ensures
            r == self@.size,
    {
        self.size
    }

    pub fn pixels(&self) -> (r: &Vec<u8>)
        ensures
            r@ == self@.pixels,
    {
        &self.pixels
    }

    pub fn pixels_mut(&mut self) -> (r: &mut Vec<u8>)
        ensures
            r@ == old(self)@.pixels,
            final(self)@ == (BitmapModel { pixels: final(r)@, ..old(self)@ }),
    {
        &mut self.pixels
    }

    /// A bitmap layout with no pixel storage; a zero line length is derived
    /// from the width.
    pub fn new(width: u32, height: u32, bits_per_pixel: u32, bytes_per_line: u32) -> (r: Bitmap)
        requires
            spec_layout_fits(width, height, bits_per_pixel, bytes_per_line),
        ensures
            r@.width == width,
            r@.height == height,
            r@.bits_per_pixel == bits_per_pixel,
            r@.bytes_per_line == spec_bytes_per_line(width, bits_per_pixel, bytes_per_line),
            r@.size == height * spec_bytes_per_line(width, bits_per_pixel, bytes_per_line),
            r@.pixels.len() == 0,
    {
        let bpl = if bytes_per_line > 0 { bytes_per_line } else { (width * bits_per_pixel) / 8 };
        let size = (height * bpl) as usize;
        Bitmap { width, height, bits_per_pixel, bytes_per_line: bpl, size, pixels: Vec::new() }
    }

    /// A bitmap layout with zeroed pixel storage of its size.
    pub fn allocate(width: u32, height: u32, bits_per_pixel: u32, bytes_per_line: u32) -> (r: Bitmap)
        requires
            spec_layout_fits(width, height, bits_per_pixel, bytes_per_line),
        ensures
            r@.width == width,
            r@.height == height,
            r@.bits_per_pixel == bits_per_pixel,
            r@.bytes_per_line == spec_bytes_per_line(width, bits_per_pixel, bytes_per_line),
            r@.size == height * spec_bytes_per_line(width, bits_per_pixel, bytes_per_line),
            r@.pixels == Seq::new(r@.size, |k: int| 0u8),
    {
        let mut bitmap = Bitmap::new(width, height, bits_per_pixel, bytes_per_line);
        let mut pixels: Vec<u8> = Vec::new();
        let mut k: usize = 0;
        while k < bitmap.size
            invariant
                k <= bitmap.size,
                pixels@ == Seq::new(k as nat, |j: int| 0u8),
            decreases bitmap.size - k,
        {
            pixels.push(0u8);
            k = k + 1;
            assert(pixels@ =~= Seq::new(k as nat, |j: int| 0u8));
        }
        bitmap.pixels = pixels;
        bitmap
    }

    /// A bitmap over decoded pixels; the line length is the pixel bytes
    /// divided evenly over the lines.
    pub fn from_data(width: u32, height: u32, bits_per_pixel: u32, pixels: Vec<u8>) -> (r: Result<Bitmap, Error>)
        requires
            height > 0,
            pixels@.len() <= u32::MAX,
        ensures
            r.is_ok(),
            r.unwrap()@ == (BitmapModel {
                width,
                height,
                bits_per_pixel,
                bytes_per_line: (pixels@.len() / height as nat) as u32,
                size: pixels@.len(),
                pixels: pixels@,
            }),
    {
        let size = pixels.len();
        let bytes_per_line = (size as u32) / height;
        Ok(Bitmap { width, height, bits_per_pixel, bytes_per_line, size, pixels })
    }

    /// Decodes a character set of 8x8 monochrome characters, eight bytes
    /// each, after an optional two-byte load address, into a 32-bit bitmap
    /// eight pixels high with the characters side by side. Fails on fewer
    /// than eight bytes and on a set too large for the bitmap's sizes.
    pub fn from_charmem(data: &[u8]) -> (r: Result<Bitmap, Error>)
        ensures
            r.is_ok() == (data@.len() >= 8 && spec_charmem_count(data@.len() as nat) * 256 <= u32::MAX),
            r.is_ok() ==> {
                let count = spec_charmem_count(data@.len() as nat);
                let b = r.unwrap()@;
                &&& b.width == count * 8
                &&& b.height == 8
                &&& b.bits_per_pixel == 32
                &&& b.bytes_per_line == count * 32
                &&& b.size == count * 256
                &&& b.pixels == Seq::new(count * 256, |k: int| spec_charmem_byte(data@, count, k))
            },
            r.is_err() ==> r->Err_0.spec_kind() == ErrorKind::GenericGpu,
    {
        let data_size = data.len();
        if data_size < 8 {
            return Err(Error::new(ErrorKind::GenericGpu, "invalid character set data"));
        }
        let char_count = data_size / 8;
        if char_count > 16777215 {
            return Err(Error::new(ErrorKind::GenericGpu, "character set data too large"));
        }
        let width = (char_count * 8) as u32;
        let bits_per_pixel: u32 = 32;
        let mut bitmap = Bitmap::new(width, 8, bits_per_pixel, 0);
        let bytes_per_line = bitmap.bytes_per_line as usize;
        let total = bitmap.size;
        let ghost count = char_count as nat;
        let ghost len = data@.len();
        proof {
            assert(bytes_per_line == count * 32);
            assert(total == count * 256);
            assert(spec_charmem_offset(len) + count * 8 <= len) by {
                vstd::arithmetic::div_mod::lemma_fundamental_div_mod(len as int, 8);
                vstd::arithmetic::div_mod::lemma_mod_pos_bound(len as int, 8);
            }
        }
        let data_offset: usize = if data_size % 8 == 2 { 2 } else { 0 };
        let mut pixels: Vec<u8> = Vec::new();
        let mut k: usize = 0;
        while k < total
            invariant
                k <= total,
                total == count * 256,
                bytes_per_line == count * 32,
                count >= 1,
                data_offset == spec_charmem_offset(len),
                len == data@.len(),
                data_offset + count * 8 <= len,
                pixels@ == Seq::new(k as nat, |j: int| spec_charmem_byte(data@, count, j)),
            decreases total - k,
        {
            let y = k / bytes_per_line;
            let column = (k % bytes_per_line) / 4;
            let i = column / 8;
            let x = column % 8;
            proof {
                lemma_div_below((k as int), (count * 32) as int, 8);
                vstd::arithmetic::div_mod::lemma_mod_pos_bound(k as int, bytes_per_line as int);
                lemma_div_below((k % bytes_per_line) as int, 4, (count * 8) as int);
                lemma_div_below(column as int, 8, count as int);
                assert(i * 8 + y < count * 8) by (nonlinear_arith)
                    requires i < count, y < 8;
            }
            let src = data[data_offset + i * 8 + y];
            let value: u8 = if (src >> ((7 - x) as u8)) & 1 == 1 { 0xff } else { 0 };
            pixels.push(value);
            k = k + 1;
            assert(pixels@ =~= Seq::new(k as nat, |j: int| spec_charmem_byte(data@, count, j)));
        }
        bitmap.pixels = pixels;
        Ok(bitmap)
    }
}

impl Disposable for Bitmap {
    fn dispose(&mut self) {
        self.width = 0;
        self.height = 0;
        self.bits_per_pixel = 0;
        self.bytes_per_line = 0;
        self.size = 0;
        self.pixels.clear();
    }
}

} // verus!
