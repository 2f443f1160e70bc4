//! Barcode rasterization: encode a string as a Code128 barcode and spread
//! the encoded modules into a black-and-white pixel buffer of a requested
//! height, ready for embedding as an image at a computed cell position.

use vstd::arithmetic::div_mod::lemma_fundamental_div_mod;
use vstd::arithmetic::mul::lemma_mul_inequality;
use vstd::prelude::*;

use crate::errors::LayoutError;

verus! {

/// A black-and-white raster, row major from the top row down: `true`
/// pixels are black bars. Every row repeats the same module pattern, so a
/// module index is a pixel column.
#[derive(Clone, Debug, PartialEq, Eq)]
pub struct PixelBuffer {
    pub width: usize,
    pub height: usize,
    pub pixels: Vec<bool>,
}

impl PixelBuffer {
    /// The buffer holds exactly one value per coordinate.
    pub open spec fn wf(&self) -> bool {
        self.pixels@.len() == self.width * self.height
    }

    /// The pixel at column `x` of row `y`.
    pub open spec fn pixel(&self, x: int, y: int) -> bool
        recommends
            0 <= x < self.width,
            0 <= y < self.height,
    {
        self.pixels@[y * self.width + x]
    }

    /// The raster as row-major RGB triples, black bars as 0 and the
    /// background as 255, ready for an uncompressed RGB image container.
    pub fn to_rgb_bytes(&self) -> (bytes: Vec<u8>)
        requires
            self.pixels@.len() * 3 <= usize::MAX,
        ensures
            bytes@.len() == 3 * self.pixels@.len(),
            forall|i: int|
                0 <= i < self.pixels@.len() ==> bytes@[3 * i] == rgb_level(
                    #[trigger] self.pixels@[i],
                ) && bytes@[3 * i + 1] == rgb_level(self.pixels@[i]) && bytes@[3 * i + 2]
                    == rgb_level(self.pixels@[i]),
    {
        let npix = self.pixels.len();
        let mut bytes: Vec<u8> = Vec::new();
        let mut i: usize = 0;
        while i < npix
            invariant
                i <= npix,
                npix == self.pixels@.len(),
                npix * 3 <= usize::MAX,
                bytes@.len() == 3 * i,
                forall|k: int|
                    0 <= k < i ==> bytes@[3 * k] == rgb_level(#[trigger] self.pixels@[k])
                        && bytes@[3 * k + 1] == rgb_level(self.pixels@[k]) && bytes@[3 * k + 2]
                        == rgb_level(self.pixels@[k]),
            decreases npix - i,
        {
            let v: u8 = if self.pixels[i] {
                0
            } else {
                255
            };
            bytes.push(v);
            bytes.push(v);
            bytes.push(v);
            i = i + 1;
        }
        bytes
    }
}

/// The byte level of one RGB channel for a pixel: black bars are 0, the
/// white background 255.
pub open spec fn rgb_level(black: bool) -> u8 {
    if black {
        0
    } else {
        255
    }
}

/// A character the symbology's printable character set covers: the ASCII
/// range from space to tilde.
pub open spec fn code128b_char(c: char) -> bool {
    32 <= c as int <= 126
}

/// Content this crate encodes: nonempty, printable-set characters only.
pub open spec fn valid_barcode_content(s: Seq<char>) -> bool {
    s.len() > 0 && forall|i: int| 0 <= i < s.len() ==> code128b_char(#[trigger] s[i])
}

/// Largest content length the encoder accepts. The Code128 checksum is a
/// fold of symbol index (at most 105) times symbol position into a 32 bit
/// signed sum; at 4096 symbols the sum stays below 9e8, well inside that
/// type, while anywhere past roughly 6900 symbols it would overflow.
pub const MAX_BARCODE_CONTENT: usize = 4096;

/// The module sequence (1 = bar, 0 = space) that the Code128 encoder
/// produces for the given content: a function of the content alone.
pub uninterp spec fn code128_modules(s: Seq<char>) -> Seq<u8>;

/// Relies on barcoders::sym::code128::Code128 (`new` and `encode`): `new`
/// accepts a string headed by a character-set marker and succeeds whenever
/// the remainder stays inside that character set — set B covers ASCII 32
/// through 126 — and `encode` emits eleven 0/1 modules per symbol (start
/// marker included, plus a checksum symbol) followed by a 13-module stop
/// sequence, hence `11 * n + 35` modules for `n` content characters and
/// never fewer than 35. The length bound keeps the encoder's 32 bit
/// checksum fold (symbol index times position, summed) far from overflow.
#[verifier::external_body]
fn code128_encode(content: &str) -> (r: Option<Vec<u8>>)
    requires
        content@.len() <= MAX_BARCODE_CONTENT,
    ensures
        (forall|i: int|
            0 <= i < content@.len() ==> code128b_char(#[trigger] content@[i])) ==> r is Some,
        r matches Some(m) ==> m@ == code128_modules(content@),
        r matches Some(m) ==> m@.len() >= 35 && (forall|i: int|
            0 <= i < m@.len() ==> #[trigger] m@[i] == 0 || m@[i] == 1),
        r matches Some(m) ==> ((forall|i: int|
            0 <= i < content@.len() ==> code128b_char(#[trigger] content@[i])) ==> m@.len() == 35
            + 11 * content@.len()),
{
    let prefixed = format!("\u{0181}{}", content);
    match barcoders::sym::code128::Code128::new(prefixed) {
        Ok(code) => Some(code.encode()),
        Err(_) => None,
    }
}

/// Spreads each module over a full column of `height` pixels: pixel
/// (`x`, `y`) is black exactly when module `x` is a bar.
pub fn rasterize(modules: &Vec<u8>, height: usize) -> (b: PixelBuffer)
    requires
        modules@.len() * height <= usize::MAX,
    ensures
        b.wf(),
        b.width == modules@.len(),
        b.height == height,
        forall|x: int, y: int|
            0 <= x < b.width && 0 <= y < b.height ==> b.pixel(x, y) == (modules@[x] == 1),
{
    let w = modules.len();
    let mut pixels: Vec<bool> = Vec::new();
    let mut y: usize = 0;
    while y < height
        invariant
            y <= height,
            w == modules@.len(),
            w * height <= usize::MAX,
            pixels@.len() == y * w,
            forall|xx: int, yy: int|
                0 <= xx < w && 0 <= yy < y ==> pixels@[#[trigger] (yy * w + xx)] == (modules@[xx]
                    == 1),
        decreases height - y,
    {
        proof {
            lemma_mul_inequality(y as int + 1, height as int, w as int);
            assert(y as int * w + w <= w as int * height) by (nonlinear_arith)
                requires
                    (y as int + 1) * w <= height as int * w,
                    0 <= y as int,
                    0 <= w as int,
            ;
        }
        let mut x: usize = 0;
        while x < w
            invariant
                x <= w,
                y < height,
                w == modules@.len(),
                pixels@.len() == y * w + x,
                y * w + w <= w * height,
                w * height <= usize::MAX,
                forall|xx: int, yy: int|
                    0 <= xx < w && 0 <= yy < y ==> pixels@[#[trigger] (yy * w + xx)] == (
                modules@[xx] == 1),
                forall|xx: int| 0 <= xx < x ==> pixels@[y * w + xx] == (#[trigger] modules@[xx]
                    == 1),
            decreases w - x,
        {
            let bar = modules[x] == 1;
            pixels.push(bar);
            proof {
                assert forall|xx: int, yy: int|
                    0 <= xx < w && 0 <= yy < y implies pixels@[#[trigger] (yy * w + xx)] == (
                modules@[xx] == 1) by {
                    assert(0 <= yy * w + xx < y as int * w) by (nonlinear_arith)
                        requires
                            0 <= xx < w as int,
                            0 <= yy < y as int,
                    ;
                }
            }
            x = x + 1;
        }
        proof {
            assert((y + 1) * w == y * w + w) by (nonlinear_arith);
        }
        y = y + 1;
    }
    let b = PixelBuffer { width: w, height, pixels };
    proof {
        assert(height as int * w == w as int * height) by (nonlinear_arith);
        assert(b.wf());
        assert forall|x: int, y2: int|
            0 <= x < b.width && 0 <= y2 < b.height implies b.pixel(x, y2) == (modules@[x]
            == 1) by {
            assert(0 <= y2 * w + x < height as int * w) by (nonlinear_arith)
                requires
                    0 <= x < w as int,
                    0 <= y2 < height as int,
            ;
        }
    }
    b
}

/// Encodes `content` as a Code128 barcode (character set B) and rasterizes
/// it at the requested height. Succeeds exactly when the content is
/// nonempty, no longer than `MAX_BARCODE_CONTENT`, every character lies in
/// the printable set, and the raster fits in memory; the buffer's width is
/// the symbology-determined module count — `35 + 11` per character — and
/// its height is exactly `height`.
pub fn generate_barcode(content: &str, height: u32) -> (r: Result<PixelBuffer, LayoutError>)
    ensures
        (r is Ok) <==> (valid_barcode_content(content@) && content@.len() <= MAX_BARCODE_CONTENT
            && code128_modules(content@).len() * (height as int) <= usize::MAX),
        (valid_barcode_content(content@) && content@.len() <= MAX_BARCODE_CONTENT)
            ==> code128_modules(content@).len() == 35 + 11 * content@.len(),
        r matches Ok(b) ==> ({
            &&& b.wf()
            &&& b.height == height
            &&& b.width == code128_modules(content@).len()
            &&& b.width > 0
            &&& forall|x: int, y: int|
                0 <= x < b.width && 0 <= y < b.height ==> b.pixel(x, y) == (code128_modules(
                    content@,
                )[x] == 1)
        }),
        r matches Err(e) ==> e == LayoutError::EncodingError,
{
    let n = content.unicode_len();
    if n == 0 {
        return Err(LayoutError::EncodingError);
    }
    let mut i: usize = 0;
    while i < n
        invariant
            i <= n,
            n == content@.len(),
            forall|k: int| 0 <= k < i ==> code128b_char(#[trigger] content@[k]),
        decreases n - i,
    {
        let c = content.get_char(i);
        let cv = c as u32;
        if cv < 32 || cv > 126 {
            return Err(LayoutError::EncodingError);
        }
        i = i + 1;
    }
    if n > MAX_BARCODE_CONTENT {
        return Err(LayoutError::EncodingError);
    }
    let modules = code128_encode(content).unwrap();
    let w = modules.len();
    let h = height as usize;
    if h != 0 && w > usize::MAX / h {
        proof {
            lemma_fundamental_div_mod(usize::MAX as int, h as int);
            lemma_mul_inequality(usize::MAX as int / h as int + 1, w as int, h as int);
            assert(h as int * (usize::MAX as int / h as int) == (usize::MAX as int / h as int)
                * h as int) by (nonlinear_arith);
            assert((usize::MAX as int / h as int) * h as int + h as int > usize::MAX as int);
            assert((usize::MAX as int / h as int + 1) * h as int == (usize::MAX as int
                / h as int) * h as int + h as int) by (nonlinear_arith);
        }
        return Err(LayoutError::EncodingError);
    }
    proof {
        if h != 0 {
            lemma_fundamental_div_mod(usize::MAX as int, h as int);
            lemma_mul_inequality(w as int, usize::MAX as int / h as int, h as int);
            assert(h as int * (usize::MAX as int / h as int) == (usize::MAX as int / h as int)
                * h as int) by (nonlinear_arith);
            assert((usize::MAX as int / h as int) * h as int <= usize::MAX as int);
        } else {
            assert(w as int * h as int == 0) by (nonlinear_arith)
                requires
                    h as int == 0,
            ;
        }
    }
    let buf = rasterize(&modules, h);
    Ok(buf)
}

} // verus!
