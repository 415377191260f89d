use vstd::prelude::*;

verus! {

#[verifier::external_type_specification]
#[verifier::external_body]
pub struct ExIoError(std::io::Error);

/// The uncompressed PNG file of an RGBA buffer of the given dimensions.
pub uninterp spec fn png_rgba(image: Seq<u8>, width: u32, height: u32) -> Seq<u8>;

/// Relies on `png_encode_mini::write_rgba_from_u8`, which writes the PNG file of
/// `image` to the writer it is given, here a fresh byte vector, and panics
/// unless the buffer holds `width * height` pixels and every row fits its
/// `u32` arithmetic. It fails only where a write to the writer fails, and
/// writing to a `Vec<u8>` only appends, so it succeeds here. The bytes depend
/// on the pixels and dimensions alone.
#[verifier::external_body]
fn write_png(image: &[u8], width: u32, height: u32) -> (r: Result<Vec<u8>, std::io::Error>)
    requires
        width >= 1,
        height >= 1,
        (width * 4 + 1) * height <= u32::MAX,
        image@.len() == width * height * 4,
    ensures
        r is Ok,
        r matches Ok(bytes) ==> bytes@ == png_rgba(image@, width, height),
{
    let mut out: Vec<u8> = Vec::new();
    match png_encode_mini::write_rgba_from_u8(&mut out, image, width, height) {
        Ok(()) => Ok(out),
        Err(e) => Err(e),
    }
}

/// Why an image could not be produced.
#[derive(Debug, Clone, Copy, PartialEq, Eq, Structural)]
pub enum ImageError {
    /// The dimensions are zero, or too large for the encoder.
    BadSize,
    /// The encoder failed to write; a frame written to memory never
    /// gives it.
    Write,
}

/// Whether a frame of these dimensions can be held and encoded: neither is
/// zero, and the encoder's rows, one filter byte and four bytes per pixel
/// each, fit in 32 bits.
pub open spec fn valid_size(width: u32, height: u32) -> bool {
    width >= 1 && height >= 1 && (width * 4 + 1) * height <= u32::MAX
}

/// Byte offset of pixel `(x, y)` in a row-major RGBA buffer.
pub open spec fn pixel_offset(width: u32, x: u32, y: u32) -> int {
    (y * width + x) * 4
}

/// A row-major RGBA image: four bytes per pixel, rows top to bottom.
pub struct Frame {
    width: u32,
    height: u32,
    pixels: Vec<u8>,
}

impl View for Frame {
    type V = Seq<u8>;

    closed spec fn view(&self) -> Seq<u8> {
        self.pixels@
    }
}

impl Frame {
    pub closed spec fn spec_width(&self) -> u32 {
        self.width
    }

    pub closed spec fn spec_height(&self) -> u32 {
        self.height
    }

    /// The buffer holds exactly four bytes for each pixel, and the
    /// dimensions are ones the encoder accepts.
    pub closed spec fn wf(&self) -> bool {
        &&& valid_size(self.width, self.height)
        &&& self.pixels@.len() == self.width * self.height * 4
    }

    /// A black, fully transparent frame, or `BadSize` where the dimensions
    /// are not valid.
    pub fn new(width: u32, height: u32) -> (r: Result<Frame, ImageError>)
        ensures
            valid_size(width, height) <==> r is Ok,
            !valid_size(width, height) ==> r == Err::<Frame, ImageError>(ImageError::BadSize),
            r matches Ok(f) ==> {
                &&& f.wf()
                &&& f.spec_width() == width
                &&& f.spec_height() == height
                &&& f@ == Seq::new((width * height * 4) as nat, |i: int| 0u8)
            },
    {
        if width == 0 || height == 0 {
            return Err(ImageError::BadSize);
        }
        assert((width as int * 4 + 1) * (height as int) <= 0x5_0000_0000 * 0x1_0000_0000)
            by (nonlinear_arith);
        if (width as u128 * 4 + 1) * (height as u128) > u32::MAX as u128 {
            return Err(ImageError::BadSize);
        }
        assert(width * height * 4 < (width * 4 + 1) * height) by (nonlinear_arith)
            requires
                height >= 1,
        ;
        let len = (width * height * 4) as usize;
        let mut pixels: Vec<u8> = Vec::new();
        while pixels.len() < len
            invariant
                pixels@.len() <= len,
                forall|i: int| 0 <= i < pixels@.len() ==> pixels@[i] == 0u8,
            decreases len - pixels.len(),
        {
            pixels.push(0);
        }
        let f = Frame { width, height, pixels };
        assert(f@ =~= Seq::new((width * height * 4) as nat, |i: int| 0u8));
        Ok(f)
    }

    pub fn width(&self) -> (r: u32)
        ensures
            r == self.spec_width(),
    {
        self.width
    }

    pub fn height(&self) -> (r: u32)
        ensures
            r == self.spec_height(),
    {
        self.height
    }

    /// The pixel bytes, row-major, four per pixel.
    pub fn pixels(&self) -> (r: &Vec<u8>)
        ensures
            r@ == self@,
    {
        &self.pixels
    }

    /// Stores an opaque pixel of colour `(r, g, b)` at column `x`, row `y`.
    pub fn set_pixel(&mut self, x: u32, y: u32, r: u8, g: u8, b: u8)
        requires
            old(self).wf(),
            x < old(self).spec_width(),
            y < old(self).spec_height(),
        ensures
            final(self).wf(),
            final(self).spec_width() == old(self).spec_width(),
            final(self).spec_height() == old(self).spec_height(),
            final(self)@ == old(self)@.update(pixel_offset(old(self).spec_width(), x, y), r).update(
                pixel_offset(old(self).spec_width(), x, y) + 1,
                g,
            ).update(pixel_offset(old(self).spec_width(), x, y) + 2, b).update(
                pixel_offset(old(self).spec_width(), x, y) + 3,
                255u8,
            ),
    {
        proof {
            let w = self.width as int;
            let h = self.height as int;
            assert(y * w + x + 1 <= w * h) by (nonlinear_arith)
                requires
                    0 <= x < w,
                    0 <= y < h,
            ;
            assert(w * h * 4 < (w * 4 + 1) * h) by (nonlinear_arith)
                requires
                    h >= 1,
            ;
        }
        let at = ((y * self.width + x) * 4) as usize;
        self.pixels.set(at, r);
        self.pixels.set(at + 1, g);
        self.pixels.set(at + 2, b);
        self.pixels.set(at + 3, 255);
    }

    /// The uncompressed PNG file of this frame.
    pub fn encode_png(&self) -> (r: Result<Vec<u8>, ImageError>)
        requires
            self.wf(),
        ensures
            r is Ok,
            r matches Ok(bytes) ==> bytes@ == png_rgba(self@, self.spec_width(), self.spec_height()),
    {
        match write_png(self.pixels.as_slice(), self.width, self.height) {
            Ok(bytes) => Ok(bytes),
            Err(_) => Err(ImageError::Write),
        }
    }
}

} // verus!
