//! RGB8 frames held as plain bytes.

use vstd::prelude::*;
use crate::text::{decimal, decimal_value, law_decimal, push_decimal};

verus! {

/// The bytes of a frame of `pixels` pixels, every one of them the colour (`r`, `g`, `b`):
/// byte `i` is the red, green or blue channel as `i % 3` is 0, 1 or 2.
pub open spec fn solid_rgb8(pixels: nat, r: u8, g: u8, b: u8) -> Seq<u8> {
    Seq::new(pixels * 3, |i: int| if i % 3 == 0 { r } else if i % 3 == 1 { g } else { b })
}

/// Pixel `p` of a solid frame has the frame's colour: its red, green and blue bytes are
/// bytes `3p`, `3p + 1` and `3p + 2`, and the buffer holds three bytes per pixel.
pub proof fn law_solid_pixels(pixels: nat, r: u8, g: u8, b: u8, p: int)
    requires
        0 <= p < pixels,
    ensures
        solid_rgb8(pixels, r, g, b).len() == pixels * 3,
        solid_rgb8(pixels, r, g, b)[3 * p] == r,
        solid_rgb8(pixels, r, g, b)[3 * p + 1] == g,
        solid_rgb8(pixels, r, g, b)[3 * p + 2] == b,
{
    assert((3 * p) % 3 == 0 && (3 * p + 1) % 3 == 1 && (3 * p + 2) % 3 == 2) by (nonlinear_arith);
    assert(3 * p + 2 < pixels * 3) by (nonlinear_arith)
        requires
            0 <= p < pixels,
    ;
}

/// The buffer of a `width` x `height` solid frame is as long as its shape says: `height` rows
/// of `3 * width` bytes, `height * width * 3` bytes in all.
pub proof fn law_solid_layout(width: u32, height: u32, r: u8, g: u8, b: u8)
    ensures
        solid_rgb8((width * height) as nat, r, g, b).len() == height * (width * 3),
        solid_rgb8((width * height) as nat, r, g, b).len() == height * width * 3,
{
    assert((width * height) * 3 == height * (width * 3)) by (nonlinear_arith);
    assert((width * height) * 3 == height * width * 3) by (nonlinear_arith);
}

/// An uncompressed RGB8 video frame: `height` rows of `width` pixels, three bytes per pixel.
pub struct Frame {
    pub data: Vec<u8>,
    pub width: u32,
    pub height: u32,
    pub seq: u64,
}

/// A frame as handed to the caller.
pub struct PyFrame {
    pub inner: Frame,
}

/// What NumPy's array interface says of a frame's buffer, all but its address.
pub struct ArrayInterface {
    /// `(height, width, 3)`
    pub shape: (u32, u32, u32),
    /// The element type: unsigned bytes.
    pub typestr: String,
    /// Whether the buffer is read-only.
    pub read_only: bool,
    /// The version of the interface.
    pub version: u32,
    /// The byte steps between rows, pixels and channels.
    pub strides: (u32, u32, u32),
}

/// The text that describes a frame.
pub open spec fn frame_repr(seq: u64, width: u32, height: u32, size: nat) -> Seq<char> {
    "Frame(seq="@ + decimal(seq as nat) + ", "@ + decimal(width as nat) + "x"@ + decimal(height as nat)
        + " RGB8, "@ + decimal(size) + " bytes)"@
}

/// The description of a frame names its sequence number, then its width `x` its height,
/// then its byte count, each in decimal, so each can be read back from it.
pub proof fn law_frame_repr(seq: u64, width: u32, height: u32, size: nat)
    ensures
        frame_repr(seq, width, height, size) == "Frame(seq="@ + decimal(seq as nat) + ", "@ + decimal(width as nat)
            + "x"@ + decimal(height as nat) + " RGB8, "@ + decimal(size) + " bytes)"@,
        decimal_value(decimal(seq as nat)) == seq,
        decimal_value(decimal(width as nat)) == width,
        decimal_value(decimal(height as nat)) == height,
        decimal_value(decimal(size)) == size,
{
    law_decimal(seq as nat);
    law_decimal(width as nat);
    law_decimal(height as nat);
    law_decimal(size);
}

impl PyFrame {
    pub fn new(inner: Frame) -> (f: PyFrame)
        ensures
            f.inner == inner,
    {
        PyFrame { inner }
    }

    /// The width in pixels.
    pub fn width(&self) -> (w: u32)
        ensures
            w == self.inner.width,
    {
        self.inner.width
    }

    /// The height in pixels.
    pub fn height(&self) -> (h: u32)
        ensures
            h == self.inner.height,
    {
        self.inner.height
    }

    /// The sequence number given at capture.
    pub fn seq(&self) -> (s: u64)
        ensures
            s == self.inner.seq,
    {
        self.inner.seq
    }

    /// The tensor shape `(height, width, channels)`; channels is always 3.
    pub fn shape(&self) -> (s: (usize, usize, usize))
        ensures
            s == (self.inner.height as usize, self.inner.width as usize, 3usize),
    {
        (self.inner.height as usize, self.inner.width as usize, 3)
    }

    /// The number of bytes in the buffer.
    pub fn size(&self) -> (n: usize)
        ensures
            n == self.inner.data@.len(),
    {
        self.inner.data.len()
    }

    /// Whether the buffer holds no byte.
    pub fn is_empty(&self) -> (b: bool)
        ensures
            b == (self.inner.data@.len() == 0),
    {
        self.inner.data.len() == 0
    }

    /// A copy of the raw bytes.
    pub fn as_bytes(&self) -> (bytes: Vec<u8>)
        ensures
            bytes@ == self.inner.data@,
    {
        let mut bytes: Vec<u8> = Vec::new();
        for i in 0..self.inner.data.len()
            invariant
                bytes@ == self.inner.data@.take(i as int),
        {
            bytes.push(self.inner.data[i]);
            assert(bytes@ =~= self.inner.data@.take(i + 1));
        }
        assert(bytes@ =~= self.inner.data@);
        bytes
    }

    /// The array interface of the buffer: a read-only `height` x `width` x 3 array of unsigned
    /// bytes, in rows of `3 * width` bytes.
    pub fn array_interface(&self) -> (a: ArrayInterface)
        requires
            self.inner.width * 3 <= u32::MAX,
        ensures
            a.shape == (self.inner.height, self.inner.width, 3u32),
            a.typestr@ == "|u1"@,
            a.read_only,
            a.version == 3,
            a.strides == ((self.inner.width * 3) as u32, 3u32, 1u32),
    {
        ArrayInterface {
            shape: (self.inner.height, self.inner.width, 3),
            typestr: String::from_str("|u1"),
            read_only: true,
            version: 3,
            strides: (self.inner.width * 3, 3, 1),
        }
    }

    /// A description of the frame: its sequence number, size in pixels and in bytes.
    pub fn repr(&self) -> (s: String)
        ensures
            s@ == frame_repr(self.inner.seq, self.inner.width, self.inner.height, self.inner.data@.len()),
    {
        let mut s = String::from_str("Frame(seq=");
        push_decimal(&mut s, self.inner.seq);
        s.append(", ");
        push_decimal(&mut s, self.inner.width as u64);
        s.append("x");
        push_decimal(&mut s, self.inner.height as u64);
        s.append(" RGB8, ");
        push_decimal(&mut s, self.inner.data.len() as u64);
        s.append(" bytes)");
        s
    }
}

/// Builds a frame of `width` x `height` pixels, all of the colour (`r`, `g`, `b`).
pub fn create_synthetic_frame(width: u32, height: u32, seq: u64, r: u8, g: u8, b: u8) -> (frame: PyFrame)
    requires
        width * height * 3 <= u32::MAX,
    ensures
        frame.inner.width == width,
        frame.inner.height == height,
        frame.inner.seq == seq,
        frame.inner.data@ == solid_rgb8((width * height) as nat, r, g, b),
{
    assert(width * height <= u32::MAX) by (nonlinear_arith)
        requires
            width * height * 3 <= u32::MAX,
    ;
    let pixels: u32 = width * height;
    let mut data: Vec<u8> = Vec::new();
    let mut p: u32 = 0;
    while p < pixels
        invariant
            p <= pixels,
            data@ == solid_rgb8(p as nat, r, g, b),
        decreases pixels - p,
    {
        data.push(r);
        data.push(g);
        data.push(b);
        p = p + 1;
        assert(data@ =~= solid_rgb8(p as nat, r, g, b));
    }
    PyFrame::new(Frame { data, width, height, seq })
}

} // verus!
