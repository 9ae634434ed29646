//! Plain data carried by the protocol.
//!
//! Real-valued quantities (plane coordinates, kernel parameters, pixel
//! intensities) are held as IEEE-754 bit patterns: a `u64` stands for a
//! binary64 value and a `u32` for a binary32 value. The library moves these
//! values around without ever doing arithmetic on them.

use vstd::prelude::*;

verus! {

/// A slice descriptor over the binary trailer of a message: skip `offset`
/// bytes, then take `count` bytes.
#[derive(Clone, Copy, Debug, PartialEq, Eq, Structural)]
pub struct U8Data {
    pub offset: u32,
    pub count: u32,
}

impl U8Data {
    /// A descriptor of `count` bytes after `offset` bytes.
    pub fn new(offset: u32, count: u32) -> (d: U8Data)
        ensures
            d == (U8Data { offset, count }),
    {
        U8Data { offset, count }
    }
}

/// Descriptor of the pixel run inside the binary trailer: skip `offset`
/// bytes, then `count` pixels follow.
#[derive(Clone, Copy, Debug, PartialEq, Eq, Structural)]
pub struct PixelData {
    pub offset: u32,
    pub count: u32,
}

impl PixelData {
    /// A descriptor of `count` pixels after `offset` bytes.
    pub fn new(offset: u32, count: u32) -> (d: PixelData)
        ensures
            d == (PixelData { offset, count }),
    {
        PixelData { offset, count }
    }
}

/// Pixel count of a tile along each axis.
#[derive(Clone, Copy, Debug, PartialEq, Eq, Structural)]
pub struct Resolution {
    pub nx: u16,
    pub ny: u16,
}

impl Resolution {
    /// A resolution of `nx` by `ny` pixels.
    pub fn new(nx: u16, ny: u16) -> (r: Resolution)
        ensures
            r == (Resolution { nx, ny }),
    {
        Resolution { nx, ny }
    }

    /// Number of pixels of a tile, `nx * ny`, as a mathematical integer.
    pub open spec fn spec_pixel_count(self) -> int {
        self.nx * self.ny
    }

    /// Number of pixels of a tile. The product of two 16-bit counts always
    /// fits in 32 bits.
    pub fn pixel_count(&self) -> (n: u32)
        ensures
            n == self.spec_pixel_count(),
    {
        assert(self.nx * self.ny <= 0xffff * 0xffff) by (nonlinear_arith)
            requires
                self.nx <= 0xffff,
                self.ny <= 0xffff,
        ;
        (self.nx as u32) * (self.ny as u32)
    }
}

/// A point of the fractal plane; each coordinate is a binary64 bit pattern.
#[derive(Clone, Copy, Debug, PartialEq, Eq, Structural)]
pub struct Point {
    pub x: u64,
    pub y: u64,
}

impl Point {
    /// The point with these coordinates, given as bit patterns.
    pub fn new(x: u64, y: u64) -> (p: Point)
        ensures
            p == (Point { x, y }),
    {
        Point { x, y }
    }
}

/// An axis-aligned rectangle of the fractal plane.
#[derive(Clone, Copy, Debug, PartialEq, Eq, Structural)]
pub struct Range {
    pub min: Point,
    pub max: Point,
}

impl Range {
    /// The rectangle between two corners.
    pub fn new(min: Point, max: Point) -> (r: Range)
        ensures
            r == (Range { min, max }),
    {
        Range { min, max }
    }
}

/// A complex number; each part is a binary64 bit pattern.
#[derive(Clone, Copy, Debug, PartialEq, Eq, Structural)]
pub struct Complex {
    pub re: u64,
    pub im: u64,
}

impl Complex {
    /// The number with these parts, given as bit patterns.
    pub fn new(re: u64, im: u64) -> (c: Complex)
        ensures
            c == (Complex { re, im }),
    {
        Complex { re, im }
    }
}

/// The two values a kernel returns for a pixel; each is a binary32 bit
/// pattern.
#[derive(Clone, Copy, Debug, PartialEq, Eq, Structural)]
pub struct PixelIntensity {
    pub zn: u32,
    pub count: u32,
}

impl PixelIntensity {
    /// The intensities of one pixel, given as bit patterns.
    pub fn new(zn: u32, count: u32) -> (p: PixelIntensity)
        ensures
            p == (PixelIntensity { zn, count }),
    {
        PixelIntensity { zn, count }
    }
}

} // verus!
