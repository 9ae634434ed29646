//! The tiles of one image: a 4 x 4 partition of the square `[-1.2, 1.2]^2`,
//! in row-major order, each tile rendered at 300 x 300.
//!
//! The grid is described twice: exactly, in tenths of the plane's unit, and
//! as the binary64 bit patterns that travel in a task.

use crate::binary64::{
    lemma_fields, lemma_window_powers, spec_is_exactly, spec_is_near, spec_is_nearest,
    spec_scaled,
};
use crate::fractal::{
    FractalDescriptor, FractalName, IteratedSinZ, JuliaDescriptor, Mandelbrot, NewtonRaphsonZ3,
    NewtonRaphsonZ4, NovaNewtonRaphsonZ3, NovaNewtonRaphsonZ4,
};
use crate::messages::FragmentTask;
use crate::types::{Complex, Point, Range, Resolution, U8Data};
use vstd::prelude::*;

verus! {

/// Tiles along each axis.
pub const GRID: usize = 4;

/// Tiles of one image.
pub const TILE_COUNT: usize = 16;

/// Pixels of a tile along each axis.
pub const TILE_PIXELS: u16 = 300;

/// Iteration budget of every task.
pub const MAX_ITERATION: u16 = 64;

/// Bytes of a task identifier.
pub const ID_BYTES: u32 = 16;

/// Binary64 bit pattern of -1.2, the first grid line.
pub const LINE_0: u64 = 0xBFF3_3333_3333_3333;

/// Binary64 bit pattern of -0.6, the second grid line.
pub const LINE_1: u64 = 0xBFE3_3333_3333_3333;

/// Binary64 bit pattern of 0.0, the third grid line.
pub const LINE_2: u64 = 0x0000_0000_0000_0000;

/// Binary64 bit pattern of 0.6, the fourth grid line.
pub const LINE_3: u64 = 0x3FE3_3333_3333_3333;

/// Binary64 bit pattern of 1.2, the last grid line.
pub const LINE_4: u64 = 0x3FF3_3333_3333_3333;

/// Binary64 bit pattern of 0.285, the real part of Julia's `c`.
pub const JULIA_C_RE: u64 = 0x3FD2_3D70_A3D7_0A3D;

/// Binary64 bit pattern of 0.013, the imaginary part of Julia's `c`.
pub const JULIA_C_IM: u64 = 0x3F8A_9FBE_76C8_B439;

/// Binary64 bit pattern of 4.0, Julia's squared divergence threshold.
pub const JULIA_THRESHOLD: u64 = 0x4010_0000_0000_0000;

/// Binary64 bit pattern of 1.0, the real part of the iterated sine's `c`.
pub const SIN_C_RE: u64 = 0x3FF0_0000_0000_0000;

/// Binary64 bit pattern of 0.3, the imaginary part of the iterated sine's
/// `c`.
pub const SIN_C_IM: u64 = 0x3FD3_3333_3333_3333;

/// Position of grid line `j` in tenths: -12, -6, 0, 6, 12.
pub open spec fn spec_line_tenths(j: int) -> int {
    6 * j - 12
}

/// Bit pattern of grid line `j`, for `j` from 0 to 4.
pub open spec fn spec_line_bits(j: int) -> u64 {
    if j == 0 {
        LINE_0
    } else if j == 1 {
        LINE_1
    } else if j == 2 {
        LINE_2
    } else if j == 3 {
        LINE_3
    } else {
        LINE_4
    }
}

/// Column of tile `k`.
pub open spec fn spec_tile_col(k: int) -> int {
    k % 4
}

/// Row of tile `k`.
pub open spec fn spec_tile_row(k: int) -> int {
    k / 4
}

/// The rectangle of tile `k`, as it travels in a task.
pub open spec fn spec_tile_range(k: int) -> Range {
    Range {
        min: Point { x: spec_line_bits(spec_tile_col(k)), y: spec_line_bits(spec_tile_row(k)) },
        max: Point {
            x: spec_line_bits(spec_tile_col(k) + 1),
            y: spec_line_bits(spec_tile_row(k) + 1),
        },
    }
}

/// Task `k` of an image of `fractal`. Its identifier is assigned when the
/// task is handed out; here it only says that sixteen bytes will carry it.
pub open spec fn spec_tile_task(fractal: FractalDescriptor, k: int) -> FragmentTask {
    FragmentTask {
        id: U8Data { offset: 0, count: ID_BYTES },
        fractal,
        max_iteration: MAX_ITERATION,
        resolution: Resolution { nx: TILE_PIXELS, ny: TILE_PIXELS },
        range: spec_tile_range(k),
    }
}

/// The sixteen tasks of an image of `fractal`, in row-major order.
pub open spec fn spec_params(fractal: FractalDescriptor) -> Seq<FragmentTask> {
    Seq::new(TILE_COUNT as nat, |k: int| spec_tile_task(fractal, k))
}

/// The kernel parameters that go with each name.
pub open spec fn spec_descriptor(name: FractalName) -> FractalDescriptor {
    match name {
        FractalName::Julia => FractalDescriptor::Julia(
            JuliaDescriptor {
                c: Complex { re: JULIA_C_RE, im: JULIA_C_IM },
                divergence_threshold_square: JULIA_THRESHOLD,
            },
        ),
        FractalName::Mandelbrot => FractalDescriptor::Mandelbrot(Mandelbrot {  }),
        FractalName::IteratedSinZ => FractalDescriptor::IteratedSinZ(
            IteratedSinZ { c: Complex { re: SIN_C_RE, im: SIN_C_IM } },
        ),
        FractalName::NewtonRaphsonZ3 => FractalDescriptor::NewtonRaphsonZ3(NewtonRaphsonZ3 {  }),
        FractalName::NewtonRaphsonZ4 => FractalDescriptor::NewtonRaphsonZ4(NewtonRaphsonZ4 {  }),
        FractalName::NovaNewtonRaphsonZ3 => FractalDescriptor::NovaNewtonRaphsonZ3(
            NovaNewtonRaphsonZ3 {  },
        ),
        FractalName::NovaNewtonRaphsonZ4 => FractalDescriptor::NovaNewtonRaphsonZ4(
            NovaNewtonRaphsonZ4 {  },
        ),
    }
}

/// Bit pattern of grid line `j`.
pub fn line_bits(j: usize) -> (bits: u64)
    requires
        j <= GRID,
    ensures
        bits == spec_line_bits(j as int),
{
    if j == 0 {
        LINE_0
    } else if j == 1 {
        LINE_1
    } else if j == 2 {
        LINE_2
    } else if j == 3 {
        LINE_3
    } else {
        LINE_4
    }
}

/// The rectangle of tile `k`.
pub fn tile_range(k: usize) -> (range: Range)
    requires
        k < TILE_COUNT,
    ensures
        range == spec_tile_range(k as int),
{
    let col: usize = k % GRID;
    let row: usize = k / GRID;
    Range::new(
        Point::new(line_bits(col), line_bits(row)),
        Point::new(line_bits(col + 1), line_bits(row + 1)),
    )
}

/// The kernel parameters that go with `name`.
pub fn descriptor(name: FractalName) -> (fractal: FractalDescriptor)
    ensures
        fractal == spec_descriptor(name),
{
    match name {
        FractalName::Julia => FractalDescriptor::Julia(
            JuliaDescriptor {
                c: Complex::new(JULIA_C_RE, JULIA_C_IM),
                divergence_threshold_square: JULIA_THRESHOLD,
            },
        ),
        FractalName::Mandelbrot => FractalDescriptor::Mandelbrot(Mandelbrot {  }),
        FractalName::IteratedSinZ => FractalDescriptor::IteratedSinZ(
            IteratedSinZ { c: Complex::new(SIN_C_RE, SIN_C_IM) },
        ),
        FractalName::NewtonRaphsonZ3 => FractalDescriptor::NewtonRaphsonZ3(NewtonRaphsonZ3 {  }),
        FractalName::NewtonRaphsonZ4 => FractalDescriptor::NewtonRaphsonZ4(NewtonRaphsonZ4 {  }),
        FractalName::NovaNewtonRaphsonZ3 => FractalDescriptor::NovaNewtonRaphsonZ3(
            NovaNewtonRaphsonZ3 {  },
        ),
        FractalName::NovaNewtonRaphsonZ4 => FractalDescriptor::NovaNewtonRaphsonZ4(
            NovaNewtonRaphsonZ4 {  },
        ),
    }
}

/// The sixteen tasks of an image of the named fractal, in row-major order.
pub fn create_params(name: FractalName) -> (params: Vec<FragmentTask>)
    ensures
        params@ == spec_params(spec_descriptor(name)),
{
    let fractal = descriptor(name);
    let mut params: Vec<FragmentTask> = Vec::new();
    let mut k: usize = 0;
    while k < TILE_COUNT
        invariant
            k <= TILE_COUNT,
            params.len() == k,
            forall|i: int| 0 <= i < k ==> params[i] == spec_tile_task(fractal, i),
        decreases TILE_COUNT - k,
    {
        params.push(
            FragmentTask::new(
                U8Data::new(0, ID_BYTES),
                fractal,
                MAX_ITERATION,
                Resolution::new(TILE_PIXELS, TILE_PIXELS),
                tile_range(k),
            ),
        );
        k += 1;
    }
    assert(params@ =~= spec_params(fractal));
    params
}

/// The sixteen tasks of an image of the Julia set.
pub fn create_params_for_julia() -> (params: Vec<FragmentTask>)
    ensures
        params@ == spec_params(spec_descriptor(FractalName::Julia)),
{
    create_params(FractalName::Julia)
}

/// The sixteen tasks of an image of the Mandelbrot set.
pub fn create_params_for_mandelbrot() -> (params: Vec<FragmentTask>)
    ensures
        params@ == spec_params(spec_descriptor(FractalName::Mandelbrot)),
{
    create_params(FractalName::Mandelbrot)
}

/// The sixteen tasks of an image of the iterated sine.
pub fn create_params_for_iterated_sin_z() -> (params: Vec<FragmentTask>)
    ensures
        params@ == spec_params(spec_descriptor(FractalName::IteratedSinZ)),
{
    create_params(FractalName::IteratedSinZ)
}

/// The sixteen tasks of an image of Newton's method on `z^3 - 1`.
pub fn create_params_for_newton_raphson_z_3() -> (params: Vec<FragmentTask>)
    ensures
        params@ == spec_params(spec_descriptor(FractalName::NewtonRaphsonZ3)),
{
    create_params(FractalName::NewtonRaphsonZ3)
}

/// The sixteen tasks of an image of Newton's method on `z^4 - 1`.
pub fn create_params_for_newton_raphson_z_4() -> (params: Vec<FragmentTask>)
    ensures
        params@ == spec_params(spec_descriptor(FractalName::NewtonRaphsonZ4)),
{
    create_params(FractalName::NewtonRaphsonZ4)
}

/// The sixteen tasks of an image of the Nova variant of Newton's method on `z^3 - 1`.
pub fn create_params_for_nova_newton_raphson_z_3() -> (params: Vec<FragmentTask>)
    ensures
        params@ == spec_params(spec_descriptor(FractalName::NovaNewtonRaphsonZ3)),
{
    create_params(FractalName::NovaNewtonRaphsonZ3)
}

/// The sixteen tasks of an image of the Nova variant of Newton's method on `z^4 - 1`.
pub fn create_params_for_nova_newton_raphson_z_4() -> (params: Vec<FragmentTask>)
    ensures
        params@ == spec_params(spec_descriptor(FractalName::NovaNewtonRaphsonZ4)),
{
    create_params(FractalName::NovaNewtonRaphsonZ4)
}

/// Whether the point `(x / scale, y / scale)`, in tenths, lies in tile `k`.
/// A tile holds its lower and left edge and not its upper and right one.
pub open spec fn spec_in_tile(k: int, x: int, y: int, scale: int) -> bool {
    &&& spec_line_tenths(spec_tile_col(k)) * scale <= x < spec_line_tenths(spec_tile_col(k) + 1)
        * scale
    &&& spec_line_tenths(spec_tile_row(k)) * scale <= y < spec_line_tenths(spec_tile_row(k) + 1)
        * scale
}

/// The sixteen tiles cover the square without gap or overlap: every point
/// with rational coordinates `(x / scale, y / scale)`, in tenths, of
/// `[-1.2, 1.2)^2` lies in exactly one tile.
pub proof fn lemma_tiles_partition(x: int, y: int, scale: int) -> (k: int)
    requires
        scale > 0,
        -12 * scale <= x < 12 * scale,
        -12 * scale <= y < 12 * scale,
    ensures
        0 <= k < TILE_COUNT,
        spec_in_tile(k, x, y, scale),
        forall|j: int| 0 <= j < TILE_COUNT && spec_in_tile(j, x, y, scale) ==> j == k,
{
    let col: int = if x < -6 * scale {
        0
    } else if x < 0 {
        1
    } else if x < 6 * scale {
        2
    } else {
        3
    };
    let row: int = if y < -6 * scale {
        0
    } else if y < 0 {
        1
    } else if y < 6 * scale {
        2
    } else {
        3
    };
    let k = 4 * row + col;
    assert(spec_tile_col(k) == col && spec_tile_row(k) == row);
    assert(spec_line_tenths(col) * scale == 6 * col * scale - 12 * scale) by (nonlinear_arith);
    assert(spec_line_tenths(col + 1) * scale == 6 * col * scale - 6 * scale) by (nonlinear_arith);
    assert(spec_line_tenths(row) * scale == 6 * row * scale - 12 * scale) by (nonlinear_arith);
    assert(spec_line_tenths(row + 1) * scale == 6 * row * scale - 6 * scale) by (nonlinear_arith);
    assert forall|j: int| 0 <= j < TILE_COUNT && spec_in_tile(j, x, y, scale) implies j == k by {
        let c = spec_tile_col(j);
        let r = spec_tile_row(j);
        assert(0 <= c < 4 && 0 <= r < 4 && j == 4 * r + c);
        assert(spec_line_tenths(c) * scale == 6 * c * scale - 12 * scale) by (nonlinear_arith);
        assert(spec_line_tenths(c + 1) * scale == 6 * c * scale - 6 * scale) by (nonlinear_arith);
        assert(spec_line_tenths(r) * scale == 6 * r * scale - 12 * scale) by (nonlinear_arith);
        assert(spec_line_tenths(r + 1) * scale == 6 * r * scale - 6 * scale) by (nonlinear_arith);
        assert(c == col) by (nonlinear_arith)
            requires
                0 <= c < 4,
                0 <= col < 4,
                scale > 0,
                6 * c * scale - 12 * scale <= x < 6 * c * scale - 6 * scale,
                6 * col * scale - 12 * scale <= x < 6 * col * scale - 6 * scale,
        ;
        assert(r == row) by (nonlinear_arith)
            requires
                0 <= r < 4,
                0 <= row < 4,
                scale > 0,
                6 * r * scale - 12 * scale <= y < 6 * r * scale - 6 * scale,
                6 * row * scale - 12 * scale <= y < 6 * row * scale - 6 * scale,
        ;
    }
    k
}

/// The value of each grid line's bit pattern, times `2^60`.
proof fn lemma_line_scaled()
    ensures
        spec_scaled(LINE_0) == -0x1333_3333_3333_3300,
        spec_scaled(LINE_1) == -0x0999_9999_9999_9980,
        spec_scaled(LINE_2) == 0,
        spec_scaled(LINE_3) == 0x0999_9999_9999_9980,
        spec_scaled(LINE_4) == 0x1333_3333_3333_3300,
{
    lemma_window_powers();
    lemma_fields(LINE_0, 1, 1023, 0x3333333333333);
    lemma_fields(LINE_1, 1, 1022, 0x3333333333333);
    lemma_fields(LINE_3, 0, 1022, 0x3333333333333);
    lemma_fields(LINE_4, 0, 1023, 0x3333333333333);
}

/// The bit pattern of each grid line is the binary64 number nearest to the
/// line's position, `spec_line_tenths(j) / 10`; it differs from it by no
/// more than `10^-12`; and the numbers rise with `j`.
pub proof fn lemma_line_values(j: int)
    requires
        0 <= j <= GRID,
    ensures
        spec_is_nearest(spec_line_bits(j), spec_line_tenths(j), 10),
        spec_is_near(spec_line_bits(j), spec_line_tenths(j), 10),
        j < GRID ==> spec_scaled(spec_line_bits(j)) < spec_scaled(spec_line_bits(j + 1)),
{
    lemma_window_powers();
    lemma_line_scaled();
    if j == 0 {
        lemma_fields(LINE_0, 1, 1023, 0x3333333333333);
    } else if j == 1 {
        lemma_fields(LINE_1, 1, 1022, 0x3333333333333);
    } else if j == 2 {
        lemma_fields(LINE_2, 0, 0, 0);
    } else if j == 3 {
        lemma_fields(LINE_3, 0, 1022, 0x3333333333333);
    } else {
        lemma_fields(LINE_4, 0, 1023, 0x3333333333333);
    }
}

/// The kernel parameters are the binary64 numbers nearest to 0.285 and
/// 0.013 (Julia's `c`), 4 exactly (its threshold), 1 exactly and 0.3 (the
/// iterated sine's `c`).
pub proof fn lemma_parameter_values()
    ensures
        spec_is_nearest(JULIA_C_RE, 285, 1000),
        spec_is_near(JULIA_C_RE, 285, 1000),
        spec_is_nearest(JULIA_C_IM, 13, 1000),
        spec_is_near(JULIA_C_IM, 13, 1000),
        spec_is_exactly(JULIA_THRESHOLD, 4, 1),
        spec_is_exactly(SIN_C_RE, 1, 1),
        spec_is_nearest(SIN_C_IM, 3, 10),
        spec_is_near(SIN_C_IM, 3, 10),
{
    lemma_window_powers();
    lemma_fields(JULIA_C_RE, 0, 1021, 0x23d70a3d70a3d);
    lemma_fields(JULIA_C_IM, 0, 1016, 0xa9fbe76c8b439);
    lemma_fields(JULIA_THRESHOLD, 0, 1025, 0x0);
    lemma_fields(SIN_C_RE, 0, 1023, 0x0);
    lemma_fields(SIN_C_IM, 0, 1021, 0x3333333333333);
}

/// The corners of every task's rectangle are the binary64 numbers nearest
/// to the corners of its tile on the grid.
pub proof fn lemma_tile_corners(name: FractalName, k: int)
    requires
        0 <= k < TILE_COUNT,
    ensures
        spec_params(spec_descriptor(name))[k].range == spec_tile_range(k),
        spec_is_nearest(spec_tile_range(k).min.x, spec_line_tenths(spec_tile_col(k)), 10),
        spec_is_nearest(spec_tile_range(k).min.y, spec_line_tenths(spec_tile_row(k)), 10),
        spec_is_nearest(spec_tile_range(k).max.x, spec_line_tenths(spec_tile_col(k) + 1), 10),
        spec_is_nearest(spec_tile_range(k).max.y, spec_line_tenths(spec_tile_row(k) + 1), 10),
        spec_scaled(spec_tile_range(k).min.x) < spec_scaled(spec_tile_range(k).max.x),
        spec_scaled(spec_tile_range(k).min.y) < spec_scaled(spec_tile_range(k).max.y),
{
    lemma_line_values(spec_tile_col(k));
    lemma_line_values(spec_tile_col(k) + 1);
    lemma_line_values(spec_tile_row(k));
    lemma_line_values(spec_tile_row(k) + 1);
}

} // verus!
