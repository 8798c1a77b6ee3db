//! The camera-to-clip transform.
//!
//! World coordinates are mapped linearly onto the `[-1, 1]` clip range with
//! the Y axis flipped (screen-down to GL-up), and a point's on-screen pixel
//! radius is kept independent of the world-to-viewport scaling.
//!
//! All scalars here are IEEE-754 binary32 values carried as their `u32` bit
//! patterns, so that the arithmetic can be pinned down exactly in contracts.
//! The arithmetic itself is done by `rustc_apfloat`, which computes the same
//! results as the hardware operations on `f32`.

use vstd::prelude::*;
use rustc_apfloat::Float;

verus! {

/// Bit pattern of `0.0`.
pub const F32_ZERO_BITS: u32 = 0x0000_0000;

/// Bit pattern of `1.0`.
pub const F32_ONE_BITS: u32 = 0x3F80_0000;

/// Bit pattern of `2.0`.
pub const F32_TWO_BITS: u32 = 0x4000_0000;

/// A rectangle of the world that the camera shows. Each bound is the bit
/// pattern of a binary32 value: `x1..x2` runs left to right, `y1..y2` top to
/// bottom (screen-down orientation).
#[derive(Clone, Copy, Debug, PartialEq, Eq, Structural)]
pub struct WorldRect {
    pub x1: u32,
    pub x2: u32,
    pub y1: u32,
    pub y2: u32,
}

/// The error of a world rectangle whose width or height is zero: the
/// transform would divide by zero.
#[derive(Clone, Copy, Debug, PartialEq, Eq, Structural)]
pub enum CameraError {
    DegenerateWorldRect,
}

/// True when `bits` encodes a zero value (either sign).
pub open spec fn f32_bits_is_zero(bits: u32) -> bool {
    bits & 0x7FFF_FFFF == 0
}

/// Checks whether a bit pattern encodes a zero value (either sign).
pub fn is_zero_bits(bits: u32) -> (r: bool)
    ensures
        r == f32_bits_is_zero(bits),
{
    bits & 0x7FFF_FFFF == 0
}

/// The bit pattern of the binary32 difference `a - b`.
pub uninterp spec fn f32_sub(a: u32, b: u32) -> u32;

/// The bit pattern of the binary32 quotient `a / b`.
pub uninterp spec fn f32_div(a: u32, b: u32) -> u32;

/// The bit pattern of the binary32 product `a * b`.
pub uninterp spec fn f32_mul(a: u32, b: u32) -> u32;

/// The bit pattern of the binary32 value `-a`.
pub uninterp spec fn f32_neg(a: u32) -> u32;

/// The bit pattern of the binary32 value nearest to `n`.
pub uninterp spec fn f32_of_usize(n: usize) -> u32;

/// Relies on rustc_apfloat's `Single` subtraction: IEEE-754 binary32, round
/// to nearest with ties to even, a function of the two bit patterns alone.
#[verifier::external_body]
fn sub_bits(a: u32, b: u32) -> (r: u32)
    ensures
        r == f32_sub(a, b),
{
    let x = rustc_apfloat::ieee::Single::from_bits(a as u128);
    let y = rustc_apfloat::ieee::Single::from_bits(b as u128);
    (x - y).value.to_bits() as u32
}

/// Relies on rustc_apfloat's `Single` division: IEEE-754 binary32, round to
/// nearest with ties to even, a function of the two bit patterns alone.
#[verifier::external_body]
fn div_bits(a: u32, b: u32) -> (r: u32)
    ensures
        r == f32_div(a, b),
{
    let x = rustc_apfloat::ieee::Single::from_bits(a as u128);
    let y = rustc_apfloat::ieee::Single::from_bits(b as u128);
    (x / y).value.to_bits() as u32
}

/// Relies on rustc_apfloat's `Single` multiplication: IEEE-754 binary32,
/// round to nearest with ties to even, a function of the two bit patterns
/// alone.
#[verifier::external_body]
fn mul_bits(a: u32, b: u32) -> (r: u32)
    ensures
        r == f32_mul(a, b),
{
    let x = rustc_apfloat::ieee::Single::from_bits(a as u128);
    let y = rustc_apfloat::ieee::Single::from_bits(b as u128);
    (x * y).value.to_bits() as u32
}

/// Relies on rustc_apfloat's `Single` negation, which flips the sign bit.
#[verifier::external_body]
fn neg_bits(a: u32) -> (r: u32)
    ensures
        r == f32_neg(a),
{
    let x = rustc_apfloat::ieee::Single::from_bits(a as u128);
    (-x).to_bits() as u32
}

/// Relies on rustc_apfloat's `Single::from_u128`: the nearest binary32 value
/// (ties to even), the same result as a primitive integer-to-float cast.
#[verifier::external_body]
fn usize_to_f32_bits(n: usize) -> (r: u32)
    ensures
        r == f32_of_usize(n),
{
    let x = rustc_apfloat::ieee::Single::from_u128(n as u128);
    x.value.to_bits() as u32
}

/// The world width `x2 - x1`.
pub open spec fn world_width(world: WorldRect) -> u32 {
    f32_sub(world.x2, world.x1)
}

/// The world height `y2 - y1`.
pub open spec fn world_height(world: WorldRect) -> u32 {
    f32_sub(world.y2, world.y1)
}

/// A world rectangle is degenerate when its width or height is zero.
pub open spec fn degenerate(world: WorldRect) -> bool {
    f32_bits_is_zero(world_width(world)) || f32_bits_is_zero(world_height(world))
}

/// The X scale factor `2.0 / (x2 - x1)`.
pub open spec fn scale_x(world: WorldRect) -> u32 {
    f32_div(F32_TWO_BITS, world_width(world))
}

/// The Y scale factor `-(2.0 / (y2 - y1))`; the negation flips screen-down
/// world coordinates to the GL-up clip convention.
pub open spec fn scale_y(world: WorldRect) -> u32 {
    f32_neg(f32_div(F32_TWO_BITS, world_height(world)))
}

/// The X translation `x1 - (x2 - x1) / 2.0`.
pub open spec fn translate_x(world: WorldRect) -> u32 {
    f32_sub(world.x1, f32_div(world_width(world), F32_TWO_BITS))
}

/// The Y translation `y1 - (y2 - y1) / 2.0`.
pub open spec fn translate_y(world: WorldRect) -> u32 {
    f32_sub(world.y1, f32_div(world_height(world), F32_TWO_BITS))
}

/// The point size scaled so that the rendered pixel radius does not depend
/// on the world-to-viewport scaling: `point_size * (width / (x2 - x1))`
/// where `width` is the viewport width in pixels.
pub open spec fn scaled_point_size(world: WorldRect, viewport_width: usize, point_size: u32) -> u32 {
    f32_mul(point_size, f32_div(f32_of_usize(viewport_width), world_width(world)))
}

/// The uniform values of one draw call: everything the shader program needs
/// besides the vertices. `matrix` holds the nine cells of the transform in
/// the order they are uploaded (row by row of the written matrix, which the
/// graphics API then reads column-major).
#[derive(Clone, Copy, Debug, PartialEq, Eq)]
pub struct CameraUniforms {
    /// The shader program the uniforms belong to.
    pub program: u32,
    /// Whether points are drawn as squares; circles otherwise.
    pub square: bool,
    /// Bit pattern of the scaled point size.
    pub point_size: u32,
    /// Bit patterns of the transform cells, in upload order.
    pub matrix: [u32; 9],
}

/// True when `u` holds exactly the uniform values that the camera transform
/// derives from `world`, `viewport_width` and `point_size`.
pub open spec fn is_camera_uniforms(
    u: CameraUniforms,
    program: u32,
    world: WorldRect,
    viewport_width: usize,
    point_size: u32,
    square: bool,
) -> bool {
    &&& u.program == program
    &&& u.square == square
    &&& u.point_size == scaled_point_size(world, viewport_width, point_size)
    &&& u.matrix[0] == scale_x(world)
    &&& u.matrix[1] == F32_ZERO_BITS
    &&& u.matrix[2] == translate_x(world)
    &&& u.matrix[3] == F32_ZERO_BITS
    &&& u.matrix[4] == scale_y(world)
    &&& u.matrix[5] == translate_y(world)
    &&& u.matrix[6] == F32_ZERO_BITS
    &&& u.matrix[7] == F32_ZERO_BITS
    &&& u.matrix[8] == F32_ONE_BITS
}

/// Derives the uniform values of a draw call: the world-to-clip matrix with
/// the Y axis flipped, and the point size scaled by the pixels-per-world-unit
/// ratio. A world rectangle of zero width or height is rejected.
pub fn set_border_radius(
    program: u32,
    game_world: WorldRect,
    width: usize,
    point_size: u32,
    square: bool,
) -> (r: Result<CameraUniforms, CameraError>)
    ensures
        r is Ok <==> !degenerate(game_world),
        r matches Ok(u) ==> is_camera_uniforms(u, program, game_world, width, point_size, square),
        r matches Err(e) ==> e == CameraError::DegenerateWorldRect,
{
    let w = sub_bits(game_world.x2, game_world.x1);
    let h = sub_bits(game_world.y2, game_world.y1);
    if is_zero_bits(w) || is_zero_bits(h) {
        return Err(CameraError::DegenerateWorldRect);
    }
    let sx = div_bits(F32_TWO_BITS, w);
    let sy = neg_bits(div_bits(F32_TWO_BITS, h));
    let tx = sub_bits(game_world.x1, div_bits(w, F32_TWO_BITS));
    let ty = sub_bits(game_world.y1, div_bits(h, F32_TWO_BITS));
    let point_size2 = mul_bits(point_size, div_bits(usize_to_f32_bits(width), w));
    Ok(CameraUniforms {
        program,
        square,
        point_size: point_size2,
        matrix: [
            sx,
            F32_ZERO_BITS,
            tx,
            F32_ZERO_BITS,
            sy,
            ty,
            F32_ZERO_BITS,
            F32_ZERO_BITS,
            F32_ONE_BITS,
        ],
    })
}

} // verus!
