//! The frame adapter: from the propagation model's inertial frame to the
//! frame of the rendering target.
//!
//! The change of frame is the fixed signed permutation
//!
//! ```text
//!            |  0  -1   0 |
//!   RENDER = |  0   0   1 |
//!            | -1   0   0 |
//! ```
//!
//! applied to a column vector: render x is native -y, render y is native z
//! and render z is native -x. Lengths are kept: kilometres stay kilometres.

use vstd::prelude::*;
use crate::scalar::Scalar;
use crate::scalar::Vector3;

verus! {

/// The entry of the render matrix at `row` and `col`, both counted from zero.
pub open spec fn render_matrix(row: int, col: int) -> int {
    if row == 0 && col == 1 {
        -1
    } else if row == 1 && col == 2 {
        1
    } else if row == 2 && col == 0 {
        -1
    } else {
        0
    }
}

/// Component `index` of a vector: 0 is x, 1 is y, anything else is z.
pub open spec fn component(v: Vector3, index: int) -> Scalar {
    if index == 0 {
        v.x
    } else if index == 1 {
        v.y
    } else {
        v.z
    }
}

/// What one entry of a signed permutation matrix makes of one component:
/// the component itself for 1, its opposite for -1.
pub open spec fn signed(entry: int, s: Scalar) -> Scalar {
    if entry < 0 {
        s.negated()
    } else {
        s
    }
}

/// The native component that row `row` of the render matrix picks: the
/// column of its one entry that is not zero.
pub open spec fn render_source(row: int) -> int {
    if row == 0 {
        1
    } else if row == 1 {
        2
    } else {
        0
    }
}

/// A native-frame vector in the render frame.
pub open spec fn render_of(v: Vector3) -> Vector3 {
    Vector3 { x: v.y.negated(), y: v.z, z: v.x.negated() }
}

/// A render-frame vector in the native frame: the transposed matrix applied.
pub open spec fn native_of(v: Vector3) -> Vector3 {
    Vector3 { x: v.z.negated(), y: v.x.negated(), z: v.y }
}

/// The render matrix, row by row.
pub fn render_frame_matrix() -> (m: [[i8; 3]; 3])
    ensures
        forall|row: int, col: int|
            0 <= row < 3 && 0 <= col < 3 ==> #[trigger] m[row][col] as int == render_matrix(
                row,
                col,
            ),
{
    let m: [[i8; 3]; 3] = [[0i8, -1i8, 0i8], [0i8, 0i8, 1i8], [-1i8, 0i8, 0i8]];
    m
}

/// Maps a position or velocity from the native frame to the render frame.
pub fn to_render_frame(position_km: Vector3) -> (out: Vector3)
    ensures
        out == render_of(position_km),
{
    Vector3 { x: position_km.y.negate(), y: position_km.z, z: position_km.x.negate() }
}

/// Maps a render-frame vector back to the native frame.
pub fn from_render_frame(rendered: Vector3) -> (out: Vector3)
    ensures
        out == native_of(rendered),
{
    Vector3 { x: rendered.z.negate(), y: rendered.x.negate(), z: rendered.y }
}

/// A fresh output buffer: three positive zeros.
pub fn create_vector_array() -> (out: Vector3)
    ensures
        out == Vector3::zeros(),
{
    Vector3 { x: Scalar::zero(), y: Scalar::zero(), z: Scalar::zero() }
}

/// The render matrix is a signed permutation: each row holds exactly one
/// entry that is not zero, that entry is 1 or -1, and no two rows pick the
/// same column.
pub proof fn render_matrix_is_signed_permutation()
    ensures
        forall|row: int, col: int|
            0 <= row < 3 && 0 <= col < 3 ==> (#[trigger] render_matrix(row, col) != 0 <==> col
                == render_source(row)),
        forall|row: int|
            0 <= row < 3 ==> {
                let entry = #[trigger] render_matrix(row, render_source(row));
                entry == 1 || entry == -1
            },
        forall|r1: int, r2: int|
            0 <= r1 < 3 && 0 <= r2 < 3 && r1 != r2 ==> #[trigger] render_source(r1)
                != #[trigger] render_source(r2),
{
}

/// `to_render_frame` applies the render matrix: each component of the result
/// is the native component that its row picks, with the sign of the entry.
pub proof fn render_applies_matrix(v: Vector3)
    ensures
        forall|row: int|
            0 <= row < 3 ==> #[trigger] component(render_of(v), row) == signed(
                render_matrix(row, render_source(row)),
                component(v, render_source(row)),
            ),
{
}

/// Adapting a vector to the render frame and back gives the vector itself,
/// bit for bit.
pub proof fn render_round_trip(v: Vector3)
    ensures
        native_of(render_of(v)) == v,
        render_of(native_of(v)) == v,
{
    v.x.negated_twice();
    v.y.negated_twice();
    v.z.negated_twice();
}

/// The change of frame neither makes nor mends an infinity or a NaN.
pub proof fn render_keeps_finite(v: Vector3)
    ensures
        render_of(v).finite() == v.finite(),
{
    v.x.negated_keeps_finite();
    v.y.negated_keeps_finite();
}

} // verus!
