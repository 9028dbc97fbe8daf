//! The placement matrices of shapes, patterns and the camera.
//!
//! A matrix is carried through the scene as a `glam::Mat4`; the library never
//! looks inside one, it only stores and hands on what glam computes.
use vstd::prelude::*;
use glam::Mat4;

verus! {

/// glam's 4x4 matrix, carried opaque.
#[verifier::external_type_specification]
#[verifier::external_body]
pub struct ExMat4(glam::Mat4);

/// glam's four-component vector, carried opaque: a light's position.
#[verifier::external_type_specification]
#[verifier::external_body]
pub struct ExVec4(glam::Vec4);

/// Relies on glam's `Mat4::IDENTITY`: the matrix that leaves every point in
/// place.
#[verifier::external_body]
pub(crate) fn identity() -> Mat4 {
    Mat4::IDENTITY
}

/// What glam's `Mat4::inverse` returns for a matrix: its inverse, computed
/// from the matrix's entries alone.
pub uninterp spec fn inverse_of(m: Mat4) -> Mat4;

/// Relies on glam's `Mat4::inverse`, which never panics (on a singular matrix
/// its entries are not finite) and depends on nothing but its argument.
#[verifier::external_body]
pub(crate) fn inverse(m: &Mat4) -> (r: Mat4)
    ensures
        r == inverse_of(*m),
{
    m.inverse()
}

} // verus!
