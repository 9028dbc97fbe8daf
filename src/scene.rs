//! The scene model: materials, patterns, shapes, lights and the camera.
//!
//! Every scalar is the bit pattern of a single-precision value (see
//! [`crate::scalar`]); placement matrices and light positions are glam values.
use vstd::prelude::*;
use glam::{Mat4, Vec4};
use crate::scalar::{ge, in_unit_range, is_frac, greater_or_equal, ONE, ZERO};
use crate::transform::{identity, inverse, inverse_of};

verus! {

/// Bit pattern of `0.1`.
pub const DEFAULT_AMBIENT: u32 = 0x3dcc_cccd;

/// Bit pattern of `0.9`.
pub const DEFAULT_DIFFUSE: u32 = 0x3f66_6666;

/// Bit pattern of `0.9`.
pub const DEFAULT_SPECULAR: u32 = 0x3f66_6666;

/// Bit pattern of `200.0`.
pub const DEFAULT_SHININESS: u32 = 0x4348_0000;

/// The `pattern_index` of a material that has no pattern.
pub const NO_PATTERN: i32 = -1;

/// A colour of three channels, each the bit pattern of a single-precision
/// value.
#[derive(Clone, Copy)]
pub struct Rgb {
    pub r: u32,
    pub g: u32,
    pub b: u32,
}

impl Rgb {
    pub fn new(r: u32, g: u32, b: u32) -> (c: Rgb)
        ensures
            c == (Rgb { r, g, b }),
    {
        Rgb { r, g, b }
    }
}

/// Every channel of `c` lies in `[0, 1]`.
pub open spec fn colour_valid(c: Rgb) -> bool {
    is_frac(c.r) && is_frac(c.g) && is_frac(c.b)
}

/// Whether every channel of `c` lies in `[0, 1]`.
pub fn is_colour(c: &Rgb) -> (r: bool)
    ensures
        r == colour_valid(*c),
{
    in_unit_range(c.r) && in_unit_range(c.g) && in_unit_range(c.b)
}

/// The surface of a shape under the Phong model.
#[derive(Clone, Copy)]
pub struct Material {
    pub colour: Rgb,
    /// Index of the material's pattern in the scene, or [`NO_PATTERN`].
    pub pattern_index: i32,
    pub ambient: u32,
    pub diffuse: u32,
    pub specular: u32,
    pub shininess: u32,
    pub reflective: u32,
    pub transparency: u32,
    pub refractive_index: u32,
}

/// The fractional coefficients and the colour channels lie in `[0, 1]`, and
/// the shininess and the refractive index are not negative.
pub open spec fn material_valid(m: Material) -> bool {
    &&& colour_valid(m.colour)
    &&& is_frac(m.ambient)
    &&& is_frac(m.diffuse)
    &&& is_frac(m.specular)
    &&& is_frac(m.reflective)
    &&& is_frac(m.transparency)
    &&& ge(m.shininess, ZERO)
    &&& ge(m.refractive_index, ZERO)
}

impl Material {
    /// Whether the material may enter a scene.
    pub fn is_valid(&self) -> (r: bool)
        ensures
            r == material_valid(*self),
    {
        is_colour(&self.colour) && in_unit_range(self.ambient) && in_unit_range(self.diffuse)
            && in_unit_range(self.specular) && in_unit_range(self.reflective) && in_unit_range(
            self.transparency,
        ) && greater_or_equal(self.shininess, ZERO) && greater_or_equal(
            self.refractive_index,
            ZERO,
        )
    }
}

/// White, ambient 0.1, diffuse and specular 0.9, shininess 200, neither
/// reflective nor transparent, refractive index 1, no pattern.
pub open spec fn default_material() -> Material {
    Material {
        colour: Rgb { r: ONE, g: ONE, b: ONE },
        pattern_index: NO_PATTERN,
        ambient: DEFAULT_AMBIENT,
        diffuse: DEFAULT_DIFFUSE,
        specular: DEFAULT_SPECULAR,
        shininess: DEFAULT_SHININESS,
        reflective: ZERO,
        transparency: ZERO,
        refractive_index: ONE,
    }
}

impl Default for Material {
    fn default() -> (m: Material)
        ensures
            m == default_material(),
            material_valid(m),
    {
        Material {
            colour: Rgb { r: ONE, g: ONE, b: ONE },
            pattern_index: NO_PATTERN,
            ambient: DEFAULT_AMBIENT,
            diffuse: DEFAULT_DIFFUSE,
            specular: DEFAULT_SPECULAR,
            shininess: DEFAULT_SHININESS,
            reflective: ZERO,
            transparency: ZERO,
            refractive_index: ONE,
        }
    }
}

/// How a pattern picks between its two colours.
#[derive(Clone, Copy, PartialEq, Eq, Structural, Debug)]
pub enum PatternType {
    Stripes,
    Ring,
    Checker,
    Gradient,
}

/// The pattern kind that a scene description names: `stripes` or
/// `checkers`; any other name is none.
pub fn get_pattern_type(name: &str) -> (r: Option<PatternType>)
    ensures
        r == if name@ == "stripes"@ {
            Some(PatternType::Stripes)
        } else if name@ == "checkers"@ {
            Some(PatternType::Checker)
        } else {
            None
        },
{
    let name = name.to_owned();
    if name == "stripes".to_owned() {
        Some(PatternType::Stripes)
    } else if name == "checkers".to_owned() {
        Some(PatternType::Checker)
    } else {
        None
    }
}

/// A procedural two-colour texture, placed in its shape's object space.
#[derive(Clone, Copy)]
pub struct Pattern {
    pub a: Rgb,
    pub b: Rgb,
    pub pattern: PatternType,
    pub transform_inverse: Mat4,
}

impl PatternType {
    /// A pattern of this kind with two black colours, placed at the identity.
    pub fn create(self) -> (p: Pattern)
        ensures
            p.pattern == self,
            p.a == (Rgb { r: ZERO, g: ZERO, b: ZERO }),
            p.b == (Rgb { r: ZERO, g: ZERO, b: ZERO }),
    {
        Pattern {
            a: Rgb { r: ZERO, g: ZERO, b: ZERO },
            b: Rgb { r: ZERO, g: ZERO, b: ZERO },
            pattern: self,
            transform_inverse: identity(),
        }
    }
}

impl Pattern {
    /// Places the pattern by `mat`; the pattern keeps its inverse.
    pub fn set_transform(&mut self, mat: Mat4)
        ensures
            final(self).a == old(self).a,
            final(self).b == old(self).b,
            final(self).pattern == old(self).pattern,
            final(self).transform_inverse == inverse_of(mat),
    {
        self.transform_inverse = inverse(&mat);
    }
}

/// The primitive that a shape is.
#[derive(Clone, Copy, PartialEq, Eq, Structural, Debug)]
pub enum ShapeType {
    Sphere,
    Plane,
    Cube,
}

impl Default for ShapeType {
    fn default() -> (s: ShapeType)
        ensures
            s == ShapeType::Sphere,
    {
        ShapeType::Sphere
    }
}

/// A primitive placed in the scene. `index` is its position in the scene's
/// shape list, which is how hits refer to it.
#[derive(Clone, Copy)]
pub struct Shape {
    pub transform_inverse: Mat4,
    pub shape: ShapeType,
    pub index: u32,
    pub material: Material,
}

impl ShapeType {
    /// A shape of this kind at the identity placement, with index 0 and the
    /// default material.
    pub fn create(self) -> (s: Shape)
        ensures
            s.shape == self,
            s.index == 0,
            s.material == default_material(),
    {
        Shape { transform_inverse: identity(), shape: self, index: 0, material: Material::default() }
    }
}

impl Shape {
    /// Places the shape by `mat`; the shape keeps its inverse.
    pub fn set_transform(&mut self, mat: Mat4)
        ensures
            final(self).shape == old(self).shape,
            final(self).index == old(self).index,
            final(self).material == old(self).material,
            final(self).transform_inverse == inverse_of(mat),
    {
        self.transform_inverse = inverse(&mat);
    }
}

/// A point light: a homogeneous position and an intensity, whose channels
/// may exceed 1 for an overbright light.
#[derive(Clone, Copy)]
pub struct PointLight {
    pub position: Vec4,
    pub intensity: Rgb,
}

/// The camera: the inverse of its placement and the extents that map pixels
/// to camera space.
#[derive(Clone, Copy)]
pub struct Camera {
    pub transform_inverse: Mat4,
    pub pixel_size: u32,
    pub half_width: u32,
    pub half_height: u32,
    pub hsize: u32,
    pub vsize: u32,
    pub field_of_view: u32,
}

impl Camera {
    /// Places the camera by `mat`; the camera keeps its inverse.
    pub fn set_transform(&mut self, mat: Mat4)
        ensures
            final(self).pixel_size == old(self).pixel_size,
            final(self).half_width == old(self).half_width,
            final(self).half_height == old(self).half_height,
            final(self).hsize == old(self).hsize,
            final(self).vsize == old(self).vsize,
            final(self).field_of_view == old(self).field_of_view,
            final(self).transform_inverse == inverse_of(mat),
    {
        self.transform_inverse = inverse(&mat);
    }

    /// The placement of the camera, recovered from its stored inverse.
    pub fn get_transform(&self) -> (r: Mat4)
        ensures
            r == inverse_of(self.transform_inverse),
    {
        inverse(&self.transform_inverse)
    }
}

impl Default for Camera {
    /// A camera at the identity placement with every extent zero.
    fn default() -> (c: Camera)
        ensures
            c.pixel_size == ZERO,
            c.half_width == ZERO,
            c.half_height == ZERO,
            c.hsize == ZERO,
            c.vsize == ZERO,
            c.field_of_view == ZERO,
    {
        Camera {
            transform_inverse: identity(),
            pixel_size: ZERO,
            half_width: ZERO,
            half_height: ZERO,
            hsize: ZERO,
            vsize: ZERO,
            field_of_view: ZERO,
        }
    }
}

} // verus!
