//! The scene under construction, and the read-only view of it that a frame
//! is rendered from.
use vstd::prelude::*;
use crate::scene::{material_valid, Camera, Material, Pattern, PointLight, Shape};

verus! {

/// A scene: shapes, lights and patterns in flat lists that refer to each
/// other by index, and one camera. Shapes, lights and patterns are only ever
/// appended.
pub struct World {
    shapes: Vec<Shape>,
    lights: Vec<PointLight>,
    patterns: Vec<Pattern>,
    camera: Camera,
}

/// Each shape of `shapes` records its own position in the list.
pub open spec fn indexed(shapes: Seq<Shape>) -> bool {
    forall|i: int| 0 <= i < shapes.len() ==> (#[trigger] shapes[i]).index == i
}

/// Every shape of `shapes` has a valid material.
pub open spec fn materials_valid(shapes: Seq<Shape>) -> bool {
    forall|i: int| 0 <= i < shapes.len() ==> material_valid(#[trigger] shapes[i].material)
}

impl World {
    pub closed spec fn spec_shapes(&self) -> Seq<Shape> {
        self.shapes@
    }

    pub closed spec fn spec_lights(&self) -> Seq<PointLight> {
        self.lights@
    }

    pub closed spec fn spec_patterns(&self) -> Seq<Pattern> {
        self.patterns@
    }

    pub closed spec fn spec_camera(&self) -> Camera {
        self.camera
    }

    /// Shapes are indexed by position and have valid materials; the lists fit
    /// the 32-bit indices that refer into them.
    pub open spec fn wf(&self) -> bool {
        &&& indexed(self.spec_shapes())
        &&& materials_valid(self.spec_shapes())
        &&& self.spec_shapes().len() <= u32::MAX
        &&& self.spec_lights().len() <= u32::MAX
        &&& self.spec_patterns().len() <= i32::MAX
    }

    /// An empty scene with a default camera.
    pub fn new() -> (w: World)
        ensures
            w.wf(),
            w.spec_shapes() == Seq::<Shape>::empty(),
            w.spec_lights() == Seq::<PointLight>::empty(),
            w.spec_patterns() == Seq::<Pattern>::empty(),
    {
        World { shapes: Vec::new(), lights: Vec::new(), patterns: Vec::new(), camera: Camera::default() }
    }

    /// Appends `shape` and sets its index to its position in the list.
    pub fn add_shape(&mut self, shape: Shape)
        requires
            old(self).wf(),
            material_valid(shape.material),
            old(self).spec_shapes().len() < u32::MAX,
        ensures
            final(self).wf(),
            final(self).spec_shapes() == old(self).spec_shapes().push(
                (Shape { index: old(self).spec_shapes().len() as u32, ..shape }),
            ),
            indexed(final(self).spec_shapes()),
            final(self).spec_lights() == old(self).spec_lights(),
            final(self).spec_patterns() == old(self).spec_patterns(),
            final(self).spec_camera() == old(self).spec_camera(),
    {
        let mut shape = shape;
        shape.index = self.shapes.len() as u32;
        self.shapes.push(shape);
    }

    /// Appends `light`.
    pub fn add_light(&mut self, light: PointLight)
        requires
            old(self).wf(),
            old(self).spec_lights().len() < u32::MAX,
        ensures
            final(self).wf(),
            final(self).spec_lights() == old(self).spec_lights().push(light),
            final(self).spec_shapes() == old(self).spec_shapes(),
            final(self).spec_patterns() == old(self).spec_patterns(),
            final(self).spec_camera() == old(self).spec_camera(),
    {
        self.lights.push(light);
    }

    /// Appends `pattern` and returns its index, for a material to refer to.
    pub fn add_pattern(&mut self, pattern: Pattern) -> (r: i32)
        requires
            old(self).wf(),
            old(self).spec_patterns().len() < i32::MAX,
        ensures
            final(self).wf(),
            r == old(self).spec_patterns().len(),
            final(self).spec_patterns() == old(self).spec_patterns().push(pattern),
            final(self).spec_shapes() == old(self).spec_shapes(),
            final(self).spec_lights() == old(self).spec_lights(),
            final(self).spec_camera() == old(self).spec_camera(),
    {
        self.patterns.push(pattern);
        (self.patterns.len() - 1) as i32
    }

    pub fn camera(&self) -> (c: Camera)
        ensures
            c == self.spec_camera(),
    {
        self.camera
    }

    /// Replaces the camera, for a new placement or output size.
    pub fn set_camera(&mut self, camera: Camera)
        ensures
            final(self).spec_camera() == camera,
            final(self).spec_shapes() == old(self).spec_shapes(),
            final(self).spec_lights() == old(self).spec_lights(),
            final(self).spec_patterns() == old(self).spec_patterns(),
    {
        self.camera = camera;
    }

    pub fn get_shapes(&self) -> (r: &[Shape])
        ensures
            r@ == self.spec_shapes(),
    {
        self.shapes.as_slice()
    }

    pub fn get_lights(&self) -> (r: &[PointLight])
        ensures
            r@ == self.spec_lights(),
    {
        self.lights.as_slice()
    }

    pub fn get_patterns(&self) -> (r: &[Pattern])
        ensures
            r@ == self.spec_patterns(),
    {
        self.patterns.as_slice()
    }

    /// The read-only snapshot that a frame is rendered from.
    pub fn view(&self) -> (v: WorldView<'_>)
        requires
            self.wf(),
        ensures
            v.wf(),
            v.shapes@ == self.spec_shapes(),
            v.lights@ == self.spec_lights(),
            v.patterns@ == self.spec_patterns(),
            v.camera == self.spec_camera(),
    {
        WorldView {
            shapes: self.shapes.as_slice(),
            lights: self.lights.as_slice(),
            patterns: self.patterns.as_slice(),
            camera: self.camera,
        }
    }
}

/// After any sequence of additions, each shape's index is its position in
/// the scene's shape list.
pub proof fn lemma_shape_index_is_position(w: World)
    requires
        w.wf(),
    ensures
        forall|i: int| 0 <= i < w.spec_shapes().len() ==> #[trigger] w.spec_shapes()[i].index == i,
{
}

impl Default for World {
    fn default() -> (w: World)
        ensures
            w.wf(),
            w.spec_shapes() == Seq::<Shape>::empty(),
            w.spec_lights() == Seq::<PointLight>::empty(),
            w.spec_patterns() == Seq::<Pattern>::empty(),
    {
        World::new()
    }
}

/// A frozen scene: read-only lists and a copy of the camera.
pub struct WorldView<'a> {
    pub shapes: &'a [Shape],
    pub lights: &'a [PointLight],
    pub patterns: &'a [Pattern],
    pub camera: Camera,
}

impl<'a> WorldView<'a> {
    pub open spec fn wf(&self) -> bool {
        &&& indexed(self.shapes@)
        &&& materials_valid(self.shapes@)
        &&& self.shapes@.len() <= u32::MAX
        &&& self.lights@.len() <= u32::MAX
        &&& self.patterns@.len() <= i32::MAX
    }

    pub fn shape_count(&self) -> (r: u32)
        requires
            self.wf(),
        ensures
            r == self.shapes@.len(),
    {
        self.shapes.len() as u32
    }

    pub fn light_count(&self) -> (r: u32)
        requires
            self.wf(),
        ensures
            r == self.lights@.len(),
    {
        self.lights.len() as u32
    }

    /// The shape at `index`, which a hit on it carries.
    pub fn shape(&self, index: u32) -> (r: &Shape)
        requires
            index < self.shapes@.len(),
        ensures
            *r == self.shapes@[index as int],
    {
        &self.shapes[index as usize]
    }

    pub fn light(&self, index: usize) -> (r: &PointLight)
        requires
            index < self.lights@.len(),
        ensures
            *r == self.lights@[index as int],
    {
        &self.lights[index]
    }

    /// The pattern that `material` uses: the one its `pattern_index` refers
    /// to, or none when the index is `NO_PATTERN` or refers to no pattern.
    pub fn pattern_of(&self, material: &Material) -> (r: Option<&Pattern>)
        ensures
            r == if 0 <= material.pattern_index < self.patterns@.len() {
                Some(&self.patterns@[material.pattern_index as int])
            } else {
                None
            },
    {
        let index = material.pattern_index;
        if 0 <= index && (index as usize) < self.patterns.len() {
            Some(&self.patterns[index as usize])
        } else {
            None
        }
    }

    /// The pattern that a material's `pattern_index` refers to.
    pub fn pattern(&self, index: i32) -> (r: &Pattern)
        requires
            0 <= index < self.patterns@.len(),
        ensures
            *r == self.patterns@[index as int],
    {
        &self.patterns[index as usize]
    }
}

} // verus!
