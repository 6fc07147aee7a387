//! What a frame holds: scenes and cameras by name.

use vstd::prelude::*;
use vstd::hash_map::StringHashMap;
use crate::light::Light;
use crate::math::{Mat4, Vec4};

verus! {

/// Names a GPU resource that lives outside this crate: a vertex buffer, a
/// draw range, a render target, or something a [`crate::factory::Factory`]
/// was asked to create. Two handles name the same resource exactly when they
/// are equal.
pub type Handle = usize;

/// One drawable piece of a scene.
#[derive(Clone, Copy, Debug, PartialEq, Eq)]
pub struct Fragment {
    /// Model matrix.
    pub transform: Mat4,
    /// The vertex buffer.
    pub buffer: Handle,
    /// The range of the buffer to draw.
    pub slice: Handle,
    /// Ambient color.
    pub ka: Vec4,
    /// Diffuse color; only lit drawing reads it.
    pub kd: Vec4,
}

/// The fragments and the lights of one scene, each in the order in which
/// they were added.
#[derive(Clone, Debug, PartialEq, Eq)]
pub struct Scene {
    pub fragments: Vec<Fragment>,
    pub lights: Vec<Light>,
}

/// Where a scene is seen from.
#[derive(Clone, Copy, Debug, PartialEq, Eq)]
pub struct Camera {
    pub projection: Mat4,
    pub view: Mat4,
}

/// Everything that the passes of one frame may draw.
pub struct Frame {
    scenes: StringHashMap<Scene>,
    cameras: StringHashMap<Camera>,
}

impl Scene {
    /// A scene with nothing in it.
    pub fn new() -> (scene: Scene)
        ensures
            scene.fragments@ == Seq::<Fragment>::empty(),
            scene.lights@ == Seq::<Light>::empty(),
    {
        Scene { fragments: Vec::new(), lights: Vec::new() }
    }

    /// Adds a fragment behind those already there.
    pub fn add_fragment(&mut self, fragment: Fragment)
        ensures
            final(self).fragments@ == old(self).fragments@.push(fragment),
            final(self).lights@ == old(self).lights@,
    {
        self.fragments.push(fragment);
    }

    /// Adds a light behind those already there.
    pub fn add_light(&mut self, light: Light)
        ensures
            final(self).lights@ == old(self).lights@.push(light),
            final(self).fragments@ == old(self).fragments@,
    {
        self.lights.push(light);
    }
}

impl Frame {
    /// The scenes of the frame, by name.
    pub closed spec fn scenes(&self) -> Map<Seq<char>, Scene> {
        self.scenes@
    }

    /// The cameras of the frame, by name.
    pub closed spec fn cameras(&self) -> Map<Seq<char>, Camera> {
        self.cameras@
    }

    /// A frame without scenes or cameras.
    pub fn new() -> (frame: Frame)
        ensures
            frame.scenes() == Map::<Seq<char>, Scene>::empty(),
            frame.cameras() == Map::<Seq<char>, Camera>::empty(),
    {
        Frame { scenes: StringHashMap::new(), cameras: StringHashMap::new() }
    }

    /// Puts `scene` under `name`, in place of any scene that had that name.
    pub fn insert_scene(&mut self, name: String, scene: Scene)
        ensures
            final(self).scenes() == old(self).scenes().insert(name@, scene),
            final(self).cameras() == old(self).cameras(),
    {
        self.scenes.insert(name, scene);
    }

    /// Puts `camera` under `name`, in place of any camera that had that name.
    pub fn insert_camera(&mut self, name: String, camera: Camera)
        ensures
            final(self).cameras() == old(self).cameras().insert(name@, camera),
            final(self).scenes() == old(self).scenes(),
    {
        self.cameras.insert(name, camera);
    }

    /// Whether the frame has a scene called `name`.
    pub fn has_scene(&self, name: &str) -> (found: bool)
        ensures
            found == self.scenes().contains_key(name@),
    {
        self.scenes.contains_key(name)
    }

    /// Whether the frame has a camera called `name`.
    pub fn has_camera(&self, name: &str) -> (found: bool)
        ensures
            found == self.cameras().contains_key(name@),
    {
        self.cameras.contains_key(name)
    }

    /// The scene called `name`, if the frame has one.
    pub fn scene(&self, name: &str) -> (found: Option<&Scene>)
        ensures
            found.is_some() == self.scenes().contains_key(name@),
            found.is_some() ==> *found.unwrap() == self.scenes()[name@],
    {
        self.scenes.get(name)
    }

    /// The camera called `name`, if the frame has one.
    pub fn camera(&self, name: &str) -> (found: Option<&Camera>)
        ensures
            found.is_some() == self.cameras().contains_key(name@),
            found.is_some() ==> *found.unwrap() == self.cameras()[name@],
    {
        self.cameras.get(name)
    }
}

} // verus!
