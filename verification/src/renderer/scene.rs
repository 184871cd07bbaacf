//! The set of models and lights that one frame draws.
use vstd::prelude::*;
use crate::renderer::lighting::DirectionalLight;
use crate::renderer::lighting::PointLight;
use crate::renderer::lighting::SpotLight;
use crate::renderer::models::Model;

verus! {

/// A set of models and associated properties that can be drawn with the
/// renderer.
///
/// A `Scene` is not a scene graph!
pub struct Scene {
    pub point_lights: Vec<PointLight>,
    pub directional_lights: Vec<DirectionalLight>,
    pub spot_lights: Vec<SpotLight>,
    pub models: Vec<Model>,
}

impl Default for Scene {
    fn default() -> (scene: Scene)
        ensures
            scene.point_lights@.len() == 0,
            scene.directional_lights@.len() == 0,
            scene.spot_lights@.len() == 0,
            scene.models@.len() == 0,
    {
        Scene {
            point_lights: Vec::new(),
            directional_lights: Vec::new(),
            spot_lights: Vec::new(),
            models: Vec::new(),
        }
    }
}

impl Scene {
    /// No two models share their shader values.
    pub open spec fn keys_distinct(&self) -> bool {
        forall|i: int, j: int|
            0 <= i < j < self.models@.len() ==> (#[trigger] self.models@[i])@.model_sv_key.id() != (
            #[trigger] self.models@[j])@.model_sv_key.id()
    }

    /// Whether a model of the scene keeps its shader values under the key
    /// with the number `id`.
    pub open spec fn has_key(&self, id: u64) -> bool {
        exists|k: int|
            0 <= k < self.models@.len() && (#[trigger] self.models@[k])@.model_sv_key.id() == id
    }

    /// Every point light keeps its modifiers between zero and one.
    pub open spec fn point_lights_in_range(&self) -> bool {
        forall|i: int| 0 <= i < self.point_lights@.len() ==> (#[trigger] self.point_lights@[i]).in_range()
    }

    /// Computes `keys_distinct`.
    pub fn has_distinct_keys(&self) -> (r: bool)
        ensures
            r == self.keys_distinct(),
    {
        let n: usize = self.models.len();
        let mut j: usize = 0;
        while j < n
            invariant
                n == self.models@.len(),
                0 <= j <= n,
                forall|a: int, b: int|
                    0 <= a < b < j ==> (#[trigger] self.models@[a])@.model_sv_key.id() != (
                    #[trigger] self.models@[b])@.model_sv_key.id(),
            decreases n - j,
        {
            let key_j: u64 = self.models[j].model_sv_key().to_bits();
            let mut i: usize = 0;
            while i < j
                invariant
                    n == self.models@.len(),
                    0 <= i <= j < n,
                    key_j == self.models@[j as int]@.model_sv_key.id(),
                    forall|a: int|
                        0 <= a < i ==> (#[trigger] self.models@[a])@.model_sv_key.id() != key_j,
                decreases j - i,
            {
                if self.models[i].model_sv_key().to_bits() == key_j {
                    assert(self.models@[i as int]@.model_sv_key.id()
                        == self.models@[j as int]@.model_sv_key.id());
                    return false;
                }
                i += 1;
            }
            j += 1;
        }
        true
    }

    /// Computes `point_lights_in_range`.
    pub fn has_point_lights_in_range(&self) -> (r: bool)
        ensures
            r == self.point_lights_in_range(),
    {
        let mut i: usize = 0;
        while i < self.point_lights.len()
            invariant
                0 <= i <= self.point_lights@.len(),
                forall|a: int| 0 <= a < i ==> (#[trigger] self.point_lights@[a]).in_range(),
            decreases self.point_lights@.len() - i,
        {
            if !self.point_lights[i].is_in_range() {
                return false;
            }
            i += 1;
        }
        true
    }
}

} // verus!
