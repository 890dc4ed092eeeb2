//! Materials and the material store.
//!
//! A material names a shader variant and a diffuse texture.  The store hands
//! out dense, monotonically increasing integer handles and never reuses one.
//! A lookup of an unknown handle falls back to the default material instead
//! of failing: a missing material is cosmetically tolerable at draw time,
//! unlike a missing texture.

use vstd::prelude::*;

use crate::shader::ShaderType;
use crate::shader::spec_shader_name;

verus! {

/// A named shader variant plus the handle of its diffuse texture.
#[derive(Clone, Debug, PartialEq)]
pub struct Material {
    pub name: String,
    pub shader_type: ShaderType,
    pub diffuse_texture_id: u32,
}

/// Dense-handle arena of materials with a default for unknown handles.
pub struct MaterialStore {
    pub default_material: Material,
    pub materials: Vec<Material>,
}

impl MaterialStore {
    /// The stored materials, in handle order: the material with handle `i`
    /// is the `i`-th element.
    pub open spec fn materials(&self) -> Seq<Material> {
        self.materials@
    }

    /// A store preloaded with the two baseline materials: `basic` under
    /// handle 0 and `grid` under handle 1, both pointing at texture 0,
    /// and a neutral `basic` default material.
    pub fn new() -> (r: MaterialStore)
        ensures
            r.materials().len() == 2,
            r.materials()[0].name@ == spec_shader_name(ShaderType::Basic),
            r.materials()[0].shader_type == ShaderType::Basic,
            r.materials()[0].diffuse_texture_id == 0,
            r.materials()[1].name@ == spec_shader_name(ShaderType::Grid),
            r.materials()[1].shader_type == ShaderType::Grid,
            r.materials()[1].diffuse_texture_id == 0,
            r.default_material.name@ == spec_shader_name(ShaderType::Basic),
            r.default_material.shader_type == ShaderType::Basic,
            r.default_material.diffuse_texture_id == 0,
    {
        let default_material = Material {
            name: ShaderType::Basic.name(),
            shader_type: ShaderType::Basic,
            diffuse_texture_id: 0,
        };
        let basic_material = Material {
            name: ShaderType::Basic.name(),
            shader_type: ShaderType::Basic,
            diffuse_texture_id: 0,
        };
        let grid_material = Material {
            name: ShaderType::Grid.name(),
            shader_type: ShaderType::Grid,
            diffuse_texture_id: 0,
        };

        let mut materials: Vec<Material> = Vec::new();
        materials.push(basic_material);
        materials.push(grid_material);

        MaterialStore { default_material, materials }
    }

    /// Stores the material under the next free handle and returns the
    /// handle.  Handles are dense: the `n`-th added material (counting the
    /// two baseline ones) gets handle `n`.
    pub fn add_material(&mut self, material: Material) -> (id: u32)
        requires
            old(self).materials().len() < u32::MAX,
        ensures
            id == old(self).materials().len(),
            final(self).materials() == old(self).materials().push(material),
            final(self).default_material == old(self).default_material,
    {
        let id = self.materials.len() as u32;
        self.materials.push(material);
        id
    }

    /// Looks the handle up, falling back to the default material when the
    /// handle is unknown; a miss is never an error.
    pub fn get_material(&self, id: u32) -> (r: &Material)
        ensures
            (id as int) < self.materials().len() ==> *r == self.materials()[id as int],
            (id as int) >= self.materials().len() ==> *r == self.default_material,
    {
        let idx = id as usize;
        if idx < self.materials.len() {
            &self.materials[idx]
        } else {
            &self.default_material
        }
    }
}

} // verus!
