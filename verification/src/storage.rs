//! The uniforms of a draw call: what every shader invocation may read.

use crate::fixed::Fixed;
use crate::texture2d::Texture2D;
use crate::vector::Mat4;
use vstd::prelude::*;

verus! {

/// Four tables that a shader addresses by index: matrices, scalars,
/// textures, and the texture numbers that stand behind the shader's texture
/// slots. Each setter replaces one table whole.
pub struct Storage {
    textures2d: Vec<Texture2D>,
    textures2d_indices: Vec<usize>,
    scalars: Vec<Fixed>,
    mat4s: Vec<Mat4>,
}

impl Storage {
    /// The bound textures.
    pub closed spec fn textures(&self) -> Seq<Texture2D> {
        self.textures2d@
    }

    /// For each texture slot of the shader, the number of the bound texture
    /// that it reads.
    pub closed spec fn texture_indices(&self) -> Seq<usize> {
        self.textures2d_indices@
    }

    /// The bound scalars.
    pub closed spec fn scalars(&self) -> Seq<Fixed> {
        self.scalars@
    }

    /// The bound matrices.
    pub closed spec fn matrices(&self) -> Seq<Mat4> {
        self.mat4s@
    }

    /// Whether texture slot `slot` leads to a bound texture.
    pub open spec fn has_texture(&self, slot: int) -> bool {
        0 <= slot < self.texture_indices().len() && self.texture_indices()[slot]
            < self.textures().len()
    }

    /// The texture behind slot `slot`.
    pub open spec fn texture(&self, slot: int) -> Texture2D {
        self.textures()[self.texture_indices()[slot] as int]
    }

    /// Tables with nothing bound.
    pub fn new() -> (storage: Storage)
        ensures
            storage.textures().len() == 0,
            storage.texture_indices().len() == 0,
            storage.scalars().len() == 0,
            storage.matrices().len() == 0,
    {
        Storage {
            textures2d: Vec::new(),
            textures2d_indices: Vec::new(),
            scalars: Vec::new(),
            mat4s: Vec::new(),
        }
    }

    /// Binds `textures` in place of the bound textures.
    pub fn set_texture2ds(&mut self, textures: Vec<Texture2D>)
        ensures
            final(self).textures() == textures@,
            final(self).texture_indices() == old(self).texture_indices(),
            final(self).scalars() == old(self).scalars(),
            final(self).matrices() == old(self).matrices(),
    {
        self.textures2d = textures;
    }

    /// Binds `indices` in place of the texture numbers behind the slots.
    pub fn set_texture2d_indices(&mut self, indices: Vec<usize>)
        ensures
            final(self).texture_indices() == indices@,
            final(self).textures() == old(self).textures(),
            final(self).scalars() == old(self).scalars(),
            final(self).matrices() == old(self).matrices(),
    {
        self.textures2d_indices = indices;
    }

    /// The texture behind slot `index`.
    pub fn get_texture2d(&self, index: usize) -> (texture: &Texture2D)
        requires
            self.has_texture(index as int),
        ensures
            *texture == self.texture(index as int),
    {
        let index = self.textures2d_indices[index];
        &self.textures2d[index]
    }

    /// Whether texture slot `index` leads to a bound texture.
    pub fn has_texture2d(&self, index: usize) -> (bound: bool)
        ensures
            bound == self.has_texture(index as int),
    {
        index < self.textures2d_indices.len() && self.textures2d_indices[index]
            < self.textures2d.len()
    }

    /// Whether a scalar is bound at `index`.
    pub fn has_f32(&self, index: usize) -> (bound: bool)
        ensures
            bound == (index < self.scalars().len()),
    {
        index < self.scalars.len()
    }

    /// Whether a matrix is bound at `index`.
    pub fn has_mat4(&self, index: usize) -> (bound: bool)
        ensures
            bound == (index < self.matrices().len()),
    {
        index < self.mat4s.len()
    }

    /// Binds `scalars` in place of the bound scalars.
    pub fn set_f32s(&mut self, scalars: Vec<Fixed>)
        ensures
            final(self).scalars() == scalars@,
            final(self).textures() == old(self).textures(),
            final(self).texture_indices() == old(self).texture_indices(),
            final(self).matrices() == old(self).matrices(),
    {
        self.scalars = scalars;
    }

    /// The scalar at `index`.
    pub fn get_f32(&self, index: usize) -> (scalar: Fixed)
        requires
            index < self.scalars().len(),
        ensures
            scalar == self.scalars()[index as int],
    {
        self.scalars[index]
    }

    /// Binds `mat4s` in place of the bound matrices.
    pub fn set_mat4s(&mut self, mat4s: Vec<Mat4>)
        ensures
            final(self).matrices() == mat4s@,
            final(self).textures() == old(self).textures(),
            final(self).texture_indices() == old(self).texture_indices(),
            final(self).scalars() == old(self).scalars(),
    {
        self.mat4s = mat4s;
    }

    /// The matrix at `index`.
    pub fn get_mat4(&self, index: usize) -> (matrix: &Mat4)
        requires
            index < self.matrices().len(),
        ensures
            *matrix == self.matrices()[index as int],
    {
        &self.mat4s[index]
    }
}

impl Default for Storage {
    fn default() -> (storage: Storage)
        ensures
            storage.textures().len() == 0,
            storage.texture_indices().len() == 0,
            storage.scalars().len() == 0,
            storage.matrices().len() == 0,
    {
        Storage::new()
    }
}

} // verus!
