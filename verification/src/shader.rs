//! The programmable stages of the pipeline.
//!
//! A shader is a pair of pure functions. The vertex stage turns a vertex
//! into a clip-space position and varyings; the fragment stage turns the
//! varyings of a triangle's three corners, weighed for one pixel, into a
//! colour or into nothing.

use crate::storage::Storage;
use crate::vector::{Vec2, Vec3, Vec4};
use vstd::prelude::*;

verus! {

/// What the vertex stage is given.
pub struct VertexShaderInputVariables<'a> {
    pub position: Vec4,
    pub texture_coords: Vec3,
    pub normal: Vec3,
    pub storage: &'a Storage,
}

/// What the vertex stage returns: the clip-space position and the varyings,
/// in slots of two, three and four components.
pub struct VertexShaderOutputVariables {
    pub position: Vec4,
    pub vec2: Vec<Vec2>,
    pub vec3: Vec<Vec3>,
    pub vec4: Vec<Vec4>,
}

/// What a vertex stage's output holds.
pub struct Varyings {
    pub position: Vec4,
    pub vec2: Seq<Vec2>,
    pub vec3: Seq<Vec3>,
    pub vec4: Seq<Vec4>,
}

/// What the fragment stage is given: the outputs of the vertex stage at the
/// three corners, the weights of the corners at this pixel, and the
/// uniforms.
pub struct FragmentShaderInputVariables<'a> {
    pub vertex_shader_output_variables: &'a [VertexShaderOutputVariables; 3],
    pub bary_coords: Vec3,
    pub storage: &'a Storage,
}

impl View for VertexShaderOutputVariables {
    type V = Varyings;

    open spec fn view(&self) -> Varyings {
        Varyings {
            position: self.position,
            vec2: self.vec2@,
            vec3: self.vec3@,
            vec4: self.vec4@,
        }
    }
}

impl Default for VertexShaderOutputVariables {
    fn default() -> (out: VertexShaderOutputVariables)
        ensures
            out@ == (Varyings {
                position: Vec4 { x: 0, y: 0, z: 0, w: 0 },
                vec2: Seq::empty(),
                vec3: Seq::empty(),
                vec4: Seq::empty(),
            }),
    {
        VertexShaderOutputVariables {
            position: Vec4::new(0, 0, 0, 0),
            vec2: Vec::new(),
            vec3: Vec::new(),
            vec4: Vec::new(),
        }
    }
}

/// A vertex stage and a fragment stage that belong together.
///
/// Both stages are pure functions of what they are given. A shader states
/// what its stages return by `vertex_spec` and `fragment_spec`, what they
/// read of the uniforms by `accepts`, and which varyings the fragment stage
/// reads by `reads`; a shader that states nothing accepts and reads
/// everything, and nothing is known of what it returns.
pub trait Shader: Send + Sync + Sized {
    /// Whether the uniforms hold what the two stages read.
    open spec fn accepts(&self, storage: &Storage) -> bool {
        true
    }

    /// Whether a vertex stage output holds every varying that the fragment
    /// stage reads.
    open spec fn reads(&self, output: Varyings) -> bool {
        true
    }

    /// What the vertex stage returns.
    open spec fn vertex_spec(
        &self,
        position: Vec4,
        texture_coords: Vec3,
        normal: Vec3,
        storage: &Storage,
    ) -> Varyings {
        arbitrary()
    }

    /// What the fragment stage returns; `None` discards the fragment.
    open spec fn fragment_spec(
        &self,
        corners: Seq<Varyings>,
        weights: Vec3,
        storage: &Storage,
    ) -> Option<Vec4> {
        arbitrary()
    }

    /// The vertex stage.
    fn vertex(&self, input_vars: VertexShaderInputVariables) -> (out: VertexShaderOutputVariables)
        requires
            self.accepts(input_vars.storage),
        ensures
            out@ == self.vertex_spec(
                input_vars.position,
                input_vars.texture_coords,
                input_vars.normal,
                input_vars.storage,
            ),
            self.reads(out@),
    ;

    /// The fragment stage.
    fn fragment(&self, input_vars: FragmentShaderInputVariables) -> (colour: Option<Vec4>)
        requires
            self.accepts(input_vars.storage),
            forall|i: int| 0 <= i < 3 ==> self.reads(#[trigger] input_vars.corners()[i]),
        ensures
            colour == self.fragment_spec(
                input_vars.corners(),
                input_vars.weights(),
                input_vars.storage,
            ),
    ;
}

impl<'a> FragmentShaderInputVariables<'a> {
    /// The outputs of the vertex stage at the three corners.
    pub open spec fn corners(&self) -> Seq<Varyings> {
        corners_of(self.vertex_shader_output_variables@)
    }

    /// The weights of the three corners.
    pub open spec fn weights(&self) -> Vec3 {
        self.bary_coords
    }

    pub fn new(
        vertex_shader_output_variables: &'a [VertexShaderOutputVariables; 3],
        bary_coords: Vec3,
        storage: &'a Storage,
    ) -> (input_vars: Self)
        ensures
            input_vars.corners() == corners_of(vertex_shader_output_variables@),
            input_vars.weights() == bary_coords,
            input_vars.storage == storage,
    {
        Self { vertex_shader_output_variables, bary_coords, storage }
    }

    /// The clip-space position at this pixel.
    pub fn get_position(&self) -> (position: Vec4)
        ensures
            position == Vec4::blend_spec(
                self.corners()[0].position,
                self.corners()[1].position,
                self.corners()[2].position,
                self.weights(),
            ),
    {
        Vec4::blend(
            self.vertex_shader_output_variables[0].position,
            self.vertex_shader_output_variables[1].position,
            self.vertex_shader_output_variables[2].position,
            self.bary_coords,
        )
    }

    /// The two-component varying of slot `index` at this pixel.
    pub fn get_input_vec2(&self, index: usize) -> (value: Vec2)
        requires
            forall|i: int| 0 <= i < 3 ==> index < (#[trigger] self.corners()[i]).vec2.len(),
        ensures
            value == Vec2::blend_spec(
                self.corners()[0].vec2[index as int],
                self.corners()[1].vec2[index as int],
                self.corners()[2].vec2[index as int],
                self.weights(),
            ),
    {
        assert(index < self.corners()[0].vec2.len());
        assert(index < self.corners()[1].vec2.len());
        assert(index < self.corners()[2].vec2.len());
        Vec2::blend(
            self.vertex_shader_output_variables[0].vec2[index],
            self.vertex_shader_output_variables[1].vec2[index],
            self.vertex_shader_output_variables[2].vec2[index],
            self.bary_coords,
        )
    }

    /// The three-component varying of slot `index` at this pixel.
    pub fn get_input_vec3(&self, index: usize) -> (value: Vec3)
        requires
            forall|i: int| 0 <= i < 3 ==> index < (#[trigger] self.corners()[i]).vec3.len(),
        ensures
            value == Vec3::blend_spec(
                self.corners()[0].vec3[index as int],
                self.corners()[1].vec3[index as int],
                self.corners()[2].vec3[index as int],
                self.weights(),
            ),
    {
        assert(index < self.corners()[0].vec3.len());
        assert(index < self.corners()[1].vec3.len());
        assert(index < self.corners()[2].vec3.len());
        Vec3::blend(
            self.vertex_shader_output_variables[0].vec3[index],
            self.vertex_shader_output_variables[1].vec3[index],
            self.vertex_shader_output_variables[2].vec3[index],
            self.bary_coords,
        )
    }

    /// The four-component varying of slot `index` at this pixel.
    pub fn get_input_vec4(&self, index: usize) -> (value: Vec4)
        requires
            forall|i: int| 0 <= i < 3 ==> index < (#[trigger] self.corners()[i]).vec4.len(),
        ensures
            value == Vec4::blend_spec(
                self.corners()[0].vec4[index as int],
                self.corners()[1].vec4[index as int],
                self.corners()[2].vec4[index as int],
                self.weights(),
            ),
    {
        assert(index < self.corners()[0].vec4.len());
        assert(index < self.corners()[1].vec4.len());
        assert(index < self.corners()[2].vec4.len());
        Vec4::blend(
            self.vertex_shader_output_variables[0].vec4[index],
            self.vertex_shader_output_variables[1].vec4[index],
            self.vertex_shader_output_variables[2].vec4[index],
            self.bary_coords,
        )
    }
}

/// What three vertex stage outputs hold.
pub open spec fn corners_of(outputs: Seq<VertexShaderOutputVariables>) -> Seq<Varyings> {
    Seq::new(3, |i: int| outputs[i]@)
}

/// A shader that places vertices by the matrix at index 0 and colours
/// fragments from the texture behind slot 0.
pub struct BasicShader;

impl BasicShader {
    /// The texture coordinate at a pixel: the first two-component varying.
    pub open spec fn uv(corners: Seq<Varyings>, weights: Vec3) -> Vec2 {
        Vec2::blend_spec(corners[0].vec2[0], corners[1].vec2[0], corners[2].vec2[0], weights)
    }
}

impl Shader for BasicShader {
    open spec fn accepts(&self, storage: &Storage) -> bool {
        storage.matrices().len() > 0 && storage.has_texture(0)
    }

    open spec fn reads(&self, output: Varyings) -> bool {
        output.vec2.len() > 0
    }

    open spec fn vertex_spec(
        &self,
        position: Vec4,
        texture_coords: Vec3,
        normal: Vec3,
        storage: &Storage,
    ) -> Varyings {
        Varyings {
            position: storage.matrices()[0].transform_spec(position),
            vec2: seq![Vec2 { x: texture_coords.x, y: texture_coords.y }],
            vec3: Seq::empty(),
            vec4: Seq::empty(),
        }
    }

    open spec fn fragment_spec(
        &self,
        corners: Seq<Varyings>,
        weights: Vec3,
        storage: &Storage,
    ) -> Option<Vec4> {
        let uv = BasicShader::uv(corners, weights);
        Some(storage.texture(0)@.sample_spec(uv.x, uv.y))
    }

    fn vertex(&self, input_vars: VertexShaderInputVariables) -> (out: VertexShaderOutputVariables) {
        let view_projection = input_vars.storage.get_mat4(0);
        let position = view_projection.transform(&input_vars.position);
        let mut vec2: Vec<Vec2> = Vec::new();
        vec2.push(input_vars.texture_coords.xy());
        let out = VertexShaderOutputVariables { position, vec2, vec3: Vec::new(), vec4: Vec::new() };
        assert(out@.vec2 =~= seq![
            Vec2 { x: input_vars.texture_coords.x, y: input_vars.texture_coords.y },
        ]);
        out
    }

    fn fragment(&self, input_vars: FragmentShaderInputVariables) -> (colour: Option<Vec4>) {
        let uvs = input_vars.get_input_vec2(0);
        let texture = input_vars.storage.get_texture2d(0);
        let base_colour = texture.sample(uvs.x, uvs.y);
        Some(base_colour)
    }
}

} // verus!
