//! The record of numeric capability limits a compiler is built with.
use vstd::prelude::*;

verus! {

/// Capability limits and extension switches handed to the engine when a
/// compiler is constructed. A switch is on when its field is non-zero.
#[derive(Clone, Copy, Debug, PartialEq, Eq, Structural)]
pub struct BuiltInResources {
    pub max_vertex_attribs: i32,
    pub max_vertex_uniform_vectors: i32,
    pub max_varying_vectors: i32,
    pub max_vertex_texture_image_units: i32,
    pub max_combined_texture_image_units: i32,
    pub max_texture_image_units: i32,
    pub max_fragment_uniform_vectors: i32,
    pub max_draw_buffers: i32,
    pub oes_standard_derivatives: i32,
    pub oes_egl_image_external: i32,
    pub arb_texture_rectangle: i32,
    pub ext_draw_buffers: i32,
    pub ext_frag_depth: i32,
    pub ext_shader_texture_lod: i32,
    pub fragment_precision_high: i32,
    pub max_vertex_output_vectors: i32,
    pub max_fragment_input_vectors: i32,
    pub min_program_texel_offset: i32,
    pub max_program_texel_offset: i32,
    pub max_expression_complexity: i32,
    pub max_call_stack_depth: i32,
}

impl BuiltInResources {
    /// Every limit and every switch is zero.
    pub open spec fn is_zeroed(&self) -> bool {
        &&& self.max_vertex_attribs == 0
        &&& self.max_vertex_uniform_vectors == 0
        &&& self.max_varying_vectors == 0
        &&& self.max_vertex_texture_image_units == 0
        &&& self.max_combined_texture_image_units == 0
        &&& self.max_texture_image_units == 0
        &&& self.max_fragment_uniform_vectors == 0
        &&& self.max_draw_buffers == 0
        &&& self.oes_standard_derivatives == 0
        &&& self.oes_egl_image_external == 0
        &&& self.arb_texture_rectangle == 0
        &&& self.ext_draw_buffers == 0
        &&& self.ext_frag_depth == 0
        &&& self.ext_shader_texture_lod == 0
        &&& self.fragment_precision_high == 0
        &&& self.max_vertex_output_vectors == 0
        &&& self.max_fragment_input_vectors == 0
        &&& self.min_program_texel_offset == 0
        &&& self.max_program_texel_offset == 0
        &&& self.max_expression_complexity == 0
        &&& self.max_call_stack_depth == 0
    }

    /// A record with every field at zero, for callers who set each limit
    /// themselves.
    pub fn empty() -> (r: BuiltInResources)
        ensures
            r.is_zeroed(),
    {
        BuiltInResources {
            max_vertex_attribs: 0,
            max_vertex_uniform_vectors: 0,
            max_varying_vectors: 0,
            max_vertex_texture_image_units: 0,
            max_combined_texture_image_units: 0,
            max_texture_image_units: 0,
            max_fragment_uniform_vectors: 0,
            max_draw_buffers: 0,
            oes_standard_derivatives: 0,
            oes_egl_image_external: 0,
            arb_texture_rectangle: 0,
            ext_draw_buffers: 0,
            ext_frag_depth: 0,
            ext_shader_texture_lod: 0,
            fragment_precision_high: 0,
            max_vertex_output_vectors: 0,
            max_fragment_input_vectors: 0,
            min_program_texel_offset: 0,
            max_program_texel_offset: 0,
            max_expression_complexity: 0,
            max_call_stack_depth: 0,
        }
    }
}

} // verus!
