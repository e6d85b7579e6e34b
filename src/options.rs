//! The set of independent switches that steer one compile call.
use vstd::prelude::*;

verus! {

/// Engine bit asking for the translated object code.
pub const OBJECT_CODE: u64 = 0x4;
/// Engine bit emulating `abs` on integers, to work around drivers.
pub const EMULATE_ABS_INT_FUNCTION: u64 = 0x100;
/// Engine bit enforcing the uniform and varying packing rules.
pub const ENFORCE_PACKING_RESTRICTIONS: u64 = 0x800;
/// Engine bit clamping indirect array indices to the array's bounds.
pub const CLAMP_INDIRECT_ARRAY_BOUNDS: u64 = 0x1000;
/// Engine bit limiting the complexity of expressions.
pub const LIMIT_EXPRESSION_COMPLEXITY: u64 = 0x2000;
/// Engine bit limiting the depth of the call stack.
pub const LIMIT_CALL_STACK_DEPTH: u64 = 0x4000;
/// Engine bit initializing `gl_Position` at the start of a vertex shader.
pub const INIT_GL_POSITION: u64 = 0x8000;
/// Engine bit emulating `isnan` on floats, to work around drivers.
pub const EMULATE_ISNAN_FLOAT_FUNCTION: u64 = 0x400000;
/// Engine bit emulating two-argument `atan`, to work around drivers.
pub const EMULATE_ATAN2_FLOAT_FUNCTION: u64 = 0x800000;

/// Switches for one compile call. With every switch off the engine only
/// validates the source.
#[derive(Clone, Copy, Debug, PartialEq, Eq, Structural)]
pub struct CompileOptions {
    pub object_code: bool,
    pub emulate_abs_int_function: bool,
    pub emulate_isnan_float_function: bool,
    pub emulate_atan2_float_function: bool,
    pub clamp_indirect_array_bounds: bool,
    pub init_gl_position: bool,
    pub enforce_packing_restrictions: bool,
    pub limit_expression_complexity: bool,
    pub limit_call_stack_depth: bool,
}

pub open spec fn bit_if(on: bool, bit: u64) -> int {
    if on { bit as int } else { 0 }
}

impl CompileOptions {
    /// The engine's bitmask for these switches: the sum of the bits of the
    /// switches that are on (the bits are distinct powers of two).
    pub open spec fn spec_bits(&self) -> int {
        bit_if(self.object_code, OBJECT_CODE)
            + bit_if(self.emulate_abs_int_function, EMULATE_ABS_INT_FUNCTION)
            + bit_if(self.emulate_isnan_float_function, EMULATE_ISNAN_FLOAT_FUNCTION)
            + bit_if(self.emulate_atan2_float_function, EMULATE_ATAN2_FLOAT_FUNCTION)
            + bit_if(self.clamp_indirect_array_bounds, CLAMP_INDIRECT_ARRAY_BOUNDS)
            + bit_if(self.init_gl_position, INIT_GL_POSITION)
            + bit_if(self.enforce_packing_restrictions, ENFORCE_PACKING_RESTRICTIONS)
            + bit_if(self.limit_expression_complexity, LIMIT_EXPRESSION_COMPLEXITY)
            + bit_if(self.limit_call_stack_depth, LIMIT_CALL_STACK_DEPTH)
    }

    /// Every switch off: validation only.
    pub fn validate_only() -> (r: CompileOptions)
        ensures
            !r.object_code,
            !r.emulate_abs_int_function,
            !r.emulate_isnan_float_function,
            !r.emulate_atan2_float_function,
            !r.clamp_indirect_array_bounds,
            !r.init_gl_position,
            !r.enforce_packing_restrictions,
            !r.limit_expression_complexity,
            !r.limit_call_stack_depth,
    {
        CompileOptions {
            object_code: false,
            emulate_abs_int_function: false,
            emulate_isnan_float_function: false,
            emulate_atan2_float_function: false,
            clamp_indirect_array_bounds: false,
            init_gl_position: false,
            enforce_packing_restrictions: false,
            limit_expression_complexity: false,
            limit_call_stack_depth: false,
        }
    }

    /// The switches used to translate for a browser: object code, the
    /// driver workarounds, bounds clamping, position initialization, packing
    /// rules and the complexity and call-depth limits, all on.
    pub open spec fn spec_translation() -> CompileOptions {
        CompileOptions {
            object_code: true,
            emulate_abs_int_function: true,
            emulate_isnan_float_function: true,
            emulate_atan2_float_function: true,
            clamp_indirect_array_bounds: true,
            init_gl_position: true,
            enforce_packing_restrictions: true,
            limit_expression_complexity: true,
            limit_call_stack_depth: true,
        }
    }

    pub fn translation() -> (r: CompileOptions)
        ensures
            r == CompileOptions::spec_translation(),
    {
        CompileOptions {
            object_code: true,
            emulate_abs_int_function: true,
            emulate_isnan_float_function: true,
            emulate_atan2_float_function: true,
            clamp_indirect_array_bounds: true,
            init_gl_position: true,
            enforce_packing_restrictions: true,
            limit_expression_complexity: true,
            limit_call_stack_depth: true,
        }
    }

    /// The switches that are on in either set.
    pub fn union(&self, other: &CompileOptions) -> (r: CompileOptions)
        ensures
            r.object_code == (self.object_code || other.object_code),
            r.emulate_abs_int_function == (self.emulate_abs_int_function
                || other.emulate_abs_int_function),
            r.emulate_isnan_float_function == (self.emulate_isnan_float_function
                || other.emulate_isnan_float_function),
            r.emulate_atan2_float_function == (self.emulate_atan2_float_function
                || other.emulate_atan2_float_function),
            r.clamp_indirect_array_bounds == (self.clamp_indirect_array_bounds
                || other.clamp_indirect_array_bounds),
            r.init_gl_position == (self.init_gl_position || other.init_gl_position),
            r.enforce_packing_restrictions == (self.enforce_packing_restrictions
                || other.enforce_packing_restrictions),
            r.limit_expression_complexity == (self.limit_expression_complexity
                || other.limit_expression_complexity),
            r.limit_call_stack_depth == (self.limit_call_stack_depth
                || other.limit_call_stack_depth),
    {
        CompileOptions {
            object_code: self.object_code || other.object_code,
            emulate_abs_int_function: self.emulate_abs_int_function
                || other.emulate_abs_int_function,
            emulate_isnan_float_function: self.emulate_isnan_float_function
                || other.emulate_isnan_float_function,
            emulate_atan2_float_function: self.emulate_atan2_float_function
                || other.emulate_atan2_float_function,
            clamp_indirect_array_bounds: self.clamp_indirect_array_bounds
                || other.clamp_indirect_array_bounds,
            init_gl_position: self.init_gl_position || other.init_gl_position,
            enforce_packing_restrictions: self.enforce_packing_restrictions
                || other.enforce_packing_restrictions,
            limit_expression_complexity: self.limit_expression_complexity
                || other.limit_expression_complexity,
            limit_call_stack_depth: self.limit_call_stack_depth || other.limit_call_stack_depth,
        }
    }

    /// The bitmask the engine's compile entry point takes.
    pub fn bits(&self) -> (r: u64)
        ensures
            r == self.spec_bits(),
    {
        let mut r: u64 = 0;
        if self.object_code {
            r = r + OBJECT_CODE;
        }
        if self.emulate_abs_int_function {
            r = r + EMULATE_ABS_INT_FUNCTION;
        }
        if self.emulate_isnan_float_function {
            r = r + EMULATE_ISNAN_FLOAT_FUNCTION;
        }
        if self.emulate_atan2_float_function {
            r = r + EMULATE_ATAN2_FLOAT_FUNCTION;
        }
        if self.clamp_indirect_array_bounds {
            r = r + CLAMP_INDIRECT_ARRAY_BOUNDS;
        }
        if self.init_gl_position {
            r = r + INIT_GL_POSITION;
        }
        if self.enforce_packing_restrictions {
            r = r + ENFORCE_PACKING_RESTRICTIONS;
        }
        if self.limit_expression_complexity {
            r = r + LIMIT_EXPRESSION_COMPLEXITY;
        }
        if self.limit_call_stack_depth {
            r = r + LIMIT_CALL_STACK_DEPTH;
        }
        r
    }
}

} // verus!
