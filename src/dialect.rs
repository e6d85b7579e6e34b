//! Shading-language variants and output dialects, and the engine constants
//! that stand for them.
use vstd::prelude::*;

verus! {

/// Engine constant for the GLES 2 shading language.
pub const GLES2_SPEC: i32 = 0;
/// Engine constant for the WebGL shading language.
pub const WEBGL_SPEC: i32 = 1;
/// Engine constant for the GLES 3 shading language.
pub const GLES3_SPEC: i32 = 2;
/// Engine constant for the WebGL 2 shading language.
pub const WEBGL2_SPEC: i32 = 3;
/// Engine constant for the WebGL 3 shading language.
pub const WEBGL3_SPEC: i32 = 5;

/// Engine constant for ESSL output.
pub const ESSL_OUTPUT: i32 = 0x8B45;
/// Engine constant for GLSL compatibility-profile output.
pub const GLSL_COMPATIBILITY_OUTPUT: i32 = 0x8B46;
/// Engine constant for GLSL 1.30 output.
pub const GLSL_130_OUTPUT: i32 = 0x8B47;
/// Engine constant for GLSL 1.40 output.
pub const GLSL_140_OUTPUT: i32 = 0x8B80;
/// Engine constant for GLSL 1.50 core output.
pub const GLSL_150_CORE_OUTPUT: i32 = 0x8B81;
/// Engine constant for GLSL 3.30 core output.
pub const GLSL_330_CORE_OUTPUT: i32 = 0x8B82;
/// Engine constant for GLSL 4.00 core output.
pub const GLSL_400_CORE_OUTPUT: i32 = 0x8B83;
/// Engine constant for GLSL 4.10 core output.
pub const GLSL_410_CORE_OUTPUT: i32 = 0x8B84;
/// Engine constant for GLSL 4.20 core output.
pub const GLSL_420_CORE_OUTPUT: i32 = 0x8B85;
/// Engine constant for GLSL 4.30 core output.
pub const GLSL_430_CORE_OUTPUT: i32 = 0x8B86;
/// Engine constant for GLSL 4.40 core output.
pub const GLSL_440_CORE_OUTPUT: i32 = 0x8B87;
/// Engine constant for GLSL 4.50 core output.
pub const GLSL_450_CORE_OUTPUT: i32 = 0x8B88;

/// A value that the engine knows by an integer constant.
pub trait AsAngleEnum {
    /// The engine constant that stands for this value.
    spec fn angle_enum(&self) -> i32;

    fn as_angle_enum(&self) -> (r: i32)
        ensures
            r == self.angle_enum(),
    ;
}

/// The shading-language specification a compiler accepts.
#[derive(Clone, Copy, Debug, PartialEq, Eq, Structural)]
pub enum ShaderSpec {
    Gles2,
    WebGL,
    Gles3,
    WebGL2,
    WebGL3,
}

/// The dialect a compiler translates into.
#[derive(Clone, Copy, Debug, PartialEq, Eq, Structural)]
pub enum Output {
    Essl,
    Glsl,
    GlslCompat,
    GlslCore,
    Glsl130,
    Glsl140,
    Glsl150Core,
    Glsl330Core,
    Glsl400Core,
    Glsl410Core,
    Glsl420Core,
    Glsl430Core,
    Glsl440Core,
    Glsl450Core,
}

pub open spec fn spec_code(s: ShaderSpec) -> i32 {
    match s {
        ShaderSpec::Gles2 => GLES2_SPEC,
        ShaderSpec::WebGL => WEBGL_SPEC,
        ShaderSpec::Gles3 => GLES3_SPEC,
        ShaderSpec::WebGL2 => WEBGL2_SPEC,
        ShaderSpec::WebGL3 => WEBGL3_SPEC,
    }
}

pub open spec fn output_code(o: Output) -> i32 {
    match o {
        Output::Essl => ESSL_OUTPUT,
        Output::Glsl => GLSL_COMPATIBILITY_OUTPUT,
        Output::GlslCompat => GLSL_COMPATIBILITY_OUTPUT,
        Output::GlslCore => GLSL_130_OUTPUT,
        Output::Glsl130 => GLSL_130_OUTPUT,
        Output::Glsl140 => GLSL_140_OUTPUT,
        Output::Glsl150Core => GLSL_150_CORE_OUTPUT,
        Output::Glsl330Core => GLSL_330_CORE_OUTPUT,
        Output::Glsl400Core => GLSL_400_CORE_OUTPUT,
        Output::Glsl410Core => GLSL_410_CORE_OUTPUT,
        Output::Glsl420Core => GLSL_420_CORE_OUTPUT,
        Output::Glsl430Core => GLSL_430_CORE_OUTPUT,
        Output::Glsl440Core => GLSL_440_CORE_OUTPUT,
        Output::Glsl450Core => GLSL_450_CORE_OUTPUT,
    }
}

impl AsAngleEnum for ShaderSpec {
    open spec fn angle_enum(&self) -> i32 {
        spec_code(*self)
    }

    fn as_angle_enum(&self) -> (r: i32) {
        match *self {
            ShaderSpec::Gles2 => GLES2_SPEC,
            ShaderSpec::WebGL => WEBGL_SPEC,
            ShaderSpec::Gles3 => GLES3_SPEC,
            ShaderSpec::WebGL2 => WEBGL2_SPEC,
            ShaderSpec::WebGL3 => WEBGL3_SPEC,
        }
    }
}

impl AsAngleEnum for Output {
    open spec fn angle_enum(&self) -> i32 {
        output_code(*self)
    }

    fn as_angle_enum(&self) -> (r: i32) {
        match *self {
            Output::Essl => ESSL_OUTPUT,
            Output::Glsl => GLSL_COMPATIBILITY_OUTPUT,
            Output::GlslCompat => GLSL_COMPATIBILITY_OUTPUT,
            Output::GlslCore => GLSL_130_OUTPUT,
            Output::Glsl130 => GLSL_130_OUTPUT,
            Output::Glsl140 => GLSL_140_OUTPUT,
            Output::Glsl150Core => GLSL_150_CORE_OUTPUT,
            Output::Glsl330Core => GLSL_330_CORE_OUTPUT,
            Output::Glsl400Core => GLSL_400_CORE_OUTPUT,
            Output::Glsl410Core => GLSL_410_CORE_OUTPUT,
            Output::Glsl420Core => GLSL_420_CORE_OUTPUT,
            Output::Glsl430Core => GLSL_430_CORE_OUTPUT,
            Output::Glsl440Core => GLSL_440_CORE_OUTPUT,
            Output::Glsl450Core => GLSL_450_CORE_OUTPUT,
        }
    }
}

/// Two output dialects that the engine treats as one target: the plain GLSL
/// names stand for the compatibility profile, and the core profile below 1.40
/// is GLSL 1.30.
pub open spec fn output_aliases(a: Output, b: Output) -> bool {
    ||| (a == Output::Glsl && b == Output::GlslCompat)
    ||| (a == Output::GlslCompat && b == Output::Glsl)
    ||| (a == Output::GlslCore && b == Output::Glsl130)
    ||| (a == Output::Glsl130 && b == Output::GlslCore)
}

/// Every shading-language variant has its own engine constant: two variants
/// map to the same constant exactly when they are the same variant.
pub proof fn spec_codes_distinct(a: ShaderSpec, b: ShaderSpec)
    ensures
        (a.angle_enum() == b.angle_enum()) <==> (a == b),
{
}

/// Distinct output dialects map to distinct engine constants, except the
/// documented alias pairs, which map to one constant each.
pub proof fn output_codes_distinct_but_aliases(a: Output, b: Output)
    ensures
        (a.angle_enum() == b.angle_enum()) <==> (a == b || output_aliases(a, b)),
{
}

/// `Glsl` and `GlslCompat` name the same engine target.
pub proof fn glsl_is_compatibility_profile()
    ensures
        Output::Glsl.angle_enum() == Output::GlslCompat.angle_enum(),
{
}

} // verus!
