use angle::dialect::{
    ESSL_OUTPUT, GLSL_130_OUTPUT, GLSL_140_OUTPUT, GLSL_450_CORE_OUTPUT,
    GLSL_COMPATIBILITY_OUTPUT,
};
use angle::{AsAngleEnum, Output, ShaderSpec};

const ALL_SPECS: [ShaderSpec; 5] = [
    ShaderSpec::Gles2,
    ShaderSpec::WebGL,
    ShaderSpec::Gles3,
    ShaderSpec::WebGL2,
    ShaderSpec::WebGL3,
];

const ALL_OUTPUTS: [Output; 14] = [
    Output::Essl,
    Output::Glsl,
    Output::GlslCompat,
    Output::GlslCore,
    Output::Glsl130,
    Output::Glsl140,
    Output::Glsl150Core,
    Output::Glsl330Core,
    Output::Glsl400Core,
    Output::Glsl410Core,
    Output::Glsl420Core,
    Output::Glsl430Core,
    Output::Glsl440Core,
    Output::Glsl450Core,
];

fn is_alias(a: Output, b: Output) -> bool {
    matches!(
        (a, b),
        (Output::Glsl, Output::GlslCompat)
            | (Output::GlslCompat, Output::Glsl)
            | (Output::GlslCore, Output::Glsl130)
            | (Output::Glsl130, Output::GlslCore)
    )
}

#[test]
fn spec_constants_are_distinct_and_stable() {
    for (i, a) in ALL_SPECS.iter().enumerate() {
        assert_eq!(a.as_angle_enum(), a.as_angle_enum());
        for (j, b) in ALL_SPECS.iter().enumerate() {
            assert_eq!(i == j, a.as_angle_enum() == b.as_angle_enum());
        }
    }
}

#[test]
fn spec_constant_values() {
    assert_eq!(ShaderSpec::Gles2.as_angle_enum(), 0);
    assert_eq!(ShaderSpec::WebGL.as_angle_enum(), 1);
    assert_eq!(ShaderSpec::Gles3.as_angle_enum(), 2);
    assert_eq!(ShaderSpec::WebGL2.as_angle_enum(), 3);
    assert_eq!(ShaderSpec::WebGL3.as_angle_enum(), 5);
}

#[test]
fn glsl_and_glsl_compat_share_a_constant() {
    assert_eq!(Output::Glsl.as_angle_enum(), Output::GlslCompat.as_angle_enum());
    assert_eq!(Output::Glsl.as_angle_enum(), GLSL_COMPATIBILITY_OUTPUT);
}

#[test]
fn output_constants_distinct_but_aliases() {
    for a in ALL_OUTPUTS.iter() {
        for b in ALL_OUTPUTS.iter() {
            let same = a.as_angle_enum() == b.as_angle_enum();
            assert_eq!(same, a == b || is_alias(*a, *b));
        }
    }
}

#[test]
fn output_constant_values() {
    assert_eq!(Output::Essl.as_angle_enum(), ESSL_OUTPUT);
    assert_eq!(Output::Essl.as_angle_enum(), 0x8B45);
    assert_eq!(Output::GlslCore.as_angle_enum(), GLSL_130_OUTPUT);
    assert_eq!(Output::Glsl130.as_angle_enum(), 0x8B47);
    assert_eq!(Output::Glsl140.as_angle_enum(), GLSL_140_OUTPUT);
    assert_eq!(Output::Glsl450Core.as_angle_enum(), GLSL_450_CORE_OUTPUT);
    assert_eq!(Output::Glsl450Core.as_angle_enum(), 0x8B88);
}
