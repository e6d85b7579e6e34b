use angle::{CompileOptions, EngineState, Output, ShaderSpec, ShaderValidator};

const FRAGMENT_SHADER: u32 = 0x8B30;

fn session() -> ShaderValidator {
    ShaderValidator::for_webgl(FRAGMENT_SHADER, Output::Glsl)
        .finish(0x1000)
        .expect("non-null handle")
}

#[test]
fn engine_starts_uninitialized() {
    assert!(!EngineState::new().initialized);
}

#[test]
fn engine_initialize_and_finalize() {
    let mut e = EngineState::new();
    assert_eq!(e.initialize(1), Ok(()));
    assert!(e.initialized);
    assert_eq!(e.finalize(1), Ok(()));
    assert!(!e.initialized);
}

#[test]
fn engine_failures_keep_state() {
    let mut e = EngineState::new();
    assert_eq!(e.initialize(0), Err("Couldn't initialize GLSLang"));
    assert!(!e.initialized);
    e.initialize(1).unwrap();
    assert_eq!(e.finalize(0), Err("Couldn't finalize GLSLang"));
    assert!(e.initialized);
}

#[test]
fn construction_arguments() {
    let c = ShaderValidator::new(7, ShaderSpec::Gles3, Output::Essl);
    assert_eq!(c.shader_type, 7);
    assert_eq!(c.spec, ShaderSpec::Gles3);
    assert_eq!(c.output, Output::Essl);
    assert_eq!(ShaderValidator::for_webgl(1, Output::Glsl).spec, ShaderSpec::WebGL);
    assert_eq!(ShaderValidator::for_webgl2(1, Output::Glsl).spec, ShaderSpec::WebGL2);
}

#[test]
fn null_handle_gives_no_session() {
    let c = ShaderValidator::for_webgl2(FRAGMENT_SHADER, Output::Essl);
    assert!(c.finish(0).is_none());
}

#[test]
fn non_null_handle_gives_session() {
    let v = ShaderValidator::for_webgl2(FRAGMENT_SHADER, Output::Glsl450Core)
        .finish(42)
        .unwrap();
    assert_eq!(v.handle(), 42);
    assert_eq!(v.shader_type(), FRAGMENT_SHADER);
    assert_eq!(v.spec(), ShaderSpec::WebGL2);
    assert_eq!(v.output(), Output::Glsl450Core);
}

#[test]
fn compile_rejects_embedded_nul() {
    let v = session();
    let r = v.compile(&["void main() {", "}\0"], CompileOptions::validate_only());
    assert_eq!(r.unwrap_err(), "Found invalid characters");
    let r = v.compile_and_translate(&["\0"]);
    assert_eq!(r.unwrap_err(), "Found invalid characters");
}

#[test]
fn compile_request_carries_sources_and_options() {
    let v = session();
    let sources = ["precision mediump float;", "void main() { gl_FragColor = vec4(1.0); }"];
    let req = v.compile(&sources, CompileOptions::validate_only()).unwrap();
    assert_eq!(req.handle, 0x1000);
    assert_eq!(req.sources, sources.to_vec());
    assert_eq!(req.options, CompileOptions::validate_only());
}

#[test]
fn compile_of_no_fragments_is_accepted() {
    let v = session();
    let req = v.compile(&[], CompileOptions::validate_only()).unwrap();
    assert!(req.sources.is_empty());
}

#[test]
fn compile_and_translate_uses_translation_options() {
    let v = session();
    let req = v.compile_and_translate(&["void main() {}"]).unwrap();
    assert_eq!(req.options, CompileOptions::translation());
    assert_eq!(req.sources, vec!["void main() {}"]);
}

#[test]
fn compile_status_is_concluded() {
    let v = session();
    let req = v.compile_and_translate(&["void main() { undeclared = 1; }"]).unwrap();
    assert_eq!(req.finish(0), Err("Couldn't compile shader"));
    assert_eq!(req.finish(1), Ok(()));
}
