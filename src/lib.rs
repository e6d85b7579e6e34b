//! Safety and lifecycle layer around a native shader-translation engine.
//!
//! The library holds the decisions of the layer: the mapping of shading
//! language variants and output dialects to the engine's constants, the
//! resource-limit record, the compile-option set, the engine's lifecycle
//! state and the compiler session's construction and compile protocol. The
//! native calls themselves are made by the caller, who hands their results
//! back to the functions here.
pub mod dialect;
pub mod engine;
pub mod options;
pub mod resources;
pub mod validator;

pub use dialect::{AsAngleEnum, Output, ShaderSpec};
pub use engine::EngineState;
pub use options::CompileOptions;
pub use resources::BuiltInResources;
pub use validator::{CompileRequest, Construction, ShaderValidator};
