//! The compiler session: one native compiler handle, how it comes to be,
//! and how a compile call on it is prepared and concluded.
//!
//! The native calls are made by the caller. Construction is asked for with a
//! `Construction`, whose fields are the arguments of the engine's
//! construction entry point; the handle that call returns is handed to
//! `Construction::finish`. A compile call is asked for with a
//! `CompileRequest`, which exists only for sources the engine can take; the
//! engine's status is handed to `CompileRequest::finish`.
use vstd::prelude::*;
use vstd::string::StringSliceAdditionalSpecFns;
use crate::dialect::{Output, ShaderSpec};
use crate::options::CompileOptions;

verus! {

/// The fragment holds a zero byte, so it cannot be handed to the engine as
/// a null-terminated buffer.
pub open spec fn has_nul(s: &str) -> bool {
    exists|j: int| 0 <= j < s.spec_bytes().len() && #[trigger] s.spec_bytes()[j] == 0u8
}

/// Every fragment can be handed to the engine.
pub open spec fn all_encodable(strings: Seq<&str>) -> bool {
    forall|i: int| 0 <= i < strings.len() ==> !has_nul(#[trigger] strings[i])
}

/// The arguments of one call of the engine's construction entry point.
#[derive(Clone, Copy, Debug, PartialEq, Eq, Structural)]
pub struct Construction {
    pub shader_type: u32,
    pub spec: ShaderSpec,
    pub output: Output,
}

/// A live compiler session. Its handle is never null, and is owned by this
/// session alone: the type is neither `Clone` nor `Copy`.
#[derive(Debug)]
pub struct ShaderValidator {
    handle: usize,
    shader_type: u32,
    spec: ShaderSpec,
    output: Output,
}

/// One compile call to make on a session's handle: the sources, none of
/// which holds a zero byte, and the switches.
#[derive(Debug)]
pub struct CompileRequest<'a> {
    pub handle: usize,
    pub sources: Vec<&'a str>,
    pub options: CompileOptions,
}

impl Construction {
    /// Concludes construction with the handle the engine returned, zero
    /// standing for a null handle: a session exactly when it is not null.
    pub fn finish(self, handle: usize) -> (r: Option<ShaderValidator>)
        ensures
            r is Some <==> handle != 0,
            r is Some ==> r->0.spec_handle() == handle,
            r is Some ==> r->0.spec_shader_type() == self.shader_type,
            r is Some ==> r->0.spec_spec() == self.spec,
            r is Some ==> r->0.spec_output() == self.output,
    {
        if handle == 0 {
            None
        } else {
            Some(ShaderValidator {
                handle,
                shader_type: self.shader_type,
                spec: self.spec,
                output: self.output,
            })
        }
    }
}

impl ShaderValidator {
    #[verifier::type_invariant]
    spec fn handle_not_null(self) -> bool {
        self.handle != 0
    }

    pub closed spec fn spec_handle(&self) -> usize {
        self.handle
    }

    pub closed spec fn spec_shader_type(&self) -> u32 {
        self.shader_type
    }

    pub closed spec fn spec_spec(&self) -> ShaderSpec {
        self.spec
    }

    pub closed spec fn spec_output(&self) -> Output {
        self.output
    }

    /// Asks for a compiler of the given shader type, specification and
    /// output dialect. The engine's construction entry point is not
    /// reentrant: callers make that call under one process-wide lock.
    pub fn new(shader_type: u32, spec: ShaderSpec, output: Output) -> (r: Construction)
        ensures
            r == (Construction { shader_type, spec, output }),
    {
        Construction { shader_type, spec, output }
    }

    /// Asks for a compiler of the WebGL specification.
    pub fn for_webgl(shader_type: u32, output: Output) -> (r: Construction)
        ensures
            r == (Construction { shader_type, spec: ShaderSpec::WebGL, output }),
    {
        Self::new(shader_type, ShaderSpec::WebGL, output)
    }

    /// Asks for a compiler of the WebGL 2 specification.
    pub fn for_webgl2(shader_type: u32, output: Output) -> (r: Construction)
        ensures
            r == (Construction { shader_type, spec: ShaderSpec::WebGL2, output }),
    {
        Self::new(shader_type, ShaderSpec::WebGL2, output)
    }

    /// The native handle, never null.
    pub fn handle(&self) -> (r: usize)
        ensures
            r == self.spec_handle(),
            r != 0,
    {
        proof {
            use_type_invariant(self);
        }
        self.handle
    }

    pub fn shader_type(&self) -> (r: u32)
        ensures
            r == self.spec_shader_type(),
    {
        self.shader_type
    }

    pub fn spec(&self) -> (r: ShaderSpec)
        ensures
            r == self.spec_spec(),
    {
        self.spec
    }

    pub fn output(&self) -> (r: Output)
        ensures
            r == self.spec_output(),
    {
        self.output
    }

    /// Prepares a compile call of the fragments, in order, with the given
    /// switches. A fragment with a zero byte is refused before anything
    /// reaches the engine.
    pub fn compile<'a>(&self, strings: &[&'a str], options: CompileOptions) -> (r: Result<
        CompileRequest<'a>,
        &'static str,
    >)
        ensures
            r is Ok <==> all_encodable(strings@),
            r is Err ==> r->Err_0@ == "Found invalid characters"@,
            r is Ok ==> r->Ok_0.handle == self.spec_handle(),
            r is Ok ==> r->Ok_0.handle != 0,
            r is Ok ==> r->Ok_0.sources@ == strings@,
            r is Ok ==> r->Ok_0.options == options,
    {
        let mut sources: Vec<&'a str> = Vec::with_capacity(strings.len());
        let mut i: usize = 0;
        while i < strings.len()
            invariant
                i <= strings@.len(),
                sources@ == strings@.subrange(0, i as int),
                all_encodable(sources@),
            decreases strings@.len() - i,
        {
            let s: &'a str = strings[i];
            if contains_nul(s) {
                assert(!all_encodable(strings@)) by {
                    assert(has_nul(strings@[i as int]));
                }
                return Err("Found invalid characters");
            }
            sources.push(s);
            i = i + 1;
        }
        assert(sources@ == strings@);
        Ok(CompileRequest { handle: self.handle(), sources, options })
    }

    /// Prepares a compile call with the translation switches, whose object
    /// code is read back once the engine reports success.
    pub fn compile_and_translate<'a>(&self, strings: &[&'a str]) -> (r: Result<
        CompileRequest<'a>,
        &'static str,
    >)
        ensures
            r is Ok <==> all_encodable(strings@),
            r is Err ==> r->Err_0@ == "Found invalid characters"@,
            r is Ok ==> r->Ok_0.handle == self.spec_handle(),
            r is Ok ==> r->Ok_0.handle != 0,
            r is Ok ==> r->Ok_0.sources@ == strings@,
            r is Ok ==> r->Ok_0.options == CompileOptions::spec_translation(),
    {
        self.compile(strings, CompileOptions::translation())
    }
}

impl<'a> CompileRequest<'a> {
    /// Concludes the compile call with the status the engine returned: zero
    /// is a failure, whose diagnostics are in the session's info log.
    pub fn finish(&self, status: i32) -> (r: Result<(), &'static str>)
        ensures
            r is Ok <==> status != 0,
            r is Err ==> r->Err_0@ == "Couldn't compile shader"@,
    {
        if status == 0 {
            Err("Couldn't compile shader")
        } else {
            Ok(())
        }
    }
}

/// Whether the fragment holds a zero byte.
fn contains_nul(s: &str) -> (r: bool)
    ensures
        r == has_nul(s),
{
    let bytes = s.as_bytes();
    let mut j: usize = 0;
    while j < bytes.len()
        invariant
            bytes@ == s.spec_bytes(),
            j <= bytes@.len(),
            forall|k: int| 0 <= k < j ==> bytes@[k] != 0u8,
        decreases bytes@.len() - j,
    {
        if bytes[j] == 0u8 {
            return true;
        }
        j = j + 1;
    }
    false
}

} // verus!
