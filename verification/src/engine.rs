//! The sandboxed script runtime: it compiles script text without running it,
//! and runs compiled scripts under fixed resource caps — an operation budget,
//! a call-depth limit, and size limits on strings and collections — so that
//! a runaway script is cut off cleanly instead of hanging the host.
//!
//! There is deliberately no wall-clock timeout: the operation budget is the
//! only way a long-running script ends, so every abort is deterministic.

use vstd::prelude::*;

use crate::bindings;

verus! {

/// Relies on `rhai::Engine`: the interpreter the sandbox is built on.
#[verifier::external_type_specification]
#[verifier::external_body]
pub struct ExEngine(rhai::Engine);

/// Relies on `rhai::AST`: a compiled script, opaque here.
#[verifier::external_type_specification]
#[verifier::external_body]
pub struct ExAST(rhai::AST);

/// The largest number of interpreter operations one run may take.
pub const MAX_OPERATIONS: u64 = 100000;

/// The deepest call nesting a script may reach.
pub const MAX_CALL_LEVELS: usize = 64;

/// How many modules a script may load.
pub const MAX_MODULES: usize = 10;

/// The longest string a script may build.
pub const MAX_STRING_SIZE: usize = 10000;

/// The largest array a script may build.
pub const MAX_ARRAY_SIZE: usize = 1000;

/// The largest map a script may build.
pub const MAX_MAP_SIZE: usize = 1000;

/// Why the runtime refused or stopped a script.
#[derive(Debug)]
pub enum EngineError {
    /// The text does not parse; reported before anything runs.
    SyntaxError(String),
    /// A resource cap cut execution off.
    ResourceLimitExceeded(String),
    /// The script itself failed while running.
    ScriptError(String),
}

/// The content of an [`EngineError`].
pub enum EngineErrorV {
    SyntaxError(Seq<char>),
    ResourceLimitExceeded(Seq<char>),
    ScriptError(Seq<char>),
}

impl DeepView for EngineError {
    type V = EngineErrorV;

    open spec fn deep_view(&self) -> EngineErrorV {
        match self {
            EngineError::SyntaxError(m) => EngineErrorV::SyntaxError(m@),
            EngineError::ResourceLimitExceeded(m) => EngineErrorV::ResourceLimitExceeded(m@),
            EngineError::ScriptError(m) => EngineErrorV::ScriptError(m@),
        }
    }
}

impl EngineError {
    /// The words the error carries.
    pub fn message(&self) -> (r: String)
        ensures
            r@ == (match self.deep_view() {
                EngineErrorV::SyntaxError(m) => m,
                EngineErrorV::ResourceLimitExceeded(m) => m,
                EngineErrorV::ScriptError(m) => m,
            }),
    {
        match self {
            EngineError::SyntaxError(m) => m.clone(),
            EngineError::ResourceLimitExceeded(m) => m.clone(),
            EngineError::ScriptError(m) => m.clone(),
        }
    }
}

/// Whether the sandbox accepts a script text as well-formed, and with
/// which message it rejects it. The interpreter enforces its configured
/// size limits already while parsing, so acceptance is a function of the
/// text and the engine's configuration together; this name fixes the
/// configuration to the one sandbox configuration below, which the trusted
/// compile wrapper builds for itself on every call. So pinned, the result
/// is a function of the text alone.
pub uninterp spec fn compile_of(script: Seq<char>) -> Result<(), Seq<char>>;

/// Relies on `rhai::Engine::new` and its limit setters: a fresh engine
/// carrying the one fixed sandbox configuration — the caps named above —
/// with the `eval` and `system` symbols disabled so scripts reach no
/// ambient host facilities. Every engine the library builds comes from
/// here, so they all parse and run alike.
#[verifier::external_body]
fn sandboxed_engine() -> rhai::Engine {
    let mut engine = rhai::Engine::new();
    engine.set_max_operations(MAX_OPERATIONS);
    engine.set_max_call_levels(MAX_CALL_LEVELS);
    engine.set_max_modules(MAX_MODULES);
    engine.set_max_string_size(MAX_STRING_SIZE);
    engine.set_max_array_size(MAX_ARRAY_SIZE);
    engine.set_max_map_size(MAX_MAP_SIZE);
    engine.disable_symbol("eval");
    engine.disable_symbol("system");
    engine
}

/// Relies on `rhai::Engine::compile` on a fresh engine from
/// [`sandboxed_engine`]: parses and validates the text, runs nothing, and —
/// with the configuration fixed inside this body — answers the same way
/// for the same text, which `compile_of` names.
#[verifier::external_body]
fn compile_raw(script: &str) -> (r: Result<rhai::AST, String>)
    ensures
        r is Ok <==> compile_of(script@) is Ok,
        r is Err ==> compile_of(script@) == Err::<(), Seq<char>>(r->Err_0@),
{
    sandboxed_engine().compile(script).map_err(|e| e.to_string())
}

/// Relies on `rhai::Engine::run_ast_with_scope` on a fresh scope: each run
/// starts from an empty scope, so runs share no script-level state. A
/// limit abort (`ErrorTooManyOperations`, `ErrorTooManyModules`,
/// `ErrorStackOverflow`, `ErrorDataTooLarge`) is told apart from the
/// script's own failure; what a run returns is not promised.
#[verifier::external_body]
fn run_raw(engine: &rhai::Engine, ast: &rhai::AST) -> (r: Result<(), EngineError>)
    ensures
        r is Err ==> !(r->Err_0 is SyntaxError),
{
    let mut scope = rhai::Scope::new();
    engine.run_ast_with_scope(&mut scope, ast).map_err(|e| match &*e {
        rhai::EvalAltResult::ErrorTooManyOperations(..)
        | rhai::EvalAltResult::ErrorTooManyModules(..)
        | rhai::EvalAltResult::ErrorStackOverflow(..)
        | rhai::EvalAltResult::ErrorDataTooLarge(..) => EngineError::ResourceLimitExceeded(
            e.to_string(),
        ),
        _ => EngineError::ScriptError(e.to_string()),
    })
}

/// The message an [`EngineErrorV`] carries, whatever its kind.
pub open spec fn engine_error_text(e: EngineErrorV) -> Seq<char> {
    match e {
        EngineErrorV::SyntaxError(m) => m,
        EngineErrorV::ResourceLimitExceeded(m) => m,
        EngineErrorV::ScriptError(m) => m,
    }
}

/// The same failure with its message put behind the runtime prefix, its
/// kind untouched.
fn with_runtime_prefix(e: EngineError) -> (r: EngineError)
    ensures
        r.deep_view() == (match e.deep_view() {
            EngineErrorV::SyntaxError(m) => EngineErrorV::SyntaxError("Runtime error: "@ + m),
            EngineErrorV::ResourceLimitExceeded(m) => EngineErrorV::ResourceLimitExceeded(
                "Runtime error: "@ + m,
            ),
            EngineErrorV::ScriptError(m) => EngineErrorV::ScriptError("Runtime error: "@ + m),
        }),
{
    match e {
        EngineError::SyntaxError(m) => EngineError::SyntaxError(
            String::from_str("Runtime error: ").concat(m.as_str()),
        ),
        EngineError::ResourceLimitExceeded(m) => EngineError::ResourceLimitExceeded(
            String::from_str("Runtime error: ").concat(m.as_str()),
        ),
        EngineError::ScriptError(m) => EngineError::ScriptError(
            String::from_str("Runtime error: ").concat(m.as_str()),
        ),
    }
}

/// The sandboxed runtime: one engine with the fixed caps above and the host
/// capability surface registered.
pub struct ScriptEngine {
    engine: rhai::Engine,
}

impl ScriptEngine {
    /// An engine carrying the fixed sandbox configuration, with the host
    /// capability surface registered and nothing else exposed.
    pub fn new() -> ScriptEngine {
        let mut engine = sandboxed_engine();
        bindings::register_ha_api(&mut engine);
        ScriptEngine { engine }
    }

    /// Parses and statically validates `script`; nothing is executed.
    /// Success is decided by the text alone, and a rejection carries the
    /// parser's words behind one fixed prefix.
    pub fn compile(&self, script: &str) -> (r: Result<rhai::AST, EngineError>)
        ensures
            r is Ok <==> compile_of(script@) is Ok,
            r is Err ==> r->Err_0.deep_view() == EngineErrorV::SyntaxError(
                "Compilation error: "@ + compile_of(script@)->Err_0,
            ),
    {
        match compile_raw(script) {
            Ok(ast) => Ok(ast),
            Err(m) => Err(
                EngineError::SyntaxError(
                    String::from_str("Compilation error: ").concat(m.as_str()),
                ),
            ),
        }
    }

    /// Runs a compiled script in a fresh scope under the fixed caps. A
    /// failure is never a syntax error — either the script failed or a
    /// resource cap cut it off, and the two kinds are told apart — and its
    /// message stands behind the runtime prefix.
    pub fn run(&self, ast: &rhai::AST) -> (r: Result<(), EngineError>)
        ensures
            r matches Err(e) ==> !(e.deep_view() is SyntaxError) && engine_error_text(
                e.deep_view(),
            ).len() >= "Runtime error: "@.len() && engine_error_text(e.deep_view()).subrange(
                0,
                "Runtime error: "@.len() as int,
            ) == "Runtime error: "@,
    {
        match run_raw(&self.engine, ast) {
            Ok(u) => Ok(u),
            Err(e) => {
                let wrapped = with_runtime_prefix(e);
                proof {
                    let p = "Runtime error: "@;
                    let m = engine_error_text(e.deep_view());
                    assert((p + m).subrange(0, p.len() as int) =~= p);
                }
                Err(wrapped)
            },
        }
    }

    /// Compiles and, when the text is well-formed, runs it. A text the
    /// sandbox rejects is answered with compile's syntax error, message and
    /// all, and nothing is executed; a syntax-kind failure comes only from
    /// that rejection, so any run that starts was compiled; a success means
    /// the text is accepted.
    pub fn run_script(&self, script: &str) -> (r: Result<(), EngineError>)
        ensures
            compile_of(script@) is Err ==> (r matches Err(e) && e.deep_view()
                == EngineErrorV::SyntaxError(
                "Compilation error: "@ + compile_of(script@)->Err_0,
            )),
            r is Ok ==> compile_of(script@) is Ok,
            r matches Err(e) ==> (e.deep_view() is SyntaxError ==> compile_of(script@) is Err),
    {
        let ast = match self.compile(script) {
            Ok(a) => a,
            Err(e) => {
                return Err(e);
            },
        };
        self.run(&ast)
    }
}

} // verus!
