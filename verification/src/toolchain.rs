//! The trusted boundary to the external language toolchain and to the
//! process-wide fault hook. Each function here makes an outside call and
//! states only what the called crate's source shows; everything that can
//! be proved lives in the adapter on top of these.
//!
//! The bridge's fixed policy is to build in debug mode: the toolchain's
//! debug/release flag affects none of the staged entries called here, so
//! no flag parameter appears at this boundary.

use vstd::prelude::*;

use atlas_77::atlas_c::atlas_codegen::arena::CodeGenArena;
use atlas_77::atlas_c::atlas_codegen::CodeGenUnit;
use atlas_77::atlas_c::atlas_frontend::lexer::AtlasLexer;
use atlas_77::atlas_c::atlas_frontend::parse;
use atlas_77::atlas_c::atlas_frontend::parser::arena::AstArena;
use atlas_77::atlas_c::atlas_hir::arena::HirArena;
use atlas_77::atlas_c::atlas_hir::syntax_lowering_pass::AstSyntaxLoweringPass;
use atlas_77::atlas_c::atlas_hir::type_check_pass::TypeChecker;
use atlas_77::atlas_vm::runtime::arena::RuntimeArena;
use atlas_77::atlas_vm::Atlas77VM;
use bumpalo::Bump;

verus! {

/// What the toolchain's lexer makes of the source text: a token stream
/// (dropped here), or its first lexing error rendered to text. The lexer
/// reads nothing but the source, so the outcome is a function of the
/// source text alone.
pub uninterp spec fn lex_outcome(source: Seq<char>) -> Result<(), Seq<char>>;

/// What the toolchain's staged build (parsing, syntax lowering, type
/// checking, code generation) makes of a source text its lexer tokenizes,
/// where the build runs to completion: success, or the first stage error
/// rendered to its display text. The staged build reads nothing but the
/// source text and its own embedded standard library, and walks the
/// program in source and name order, so the outcome is a function of the
/// source text alone. The name is constrained only through calls that
/// return: on a source where the toolchain aborts instead, nothing is
/// stated of it.
pub uninterp spec fn build_outcome(source: Seq<char>) -> Result<(), Seq<char>>;

/// Whether the toolchain accepts the source text outright: its lexer
/// tokenizes it, and the staged build then succeeds.
pub open spec fn toolchain_accepts(source: Seq<char>) -> bool {
    lex_outcome(source) is Ok && build_outcome(source) is Ok
}

/// Relies on the toolchain's lexer entry `AtlasLexer::tokenize`, the same
/// entry its `parse` runs first. It returns a structured result and does
/// not abort, and its error is rendered here with a fixed prefix, so the
/// error text is never empty.
#[verifier::external_body]
pub(crate) fn tokenize_source(source: &String) -> (r: Result<(), String>)
    ensures
        r is Ok <==> lex_outcome(source@) is Ok,
        r is Err ==> r->Err_0@ == lex_outcome(source@)->Err_0 && r->Err_0@.len() > 0,
{
    let lexed = AtlasLexer::new("playground", source.clone()).tokenize();
    lexed.map(|_| ()).map_err(|e| format!("lexing error: {:?}", e.0))
}

/// Relies on the toolchain's staged build: `atlas_77::atlas_c` `parse`,
/// `AstSyntaxLoweringPass::lower`, `TypeChecker::check` and
/// `CodeGenUnit::compile`, the stages its own `build` entry runs on the
/// text it reads from disk. `parse` aborts on text the lexer refuses, so
/// the precondition admits only text that tokenizes; callers establish it
/// with `tokenize_source`. Every structured error of these stages renders
/// through a non-empty, fixed template. A few unchecked spots deeper in
/// the toolchain still abort on tokenizable text — the parser on a class
/// constructor written with an empty parameter list, the type checker on
/// statement kinds its catch-all does not cover. Those inputs cannot be
/// told apart here, so both clauses below are conditioned on the result
/// and speak only of calls that return, which an abort cannot falsify;
/// the fault hook installed by `init` is the reporting channel for the
/// aborts themselves.
#[verifier::external_body]
pub(crate) fn validate_source(source: &String) -> (r: Result<(), String>)
    requires
        lex_outcome(source@) is Ok,
    ensures
        r is Ok ==> build_outcome(source@) is Ok,
        r is Err ==> build_outcome(source@) is Err && r->Err_0@ == build_outcome(
            source@,
        )->Err_0 && r->Err_0@.len() > 0,
{
    let bump = Bump::new();
    let ast_arena = AstArena::new(&bump);
    let program = parse("playground", &ast_arena, source.clone()).map_err(|e| e.to_string())?;
    let hir_arena = HirArena::new();
    let lowering = AstSyntaxLoweringPass::new(&hir_arena, &program, &ast_arena, source.clone());
    let mut hir = lowering.lower().map_err(|e| e.to_string())?;
    let mut checker = TypeChecker::new(&hir_arena, source.clone());
    checker.check(&mut hir).map_err(|e| e.to_string())?;
    let mut codegen = CodeGenUnit::new(hir, CodeGenArena::new(&bump), source.clone());
    codegen.compile().map_err(|e| e.to_string())?;
    Ok(())
}

/// The toolchain's composite error report, carried opaquely from the run
/// path to the one place that renders it.
#[verifier::external_type_specification]
#[verifier::external_body]
pub struct ExReport(miette::Report);

/// Relies on the same staged build as `validate_source`, followed by
/// `Atlas77VM::run`, as the toolchain's own `run` entry does: a source the
/// staged build rejects never reaches the virtual machine and fails with
/// that stage's error. Whether an accepted program then executes without a
/// runtime error is the virtual machine's verdict alone, so nothing more
/// is stated of it. The precondition admits only text that tokenizes, as
/// for `validate_source`; the build stages' unchecked spots and the
/// virtual machine's own panic sites (certain invalid casts among them)
/// can still abort on admitted input, so the one clause below is
/// conditioned on the result and speaks only of calls that return, which
/// an abort cannot falsify; the fault hook installed by `init` is the
/// reporting channel for the aborts themselves.
#[verifier::external_body]
pub(crate) fn execute_source(source: &String) -> (r: Result<(), miette::Report>)
    requires
        lex_outcome(source@) is Ok,
    ensures
        r is Ok ==> build_outcome(source@) is Ok,
{
    let bump = Bump::new();
    let ast_arena = AstArena::new(&bump);
    let program = parse("playground", &ast_arena, source.clone())?;
    let hir_arena = HirArena::new();
    let lowering = AstSyntaxLoweringPass::new(&hir_arena, &program, &ast_arena, source.clone());
    let mut hir = lowering.lower()?;
    let mut checker = TypeChecker::new(&hir_arena, source.clone());
    checker.check(&mut hir)?;
    let mut codegen = CodeGenUnit::new(hir, CodeGenArena::new(&bump), source.clone());
    let code = codegen.compile()?;
    let mut vm = Atlas77VM::new(code, RuntimeArena::new(&bump));
    vm.run().map_err(miette::Report::msg)?;
    Ok(())
}

/// Relies on the display rendering of miette's `Report`: produces the
/// plain, human-readable display line of the toolchain's composite error,
/// which delegates to the underlying toolchain error's display form.
#[verifier::external_body]
pub(crate) fn render_error(e: miette::Report) -> String {
    e.to_string()
}

/// Relies on `console_error_panic_hook::set_once`: installs the process-wide
/// fault hook at most once; its internal `Once` guard makes a repeated call
/// indistinguishable from a single one.
#[verifier::external_body]
pub(crate) fn install_fault_hook() {
    console_error_panic_hook::set_once();
}

} // verus!
