//! One plugin: a named, compiled script with its own isolated engine and a
//! persistent binding context, offering a start operation and optional
//! per-event handler dispatch.
//!
//! The embedded scripting engine is consumed as an opaque executor: its
//! types are declared opaquely and every call into it goes through a small
//! trusted wrapper whose contract states what the engine's source shows.
use crate::events::{HostKeyEvent, HostMouseEvent, KeyEvent, KeyModifiers, MouseEvent, MouseEventKind};
use crate::exported::key_event as key_event_ops;
use crate::exported::key_modifiers as key_modifiers_ops;
use crate::exported::mouse_event as mouse_event_ops;
use crate::exported::mouse_event_kind as mouse_event_kind_ops;
use rhai::packages::Package;
use std::io::Write;
use vstd::prelude::*;

verus! {

#[verifier::external_type_specification]
#[verifier::external_body]
pub struct ExEngine(rhai::Engine);

#[verifier::external_type_specification]
#[verifier::external_body]
pub struct ExAst(rhai::AST);

#[verifier::external_type_specification]
#[verifier::external_body]
pub struct ExScope<'a>(rhai::Scope<'a>);

#[verifier::external_type_specification]
#[verifier::external_body]
pub struct ExDynamic(rhai::Dynamic);

#[verifier::external_type_specification]
#[verifier::external_body]
pub struct ExModule(rhai::Module);

/// The names bound in a binding context, in insertion order.
pub uninterp spec fn scope_names(s: rhai::Scope<'static>) -> Seq<Seq<char>>;

/// The program a script text compiles to, if it parses. Compilation is a
/// deterministic parse of the text: no engine of this crate registers
/// custom syntax or operators, so the outcome depends on the script alone.
pub uninterp spec fn compiled_program(script: Seq<char>) -> Option<rhai::AST>;

/// The operations a module offers to scripts, each as the pair of the
/// exposed type's name and the operation's name.
pub uninterp spec fn module_ops(m: rhai::Module) -> Set<(Seq<char>, Seq<char>)>;

/// The operations an engine's global namespace offers to scripts, as in
/// `module_ops`.
pub uninterp spec fn engine_ops(e: rhai::Engine) -> Set<(Seq<char>, Seq<char>)>;

/// The engine value a 64-bit integer becomes.
pub uninterp spec fn dyn_of_int(i: i64) -> rhai::Dynamic;

/// The engine value a key event becomes.
pub uninterp spec fn dyn_of_key_event(e: KeyEvent) -> rhai::Dynamic;

/// The engine value a mouse event becomes.
pub uninterp spec fn dyn_of_mouse_event(e: MouseEvent) -> rhai::Dynamic;

/// Relies on rhai's `Engine::new_raw`: a bare engine with no packages, no
/// module resolver and no print/debug sinks.
#[verifier::external_body]
fn engine_new_raw() -> rhai::Engine {
    rhai::Engine::new_raw()
}

/// Relies on rhai's `Engine::on_print`: installs the closure as the
/// engine's print sink, changing no script-visible operation. The closure
/// forwards each printed line, tagged with the plugin's name, to standard
/// error — the one diagnostic channel every build of this library has; the
/// host log's severity levels are not reproduced here.
#[verifier::external_body]
fn register_on_print(engine: &mut rhai::Engine, plugin_name: &str)
    ensures
        engine_ops(*final(engine)) == engine_ops(*old(engine)),
{
    let plugin_name = plugin_name.to_string();
    engine.on_print(move |text| {
        let _ = writeln!(std::io::stderr(), "Plugin ({}): {}", plugin_name, text);
    });
}

/// Relies on rhai's `Engine::on_debug`: installs the closure as the
/// engine's debug sink, changing no script-visible operation. The closure
/// forwards each message to standard error, tagged with the plugin's name
/// and, when known, the source module and position of the `debug` call.
#[verifier::external_body]
fn register_on_debug(engine: &mut rhai::Engine, plugin_name: &str)
    ensures
        engine_ops(*final(engine)) == engine_ops(*old(engine)),
{
    let plugin_name = plugin_name.to_string();
    engine.on_debug(move |text, source, pos| {
        let _ = match source {
            Some(source) => writeln!(
                std::io::stderr(), "Plugin ({}): {} @ {:?} | {}", plugin_name, source, pos, text,
            ),
            None if pos.is_none() => writeln!(
                std::io::stderr(), "Plugin ({}): {}", plugin_name, text,
            ),
            None => writeln!(std::io::stderr(), "Plugin ({}): {:?} | {}", plugin_name, pos, text),
        };
    });
}

/// Relies on rhai's `Engine::set_module_resolver` and
/// `FileModuleResolver::new`: script-level imports are resolved as files;
/// no script-visible operation changes.
#[verifier::external_body]
fn set_file_module_resolver(engine: &mut rhai::Engine)
    ensures
        engine_ops(*final(engine)) == engine_ops(*old(engine)),
{
    engine.set_module_resolver(rhai::module_resolvers::FileModuleResolver::new());
}

/// Relies on rhai's `StandardPackage::new`, `Package::as_shared_module`
/// and `Engine::register_global_module`: the engine gains the standard
/// operation library; registration only ever adds operations.
#[verifier::external_body]
fn register_standard_package(engine: &mut rhai::Engine)
    ensures
        engine_ops(*old(engine)).subset_of(engine_ops(*final(engine))),
{
    let package = rhai::packages::StandardPackage::new().as_shared_module();
    engine.register_global_module(package);
}

/// Relies on rhai's `Module::new`: an empty module, offering nothing.
#[verifier::external_body]
fn new_module() -> (r: rhai::Module)
    ensures
        module_ops(r) == Set::<(Seq<char>, Seq<char>)>::empty(),
{
    rhai::Module::new()
}

/// The registry, as data: the operations the bridge exposes on each
/// event-model type. Identical for every plugin by construction — the one
/// assembly below is the only way a bridge is built.
pub open spec fn mouse_event_kind_bridge_ops() -> Set<(Seq<char>, Seq<char>)> {
    set![("MouseEventKind"@, "to_string"@), ("MouseEventKind"@, "to_debug"@)]
}

pub open spec fn mouse_event_bridge_ops() -> Set<(Seq<char>, Seq<char>)> {
    set![
        ("MouseEvent"@, "kind"@),
        ("MouseEvent"@, "column"@),
        ("MouseEvent"@, "row"@),
        ("MouseEvent"@, "modifiers"@),
        ("MouseEvent"@, "to_string"@),
        ("MouseEvent"@, "to_debug"@),
    ]
}

pub open spec fn key_modifiers_bridge_ops() -> Set<(Seq<char>, Seq<char>)> {
    set![
        ("KeyModifiers"@, "shift"@),
        ("KeyModifiers"@, "to_string"@),
        ("KeyModifiers"@, "to_debug"@),
    ]
}

pub open spec fn key_event_bridge_ops() -> Set<(Seq<char>, Seq<char>)> {
    set![
        ("KeyEvent"@, "code"@),
        ("KeyEvent"@, "modifiers"@),
        ("KeyEvent"@, "to_string"@),
        ("KeyEvent"@, "to_debug"@),
    ]
}

/// The whole type bridge: the four operation sets, and nothing else.
pub open spec fn bridge_ops() -> Set<(Seq<char>, Seq<char>)> {
    mouse_event_kind_bridge_ops().union(mouse_event_bridge_ops()).union(
        key_modifiers_bridge_ops(),
    ).union(key_event_bridge_ops())
}

/// Relies on rhai's `Module::set_native_fn`: registers exactly the two
/// textual renderings of `MouseEventKind`, each a verified function of
/// this crate.
#[verifier::external_body]
fn register_mouse_event_kind_ops(m: &mut rhai::Module)
    ensures
        module_ops(*final(m)) == module_ops(*old(m)).union(mouse_event_kind_bridge_ops()),
{
    m.set_native_fn("to_string", |k: &mut MouseEventKind| Ok(mouse_event_kind_ops::to_string(k)));
    m.set_native_fn("to_debug", |k: &mut MouseEventKind| Ok(mouse_event_kind_ops::to_debug(k)));
}

/// Relies on rhai's `Module::set_getter_fn` and `Module::set_native_fn`:
/// registers exactly the read-only field getters and the two textual
/// renderings of `MouseEvent`, each a verified function of this crate.
#[verifier::external_body]
fn register_mouse_event_ops(m: &mut rhai::Module)
    ensures
        module_ops(*final(m)) == module_ops(*old(m)).union(mouse_event_bridge_ops()),
{
    m.set_getter_fn("kind", |e: &mut MouseEvent| Ok(mouse_event_ops::get_kind(e)));
    m.set_getter_fn("column", |e: &mut MouseEvent| Ok(mouse_event_ops::get_column(e)));
    m.set_getter_fn("row", |e: &mut MouseEvent| Ok(mouse_event_ops::get_row(e)));
    m.set_getter_fn("modifiers", |e: &mut MouseEvent| Ok(mouse_event_ops::get_modifiers(e)));
    m.set_native_fn("to_string", |e: &mut MouseEvent| Ok(mouse_event_ops::to_string(e)));
    m.set_native_fn("to_debug", |e: &mut MouseEvent| Ok(mouse_event_ops::to_debug(e)));
}

/// Relies on rhai's `Module::set_getter_fn` and `Module::set_native_fn`:
/// registers exactly the shift getter and the two textual renderings of
/// `KeyModifiers`, each a verified function of this crate.
#[verifier::external_body]
fn register_key_modifiers_ops(m: &mut rhai::Module)
    ensures
        module_ops(*final(m)) == module_ops(*old(m)).union(key_modifiers_bridge_ops()),
{
    m.set_getter_fn("shift", |x: &mut KeyModifiers| Ok(key_modifiers_ops::get_shift(x)));
    m.set_native_fn("to_string", |x: &mut KeyModifiers| Ok(key_modifiers_ops::to_string(x)));
    m.set_native_fn("to_debug", |x: &mut KeyModifiers| Ok(key_modifiers_ops::to_debug(x)));
}

/// Relies on rhai's `Module::set_getter_fn` and `Module::set_native_fn`:
/// registers exactly the read-only field getters and the two textual
/// renderings of `KeyEvent`, each a verified function of this crate.
#[verifier::external_body]
fn register_key_event_ops(m: &mut rhai::Module)
    ensures
        module_ops(*final(m)) == module_ops(*old(m)).union(key_event_bridge_ops()),
{
    m.set_getter_fn("code", |e: &mut KeyEvent| Ok(key_event_ops::get_code(e)));
    m.set_getter_fn("modifiers", |e: &mut KeyEvent| Ok(key_event_ops::get_modifiers(e)));
    m.set_native_fn("to_string", |e: &mut KeyEvent| Ok(key_event_ops::to_string(e)));
    m.set_native_fn("to_debug", |e: &mut KeyEvent| Ok(key_event_ops::to_debug(e)));
}

/// Relies on rhai's `Engine::register_global_module`: exactly the module's
/// operations become visible, in addition, to every script the engine runs.
#[verifier::external_body]
fn register_global_module(engine: &mut rhai::Engine, module: rhai::Module)
    ensures
        engine_ops(*final(engine)) == engine_ops(*old(engine)).union(module_ops(module)),
{
    engine.register_global_module(module.into());
}

/// Build the type bridge and attach it to an engine: the engine gains
/// exactly the bridge's operation set — getters and textual renderings for
/// the event-model types — assembled into a single global module. Every
/// plugin's engine passes through here, so the bridge is identical across
/// plugins, with no per-plugin customization.
pub fn register_global_types_module(engine: &mut rhai::Engine)
    ensures
        engine_ops(*final(engine)) == engine_ops(*old(engine)).union(bridge_ops()),
{
    let mut module = new_module();
    register_mouse_event_kind_ops(&mut module);
    register_mouse_event_ops(&mut module);
    register_key_modifiers_ops(&mut module);
    register_key_event_ops(&mut module);
    proof {
        assert(module_ops(module) =~= bridge_ops());
    }
    register_global_module(engine, module);
}

/// Relies on rhai's `Engine::compile`: a deterministic parse of the script
/// text into an immutable compiled program. No engine of this crate
/// registers custom syntax or operators, so whether the text compiles, and
/// the program it compiles to, depend on the text alone; the error case
/// carries rhai's own message.
#[verifier::external_body]
fn compile_script(engine: &rhai::Engine, script: &str) -> (r: Result<rhai::AST, String>)
    ensures
        r is Ok <==> compiled_program(script@) is Some,
        r matches Ok(a) ==> compiled_program(script@) == Some(a),
{
    engine.compile(script).map_err(|e| format!("{}", e))
}

/// Relies on rhai's `Scope::new`: an empty binding context.
#[verifier::external_body]
fn new_scope() -> (r: rhai::Scope<'static>)
    ensures
        scope_names(r) == Seq::<Seq<char>>::empty(),
{
    rhai::Scope::new()
}

/// Relies on rhai's `Engine::run_ast_with_scope`: evaluates the program's
/// top-level statements against the scope with no rewind. Declarations only
/// append and inner blocks rewind only to their own entry length, so the
/// bindings already present stay, in order and in place, whether the run
/// succeeds or faults midway; the script may append new ones.
#[verifier::external_body]
fn run_ast_with_scope(
    engine: &rhai::Engine,
    scope: &mut rhai::Scope<'static>,
    ast: &rhai::AST,
) -> (r: Result<(), String>)
    ensures
        scope_names(*final(scope)).len() >= scope_names(*old(scope)).len(),
        scope_names(*final(scope)).take(scope_names(*old(scope)).len() as int) == scope_names(
            *old(scope),
        ),
{
    engine.run_ast_with_scope(scope, ast).map_err(|e| format!("{}", e))
}

/// What one attempted handler call came to.
#[derive(Debug)]
pub enum HandlerCall {
    /// The function exists and ran to completion.
    Invoked,
    /// No function of that name is defined: handlers are optional.
    NotDefined,
    /// The function exists and its run failed; rhai's message is carried.
    Failed { message: String },
}

/// Relies on rhai's `Engine::call_fn_with_options` with the scope rewound
/// and the program not re-evaluated: the scope is truncated back to the
/// bindings it had on entry (values of those bindings may change), so the
/// binding names are exactly what they were; a missing function is
/// reported as `ErrorFunctionNotFound`, mapped here to `NotDefined`.
#[verifier::external_body]
fn call_fn_in_scope(
    engine: &rhai::Engine,
    scope: &mut rhai::Scope<'static>,
    ast: &rhai::AST,
    name: &str,
    args: Vec<rhai::Dynamic>,
) -> (r: HandlerCall)
    ensures
        scope_names(*final(scope)) == scope_names(*old(scope)),
{
    let options = rhai::CallFnOptions::new().eval_ast(false).rewind_scope(true);
    match engine.call_fn_with_options::<rhai::Dynamic>(options, scope, ast, name, args) {
        Ok(_) => HandlerCall::Invoked,
        Err(e) => match *e {
            rhai::EvalAltResult::ErrorFunctionNotFound(_, _) => HandlerCall::NotDefined,
            err => HandlerCall::Failed { message: format!("{}", err) },
        },
    }
}

/// Relies on rhai's `Dynamic::from` on a 64-bit integer: the value depends
/// on the argument alone.
#[verifier::external_body]
fn dynamic_from_i64(i: i64) -> (r: rhai::Dynamic)
    ensures
        r == dyn_of_int(i),
{
    rhai::Dynamic::from(i)
}

/// Relies on rhai's `Dynamic::from` on a key event: the value depends on
/// the argument alone.
#[verifier::external_body]
fn dynamic_from_key_event(e: KeyEvent) -> (r: rhai::Dynamic)
    ensures
        r == dyn_of_key_event(e),
{
    rhai::Dynamic::from(e)
}

/// Relies on rhai's `Dynamic::from` on a mouse event: the value depends on
/// the argument alone.
#[verifier::external_body]
fn dynamic_from_mouse_event(e: MouseEvent) -> (r: rhai::Dynamic)
    ensures
        r == dyn_of_mouse_event(e),
{
    rhai::Dynamic::from(e)
}

/// The single argument a key-press handler receives.
pub fn key_event_args(event: KeyEvent) -> (r: Vec<rhai::Dynamic>)
    ensures
        r@ == seq![dyn_of_key_event(event)],
{
    let mut args: Vec<rhai::Dynamic> = Vec::new();
    args.push(dynamic_from_key_event(event));
    proof {
        assert(args@ =~= seq![dyn_of_key_event(event)]);
    }
    args
}

/// The single argument a mouse handler receives.
pub fn mouse_event_args(event: MouseEvent) -> (r: Vec<rhai::Dynamic>)
    ensures
        r@ == seq![dyn_of_mouse_event(event)],
{
    let mut args: Vec<rhai::Dynamic> = Vec::new();
    args.push(dynamic_from_mouse_event(event));
    proof {
        assert(args@ =~= seq![dyn_of_mouse_event(event)]);
    }
    args
}

/// The arguments a resize handler receives: exactly the column count and
/// the row count, in that order, losslessly widened.
pub fn resize_args(cols: u16, rows: u16) -> (r: Vec<rhai::Dynamic>)
    ensures
        r@ == seq![dyn_of_int(cols as i64), dyn_of_int(rows as i64)],
{
    let mut args: Vec<rhai::Dynamic> = Vec::new();
    args.push(dynamic_from_i64(cols as i64));
    args.push(dynamic_from_i64(rows as i64));
    proof {
        assert(args@ =~= seq![dyn_of_int(cols as i64), dyn_of_int(rows as i64)]);
    }
    args
}

/// Why loading one directory entry produced no plugin.
#[derive(Clone, Debug)]
pub enum LoadError {
    /// The entry is not a readable plugin source: wrong or missing
    /// extension, or the file could not be read. Names the path.
    Discovery { path: String, message: String },
    /// The source did not compile. Names the plugin and carries the
    /// engine's message.
    Compile { plugin: String, message: String },
}

/// One directory entry as handed to the loader: the entry's file name and
/// the outcome of reading it (the error case carries the I/O message).
#[derive(Debug)]
pub struct PluginSource {
    pub file_name: String,
    pub script: Result<String, String>,
}

/// The index of the last `.` at a position of at least one in `f`'s first
/// `upto` characters, if any: a leading dot starts a hidden name and
/// introduces no extension.
pub open spec fn spec_last_dot(f: Seq<char>, upto: int) -> Option<int>
    decreases upto,
{
    if upto <= 1 {
        None::<int>
    } else if f[upto - 1] == '.' {
        Some(upto - 1)
    } else {
        spec_last_dot(f, upto - 1)
    }
}

/// The file stem: everything before the last dot, or the whole name where
/// there is no extension.
pub open spec fn spec_stem(f: Seq<char>) -> Seq<char> {
    match spec_last_dot(f, f.len() as int) {
        Some(i) => f.take(i),
        None => f,
    }
}

/// The extension: everything after the last dot, where there is one.
pub open spec fn spec_extension(f: Seq<char>) -> Option<Seq<char>> {
    match spec_last_dot(f, f.len() as int) {
        Some(i) => Some(f.skip(i + 1)),
        None => None::<Seq<char>>,
    }
}

/// A file name names a plugin source exactly when its extension is `rhai`.
pub open spec fn valid_plugin_file_name(f: Seq<char>) -> bool {
    spec_extension(f) == Some("rhai"@)
}

/// A found last-dot index lies strictly inside the name.
pub proof fn lemma_last_dot_bounds(f: Seq<char>, upto: int)
    ensures
        spec_last_dot(f, upto) matches Some(i) ==> 1 <= i < upto,
    decreases upto,
{
    if upto > 1 && f[upto - 1] != '.' {
        lemma_last_dot_bounds(f, upto - 1);
    }
}

/// The index of the last dot (at position one or later) in `f`.
fn last_dot_index(f: &str) -> (r: Option<usize>)
    ensures
        match r {
            Some(i) => spec_last_dot(f@, f@.len() as int) == Some(i as int),
            None => spec_last_dot(f@, f@.len() as int) is None,
        },
{
    let len = f.unicode_len();
    let mut i = len;
    while i > 1
        invariant
            i <= len,
            len == f@.len(),
            spec_last_dot(f@, len as int) == spec_last_dot(f@, i as int),
        decreases i,
    {
        if f.get_char(i - 1) == '.' {
            return Some(i - 1);
        }
        i = i - 1;
    }
    None
}

/// Validate one directory entry and surface its name and source text: the
/// stem becomes the plugin's name. Fails with a discovery error, naming
/// the path, exactly when the extension is missing or not `rhai` or the
/// file could not be read.
pub fn get_plugin_name_and_script(source: &PluginSource) -> (r: Result<(String, String), LoadError>)
    ensures
        match r {
            Ok((name, script)) => valid_plugin_file_name(source.file_name@)
                && source.script is Ok && name@ == spec_stem(source.file_name@)
                && script@ == source.script->Ok_0@,
            Err(e) => e matches LoadError::Discovery { path, .. } && path@ == source.file_name@
                && (!valid_plugin_file_name(source.file_name@) || source.script is Err),
        },
        r is Ok <==> valid_plugin_file_name(source.file_name@) && source.script is Ok,
{
    let f = source.file_name.as_str();
    let len = f.unicode_len();
    let dot = match last_dot_index(f) {
        Some(i) => i,
        None => {
            let mut m = String::from_str("plugin at path '");
            m.append(f);
            m.append("' did not have an extension");
            return Err(LoadError::Discovery { path: source.file_name.clone(), message: m });
        },
    };
    proof {
        reveal_strlit("rhai");
        lemma_last_dot_bounds(f@, len as int);
    }
    let ext_ok = len - dot == 5 && f.get_char(dot + 1) == 'r' && f.get_char(dot + 2) == 'h'
        && f.get_char(dot + 3) == 'a' && f.get_char(dot + 4) == 'i';
    proof {
        let ext = f@.skip(dot as int + 1);
        assert(ext.len() == len - dot - 1);
        if ext == "rhai"@ {
            assert(ext[0] == 'r' && ext[1] == 'h' && ext[2] == 'a' && ext[3] == 'i');
            assert(f@[dot as int + 1] == 'r' && f@[dot as int + 2] == 'h' && f@[dot as int + 3]
                == 'a' && f@[dot as int + 4] == 'i');
            assert(ext_ok);
        }
        if ext_ok {
            assert(ext[0] == f@[dot as int + 1] && ext[1] == f@[dot as int + 2]);
            assert(ext[2] == f@[dot as int + 3] && ext[3] == f@[dot as int + 4]);
            assert(ext =~= "rhai"@);
        }
        assert(ext_ok <==> valid_plugin_file_name(f@));
    }
    if !ext_ok {
        let mut m = String::from_str("plugin at path '");
        m.append(f);
        m.append("' did not have 'rhai' extension");
        return Err(LoadError::Discovery { path: source.file_name.clone(), message: m });
    }
    let name = f.substring_char(0, dot).to_owned();
    match &source.script {
        Ok(script) => Ok((name, script.clone())),
        Err(io_message) => {
            let mut m = String::from_str("plugin at path '");
            m.append(f);
            m.append("' could not be read: ");
            m.append(io_message.as_str());
            Err(LoadError::Discovery { path: source.file_name.clone(), message: m })
        },
    }
}

/// One loaded plugin: its name (the file stem at discovery time), its own
/// engine, its persistent binding context, and the immutable compiled
/// program.
pub struct Plugin {
    pub name: String,
    pub engine: rhai::Engine,
    pub scope: rhai::Scope<'static>,
    pub ast: rhai::AST,
}

/// The non-error outcome of looking up and calling one optional handler.
#[derive(Clone, Copy, Debug, PartialEq, Eq, Structural)]
pub enum HandlerOutcome {
    /// The handler is defined and ran to completion.
    Invoked,
    /// The plugin defines no such handler: a silent no-op.
    NotDefined,
}

/// A handler that is defined but failed: names the handler and carries the
/// underlying message.
#[derive(Clone, Debug)]
pub struct HandlerError {
    pub handler: String,
    pub message: String,
}

/// Turn the engine's report of one handler call into the dispatch result:
/// a missing handler is a distinct non-error outcome, never an error; a
/// failed run is an error naming the handler.
pub fn classify_handler_call(handler: &str, call: HandlerCall) -> (r: Result<
    HandlerOutcome,
    HandlerError,
>)
    ensures
        match call {
            HandlerCall::Invoked => r == Ok::<HandlerOutcome, HandlerError>(
                HandlerOutcome::Invoked,
            ),
            HandlerCall::NotDefined => r == Ok::<HandlerOutcome, HandlerError>(
                HandlerOutcome::NotDefined,
            ),
            HandlerCall::Failed { message } => r matches Err(e) && e.handler@ == handler@
                && e.message == message,
        },
{
    match call {
        HandlerCall::Invoked => Ok(HandlerOutcome::Invoked),
        HandlerCall::NotDefined => Ok(HandlerOutcome::NotDefined),
        HandlerCall::Failed { message } => Err(
            HandlerError { handler: handler.to_owned(), message },
        ),
    }
}

impl Plugin {
    /// Load one directory entry: validate its name, take its source and
    /// compile it against a fresh, fully wired engine. Loading succeeds
    /// exactly when the entry has the right extension, is readable and its
    /// source compiles; the plugin then carries the file stem as its name,
    /// an empty context, the source's compiled program, and an engine
    /// offering the whole type bridge. Discovery failures name the path; a
    /// compile failure names the plugin.
    pub fn try_from(source: &PluginSource) -> (r: Result<Plugin, LoadError>)
        ensures
            r is Ok <==> valid_plugin_file_name(source.file_name@) && source.script is Ok
                && compiled_program(source.script->Ok_0@) is Some,
            r matches Ok(p) ==> p.name@ == spec_stem(source.file_name@) && scope_names(p.scope)
                == Seq::<Seq<char>>::empty() && compiled_program(source.script->Ok_0@) == Some(
                p.ast,
            ) && bridge_ops().subset_of(engine_ops(p.engine)),
            r matches Err(LoadError::Discovery { path, .. }) ==> path@ == source.file_name@ && (
            !valid_plugin_file_name(source.file_name@) || source.script is Err),
            r matches Err(LoadError::Compile { plugin, .. }) ==> valid_plugin_file_name(
                source.file_name@,
            ) && source.script is Ok && compiled_program(source.script->Ok_0@) is None && plugin@
                == spec_stem(source.file_name@),
            (!valid_plugin_file_name(source.file_name@) || source.script is Err) ==> r matches Err(
                LoadError::Discovery { .. },
            ),
    {
        let (name, script) = match get_plugin_name_and_script(source) {
            Ok(pair) => pair,
            Err(e) => {
                return Err(e);
            },
        };
        let mut engine = engine_new_raw();
        register_on_print(&mut engine, name.as_str());
        register_on_debug(&mut engine, name.as_str());
        set_file_module_resolver(&mut engine);
        register_standard_package(&mut engine);
        register_global_types_module(&mut engine);
        let scope = new_scope();
        match compile_script(&engine, script.as_str()) {
            Ok(ast) => Ok(Plugin { name, engine, scope, ast }),
            Err(message) => Err(LoadError::Compile { plugin: name, message }),
        }
    }

    /// Run the compiled program once against the persistent context: this
    /// is how a plugin defines its handlers and any deliberate persistent
    /// state. Bindings it establishes stay for later dispatches; a failure
    /// is reported but leaves the plugin eligible for dispatch, and the
    /// bindings made before the fault remain.
    pub fn start(&mut self) -> (r: Result<(), String>)
        ensures
            final(self).name@ == old(self).name@,
            final(self).ast == old(self).ast,
            scope_names(final(self).scope).len() >= scope_names(old(self).scope).len(),
            scope_names(final(self).scope).take(scope_names(old(self).scope).len() as int)
                == scope_names(old(self).scope),
    {
        self.on_start()
    }

    /// As `start`: evaluate the program's top level against the context.
    /// Whether the run succeeds or faults midway, the bindings already
    /// present stay in place.
    pub fn on_start(&mut self) -> (r: Result<(), String>)
        ensures
            final(self).name@ == old(self).name@,
            final(self).ast == old(self).ast,
            scope_names(final(self).scope).len() >= scope_names(old(self).scope).len(),
            scope_names(final(self).scope).take(scope_names(old(self).scope).len() as int)
                == scope_names(old(self).scope),
    {
        run_ast_with_scope(&self.engine, &mut self.scope, &self.ast)
    }

    /// Look up the named handler in the persistent context and, if it is
    /// defined, call it with the given arguments, reusing the context:
    /// bindings present before the call stay (their values may change) and
    /// bindings introduced during the call are discarded.
    pub fn call_script_event_handler_fn(&mut self, name: &str, args: Vec<rhai::Dynamic>) -> (r: Result<
        HandlerOutcome,
        HandlerError,
    >)
        ensures
            final(self).name@ == old(self).name@,
            final(self).ast == old(self).ast,
            scope_names(final(self).scope) == scope_names(old(self).scope),
            r matches Err(e) ==> e.handler@ == name@,
    {
        let call = call_fn_in_scope(&self.engine, &mut self.scope, &self.ast, name, args);
        classify_handler_call(name, call)
    }

    /// Dispatch a key press: translate it and hand it to `on_key_press`,
    /// if the plugin defines one.
    pub fn on_key_press(&mut self, key_press_event: HostKeyEvent) -> (r: Result<
        HandlerOutcome,
        HandlerError,
    >)
        ensures
            final(self).name@ == old(self).name@,
            final(self).ast == old(self).ast,
            scope_names(final(self).scope) == scope_names(old(self).scope),
            r matches Err(e) ==> e.handler@ == "on_key_press"@,
    {
        let event = KeyEvent::from(key_press_event);
        self.call_script_event_handler_fn("on_key_press", key_event_args(event))
    }

    /// Dispatch a mouse event: translate it and hand it to
    /// `on_mouse_event`, if the plugin defines one.
    pub fn on_mouse_event(&mut self, mouse_event: HostMouseEvent) -> (r: Result<
        HandlerOutcome,
        HandlerError,
    >)
        ensures
            final(self).name@ == old(self).name@,
            final(self).ast == old(self).ast,
            scope_names(final(self).scope) == scope_names(old(self).scope),
            r matches Err(e) ==> e.handler@ == "on_mouse_event"@,
    {
        let event = MouseEvent::from(mouse_event);
        self.call_script_event_handler_fn("on_mouse_event", mouse_event_args(event))
    }

    /// Dispatch a resize: hand exactly the column count and the row count,
    /// in that order, to `on_resize`, if the plugin defines one.
    pub fn on_resize(&mut self, cols: u16, rows: u16) -> (r: Result<HandlerOutcome, HandlerError>)
        ensures
            final(self).name@ == old(self).name@,
            final(self).ast == old(self).ast,
            scope_names(final(self).scope) == scope_names(old(self).scope),
            r matches Err(e) ==> e.handler@ == "on_resize"@,
    {
        self.call_script_event_handler_fn("on_resize", resize_args(cols, rows))
    }
}

} // verus!
