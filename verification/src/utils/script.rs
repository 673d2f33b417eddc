use vstd::prelude::*;

verus! {

/// Resource ceilings applied to every script evaluation, so that a runaway
/// script terminates instead of hanging the dashboard.
pub const RUNTIME_LOOP_LIMIT: u64 = 100_000;

pub const RUNTIME_RECURSION_LIMIT: usize = 100_000;

pub const RUNTIME_STACK_LIMIT: usize = 33_554_432;

#[verifier::external_type_specification]
#[verifier::external_body]
pub struct ExContext(boa_engine::Context);

/// Relies on boa_engine::Context: a fresh, strict execution context whose
/// RuntimeLimits bound loop iterations, recursion depth and stack memory, so
/// that evaluation always terminates; boa_runtime's console object is
/// registered so scripts may log. None only if the console cannot be
/// registered.
#[verifier::external_body]
fn script_context() -> Option<boa_engine::Context> {
    let mut runtime_limits = boa_engine::vm::RuntimeLimits::default();
    runtime_limits.set_loop_iteration_limit(RUNTIME_LOOP_LIMIT);
    runtime_limits.set_recursion_limit(RUNTIME_RECURSION_LIMIT);
    runtime_limits.set_stack_size_limit(RUNTIME_STACK_LIMIT);
    let mut context = boa_engine::Context::default();
    context.set_runtime_limits(runtime_limits);
    context.strict(true);
    let console = boa_runtime::Console::init(&mut context);
    let attributes = boa_engine::property::Attribute::all();
    match context.register_global_property(boa_runtime::Console::NAME, console, attributes) {
        Ok(()) => Some(context),
        Err(_) => None,
    }
}

/// Relies on boa_engine::Context::eval: evaluates script source in the
/// context; a syntax error, a thrown value or an exceeded resource limit
/// comes back as the error's text.
#[verifier::external_body]
fn eval_source(context: &mut boa_engine::Context, source: &str) -> Result<(), String> {
    match context.eval(boa_engine::Source::from_bytes(source)) {
        Ok(_) => Ok(()),
        Err(err) => Err(format!("{}", err.into_erased(context))),
    }
}

/// Relies on boa_engine::Context::register_global_property: exposes the input
/// document's JSON text to the script as the global `__CONFIG__`.
#[verifier::external_body]
fn register_config(context: &mut boa_engine::Context, json: &str) -> Result<(), String> {
    match context.register_global_property(
        boa_engine::JsString::from("__CONFIG__"),
        boa_engine::JsString::from(json),
        boa_engine::property::Attribute::all(),
    ) {
        Ok(()) => Ok(()),
        Err(err) => Err(format!("{}", err.into_erased(context))),
    }
}

/// Relies on boa_engine::Context::eval, JsValue::to_string and
/// JsString::to_std_string: runs the fixed driver expression that calls the
/// script's `main` on the injected document and serializes the returned value
/// back to JSON text. A missing `main`, a thrown value or an exceeded
/// resource limit comes back as the error's text.
#[verifier::external_body]
fn eval_main_driver(context: &mut boa_engine::Context) -> Result<String, String> {
    let value = match context.eval(
        boa_engine::Source::from_bytes("JSON.stringify(main(__CONFIG__))"),
    ) {
        Ok(v) => v,
        Err(err) => return Err(format!("{}", err.into_erased(context))),
    };
    let js_str = match value.to_string(context) {
        Ok(s) => s,
        Err(err) => return Err(format!("{}", err.into_erased(context))),
    };
    js_str.to_std_string().map_err(|e| format!("{}", e))
}

/// Evaluate a transformation script in a fresh sandboxed context: the script
/// source is evaluated, the input document's JSON text is injected as a
/// global, and the script's `main` entry point is invoked on it. The result
/// is the transformed document's JSON text, or the script error's text. Every
/// invocation starts from a fresh context: no state survives between runs.
pub fn run_script(script: &str, input_json: &str) -> Result<String, String> {
    let mut context = match script_context() {
        Some(c) => c,
        None => {
            return Err(String::from_str("could not set up the script sandbox"));
        },
    };
    match eval_source(&mut context, script) {
        Ok(()) => (),
        Err(e) => {
            return Err(e);
        },
    }
    match register_config(&mut context, input_json) {
        Ok(()) => (),
        Err(e) => {
            return Err(e);
        },
    }
    eval_main_driver(&mut context)
}

} // verus!
