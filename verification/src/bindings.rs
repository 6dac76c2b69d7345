//! The host capability surface exposed to sandboxed scripts: reading and
//! writing entity state, invoking services, and subscribing to state
//! changes, all addressed by opaque string identifiers. The surface here is
//! the mock one: it answers with fixed values and never fails, which the
//! contracts state exactly.

use vstd::prelude::*;

verus! {

/// The container capability functions are registered in before they are
/// installed on an engine. It wraps `rhai::Module`, whose own declaration
/// the verifier refuses, so the whole struct is opaque.
#[verifier::external_body]
struct HostModule {
    inner: rhai::Module,
}

/// The host surface scripts call into.
pub struct HaApi;

impl HaApi {
    /// The state of an entity, as the mock host reports it.
    pub fn get_state(entity_id: &str) -> (r: String)
        ensures
            r@ == "mock_state"@,
    {
        let _ = entity_id;
        String::from_str("mock_state")
    }

    /// Accepts a state write; the mock host drops it.
    pub fn set_state(entity_id: &str, state: &str) {
        let _ = entity_id;
        let _ = state;
    }

    /// Accepts a service invocation; the mock host drops it.
    pub fn call_service(domain: &str, service: &str, entity_id: &str) {
        let _ = domain;
        let _ = service;
        let _ = entity_id;
    }

    /// The attributes of an entity: the mock host reports one fixed entry.
    pub fn get_attributes(entity_id: &str) -> (r: Vec<(String, String)>)
        ensures
            r@.len() == 1,
            r@[0].0@ == "mock_attr"@,
            r@[0].1@ == "mock_value"@,
    {
        let _ = entity_id;
        let mut attrs: Vec<(String, String)> = Vec::new();
        attrs.push((String::from_str("mock_attr"), String::from_str("mock_value")));
        attrs
    }

    /// The `(entity, state)` pair the mock host hands a freshly registered
    /// state-change callback.
    pub fn on_state_change() -> (r: (String, String))
        ensures
            r.0@ == "test_entity"@,
            r.1@ == "new_state"@,
    {
        (String::from_str("test_entity"), String::from_str("new_state"))
    }
}

/// Relies on `rhai::Module::new`: an empty module.
#[verifier::external_body]
fn new_module() -> HostModule {
    HostModule { inner: rhai::Module::new() }
}

/// Relies on `rhai::Module::set_native_fn`: scripts calling `get_state`
/// reach [`HaApi::get_state`]; the closure only forwards.
#[verifier::external_body]
fn register_get_state(m: &mut HostModule) {
    m.inner.set_native_fn("get_state", |entity_id: &str| Ok(HaApi::get_state(entity_id)));
}

/// Relies on `rhai::Module::set_native_fn`: scripts calling `set_state`
/// reach [`HaApi::set_state`]; the closure only forwards.
#[verifier::external_body]
fn register_set_state(m: &mut HostModule) {
    m.inner.set_native_fn("set_state", |entity_id: &str, state: &str| {
        HaApi::set_state(entity_id, state);
        Ok(())
    });
}

/// Relies on `rhai::Module::set_native_fn`: scripts calling `call_service`
/// reach [`HaApi::call_service`]; the closure only forwards.
#[verifier::external_body]
fn register_call_service(m: &mut HostModule) {
    m.inner.set_native_fn("call_service", |domain: &str, service: &str, entity_id: &str| {
        HaApi::call_service(domain, service, entity_id);
        Ok(())
    });
}

/// Relies on `rhai::Module::set_native_fn`: scripts calling
/// `get_attributes` reach [`HaApi::get_attributes`]; the closure converts
/// the pairs into the interpreter's map type, one for one.
#[verifier::external_body]
fn register_get_attributes(m: &mut HostModule) {
    m.inner.set_native_fn("get_attributes", |entity_id: &str| {
        Ok(
            HaApi::get_attributes(entity_id).into_iter().map(
                |e: (String, String)| (e.0.into(), rhai::Dynamic::from(e.1)),
            ).collect::<rhai::Map>(),
        )
    });
}

/// Relies on `rhai::Module::set_native_fn` and
/// `rhai::FnPtr::call_within_context`: a script registering a state-change
/// callback has it invoked once with the pair [`HaApi::on_state_change`]
/// reports, converted to the interpreter's values.
#[verifier::external_body]
fn register_on_state_change(m: &mut HostModule) {
    m.inner.set_native_fn(
        "on_state_change",
        |ctx: rhai::NativeCallContext, _entity_id: &str, callback: rhai::FnPtr| {
            let (entity, state) = HaApi::on_state_change();
            let args = (rhai::Dynamic::from(entity), rhai::Dynamic::from(state));
            let _: rhai::Dynamic = callback.call_within_context(&ctx, args)?;
            Ok(())
        },
    );
}

/// Relies on `rhai::Engine::register_global_module`: the module's functions
/// become callable from every script the engine runs.
#[verifier::external_body]
fn install_module(engine: &mut rhai::Engine, module: HostModule) {
    engine.register_global_module(module.inner.into());
}

/// Builds the capability module — state read and write, service
/// invocation, attribute lookup, and state-change subscription — and
/// installs it on the engine.
pub fn register_ha_api(engine: &mut rhai::Engine) {
    let mut module = new_module();
    register_get_state(&mut module);
    register_set_state(&mut module);
    register_call_service(&mut module);
    register_get_attributes(&mut module);
    register_on_state_change(&mut module);
    install_module(engine, module);
}

} // verus!
