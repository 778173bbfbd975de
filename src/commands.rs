//! Checks that guard the IPC commands: rate limiting, then input
//! validation, before any side effect.
use vstd::prelude::*;

use crate::ratelimit::{history_of, limit_of, rate_step, RateLimiter};
use crate::stealth::{commands_spec, legacy_event_spec, toggle_stealth, StealthChange, StealthState};
use crate::chat::{api_key_format_ok, check_openai_key_format};
use crate::validation::{
    key_value_fault, message_spec, SecureKeyValue, ValidatedInput, ValidationFault,
};
use crate::window::WindowRegistry;

verus! {

/// Runs `handler` on `input` when `command` is under its rate limit at
/// `now_ms` and `input` is valid. The call is counted against the limit
/// even when the input then turns out to be invalid. A refusal is returned
/// as the text of the error, and the handler does not run.
pub fn validate_and_rate_limit<T: ValidatedInput, R, F: FnOnce(T) -> Result<R, String>>(
    limiter: &mut RateLimiter,
    now_ms: u64,
    command: &str,
    input: T,
    handler: F,
) -> (r: Result<R, String>)
    requires
        old(limiter).wf(),
        input.fault() is None ==> handler.requires((input,)),
    ensures
        final(limiter).wf(),
        ({
            let (max, window) = limit_of(command@);
            let (ok, h) = rate_step(history_of(old(limiter)@, command@), now_ms, max, window);
            &&& final(limiter)@ == old(limiter)@.insert(command@, h)
            &&& !ok ==> r is Err && r->Err_0@ == message_spec(
                ValidationFault::RateLimitExceeded(command@),
            )
            &&& ok && input.fault() is Some ==> r is Err && r->Err_0@ == message_spec(
                input.fault()->Some_0,
            )
            &&& ok && input.fault() is None ==> handler.ensures((input,), r)
        }),
{
    match limiter.check(command, now_ms) {
        Err(e) => {
            return Err(e.message());
        },
        Ok(()) => {},
    }
    match input.validate() {
        Err(e) => {
            return Err(e.message());
        },
        Ok(()) => {},
    }
    handler(input)
}

/// Flips stealth mode unless `toggle_stealth_cmd` is over its rate limit
/// at `now_ms`; on success says how each tracked window must be set and
/// that the change is a manual one.
pub fn toggle_stealth_cmd(
    state: &mut StealthState,
    limiter: &mut RateLimiter,
    registry: &WindowRegistry,
    now_ms: u64,
) -> (r: Result<StealthChange, String>)
    requires
        old(limiter).wf(),
        registry.wf(),
    ensures
        final(limiter).wf(),
        ({
            let (max, window) = limit_of("toggle_stealth_cmd"@);
            let (ok, h) = rate_step(
                history_of(old(limiter)@, "toggle_stealth_cmd"@),
                now_ms,
                max,
                window,
            );
            &&& final(limiter)@ == old(limiter)@.insert("toggle_stealth_cmd"@, h)
            &&& ok ==> r is Ok && final(state)@ == !old(state)@
            &&& !ok ==> r is Err && final(state)@ == old(state)@ && r->Err_0@ == message_spec(
                ValidationFault::RateLimitExceeded("toggle_stealth_cmd"@),
            )
        }),
        r matches Ok(c) ==> c.active == final(state)@ && c.commands@ == commands_spec(
            c.active,
            registry@,
        ) && c.legacy_event@ == legacy_event_spec(c.active) && c.source@ == "manual_toggle"@,
{
    match limiter.check("toggle_stealth_cmd", now_ms) {
        Err(e) => {
            return Err(e.message());
        },
        Ok(()) => {},
    }
    let change = toggle_stealth(state, registry);
    Ok(StealthChange { source: "manual_toggle", ..change })
}

/// Storage key of the chat backend's API key.
pub const OPENAI_KEY_NAME: &'static str = "openai_api_key";

/// Stores the chat backend's API key through `store`, once its format is
/// right (see `check_openai_key_format`), `store_openai_key` is under its
/// rate limit, and the key and value pass validation. A key of the wrong
/// format is refused before the call is counted.
pub fn store_openai_key<F: FnOnce(SecureKeyValue) -> Result<(), String>>(
    limiter: &mut RateLimiter,
    now_ms: u64,
    key: String,
    store: F,
) -> (r: Result<(), String>)
    requires
        old(limiter).wf(),
        forall|kv: SecureKeyValue| kv.key@ == OPENAI_KEY_NAME@ && kv.value@ == key@ ==> store.requires((kv,)),
    ensures
        final(limiter).wf(),
        !api_key_format_ok(key@) ==> r is Err && r->Err_0@ == "Invalid OpenAI API key format"@
            && final(limiter)@ == old(limiter)@,
        api_key_format_ok(key@) ==> ({
            let (max, window) = limit_of("store_openai_key"@);
            let (ok, h) = rate_step(
                history_of(old(limiter)@, "store_openai_key"@),
                now_ms,
                max,
                window,
            );
            &&& final(limiter)@ == old(limiter)@.insert("store_openai_key"@, h)
            &&& !ok ==> r is Err && r->Err_0@ == message_spec(
                ValidationFault::RateLimitExceeded("store_openai_key"@),
            )
            &&& ok && key_value_fault(OPENAI_KEY_NAME@, key@) is Some ==> r is Err && r->Err_0@
                == message_spec(key_value_fault(OPENAI_KEY_NAME@, key@)->Some_0)
            &&& ok && key_value_fault(OPENAI_KEY_NAME@, key@) is None ==> exists|kv: SecureKeyValue|
                kv.key@ == OPENAI_KEY_NAME@ && kv.value@ == key@ && #[trigger] store.ensures(
                    (kv,),
                    r,
                )
        }),
{
    match check_openai_key_format(key.as_str()) {
        Err(e) => {
            return Err(e);
        },
        Ok(()) => {},
    }
    let kv = SecureKeyValue { key: String::from_str(OPENAI_KEY_NAME), value: key };
    assert(kv.fault() == key_value_fault(OPENAI_KEY_NAME@, kv.value@));
    let ghost kv_spec = kv;
    let r = validate_and_rate_limit(limiter, now_ms, "store_openai_key", kv, store);
    assert(kv_spec.key@ == OPENAI_KEY_NAME@ && kv_spec.value@ == key@);
    r
}

/// Whether stealth mode is on.
pub fn get_stealth_status(state: &StealthState) -> (r: bool)
    ensures
        r == state@,
{
    state.is_active()
}

} // verus!
