//! Content Security Policy for the front end, built from a fixed base and
//! widened for telemetry (with consent, outside stealth mode) and for
//! development builds.
use vstd::prelude::*;

use crate::stealth::StealthState;
use crate::text::{contains_text, has_infix, join2, replace_all, replace_text};

verus! {

/// Policy applied to every page.
pub const BASE_CSP: &'static str =
    "default-src 'self'; script-src 'self' 'unsafe-inline'; style-src 'self' 'unsafe-inline'; img-src 'self' data: blob:; font-src 'self' data:; object-src 'none'; embed-src 'none'; form-action 'self'; connect-src 'self'";

pub const CONNECT_SELF: &'static str = "connect-src 'self'";

pub const CONNECT_TELEMETRY: &'static str =
    "connect-src 'self' https://api.sentry.io https://*.sentry.io wss://api.sentry.io";

pub const REPORT_URI: &'static str = "; report-uri https://api.sentry.io/security/?sentry_key=YOUR_KEY";

pub const CONNECT_DEV: &'static str =
    "connect-src 'self' http://localhost:* ws://localhost:* wss://localhost:*";

pub const SCRIPT_INLINE: &'static str = "script-src 'self' 'unsafe-inline'";

pub const SCRIPT_DEV: &'static str = "script-src 'self' 'unsafe-inline' 'unsafe-eval'";

pub const UNSAFE_INLINE: &'static str = "'unsafe-inline'";

/// The base policy.
pub fn build_base_csp() -> (r: String)
    ensures
        r@ == BASE_CSP@,
{
    String::from_str(BASE_CSP)
}

pub open spec fn telemetry_spec(csp: Seq<char>) -> Seq<char> {
    replace_all(csp, CONNECT_SELF@, CONNECT_TELEMETRY@) + REPORT_URI@
}

/// Opens `connect-src` to the telemetry endpoints and adds a report URI.
pub fn add_telemetry_csp(csp: &mut String)
    ensures
        final(csp)@ == telemetry_spec(old(csp)@),
{
    proof {
        reveal_strlit("connect-src 'self'");
    }
    let mut widened = replace_text(csp.as_str(), CONNECT_SELF, CONNECT_TELEMETRY);
    widened.append(REPORT_URI);
    *csp = widened;
}

pub open spec fn development_spec(csp: Seq<char>, dev_build: bool) -> Seq<char> {
    if dev_build {
        replace_all(replace_all(csp, CONNECT_SELF@, CONNECT_DEV@), SCRIPT_INLINE@, SCRIPT_DEV@)
    } else {
        csp
    }
}

/// In a development build, opens `connect-src` to the local dev server and
/// allows `eval` in scripts; in a release build, changes nothing.
pub fn add_development_csp(csp: &mut String, dev_build: bool)
    ensures
        final(csp)@ == development_spec(old(csp)@, dev_build),
{
    if dev_build {
        proof {
            reveal_strlit("connect-src 'self'");
            reveal_strlit("script-src 'self' 'unsafe-inline'");
        }
        let a = replace_text(csp.as_str(), CONNECT_SELF, CONNECT_DEV);
        let b = replace_text(a.as_str(), SCRIPT_INLINE, SCRIPT_DEV);
        *csp = b;
    }
}

/// Whether the user agreed to telemetry. No consent is ever recorded, so
/// the answer is always no.
pub fn check_telemetry_consent() -> (r: bool)
    ensures
        !r,
{
    false
}

pub open spec fn dynamic_csp_spec(stealth_active: bool, consent: bool, dev_build: bool) -> Seq<
    char,
> {
    let base = BASE_CSP@;
    let with_telemetry = if consent && !stealth_active {
        telemetry_spec(base)
    } else {
        base
    };
    development_spec(with_telemetry, dev_build)
}

/// Policy for the current state: telemetry endpoints only with consent and
/// outside stealth mode, development endpoints only in development builds.
pub fn dynamic_csp_policy(stealth_active: bool, consent: bool, dev_build: bool) -> (r: String)
    ensures
        r@ == dynamic_csp_spec(stealth_active, consent, dev_build),
{
    let mut csp = build_base_csp();
    if consent && !stealth_active {
        add_telemetry_csp(&mut csp);
    }
    add_development_csp(&mut csp, dev_build);
    csp
}

/// Policy for the application's current stealth state and recorded consent.
pub fn get_dynamic_csp_policy(stealth: &StealthState, dev_build: bool) -> (r: String)
    ensures
        r@ == dynamic_csp_spec(stealth@, false, dev_build),
{
    let consent = check_telemetry_consent();
    dynamic_csp_policy(stealth.is_active(), consent, dev_build)
}

pub open spec fn warn_unsafe_eval() -> Seq<char> {
    "⚠️ CSP contains 'unsafe-eval' in production"@
}

pub open spec fn warn_unsafe_inline() -> Seq<char> {
    "⚠️ CSP contains 'unsafe-inline' (consider nonce-based CSP)"@
}

pub open spec fn warn_wildcard() -> Seq<char> {
    "⚠️ CSP contains wildcard (*) - consider restricting"@
}

pub open spec fn warn_no_object_src() -> Seq<char> {
    "⚠️ CSP missing object-src directive"@
}

pub open spec fn push_if(s: Seq<Seq<char>>, cond: bool, w: Seq<char>) -> Seq<Seq<char>> {
    if cond {
        s.push(w)
    } else {
        s
    }
}

/// Warnings for a policy, in this order: `'unsafe-eval'` outside a
/// development build, `'unsafe-inline'`, a wildcard, no `object-src`.
pub open spec fn csp_warnings(policy: Seq<char>, dev_build: bool) -> Seq<Seq<char>> {
    let w0 = Seq::<Seq<char>>::empty();
    let w1 = push_if(w0, has_infix(policy, "'unsafe-eval'"@) && !dev_build, warn_unsafe_eval());
    let w2 = push_if(w1, has_infix(policy, "'unsafe-inline'"@), warn_unsafe_inline());
    let w3 = push_if(w2, has_infix(policy, "*"@), warn_wildcard());
    push_if(w3, !has_infix(policy, "object-src"@), warn_no_object_src())
}

pub open spec fn texts(v: Seq<String>) -> Seq<Seq<char>> {
    v.map_values(|s: String| s@)
}

/// Common weaknesses of a policy.
pub fn validate_csp_policy(policy: &str, dev_build: bool) -> (r: Vec<String>)
    ensures
        texts(r@) == csp_warnings(policy@, dev_build),
{
    let mut warnings: Vec<String> = Vec::new();
    if contains_text(policy, "'unsafe-eval'") && !dev_build {
        warnings.push(String::from_str("⚠️ CSP contains 'unsafe-eval' in production"));
    }
    let ghost w1 = texts(warnings@);
    if contains_text(policy, "'unsafe-inline'") {
        warnings.push(
            String::from_str("⚠️ CSP contains 'unsafe-inline' (consider nonce-based CSP)"),
        );
    }
    proof {
        assert(texts(warnings@) =~= push_if(w1, has_infix(policy@, "'unsafe-inline'"@), warn_unsafe_inline()));
    }
    let ghost w2 = texts(warnings@);
    if contains_text(policy, "*") {
        warnings.push(String::from_str("⚠️ CSP contains wildcard (*) - consider restricting"));
    }
    proof {
        assert(texts(warnings@) =~= push_if(w2, has_infix(policy@, "*"@), warn_wildcard()));
    }
    let ghost w3 = texts(warnings@);
    if !contains_text(policy, "object-src") {
        warnings.push(String::from_str("⚠️ CSP missing object-src directive"));
    }
    proof {
        assert(texts(warnings@) =~= push_if(w3, !has_infix(policy@, "object-src"@), warn_no_object_src()));
        assert(w1 =~= push_if(Seq::<Seq<char>>::empty(), has_infix(policy@, "'unsafe-eval'"@) && !dev_build, warn_unsafe_eval()));
    }
    warnings
}

pub open spec fn csp_for_context_spec(context: Seq<char>) -> Result<Seq<char>, Seq<char>> {
    if context == "main"@ {
        Ok(BASE_CSP@)
    } else if context == "panel"@ {
        Ok(replace_all(BASE_CSP@, UNSAFE_INLINE@, ""@))
    } else {
        Err("Unknown CSP context: "@ + context)
    }
}

/// Policy for a kind of page: `main` gets the base policy, `panel` the base
/// policy without `'unsafe-inline'`; any other context is an error.
pub fn get_csp_for_context(context: &str) -> (r: Result<String, String>)
    ensures
        r matches Ok(p) ==> csp_for_context_spec(context@) == Ok::<Seq<char>, Seq<char>>(p@),
        r matches Err(e) ==> csp_for_context_spec(context@) == Err::<Seq<char>, Seq<char>>(e@),
{
    if crate::text::text_eq(context, "main") {
        Ok(build_base_csp())
    } else if crate::text::text_eq(context, "panel") {
        proof {
            reveal_strlit("'unsafe-inline'");
            reveal_strlit("");
        }
        Ok(replace_text(BASE_CSP, UNSAFE_INLINE, ""))
    } else {
        Err(join2("Unknown CSP context: ", context))
    }
}

} // verus!
