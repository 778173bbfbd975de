use numa_hud::commands::{
    get_stealth_status, store_openai_key, toggle_stealth_cmd, validate_and_rate_limit,
};
use numa_hud::csp::{
    add_development_csp, add_telemetry_csp, build_base_csp, dynamic_csp_policy,
    get_csp_for_context, get_dynamic_csp_policy, validate_csp_policy,
};
use numa_hud::ratelimit::{check_rate_limit, cleanup_rate_limiter, rate_limit_for, RateLimiter};
use numa_hud::stealth::StealthState;
use numa_hud::validation::{
    contains_suspicious_patterns, SecureKey, SecureKeyValue, ValidationError, WindowSize,
};
use numa_hud::window::WindowRegistry;

#[test]
fn test_base_csp_generation() {
    let csp = build_base_csp();
    assert!(csp.contains("default-src 'self'"));
    assert!(csp.contains("object-src 'none'"));
    assert!(csp.contains("connect-src 'self'"));
}

#[test]
fn test_csp_validation() {
    let unsafe_policy = "script-src 'self' 'unsafe-eval'; object-src *";
    let warnings = validate_csp_policy(unsafe_policy, false);
    assert!(warnings.len() > 0);
    assert!(warnings.iter().any(|w| w.contains("unsafe-eval")));
    assert!(warnings.iter().any(|w| w.contains("wildcard")));
}

#[test]
fn test_telemetry_csp_addition() {
    let mut base_csp = build_base_csp();
    add_telemetry_csp(&mut base_csp);
    assert!(base_csp.contains("sentry.io"));
    assert!(base_csp.contains("report-uri"));
}

#[test]
fn csp_warnings_in_order() {
    let w = validate_csp_policy(&build_base_csp(), false);
    assert_eq!(w, vec!["⚠️ CSP contains 'unsafe-inline' (consider nonce-based CSP)".to_string()]);
    let dev = validate_csp_policy("script-src 'self' 'unsafe-eval'", true);
    assert_eq!(dev, vec!["⚠️ CSP missing object-src directive".to_string()]);
}

#[test]
fn telemetry_replaces_connect_src() {
    let mut csp = build_base_csp();
    add_telemetry_csp(&mut csp);
    assert!(csp.ends_with(
        "connect-src 'self' https://api.sentry.io https://*.sentry.io wss://api.sentry.io; report-uri https://api.sentry.io/security/?sentry_key=YOUR_KEY"
    ));
}

#[test]
fn development_csp_only_in_development() {
    let mut release = build_base_csp();
    add_development_csp(&mut release, false);
    assert_eq!(release, build_base_csp());
    let mut dev = build_base_csp();
    add_development_csp(&mut dev, true);
    assert!(dev.contains("script-src 'self' 'unsafe-inline' 'unsafe-eval'"));
    assert!(dev.ends_with("connect-src 'self' http://localhost:* ws://localhost:* wss://localhost:*"));
}

#[test]
fn stealth_blocks_telemetry_in_csp() {
    assert!(dynamic_csp_policy(false, true, false).contains("sentry.io"));
    assert!(!dynamic_csp_policy(true, true, false).contains("sentry.io"));
    assert!(!dynamic_csp_policy(false, false, false).contains("sentry.io"));
    let state = StealthState::new();
    assert_eq!(get_dynamic_csp_policy(&state, false), build_base_csp());
}

#[test]
fn csp_for_each_context() {
    assert_eq!(get_csp_for_context("main").unwrap(), build_base_csp());
    let panel = get_csp_for_context("panel").unwrap();
    assert!(!panel.contains("unsafe-inline"));
    assert!(panel.starts_with("default-src 'self'; script-src 'self' ; style-src"));
    assert_eq!(get_csp_for_context("popup").unwrap_err(), "Unknown CSP context: popup");
}

#[test]
fn test_secure_key_validation() {
    let valid = SecureKey { key: "user_token".to_string() };
    assert!(valid.validate().is_ok());
    let empty = SecureKey { key: "".to_string() };
    assert!(empty.validate().is_err());
    let too_long = SecureKey { key: "a".repeat(100) };
    assert!(too_long.validate().is_err());
    let invalid_chars = SecureKey { key: "key with spaces".to_string() };
    assert!(invalid_chars.validate().is_err());
}

#[test]
fn key_errors_in_order() {
    let e = SecureKey { key: "".to_string() }.validate().unwrap_err();
    assert_eq!(e.message(), "Empty required field: key");
    let e = SecureKey { key: "a".repeat(65) }.validate().unwrap_err();
    assert_eq!(e.message(), "Input too large: key exceeds 64 characters");
    assert!(SecureKey { key: "a".repeat(64) }.validate().is_ok());
    let e = SecureKey { key: "key with spaces".to_string() }.validate().unwrap_err();
    assert_eq!(
        e.message(),
        "Invalid characters in key: only alphanumeric and basic punctuation allowed"
    );
    assert!(SecureKey { key: "clé_v1.2-b".to_string() }.validate().is_ok());
}

#[test]
fn test_suspicious_patterns() {
    assert!(contains_suspicious_patterns("../etc/passwd"));
    assert!(contains_suspicious_patterns("<script>alert('xss')</script>"));
    assert!(contains_suspicious_patterns("DROP TABLE users"));
    assert!(!contains_suspicious_patterns("normal text content"));
}

#[test]
fn key_value_checks_key_then_value() {
    let kv = SecureKeyValue { key: "api".to_string(), value: "x".repeat(1025) };
    assert_eq!(kv.validate().unwrap_err().message(), "Input too large: value exceeds 1024 characters");
    let kv = SecureKeyValue { key: "".to_string(), value: "x".repeat(1025) };
    assert_eq!(kv.validate().unwrap_err().message(), "Empty required field: key");
    let kv = SecureKeyValue { key: "api".to_string(), value: "Select * from t".to_string() };
    assert_eq!(kv.validate().unwrap_err().message(), "Suspicious pattern detected in value");
    let kv = SecureKeyValue { key: "api".to_string(), value: "sk-abc".to_string() };
    assert!(kv.validate().is_ok());
}

#[test]
fn window_size_bounds() {
    assert!(WindowSize { width: 6400, height: 3200 }.validate().is_ok());
    assert!(WindowSize { width: 409600, height: 216000 }.validate().is_ok());
    let w = WindowSize { width: 6390, height: 3200 }.validate().unwrap_err();
    assert!(matches!(w, ValidationError::InvalidRange { .. }));
    assert_eq!(w.message(), "Invalid range: width must be between 64 and 4096");
    let h = WindowSize { width: 6400, height: 3190 }.validate().unwrap_err();
    assert!(matches!(h, ValidationError::InvalidRange { .. }));
    assert_eq!(h.message(), "Invalid range: height must be between 32 and 2160");
    assert!(WindowSize { width: 409601, height: 3200 }.validate().is_err());
    assert!(WindowSize { width: 80000, height: 60000 }.validate().is_ok());
}

#[test]
fn test_rate_limiting() {
    let mut limiter = RateLimiter::new();
    assert!(check_rate_limit(&mut limiter, "test_command", 0).is_ok());
    for _ in 0..10 {
        let _ = check_rate_limit(&mut limiter, "test_command", 0);
    }
}

#[test]
fn rate_limits_per_command() {
    assert_eq!(rate_limit_for("resize_window"), (10, 60_000));
    assert_eq!(rate_limit_for("toggle_stealth_cmd"), (5, 60_000));
    assert_eq!(rate_limit_for("secure_load"), (50, 60_000));
    assert_eq!(rate_limit_for("anything_else"), (100, 60_000));
}

#[test]
fn rate_limit_boundary_five_per_minute() {
    let mut limiter = RateLimiter::new();
    for t in [0u64, 1_000, 2_000, 3_000, 4_000] {
        assert!(check_rate_limit(&mut limiter, "toggle_stealth_cmd", t).is_ok());
    }
    let refused = check_rate_limit(&mut limiter, "toggle_stealth_cmd", 60_000).unwrap_err();
    assert_eq!(refused.message(), "Rate limit exceeded for command: toggle_stealth_cmd");
    // other commands are counted apart
    assert!(check_rate_limit(&mut limiter, "resize_window", 60_000).is_ok());
    // the first call is now more than a minute old
    assert!(check_rate_limit(&mut limiter, "toggle_stealth_cmd", 60_001).is_ok());
    assert!(check_rate_limit(&mut limiter, "toggle_stealth_cmd", 60_002).is_err());
}

#[test]
fn cleanup_forgets_old_commands() {
    let mut limiter = RateLimiter::new();
    assert!(check_rate_limit(&mut limiter, "resize_window", 0).is_ok());
    for _ in 0..9 {
        assert!(check_rate_limit(&mut limiter, "resize_window", 10).is_ok());
    }
    assert!(check_rate_limit(&mut limiter, "resize_window", 20).is_err());
    cleanup_rate_limiter(&mut limiter, 3_600_005);
    // only the first call has gone: nine remain, but they are older than the window
    assert!(check_rate_limit(&mut limiter, "resize_window", 3_600_005).is_ok());
    cleanup_rate_limiter(&mut limiter, 10_000_000);
    for _ in 0..10 {
        assert!(check_rate_limit(&mut limiter, "resize_window", 10_000_000).is_ok());
    }
}

#[test]
fn guard_checks_rate_then_input() {
    let mut limiter = RateLimiter::new();
    let ok = validate_and_rate_limit(
        &mut limiter,
        0,
        "secure_load",
        SecureKey { key: "user_token".to_string() },
        |k: SecureKey| Ok(k.key.len()),
    );
    assert_eq!(ok, Ok(10));
    let bad = validate_and_rate_limit(
        &mut limiter,
        0,
        "secure_load",
        SecureKey { key: "bad key".to_string() },
        |_k: SecureKey| -> Result<usize, String> { panic!("handler must not run") },
    );
    assert_eq!(
        bad.unwrap_err(),
        "Invalid characters in key: only alphanumeric and basic punctuation allowed"
    );
    let mut limiter = RateLimiter::new();
    for _ in 0..10 {
        let r = validate_and_rate_limit(
            &mut limiter,
            5,
            "resize_window",
            WindowSize { width: 80000, height: 60000 },
            |_s: WindowSize| Ok(()),
        );
        assert!(r.is_ok());
    }
    let limited = validate_and_rate_limit(
        &mut limiter,
        5,
        "resize_window",
        WindowSize { width: 80000, height: 60000 },
        |_s: WindowSize| -> Result<(), String> { panic!("handler must not run") },
    );
    assert_eq!(limited.unwrap_err(), "Rate limit exceeded for command: resize_window");
}

#[test]
fn toggle_command_is_rate_limited() {
    let mut state = StealthState::new();
    let mut limiter = RateLimiter::new();
    let registry = WindowRegistry::with_hud();
    for i in 0..5u64 {
        let change = toggle_stealth_cmd(&mut state, &mut limiter, &registry, i).unwrap();
        assert_eq!(change.active, i % 2 == 0);
        assert_eq!(change.source, "manual_toggle");
        assert_eq!(get_stealth_status(&state), change.active);
    }
    let before = get_stealth_status(&state);
    let refused = toggle_stealth_cmd(&mut state, &mut limiter, &registry, 10).unwrap_err();
    assert_eq!(refused, "Rate limit exceeded for command: toggle_stealth_cmd");
    assert_eq!(get_stealth_status(&state), before);
}

#[test]
fn storing_the_api_key() {
    let mut limiter = RateLimiter::new();
    let bad = store_openai_key(&mut limiter, 0, "nope".to_string(), |_kv| -> Result<(), String> {
        panic!("nothing must be stored")
    });
    assert_eq!(bad.unwrap_err(), "Invalid OpenAI API key format");
    let mut stored = None;
    let ok = store_openai_key(&mut limiter, 0, "sk-0123456789abcdefgh".to_string(), |kv| {
        stored = Some((kv.key, kv.value));
        Ok(())
    });
    assert!(ok.is_ok());
    assert_eq!(
        stored,
        Some(("openai_api_key".to_string(), "sk-0123456789abcdefgh".to_string()))
    );
    let suspicious = store_openai_key(&mut limiter, 0, "sk-0123456789abcdef;gh".to_string(), |_kv| {
        Ok(())
    });
    assert_eq!(suspicious.unwrap_err(), "Suspicious pattern detected in value");
}

#[test]
fn test_window_size_validation() {
    // sizes in hundredths of a point
    let valid = WindowSize { width: 80000, height: 60000 };
    assert!(valid.validate().is_ok());

    let invalid_width = WindowSize { width: 3200, height: 60000 };
    assert!(invalid_width.validate().is_err());

    let invalid_height = WindowSize { width: 80000, height: 1000 };
    assert!(invalid_height.validate().is_err());
}
