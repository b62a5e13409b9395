use claim_check::simple::{check_ai, greet};

#[test]
fn greet_wraps_the_name() {
    assert_eq!(greet("World".to_string()), "Hello World, Rust is connected!");
}

#[test]
fn greet_keeps_unicode_names() {
    assert_eq!(greet("Nicolò".to_string()), "Hello Nicolò, Rust is connected!");
}

#[test]
fn check_ai_reports_fixed_message() {
    // The probe must answer with the fixed message whether or not the
    // engine's runtime library is actually present on this machine.
    assert_eq!(check_ai(), "Motore AI (ONNX) rilevato e funzionante!");
}
