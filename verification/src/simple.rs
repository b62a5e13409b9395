//! Small host-facing helpers: a greeting used to confirm the native
//! library is wired up at all, and a probe that confirms the inference
//! engine can be reached.

use vstd::prelude::*;
use vstd::string::*;

verus! {

/// Relies on ort::init_from and ort::session::Session::builder: probes
/// whether the engine's runtime library is present and a session builder
/// can be created.  The answer depends on the machine, so nothing is
/// promised of it.  The probe hands ort the runtime's bare library name,
/// which falls back to the system loader's search path; ort resolves
/// such a relative name against the running executable's directory
/// first and would panic only if that directory cannot be read at all.
#[verifier::external_body]
fn engine_probe() -> (r: bool) {
    if ort::init_from("libonnxruntime.so").is_err() {
        return false;
    }
    ort::session::Session::builder().is_ok()
}

/// A fixed greeting around the caller's name, confirming the native side
/// answers calls.
pub fn greet(name: String) -> (r: String)
    ensures
        r@ == "Hello "@ + name@ + ", Rust is connected!"@,
{
    let mut s = String::from_str("Hello ");
    s.append(name.as_str());
    s.append(", Rust is connected!");
    s
}

/// Touches the inference engine once, so that a missing runtime shows up
/// at this call rather than inside a later classification, and reports
/// back with a fixed message either way.
pub fn check_ai() -> (r: String)
    ensures
        r@ == "Motore AI (ONNX) rilevato e funzionante!"@,
{
    let _probed = engine_probe();
    String::from_str("Motore AI (ONNX) rilevato e funzionante!")
}

} // verus!
