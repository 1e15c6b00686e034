//! The transformed output: printed code with the appended inline
//! position-map comment, base64-JSON-encoded as a data URL.

use vstd::prelude::*;
use vstd::string::StringExecFns;

use base64::Engine;

verus! {

/// The result of one file transform: the rewritten module source with the
/// position-map comment appended, and the position map itself.
pub struct TransformedSource {
    pub code: String,
    pub map: String,
}

/// The base64 rendering of a string's bytes under the standard alphabet with
/// padding: what the position-map data URL carries.
pub uninterp spec fn base64_of(s: Seq<char>) -> Seq<char>;

/// Relies on base64's `Engine::encode_string` with the standard engine: the
/// result is a function of the input bytes alone, appended to the output
/// string.
#[verifier::external_body]
fn base64_push(map: &str, out: &mut String)
    ensures
        final(out)@ == old(out)@ + base64_of(map@),
{
    base64::prelude::BASE64_STANDARD.encode_string(map.as_bytes(), out);
}

/// Appends the inline position-map comment to the printed code and pairs it
/// with the map.
pub fn finish_source(code: String, map: String) -> (r: TransformedSource)
    ensures
        r.code@ == code@ + "\n//# sourceMappingURL=data:application/json;base64,"@ + base64_of(
            map@,
        ),
        r.map@ == map@,
{
    let mut code = code;
    code.append("\n//# sourceMappingURL=data:application/json;base64,");
    base64_push(map.as_str(), &mut code);
    TransformedSource { code, map }
}

} // verus!
