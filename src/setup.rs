use vstd::prelude::*;

verus! {

/// The path under which the widget library's script is served and loaded.
pub const TWELEMENTS_JS_URL: &'static str = "/.twelements/twelements.js";

} // verus!
