use crate::utils::id_selector;
use vstd::prelude::*;

verus! {

/// The options handed to the side navigation widget when it is created.
pub struct SidenavOptions {
    /// Whether the navigation starts hidden
    pub hidden: bool,
    /// How the navigation shares the page with the content
    pub mode: String,
    /// A selector of the content beside the navigation
    pub content: String,
}

/// The options of a side navigation that starts visible and stands beside the
/// element with id `content_id`.
pub fn sidenav_options(content_id: &str) -> (r: SidenavOptions)
    ensures
        !r.hidden,
        r.mode@ == "side"@,
        r.content@ == seq!['#'] + content_id@,
{
    SidenavOptions { hidden: false, mode: String::from_str("side"), content: id_selector(content_id) }
}

} // verus!
