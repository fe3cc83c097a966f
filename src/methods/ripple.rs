use vstd::prelude::*;

verus! {

/// The text of an optional setting, as a sequence of characters.
pub open spec fn text_of(o: Option<String>) -> Option<Seq<char>> {
    match o {
        Some(s) => Some(s@),
        None => None,
    }
}

fn copy_text(o: &Option<String>) -> (r: Option<String>)
    ensures
        text_of(r) == text_of(*o),
{
    match o {
        Some(s) => Some(s.clone()),
        None => None,
    }
}

fn same_text(a: &Option<String>, b: &Option<String>) -> (r: bool)
    ensures
        r == (text_of(*a) == text_of(*b)),
{
    match (a, b) {
        (Some(x), Some(y)) => *x == *y,
        (None, None) => true,
        _ => false,
    }
}

/// A ripple effect on a button or another element.
#[derive(Debug, Clone, Eq, Hash)]
pub struct Ripple {
    /// Colour of the ripple
    pub color: Option<String>,
    /// Duration of the ripple
    pub duration: Option<String>,
    /// Whether the ripple starts at the element's centre rather than at the click
    pub centered: bool,
    /// Whether the ripple may spread beyond the element
    pub unbound: bool,
    /// Radius of the ripple
    pub radius: Option<u32>,
}

impl Default for Ripple {
    fn default() -> (r: Ripple)
        ensures
            r.color is None,
            r.duration is None,
            !r.centered,
            !r.unbound,
            r.radius is None,
    {
        Ripple { color: None, duration: None, centered: false, unbound: false, radius: None }
    }
}

impl PartialEq for Ripple {
    fn eq(&self, other: &Ripple) -> (r: bool) {
        same_text(&self.color, &other.color) && same_text(&self.duration, &other.duration)
            && self.centered == other.centered && self.unbound == other.unbound && self.radius
            == other.radius
    }
}

impl vstd::std_specs::cmp::PartialEqSpecImpl for Ripple {
    open spec fn obeys_eq_spec() -> bool {
        true
    }

    open spec fn eq_spec(&self, other: &Ripple) -> bool {
        &&& text_of(self.color) == text_of(other.color)
        &&& text_of(self.duration) == text_of(other.duration)
        &&& self.centered == other.centered
        &&& self.unbound == other.unbound
        &&& self.radius == other.radius
    }
}

/// The options handed to the ripple widget when it is created.
pub struct RippleOptions {
    /// Colour of the ripple, left out where unset
    pub color: Option<String>,
    /// Duration of the ripple, left out where unset
    pub duration: Option<String>,
    /// Whether the ripple starts at the element's centre
    pub centered: bool,
    /// Whether the ripple may spread beyond the element
    pub unbound: bool,
    /// Radius of the ripple, left out where unset
    pub radius: Option<u32>,
}

impl Ripple {
    /// Whether `o` carries exactly this ripple's settings.
    pub open spec fn options_match(&self, o: RippleOptions) -> bool {
        &&& text_of(o.color) == text_of(self.color)
        &&& text_of(o.duration) == text_of(self.duration)
        &&& o.centered == self.centered
        &&& o.unbound == self.unbound
        &&& o.radius == self.radius
    }

    /// The widget options that carry this ripple's settings.
    pub fn options(&self) -> (r: RippleOptions)
        ensures
            self.options_match(r),
    {
        RippleOptions {
            color: copy_text(&self.color),
            duration: copy_text(&self.duration),
            centered: self.centered,
            unbound: self.unbound,
            radius: self.radius,
        }
    }
}

/// The ripple widget to create after the element or the wished ripple changed (any
/// earlier one is disposed of first): one with the wished settings where the element
/// is on the page and a ripple is wished, none otherwise.
pub fn ripple_step(element_present: bool, ripple: &Option<Ripple>) -> (r: Option<RippleOptions>)
    ensures
        r is Some <==> element_present && ripple is Some,
        r matches Some(o) ==> ripple->0.options_match(o),
{
    if element_present {
        match ripple {
            Some(rp) => Some(rp.options()),
            None => None,
        }
    } else {
        None
    }
}

} // verus!
