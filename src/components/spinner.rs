use vstd::prelude::*;

verus! {

/// The classes of every spinner, before those of its size.
pub const SPINNER_BASE_CLASS: &'static str = "inline-block animate-spin rounded-full border-4 border-solid border-current border-r-transparent align-[-0.125em] motion-reduce:animate-[spin_1.5s_linear_infinite] ";

/// The size of a spinner.
#[derive(Clone, Copy, PartialEq, Eq, Debug, Structural)]
pub enum SpinnerSize {
    /// Small spinner
    Small,
    /// Medium spinner
    Medium,
    /// Large spinner
    Large,
}

impl SpinnerSize {
    /// The classes that give a spinner of this size its height and width.
    pub open spec fn spec_class(self) -> Seq<char> {
        match self {
            SpinnerSize::Small => "h-4 w-4"@,
            SpinnerSize::Medium => "h-8 w-8"@,
            SpinnerSize::Large => "h-12 w-12"@,
        }
    }

    /// The classes that give a spinner of this size its height and width.
    pub fn class(self) -> (r: &'static str)
        ensures
            r@ == self.spec_class(),
    {
        match self {
            SpinnerSize::Small => "h-4 w-4",
            SpinnerSize::Medium => "h-8 w-8",
            SpinnerSize::Large => "h-12 w-12",
        }
    }
}

/// The full class list of a spinner: the common classes, then those of its size.
pub fn spinner_class(size: SpinnerSize) -> (r: String)
    ensures
        r@ == SPINNER_BASE_CLASS@ + size.spec_class(),
{
    let mut class = String::from_str(SPINNER_BASE_CLASS);
    class.append(size.class());
    class
}

} // verus!
