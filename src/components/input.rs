use vstd::prelude::*;

verus! {

/// The classes of every text input, before those of its background.
pub const INPUT_BASE_CLASS: &'static str = "peer block min-h-[auto] w-full rounded border-0 px-3 py-[0.32rem] leading-[1.6] outline-none transition-all duration-200 ease-linear focus:placeholder:opacity-100 peer-focus:text-primary data-[te-input-state-active]:placeholder:opacity-100 motion-reduce:transition-none dark:text-neutral-200 dark:placeholder:text-neutral-200 dark:peer-focus:text-primary [&:not([data-te-input-placeholder-active])]:placeholder:opacity-0";

/// The background of an input that cannot be edited.
pub const INPUT_LOCKED_CLASS: &'static str = " bg-neutral-100 dark:bg-neutral-700";

/// The background of an input that can be edited.
pub const INPUT_EDITABLE_CLASS: &'static str = " bg-transparent";

/// The type of an input field, which decides how the browser treats and checks its content.
#[derive(Clone, Copy, PartialEq, Eq, Debug, Hash, Structural)]
pub enum InputType {
    /// A generic text field
    Text,
    /// An email address field
    Email,
    /// A password field
    Password,
    /// A number field
    Number,
    /// A telephone number field
    Tel,
    /// A URL field
    Url,
}

impl InputType {
    /// The value of the `type` attribute for this kind of field.
    pub open spec fn spec_html_attrib(self) -> Seq<char> {
        match self {
            InputType::Text => "text"@,
            InputType::Email => "email"@,
            InputType::Password => "password"@,
            InputType::Number => "number"@,
            InputType::Tel => "tel"@,
            InputType::Url => "url"@,
        }
    }

    /// The value of the `type` attribute for this kind of field.
    pub fn html_attrib(&self) -> (r: &'static str)
        ensures
            r@ == self.spec_html_attrib(),
    {
        match self {
            InputType::Text => "text",
            InputType::Email => "email",
            InputType::Password => "password",
            InputType::Number => "number",
            InputType::Tel => "tel",
            InputType::Url => "url",
        }
    }
}

/// The class list of a text input: a grey background where it is disabled or read-only,
/// a transparent one otherwise.
pub fn input_class(disabled: bool, readonly: bool) -> (r: String)
    ensures
        r@ == INPUT_BASE_CLASS@ + (if disabled || readonly {
            INPUT_LOCKED_CLASS@
        } else {
            INPUT_EDITABLE_CLASS@
        }),
{
    let mut class = String::from_str(INPUT_BASE_CLASS);
    if disabled || readonly {
        class.append(INPUT_LOCKED_CLASS);
    } else {
        class.append(INPUT_EDITABLE_CLASS);
    }
    class
}

} // verus!
