use vstd::prelude::*;

verus! {

/// The classes that every alert carries, before those of its type.
pub const ALERT_BASE_CLASS: &'static str = "mb-4 rounded-lg px-6 py-5 text-base ";

/// The colour scheme of an alert.
#[derive(Clone, Copy, PartialEq, Eq, Debug, Structural)]
pub enum AlertType {
    /// Primary alert
    Primary,
    /// Secondary alert
    Secondary,
    /// Success alert
    Success,
    /// Danger alert
    Danger,
    /// Warning alert
    Warning,
    /// Info alert
    Info,
    /// Light alert
    Light,
    /// Dark alert
    Dark,
}

impl AlertType {
    /// The classes that give an alert of this type its colours.
    pub open spec fn spec_class(self) -> Seq<char> {
        match self {
            AlertType::Primary => "bg-primary-100 text-primary-600"@,
            AlertType::Secondary => "bg-secondary-100 text-secondary-800"@,
            AlertType::Success => "bg-success-100 text-success-700"@,
            AlertType::Danger => "bg-danger-100 text-danger-700"@,
            AlertType::Warning => "bg-warning-100 text-warning-800"@,
            AlertType::Info => "bg-info-100 text-info-800"@,
            AlertType::Light => "bg-neutral-50 text-neutral-600"@,
            AlertType::Dark => "bg-neutral-800 text-neutral-50 dark:bg-neutral-900"@,
        }
    }

    /// The classes that give an alert of this type its colours.
    pub fn class(&self) -> (r: &'static str)
        ensures
            r@ == self.spec_class(),
    {
        match self {
            AlertType::Primary => "bg-primary-100 text-primary-600",
            AlertType::Secondary => "bg-secondary-100 text-secondary-800",
            AlertType::Success => "bg-success-100 text-success-700",
            AlertType::Danger => "bg-danger-100 text-danger-700",
            AlertType::Warning => "bg-warning-100 text-warning-800",
            AlertType::Info => "bg-info-100 text-info-800",
            AlertType::Light => "bg-neutral-50 text-neutral-600",
            AlertType::Dark => "bg-neutral-800 text-neutral-50 dark:bg-neutral-900",
        }
    }
}

/// The full class list of an alert: the common classes, then those of its type.
pub fn alert_class(alert_type: AlertType) -> (r: String)
    ensures
        r@ == ALERT_BASE_CLASS@ + alert_type.spec_class(),
{
    let mut class = String::from_str(ALERT_BASE_CLASS);
    class.append(alert_type.class());
    class
}

} // verus!
