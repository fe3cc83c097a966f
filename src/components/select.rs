use vstd::prelude::*;

verus! {

/// Why a value that the select widget reports names no single option.
#[derive(Clone, Copy, PartialEq, Eq, Debug, Structural)]
pub enum SelectError {
    /// No option has the value
    InvalidValue,
    /// More than one option has the value
    DuplicateValue,
}

impl SelectError {
    /// A sentence that describes the error, to be followed by the value.
    pub fn message(&self) -> (r: &'static str)
        ensures
            r@ == (match self {
                SelectError::InvalidValue => "Select value changed to an invalid value: "@,
                SelectError::DuplicateValue => "Select value changed to a duplicate value: "@,
            }),
    {
        match self {
            SelectError::InvalidValue => "Select value changed to an invalid value: ",
            SelectError::DuplicateValue => "Select value changed to a duplicate value: ",
        }
    }
}

/// Whether the option at `i` has the value `value`.
pub open spec fn has_value(values: Seq<String>, i: int, value: Seq<char>) -> bool {
    0 <= i < values.len() && values[i]@ == value
}

/// The option that the select widget's value names: the index of the one option
/// whose value it is. The options' values are given in order.
pub fn find_option(values: &Vec<String>, value: &String) -> (r: Result<usize, SelectError>)
    ensures
        r matches Ok(i) ==> has_value(values@, i as int, value@) && forall|j: int|
            #![trigger has_value(values@, j, value@)]
            j != i ==> !has_value(values@, j, value@),
        r == Err::<usize, SelectError>(SelectError::InvalidValue) <==> forall|j: int|
            !#[trigger] has_value(values@, j, value@),
        r == Err::<usize, SelectError>(SelectError::DuplicateValue) <==> exists|j: int, k: int|
            j != k && #[trigger] has_value(values@, j, value@) && #[trigger] has_value(
                values@,
                k,
                value@,
            ),
{
    let mut found: Option<usize> = None;
    let mut i: usize = 0;
    while i < values.len()
        invariant
            i <= values@.len(),
            found matches Some(f) ==> f < i && has_value(values@, f as int, value@),
            forall|j: int|
                #![trigger has_value(values@, j, value@)]
                0 <= j < i && (found matches Some(f) ==> j != f) ==> !has_value(
                    values@,
                    j,
                    value@,
                ),
        decreases values@.len() - i,
    {
        if values[i] == *value {
            match found {
                Some(f) => {
                    assert(has_value(values@, f as int, value@) && has_value(
                        values@,
                        i as int,
                        value@,
                    ));
                    return Err(SelectError::DuplicateValue);
                },
                None => {
                    found = Some(i);
                },
            }
        }
        i = i + 1;
    }
    match found {
        Some(f) => Ok(f),
        None => Err(SelectError::InvalidValue),
    }
}

} // verus!
