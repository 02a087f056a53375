//! The settings that the gateway needs before it can serve.

use vstd::prelude::*;
use crate::error::{Error, ErrorView};

verus! {

/// A required setting: its value if it is there, a configuration error that
/// names it if it is not.
pub open spec fn required(name: Seq<char>, value: Option<Seq<char>>) -> Result<Seq<char>, ErrorView> {
    match value {
        Some(value) => Ok(value),
        None => Err(ErrorView::Configuration { variable: name }),
    }
}

/// The value of an optional string, as a mathematical value.
pub open spec fn value_text(value: Option<String>) -> Option<Seq<char>> {
    match value {
        Some(value) => Some(value@),
        None => None,
    }
}

/// Insists on a setting: a missing value is a configuration error that
/// names the setting.
pub fn require_setting(name: &str, value: Option<String>) -> (setting: Result<String, Error>)
    ensures
        match setting {
            Ok(found) => required(name@, value_text(value)) == Ok::<Seq<char>, ErrorView>(found@),
            Err(error) => required(name@, value_text(value)) == Err::<Seq<char>, ErrorView>(error@),
        },
{
    match value {
        Some(value) => Ok(value),
        None => Err(Error::Configuration { variable: String::from_str(name) }),
    }
}

} // verus!
