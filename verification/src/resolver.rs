//! Which version an invocation means.

use vstd::prelude::*;
use vstd::string::*;
use crate::error::{maybe, outcome, Error, ErrorView};
use crate::text::{trim, trimmed};

verus! {

/// The version an invocation means: the explicit argument where one is
/// given, whatever the pin file holds; else the trimmed text of the pin
/// file; else nothing, and the failure names the pin file that was looked
/// for.
pub open spec fn resolved(
    explicit: Option<Seq<char>>,
    pin: Option<Seq<char>>,
    pin_file: Seq<char>,
) -> Result<Seq<char>, ErrorView> {
    match (explicit, pin) {
        (Some(e), _) => Ok(e),
        (None, Some(p)) => Ok(trimmed(p)),
        (None, None) => Err(ErrorView::MissingVersion { pin_file }),
    }
}

/// Settles the version for one invocation. `pin` is the text of the pin
/// file, absent where there is no such file or it cannot be read;
/// `pin_file` is the name that file goes by.
///
/// The version is not looked up in the store: that is for whoever uses it.
pub fn resolve(explicit: Option<&str>, pin: Option<&str>, pin_file: &str) -> (r: Result<
    String,
    Error,
>)
    ensures
        outcome(r) == resolved(maybe(explicit), maybe(pin), pin_file@),
{
    match explicit {
        Some(e) => Ok(String::from_str(e)),
        None => match pin {
            Some(p) => Ok(trim(p)),
            None => Err(Error::MissingVersion { pin_file: String::from_str(pin_file) }),
        },
    }
}

/// An explicit argument is the answer, whatever the pin file holds.
pub proof fn law_explicit_wins(e: Seq<char>, pin: Option<Seq<char>>, pin_file: Seq<char>)
    ensures
        resolved(Some(e), pin, pin_file) == Ok::<Seq<char>, ErrorView>(e),
{
}

/// Without an argument the pin file decides, and without a pin file there
/// is no version.
pub proof fn law_pin_file_decides(pin: Option<Seq<char>>, pin_file: Seq<char>)
    ensures
        pin matches Some(p) ==> resolved(None, pin, pin_file) == Ok::<Seq<char>, ErrorView>(
            trimmed(p),
        ),
        pin is None ==> resolved(None, pin, pin_file) == Err::<Seq<char>, ErrorView>(
            ErrorView::MissingVersion { pin_file },
        ),
{
}

} // verus!
