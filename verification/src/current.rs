//! Which version a session link leads to.

use vstd::prelude::*;
use vstd::string::*;
use crate::error::{maybe, outcome, Error, ErrorView, LinkFault};
use crate::layout::{Environment, EnvironmentView};
use crate::text::{catenate, strip_all, strip_leading};

verus! {

/// The version a directory is that of: its path without the store's root
/// and the `/` behind it in front.
pub open spec fn version_at(env: EnvironmentView, canonical: Seq<char>) -> Seq<char> {
    strip_all(canonical, env.toolchain_home + seq!['/'])
}

/// The version in use, from the directory the session link ends at once
/// every link is followed; a failure that names the session link where it
/// leads nowhere.
pub open spec fn current_of(env: EnvironmentView, canonical: Option<Seq<char>>) -> Result<
    Seq<char>,
    ErrorView,
> {
    match canonical {
        Some(c) => Ok(version_at(env, c)),
        None => Err(ErrorView::Link { path: env.shell_path, fault: LinkFault::Resolve }),
    }
}

/// Says which version is in use. `canonical` is the directory the session
/// link ends at, whether it points at the store or at an alias; absent
/// where the link is missing or leads nowhere.
pub fn current(env: &Environment, canonical: Option<&str>) -> (r: Result<String, Error>)
    ensures
        outcome(r) == current_of(env@, maybe(canonical)),
{
    match canonical {
        Some(c) => {
            proof {
                reveal_strlit("/");
                assert("/"@ =~= seq!['/']);
            }
            let root = catenate(env.toolchain_home.as_str(), "/");
            Ok(strip_leading(c, root.as_str()))
        },
        None => Err(Error::Link { path: env.shell_path.clone(), fault: LinkFault::Resolve }),
    }
}

} // verus!
