//! The default alias: a link that names the version to use where nothing
//! else is said.

use vstd::prelude::*;
use vstd::string::*;
use crate::error::{maybe, Error, ErrorView, LinkFault};
use crate::layout::{Environment, EnvironmentView};
use crate::session::{point, swap};
use crate::step::{plan_outcome, Kind, Step, StepView};

verus! {

/// The steps of `default`: only an installed version can be the default,
/// and the alias is swapped like any other link.
pub open spec fn default_steps(
    env: EnvironmentView,
    version: Seq<char>,
    toolchain: Kind,
    present: bool,
) -> Result<Seq<StepView>, ErrorView> {
    if toolchain == Kind::Directory {
        Ok(swap(env.default_alias(), env.toolchain_path(version), present))
    } else {
        Err(ErrorView::NotInstalled { version })
    }
}

/// Where the default alias leads: nowhere where there is no alias, the
/// directory it ends at where it has one, and a failure that names the
/// alias where the link is there and leads nowhere.
pub open spec fn default_of(
    env: EnvironmentView,
    present: bool,
    canonical: Option<Seq<char>>,
) -> Result<Option<Seq<char>>, ErrorView> {
    if !present {
        Ok(None)
    } else if canonical is Some {
        Ok(canonical)
    } else {
        Err(ErrorView::Link { path: env.default_alias(), fault: LinkFault::Resolve })
    }
}

/// The view of a result that carries a path that may be absent.
pub open spec fn target_outcome(r: Result<Option<String>, Error>) -> Result<
    Option<Seq<char>>,
    ErrorView,
> {
    match r {
        Ok(Some(p)) => Ok(Some(p@)),
        Ok(None) => Ok(None),
        Err(e) => Err(e@),
    }
}

/// Plans `default`: the alias is to point at the directory of `version`.
/// `toolchain` says what that directory's path leads to, `present` whether
/// the alias link stands now.
pub fn set_default(env: &Environment, version: &str, toolchain: Kind, present: bool) -> (r:
    Result<Vec<Step>, Error>)
    ensures
        plan_outcome(r) == default_steps(env@, version@, toolchain, present),
{
    if toolchain.is_dir() {
        let alias = env.default_alias();
        let target = env.toolchain_path(version);
        Ok(point(alias.as_str(), target.as_str(), present))
    } else {
        Err(Error::NotInstalled { version: String::from_str(version) })
    }
}

/// Says where the default alias leads. `present` says whether the alias
/// link stands, `canonical` is the directory it ends at once every link is
/// followed, absent where it leads nowhere.
pub fn resolve_default(env: &Environment, present: bool, canonical: Option<&str>) -> (r: Result<
    Option<String>,
    Error,
>)
    ensures
        target_outcome(r) == default_of(env@, present, maybe(canonical)),
{
    if !present {
        Ok(None)
    } else {
        match canonical {
            Some(c) => Ok(Some(String::from_str(c))),
            None => Err(Error::Link { path: env.default_alias(), fault: LinkFault::Resolve }),
        }
    }
}

} // verus!
