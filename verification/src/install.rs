//! What `install` fetches, and where it goes.

use vstd::prelude::*;
use vstd::string::*;
use crate::layout::{Environment, EnvironmentView};
use crate::step::Kind;
use crate::text::{remove_char, without};

verus! {

/// Where the archive of a version is published for a platform.
pub open spec fn archive_url(env: EnvironmentView, version: Seq<char>) -> Seq<char> {
    "https://github.com/YosysHQ/oss-cad-suite-build/releases/download/"@ + version
        + "/oss-cad-suite-"@ + env.os + "-"@ + env.arch + "-"@ + without(version, '-') + ".tgz"@
}

/// What `install` has to do.
#[derive(Clone, Debug, PartialEq, Eq)]
pub enum Install {
    /// The version is installed: nothing.
    Present,
    /// Fetch the archive at `url` and unpack it into `destination`.
    Fetch { url: String, destination: String },
}

/// An `Install` with its strings as character sequences.
pub enum InstallView {
    Present,
    Fetch { url: Seq<char>, destination: Seq<char> },
}

impl View for Install {
    type V = InstallView;

    open spec fn view(&self) -> InstallView {
        match *self {
            Install::Present => InstallView::Present,
            Install::Fetch { url, destination } => InstallView::Fetch {
                url: url@,
                destination: destination@,
            },
        }
    }
}

/// What `install` does for a version: nothing where it is installed, else
/// the archive for the platform goes into the version's directory.
pub open spec fn installation(env: EnvironmentView, version: Seq<char>, toolchain: Kind)
    -> InstallView {
    if toolchain == Kind::Directory {
        InstallView::Present
    } else {
        InstallView::Fetch {
            url: archive_url(env, version),
            destination: env.toolchain_path(version),
        }
    }
}

/// The address of the archive of a version for the platform of `env`.
pub fn download_url(env: &Environment, version: &str) -> (url: String)
    ensures
        url@ == archive_url(env@, version@),
{
    let mut url = String::from_str(
        "https://github.com/YosysHQ/oss-cad-suite-build/releases/download/",
    );
    url.append(version);
    url.append("/oss-cad-suite-");
    url.append(env.os.as_str());
    url.append("-");
    url.append(env.arch.as_str());
    url.append("-");
    let compact = remove_char(version, '-');
    url.append(compact.as_str());
    url.append(".tgz");
    url
}

/// Plans `install`. `toolchain` says what the version's path in the store
/// leads to.
pub fn install(env: &Environment, version: &str, toolchain: Kind) -> (plan: Install)
    ensures
        plan@ == installation(env@, version@, toolchain),
{
    if toolchain.is_dir() {
        Install::Present
    } else {
        Install::Fetch { url: download_url(env, version), destination: env.toolchain_path(version) }
    }
}

} // verus!
