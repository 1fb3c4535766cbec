//! The failures the library reports, and the text shown for each.

use vstd::prelude::*;
use vstd::string::*;
use crate::text::catenate;

verus! {

/// An environment variable the tool reads.
#[derive(Clone, Copy, Debug, PartialEq, Eq)]
pub enum Variable {
    /// `ICICLE_HOME`, the root directory.
    IcicleHome,
    /// `ICICLE_SHELL_PATH`, the session link of the running shell.
    ShellPath,
    /// `HOME`, read only while a shell is being set up.
    Home,
}

/// What could not be done to a link.
#[derive(Clone, Copy, Debug, PartialEq, Eq)]
pub enum LinkFault {
    Remove,
    Create,
    /// The link could not be moved over the one it replaces.
    Replace,
    Resolve,
}

/// What could not be done to a directory.
#[derive(Clone, Copy, Debug, PartialEq, Eq)]
pub enum DirFault {
    Create,
    Remove,
}

#[derive(Clone, Debug, PartialEq, Eq)]
pub enum Error {
    /// A required environment variable is not set.
    MissingVariable { name: Variable },
    /// The operating system is not one a toolchain is built for.
    UnsupportedOs { name: String },
    /// The processor architecture is not one a toolchain is built for.
    UnsupportedArch { name: String },
    /// No version was given and no pin file names one.
    MissingVersion { pin_file: String },
    /// The version has no directory in the store.
    NotInstalled { version: String },
    /// A link could not be removed, created or followed.
    Link { path: String, fault: LinkFault },
    /// A directory could not be created or removed.
    Dir { path: String, fault: DirFault },
}

/// An `Error` with its strings as character sequences.
pub enum ErrorView {
    MissingVariable { name: Variable },
    UnsupportedOs { name: Seq<char> },
    UnsupportedArch { name: Seq<char> },
    MissingVersion { pin_file: Seq<char> },
    NotInstalled { version: Seq<char> },
    Link { path: Seq<char>, fault: LinkFault },
    Dir { path: Seq<char>, fault: DirFault },
}

impl View for Error {
    type V = ErrorView;

    open spec fn view(&self) -> ErrorView {
        match *self {
            Error::MissingVariable { name } => ErrorView::MissingVariable { name },
            Error::UnsupportedOs { name } => ErrorView::UnsupportedOs { name: name@ },
            Error::UnsupportedArch { name } => ErrorView::UnsupportedArch { name: name@ },
            Error::MissingVersion { pin_file } => ErrorView::MissingVersion { pin_file: pin_file@ },
            Error::NotInstalled { version } => ErrorView::NotInstalled { version: version@ },
            Error::Link { path, fault } => ErrorView::Link { path: path@, fault },
            Error::Dir { path, fault } => ErrorView::Dir { path: path@, fault },
        }
    }
}

/// The view of a result that carries a string.
pub open spec fn outcome(r: Result<String, Error>) -> Result<Seq<char>, ErrorView> {
    match r {
        Ok(s) => Ok(s@),
        Err(e) => Err(e@),
    }
}

/// The view of a string that may be absent.
pub open spec fn maybe(o: Option<&str>) -> Option<Seq<char>> {
    match o {
        Some(s) => Some(s@),
        None => None,
    }
}

/// The name of a variable as the shell writes it.
pub open spec fn variable_name(v: Variable) -> Seq<char> {
    match v {
        Variable::IcicleHome => "ICICLE_HOME"@,
        Variable::ShellPath => "ICICLE_SHELL_PATH"@,
        Variable::Home => "HOME"@,
    }
}

/// `text` between single quotes, with `before` in front and `after` behind.
pub open spec fn quoted(before: Seq<char>, text: Seq<char>, after: Seq<char>) -> Seq<char> {
    before + "'"@ + text + "'"@ + after
}

/// The one line shown for a failure.
pub open spec fn message_of(e: ErrorView) -> Seq<char> {
    match e {
        ErrorView::MissingVariable { name } => quoted(
            ""@,
            variable_name(name),
            " environment variable not set. Did you setup your shell to 'eval $(icicle env)'?"@,
        ),
        ErrorView::UnsupportedOs { name } => quoted("Unsupported OS "@, name, ""@),
        ErrorView::UnsupportedArch { name } => quoted("Unsupported architecture "@, name, ""@),
        ErrorView::MissingVersion { pin_file } => quoted(
            "No version specified. Please specify a version or create a "@,
            pin_file,
            " file with the version you want to use."@,
        ),
        ErrorView::NotInstalled { version } => quoted(
            ""@,
            version,
            " is not a valid toolchain directory."@,
        ),
        ErrorView::Link { path, fault } => quoted(
            match fault {
                LinkFault::Remove => "Failed to remove existing symlink "@,
                LinkFault::Create => "Failed to create symlink "@,
                LinkFault::Replace => "Failed to replace symlink "@,
                LinkFault::Resolve => "Failed to resolve "@,
            },
            path,
            ""@,
        ),
        ErrorView::Dir { path, fault } => quoted(
            match fault {
                DirFault::Create => "Failed to create directory "@,
                DirFault::Remove => "Failed to remove directory "@,
            },
            path,
            ""@,
        ),
    }
}

/// Puts `text` between single quotes, `before` in front and `after` behind.
pub fn quote(before: &str, text: &str, after: &str) -> (out: String)
    ensures
        out@ == quoted(before@, text@, after@),
{
    let mut out = catenate(before, "'");
    out.append(text);
    out.append("'");
    out.append(after);
    out
}

impl Variable {
    /// The name of the variable as the shell writes it.
    pub fn name(&self) -> (out: &'static str)
        ensures
            out@ == variable_name(*self),
    {
        match self {
            Variable::IcicleHome => "ICICLE_HOME",
            Variable::ShellPath => "ICICLE_SHELL_PATH",
            Variable::Home => "HOME",
        }
    }
}

impl Error {
    /// The one line shown to the user for this failure.
    pub fn message(&self) -> (out: String)
        ensures
            out@ == message_of(self@),
    {
        match self {
            Error::MissingVariable { name } => quote(
                "",
                name.name(),
                " environment variable not set. Did you setup your shell to 'eval $(icicle env)'?",
            ),
            Error::UnsupportedOs { name } => quote("Unsupported OS ", name.as_str(), ""),
            Error::UnsupportedArch { name } => quote(
                "Unsupported architecture ",
                name.as_str(),
                "",
            ),
            Error::MissingVersion { pin_file } => quote(
                "No version specified. Please specify a version or create a ",
                pin_file.as_str(),
                " file with the version you want to use.",
            ),
            Error::NotInstalled { version } => quote(
                "",
                version.as_str(),
                " is not a valid toolchain directory.",
            ),
            Error::Link { path, fault } => {
                let before = match fault {
                    LinkFault::Remove => "Failed to remove existing symlink ",
                    LinkFault::Create => "Failed to create symlink ",
                    LinkFault::Replace => "Failed to replace symlink ",
                    LinkFault::Resolve => "Failed to resolve ",
                };
                quote(before, path.as_str(), "")
            },
            Error::Dir { path, fault } => {
                let before = match fault {
                    DirFault::Create => "Failed to create directory ",
                    DirFault::Remove => "Failed to remove directory ",
                };
                quote(before, path.as_str(), "")
            },
        }
    }
}

} // verus!
