//! The session link: the one link a shell's `PATH` is built from.

use vstd::prelude::*;
use vstd::string::*;
use crate::error::{maybe, Error, ErrorView};
use crate::ident::{is_session_id, random_id};
use crate::layout::{default_root, join, join_path, root_for, Environment, EnvironmentView};
use crate::text::catenate;
use crate::step::{plan_outcome, Kind, Step, StepView};

verus! {

/// The steps that make `link` point at `target`: a link that is there is
/// removed first, then the new one is created.
pub open spec fn swap(link: Seq<char>, target: Seq<char>, present: bool) -> Seq<StepView> {
    if present {
        seq![StepView::RemoveLink { path: link }, StepView::CreateLink { target, link }]
    } else {
        seq![StepView::CreateLink { target, link }]
    }
}

/// What a session link points at.
#[derive(Clone, Debug, PartialEq, Eq)]
pub enum Pointer {
    /// The directory of a version in the store.
    Toolchain { version: String },
    /// An alias, by name.
    Alias { name: String },
}

/// A `Pointer` with its string as a character sequence.
pub enum PointerView {
    Toolchain { version: Seq<char> },
    Alias { name: Seq<char> },
}

impl View for Pointer {
    type V = PointerView;

    open spec fn view(&self) -> PointerView {
        match *self {
            Pointer::Toolchain { version } => PointerView::Toolchain { version: version@ },
            Pointer::Alias { name } => PointerView::Alias { name: name@ },
        }
    }
}

impl PointerView {
    /// The path a link holds that points here.
    pub open spec fn path(self, env: EnvironmentView) -> Seq<char> {
        match self {
            PointerView::Toolchain { version } => env.toolchain_path(version),
            PointerView::Alias { name } => env.alias_path(name),
        }
    }
}

/// The view of a result that carries a pointer.
pub open spec fn pointer_outcome(r: Result<Pointer, Error>) -> Result<PointerView, ErrorView> {
    match r {
        Ok(p) => Ok(p@),
        Err(e) => Err(e@),
    }
}

/// What `use` points the session link at: the version's directory in the
/// store where that path leads anywhere, else the alias of that name. What
/// was picked has to be a directory.
pub open spec fn selected(version: Seq<char>, toolchain: Kind, alias: Kind) -> Result<
    PointerView,
    ErrorView,
> {
    if toolchain == Kind::Directory {
        Ok(PointerView::Toolchain { version })
    } else if toolchain == Kind::Missing && alias == Kind::Directory {
        Ok(PointerView::Alias { name: version })
    } else {
        Err(ErrorView::NotInstalled { version })
    }
}

/// The steps that make `link` point at `target` without a moment at which
/// nothing stands at `link`: the new link is created at `staging`, then
/// moved over the old one.
pub open spec fn atomic_swap(link: Seq<char>, target: Seq<char>, staging: Seq<char>) -> Seq<
    StepView,
> {
    seq![
        StepView::CreateLink { target, link: staging },
        StepView::Rename { from: staging, to: link },
    ]
}

/// The steps of `use`.
pub open spec fn use_steps(
    env: EnvironmentView,
    version: Seq<char>,
    toolchain: Kind,
    alias: Kind,
    present: bool,
) -> Result<Seq<StepView>, ErrorView> {
    match selected(version, toolchain, alias) {
        Ok(pointer) => Ok(swap(env.shell_path, pointer.path(env), present)),
        Err(e) => Err(e),
    }
}

/// Plans the swap of a link. `present` says whether a link stands at
/// `link` now, wherever it points.
pub fn point(link: &str, target: &str, present: bool) -> (steps: Vec<Step>)
    ensures
        steps.deep_view() == swap(link@, target@, present),
{
    let mut steps: Vec<Step> = Vec::new();
    if present {
        steps.push(Step::RemoveLink { path: String::from_str(link) });
    }
    steps.push(
        Step::CreateLink { target: String::from_str(target), link: String::from_str(link) },
    );
    assert(steps.deep_view() =~= swap(link@, target@, present));
    steps
}

/// Plans the swap of a link that leaves no gap: `staging` is a path
/// beside `link` at which nothing stands.
pub fn point_atomically(link: &str, target: &str, staging: &str) -> (steps: Vec<Step>)
    ensures
        steps.deep_view() == atomic_swap(link@, target@, staging@),
{
    let mut steps: Vec<Step> = Vec::new();
    steps.push(
        Step::CreateLink { target: String::from_str(target), link: String::from_str(staging) },
    );
    steps.push(Step::Rename { from: String::from_str(staging), to: String::from_str(link) });
    assert(steps.deep_view() =~= atomic_swap(link@, target@, staging@));
    steps
}

/// Picks what `use` points the session link at. `toolchain` and `alias`
/// say what the version's path in the store and the alias of that name
/// lead to.
pub fn select(version: &str, toolchain: Kind, alias: Kind) -> (r: Result<Pointer, Error>)
    ensures
        pointer_outcome(r) == selected(version@, toolchain, alias),
{
    match toolchain {
        Kind::Directory => Ok(Pointer::Toolchain { version: String::from_str(version) }),
        Kind::Other => Err(Error::NotInstalled { version: String::from_str(version) }),
        Kind::Missing => match alias {
            Kind::Directory => Ok(Pointer::Alias { name: String::from_str(version) }),
            _ => Err(Error::NotInstalled { version: String::from_str(version) }),
        },
    }
}

impl Pointer {
    /// The path a link holds that points here.
    pub fn path(&self, env: &Environment) -> (out: String)
        ensures
            out@ == self@.path(env@),
    {
        match self {
            Pointer::Toolchain { version } => env.toolchain_path(version.as_str()),
            Pointer::Alias { name } => env.alias_path(name.as_str()),
        }
    }
}

/// Plans `use`: the session link is to point at `version`. `present` says
/// whether the session link stands now.
pub fn use_version(
    env: &Environment,
    version: &str,
    toolchain: Kind,
    alias: Kind,
    present: bool,
) -> (r: Result<Vec<Step>, Error>)
    ensures
        plan_outcome(r) == use_steps(env@, version@, toolchain, alias, present),
{
    match select(version, toolchain, alias) {
        Ok(pointer) => {
            let target = pointer.path(env);
            Ok(point(env.shell_path.as_str(), target.as_str(), present))
        },
        Err(e) => Err(e),
    }
}

/// A session that is being set up: the link a new shell gets for itself.
#[derive(Clone, Debug, PartialEq, Eq)]
pub struct Session {
    /// The root directory.
    pub home: String,
    /// The directory the session links lie in.
    pub caches_home: String,
    /// The session link of the new shell.
    pub link: String,
    /// What the link points at: the default alias.
    pub target: String,
}

/// A `Session` with its strings as character sequences.
pub struct SessionView {
    pub home: Seq<char>,
    pub caches_home: Seq<char>,
    pub link: Seq<char>,
    pub target: Seq<char>,
}

impl View for Session {
    type V = SessionView;

    open spec fn view(&self) -> SessionView {
        SessionView {
            home: self.home@,
            caches_home: self.caches_home@,
            link: self.link@,
            target: self.target@,
        }
    }
}

/// The name of the session link for an identifier.
pub open spec fn session_name(id: Seq<char>) -> Seq<char> {
    "icicle_"@ + id
}

/// The session for a root directory and an identifier: its link lies in
/// the directory of the session links under that identifier's name and
/// points at the default alias.
pub open spec fn session_at(home: Seq<char>, id: Seq<char>) -> SessionView {
    SessionView {
        home,
        caches_home: join(home, "caches"@),
        link: join(join(home, "caches"@), session_name(id)),
        target: join(join(home, "aliases"@), "default"@),
    }
}

/// The session for what the process was started with.
pub open spec fn opened(home: Option<Seq<char>>, user_home: Option<Seq<char>>, id: Seq<char>)
    -> Result<SessionView, ErrorView> {
    match root_for(home, user_home) {
        Ok(root) => Ok(session_at(root, id)),
        Err(e) => Err(e),
    }
}

/// The steps that set a session up: the directory of the session links is
/// made, then the link is swapped in.
pub open spec fn opening(s: SessionView, present: bool) -> Seq<StepView> {
    seq![StepView::CreateDir { path: s.caches_home }] + swap(s.link, s.target, present)
}

/// The lines a shell evaluates to enter a session.
pub open spec fn exports(s: SessionView) -> Seq<Seq<char>> {
    seq![
        "export ICICLE_SHELL_PATH="@ + s.link,
        "export ICICLE_HOME="@ + s.home,
        "export PATH="@ + join(s.link, "oss-cad-suite/bin"@) + ":$PATH"@,
        "export PATH="@ + join(s.link, "oss-cad-suite/libexec"@) + ":$PATH"@,
    ]
}

/// The view of a result that carries a session.
pub open spec fn session_outcome(r: Result<Session, Error>) -> Result<SessionView, ErrorView> {
    match r {
        Ok(s) => Ok(s@),
        Err(e) => Err(e@),
    }
}

/// Lays out the session for an identifier. `home` is the value of
/// `ICICLE_HOME`, `user_home` that of `HOME`, each absent where the
/// variable is not set.
pub fn open_session(home: Option<&str>, user_home: Option<&str>, id: &str) -> (r: Result<
    Session,
    Error,
>)
    ensures
        session_outcome(r) == opened(maybe(home), maybe(user_home), id@),
{
    match default_root(home, user_home) {
        Ok(root) => {
            let caches_home = join_path(root.as_str(), "caches");
            let aliases_home = join_path(root.as_str(), "aliases");
            let name = catenate("icicle_", id);
            let link = join_path(caches_home.as_str(), name.as_str());
            let target = join_path(aliases_home.as_str(), "default");
            Ok(Session { home: root, caches_home, link, target })
        },
        Err(e) => Err(e),
    }
}

/// Lays out a session under a fresh identifier, so that no two shells
/// share a link. Which identifier is drawn is not said: the session is
/// that of some identifier of the right shape.
pub fn new_session(home: Option<&str>, user_home: Option<&str>) -> (r: Result<Session, Error>)
    ensures
        match root_for(maybe(home), maybe(user_home)) {
            Ok(root) => r is Ok && exists|id: Seq<char>|
                is_session_id(id) && r->Ok_0@ == #[trigger] session_at(root, id),
            Err(e) => r is Err && r->Err_0@ == e,
        },
{
    let id = random_id();
    let r = open_session(home, user_home, id.as_str());
    proof {
        if let Ok(root) = root_for(maybe(home), maybe(user_home)) {
            assert(r->Ok_0@ == session_at(root, id@));
        }
    }
    r
}

impl Session {
    /// Plans the setting up of this session. `present` says whether a link
    /// stands where the session link is to go.
    pub fn steps(&self, present: bool) -> (steps: Vec<Step>)
        ensures
            steps.deep_view() == opening(self@, present),
    {
        let mut steps: Vec<Step> = Vec::new();
        steps.push(Step::CreateDir { path: self.caches_home.clone() });
        if present {
            steps.push(Step::RemoveLink { path: self.link.clone() });
        }
        steps.push(Step::CreateLink { target: self.target.clone(), link: self.link.clone() });
        assert(steps.deep_view() =~= opening(self@, present));
        steps
    }

    /// The lines the new shell evaluates: where its session link and the
    /// root directory are, and the two directories of the toolchain that
    /// go in front of `PATH`.
    pub fn exports(&self) -> (lines: Vec<String>)
        ensures
            lines.deep_view() == exports(self@),
    {
        let mut lines: Vec<String> = Vec::new();
        lines.push(catenate("export ICICLE_SHELL_PATH=", self.link.as_str()));
        lines.push(catenate("export ICICLE_HOME=", self.home.as_str()));
        let mut bin = catenate(
            "export PATH=",
            join_path(self.link.as_str(), "oss-cad-suite/bin").as_str(),
        );
        bin.append(":$PATH");
        lines.push(bin);
        let mut libexec = catenate(
            "export PATH=",
            join_path(self.link.as_str(), "oss-cad-suite/libexec").as_str(),
        );
        libexec.append(":$PATH");
        lines.push(libexec);
        assert(lines.deep_view() =~= exports(self@));
        lines
    }
}

} // verus!
