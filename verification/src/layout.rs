//! Where things lie below the root directory, and the context every
//! command works in.

use vstd::prelude::*;
use vstd::string::*;
use crate::error::{maybe, Error, ErrorView, Variable};
use crate::text::{catenate, is_token, same};

verus! {

/// `name` below `base`. A `name` that starts at the root stands for
/// itself; otherwise one `/` separates the two, unless `base` is empty or
/// already ends in one.
pub open spec fn join(base: Seq<char>, name: Seq<char>) -> Seq<char> {
    if name.len() > 0 && name[0] == '/' {
        name
    } else if base.len() == 0 || base.last() == '/' {
        base + name
    } else {
        base + seq!['/'] + name
    }
}

/// The tag a toolchain build carries for an operating system, if there is
/// a build for it.
pub open spec fn os_tag(os: Seq<char>) -> Option<Seq<char>> {
    if os == "linux"@ {
        Some("linux"@)
    } else if os == "macos"@ {
        Some("darwin"@)
    } else {
        None
    }
}

/// The tag a toolchain build carries for a processor architecture, if
/// there is a build for it.
pub open spec fn arch_tag(arch: Seq<char>) -> Option<Seq<char>> {
    if arch == "x86_64"@ || arch == "amd64"@ {
        Some("x64"@)
    } else if arch == "aarch64"@ {
        Some("arm64"@)
    } else {
        None
    }
}

/// The context of one invocation: the root paths and the platform, settled
/// once and handed to every command.
#[derive(Clone, Debug, PartialEq, Eq)]
pub struct Environment {
    pub icicle_home: String,
    pub aliases_home: String,
    pub toolchain_home: String,
    pub caches_home: String,
    pub shell_path: String,
    pub os: String,
    pub arch: String,
    pub toolchain_file: String,
}

/// An `Environment` with its strings as character sequences.
pub struct EnvironmentView {
    pub icicle_home: Seq<char>,
    pub aliases_home: Seq<char>,
    pub toolchain_home: Seq<char>,
    pub caches_home: Seq<char>,
    pub shell_path: Seq<char>,
    pub os: Seq<char>,
    pub arch: Seq<char>,
    pub toolchain_file: Seq<char>,
}

impl View for Environment {
    type V = EnvironmentView;

    open spec fn view(&self) -> EnvironmentView {
        EnvironmentView {
            icicle_home: self.icicle_home@,
            aliases_home: self.aliases_home@,
            toolchain_home: self.toolchain_home@,
            caches_home: self.caches_home@,
            shell_path: self.shell_path@,
            os: self.os@,
            arch: self.arch@,
            toolchain_file: self.toolchain_file@,
        }
    }
}

impl EnvironmentView {
    /// The directory of a version in the store. Nothing says it exists.
    pub open spec fn toolchain_path(self, version: Seq<char>) -> Seq<char> {
        join(self.toolchain_home, version)
    }

    /// The link that stands for an alias.
    pub open spec fn alias_path(self, name: Seq<char>) -> Seq<char> {
        join(self.aliases_home, name)
    }

    /// The link that stands for the default version.
    pub open spec fn default_alias(self) -> Seq<char> {
        self.alias_path("default"@)
    }

    /// The three directories lie below the root under their fixed names.
    pub open spec fn laid_out(self) -> bool {
        &&& self.aliases_home == join(self.icicle_home, "aliases"@)
        &&& self.toolchain_home == join(self.icicle_home, "toolchains"@)
        &&& self.caches_home == join(self.icicle_home, "caches"@)
    }
}

/// The context for a root directory, a session link and platform tags.
pub open spec fn context(
    home: Seq<char>,
    shell_path: Seq<char>,
    os: Seq<char>,
    arch: Seq<char>,
) -> EnvironmentView {
    EnvironmentView {
        icicle_home: home,
        aliases_home: join(home, "aliases"@),
        toolchain_home: join(home, "toolchains"@),
        caches_home: join(home, "caches"@),
        shell_path,
        os,
        arch,
        toolchain_file: ".icicle-toolchain"@,
    }
}

/// What `Environment::create` makes of what the process was started with:
/// the first thing that is missing or unsupported, in the order root,
/// session link, operating system, architecture; else the context.
pub open spec fn created(
    home: Option<Seq<char>>,
    shell_path: Option<Seq<char>>,
    os: Seq<char>,
    arch: Seq<char>,
) -> Result<EnvironmentView, ErrorView> {
    if home is None {
        Err(ErrorView::MissingVariable { name: Variable::IcicleHome })
    } else if shell_path is None {
        Err(ErrorView::MissingVariable { name: Variable::ShellPath })
    } else if os_tag(os) is None {
        Err(ErrorView::UnsupportedOs { name: os })
    } else if arch_tag(arch) is None {
        Err(ErrorView::UnsupportedArch { name: arch })
    } else {
        Ok(context(home->0, shell_path->0, os_tag(os)->0, arch_tag(arch)->0))
    }
}

/// The root directory a new shell is set up with: the one that is set,
/// else `.icicle` in the user's home directory.
pub open spec fn root_for(home: Option<Seq<char>>, user_home: Option<Seq<char>>) -> Result<
    Seq<char>,
    ErrorView,
> {
    match (home, user_home) {
        (Some(h), _) => Ok(h),
        (None, Some(u)) => Ok(join(u, ".icicle"@)),
        (None, None) => Err(ErrorView::MissingVariable { name: Variable::Home }),
    }
}

/// The view of a result that carries a context.
pub open spec fn context_outcome(r: Result<Environment, Error>) -> Result<
    EnvironmentView,
    ErrorView,
> {
    match r {
        Ok(env) => Ok(env@),
        Err(e) => Err(e@),
    }
}

/// `base` as the front of every path below it: with a `/` at its end,
/// unless it is empty.
pub open spec fn stem(base: Seq<char>) -> Seq<char> {
    if base.len() == 0 || base.last() == '/' {
        base
    } else {
        base + seq!['/']
    }
}

/// A name that does not start at the root is appended to the stem.
pub proof fn lemma_join_relative(base: Seq<char>, name: Seq<char>)
    requires
        name.len() == 0 || name[0] != '/',
    ensures
        join(base, name) == stem(base) + name,
{
    if !(base.len() == 0 || base.last() == '/') {
        assert(base + seq!['/'] + name =~= stem(base) + name);
    }
}

/// Below a context that is laid out, a version's directory is the store's
/// root, a `/` and the version, and an alias is the aliases' root, a `/`
/// and its name.
pub proof fn lemma_paths_below(env: EnvironmentView, name: Seq<char>)
    requires
        env.laid_out(),
        is_token(name),
    ensures
        env.toolchain_path(name) == env.toolchain_home + seq!['/'] + name,
        env.alias_path(name) == env.aliases_home + seq!['/'] + name,
        env.toolchain_home == stem(env.icicle_home) + "toolchains"@,
        env.aliases_home == stem(env.icicle_home) + "aliases"@,
        env.caches_home == stem(env.icicle_home) + "caches"@,
{
    reveal_strlit("toolchains");
    reveal_strlit("aliases");
    reveal_strlit("caches");
    lemma_join_relative(env.icicle_home, "toolchains"@);
    lemma_join_relative(env.icicle_home, "aliases"@);
    lemma_join_relative(env.icicle_home, "caches"@);
    assert(name[0] != '/') by {
        if name[0] == '/' {
            assert(name.contains('/'));
        }
    }
    assert(env.toolchain_home.last() == 's');
    assert(env.aliases_home.last() == 's');
}

/// Two versions with one directory are one version.
pub proof fn lemma_toolchain_path_injective(env: EnvironmentView, a: Seq<char>, b: Seq<char>)
    requires
        env.laid_out(),
        is_token(a),
        is_token(b),
        env.toolchain_path(a) == env.toolchain_path(b),
    ensures
        a == b,
{
    lemma_paths_below(env, a);
    lemma_paths_below(env, b);
    let front = env.toolchain_home + seq!['/'];
    assert((front + a).skip(front.len() as int) =~= a);
    assert((front + b).skip(front.len() as int) =~= b);
}

/// No alias lies where a version's directory lies.
pub proof fn lemma_alias_apart_from_store(env: EnvironmentView, name: Seq<char>, v: Seq<char>)
    requires
        env.laid_out(),
        is_token(name),
        is_token(v),
    ensures
        env.alias_path(name) != env.toolchain_path(v),
{
    reveal_strlit("toolchains");
    reveal_strlit("aliases");
    lemma_paths_below(env, name);
    lemma_paths_below(env, v);
    let at = stem(env.icicle_home).len() as int;
    assert(env.alias_path(name)[at] == 'a');
    assert(env.toolchain_path(v)[at] == 't');
}

/// Joins `name` to `base` as a path.
pub fn join_path(base: &str, name: &str) -> (out: String)
    ensures
        out@ == join(base@, name@),
{
    let n = base.unicode_len();
    if name.unicode_len() > 0 && name.get_char(0) == '/' {
        String::from_str(name)
    } else if n == 0 || base.get_char(n - 1) == '/' {
        catenate(base, name)
    } else {
        proof {
            reveal_strlit("/");
            assert("/"@ =~= seq!['/']);
        }
        let mut out = catenate(base, "/");
        out.append(name);
        out
    }
}

/// The build tag for an operating system as the platform names it.
pub fn tag_os(os: &str) -> (tag: Option<&'static str>)
    ensures
        maybe(tag) == os_tag(os@),
{
    if same(os, "linux") {
        Some("linux")
    } else if same(os, "macos") {
        Some("darwin")
    } else {
        None
    }
}

/// The build tag for a processor architecture as the platform names it.
pub fn tag_arch(arch: &str) -> (tag: Option<&'static str>)
    ensures
        maybe(tag) == arch_tag(arch@),
{
    if same(arch, "x86_64") || same(arch, "amd64") {
        Some("x64")
    } else if same(arch, "aarch64") {
        Some("arm64")
    } else {
        None
    }
}

/// The root directory for a shell that is being set up. `home` is the
/// value of `ICICLE_HOME`, `user_home` that of `HOME`, each absent where
/// the variable is not set.
pub fn default_root(home: Option<&str>, user_home: Option<&str>) -> (r: Result<String, Error>)
    ensures
        crate::error::outcome(r) == root_for(maybe(home), maybe(user_home)),
{
    match home {
        Some(h) => Ok(String::from_str(h)),
        None => match user_home {
            Some(u) => Ok(join_path(u, ".icicle")),
            None => Err(Error::MissingVariable { name: Variable::Home }),
        },
    }
}

impl Environment {
    /// The context for a root directory and a session link, with the
    /// platform tags taken as they are.
    pub fn at(home: &str, shell_path: &str, os: &str, arch: &str) -> (env: Environment)
        ensures
            env@ == context(home@, shell_path@, os@, arch@),
            env@.laid_out(),
    {
        Environment {
            icicle_home: String::from_str(home),
            aliases_home: join_path(home, "aliases"),
            toolchain_home: join_path(home, "toolchains"),
            caches_home: join_path(home, "caches"),
            shell_path: String::from_str(shell_path),
            os: String::from_str(os),
            arch: String::from_str(arch),
            toolchain_file: String::from_str(".icicle-toolchain"),
        }
    }

    /// Settles the context of an invocation. `home` and `shell_path` are
    /// the values of `ICICLE_HOME` and `ICICLE_SHELL_PATH`, absent where
    /// the variable is not set; `os` and `arch` are the platform's own
    /// names for itself.
    pub fn create(home: Option<&str>, shell_path: Option<&str>, os: &str, arch: &str) -> (r:
        Result<Environment, Error>)
        ensures
            context_outcome(r) == created(maybe(home), maybe(shell_path), os@, arch@),
            r matches Ok(env) ==> env@.laid_out(),
    {
        let home = match home {
            Some(h) => h,
            None => {
                return Err(Error::MissingVariable { name: Variable::IcicleHome });
            },
        };
        let shell_path = match shell_path {
            Some(s) => s,
            None => {
                return Err(Error::MissingVariable { name: Variable::ShellPath });
            },
        };
        let os_name = match tag_os(os) {
            Some(t) => t,
            None => {
                return Err(Error::UnsupportedOs { name: String::from_str(os) });
            },
        };
        let arch_name = match tag_arch(arch) {
            Some(t) => t,
            None => {
                return Err(Error::UnsupportedArch { name: String::from_str(arch) });
            },
        };
        Ok(Environment::at(home, shell_path, os_name, arch_name))
    }

    /// The directory of a version in the store. Nothing is looked up.
    pub fn toolchain_path(&self, version: &str) -> (out: String)
        ensures
            out@ == self@.toolchain_path(version@),
    {
        join_path(self.toolchain_home.as_str(), version)
    }

    /// The link that stands for an alias.
    pub fn alias_path(&self, name: &str) -> (out: String)
        ensures
            out@ == self@.alias_path(name@),
    {
        join_path(self.aliases_home.as_str(), name)
    }

    /// The link that stands for the default version.
    pub fn default_alias(&self) -> (out: String)
        ensures
            out@ == self@.default_alias(),
    {
        self.alias_path("default")
    }

    /// Where the pin file lies for a working directory.
    pub fn pin_file_path(&self, cwd: &str) -> (out: String)
        ensures
            out@ == join(cwd@, self@.toolchain_file),
    {
        join_path(cwd, self.toolchain_file.as_str())
    }

    /// The directories every command expects to be there: the root, then
    /// those of the aliases, the toolchains and the session links.
    pub fn directories(&self) -> (out: Vec<String>)
        ensures
            out.deep_view() == seq![
                self@.icicle_home,
                self@.aliases_home,
                self@.toolchain_home,
                self@.caches_home,
            ],
    {
        let mut out: Vec<String> = Vec::new();
        out.push(self.icicle_home.clone());
        out.push(self.aliases_home.clone());
        out.push(self.toolchain_home.clone());
        out.push(self.caches_home.clone());
        assert(out.deep_view() =~= seq![
            self@.icicle_home,
            self@.aliases_home,
            self@.toolchain_home,
            self@.caches_home,
        ]);
        out
    }
}

} // verus!
