use icicle::alias::{resolve_default, set_default};
use icicle::current::current;
use icicle::error::{DirFault, Error, LinkFault, Variable};
use icicle::install::{download_url, install, Install};
use icicle::layout::{default_root, join_path, tag_arch, tag_os, Environment};
use icicle::resolver::resolve;
use icicle::session::{
    new_session, open_session, point, point_atomically, select, use_version, Pointer,
};
use icicle::step::{Kind, Step};
use icicle::store::{installed, is_marked, list, remove, Entry, Listed};
use icicle::text::{catenate, remove_char, same, slice, space, stands_at, strip_leading, token, trim};

fn env() -> Environment {
    Environment::at("/home/u/.icicle", "/home/u/.icicle/caches/icicle_1", "linux", "x64")
}

fn s(text: &str) -> String {
    text.to_string()
}

// ---- text

#[test]
fn trim_takes_white_space_off_both_ends() {
    assert_eq!(trim("  2023-06-10\n"), "2023-06-10");
    assert_eq!(trim("\t\r\n v1 \u{3000}\u{a0}"), "v1");
    assert_eq!(trim("a b"), "a b");
    assert_eq!(trim(""), "");
    assert_eq!(trim(" \n\t "), "");
    assert_eq!(trim("x"), "x");
}

#[test]
fn trim_agrees_with_std_on_every_white_space_character() {
    for code in 0u32..0x3100 {
        if let Some(c) = char::from_u32(code) {
            assert_eq!(space(c), c.is_whitespace(), "U+{:04X}", code);
            let text = format!("{}a{}", c, c);
            assert_eq!(trim(&text), text.trim());
        }
    }
}

#[test]
fn trim_keeps_characters_beyond_ascii() {
    assert_eq!(trim(" é→\u{1F600} "), "é→\u{1F600}");
}

#[test]
fn strip_leading_takes_every_leading_copy() {
    assert_eq!(strip_leading("/r/t/2023", "/r/t/"), "2023");
    assert_eq!(strip_leading("ababc", "ab"), "c");
    assert_eq!(strip_leading("abc", "x"), "abc");
    assert_eq!(strip_leading("abc", ""), "abc");
    assert_eq!(strip_leading("abab", "ab"), "");
    assert_eq!(strip_leading("ab", "abc"), "ab");
    assert_eq!(strip_leading("", "a"), "");
}

#[test]
fn strip_leading_agrees_with_std() {
    for (text, prefix) in [("/a/b/c", "/a/"), ("xxxy", "x"), ("xxxy", "xx"), ("héhé!", "hé")] {
        assert_eq!(strip_leading(text, prefix), text.trim_start_matches(prefix));
    }
}

#[test]
fn remove_char_leaves_every_occurrence_out() {
    assert_eq!(remove_char("2023-01-05", '-'), "20230105");
    assert_eq!(remove_char("---", '-'), "");
    assert_eq!(remove_char("abc", '-'), "abc");
    assert_eq!(remove_char("", '-'), "");
}

#[test]
fn small_text_helpers() {
    assert_eq!(catenate("ab", "cd"), "abcd");
    assert_eq!(slice("héllo", 1, 3), "él");
    assert_eq!(slice("abc", 3, 3), "");
    assert!(same("abc", "abc"));
    assert!(!same("abc", "abd"));
    assert!(!same("abc", "ab"));
    assert!(same("", ""));
    assert!(stands_at("xxab", 2, "ab"));
    assert!(!stands_at("xxab", 1, "ab"));
    assert!(!stands_at("xxab", 3, "ab"));
    assert!(stands_at("xxab", 4, ""));
    assert!(token("2023-01-05"));
    assert!(!token(""));
    assert!(!token("a/b"));
    assert!(!token("/"));
}

// ---- resolver

#[test]
fn resolve_prefers_the_explicit_argument() {
    assert_eq!(resolve(Some("2023-01-05"), None, ".icicle-toolchain"), Ok(s("2023-01-05")));
    assert_eq!(
        resolve(Some("2023-01-05"), Some("2023-06-10\n"), ".icicle-toolchain"),
        Ok(s("2023-01-05"))
    );
    // the argument is taken as it is written
    assert_eq!(resolve(Some(" x "), Some("y"), ".icicle-toolchain"), Ok(s(" x ")));
}

#[test]
fn resolve_falls_back_to_the_trimmed_pin_file() {
    assert_eq!(resolve(None, Some("  2023-06-10\n"), ".icicle-toolchain"), Ok(s("2023-06-10")));
    assert_eq!(resolve(None, Some(""), ".icicle-toolchain"), Ok(s("")));
}

#[test]
fn resolve_without_argument_or_pin_file_fails() {
    let r = resolve(None, None, ".icicle-toolchain");
    assert_eq!(r, Err(Error::MissingVersion { pin_file: s(".icicle-toolchain") }));
    assert_eq!(
        r.unwrap_err().message(),
        "No version specified. Please specify a version or create a '.icicle-toolchain' file \
         with the version you want to use."
    );
}

// ---- layout

#[test]
fn join_path_follows_the_path_rules() {
    assert_eq!(join_path("/a", "b"), "/a/b");
    assert_eq!(join_path("/a/", "b"), "/a/b");
    assert_eq!(join_path("", "b"), "b");
    assert_eq!(join_path("/a", "/b"), "/b");
    assert_eq!(join_path("/a", ""), "/a/");
    assert_eq!(join_path("/", "b"), "/b");
    assert_eq!(join_path("a", "b/c"), "a/b/c");
}

#[test]
fn join_path_agrees_with_std() {
    for (base, name) in [("/a", "b"), ("/a/", "b"), ("", "b"), ("/a", "/b"), ("/a", ""), ("a", "b/c")]
    {
        let expected = std::path::Path::new(base).join(name);
        assert_eq!(join_path(base, name), expected.to_str().unwrap());
    }
}

#[test]
fn platform_tags() {
    assert_eq!(tag_os("linux"), Some("linux"));
    assert_eq!(tag_os("macos"), Some("darwin"));
    assert_eq!(tag_os("windows"), None);
    assert_eq!(tag_os(""), None);
    assert_eq!(tag_arch("x86_64"), Some("x64"));
    assert_eq!(tag_arch("amd64"), Some("x64"));
    assert_eq!(tag_arch("aarch64"), Some("arm64"));
    assert_eq!(tag_arch("riscv64"), None);
}

#[test]
fn create_lays_the_context_out() {
    let env = Environment::create(Some("/h"), Some("/h/caches/icicle_x"), "macos", "aarch64")
        .unwrap();
    assert_eq!(env.icicle_home, "/h");
    assert_eq!(env.aliases_home, "/h/aliases");
    assert_eq!(env.toolchain_home, "/h/toolchains");
    assert_eq!(env.caches_home, "/h/caches");
    assert_eq!(env.shell_path, "/h/caches/icicle_x");
    assert_eq!(env.os, "darwin");
    assert_eq!(env.arch, "arm64");
    assert_eq!(env.toolchain_file, ".icicle-toolchain");
    assert_eq!(env.directories(), vec![s("/h"), s("/h/aliases"), s("/h/toolchains"), s("/h/caches")]);
}

#[test]
fn create_reports_what_is_missing_first() {
    assert_eq!(
        Environment::create(None, None, "plan9", "z80"),
        Err(Error::MissingVariable { name: Variable::IcicleHome })
    );
    assert_eq!(
        Environment::create(Some("/h"), None, "plan9", "z80"),
        Err(Error::MissingVariable { name: Variable::ShellPath })
    );
    assert_eq!(
        Environment::create(Some("/h"), Some("/s"), "plan9", "z80"),
        Err(Error::UnsupportedOs { name: s("plan9") })
    );
    assert_eq!(
        Environment::create(Some("/h"), Some("/s"), "linux", "z80"),
        Err(Error::UnsupportedArch { name: s("z80") })
    );
}

#[test]
fn paths_below_the_root() {
    let env = env();
    assert_eq!(env.toolchain_path("2023-01-05"), "/home/u/.icicle/toolchains/2023-01-05");
    assert_eq!(env.alias_path("default"), "/home/u/.icicle/aliases/default");
    assert_eq!(env.default_alias(), "/home/u/.icicle/aliases/default");
    assert_eq!(env.pin_file_path("/work/project"), "/work/project/.icicle-toolchain");
}

#[test]
fn default_root_prefers_the_root_that_is_set() {
    assert_eq!(default_root(Some("/opt/icicle"), Some("/home/u")), Ok(s("/opt/icicle")));
    assert_eq!(default_root(Some("/opt/icicle"), None), Ok(s("/opt/icicle")));
    assert_eq!(default_root(None, Some("/home/u")), Ok(s("/home/u/.icicle")));
    assert_eq!(default_root(None, None), Err(Error::MissingVariable { name: Variable::Home }));
}

// ---- observations

#[test]
fn kind_of_an_observation() {
    assert_eq!(Kind::of(false, false), Kind::Missing);
    assert_eq!(Kind::of(false, true), Kind::Missing);
    assert_eq!(Kind::of(true, true), Kind::Directory);
    assert_eq!(Kind::of(true, false), Kind::Other);
    assert!(Kind::Directory.is_dir() && Kind::Directory.is_present());
    assert!(!Kind::Other.is_dir() && Kind::Other.is_present());
    assert!(!Kind::Missing.is_dir() && !Kind::Missing.is_present());
    assert!(installed(Kind::Directory));
    assert!(!installed(Kind::Other));
    assert!(!installed(Kind::Missing));
}

// ---- session link

#[test]
fn point_removes_a_link_that_is_there_first() {
    assert_eq!(
        point("/l", "/t", true),
        vec![
            Step::RemoveLink { path: s("/l") },
            Step::CreateLink { target: s("/t"), link: s("/l") },
        ]
    );
    assert_eq!(point("/l", "/t", false), vec![Step::CreateLink { target: s("/t"), link: s("/l") }]);
}

#[test]
fn point_atomically_stages_then_moves() {
    assert_eq!(
        point_atomically("/l", "/t", "/l.new"),
        vec![
            Step::CreateLink { target: s("/t"), link: s("/l.new") },
            Step::Rename { from: s("/l.new"), to: s("/l") },
        ]
    );
}

#[test]
fn select_looks_in_the_store_first() {
    let v = "2023-01-05";
    assert_eq!(select(v, Kind::Directory, Kind::Missing), Ok(Pointer::Toolchain { version: s(v) }));
    assert_eq!(select(v, Kind::Directory, Kind::Directory), Ok(Pointer::Toolchain { version: s(v) }));
    assert_eq!(select("default", Kind::Missing, Kind::Directory), Ok(Pointer::Alias { name: s("default") }));
    let gone = Err(Error::NotInstalled { version: s(v) });
    assert_eq!(select(v, Kind::Missing, Kind::Missing), gone);
    assert_eq!(select(v, Kind::Missing, Kind::Other), gone);
    assert_eq!(select(v, Kind::Other, Kind::Missing), gone);
    // a file in the store hides an alias of the same name
    assert_eq!(select(v, Kind::Other, Kind::Directory), gone);
}

#[test]
fn pointer_paths() {
    let env = env();
    assert_eq!(
        Pointer::Toolchain { version: s("v") }.path(&env),
        "/home/u/.icicle/toolchains/v"
    );
    assert_eq!(Pointer::Alias { name: s("default") }.path(&env), "/home/u/.icicle/aliases/default");
}

#[test]
fn use_version_swaps_the_session_link() {
    let env = env();
    let link = s("/home/u/.icicle/caches/icicle_1");
    assert_eq!(
        use_version(&env, "2023-06-10", Kind::Directory, Kind::Missing, true),
        Ok(vec![
            Step::RemoveLink { path: link.clone() },
            Step::CreateLink { target: s("/home/u/.icicle/toolchains/2023-06-10"), link: link.clone() },
        ])
    );
    assert_eq!(
        use_version(&env, "default", Kind::Missing, Kind::Directory, false),
        Ok(vec![Step::CreateLink { target: s("/home/u/.icicle/aliases/default"), link }])
    );
    assert_eq!(
        use_version(&env, "nope", Kind::Missing, Kind::Missing, true),
        Err(Error::NotInstalled { version: s("nope") })
    );
}

#[test]
fn open_session_lays_the_link_out() {
    let session = open_session(None, Some("/home/u"), "abc").unwrap();
    assert_eq!(session.home, "/home/u/.icicle");
    assert_eq!(session.caches_home, "/home/u/.icicle/caches");
    assert_eq!(session.link, "/home/u/.icicle/caches/icicle_abc");
    assert_eq!(session.target, "/home/u/.icicle/aliases/default");
    assert_eq!(
        open_session(None, None, "abc"),
        Err(Error::MissingVariable { name: Variable::Home })
    );
    assert_eq!(open_session(Some("/r"), None, "abc").unwrap().link, "/r/caches/icicle_abc");
}

#[test]
fn session_steps_and_exports() {
    let session = open_session(Some("/r"), None, "abc").unwrap();
    assert_eq!(
        session.steps(false),
        vec![
            Step::CreateDir { path: s("/r/caches") },
            Step::CreateLink { target: s("/r/aliases/default"), link: s("/r/caches/icicle_abc") },
        ]
    );
    assert_eq!(
        session.steps(true),
        vec![
            Step::CreateDir { path: s("/r/caches") },
            Step::RemoveLink { path: s("/r/caches/icicle_abc") },
            Step::CreateLink { target: s("/r/aliases/default"), link: s("/r/caches/icicle_abc") },
        ]
    );
    assert_eq!(
        session.exports(),
        vec![
            s("export ICICLE_SHELL_PATH=/r/caches/icicle_abc"),
            s("export ICICLE_HOME=/r"),
            s("export PATH=/r/caches/icicle_abc/oss-cad-suite/bin:$PATH"),
            s("export PATH=/r/caches/icicle_abc/oss-cad-suite/libexec:$PATH"),
        ]
    );
}

#[test]
fn new_session_draws_a_fresh_identifier() {
    let first = new_session(Some("/r"), None).unwrap();
    let second = new_session(Some("/r"), None).unwrap();
    assert_ne!(first.link, second.link);
    for session in [&first, &second] {
        let id = session.link.strip_prefix("/r/caches/icicle_").unwrap();
        assert_eq!(id.chars().count(), 36);
        for (i, c) in id.chars().enumerate() {
            if i == 8 || i == 13 || i == 18 || i == 23 {
                assert_eq!(c, '-');
            } else {
                assert!(c.is_ascii_digit() || ('a'..='f').contains(&c), "{}", id);
            }
        }
        assert_eq!(session.home, "/r");
        assert_eq!(session.target, "/r/aliases/default");
    }
    assert_eq!(new_session(None, None), Err(Error::MissingVariable { name: Variable::Home }));
}

// ---- default alias

#[test]
fn set_default_needs_an_installed_version() {
    let env = env();
    let alias = s("/home/u/.icicle/aliases/default");
    let target = s("/home/u/.icicle/toolchains/2023-01-05");
    assert_eq!(
        set_default(&env, "2023-01-05", Kind::Directory, false),
        Ok(vec![Step::CreateLink { target: target.clone(), link: alias.clone() }])
    );
    assert_eq!(
        set_default(&env, "2023-01-05", Kind::Directory, true),
        Ok(vec![
            Step::RemoveLink { path: alias.clone() },
            Step::CreateLink { target, link: alias },
        ])
    );
    let gone = Err(Error::NotInstalled { version: s("2023-01-05") });
    assert_eq!(set_default(&env, "2023-01-05", Kind::Missing, true), gone);
    assert_eq!(set_default(&env, "2023-01-05", Kind::Other, false), gone);
}

#[test]
fn resolve_default_tells_unset_from_dangling() {
    let env = env();
    assert_eq!(resolve_default(&env, false, None), Ok(None));
    assert_eq!(resolve_default(&env, false, Some("/x")), Ok(None));
    assert_eq!(resolve_default(&env, true, Some("/x")), Ok(Some(s("/x"))));
    assert_eq!(
        resolve_default(&env, true, None),
        Err(Error::Link { path: s("/home/u/.icicle/aliases/default"), fault: LinkFault::Resolve })
    );
}

// ---- current

#[test]
fn current_strips_the_store_root() {
    let env = env();
    assert_eq!(current(&env, Some("/home/u/.icicle/toolchains/2023-06-10")), Ok(s("2023-06-10")));
    // a path outside the store is given as it is
    assert_eq!(current(&env, Some("/opt/other")), Ok(s("/opt/other")));
    // the root without the separator is no prefix
    assert_eq!(
        current(&env, Some("/home/u/.icicle/toolchainsX")),
        Ok(s("/home/u/.icicle/toolchainsX"))
    );
    assert_eq!(
        current(&env, None),
        Err(Error::Link { path: s("/home/u/.icicle/caches/icicle_1"), fault: LinkFault::Resolve })
    );
}

// ---- store

fn entry(name: &str, is_dir: bool, canonical: Option<&str>) -> Entry {
    Entry { name: s(name), is_dir, canonical: canonical.map(s) }
}

#[test]
fn list_shows_directories_in_reading_order() {
    let entries = vec![
        entry("2023-06-10", true, Some("/r/toolchains/2023-06-10")),
        entry("notes.txt", false, Some("/r/toolchains/notes.txt")),
        entry("2023-01-05", true, Some("/r/toolchains/2023-01-05")),
        entry("broken", false, None),
    ];
    assert_eq!(
        list(&entries, Some("/r/toolchains/2023-01-05")),
        vec![
            Listed { version: s("2023-06-10"), is_default: false },
            Listed { version: s("2023-01-05"), is_default: true },
        ]
    );
    assert_eq!(
        list(&entries, None),
        vec![
            Listed { version: s("2023-06-10"), is_default: false },
            Listed { version: s("2023-01-05"), is_default: false },
        ]
    );
    assert_eq!(list(&Vec::new(), Some("/x")), Vec::new());
}

#[test]
fn list_marks_by_path_not_by_name() {
    // a link in the store that ends at the default's directory is marked too
    let entries = vec![
        entry("stable", true, Some("/r/toolchains/2023-01-05")),
        entry("2023-01-05", true, Some("/r/toolchains/2023-01-05")),
    ];
    let shown = list(&entries, Some("/r/toolchains/2023-01-05"));
    assert!(shown[0].is_default && shown[1].is_default);
    assert!(is_marked(&entries[0], Some("/r/toolchains/2023-01-05")));
    assert!(!is_marked(&entries[0], Some("/r/toolchains/2023")));
    assert!(!is_marked(&entries[0], None));
    assert!(!is_marked(&entry("x", true, None), None));
}

#[test]
fn listed_lines() {
    assert_eq!(Listed { version: s("2023-01-05"), is_default: true }.line(), "* 2023-01-05 (default)");
    assert_eq!(Listed { version: s("2023-06-10"), is_default: false }.line(), "* 2023-06-10");
}

#[test]
fn remove_needs_an_installed_version() {
    let env = env();
    assert_eq!(
        remove(&env, "2023-01-05", Kind::Directory),
        Ok(Step::RemoveTree { path: s("/home/u/.icicle/toolchains/2023-01-05") })
    );
    assert_eq!(
        remove(&env, "2023-01-05", Kind::Missing),
        Err(Error::NotInstalled { version: s("2023-01-05") })
    );
    assert_eq!(
        remove(&env, "2023-01-05", Kind::Other),
        Err(Error::NotInstalled { version: s("2023-01-05") })
    );
}

// ---- install

#[test]
fn download_url_for_a_platform() {
    assert_eq!(
        download_url(&env(), "2023-01-05"),
        "https://github.com/YosysHQ/oss-cad-suite-build/releases/download/2023-01-05/\
         oss-cad-suite-linux-x64-20230105.tgz"
    );
    let mac = Environment::create(Some("/h"), Some("/s"), "macos", "aarch64").unwrap();
    assert_eq!(
        download_url(&mac, "2024-11-30"),
        "https://github.com/YosysHQ/oss-cad-suite-build/releases/download/2024-11-30/\
         oss-cad-suite-darwin-arm64-20241130.tgz"
    );
}

#[test]
fn install_fetches_what_is_not_there() {
    let env = env();
    assert_eq!(install(&env, "2023-01-05", Kind::Directory), Install::Present);
    let fetch = Install::Fetch {
        url: download_url(&env, "2023-01-05"),
        destination: s("/home/u/.icicle/toolchains/2023-01-05"),
    };
    assert_eq!(install(&env, "2023-01-05", Kind::Missing), fetch);
    assert_eq!(install(&env, "2023-01-05", Kind::Other), fetch);
}

// ---- failures

#[test]
fn failed_steps_name_their_path() {
    assert_eq!(
        Step::CreateDir { path: s("/d") }.failed(),
        Error::Dir { path: s("/d"), fault: DirFault::Create }
    );
    assert_eq!(
        Step::RemoveLink { path: s("/l") }.failed(),
        Error::Link { path: s("/l"), fault: LinkFault::Remove }
    );
    assert_eq!(
        Step::CreateLink { target: s("/t"), link: s("/l") }.failed(),
        Error::Link { path: s("/l"), fault: LinkFault::Create }
    );
    assert_eq!(
        Step::RemoveTree { path: s("/d") }.failed(),
        Error::Dir { path: s("/d"), fault: DirFault::Remove }
    );
    assert_eq!(
        Step::Rename { from: s("/a"), to: s("/b") }.failed(),
        Error::Link { path: s("/b"), fault: LinkFault::Replace }
    );
}

#[test]
fn messages() {
    assert_eq!(
        Error::MissingVariable { name: Variable::IcicleHome }.message(),
        "'ICICLE_HOME' environment variable not set. Did you setup your shell to 'eval $(icicle env)'?"
    );
    assert_eq!(
        Error::MissingVariable { name: Variable::ShellPath }.message(),
        "'ICICLE_SHELL_PATH' environment variable not set. Did you setup your shell to 'eval $(icicle env)'?"
    );
    assert_eq!(
        Error::MissingVariable { name: Variable::Home }.message(),
        "'HOME' environment variable not set. Did you setup your shell to 'eval $(icicle env)'?"
    );
    assert_eq!(Variable::Home.name(), "HOME");
    assert_eq!(Error::UnsupportedOs { name: s("plan9") }.message(), "Unsupported OS 'plan9'");
    assert_eq!(
        Error::UnsupportedArch { name: s("z80") }.message(),
        "Unsupported architecture 'z80'"
    );
    assert_eq!(
        Error::NotInstalled { version: s("2023-01-05") }.message(),
        "'2023-01-05' is not a valid toolchain directory."
    );
    assert_eq!(
        Error::Link { path: s("/l"), fault: LinkFault::Remove }.message(),
        "Failed to remove existing symlink '/l'"
    );
    assert_eq!(
        Error::Link { path: s("/l"), fault: LinkFault::Create }.message(),
        "Failed to create symlink '/l'"
    );
    assert_eq!(
        Error::Link { path: s("/l"), fault: LinkFault::Replace }.message(),
        "Failed to replace symlink '/l'"
    );
    assert_eq!(
        Error::Link { path: s("/l"), fault: LinkFault::Resolve }.message(),
        "Failed to resolve '/l'"
    );
    assert_eq!(
        Error::Dir { path: s("/d"), fault: DirFault::Create }.message(),
        "Failed to create directory '/d'"
    );
    assert_eq!(
        Error::Dir { path: s("/d"), fault: DirFault::Remove }.message(),
        "Failed to remove directory '/d'"
    );
}
