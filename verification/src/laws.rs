//! What holds of the commands when their steps are carried out on the
//! disk they were planned for.

use vstd::prelude::*;
use crate::alias::{default_of, default_steps};
use crate::current::{current_of, version_at};
use crate::disk::{max_hops, Disk, Node};
use crate::error::{ErrorView, LinkFault};
use crate::ident::is_session_id;
use crate::install::{installation, InstallView};
use crate::layout::{
    context,
    lemma_alias_apart_from_store,
    lemma_paths_below,
    lemma_toolchain_path_injective,
    stem,
    EnvironmentView,
};
use crate::session::{
    atomic_swap,
    opening,
    session_at,
    session_name,
    swap,
    use_steps,
    PointerView,
};
use crate::step::{Kind, StepView};
use crate::store::{lemma_listing_members, listed, listing, removal, EntryView, ListedView};
use crate::text::{is_token, lemma_strip_all_token};

verus! {

/// The disk after `use`, or nothing where the command or one of its steps
/// fails.
pub open spec fn after_use(disk: Disk, env: EnvironmentView, version: Seq<char>) -> Option<Disk> {
    match use_steps(
        env,
        version,
        disk.kind(env.toolchain_path(version)),
        disk.kind(env.alias_path(version)),
        disk.has_link(env.shell_path),
    ) {
        Ok(steps) => disk.run(steps),
        Err(_) => None,
    }
}

/// The disk after `default`, or nothing where the command or one of its
/// steps fails.
pub open spec fn after_default(disk: Disk, env: EnvironmentView, version: Seq<char>) -> Option<
    Disk,
> {
    match default_steps(
        env,
        version,
        disk.kind(env.toolchain_path(version)),
        disk.has_link(env.default_alias()),
    ) {
        Ok(steps) => disk.run(steps),
        Err(_) => None,
    }
}

/// The disk after `uninstall`, or nothing where the command or its step
/// fails.
pub open spec fn after_uninstall(disk: Disk, env: EnvironmentView, version: Seq<char>) -> Option<
    Disk,
> {
    match removal(env, version, disk.kind(env.toolchain_path(version))) {
        Ok(step) => disk.apply(step),
        Err(_) => None,
    }
}

/// The disk after an `install` that succeeded: where something was to be
/// fetched, a directory stands at its destination.
pub open spec fn after_install(disk: Disk, env: EnvironmentView, version: Seq<char>) -> Disk {
    match installation(env, version, disk.kind(env.toolchain_path(version))) {
        InstallView::Present => disk,
        InstallView::Fetch { url, destination } => disk.with(destination, Node::Directory),
    }
}

/// What `current` says on a disk.
pub open spec fn current_on(disk: Disk, env: EnvironmentView) -> Result<Seq<char>, ErrorView> {
    current_of(env, disk.canonical(env.shell_path))
}

/// Where the default alias leads on a disk.
pub open spec fn default_on(disk: Disk, env: EnvironmentView) -> Result<
    Option<Seq<char>>,
    ErrorView,
> {
    default_of(env, disk.has_link(env.default_alias()), disk.canonical(env.default_alias()))
}

/// Whether `list` shows a version for a reading of the store.
pub open spec fn lists(
    entries: Seq<EntryView>,
    default: Option<Seq<char>>,
    version: Seq<char>,
) -> bool {
    exists|k: int|
        0 <= k < listing(entries, default).len() && (#[trigger] listing(
            entries,
            default,
        )[k]).version == version
}

/// A swap puts the link in place where a link stood or nothing did, and
/// fails where something else stands in its way.
pub proof fn lemma_swap_runs(disk: Disk, link: Seq<char>, target: Seq<char>)
    ensures
        disk.run(swap(link, target, disk.has_link(link))) == if disk.has_link(link)
            || !disk.nodes.contains_key(link) {
            Some(disk.with(link, Node::Link { target }))
        } else {
            None
        },
{
    reveal_with_fuel(Disk::run, 3);
    let create = StepView::CreateLink { target, link };
    if disk.has_link(link) {
        let steps = swap(link, target, true);
        let removed = disk.without(link);
        assert(steps.drop_first() =~= seq![create]);
        assert(seq![create].drop_first() =~= Seq::<StepView>::empty());
        assert(removed.with(link, Node::Link { target }).nodes =~= disk.with(
            link,
            Node::Link { target },
        ).nodes);
    } else {
        assert(seq![create].drop_first() =~= Seq::<StepView>::empty());
    }
}

/// The swap that leaves no gap ends where the plain swap ends.
pub proof fn law_atomic_swap_same_end(
    disk: Disk,
    link: Seq<char>,
    target: Seq<char>,
    staging: Seq<char>,
)
    requires
        staging != link,
        !disk.nodes.contains_key(staging),
        disk.has_link(link) || !disk.nodes.contains_key(link),
    ensures
        disk.run(atomic_swap(link, target, staging)) == Some(
            disk.with(link, Node::Link { target }),
        ),
        disk.run(atomic_swap(link, target, staging)) == disk.run(
            swap(link, target, disk.has_link(link)),
        ),
{
    reveal_with_fuel(Disk::run, 3);
    lemma_swap_runs(disk, link, target);
    let steps = atomic_swap(link, target, staging);
    let staged = disk.with(staging, Node::Link { target });
    assert(steps.drop_first() =~= seq![steps[1]]);
    assert(seq![steps[1]].drop_first() =~= Seq::<StepView>::empty());
    assert(staged.without(staging).with(link, Node::Link { target }).nodes =~= disk.with(
        link,
        Node::Link { target },
    ).nodes);
}

/// While a link is swapped without a gap, a link stands at its path after
/// every step: the old one until the new one is moved over it.
pub proof fn law_atomic_swap_never_absent(
    disk: Disk,
    link: Seq<char>,
    target: Seq<char>,
    staging: Seq<char>,
    done: int,
)
    requires
        staging != link,
        !disk.nodes.contains_key(staging),
        disk.has_link(link),
        0 <= done <= 2,
    ensures
        disk.run(atomic_swap(link, target, staging).take(done)) matches Some(now)
            && now.has_link(link) && now.nodes[link] == if done < 2 {
            disk.nodes[link]
        } else {
            Node::Link { target }
        },
{
    reveal_with_fuel(Disk::run, 3);
    let steps = atomic_swap(link, target, staging);
    if done == 0 {
        assert(steps.take(0) =~= Seq::<StepView>::empty());
    } else if done == 1 {
        assert(steps.take(1) =~= seq![steps[0]]);
        assert(seq![steps[0]].drop_first() =~= Seq::<StepView>::empty());
    } else {
        assert(steps.take(2) =~= steps);
        law_atomic_swap_same_end(disk, link, target, staging);
    }
}

/// The plain swap of a link that is there leaves a gap: after its first
/// step nothing stands at the link's path.
pub proof fn law_plain_swap_leaves_gap(disk: Disk, link: Seq<char>, target: Seq<char>)
    requires
        disk.has_link(link),
    ensures
        disk.apply(swap(link, target, true)[0]) matches Some(now) && !now.nodes.contains_key(
            link,
        ),
{
}

/// A directory of its own is where its path ends.
pub proof fn lemma_dir_is_canonical(disk: Disk, path: Seq<char>)
    requires
        disk.nodes.contains_key(path),
        !(disk.nodes[path] is Link),
    ensures
        disk.canonical(path) == Some(path),
        disk.has_dir(path) ==> disk.kind(path) == Kind::Directory,
{
}

/// A link to a directory of its own ends at that directory.
pub proof fn lemma_link_to_dir(disk: Disk, link: Seq<char>, dir: Seq<char>)
    requires
        disk.nodes.contains_key(link),
        disk.nodes[link] == (Node::Link { target: dir }),
        disk.has_dir(dir),
    ensures
        disk.canonical(link) == Some(dir),
        disk.kind(link) == Kind::Directory,
{
    reveal_with_fuel(Disk::follow, 2);
}

/// The name of a session link is one directory entry.
pub proof fn lemma_session_name_is_token(id: Seq<char>)
    requires
        is_session_id(id),
    ensures
        is_token(session_name(id)),
        session_name(id)[0] == 'i',
{
    reveal_strlit("icicle_");
    let name = session_name(id);
    assert forall|k: int| 0 <= k < name.len() implies name[k] != '/' by {
        if k >= 7 {
            assert(name[k] == id[k - 7]);
        }
    }
}

/// After a successful install the version is there and listed; after the
/// uninstall that follows it is gone and no longer listed. `first` and
/// `second` are readings of the store after each of the two, in whatever
/// order the disk gave them.
pub proof fn law_install_uninstall_round_trip(
    disk: Disk,
    env: EnvironmentView,
    version: Seq<char>,
    first: Seq<EntryView>,
    first_default: Option<Seq<char>>,
    second: Seq<EntryView>,
    second_default: Option<Seq<char>>,
)
    requires
        is_token(version),
        after_install(disk, env, version).reads(env, first),
        after_uninstall(after_install(disk, env, version), env, version) matches Some(gone)
            ==> gone.reads(env, second),
    ensures
        after_install(disk, env, version).kind(env.toolchain_path(version)) == Kind::Directory,
        lists(first, first_default, version),
        after_uninstall(after_install(disk, env, version), env, version) matches Some(gone) && {
            &&& gone.kind(env.toolchain_path(version)) == Kind::Missing
            &&& !lists(second, second_default, version)
        },
{
    let path = env.toolchain_path(version);
    let there = after_install(disk, env, version);
    if disk.kind(path) != Kind::Directory {
        lemma_dir_is_canonical(there, path);
    }
    assert(there.kind(path) == Kind::Directory);
    assert(there.nodes.contains_key(path));
    // listed after the install
    let i = choose|i: int| 0 <= i < first.len() && (#[trigger] first[i]).name == version;
    assert(first[i].is_dir);
    lemma_listing_members(first, first_default);
    let shown = listed(first[i], first_default);
    assert(listing(first, first_default).contains(shown));
    let k = choose|k: int|
        0 <= k < listing(first, first_default).len() && listing(first, first_default)[k] == shown;
    assert(listing(first, first_default)[k].version == version);
    // gone after the uninstall
    let gone = there.without(path);
    assert(after_uninstall(there, env, version) == Some(gone));
    if lists(second, second_default, version) {
        lemma_listing_members(second, second_default);
        let k = choose|k: int|
            0 <= k < listing(second, second_default).len() && (#[trigger] listing(
                second,
                second_default,
            )[k]).version == version;
        let l = listing(second, second_default)[k];
        assert(listing(second, second_default).contains(l));
        let j = choose|j: int|
            0 <= j < second.len() && second[j].is_dir && l == listed(
                #[trigger] second[j],
                second_default,
            );
        assert(gone.nodes.contains_key(env.toolchain_path(second[j].name)));
    }
}

/// Using an installed version twice in a row leaves the disk as the first
/// use left it: the session link points at the version's directory, as it
/// did.
pub proof fn law_swap_idempotent(disk: Disk, env: EnvironmentView, version: Seq<char>)
    requires
        disk.installed(env, version),
        env.shell_path != env.toolchain_path(version),
        after_use(disk, env, version) is Some,
    ensures
        after_use(after_use(disk, env, version)->0, env, version) == after_use(
            disk,
            env,
            version,
        ),
        after_use(disk, env, version)->0.canonical(env.shell_path) == Some(
            env.toolchain_path(version),
        ),
        after_use(disk, env, version)->0.nodes[env.shell_path] == (Node::Link {
            target: (PointerView::Toolchain { version }).path(env),
        }),
{
    let target = env.toolchain_path(version);
    let link = env.shell_path;
    lemma_dir_is_canonical(disk, target);
    lemma_swap_runs(disk, link, target);
    let once = disk.with(link, Node::Link { target });
    assert(after_use(disk, env, version) == Some(once));
    lemma_dir_is_canonical(once, target);
    lemma_swap_runs(once, link, target);
    assert(once.with(link, Node::Link { target }).nodes =~= once.nodes);
    lemma_link_to_dir(once, link, target);
}

/// After an installed version is used, `current` names it, and the
/// session link leads to a directory.
pub proof fn law_current_reflects_use(disk: Disk, env: EnvironmentView, version: Seq<char>)
    requires
        env.laid_out(),
        is_token(version),
        disk.installed(env, version),
        env.shell_path != env.toolchain_path(version),
        after_use(disk, env, version) is Some,
    ensures
        current_on(after_use(disk, env, version)->0, env) == Ok::<Seq<char>, ErrorView>(version),
        after_use(disk, env, version)->0.kind(env.shell_path) == Kind::Directory,
{
    law_swap_idempotent(disk, env, version);
    let used = after_use(disk, env, version)->0;
    lemma_dir_is_canonical(disk, env.toolchain_path(version));
    lemma_swap_runs(disk, env.shell_path, env.toolchain_path(version));
    lemma_link_to_dir(used, env.shell_path, env.toolchain_path(version));
    lemma_version_of_its_path(env, version);
}

/// The directory of a version gives the version back.
pub proof fn lemma_version_of_its_path(env: EnvironmentView, version: Seq<char>)
    requires
        env.laid_out(),
        is_token(version),
    ensures
        version_at(env, env.toolchain_path(version)) == version,
{
    lemma_paths_below(env, version);
    lemma_strip_all_token(env.toolchain_home + seq!['/'], version);
}

/// A session link that points at the default alias names the default
/// version too: `current` goes by where the link ends, not by what it
/// points at. `id` is the identifier of the session that was set up after
/// `version` was made the default.
pub proof fn law_current_through_alias(
    disk: Disk,
    home: Seq<char>,
    id: Seq<char>,
    os: Seq<char>,
    arch: Seq<char>,
    version: Seq<char>,
)
    requires
        is_token(version),
        is_session_id(id),
        disk.installed(context(home, session_at(home, id).link, os, arch), version),
        after_default(disk, context(home, session_at(home, id).link, os, arch), version)
            matches Some(set) && set.run(
            opening(session_at(home, id), set.has_link(session_at(home, id).link)),
        ) is Some,
    ensures
        ({
            let env = context(home, session_at(home, id).link, os, arch);
            let set = after_default(disk, env, version)->0;
            let session = session_at(home, id);
            let opened = set.run(opening(session, set.has_link(session.link)))->0;
            &&& current_on(opened, env) == Ok::<Seq<char>, ErrorView>(version)
            &&& opened.kind(session.link) == Kind::Directory
        }),
{
    let session = session_at(home, id);
    let env = context(home, session.link, os, arch);
    let target = env.toolchain_path(version);
    let alias = env.default_alias();
    reveal_strlit("default");
    reveal_strlit("toolchains");
    reveal_strlit("aliases");
    reveal_strlit("caches");
    assert(is_token("default"@)) by {
        assert forall|k: int| 0 <= k < "default"@.len() implies "default"@[k] != '/' by {}
    }
    lemma_session_name_is_token(id);
    lemma_paths_below(env, version);
    lemma_paths_below(env, "default"@);
    lemma_alias_apart_from_store(env, "default"@, version);
    // the default alias is set
    lemma_dir_is_canonical(disk, target);
    lemma_swap_runs(disk, alias, target);
    let set = disk.with(alias, Node::Link { target });
    assert(after_default(disk, env, version) == Some(set));
    // the session is opened
    let at = stem(home).len() as int;
    let caches = session.caches_home;
    assert(caches == env.caches_home);
    assert(session.link == caches + seq!['/'] + session_name(id)) by {
        assert(caches.last() == 's');
    }
    assert(caches[at] == 'c');
    assert(session.link[at] == 'c');
    assert(alias[at] == 'a');
    assert(target[at] == 't');
    assert(session.target == alias);
    let made = StepView::CreateDir { path: caches };
    let steps = opening(session, set.has_link(session.link));
    assert(steps[0] == made);
    assert(steps.drop_first() =~= swap(session.link, alias, set.has_link(session.link)));
    reveal_with_fuel(Disk::run, 2);
    let ready = set.apply(made)->0;
    assert(ready.nodes.contains_key(session.link) == set.nodes.contains_key(session.link));
    assert(ready.has_link(session.link) == set.has_link(session.link));
    lemma_swap_runs(ready, session.link, alias);
    let opened = ready.with(session.link, Node::Link { target: alias });
    assert(set.run(steps) == Some(opened));
    assert(opened.nodes[alias] == (Node::Link { target }));
    assert(opened.has_dir(target));
    reveal_with_fuel(Disk::follow, 3);
    assert(opened.canonical(session.link) == Some(target));
    lemma_version_of_its_path(env, version);
}

/// With one installed version made the default, the default alias leads
/// to its directory, and `list` marks that version and no other.
/// `entries` is a reading of the store after the default was set.
pub proof fn law_default_marking(
    disk: Disk,
    env: EnvironmentView,
    version: Seq<char>,
    entries: Seq<EntryView>,
)
    requires
        env.laid_out(),
        is_token(version),
        disk.installed(env, version),
        disk.store_is_plain(env),
        after_default(disk, env, version) matches Some(set) && set.reads(env, entries),
    ensures
        default_on(after_default(disk, env, version)->0, env) == Ok::<
            Option<Seq<char>>,
            ErrorView,
        >(Some(env.toolchain_path(version))),
        lists(entries, Some(env.toolchain_path(version)), version),
        forall|k: int|
            0 <= k < listing(entries, Some(env.toolchain_path(version))).len() ==> {
                let shown = #[trigger] listing(entries, Some(env.toolchain_path(version)))[k];
                shown.is_default <==> shown.version == version
            },
{
    let target = env.toolchain_path(version);
    let alias = env.default_alias();
    let default = Some(target);
    reveal_strlit("default");
    assert(is_token("default"@)) by {
        assert forall|k: int| 0 <= k < "default"@.len() implies "default"@[k] != '/' by {}
    }
    lemma_alias_apart_from_store(env, "default"@, version);
    lemma_dir_is_canonical(disk, target);
    lemma_swap_runs(disk, alias, target);
    let set = disk.with(alias, Node::Link { target });
    assert(after_default(disk, env, version) == Some(set));
    lemma_link_to_dir(set, alias, target);
    lemma_listing_members(entries, default);
    let all = listing(entries, default);
    // every entry of the store ends at its own path
    assert forall|i: int| 0 <= i < entries.len() implies (#[trigger] entries[i]).canonical
        == Some(env.toolchain_path(entries[i].name)) by {
        let name = entries[i].name;
        lemma_alias_apart_from_store(env, "default"@, name);
        assert(!disk.has_link(env.toolchain_path(name)));
        lemma_dir_is_canonical(set, env.toolchain_path(name));
    }
    // the version is listed
    let i = choose|i: int| 0 <= i < entries.len() && (#[trigger] entries[i]).name == version;
    lemma_dir_is_canonical(set, target);
    assert(entries[i].is_dir);
    let mine = listed(entries[i], default);
    assert(all.contains(mine));
    let at = choose|k: int| 0 <= k < all.len() && all[k] == mine;
    assert(all[at].version == version);
    // and it alone is marked
    assert forall|k: int| 0 <= k < all.len() implies ({
        let shown = #[trigger] all[k];
        shown.is_default <==> shown.version == version
    }) by {
        let shown = all[k];
        assert(all.contains(shown));
        let j = choose|j: int|
            0 <= j < entries.len() && entries[j].is_dir && shown == listed(
                #[trigger] entries[j],
                default,
            );
        if shown.is_default {
            lemma_toolchain_path_injective(env, entries[j].name, version);
        }
    }
}

/// Once the version the default alias points at is uninstalled, asking
/// where the default leads fails, and the failure names the alias: a
/// stale path is never handed out.
pub proof fn law_dangling_default_detected(disk: Disk, env: EnvironmentView, version: Seq<char>)
    requires
        env.laid_out(),
        is_token(version),
        disk.installed(env, version),
        after_default(disk, env, version) is Some,
    ensures
        after_uninstall(after_default(disk, env, version)->0, env, version) matches Some(gone)
            && default_on(gone, env) == Err::<Option<Seq<char>>, ErrorView>(
            ErrorView::Link { path: env.default_alias(), fault: LinkFault::Resolve },
        ),
{
    let target = env.toolchain_path(version);
    let alias = env.default_alias();
    reveal_strlit("default");
    assert(is_token("default"@)) by {
        assert forall|k: int| 0 <= k < "default"@.len() implies "default"@[k] != '/' by {}
    }
    lemma_alias_apart_from_store(env, "default"@, version);
    lemma_dir_is_canonical(disk, target);
    lemma_swap_runs(disk, alias, target);
    let set = disk.with(alias, Node::Link { target });
    assert(after_default(disk, env, version) == Some(set));
    lemma_dir_is_canonical(set, target);
    let gone = set.without(target);
    assert(after_uninstall(set, env, version) == Some(gone));
    reveal_with_fuel(Disk::follow, 2);
    assert(gone.has_link(alias));
    assert(gone.canonical(alias) is None);
}

} // verus!
