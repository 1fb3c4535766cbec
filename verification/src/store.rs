//! The store: one directory per installed version.

use vstd::prelude::*;
use vstd::string::*;
use crate::error::{maybe, Error, ErrorView};
use crate::layout::{Environment, EnvironmentView};
use crate::step::{Kind, Step, StepView};
use crate::text::{catenate, same};

verus! {

/// One entry of the store's directory as it was read from disk.
#[derive(Clone, Debug, PartialEq, Eq)]
pub struct Entry {
    /// The name of the entry.
    pub name: String,
    /// Whether the entry leads to a directory.
    pub is_dir: bool,
    /// Where the entry ends once every link is followed, if anywhere.
    pub canonical: Option<String>,
}

/// An `Entry` with its strings as character sequences.
pub struct EntryView {
    pub name: Seq<char>,
    pub is_dir: bool,
    pub canonical: Option<Seq<char>>,
}

/// One installed version as `list` shows it.
#[derive(Clone, Debug, PartialEq, Eq)]
pub struct Listed {
    pub version: String,
    /// Whether the default alias leads to this version.
    pub is_default: bool,
}

/// A `Listed` with its string as a character sequence.
pub struct ListedView {
    pub version: Seq<char>,
    pub is_default: bool,
}

impl View for Entry {
    type V = EntryView;

    open spec fn view(&self) -> EntryView {
        EntryView {
            name: self.name@,
            is_dir: self.is_dir,
            canonical: match self.canonical {
                Some(c) => Some(c@),
                None => None,
            },
        }
    }
}

impl DeepView for Entry {
    type V = EntryView;

    open spec fn deep_view(&self) -> EntryView {
        self@
    }
}

impl View for Listed {
    type V = ListedView;

    open spec fn view(&self) -> ListedView {
        ListedView { version: self.version@, is_default: self.is_default }
    }
}

impl DeepView for Listed {
    type V = ListedView;

    open spec fn deep_view(&self) -> ListedView {
        self@
    }
}

/// Whether an entry is the default: it ends where the default alias
/// ends. Paths are compared, not names, so an alias that leads to the
/// directory through other links still marks it.
pub open spec fn marked(entry: EntryView, default: Option<Seq<char>>) -> bool {
    entry.canonical is Some && entry.canonical == default
}

/// How an entry that is a directory is listed.
pub open spec fn listed(entry: EntryView, default: Option<Seq<char>>) -> ListedView {
    ListedView { version: entry.name, is_default: marked(entry, default) }
}

/// The installed versions: the entries that are directories, in the order
/// in which they were read, each with its default mark.
pub open spec fn listing(entries: Seq<EntryView>, default: Option<Seq<char>>) -> Seq<ListedView>
    decreases entries.len(),
{
    if entries.len() == 0 {
        seq![]
    } else if entries.last().is_dir {
        listing(entries.drop_last(), default).push(listed(entries.last(), default))
    } else {
        listing(entries.drop_last(), default)
    }
}

/// The line `list` prints for a version.
pub open spec fn line_of(l: ListedView) -> Seq<char> {
    "* "@ + l.version + (if l.is_default {
        " (default)"@
    } else {
        ""@
    })
}

/// The step of `uninstall`: the version's directory goes, with all below
/// it, where the version is installed.
pub open spec fn removal(env: EnvironmentView, version: Seq<char>, toolchain: Kind) -> Result<
    StepView,
    ErrorView,
> {
    if toolchain == Kind::Directory {
        Ok(StepView::RemoveTree { path: env.toolchain_path(version) })
    } else {
        Err(ErrorView::NotInstalled { version })
    }
}

/// The view of a result that carries one step.
pub open spec fn step_outcome(r: Result<Step, Error>) -> Result<StepView, ErrorView> {
    match r {
        Ok(step) => Ok(step@),
        Err(e) => Err(e@),
    }
}

/// Every listed version is an entry that is a directory, and every such
/// entry is listed; stray files are not.
pub proof fn lemma_listing_members(entries: Seq<EntryView>, default: Option<Seq<char>>)
    ensures
        forall|l: ListedView| #[trigger]
            listing(entries, default).contains(l) <==> exists|i: int|
                0 <= i < entries.len() && entries[i].is_dir && l == listed(
                    #[trigger] entries[i],
                    default,
                ),
    decreases entries.len(),
{
    if entries.len() > 0 {
        let front = entries.drop_last();
        let last = entries.last();
        lemma_listing_members(front, default);
        assert forall|l: ListedView| #[trigger]
            listing(entries, default).contains(l) <==> exists|i: int|
                0 <= i < entries.len() && entries[i].is_dir && l == listed(
                    #[trigger] entries[i],
                    default,
                ) by {
            let all = listing(entries, default);
            let before = listing(front, default);
            if all.contains(l) {
                let k = choose|k: int| 0 <= k < all.len() && all[k] == l;
                if last.is_dir && k == before.len() {
                    assert(entries[entries.len() - 1].is_dir);
                } else {
                    assert(before[k] == l);
                    assert(before.contains(l));
                    let i = choose|i: int|
                        0 <= i < front.len() && front[i].is_dir && l == listed(
                            #[trigger] front[i],
                            default,
                        );
                    assert(entries[i] == front[i]);
                }
            }
            if exists|i: int|
                0 <= i < entries.len() && entries[i].is_dir && l == listed(
                    #[trigger] entries[i],
                    default,
                ) {
                let i = choose|i: int|
                    0 <= i < entries.len() && entries[i].is_dir && l == listed(
                        #[trigger] entries[i],
                        default,
                    );
                if i == entries.len() - 1 {
                    assert(all[before.len() as int] == l);
                } else {
                    assert(front[i] == entries[i]);
                    assert(before.contains(l));
                    let k = choose|k: int| 0 <= k < before.len() && before[k] == l;
                    assert(all[k] == l);
                }
            }
        }
    }
}

/// Whether a version is installed, from what its path in the store leads
/// to: it is where that is a directory.
pub fn installed(toolchain: Kind) -> (yes: bool)
    ensures
        yes == (toolchain == Kind::Directory),
{
    toolchain.is_dir()
}

/// Whether an entry ends where the default alias ends.
pub fn is_marked(entry: &Entry, default: Option<&str>) -> (yes: bool)
    ensures
        yes == marked(entry@, maybe(default)),
{
    match (&entry.canonical, default) {
        (Some(c), Some(d)) => same(c.as_str(), d),
        _ => false,
    }
}

/// Lists the installed versions. `entries` is what the store's directory
/// holds, in the order in which it was read; `default` is where the
/// default alias ends, absent where no default is set.
pub fn list(entries: &Vec<Entry>, default: Option<&str>) -> (out: Vec<Listed>)
    ensures
        out.deep_view() == listing(entries.deep_view(), maybe(default)),
{
    let mut out: Vec<Listed> = Vec::new();
    let mut i: usize = 0;
    assert(entries.deep_view().take(0) =~= seq![]);
    assert(out.deep_view() =~= seq![]);
    while i < entries.len()
        invariant
            i <= entries.len(),
            out.deep_view() == listing(entries.deep_view().take(i as int), maybe(default)),
        decreases entries.len() - i,
    {
        let ghost before = out.deep_view();
        proof {
            assert(entries.deep_view().take(i + 1).drop_last() =~= entries.deep_view().take(
                i as int,
            ));
            assert(entries.deep_view().take(i + 1).last() == entries[i as int]@);
        }
        if entries[i].is_dir {
            let item = Listed {
                version: entries[i].name.clone(),
                is_default: is_marked(&entries[i], default),
            };
            out.push(item);
            assert(out.deep_view() =~= before.push(listed(entries[i as int]@, maybe(default))));
        }
        i += 1;
    }
    assert(entries.deep_view().take(entries.len() as int) =~= entries.deep_view());
    out
}

/// Plans `uninstall`. `toolchain` says what the version's path in the
/// store leads to.
pub fn remove(env: &Environment, version: &str, toolchain: Kind) -> (r: Result<Step, Error>)
    ensures
        step_outcome(r) == removal(env@, version@, toolchain),
{
    if toolchain.is_dir() {
        Ok(Step::RemoveTree { path: env.toolchain_path(version) })
    } else {
        Err(Error::NotInstalled { version: String::from_str(version) })
    }
}

impl Listed {
    /// The line `list` prints for this version.
    pub fn line(&self) -> (out: String)
        ensures
            out@ == line_of(self@),
    {
        let mut out = catenate("* ", self.version.as_str());
        if self.is_default {
            out.append(" (default)");
        } else {
            out.append("");
        }
        out
    }
}

} // verus!
