//! A model of the disk as the commands see it, and what their steps do to
//! it.
//!
//! The model is flat: a path holds a directory, a file or a link, and a
//! link names the path it points at. It is what the observations handed to
//! the commands are observations of.

use vstd::prelude::*;
use crate::layout::EnvironmentView;
use crate::step::{Kind, StepView};
use crate::store::EntryView;
use crate::text::is_token;

verus! {

/// What a path holds.
pub enum Node {
    Directory,
    File,
    Link { target: Seq<char> },
}

/// The disk: what each path holds that holds anything.
pub struct Disk {
    pub nodes: Map<Seq<char>, Node>,
}

/// How many links are followed before a path is given up as a loop.
pub open spec fn max_hops() -> nat {
    40
}

impl Disk {
    /// Where `path` ends after at most `hops` links, if anywhere.
    pub open spec fn follow(self, path: Seq<char>, hops: nat) -> Option<Seq<char>>
        decreases hops,
    {
        if !self.nodes.contains_key(path) {
            None
        } else {
            match self.nodes[path] {
                Node::Link { target } => if hops == 0 {
                    None
                } else {
                    self.follow(target, (hops - 1) as nat)
                },
                _ => Some(path),
            }
        }
    }

    /// Where `path` ends once every link is followed: absent for a path
    /// that holds nothing and for a link that leads nowhere.
    pub open spec fn canonical(self, path: Seq<char>) -> Option<Seq<char>> {
        self.follow(path, max_hops())
    }

    /// What `path` leads to.
    pub open spec fn kind(self, path: Seq<char>) -> Kind {
        match self.canonical(path) {
            None => Kind::Missing,
            Some(end) => if self.nodes[end] is Directory {
                Kind::Directory
            } else {
                Kind::Other
            },
        }
    }

    /// Whether a link stands at `path`, wherever it points.
    pub open spec fn has_link(self, path: Seq<char>) -> bool {
        self.nodes.contains_key(path) && self.nodes[path] is Link
    }

    /// Whether a directory of its own stands at `path`.
    pub open spec fn has_dir(self, path: Seq<char>) -> bool {
        self.nodes.contains_key(path) && self.nodes[path] is Directory
    }

    /// The disk with `node` at `path`.
    pub open spec fn with(self, path: Seq<char>, node: Node) -> Disk {
        Disk { nodes: self.nodes.insert(path, node) }
    }

    /// The disk with nothing at `path`.
    pub open spec fn without(self, path: Seq<char>) -> Disk {
        Disk { nodes: self.nodes.remove(path) }
    }

    /// The disk after one step, or nothing where the step fails: a
    /// directory cannot be made where something else stands, only a link
    /// or a file is removed as a link, a link is not created over what is
    /// there, only a directory or a link to one is removed as a tree, and
    /// only a link or a file is moved, and not over a directory.
    pub open spec fn apply(self, step: StepView) -> Option<Disk> {
        match step {
            StepView::CreateDir { path } => if !self.nodes.contains_key(path) {
                Some(self.with(path, Node::Directory))
            } else if self.kind(path) == Kind::Directory {
                Some(self)
            } else {
                None
            },
            StepView::RemoveLink { path } => if self.nodes.contains_key(path)
                && !(self.nodes[path] is Directory) {
                Some(self.without(path))
            } else {
                None
            },
            StepView::CreateLink { target, link } => if self.nodes.contains_key(link) {
                None
            } else {
                Some(self.with(link, Node::Link { target }))
            },
            StepView::RemoveTree { path } => if self.kind(path) == Kind::Directory {
                Some(self.without(path))
            } else {
                None
            },
            StepView::Rename { from, to } => if self.nodes.contains_key(from)
                && !(self.nodes[from] is Directory) && !self.has_dir(to) {
                Some(self.without(from).with(to, self.nodes[from]))
            } else {
                None
            },
        }
    }

    /// The disk after the steps, made in order, or nothing where one of
    /// them fails.
    pub open spec fn run(self, steps: Seq<StepView>) -> Option<Disk>
        decreases steps.len(),
    {
        if steps.len() == 0 {
            Some(self)
        } else {
            match self.apply(steps[0]) {
                Some(next) => next.run(steps.drop_first()),
                None => None,
            }
        }
    }

    /// Whether a version is installed: a directory of its own stands under
    /// its name in the store.
    pub open spec fn installed(self, env: EnvironmentView, version: Seq<char>) -> bool {
        self.has_dir(env.toolchain_path(version))
    }

    /// Whether `entries` is a reading of the store's directory: each entry
    /// names something that stands in the store and says what it leads
    /// to, nothing that stands there is left out, and no name comes
    /// twice. The order is that of the reading, whatever it is.
    pub open spec fn reads(self, env: EnvironmentView, entries: Seq<EntryView>) -> bool {
        &&& forall|i: int|
            0 <= i < entries.len() ==> {
                let e = #[trigger] entries[i];
                let path = env.toolchain_path(e.name);
                &&& is_token(e.name)
                &&& self.nodes.contains_key(path)
                &&& e.is_dir == (self.kind(path) == Kind::Directory)
                &&& e.canonical == self.canonical(path)
            }
        &&& forall|name: Seq<char>|
            is_token(name) && self.nodes.contains_key(#[trigger] env.toolchain_path(name))
                ==> exists|i: int| 0 <= i < entries.len() && (#[trigger] entries[i]).name == name
        &&& forall|i: int, j: int|
            0 <= i < j < entries.len() ==> (#[trigger] entries[i]).name != (
            #[trigger] entries[j]).name
    }

    /// Whether the store holds directories and files of its own only, no
    /// links.
    pub open spec fn store_is_plain(self, env: EnvironmentView) -> bool {
        forall|name: Seq<char>|
            is_token(name) ==> !self.has_link(#[trigger] env.toolchain_path(name))
    }
}

} // verus!
