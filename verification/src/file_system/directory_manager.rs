//! The directory cache: one shallow listing per directory, kept until it is
//! invalidated.

use vstd::prelude::*;
use vstd::hash_map::StringHashMap;
use crate::utils::path_utils::file_name;
use crate::utils::path_utils::file_name_of;

verus! {

/// An entry of the file tree. Only the root and directories that were loaded
/// on request carry `children`.
#[derive(Debug, PartialEq, Eq)]
pub struct FileNode {
    pub name: String,
    pub path: String,
    pub is_directory: bool,
    pub size: u64,
    pub children: Option<Vec<FileNode>>,
    pub is_loaded: bool,
}

impl FileNode {
    /// Whether the node is an entry of a listing: no children, not loaded.
    pub open spec fn is_shallow(&self) -> bool {
        self.children is None && !self.is_loaded
    }

    /// The listing entry for what lies at `path`, named by its last component.
    pub fn shallow(path: String, is_directory: bool, size: u64) -> (r: FileNode)
        ensures
            r.is_shallow(),
            r.name@ == file_name_of(path@),
            r.path == path,
            r.is_directory == is_directory,
            r.size == size,
    {
        let name = file_name(path.as_str());
        FileNode { name, path, is_directory, size, children: None, is_loaded: false }
    }

    /// A copy of a node that has no children.
    pub fn clone_shallow(&self) -> (r: FileNode)
        requires
            self.children is None,
        ensures
            r == *self,
    {
        FileNode {
            name: self.name.clone(),
            path: self.path.clone(),
            is_directory: self.is_directory,
            size: self.size,
            children: None,
            is_loaded: self.is_loaded,
        }
    }
}

/// What reading a directory tells of one of its entries.
#[derive(Clone, Debug, PartialEq, Eq)]
pub struct DirectoryEntry {
    /// The canonical path of the entry.
    pub path: String,
    pub is_directory: bool,
    pub size: u64,
}

/// Whether `node` is the listing entry for `entry`: shallow, named by the last
/// component of the entry's path.
pub open spec fn is_node_of(node: FileNode, entry: DirectoryEntry) -> bool {
    &&& node.is_shallow()
    &&& node.name@ == file_name_of(entry.path@)
    &&& node.path@ == entry.path@
    &&& node.is_directory == entry.is_directory
    &&& node.size == entry.size
}

/// Whether `nodes` is the listing for `entries`, entry by entry.
pub open spec fn is_listing_of(nodes: Seq<FileNode>, entries: Seq<DirectoryEntry>) -> bool {
    &&& nodes.len() == entries.len()
    &&& forall|i: int| 0 <= i < nodes.len() ==> is_node_of(#[trigger] nodes[i], entries[i])
}

/// The listing for the entries that reading a directory gave.
pub fn listing_of(entries: &Vec<DirectoryEntry>) -> (r: Vec<FileNode>)
    ensures
        is_listing_of(r@, entries@),
        all_shallow(r@),
{
    let mut nodes: Vec<FileNode> = Vec::new();
    let mut i: usize = 0;
    while i < entries.len()
        invariant
            i <= entries.len(),
            nodes@.len() == i,
            forall|j: int| 0 <= j < i ==> is_node_of(#[trigger] nodes@[j], entries@[j]),
        decreases entries.len() - i,
    {
        let entry = &entries[i];
        nodes.push(FileNode::shallow(entry.path.clone(), entry.is_directory, entry.size));
        i += 1;
    }
    nodes
}

/// Whether every node of `nodes` is an entry of a listing.
pub open spec fn all_shallow(nodes: Seq<FileNode>) -> bool {
    forall|i: int| 0 <= i < nodes.len() ==> (#[trigger] nodes[i]).is_shallow()
}

/// A copy of a listing.
pub fn clone_listing(nodes: &Vec<FileNode>) -> (r: Vec<FileNode>)
    requires
        all_shallow(nodes@),
    ensures
        r@ == nodes@,
{
    let mut out: Vec<FileNode> = Vec::new();
    let mut i: usize = 0;
    while i < nodes.len()
        invariant
            i <= nodes.len(),
            all_shallow(nodes@),
            out@ == nodes@.take(i as int),
        decreases nodes.len() - i,
    {
        assert(nodes@[i as int].is_shallow());
        out.push(nodes[i].clone_shallow());
        assert(nodes@.take(i + 1) =~= nodes@.take(i as int).push(nodes@[i as int]));
        i += 1;
    }
    assert(nodes@.take(nodes.len() as int) =~= nodes@);
    out
}

/// The workspace's directory cache and its root node.
pub struct DirectoryManager {
    workspace_path: String,
    cache: StringHashMap<Vec<FileNode>>,
    root: Option<FileNode>,
}

impl View for DirectoryManager {
    type V = Map<Seq<char>, Seq<FileNode>>;

    /// The cache: the listing held for each directory that has one.
    closed spec fn view(&self) -> Map<Seq<char>, Seq<FileNode>> {
        Map::new(|p: Seq<char>| self.cache@.contains_key(p), |p: Seq<char>| self.cache@[p]@)
    }
}

impl DirectoryManager {
    /// The canonical path of the workspace root.
    pub closed spec fn workspace(&self) -> Seq<char> {
        self.workspace_path@
    }

    /// The root node, once the workspace was initialised.
    pub closed spec fn root_node(&self) -> Option<FileNode> {
        self.root
    }

    /// The cache's invariant: every listing is shallow.
    pub open spec fn wf(&self) -> bool {
        forall|p: Seq<char>| #[trigger] self@.contains_key(p) ==> all_shallow(self@[p])
    }

    /// A manager with an empty cache for the workspace at `workspace_path`, which
    /// the caller has made canonical.
    pub fn new(workspace_path: String) -> (r: Self)
        ensures
            r.wf(),
            r.workspace() == workspace_path@,
            r.root_node() is None,
            r@ == Map::<Seq<char>, Seq<FileNode>>::empty(),
    {
        let r = DirectoryManager { workspace_path, cache: StringHashMap::new(), root: None };
        assert(r@ =~= Map::<Seq<char>, Seq<FileNode>>::empty());
        r
    }

    /// The canonical path of the workspace root.
    pub fn get_workspace_path(&self) -> (r: &String)
        ensures
            r@ == self.workspace(),
    {
        &self.workspace_path
    }

    /// The root node, once the workspace was initialised.
    pub fn root(&self) -> (r: &Option<FileNode>)
        ensures
            *r == self.root_node(),
    {
        &self.root
    }

    /// The cached listing of `path`. `None` means that the caller has to read
    /// the directory and store what it read with `refresh_directory`.
    pub fn load_directory(&self, path: &str) -> (r: Option<Vec<FileNode>>)
        requires
            self.wf(),
        ensures
            self@.contains_key(path@) ==> r is Some && r->Some_0@ == self@[path@],
            !self@.contains_key(path@) ==> r is None,
    {
        match self.cache.get(path) {
            Some(nodes) => {
                assert(self@.contains_key(path@));
                Some(clone_listing(nodes))
            },
            None => None,
        }
    }

    /// Stores the listing for `entries`, freshly read from the directory
    /// `path`, in place of any earlier one, and returns it.
    pub fn refresh_directory(&mut self, path: &str, entries: &Vec<DirectoryEntry>) -> (r: Vec<
        FileNode,
    >)
        requires
            old(self).wf(),
        ensures
            final(self).wf(),
            is_listing_of(r@, entries@),
            final(self)@ == old(self)@.insert(path@, r@),
            final(self).workspace() == old(self).workspace(),
            final(self).root_node() == old(self).root_node(),
    {
        let nodes = listing_of(entries);
        let copy = clone_listing(&nodes);
        self.cache.insert(path.to_owned(), nodes);
        proof {
            assert(self@ =~= old(self)@.insert(path@, copy@));
            assert forall|p: Seq<char>| #[trigger] self@.contains_key(p) implies all_shallow(
                self@[p],
            ) by {
                if p != path@ {
                    assert(old(self)@.contains_key(p));
                }
            }
        }
        copy
    }

    /// Builds the root node from the listing of the workspace root.
    pub fn init(&mut self, root_contents: Vec<FileNode>)
        ensures
            final(self)@ == old(self)@,
            final(self).workspace() == old(self).workspace(),
            final(self).root_node() matches Some(root) && root.name@ == file_name_of(
                old(self).workspace(),
            ) && root.path@ == old(self).workspace() && root.is_directory && root.size == 0
                && root.is_loaded && root.children == Some(root_contents),
    {
        let name = file_name(self.workspace_path.as_str());
        self.root = Some(
            FileNode {
                name,
                path: self.workspace_path.clone(),
                is_directory: true,
                size: 0,
                children: Some(root_contents),
                is_loaded: true,
            },
        );
    }

    /// Forgets the listing of `path`.
    pub fn invalidate_cache(&mut self, path: &str)
        ensures
            final(self)@ == old(self)@.remove(path@),
            old(self).wf() ==> final(self).wf(),
            final(self).workspace() == old(self).workspace(),
            final(self).root_node() == old(self).root_node(),
    {
        self.cache.remove(path);
        proof {
            assert(self@ =~= old(self)@.remove(path@));
            if old(self).wf() {
                assert forall|p: Seq<char>| #[trigger] self@.contains_key(p) implies all_shallow(
                    self@[p],
                ) by {
                    assert(old(self)@.contains_key(p));
                }
            }
        }
    }
}

/// A listing that was just stored is what the next load of the same directory
/// returns: in the cache that `refresh_directory` leaves, `path` has exactly
/// the listing `nodes`, whatever the cache held before.
pub proof fn lemma_refresh_then_load(
    cache: Map<Seq<char>, Seq<FileNode>>,
    path: Seq<char>,
    nodes: Seq<FileNode>,
)
    ensures
        cache.insert(path, nodes).contains_key(path),
        cache.insert(path, nodes)[path] == nodes,
{
}

/// A directory that was invalidated has no listing until the next refresh, and
/// no other directory loses its own.
pub proof fn lemma_invalidate_forgets(
    cache: Map<Seq<char>, Seq<FileNode>>,
    path: Seq<char>,
    other: Seq<char>,
)
    requires
        other != path,
    ensures
        !cache.remove(path).contains_key(path),
        cache.remove(path).contains_key(other) == cache.contains_key(other),
        cache.contains_key(other) ==> cache.remove(path)[other] == cache[other],
{
}

} // verus!
