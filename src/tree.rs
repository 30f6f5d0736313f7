//! The hierarchy document: which canvases are roots, and each canvas's name,
//! children and parent.
use vstd::prelude::*;
use vstd::map::*;
use crate::error::{StoreError, prefixed};
use crate::canvas::{root_id, root_name};

verus! {

/// One canvas's place in the hierarchy.
pub struct TreeNode {
    pub name: String,
    pub children: Vec<String>,
    pub parent: Option<String>,
}

/// The mathematical value of a [`TreeNode`].
pub ghost struct TreeNodeView {
    pub name: Seq<char>,
    pub children: Seq<Seq<char>>,
    pub parent: Option<Seq<char>>,
}

pub open spec fn strings_view(v: Seq<String>) -> Seq<Seq<char>> {
    v.map_values(|s: String| s@)
}

impl View for TreeNode {
    type V = TreeNodeView;

    open spec fn view(&self) -> TreeNodeView {
        TreeNodeView {
            name: self.name@,
            children: strings_view(self.children@),
            parent: match self.parent {
                Some(p) => Some(p@),
                None => None,
            },
        }
    }
}

/// The hierarchy document. `canvases` maps canvas ids to nodes: its entries
/// have pairwise distinct ids (see [`TreeStructure::wf`]).
pub struct TreeStructure {
    pub root_canvases: Vec<String>,
    pub canvases: Vec<(String, TreeNode)>,
}

/// The mathematical value of a [`TreeStructure`].
pub ghost struct TreeView {
    pub roots: Seq<Seq<char>>,
    pub nodes: Map<Seq<char>, TreeNodeView>,
}

impl TreeStructure {
    pub open spec fn key(&self, i: int) -> Seq<char> {
        self.canvases@[i].0@
    }

    pub open spec fn has_key_at(&self, k: Seq<char>, i: int) -> bool {
        0 <= i < self.canvases@.len() && self.key(i) == k
    }

    /// No id has two entries.
    pub open spec fn wf(&self) -> bool {
        forall|i: int, j: int|
            0 <= i < j < self.canvases@.len() ==> #[trigger] self.key(i) != #[trigger] self.key(j)
    }

    /// The map from canvas id to node that the entries stand for.
    pub open spec fn nodes(&self) -> Map<Seq<char>, TreeNodeView> {
        Map::new(
            |k: Seq<char>| exists|i: int| #[trigger] self.has_key_at(k, i),
            |k: Seq<char>| self.canvases@[choose|i: int| #[trigger] self.has_key_at(k, i)].1@,
        )
    }
}

impl View for TreeStructure {
    type V = TreeView;

    open spec fn view(&self) -> TreeView {
        TreeView { roots: strings_view(self.root_canvases@), nodes: self.nodes() }
    }
}

impl TreeStructure {
    /// In a well-formed tree, the node of an id is the node of its entry.
    pub proof fn lemma_node_at(&self, k: Seq<char>, i: int)
        requires
            self.wf(),
            self.has_key_at(k, i),
        ensures
            self.nodes().contains_key(k),
            self.nodes()[k] == self.canvases@[i].1@,
    {
        let j = choose|j: int| #[trigger] self.has_key_at(k, j);
        if j < i {
            assert(self.key(j) != self.key(i));
        } else if i < j {
            assert(self.key(i) != self.key(j));
        }
    }

    /// A hierarchy with the given roots and no nodes.
    pub fn new(root_canvases: Vec<String>) -> (r: TreeStructure)
        ensures
            r.wf(),
            r@.roots == strings_view(root_canvases@),
            r@.nodes == Map::<Seq<char>, TreeNodeView>::empty(),
    {
        let r = TreeStructure { root_canvases, canvases: Vec::new() };
        assert(r.nodes() =~= Map::<Seq<char>, TreeNodeView>::empty());
        r
    }

    /// The index of the entry of `id`, if there is one.
    fn find(&self, id: &String) -> (r: Option<usize>)
        ensures
            match r {
                Some(i) => self.has_key_at(id@, i as int),
                None => forall|i: int| !#[trigger] self.has_key_at(id@, i),
            },
    {
        let mut i: usize = 0;
        while i < self.canvases.len()
            invariant
                i <= self.canvases@.len(),
                forall|j: int| 0 <= j < i ==> !#[trigger] self.has_key_at(id@, j),
            decreases self.canvases@.len() - i,
        {
            if self.canvases[i].0 == *id {
                return Some(i);
            }
            i = i + 1;
        }
        None
    }

    /// The node of the canvas `id`, if the hierarchy holds one.
    pub fn get(&self, id: &String) -> (r: Option<&TreeNode>)
        requires
            self.wf(),
        ensures
            match r {
                Some(n) => self@.nodes.contains_key(id@) && self@.nodes[id@] == n@,
                None => !self@.nodes.contains_key(id@),
            },
    {
        match self.find(id) {
            Some(i) => {
                proof {
                    self.lemma_node_at(id@, i as int);
                }
                Some(&self.canvases[i].1)
            },
            None => None,
        }
    }

    /// Sets the node of the canvas `id`, replacing the one it had.
    pub fn insert(&mut self, id: String, node: TreeNode)
        requires
            old(self).wf(),
        ensures
            final(self).wf(),
            final(self)@.roots == old(self)@.roots,
            final(self)@.nodes == old(self)@.nodes.insert(id@, node@),
    {
        let ghost old_self = *self;
        let ghost k = id@;
        let ghost nv = node@;
        match self.find(&id) {
            Some(i) => {
                self.canvases.set(i, (id, node));
                proof {
                    assert forall|a: int, b: int|
                        0 <= a < b < self.canvases@.len() implies #[trigger] self.key(a)
                        != #[trigger] self.key(b) by {
                        assert(old_self.key(a) != old_self.key(b));
                    }
                    self.lemma_node_at(k, i as int);
                    assert forall|q: Seq<char>| #[trigger] self.nodes().contains_key(q)
                        == old_self.nodes().insert(k, nv).contains_key(q) by {
                        if q != k {
                            if self.nodes().contains_key(q) {
                                let w = choose|w: int| #[trigger] self.has_key_at(q, w);
                                assert(old_self.has_key_at(q, w));
                            }
                            if old_self.nodes().contains_key(q) {
                                let w = choose|w: int| #[trigger] old_self.has_key_at(q, w);
                                assert(self.has_key_at(q, w));
                            }
                        }
                    }
                    assert forall|q: Seq<char>| #[trigger] self.nodes().contains_key(q) && q != k
                        implies self.nodes()[q] == old_self.nodes()[q] by {
                        let w = choose|w: int| #[trigger] self.has_key_at(q, w);
                        assert(old_self.has_key_at(q, w));
                        self.lemma_node_at(q, w);
                        old_self.lemma_node_at(q, w);
                    }
                    assert(self.nodes() =~= old_self.nodes().insert(k, nv));
                }
            },
            None => {
                self.canvases.push((id, node));
                proof {
                    let n = old_self.canvases@.len() as int;
                    assert forall|a: int, b: int|
                        0 <= a < b < self.canvases@.len() implies #[trigger] self.key(a)
                        != #[trigger] self.key(b) by {
                        if b < n {
                            assert(old_self.key(a) != old_self.key(b));
                        } else {
                            assert(!old_self.has_key_at(k, a));
                        }
                    }
                    assert(self.has_key_at(k, n));
                    self.lemma_node_at(k, n);
                    assert forall|q: Seq<char>| #[trigger] self.nodes().contains_key(q)
                        == old_self.nodes().insert(k, nv).contains_key(q) by {
                        if q != k {
                            if self.nodes().contains_key(q) {
                                let w = choose|w: int| #[trigger] self.has_key_at(q, w);
                                assert(old_self.has_key_at(q, w));
                            }
                            if old_self.nodes().contains_key(q) {
                                let w = choose|w: int| #[trigger] old_self.has_key_at(q, w);
                                assert(self.has_key_at(q, w));
                            }
                        }
                    }
                    assert forall|q: Seq<char>| #[trigger] self.nodes().contains_key(q) && q != k
                        implies self.nodes()[q] == old_self.nodes()[q] by {
                        let w = choose|w: int| #[trigger] self.has_key_at(q, w);
                        assert(old_self.has_key_at(q, w));
                        self.lemma_node_at(q, w);
                        old_self.lemma_node_at(q, w);
                    }
                    assert(self.nodes() =~= old_self.nodes().insert(k, nv));
                }
            },
        }
    }
}

/// The hierarchy that a storage starts with: the root canvas alone.
pub open spec fn default_tree_view() -> TreeView {
    TreeView {
        roots: seq![root_id()],
        nodes: map![root_id() => TreeNodeView {
            name: root_name(),
            children: Seq::empty(),
            parent: None,
        }],
    }
}

pub open spec fn tree_read_prefix() -> Seq<char> {
    seq![
        'F', 'a', 'i', 'l', 'e', 'd', ' ', 't', 'o', ' ', 'r', 'e', 'a', 'd', ' ', 't', 'r', 'e',
        'e', ' ', 'f', 'i', 'l', 'e', ':', ' ',
    ]
}

pub open spec fn tree_parse_prefix() -> Seq<char> {
    seq![
        'F', 'a', 'i', 'l', 'e', 'd', ' ', 't', 'o', ' ', 'p', 'a', 'r', 's', 'e', ' ', 't', 'r',
        'e', 'e', ':', ' ',
    ]
}

/// What the read of the hierarchy document gave.
pub enum TreeRead {
    /// There is no hierarchy document yet.
    Absent,
    /// The document exists but cannot be read; the text says why.
    Unreadable(String),
    /// The document is not a hierarchy; the text says why.
    Malformed(String),
    /// The document holds this hierarchy.
    Parsed(TreeStructure),
}

/// A hierarchy as a read returns it, and whether it must be written because
/// the read created it.
pub struct TreeLoaded {
    pub tree: TreeStructure,
    pub write_back: bool,
}

/// What a read of the hierarchy returns, as values: the hierarchy and whether
/// to write it, or the error's text.
pub open spec fn tree_read_result(read: TreeRead) -> Result<(TreeView, bool), Seq<char>> {
    match read {
        TreeRead::Absent => Ok((default_tree_view(), true)),
        TreeRead::Unreadable(m) => Err(tree_read_prefix() + m@),
        TreeRead::Malformed(m) => Err(tree_parse_prefix() + m@),
        TreeRead::Parsed(t) => Ok((t@, false)),
    }
}

pub open spec fn loaded_view(r: Result<TreeLoaded, StoreError>) -> Result<(TreeView, bool), Seq<char>> {
    match r {
        Ok(l) => Ok((l.tree@, l.write_back)),
        Err(e) => Err(e.text()),
    }
}

/// The hierarchy that a storage starts with: root `main`, one node named
/// `Main Canvas` with no children and no parent.
pub fn default_tree() -> (r: TreeStructure)
    ensures
        r.wf(),
        r@ == default_tree_view(),
{
    proof {
        reveal_strlit("main");
        reveal_strlit("Main Canvas");
    }
    let root = String::from_str("main");
    let key = String::from_str("main");
    let name = String::from_str("Main Canvas");
    assert(root@ =~= root_id());
    assert(key@ =~= root_id());
    assert(name@ =~= root_name());
    let mut roots: Vec<String> = Vec::new();
    roots.push(root);
    assert(strings_view(roots@) =~= seq![root_id()]);
    let mut tree = TreeStructure::new(roots);
    let node = TreeNode { name, children: Vec::new(), parent: None };
    assert(node@.children =~= Seq::<Seq<char>>::empty());
    tree.insert(key, node);
    assert(tree@.nodes =~= default_tree_view().nodes);
    tree
}

/// The result of reading the hierarchy, from what the read of its file gave:
/// an absent document is created as [`default_tree`] and marked for writing;
/// a stored one is returned as it is.
pub fn load_tree(read: TreeRead) -> (r: Result<TreeLoaded, StoreError>)
    ensures
        loaded_view(r) == tree_read_result(read),
        read is Absent ==> (r matches Ok(l) && l.tree.wf()),
        read matches TreeRead::Parsed(t) ==> (r matches Ok(l) && l.tree == t),
        read is Unreadable ==> r matches Err(StoreError::Io(_)),
        read is Malformed ==> r matches Err(StoreError::Parse(_)),
{
    match read {
        TreeRead::Absent => {
            Ok(TreeLoaded { tree: default_tree(), write_back: true })
        },
        TreeRead::Unreadable(m) => {
            proof {
                reveal_strlit("Failed to read tree file: ");
            }
            let t = prefixed("Failed to read tree file: ", m.as_str());
            assert(t@ =~= tree_read_prefix() + m@);
            Err(StoreError::Io(t))
        },
        TreeRead::Malformed(m) => {
            proof {
                reveal_strlit("Failed to parse tree: ");
            }
            let t = prefixed("Failed to parse tree: ", m.as_str());
            assert(t@ =~= tree_parse_prefix() + m@);
            Err(StoreError::Parse(t))
        },
        TreeRead::Parsed(t) => Ok(TreeLoaded { tree: t, write_back: false }),
    }
}

/// An update replaces the hierarchy whole: once `t` is stored, a read returns
/// exactly `t`, whatever was stored before, and writes nothing.
pub proof fn lemma_update_then_get(t: TreeStructure)
    ensures
        tree_read_result(TreeRead::Parsed(t)) == Ok::<(TreeView, bool), Seq<char>>((t@, false)),
{
}

} // verus!
