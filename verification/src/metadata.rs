//! The resolved workspace: packages, the dependency graph between them, and
//! the mathematical model that the contracts of this crate speak of.

use vstd::hash_map::StringHashMap;
use vstd::prelude::*;

verus! {

/// The view of an optional string.
pub open spec fn optional_text(text: Option<String>) -> Option<Seq<char>> {
    match text {
        Some(t) => Some(t@),
        None => None,
    }
}

/// The views of the elements of a sequence, in the same order.
pub open spec fn views<T: View>(items: Seq<T>) -> Seq<T::V> {
    items.map_values(|item: T| item@)
}

/// Identifies one resolved package. Two packages of one name, at different
/// versions or from different sources, have different identifiers.
#[derive(Debug)]
pub struct PackageId {
    pub repr: String,
}

impl View for PackageId {
    type V = Seq<char>;

    open spec fn view(&self) -> Seq<char> {
        self.repr@
    }
}

impl Clone for PackageId {
    fn clone(&self) -> (id: PackageId)
        ensures
            id@ == self@,
    {
        PackageId { repr: self.repr.clone() }
    }
}

impl PackageId {
    pub fn new(repr: String) -> (id: PackageId)
        ensures
            id@ == repr@,
    {
        PackageId { repr }
    }

    /// Whether two identifiers name the same package.
    pub fn same(&self, other: &PackageId) -> (same: bool)
        ensures
            same == (self@ == other@),
    {
        self.repr == other.repr
    }
}

/// A dependency as a package declares it.
#[derive(Debug)]
pub struct Dependency {
    /// The name of the package depended on.
    pub name: String,
    /// The name under which the dependent refers to it, if it gave one.
    pub rename: Option<String>,
}

pub struct DependencyView {
    pub name: Seq<char>,
    pub rename: Option<Seq<char>>,
}

impl View for Dependency {
    type V = DependencyView;

    open spec fn view(&self) -> DependencyView {
        DependencyView {
            name: self.name@,
            rename: optional_text(self.rename),
        }
    }
}

/// What the resolved metadata tells of one package.
#[derive(Debug)]
pub struct Package {
    pub name: String,
    /// The dependencies as the package declares them, in declaration order.
    pub dependencies: Vec<Dependency>,
    /// The names of the optional capabilities that the package exposes. What
    /// each of them enables in turn is of no concern here.
    pub features: Vec<String>,
    /// Where the package's manifest lies.
    pub manifest_path: String,
    /// Whether the package may be published. The tool reports this only from
    /// a certain capability level on; below it the field is `None`.
    pub publish: Option<bool>,
}

pub struct PackageView {
    pub name: Seq<char>,
    pub dependencies: Seq<DependencyView>,
    pub features: Seq<Seq<char>>,
    pub manifest_path: Seq<char>,
    pub publish: Option<bool>,
}

impl View for Package {
    type V = PackageView;

    open spec fn view(&self) -> PackageView {
        PackageView {
            name: self.name@,
            dependencies: views(self.dependencies@),
            features: views(self.features@),
            manifest_path: self.manifest_path@,
            publish: self.publish,
        }
    }
}

/// One annotation on an edge of the resolved graph: the role the dependency
/// plays, and the platform it is restricted to. An ordinary dependency has
/// no kind; an unrestricted one has no target.
#[derive(Debug)]
pub struct DepKindInfo {
    pub kind: Option<String>,
    pub target: Option<String>,
}

pub struct DepKindView {
    pub kind: Option<Seq<char>>,
    pub target: Option<Seq<char>>,
}

impl View for DepKindInfo {
    type V = DepKindView;

    open spec fn view(&self) -> DepKindView {
        DepKindView { kind: optional_text(self.kind), target: optional_text(self.target) }
    }
}

/// An edge of the resolved graph.
#[derive(Debug)]
pub struct NodeDep {
    /// The package the edge leads to.
    pub pkg: PackageId,
    /// The name of the dependency as the graph records it.
    pub name: String,
    pub dep_kinds: Vec<DepKindInfo>,
}

pub struct NodeDepView {
    pub pkg: Seq<char>,
    pub name: Seq<char>,
    pub dep_kinds: Seq<DepKindView>,
}

impl View for NodeDep {
    type V = NodeDepView;

    open spec fn view(&self) -> NodeDepView {
        NodeDepView { pkg: self.pkg@, name: self.name@, dep_kinds: views(self.dep_kinds@) }
    }
}

/// A vertex of the resolved graph: the edges that leave one package.
#[derive(Debug)]
pub struct Node {
    pub deps: Vec<NodeDep>,
}

pub struct NodeView {
    pub deps: Seq<NodeDepView>,
}

impl View for Node {
    type V = NodeView;

    open spec fn view(&self) -> NodeView {
        NodeView { deps: views(self.deps@) }
    }
}

/// The map that a list of entries describes: each identifier leads to the
/// value of the last entry that carries it.
pub open spec fn index_by_id<V>(entries: Seq<(Seq<char>, V)>) -> Map<Seq<char>, V>
    decreases entries.len(),
{
    if entries.len() == 0 {
        Map::empty()
    } else {
        index_by_id(entries.drop_last()).insert(entries.last().0, entries.last().1)
    }
}

/// The resolved workspace, as the tool reports it.
pub struct Metadata {
    workspace_root: String,
    packages: StringHashMap<Package>,
    nodes: StringHashMap<Node>,
    workspace_members: Vec<PackageId>,
    root: Option<PackageId>,
}

pub struct MetadataView {
    pub workspace_root: Seq<char>,
    /// Every package of the workspace and of its dependencies.
    pub packages: Map<Seq<char>, PackageView>,
    /// The resolved graph.
    pub nodes: Map<Seq<char>, NodeView>,
    pub workspace_members: Seq<Seq<char>>,
    /// The package that the invocation is aimed at, where it is one package.
    pub root: Option<Seq<char>>,
}

impl MetadataView {
    /// Whether every member of the workspace is among the packages.
    pub open spec fn describes_members(self) -> bool {
        forall|i: int|
            0 <= i < self.workspace_members.len() ==> self.packages.contains_key(
                #[trigger] self.workspace_members[i],
            )
    }
}

impl View for Metadata {
    type V = MetadataView;

    closed spec fn view(&self) -> MetadataView {
        MetadataView {
            workspace_root: self.workspace_root@,
            packages: self.packages@.map_values(|p: Package| p@),
            nodes: self.nodes@.map_values(|n: Node| n@),
            workspace_members: views(self.workspace_members@),
            root: match self.root {
                Some(id) => Some(id@),
                None => None,
            },
        }
    }
}

impl Metadata {
    /// Gathers the parts of a resolved workspace, indexing packages and graph
    /// vertices by identifier.
    pub fn new(
        workspace_root: String,
        packages: Vec<(PackageId, Package)>,
        nodes: Vec<(PackageId, Node)>,
        workspace_members: Vec<PackageId>,
        root: Option<PackageId>,
    ) -> (metadata: Metadata)
        ensures
            metadata@.workspace_root == workspace_root@,
            metadata@.packages == index_by_id(views(packages@)),
            metadata@.nodes == index_by_id(views(nodes@)),
            metadata@.workspace_members == views(workspace_members@),
            metadata@.root == match root {
                Some(id) => Some(id@),
                None => None,
            },
    {
        let ghost package_entries = views(packages@);
        let ghost node_entries = views(nodes@);
        let mut package_map: StringHashMap<Package> = StringHashMap::new();
        for entry in it: packages
            invariant
                package_map@.map_values(|p: Package| p@) =~= index_by_id(
                    package_entries.take(it.index() as int),
                ),
                package_entries == views(it.seq()),
        {
            proof {
                let done = package_entries.take(it.index() as int + 1);
                assert(done.drop_last() =~= package_entries.take(it.index() as int));
            }
            let (id, package) = entry;
            package_map.insert(id.repr, package);
        }
        assert(package_entries.take(package_entries.len() as int) =~= package_entries);
        let mut node_map: StringHashMap<Node> = StringHashMap::new();
        for entry in it: nodes
            invariant
                node_map@.map_values(|n: Node| n@) =~= index_by_id(
                    node_entries.take(it.index() as int),
                ),
                node_entries == views(it.seq()),
        {
            proof {
                let done = node_entries.take(it.index() as int + 1);
                assert(done.drop_last() =~= node_entries.take(it.index() as int));
            }
            let (id, node) = entry;
            node_map.insert(id.repr, node);
        }
        assert(node_entries.take(node_entries.len() as int) =~= node_entries);
        Metadata { workspace_root, packages: package_map, nodes: node_map, workspace_members, root }
    }

    /// The package with the given identifier, if the metadata holds one.
    pub fn package(&self, id: &PackageId) -> (found: Option<&Package>)
        ensures
            match found {
                Some(package) => self@.packages.contains_key(id@) && package@
                    == self@.packages[id@],
                None => !self@.packages.contains_key(id@),
            },
    {
        self.packages.get(id.repr.as_str())
    }

    /// The graph vertex of the given package, if the metadata holds one.
    pub fn node(&self, id: &PackageId) -> (found: Option<&Node>)
        ensures
            match found {
                Some(node) => self@.nodes.contains_key(id@) && node@ == self@.nodes[id@],
                None => !self@.nodes.contains_key(id@),
            },
    {
        self.nodes.get(id.repr.as_str())
    }

    pub fn workspace_root(&self) -> (root: &String)
        ensures
            root@ == self@.workspace_root,
    {
        &self.workspace_root
    }

    /// The members of the workspace, in the order the tool lists them.
    pub fn workspace_members(&self) -> (members: &Vec<PackageId>)
        ensures
            views(members@) == self@.workspace_members,
    {
        &self.workspace_members
    }

    /// The package that the invocation is aimed at, where it is one package.
    pub fn root(&self) -> (root: Option<&PackageId>)
        ensures
            match root {
                Some(id) => self@.root == Some(id@),
                None => self@.root is None,
            },
    {
        self.root.as_ref()
    }

    /// Whether every member of the workspace is among the packages.
    pub fn describes_members(&self) -> (all: bool)
        ensures
            all == self@.describes_members(),
    {
        let mut i: usize = 0;
        while i < self.workspace_members.len()
            invariant
                i <= self.workspace_members.len(),
                forall|j: int|
                    0 <= j < i ==> self@.packages.contains_key(
                        #[trigger] self@.workspace_members[j],
                    ),
            decreases self.workspace_members.len() - i,
        {
            if self.package(&self.workspace_members[i]).is_none() {
                assert(!self@.packages.contains_key(self@.workspace_members[i as int]));
                return false;
            }
            i += 1;
        }
        true
    }
}

/// An identifier is indexed exactly when some entry carries it.
pub proof fn lemma_index_by_id_domain<V>(entries: Seq<(Seq<char>, V)>, id: Seq<char>)
    ensures
        index_by_id(entries).contains_key(id) <==> exists|i: int|
            0 <= i < entries.len() && (#[trigger] entries[i]).0 == id,
    decreases entries.len(),
{
    if entries.len() > 0 {
        let front = entries.drop_last();
        lemma_index_by_id_domain(front, id);
        if index_by_id(entries).contains_key(id) {
            if entries.last().0 == id {
                assert(entries[entries.len() - 1].0 == id);
            } else {
                let i = choose|i: int| 0 <= i < front.len() && (#[trigger] front[i]).0 == id;
                assert(entries[i].0 == id);
            }
        }
        if exists|i: int| 0 <= i < entries.len() && (#[trigger] entries[i]).0 == id {
            let i = choose|i: int| 0 <= i < entries.len() && (#[trigger] entries[i]).0 == id;
            if i < front.len() {
                assert(front[i].0 == id);
            }
        }
    }
}

/// Where several entries carry one identifier, the last of them is indexed.
pub proof fn lemma_index_by_id_last_wins<V>(entries: Seq<(Seq<char>, V)>, i: int)
    requires
        0 <= i < entries.len(),
        forall|j: int| i < j < entries.len() ==> (#[trigger] entries[j]).0 != entries[i].0,
    ensures
        index_by_id(entries).contains_key(entries[i].0),
        index_by_id(entries)[entries[i].0] == entries[i].1,
    decreases entries.len(),
{
    if i < entries.len() - 1 {
        let front = entries.drop_last();
        assert(entries[entries.len() - 1].0 != entries[i].0);
        assert forall|j: int| i < j < front.len() implies (#[trigger] front[j]).0
            != front[i].0 by {
            assert(entries[j].0 != entries[i].0);
        }
        lemma_index_by_id_last_wins(front, i);
    }
}

} // verus!
