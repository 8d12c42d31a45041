//! Which capability flags a package has to hand on to its dependencies.
//!
//! A package that is built with some optional capabilities switched on wants
//! the packages it depends on built to match. For each dependency that is
//! always part of the build, and each capability that the dependency exposes,
//! the flag `dependency/capability` says so, as a user would write it.
//!
//! Two things are left as they are. A dependency is matched to its
//! declaration by the name of the package it resolves to, so of several
//! declarations of one package name only the first is ever found. And edges
//! that the resolved graph does not hold contribute nothing.

use crate::metadata::views;
use crate::metadata::DepKindInfo;
use crate::metadata::DepKindView;
use crate::metadata::Dependency;
use crate::metadata::DependencyView;
use crate::metadata::Metadata;
use crate::metadata::MetadataView;
use crate::metadata::NodeDep;
use crate::metadata::NodeDepView;
use crate::metadata::PackageId;
use crate::metadata::PackageView;
use vstd::prelude::*;

verus! {

/// An annotation of an ordinary dependency on every platform: it names no
/// kind and no target.
pub open spec fn unconditional(kind: DepKindView) -> bool {
    kind.kind is None && kind.target is None
}

/// Whether an edge hands capabilities on: at least one of its annotations is
/// unconditional. An edge without annotations hands on nothing.
pub open spec fn propagates(edge: NodeDepView) -> bool {
    exists|i: int| 0 <= i < edge.dep_kinds.len() && unconditional(#[trigger] edge.dep_kinds[i])
}

/// Whether the declaration at `i` is the first one of a package called `name`.
pub open spec fn first_named(deps: Seq<DependencyView>, name: Seq<char>, i: int) -> bool {
    &&& 0 <= i < deps.len()
    &&& deps[i].name == name
    &&& forall|j: int| 0 <= j < i ==> (#[trigger] deps[j]).name != name
}

/// The first declaration of a package called `name`. An alias plays no part
/// in the search.
pub open spec fn declaration_of(deps: Seq<DependencyView>, name: Seq<char>) -> Option<
    DependencyView,
> {
    if exists|i: int| first_named(deps, name, i) {
        Some(deps[choose|i: int| first_named(deps, name, i)])
    } else {
        None
    }
}

/// The name under which a package refers to a dependency: the alias where
/// one was given, the name of the package depended on otherwise.
pub open spec fn prefix_of(dep: DependencyView) -> Seq<char> {
    match dep.rename {
        Some(alias) => alias,
        None => dep.name,
    }
}

/// The flag that switches on `feature` in the dependency known as `prefix`.
pub open spec fn flag(prefix: Seq<char>, feature: Seq<char>) -> Seq<char> {
    prefix + seq!['/'] + feature
}

/// One flag for each of `features`, in their order.
pub open spec fn flags(prefix: Seq<char>, features: Seq<Seq<char>>) -> Seq<Seq<char>> {
    features.map_values(|feature: Seq<char>| flag(prefix, feature))
}

/// The flags that one edge of `package` contributes.
pub open spec fn edge_flags(
    package: PackageView,
    edge: NodeDepView,
    packages: Map<Seq<char>, PackageView>,
) -> Seq<Seq<char>> {
    if propagates(edge) {
        let target = packages[edge.pkg];
        match declaration_of(package.dependencies, target.name) {
            Some(dep) => flags(prefix_of(dep), target.features),
            None => Seq::empty(),
        }
    } else {
        Seq::empty()
    }
}

/// The flags that a run of edges of `package` contributes: those of each
/// edge, one edge after the other. Nothing is sorted and nothing is dropped
/// as a duplicate.
pub open spec fn edges_flags(
    package: PackageView,
    edges: Seq<NodeDepView>,
    packages: Map<Seq<char>, PackageView>,
) -> Seq<Seq<char>> {
    edges.flat_map(|edge: NodeDepView| edge_flags(package, edge, packages))
}

/// The flags that the package `id` hands on to its dependencies.
pub open spec fn deps_features(metadata: MetadataView, id: Seq<char>) -> Seq<Seq<char>> {
    edges_flags(metadata.packages[id], metadata.nodes[id].deps, metadata.packages)
}

/// Whether `text` is the flag that edge `e` of the package `id` contributes
/// for the capability at `k` of the package the edge leads to.
pub open spec fn contributes(
    metadata: MetadataView,
    id: Seq<char>,
    e: int,
    k: int,
    text: Seq<char>,
) -> bool {
    let edges = metadata.nodes[id].deps;
    let target = metadata.packages[edges[e].pkg];
    &&& 0 <= e < edges.len()
    &&& propagates(edges[e])
    &&& 0 <= k < target.features.len()
    &&& match declaration_of(metadata.packages[id].dependencies, target.name) {
        Some(dep) => text == flag(prefix_of(dep), target.features[k]),
        None => false,
    }
}

/// Whether the metadata holds all that the flags of `id` are derived from:
/// the package, its vertex, and the package at the end of every edge that
/// hands capabilities on.
pub open spec fn derivable(metadata: MetadataView, id: Seq<char>) -> bool {
    &&& metadata.packages.contains_key(id)
    &&& metadata.nodes.contains_key(id)
    &&& forall|i: int|
        0 <= i < metadata.nodes[id].deps.len() && propagates(#[trigger] metadata.nodes[id].deps[i])
            ==> metadata.packages.contains_key(metadata.nodes[id].deps[i].pkg)
}

/// Whether an annotation is that of an ordinary dependency on every platform.
pub fn is_unconditional(kind: &DepKindInfo) -> (plain: bool)
    ensures
        plain == unconditional(kind@),
{
    kind.kind.is_none() && kind.target.is_none()
}

/// Whether an edge hands capabilities on.
pub fn is_propagating(edge: &NodeDep) -> (any: bool)
    ensures
        any == propagates(edge@),
{
    let mut i: usize = 0;
    while i < edge.dep_kinds.len()
        invariant
            i <= edge.dep_kinds.len(),
            forall|j: int| 0 <= j < i ==> !unconditional(#[trigger] edge@.dep_kinds[j]),
        decreases edge.dep_kinds.len() - i,
    {
        if is_unconditional(&edge.dep_kinds[i]) {
            assert(unconditional(edge@.dep_kinds[i as int]));
            return true;
        }
        i += 1;
    }
    false
}

/// The first declaration of a package called `name`.
pub fn find_declaration<'a>(deps: &'a Vec<Dependency>, name: &String) -> (found: Option<
    &'a Dependency,
>)
    ensures
        match found {
            Some(dep) => declaration_of(views(deps@), name@) == Some(dep@),
            None => declaration_of(views(deps@), name@) is None,
        },
{
    let mut i: usize = 0;
    while i < deps.len()
        invariant
            i <= deps.len(),
            forall|j: int| 0 <= j < i ==> (#[trigger] views(deps@)[j]).name != name@,
        decreases deps.len() - i,
    {
        if deps[i].name == *name {
            proof {
                lemma_first_named_is_found(views(deps@), name@, i as int);
            }
            return Some(&deps[i]);
        }
        i += 1;
    }
    assert forall|k: int| !first_named(views(deps@), name@, k) by {
        if 0 <= k < deps.len() {
            assert(views(deps@)[k].name != name@);
        }
    }
    None
}

/// The flag that switches on `feature` in the dependency known as `prefix`.
pub fn flag_for(prefix: &String, feature: &String) -> (text: String)
    ensures
        text@ == flag(prefix@, feature@),
{
    proof {
        reveal_strlit("/");
    }
    let mut text = prefix.clone();
    text.append("/");
    assert("/"@ =~= seq!['/']);
    text.append(feature.as_str());
    text
}

/// Appends to `out` one flag for each of `features`.
pub fn push_flags(out: &mut Vec<String>, prefix: &String, features: &Vec<String>)
    ensures
        views(final(out)@) == views(old(out)@) + flags(prefix@, views(features@)),
{
    let mut i: usize = 0;
    while i < features.len()
        invariant
            i <= features.len(),
            views(out@) == views(old(out)@) + flags(prefix@, views(features@)).take(i as int),
        decreases features.len() - i,
    {
        let ghost before = views(out@);
        let ghost all = flags(prefix@, views(features@));
        let text = flag_for(prefix, &features[i]);
        out.push(text);
        proof {
            assert(views(features@)[i as int] == features@[i as int]@);
            assert(all[i as int] == text@);
            assert(views(out@) =~= before.push(text@));
            assert(all.take(i as int + 1) =~= all.take(i as int).push(text@));
        }
        i += 1;
    }
    assert(flags(prefix@, views(features@)).take(features.len() as int) =~= flags(
        prefix@,
        views(features@),
    ));
}

/// Whether the metadata holds all that the flags of `id` are derived from.
pub fn is_derivable(metadata: &Metadata, id: &PackageId) -> (complete: bool)
    ensures
        complete == derivable(metadata@, id@),
{
    if metadata.package(id).is_none() {
        return false;
    }
    match metadata.node(id) {
        None => false,
        Some(node) => {
            let mut i: usize = 0;
            while i < node.deps.len()
                invariant
                    i <= node.deps.len(),
                    node@ == metadata@.nodes[id@],
                    forall|j: int|
                        0 <= j < i && propagates(#[trigger] node@.deps[j])
                            ==> metadata@.packages.contains_key(node@.deps[j].pkg),
                decreases node.deps.len() - i,
            {
                let edge = &node.deps[i];
                assert(edge@ == node@.deps[i as int]);
                if is_propagating(edge) && metadata.package(&edge.pkg).is_none() {
                    return false;
                }
                i += 1;
            }
            true
        },
    }
}

/// The flags that the package `id` hands on to its dependencies.
pub fn derive_flags(metadata: &Metadata, id: &PackageId) -> (features: Vec<String>)
    requires
        derivable(metadata@, id@),
    ensures
        views(features@) == deps_features(metadata@, id@),
{
    let node = metadata.node(id).unwrap();
    let package = metadata.package(id).unwrap();
    let ghost per_edge = |edge: NodeDepView|
        edge_flags(metadata@.packages[id@], edge, metadata@.packages);
    let mut features: Vec<String> = Vec::new();
    let mut i: usize = 0;
    assert(views(features@) =~= node@.deps.take(0).flat_map(per_edge));
    while i < node.deps.len()
        invariant
            i <= node.deps.len(),
            derivable(metadata@, id@),
            node@ == metadata@.nodes[id@],
            package@ == metadata@.packages[id@],
            per_edge == |edge: NodeDepView|
                edge_flags(metadata@.packages[id@], edge, metadata@.packages),
            views(features@) == node@.deps.take(i as int).flat_map(per_edge),
        decreases node.deps.len() - i,
    {
        let edge = &node.deps[i];
        assert(edge@ == node@.deps[i as int]);
        proof {
            node@.deps.lemma_flat_map_take_append(per_edge, i as int);
        }
        if is_propagating(edge) {
            let target = metadata.package(&edge.pkg).unwrap();
            match find_declaration(&package.dependencies, &target.name) {
                Some(dep) => {
                    match &dep.rename {
                        Some(alias) => push_flags(&mut features, alias, &target.features),
                        None => push_flags(&mut features, &dep.name, &target.features),
                    }
                },
                None => {
                    assert(views(features@) =~= views(features@) + Seq::<Seq<char>>::empty());
                },
            }
        } else {
            assert(views(features@) =~= views(features@) + Seq::<Seq<char>>::empty());
        }
        i += 1;
    }
    assert(node@.deps.take(node.deps.len() as int) =~= node@.deps);
    features
}

/// A declaration before which no other bears the name is the one found.
pub proof fn lemma_first_named_is_found(deps: Seq<DependencyView>, name: Seq<char>, i: int)
    requires
        first_named(deps, name, i),
    ensures
        declaration_of(deps, name) == Some(deps[i]),
{
    let k = choose|k: int| first_named(deps, name, k);
    assert(first_named(deps, name, k));
    if k < i {
        assert(deps[k].name != name);
    }
    if i < k {
        assert(deps[i].name != name);
    }
}

/// The flags of a run of edges are those of any front part of it, followed
/// by those of the rest: the flags come in the order of the edges.
pub proof fn lemma_flags_follow_edges(
    package: PackageView,
    front: Seq<NodeDepView>,
    rest: Seq<NodeDepView>,
    packages: Map<Seq<char>, PackageView>,
)
    ensures
        edges_flags(package, front + rest, packages) == edges_flags(package, front, packages)
            + edges_flags(package, rest, packages),
{
    let per_edge = |edge: NodeDepView| edge_flags(package, edge, packages);
    assert((front + rest).map_values(per_edge) =~= front.map_values(per_edge) + rest.map_values(
        per_edge,
    ));
    vstd::seq_lib::lemma_flatten_concat(front.map_values(per_edge), rest.map_values(per_edge));
}

/// A single edge contributes its own flags and no others.
pub proof fn lemma_flags_of_one_edge(
    package: PackageView,
    edge: NodeDepView,
    packages: Map<Seq<char>, PackageView>,
)
    ensures
        edges_flags(package, seq![edge], packages) == edge_flags(package, edge, packages),
{
    let per_edge = |edge: NodeDepView| edge_flags(package, edge, packages);
    seq![edge].lemma_flat_map_singleton(per_edge);
}

/// Edges that are all restricted to a role or to a platform hand on nothing.
pub proof fn lemma_conditional_edges_hand_on_nothing(
    package: PackageView,
    edges: Seq<NodeDepView>,
    packages: Map<Seq<char>, PackageView>,
)
    requires
        forall|i: int| 0 <= i < edges.len() ==> !propagates(#[trigger] edges[i]),
    ensures
        edges_flags(package, edges, packages) == Seq::<Seq<char>>::empty(),
    decreases edges.len(),
{
    let per_edge = |edge: NodeDepView| edge_flags(package, edge, packages);
    if edges.len() == 0 {
        assert(edges.map_values(per_edge) =~= Seq::<Seq<Seq<char>>>::empty());
    } else {
        let front = edges.drop_last();
        assert(edges =~= front + seq![edges.last()]);
        assert forall|i: int| 0 <= i < front.len() implies !propagates(#[trigger] front[i]) by {
            assert(front[i] == edges[i]);
        }
        lemma_conditional_edges_hand_on_nothing(package, front, packages);
        lemma_flags_follow_edges(package, front, seq![edges.last()], packages);
        lemma_flags_of_one_edge(package, edges.last(), packages);
        assert(!propagates(edges[edges.len() - 1]));
    }
}

/// A package whose edges are all restricted to a role or to a platform hands
/// on no flag at all.
pub proof fn lemma_no_flags_without_unconditional_edge(metadata: MetadataView, id: Seq<char>)
    requires
        forall|i: int|
            0 <= i < metadata.nodes[id].deps.len() ==> !propagates(
                #[trigger] metadata.nodes[id].deps[i],
            ),
    ensures
        deps_features(metadata, id).len() == 0,
{
    lemma_conditional_edges_hand_on_nothing(
        metadata.packages[id],
        metadata.nodes[id].deps,
        metadata.packages,
    );
}

/// A text is among the flags of a run of edges exactly when one of the edges
/// contributes it.
pub proof fn lemma_flag_comes_from_an_edge(
    package: PackageView,
    edges: Seq<NodeDepView>,
    packages: Map<Seq<char>, PackageView>,
    text: Seq<char>,
)
    ensures
        edges_flags(package, edges, packages).contains(text) <==> exists|e: int|
            0 <= e < edges.len() && edge_flags(package, #[trigger] edges[e], packages).contains(
                text,
            ),
    decreases edges.len(),
{
    let per_edge = |edge: NodeDepView| edge_flags(package, edge, packages);
    let all = edges_flags(package, edges, packages);
    if edges.len() == 0 {
        assert(edges.map_values(per_edge) =~= Seq::<Seq<Seq<char>>>::empty());
        assert(all.len() == 0);
    } else {
        let front = edges.drop_last();
        let last = edges.last();
        let of_front = edges_flags(package, front, packages);
        let of_last = edge_flags(package, last, packages);
        assert(edges =~= front + seq![last]);
        lemma_flag_comes_from_an_edge(package, front, packages, text);
        lemma_flags_follow_edges(package, front, seq![last], packages);
        lemma_flags_of_one_edge(package, last, packages);
        assert(all == of_front + of_last);
        if all.contains(text) {
            let n = choose|n: int| 0 <= n < all.len() && all[n] == text;
            if n < of_front.len() {
                assert(of_front[n] == text);
                let e = choose|e: int|
                    0 <= e < front.len() && edge_flags(package, #[trigger] front[e], packages).contains(
                        text,
                    );
                assert(edges[e] == front[e]);
            } else {
                assert(of_last[n - of_front.len()] == text);
                assert(edges[edges.len() - 1] == last);
            }
        }
        if exists|e: int|
            0 <= e < edges.len() && edge_flags(package, #[trigger] edges[e], packages).contains(
                text,
            ) {
            let e = choose|e: int|
                0 <= e < edges.len() && edge_flags(package, #[trigger] edges[e], packages).contains(
                    text,
                );
            if e < front.len() {
                assert(front[e] == edges[e]);
                assert(of_front.contains(text));
                let n = choose|n: int| 0 <= n < of_front.len() && of_front[n] == text;
                assert(all[n] == text);
            } else {
                let n = choose|n: int| 0 <= n < of_last.len() && of_last[n] == text;
                assert(all[of_front.len() + n] == text);
            }
        }
    }
}

/// A text is among the flags that a package hands on exactly when one of its
/// edges contributes it for one capability of the package the edge leads to.
pub proof fn lemma_deps_features_membership(metadata: MetadataView, id: Seq<char>, text: Seq<char>)
    ensures
        deps_features(metadata, id).contains(text) <==> exists|e: int, k: int|
            contributes(metadata, id, e, k, text),
{
    let package = metadata.packages[id];
    let edges = metadata.nodes[id].deps;
    let packages = metadata.packages;
    lemma_flag_comes_from_an_edge(package, edges, packages, text);
    if deps_features(metadata, id).contains(text) {
        let e = choose|e: int|
            0 <= e < edges.len() && edge_flags(package, #[trigger] edges[e], packages).contains(
                text,
            );
        let of_edge = edge_flags(package, edges[e], packages);
        let k = choose|k: int| 0 <= k < of_edge.len() && of_edge[k] == text;
        assert(contributes(metadata, id, e, k, text));
    }
    if exists|e: int, k: int| contributes(metadata, id, e, k, text) {
        let (e, k) = choose|e: int, k: int| contributes(metadata, id, e, k, text);
        let of_edge = edge_flags(package, edges[e], packages);
        assert(of_edge[k] == text);
    }
}

/// Where a declaration gives an alias, the flags for that dependency begin
/// with the alias, whatever the package depended on is called.
pub proof fn lemma_alias_is_the_prefix(
    metadata: MetadataView,
    id: Seq<char>,
    e: int,
    k: int,
    alias: Seq<char>,
)
    requires
        0 <= e < metadata.nodes[id].deps.len(),
        propagates(metadata.nodes[id].deps[e]),
        0 <= k < metadata.packages[metadata.nodes[id].deps[e].pkg].features.len(),
        declaration_of(
            metadata.packages[id].dependencies,
            metadata.packages[metadata.nodes[id].deps[e].pkg].name,
        ) matches Some(dep) && dep.rename == Some(alias),
    ensures
        deps_features(metadata, id).contains(
            alias + seq!['/'] + metadata.packages[metadata.nodes[id].deps[e].pkg].features[k],
        ),
{
    let target = metadata.packages[metadata.nodes[id].deps[e].pkg];
    let text = alias + seq!['/'] + target.features[k];
    assert(contributes(metadata, id, e, k, text));
    lemma_deps_features_membership(metadata, id, text);
}

} // verus!
