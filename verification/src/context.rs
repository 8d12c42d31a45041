//! The session: everything one invocation of the harness knows, gathered once
//! and only read afterwards.
//!
//! A session is put together from parts that are obtained elsewhere: the
//! arguments, the location and capability level of the tool, and the resolved
//! workspace. Package manifests are the one part that is read on demand.
//! [`Context::new`] decides whether they are needed at all; if so, it hands
//! back a [`ManifestLoad`] that names one manifest after the other and takes
//! each as it has been read. A session exists only once all of them are in.

use crate::cli::Args;
use crate::cli::ArgsView;
use crate::features::deps_features;
use crate::features::derivable;
use crate::features::derive_flags;
use crate::manifest::Manifest;
use crate::metadata::views;
use crate::metadata::Metadata;
use crate::metadata::MetadataView;
use crate::metadata::Node;
use crate::metadata::Package;
use crate::metadata::PackageId;
use crate::process::ProcessBuilder;
use crate::process::ProcessBuilderView;
use vstd::hash_map::StringHashMap;
use vstd::prelude::*;

verus! {

/// The capability level from which on the resolved metadata itself says
/// whether a package may be published.
pub const PUBLISH_IN_METADATA: u32 = 39;

/// Where a session reads whether a package may be published.
#[derive(Debug, Clone, Copy, PartialEq, Eq, Structural)]
pub enum PublishSource {
    /// The resolved metadata.
    Metadata,
    /// The package's own manifest.
    Manifest,
}

/// The source that a tool of the given capability level calls for.
pub open spec fn source_at(cargo_version: u32) -> PublishSource {
    if cargo_version >= PUBLISH_IN_METADATA {
        PublishSource::Metadata
    } else {
        PublishSource::Manifest
    }
}

/// Whether a package is private, read from the given source. In the metadata
/// a package is private where it is marked as not to be published; a package
/// without a mark is not.
pub open spec fn private_by(source: PublishSource, in_metadata: Option<bool>, in_manifest: bool)
    -> bool {
    match source {
        PublishSource::Metadata => in_metadata == Some(false),
        PublishSource::Manifest => !in_manifest,
    }
}

/// The packages that a session holds a manifest for: every member of the
/// workspace where manifests are needed, none where they are not.
pub open spec fn population(required: bool, members: Seq<Seq<char>>) -> Set<Seq<char>> {
    if required {
        members.to_set()
    } else {
        Set::empty()
    }
}

/// The session of one invocation.
pub struct Context {
    args: Args,
    metadata: Metadata,
    manifests: Option<StringHashMap<Manifest>>,
    cargo: String,
    cargo_version: u32,
    publish_source: PublishSource,
}

pub struct ContextView {
    pub args: ArgsView,
    pub metadata: MetadataView,
    /// The manifests by package, where the invocation needs any; `None` where
    /// it needs none and none was read.
    pub manifests: Option<Map<Seq<char>, Manifest>>,
    /// The executable of the tool.
    pub cargo: Seq<char>,
    /// The capability level of the tool.
    pub cargo_version: u32,
}

impl ContextView {
    /// What holds of every session: its arguments leave something to do, and
    /// where manifests were read at all, there is one for each member of the
    /// workspace and for nothing else.
    pub open spec fn coherent(self) -> bool {
        &&& self.args.names_work()
        &&& match self.manifests {
            Some(manifests) => manifests.dom() =~= self.metadata.workspace_members.to_set(),
            None => true,
        }
    }

    /// The packages that a manifest is held for.
    pub open spec fn manifest_ids(self) -> Set<Seq<char>> {
        match self.manifests {
            Some(manifests) => manifests.dom(),
            None => Set::empty(),
        }
    }

    /// Whether the session can tell if the package `id` is private: the
    /// source that its capability level calls for knows the package.
    pub open spec fn knows_privacy(self, id: Seq<char>) -> bool {
        match source_at(self.cargo_version) {
            PublishSource::Metadata => self.metadata.packages.contains_key(id),
            PublishSource::Manifest => self.manifest_ids().contains(id),
        }
    }

    /// Whether the package `id` is private, as the source that the
    /// capability level calls for has it.
    pub open spec fn is_private(self, id: Seq<char>) -> bool {
        private_by(
            source_at(self.cargo_version),
            self.metadata.packages[id].publish,
            self.manifests->0[id].publish,
        )
    }

    /// The invocation of the tool that the session prepares.
    pub open spec fn process(self) -> ProcessBuilderView {
        ProcessBuilderView { program: self.cargo, display_manifest_path: self.args.verbose }
    }
}

impl View for Context {
    type V = ContextView;

    closed spec fn view(&self) -> ContextView {
        ContextView {
            args: self.args@,
            metadata: self.metadata@,
            manifests: match self.manifests {
                Some(manifests) => Some(manifests@),
                None => None,
            },
            cargo: self.cargo@,
            cargo_version: self.cargo_version,
        }
    }
}

/// A session in the making: manifests are needed, and not all of them have
/// been read yet.
pub struct ManifestLoad {
    args: Args,
    metadata: Metadata,
    manifests: StringHashMap<Manifest>,
    cargo: String,
    cargo_version: u32,
    next: usize,
}

pub struct ManifestLoadView {
    pub args: ArgsView,
    pub metadata: MetadataView,
    /// The manifests taken so far.
    pub loaded: Map<Seq<char>, Manifest>,
    pub cargo: Seq<char>,
    pub cargo_version: u32,
    /// How many members of the workspace have had their manifest taken.
    pub next: nat,
}

impl ManifestLoadView {
    /// The member whose manifest is waited for.
    pub open spec fn pending(self) -> Seq<char> {
        self.metadata.workspace_members[self.next as int]
    }

    /// What holds while manifests are read: one is still waited for, the
    /// metadata tells where each member's manifest lies, and those of the
    /// members before the pending one are in, and no others.
    pub open spec fn coherent(self) -> bool {
        &&& self.args.names_work()
        &&& self.next < self.metadata.workspace_members.len()
        &&& self.metadata.describes_members()
        &&& self.loaded.dom() =~= self.metadata.workspace_members.take(self.next as int).to_set()
    }

    /// The manifests once `manifest` has been taken for the pending member.
    pub open spec fn with(self, manifest: Manifest) -> Map<Seq<char>, Manifest> {
        self.loaded.insert(self.pending(), manifest)
    }
}

impl View for ManifestLoad {
    type V = ManifestLoadView;

    closed spec fn view(&self) -> ManifestLoadView {
        ManifestLoadView {
            args: self.args@,
            metadata: self.metadata@,
            loaded: self.manifests@,
            cargo: self.cargo@,
            cargo_version: self.cargo_version,
            next: self.next as nat,
        }
    }
}

/// How far the making of a session has come.
pub enum Construction {
    /// A manifest has to be read before it can go on.
    Loading(ManifestLoad),
    /// The session is complete.
    Done(Context),
}

impl ManifestLoad {
    pub open spec fn wf(&self) -> bool {
        self@.coherent()
    }

    /// The member of the workspace whose manifest is to be read next.
    pub fn package(&self) -> (id: &PackageId)
        requires
            self.wf(),
        ensures
            id@ == self@.pending(),
    {
        let members = self.metadata.workspace_members();
        assert(views(members@)[self.next as int] == members@[self.next as int]@);
        &members[self.next]
    }

    /// Where the manifest that is to be read next lies.
    pub fn manifest_path(&self) -> (path: &String)
        requires
            self.wf(),
        ensures
            path@ == self@.metadata.packages[self@.pending()].manifest_path,
    {
        let package = self.metadata.package(self.package()).unwrap();
        &package.manifest_path
    }

    /// Takes the manifest of the pending member. The making of the session
    /// goes on to the next member, or ends where this was the last.
    pub fn supply(self, manifest: Manifest) -> (step: Construction)
        requires
            self.wf(),
        ensures
            match step {
                Construction::Loading(load) => {
                    &&& self@.next + 1 < self@.metadata.workspace_members.len()
                    &&& load.wf()
                    &&& load@ == (ManifestLoadView {
                        loaded: self@.with(manifest),
                        next: self@.next + 1,
                        ..self@
                    })
                },
                Construction::Done(context) => {
                    &&& self@.next + 1 == self@.metadata.workspace_members.len()
                    &&& context.wf()
                    &&& context@ == (ContextView {
                        args: self@.args,
                        metadata: self@.metadata,
                        manifests: Some(self@.with(manifest)),
                        cargo: self@.cargo,
                        cargo_version: self@.cargo_version,
                    })
                    &&& context@.manifest_ids() == population(
                        true,
                        self@.metadata.workspace_members,
                    )
                },
            },
    {
        let ghost members = self@.metadata.workspace_members;
        let ghost before = self@;
        let key = self.package().repr.clone();
        let count = self.metadata.workspace_members().len();
        let ManifestLoad { args, metadata, mut manifests, cargo, cargo_version, next } = self;
        manifests.insert(key, manifest);
        proof {
            lemma_take_one_more(members, next as int);
        }
        if next + 1 < count {
            let load = ManifestLoad { args, metadata, manifests, cargo, cargo_version, next: next + 1 };
            assert(load@ == (ManifestLoadView {
                loaded: before.with(manifest),
                next: before.next + 1,
                ..before
            }));
            Construction::Loading(load)
        } else {
            assert(members.take(next as int + 1) =~= members);
            Construction::Done(
                Context {
                    args,
                    metadata,
                    manifests: Some(manifests),
                    cargo,
                    cargo_version,
                    publish_source: choose_source(cargo_version),
                },
            )
        }
    }
}

/// The elements among the first `n + 1` of a sequence are those among the
/// first `n`, and the one at `n`.
proof fn lemma_take_one_more<T>(items: Seq<T>, n: int)
    requires
        0 <= n < items.len(),
    ensures
        items.take(n + 1).to_set() =~= items.take(n).to_set().insert(items[n]),
{
    let more = items.take(n + 1);
    let fewer = items.take(n);
    assert forall|x: T| more.to_set().contains(x) implies fewer.to_set().insert(items[n]).contains(
        x,
    ) by {
        let i = choose|i: int| 0 <= i < more.len() && more[i] == x;
        if i < n {
            assert(fewer[i] == x);
        }
    }
    assert forall|x: T| fewer.to_set().insert(items[n]).contains(x) implies more.to_set().contains(
        x,
    ) by {
        if x == items[n] {
            assert(more[n] == x);
        } else {
            let i = choose|i: int| 0 <= i < fewer.len() && fewer[i] == x;
            assert(more[i] == x);
        }
    }
}

/// The source that a tool of the given capability level calls for.
pub fn choose_source(cargo_version: u32) -> (source: PublishSource)
    ensures
        source == source_at(cargo_version),
{
    if cargo_version >= PUBLISH_IN_METADATA {
        PublishSource::Metadata
    } else {
        PublishSource::Manifest
    }
}

impl Context {
    /// Whether the session reads the publish flag from the source that its
    /// capability level calls for.
    pub closed spec fn source_fits(&self) -> bool {
        self.publish_source == source_at(self.cargo_version)
    }

    pub open spec fn wf(&self) -> bool {
        self@.coherent() && self.source_fits()
    }

    /// Begins a session for arguments that passed the parser, with the tool
    /// at `cargo` of capability level `cargo_version`. `require_manifest_info`
    /// says whether the arguments ask, at that level, for anything that only
    /// the manifests hold. Where they do not, the session is complete at once
    /// and holds no manifest.
    pub fn new(
        args: Args,
        metadata: Metadata,
        cargo: String,
        cargo_version: u32,
        require_manifest_info: bool,
    ) -> (step: Construction)
        requires
            args@.names_work(),
            require_manifest_info ==> metadata@.describes_members(),
        ensures
            match step {
                Construction::Loading(load) => {
                    &&& require_manifest_info
                    &&& metadata@.workspace_members.len() > 0
                    &&& load.wf()
                    &&& load@ == (ManifestLoadView {
                        args: args@,
                        metadata: metadata@,
                        loaded: Map::empty(),
                        cargo: cargo@,
                        cargo_version,
                        next: 0,
                    })
                },
                Construction::Done(context) => {
                    &&& !require_manifest_info || metadata@.workspace_members.len() == 0
                    &&& context.wf()
                    &&& context@ == (ContextView {
                        args: args@,
                        metadata: metadata@,
                        manifests: if require_manifest_info {
                            Some(Map::empty())
                        } else {
                            None
                        },
                        cargo: cargo@,
                        cargo_version,
                    })
                    &&& context@.manifest_ids() == population(
                        require_manifest_info,
                        metadata@.workspace_members,
                    )
                },
            },
    {
        if !require_manifest_info {
            return Construction::Done(
                Context {
                    args,
                    metadata,
                    manifests: None,
                    cargo,
                    cargo_version,
                    publish_source: choose_source(cargo_version),
                },
            );
        }
        let members = metadata.workspace_members().len();
        let manifests: StringHashMap<Manifest> = StringHashMap::with_capacity(members);
        if members == 0 {
            assert(metadata@.workspace_members.to_set() =~= Set::<Seq<char>>::empty());
            Construction::Done(
                Context {
                    args,
                    metadata,
                    manifests: Some(manifests),
                    cargo,
                    cargo_version,
                    publish_source: choose_source(cargo_version),
                },
            )
        } else {
            assert(metadata@.workspace_members.take(0).to_set() =~= Set::<Seq<char>>::empty());
            Construction::Loading(
                ManifestLoad { args, metadata, manifests, cargo, cargo_version, next: 0 },
            )
        }
    }

    /// The package with the given identifier, which has to be one that the
    /// metadata describes.
    pub fn packages(&self, id: &PackageId) -> (package: &Package)
        requires
            self@.metadata.packages.contains_key(id@),
        ensures
            package@ == self@.metadata.packages[id@],
    {
        self.metadata.package(id).unwrap()
    }

    /// The members of the workspace. The list can be walked any number of
    /// times.
    pub fn workspace_members(&self) -> (members: &Vec<PackageId>)
        ensures
            views(members@) == self@.metadata.workspace_members,
    {
        self.metadata.workspace_members()
    }

    /// The graph vertex of the given package, which has to be one that the
    /// graph holds.
    pub fn nodes(&self, id: &PackageId) -> (node: &Node)
        requires
            self@.metadata.nodes.contains_key(id@),
        ensures
            node@ == self@.metadata.nodes[id@],
    {
        self.metadata.node(id).unwrap()
    }

    /// The package that the invocation is aimed at; `None` where it is aimed
    /// at the workspace as a whole.
    pub fn current_package(&self) -> (current: Option<&PackageId>)
        ensures
            match current {
                Some(id) => self@.metadata.root == Some(id@),
                None => self@.metadata.root is None,
            },
    {
        self.metadata.root()
    }

    pub fn workspace_root(&self) -> (root: &String)
        ensures
            root@ == self@.metadata.workspace_root,
    {
        self.metadata.workspace_root()
    }

    /// Whether manifests were read for this session.
    pub fn holds_manifests(&self) -> (held: bool)
        ensures
            held == self@.manifests is Some,
    {
        self.manifests.is_some()
    }

    /// The manifest of the given package. Only a session that read manifests
    /// has any, and then one for each member of the workspace.
    pub fn manifests(&self, id: &PackageId) -> (manifest: &Manifest)
        requires
            self@.manifest_ids().contains(id@),
        ensures
            self@.manifests matches Some(manifests) && *manifest == manifests[id@],
    {
        self.manifests.as_ref().unwrap().get(id.repr.as_str()).unwrap()
    }

    /// Where this session reads whether a package may be published.
    pub fn publish_source(&self) -> (source: PublishSource)
        requires
            self.wf(),
        ensures
            source == source_at(self@.cargo_version),
    {
        self.publish_source
    }

    /// Whether the given package is marked as not to be published.
    pub fn is_private(&self, id: &PackageId) -> (private: bool)
        requires
            self.wf(),
            self@.knows_privacy(id@),
        ensures
            private == self@.is_private(id@),
    {
        match self.publish_source {
            PublishSource::Metadata => match self.packages(id).publish {
                Some(publish) => !publish,
                None => false,
            },
            PublishSource::Manifest => !self.manifests(id).publish,
        }
    }

    /// A new invocation of the tool. It reports the manifest path it works on
    /// where the arguments ask for full reports.
    pub fn process(&self) -> (command: ProcessBuilder)
        ensures
            command@ == self@.process(),
    {
        let mut command = ProcessBuilder::new(&self.cargo);
        if self.verbose {
            command.display_manifest_path();
        }
        command
    }

    /// The flags that the given package hands on to its dependencies.
    pub fn deps_features(&self, id: &PackageId) -> (features: Vec<String>)
        requires
            derivable(self@.metadata, id@),
        ensures
            views(features@) == deps_features(self@.metadata, id@),
    {
        derive_flags(&self.metadata, id)
    }
}

/// A session holds a manifest for every member of the workspace and for
/// nothing else, or it holds none at all.
pub proof fn lemma_manifests_cover_members(context: ContextView)
    requires
        context.coherent(),
    ensures
        context.manifest_ids() == population(
            context.manifests is Some,
            context.metadata.workspace_members,
        ),
        forall|i: int|
            0 <= i < context.metadata.workspace_members.len() && context.manifests is Some
                ==> context.manifest_ids().contains(#[trigger] context.metadata.workspace_members[i]),
{
}

/// Below the level from which the metadata tells it, whether a package is
/// private is read from its manifest; from that level on, from the metadata.
pub proof fn lemma_privacy_follows_level(context: ContextView, id: Seq<char>)
    ensures
        context.cargo_version < PUBLISH_IN_METADATA ==> context.is_private(id)
            == !context.manifests->0[id].publish,
        context.cargo_version >= PUBLISH_IN_METADATA ==> context.is_private(id) == (
        context.metadata.packages[id].publish == Some(false)),
{
}

/// Where the metadata and the manifest say the same of a package, the
/// capability level makes no difference to whether it is private.
pub proof fn lemma_sources_agree(context: ContextView, id: Seq<char>, level: u32)
    requires
        context.manifests is Some,
        context.metadata.packages[id].publish == Some(context.manifests->0[id].publish),
    ensures
        (ContextView { cargo_version: level, ..context }).is_private(id) == context.is_private(id),
{
}

impl core::ops::Deref for Context {
    type Target = Args;

    /// The arguments of the invocation.
    fn deref(&self) -> (args: &Args)
        ensures
            args@ == self@.args,
    {
        &self.args
    }
}

} // verus!
