use session_context::metadata::Dependency;
use session_context::metadata::Metadata;
use session_context::metadata::Node;
use session_context::metadata::NodeDep;
use session_context::metadata::Package;
use session_context::metadata::PackageId;

fn id(repr: &str) -> PackageId {
    PackageId::new(repr.to_string())
}

fn package(name: &str, manifest_path: &str) -> Package {
    Package {
        name: name.to_string(),
        dependencies: vec![Dependency { name: "dep".to_string(), rename: None }],
        features: vec!["default".to_string()],
        manifest_path: manifest_path.to_string(),
        publish: Some(true),
    }
}

fn node(targets: &[&str]) -> Node {
    Node {
        deps: targets
            .iter()
            .map(|t| NodeDep { pkg: id(t), name: t.to_string(), dep_kinds: vec![] })
            .collect(),
    }
}

#[test]
fn identifier_keeps_its_text() {
    let a = PackageId::new("a 0.1.0".to_string());
    assert_eq!(a.repr, "a 0.1.0");
}

#[test]
fn identifiers_are_the_same_where_their_text_is() {
    assert!(id("a 0.1.0").same(&id("a 0.1.0")));
    assert!(!id("a 0.1.0").same(&id("a 0.2.0")));
    assert!(!id("a").same(&id("")));
}

#[test]
fn cloned_identifier_is_the_same() {
    let a = id("a 0.1.0");
    let b = a.clone();
    assert!(a.same(&b));
    assert_eq!(b.repr, "a 0.1.0");
}

#[test]
fn packages_are_found_by_identifier() {
    let metadata = Metadata::new(
        "/ws".to_string(),
        vec![(id("a"), package("a", "/ws/a/Cargo.toml")), (id("b"), package("b", "/ws/b/Cargo.toml"))],
        vec![],
        vec![],
        None,
    );
    assert_eq!(metadata.package(&id("a")).expect("known").name, "a");
    assert_eq!(metadata.package(&id("b")).expect("known").manifest_path, "/ws/b/Cargo.toml");
    assert!(metadata.package(&id("c")).is_none());
}

#[test]
fn package_is_found_by_identifier_not_by_name() {
    let metadata = Metadata::new(
        "/ws".to_string(),
        vec![(id("a 0.1.0"), package("a", "/ws/a/Cargo.toml"))],
        vec![],
        vec![],
        None,
    );
    assert!(metadata.package(&id("a")).is_none());
    assert!(metadata.package(&id("a 0.1.0")).is_some());
}

#[test]
fn last_entry_of_an_identifier_is_kept() {
    let metadata = Metadata::new(
        "/ws".to_string(),
        vec![
            (id("a"), package("first", "/1")),
            (id("b"), package("b", "/b")),
            (id("a"), package("second", "/2")),
        ],
        vec![(id("a"), node(&["x"])), (id("a"), node(&["y", "z"]))],
        vec![],
        None,
    );
    assert_eq!(metadata.package(&id("a")).expect("known").name, "second");
    assert_eq!(metadata.package(&id("b")).expect("known").name, "b");
    assert_eq!(metadata.node(&id("a")).expect("known").deps.len(), 2);
}

#[test]
fn vertices_are_found_by_identifier() {
    let metadata = Metadata::new(
        "/ws".to_string(),
        vec![],
        vec![(id("a"), node(&["b"])), (id("b"), node(&[]))],
        vec![],
        None,
    );
    let a = metadata.node(&id("a")).expect("known");
    assert_eq!(a.deps.len(), 1);
    assert_eq!(a.deps[0].pkg.repr, "b");
    assert!(metadata.node(&id("b")).expect("known").deps.is_empty());
    assert!(metadata.node(&id("c")).is_none());
}

#[test]
fn packages_and_vertices_are_kept_apart() {
    let metadata = Metadata::new(
        "/ws".to_string(),
        vec![(id("a"), package("a", "/a"))],
        vec![(id("b"), node(&[]))],
        vec![],
        None,
    );
    assert!(metadata.package(&id("b")).is_none());
    assert!(metadata.node(&id("a")).is_none());
}

#[test]
fn members_root_and_workspace_root_are_kept() {
    let metadata = Metadata::new(
        "/ws".to_string(),
        vec![],
        vec![],
        vec![id("b"), id("a"), id("b")],
        Some(id("a")),
    );
    assert_eq!(metadata.workspace_root(), "/ws");
    let members: Vec<&str> = metadata.workspace_members().iter().map(|m| m.repr.as_str()).collect();
    assert_eq!(members, vec!["b", "a", "b"]);
    assert_eq!(metadata.root().expect("aimed at a").repr, "a");
}

#[test]
fn no_root_where_none_was_given() {
    let metadata = Metadata::new("/ws".to_string(), vec![], vec![], vec![id("a")], None);
    assert!(metadata.root().is_none());
}

#[test]
fn members_are_described_where_each_has_a_package() {
    let metadata = Metadata::new(
        "/ws".to_string(),
        vec![(id("a"), package("a", "/a")), (id("b"), package("b", "/b")), (id("c"), package("c", "/c"))],
        vec![],
        vec![id("a"), id("b")],
        None,
    );
    assert!(metadata.describes_members());
}

#[test]
fn members_are_not_described_where_one_lacks_a_package() {
    let metadata = Metadata::new(
        "/ws".to_string(),
        vec![(id("a"), package("a", "/a"))],
        vec![(id("b"), node(&[]))],
        vec![id("a"), id("b")],
        None,
    );
    assert!(!metadata.describes_members());
}

#[test]
fn empty_workspace_is_described() {
    let metadata = Metadata::new("/ws".to_string(), vec![], vec![], vec![], None);
    assert!(metadata.describes_members());
}
