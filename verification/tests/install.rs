use oxygen::install::{cache_dir, install_args};
use oxygen::manifest::{FeatureSelection, Manifest, PackageSource};

fn base_args(root: &str) -> Vec<String> {
    let mut v: Vec<String> = vec![
        "install".into(),
        "--root".into(),
        root.into(),
        "--target-dir".into(),
        format!("{root}/cache"),
    ];
    let configs = [
        "rustflags = [\"-C\", \"target-cpu=native\"]",
        "profile.release.lto = \"thin\"",
        "profile.release.opt-level = 3",
        "profile.release.debug = false",
        "profile.release.debug-assertions = false",
        "profile.release.overflow-checks = false",
        "profile.release.strip = \"symbols\"",
        "profile.release.codegen-units = 1",
        "profile.release.package.\"*\".opt-level = 3",
        "profile.release.package.\"*\".debug = false",
        "profile.release.package.\"*\".debug-assertions = false",
        "profile.release.package.\"*\".overflow-checks = false",
        "profile.release.package.\"*\".strip = \"symbols\"",
        "profile.release.package.\"*\".codegen-units = 1",
    ];
    for c in configs {
        v.push("--config".into());
        v.push(c.into());
    }
    v
}

#[test]
fn cache_dir_is_under_the_root() {
    assert_eq!(cache_dir("/opt/launcher"), "/opt/launcher/cache");
}

#[test]
fn registry_source_with_default_features() {
    let m = Manifest {
        name: "demo".to_string(),
        source: PackageSource::Registry("demo-pkg".to_string()),
        features: FeatureSelection::Defaults,
    };
    let mut expected = base_args("/opt/launcher");
    expected.push("demo-pkg".into());
    assert_eq!(install_args(&m, "/opt/launcher"), expected);
}

#[test]
fn remote_source_with_subpath_and_added_features() {
    let m = Manifest {
        name: "demo".to_string(),
        source: PackageSource::Remote {
            url: "https://example.com/repo".to_string(),
            subpath: Some("tools/demo".to_string()),
        },
        features: FeatureSelection::Add(vec!["alpha".to_string(), "beta".to_string()]),
    };
    let mut expected = base_args("/root");
    expected.push("--git".into());
    expected.push("https://example.com/repo".into());
    expected.push("tools/demo".into());
    expected.push("alpha".into());
    expected.push("beta".into());
    assert_eq!(install_args(&m, "/root"), expected);
}

#[test]
fn remote_source_without_subpath_and_all_features() {
    let m = Manifest {
        name: "demo".to_string(),
        source: PackageSource::Remote {
            url: "https://example.com/repo".to_string(),
            subpath: None,
        },
        features: FeatureSelection::AllFeatures,
    };
    let mut expected = base_args("/root");
    expected.push("--git".into());
    expected.push("https://example.com/repo".into());
    expected.push("--all-features".into());
    assert_eq!(install_args(&m, "/root"), expected);
}

#[test]
fn local_source_with_replaced_features() {
    let m = Manifest {
        name: "demo".to_string(),
        source: PackageSource::Local("/src/demo".to_string()),
        features: FeatureSelection::Replace(vec!["gamma".to_string()]),
    };
    let mut expected = base_args("/root");
    expected.push("--path".into());
    expected.push("/src/demo".into());
    expected.push("--no-default-features".into());
    expected.push("gamma".into());
    assert_eq!(install_args(&m, "/root"), expected);
}

#[test]
fn no_features_disables_the_defaults() {
    let m = Manifest {
        name: "demo".to_string(),
        source: PackageSource::Registry("demo-pkg".to_string()),
        features: FeatureSelection::NoFeatures,
    };
    let args = install_args(&m, "/root");
    let mut expected = base_args("/root");
    expected.push("demo-pkg".into());
    expected.push("--no-default-features".into());
    assert_eq!(args, expected);
}

#[test]
fn empty_feature_addition_adds_nothing() {
    let m = Manifest {
        name: "demo".to_string(),
        source: PackageSource::Registry("demo-pkg".to_string()),
        features: FeatureSelection::Add(Vec::new()),
    };
    let mut expected = base_args("/root");
    expected.push("demo-pkg".into());
    assert_eq!(install_args(&m, "/root"), expected);
}
