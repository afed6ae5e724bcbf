use vstd::prelude::*;
use vstd::string::StringExecFns;
use crate::manifest::{FeatureSelection, Manifest, PackageSource};

verus! {

/// The installer's scratch directory under the install root.
pub open spec fn spec_cache_dir(root: Seq<char>) -> Seq<char> {
    root + "/cache"@
}

/// The arguments every install gets, whatever the manifest says: the
/// subcommand, the target root, the scratch directory, and the fixed set of
/// build and optimization configuration overrides.
pub open spec fn spec_base_args(root: Seq<char>) -> Seq<Seq<char>> {
    seq![
        "install"@,
        "--root"@,
        root,
        "--target-dir"@,
        spec_cache_dir(root),
        "--config"@,
        "rustflags = [\"-C\", \"target-cpu=native\"]"@,
        "--config"@,
        "profile.release.lto = \"thin\""@,
        "--config"@,
        "profile.release.opt-level = 3"@,
        "--config"@,
        "profile.release.debug = false"@,
        "--config"@,
        "profile.release.debug-assertions = false"@,
        "--config"@,
        "profile.release.overflow-checks = false"@,
        "--config"@,
        "profile.release.strip = \"symbols\""@,
        "--config"@,
        "profile.release.codegen-units = 1"@,
        "--config"@,
        "profile.release.package.\"*\".opt-level = 3"@,
        "--config"@,
        "profile.release.package.\"*\".debug = false"@,
        "--config"@,
        "profile.release.package.\"*\".debug-assertions = false"@,
        "--config"@,
        "profile.release.package.\"*\".overflow-checks = false"@,
        "--config"@,
        "profile.release.package.\"*\".strip = \"symbols\""@,
        "--config"@,
        "profile.release.package.\"*\".codegen-units = 1"@,
    ]
}

/// The arguments that select where the package comes from.
pub open spec fn spec_source_args(s: PackageSource) -> Seq<Seq<char>> {
    match s {
        PackageSource::Registry(id) => seq![id@],
        PackageSource::Remote { url, subpath } => match subpath {
            Some(p) => seq!["--git"@, url@, p@],
            None => seq!["--git"@, url@],
        },
        PackageSource::Local(path) => seq!["--path"@, path@],
    }
}

/// The arguments that select the package's optional features.
pub open spec fn spec_feature_args(f: FeatureSelection) -> Seq<Seq<char>> {
    match f {
        FeatureSelection::Defaults => Seq::<Seq<char>>::empty(),
        FeatureSelection::NoFeatures => seq!["--no-default-features"@],
        FeatureSelection::AllFeatures => seq!["--all-features"@],
        FeatureSelection::Add(fs) => fs.deep_view(),
        FeatureSelection::Replace(fs) => seq!["--no-default-features"@] + fs.deep_view(),
    }
}

/// The full argument list handed to the external installer for a manifest:
/// the fixed arguments, then the source selector, then the feature selector.
pub open spec fn spec_install_args(m: Manifest, root: Seq<char>) -> Seq<Seq<char>> {
    spec_base_args(root) + spec_source_args(m.source) + spec_feature_args(m.features)
}

/// Builds the installer's scratch directory path: `<root>/cache`.
pub fn cache_dir(install_root: &str) -> (r: String)
    ensures
        r@ == spec_cache_dir(install_root@),
{
    let mut s = install_root.to_owned();
    s.append("/cache");
    s
}

/// Appends one borrowed argument to the list.
fn push_arg(args: &mut Vec<String>, s: &str)
    ensures
        final(args).deep_view() == old(args).deep_view().push(s@),
{
    args.push(s.to_owned());
    proof {
        assert(args.deep_view() =~= old(args).deep_view().push(s@));
    }
}

/// Appends an already-built argument to the list.
fn push_arg_owned(args: &mut Vec<String>, s: String)
    ensures
        final(args).deep_view() == old(args).deep_view().push(s@),
{
    args.push(s);
    proof {
        assert(args.deep_view() =~= old(args).deep_view().push(s@));
    }
}

/// Appends every name of `fs` to the list, in order.
fn push_all(args: &mut Vec<String>, fs: &Vec<String>)
    ensures
        final(args).deep_view() == old(args).deep_view() + fs.deep_view(),
{
    let ghost orig = args.deep_view();
    let mut i: usize = 0;
    while i < fs.len()
        invariant
            i <= fs.len(),
            args.deep_view() == orig + fs.deep_view().take(i as int),
        decreases fs.len() - i,
    {
        let ghost before = args.deep_view();
        args.push(fs[i].clone());
        proof {
            assert(args.deep_view() =~= before.push(fs.deep_view()[i as int]));
            assert(args.deep_view() =~= orig + fs.deep_view().take(i as int + 1));
        }
        i = i + 1;
    }
    proof {
        assert(fs.deep_view().take(fs.len() as int) =~= fs.deep_view());
        assert(args.deep_view() =~= orig + fs.deep_view());
    }
}

/// Builds the exact argument list for the external installer: the fixed
/// arguments and configuration overrides, the manifest's source selector,
/// and its feature selector, in that order.
pub fn install_args(m: &Manifest, install_root: &str) -> (r: Vec<String>)
    ensures
        r.deep_view() == spec_install_args(*m, install_root@),
{
    let mut args: Vec<String> = Vec::new();
    push_arg(&mut args, "install");
    push_arg(&mut args, "--root");
    push_arg(&mut args, install_root);
    push_arg(&mut args, "--target-dir");
    push_arg_owned(&mut args, cache_dir(install_root));
    push_arg(&mut args, "--config");
    push_arg(&mut args, "rustflags = [\"-C\", \"target-cpu=native\"]");
    push_arg(&mut args, "--config");
    push_arg(&mut args, "profile.release.lto = \"thin\"");
    push_arg(&mut args, "--config");
    push_arg(&mut args, "profile.release.opt-level = 3");
    push_arg(&mut args, "--config");
    push_arg(&mut args, "profile.release.debug = false");
    push_arg(&mut args, "--config");
    push_arg(&mut args, "profile.release.debug-assertions = false");
    push_arg(&mut args, "--config");
    push_arg(&mut args, "profile.release.overflow-checks = false");
    push_arg(&mut args, "--config");
    push_arg(&mut args, "profile.release.strip = \"symbols\"");
    push_arg(&mut args, "--config");
    push_arg(&mut args, "profile.release.codegen-units = 1");
    push_arg(&mut args, "--config");
    push_arg(&mut args, "profile.release.package.\"*\".opt-level = 3");
    push_arg(&mut args, "--config");
    push_arg(&mut args, "profile.release.package.\"*\".debug = false");
    push_arg(&mut args, "--config");
    push_arg(&mut args, "profile.release.package.\"*\".debug-assertions = false");
    push_arg(&mut args, "--config");
    push_arg(&mut args, "profile.release.package.\"*\".overflow-checks = false");
    push_arg(&mut args, "--config");
    push_arg(&mut args, "profile.release.package.\"*\".strip = \"symbols\"");
    push_arg(&mut args, "--config");
    push_arg(&mut args, "profile.release.package.\"*\".codegen-units = 1");
    proof {
        assert(args.deep_view() =~= spec_base_args(install_root@));
    }

    match &m.source {
        PackageSource::Registry(id) => {
            push_arg(&mut args, id.as_str());
        },
        PackageSource::Remote { url, subpath } => {
            push_arg(&mut args, "--git");
            push_arg(&mut args, url.as_str());
            match subpath {
                Some(p) => {
                    push_arg(&mut args, p.as_str());
                },
                None => {},
            }
        },
        PackageSource::Local(path) => {
            push_arg(&mut args, "--path");
            push_arg(&mut args, path.as_str());
        },
    }
    proof {
        assert(args.deep_view() =~= spec_base_args(install_root@) + spec_source_args(m.source));
    }

    match &m.features {
        FeatureSelection::Defaults => {},
        FeatureSelection::NoFeatures => {
            push_arg(&mut args, "--no-default-features");
        },
        FeatureSelection::AllFeatures => {
            push_arg(&mut args, "--all-features");
        },
        FeatureSelection::Add(fs) => {
            push_all(&mut args, fs);
        },
        FeatureSelection::Replace(fs) => {
            push_arg(&mut args, "--no-default-features");
            push_all(&mut args, fs);
        },
    }
    proof {
        assert(args.deep_view() =~= spec_install_args(*m, install_root@));
    }
    args
}

} // verus!
