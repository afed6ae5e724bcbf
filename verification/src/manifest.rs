use vstd::prelude::*;
use vstd::string::StringExecFns;

verus! {

/// What the managed package is: the name of the binary it installs, where the
/// package comes from, and which optional features the installer enables.
#[derive(Clone, Debug)]
pub struct Manifest {
    pub name: String,
    pub source: PackageSource,
    pub features: FeatureSelection,
}

/// Where the package comes from; exactly one variant is active per manifest.
#[derive(Clone, Debug)]
pub enum PackageSource {
    /// Install by identifier from the default public registry.
    Registry(String),
    /// Install from a remote source-control location, optionally from a
    /// subdirectory of it.
    Remote { url: String, subpath: Option<String> },
    /// Install from a local directory.
    Local(String),
}

/// Which optional features the installer enables.
#[derive(Clone, Debug)]
pub enum FeatureSelection {
    /// The package's default feature set.
    Defaults,
    /// All optional features disabled.
    NoFeatures,
    /// Every optional feature enabled.
    AllFeatures,
    /// The named features enabled in addition to the defaults.
    Add(Vec<String>),
    /// Defaults disabled; exactly the named features enabled.
    Replace(Vec<String>),
}

impl Manifest {
    /// The name identifies the installed binary, so it must not be empty.
    pub open spec fn well_formed(&self) -> bool {
        self.name@.len() > 0
    }

    /// Checks the invariant above; a manifest that fails it is treated as
    /// malformed content.
    pub fn is_well_formed(&self) -> (r: bool)
        ensures
            r == self.well_formed(),
    {
        !self.name.as_str().is_empty()
    }
}

/// Why loading the manifest failed. The orchestrator treats every variant
/// alike: log it, record the problem, and fall back to maintenance only.
#[derive(Clone, Copy, PartialEq, Eq, Structural, Debug)]
pub enum ManifestError {
    /// No manifest path was given on the command line.
    MissingArgument,
    /// The given path does not exist.
    PathNotFound,
    /// The given path is a directory, not a file.
    PathIsDirectory,
    /// The file at the given path could not be opened or read.
    Unreadable,
    /// The file's contents did not deserialize into a manifest.
    Malformed,
}

/// The observations a driver makes while trying to load the manifest, in the
/// order they are made. A later field is only meaningful when every earlier
/// check passed; the classification below never reads past the first failure.
#[derive(Clone, Copy, PartialEq, Eq, Structural, Debug)]
pub struct LoadProbe {
    /// A manifest path stood in the arguments.
    pub arg_present: bool,
    /// The path exists on disk.
    pub path_exists: bool,
    /// The path is a directory.
    pub path_is_directory: bool,
    /// The file could be opened for reading.
    pub file_readable: bool,
    /// The contents deserialized into a well-formed manifest.
    pub content_well_formed: bool,
}

/// The load outcome a probe classifies to: the first failed check decides.
pub open spec fn spec_load_outcome(p: LoadProbe) -> Option<ManifestError> {
    if !p.arg_present {
        Some(ManifestError::MissingArgument)
    } else if !p.path_exists {
        Some(ManifestError::PathNotFound)
    } else if p.path_is_directory {
        Some(ManifestError::PathIsDirectory)
    } else if !p.file_readable {
        Some(ManifestError::Unreadable)
    } else if !p.content_well_formed {
        Some(ManifestError::Malformed)
    } else {
        None
    }
}

/// Classifies a load attempt: `None` means the manifest loaded; otherwise the
/// error names the first check that failed.
pub fn load_outcome(p: &LoadProbe) -> (r: Option<ManifestError>)
    ensures
        r == spec_load_outcome(*p),
{
    if !p.arg_present {
        Some(ManifestError::MissingArgument)
    } else if !p.path_exists {
        Some(ManifestError::PathNotFound)
    } else if p.path_is_directory {
        Some(ManifestError::PathIsDirectory)
    } else if !p.file_readable {
        Some(ManifestError::Unreadable)
    } else if !p.content_well_formed {
        Some(ManifestError::Malformed)
    } else {
        None
    }
}

/// The manifest file extension the launcher expects.
pub open spec fn expected_extension() -> Seq<char> {
    "o2"@
}

/// True when the path's extension matches the expected convention.
pub open spec fn extension_ok(ext: Option<String>) -> bool {
    match ext {
        Some(e) => e@ == expected_extension(),
        None => false,
    }
}

/// A manifest path whose extension is missing or unexpected draws a warning;
/// the load still proceeds.
pub fn extension_warrants_warning(ext: &Option<String>) -> (r: bool)
    ensures
        r == !extension_ok(*ext),
{
    match ext {
        Some(e) => {
            let expected: String = "o2".to_owned();
            !(*e == expected)
        },
        None => true,
    }
}

/// Where the managed executable lives under the install root.
pub open spec fn spec_app_path(root: Seq<char>, name: Seq<char>, suffix: Seq<char>) -> Seq<char> {
    root + "/bin/"@ + name + suffix
}

/// Builds the managed executable's path: `<root>/bin/<name><suffix>`, where
/// the suffix is the platform's executable suffix.
pub fn app_path(install_root: &str, name: &str, exe_suffix: &str) -> (r: String)
    ensures
        r@ == spec_app_path(install_root@, name@, exe_suffix@),
{
    let mut s = install_root.to_owned();
    s.append("/bin/");
    s.append(name);
    s.append(exe_suffix);
    s
}

} // verus!
