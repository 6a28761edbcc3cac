//! What a caller chooses before a resolution starts: the toolchain entry
//! point, the installation to take it from and, for cargo, the project.

use crate::text::optional_text;
use vstd::prelude::*;

verus! {

/// A binary of the toolchain that can print a target description.
#[derive(Clone, Copy, Debug, PartialEq, Eq, Structural)]
pub enum Tool {
    /// The build orchestrator, which hands the request on to the compiler.
    Cargo,
    /// The compiler itself.
    Rustc,
}

impl Tool {
    /// The file name of the binary, without any platform suffix.
    pub open spec fn spec_name(self) -> Seq<char> {
        match self {
            Tool::Cargo => "cargo"@,
            Tool::Rustc => "rustc"@,
        }
    }

    /// The file name of the binary, without any platform suffix.
    pub fn name(self) -> (name: &'static str)
        ensures
            name@ == self.spec_name(),
    {
        match self {
            Tool::Cargo => "cargo",
            Tool::Rustc => "rustc",
        }
    }
}

/// A toolchain installation that has been located already, named by its
/// root directory.
#[derive(Debug)]
pub struct Sysroot {
    root: String,
}

impl View for Sysroot {
    type V = Seq<char>;

    closed spec fn view(&self) -> Seq<char> {
        self.root@
    }
}

impl Sysroot {
    /// The installation rooted at `root`.
    pub fn new(root: String) -> (sysroot: Sysroot)
        ensures
            sysroot@ == root@,
    {
        Sysroot { root }
    }

    /// The root directory of the installation.
    pub fn root(&self) -> (root: &str)
        ensures
            root@ == self@,
    {
        self.root.as_str()
    }
}

/// What `Path::parent` of std gives for a path written as text: the path
/// without its last component, or `None` where it has none to drop. How a
/// path falls into components is left to std.
pub uninterp spec fn parent_of(path: Seq<char>) -> Option<Seq<char>>;

/// Calls `Path::parent` of std on a path given as text, and hands the
/// result back as text. Trusted, not proved: the result is what
/// [`parent_of`] names. The call only reads the text of the path: it looks
/// at no file system.
#[verifier::external_body]
fn path_parent(path: &str) -> (parent: Option<String>)
    ensures
        match parent {
            Some(dir) => parent_of(path@) == Some(dir@),
            None => parent_of(path@) is None,
        },
{
    std::path::Path::new(path).parent().and_then(std::path::Path::to_str).map(str::to_owned)
}

/// The model of a [`ManifestPath`].
pub struct ManifestPathView {
    /// The manifest file.
    pub file: Seq<char>,
    /// The directory that holds it.
    pub parent: Seq<char>,
}

/// The path of a project's manifest file, together with the directory that
/// holds it. A path without a parent directory is no manifest path.
#[derive(Debug)]
pub struct ManifestPath {
    file: String,
    parent: String,
}

impl View for ManifestPath {
    type V = ManifestPathView;

    closed spec fn view(&self) -> ManifestPathView {
        ManifestPathView { file: self.file@, parent: self.parent@ }
    }
}

/// The manifest path that `file` makes, given what its parent is.
pub open spec fn manifest_of(file: Seq<char>, parent: Option<Seq<char>>) -> Option<
    ManifestPathView,
> {
    match parent {
        Some(dir) => Some(ManifestPathView { file, parent: dir }),
        None => None,
    }
}

/// The model of a manifest path that may be missing.
pub open spec fn manifest_view(manifest: Option<ManifestPath>) -> Option<ManifestPathView> {
    match manifest {
        Some(m) => Some(m@),
        None => None,
    }
}

impl ManifestPath {
    /// The manifest path for `file` whose parent directory is already known;
    /// `None` where there is no parent.
    pub fn with_parent(file: String, parent: Option<String>) -> (manifest: Option<ManifestPath>)
        ensures
            manifest_view(manifest) == manifest_of(file@, optional_text(parent)),
    {
        match parent {
            Some(dir) => Some(ManifestPath { file, parent: dir }),
            None => None,
        }
    }

    /// The manifest path for `file`; `None` where the path has no parent
    /// directory, as for a file system root or the empty path.
    pub fn new(file: String) -> (manifest: Option<ManifestPath>)
        ensures
            manifest_view(manifest) == manifest_of(file@, parent_of(file@)),
    {
        let parent = path_parent(file.as_str());
        ManifestPath::with_parent(file, parent)
    }

    /// The manifest file itself.
    pub fn file(&self) -> (file: &str)
        ensures
            file@ == self@.file,
    {
        self.file.as_str()
    }

    /// The directory that holds the manifest file.
    pub fn parent(&self) -> (parent: &str)
        ensures
            parent@ == self@.parent,
    {
        self.parent.as_str()
    }
}

/// How the target description is asked for.
#[derive(Clone, Copy, Debug)]
pub enum RustcDataLayoutConfig<'a> {
    /// Ask `rustc`, taken from the given installation or, without one, found
    /// wherever the toolchain is usually found.
    Rustc(Option<&'a Sysroot>),
    /// Ask `cargo`, found in the same way, from the directory of the given
    /// project manifest.
    Cargo(Option<&'a Sysroot>, &'a ManifestPath),
}

impl<'a> RustcDataLayoutConfig<'a> {
    /// The binary that this configuration invokes.
    pub open spec fn spec_tool(self) -> Tool {
        match self {
            RustcDataLayoutConfig::Rustc(_) => Tool::Rustc,
            RustcDataLayoutConfig::Cargo(_, _) => Tool::Cargo,
        }
    }

    /// The installation to take the binary from, if one was given.
    pub open spec fn spec_sysroot(self) -> Option<&'a Sysroot> {
        match self {
            RustcDataLayoutConfig::Rustc(sysroot) => sysroot,
            RustcDataLayoutConfig::Cargo(sysroot, _) => sysroot,
        }
    }

    /// The directory to run the binary in: the manifest's directory for
    /// cargo, and none of its own for rustc.
    pub open spec fn spec_current_dir(self) -> Option<Seq<char>> {
        match self {
            RustcDataLayoutConfig::Rustc(_) => None,
            RustcDataLayoutConfig::Cargo(_, manifest) => Some(manifest@.parent),
        }
    }

    /// The binary that this configuration invokes.
    pub fn tool(&self) -> (tool: Tool)
        ensures
            tool == self.spec_tool(),
    {
        match self {
            RustcDataLayoutConfig::Rustc(_) => Tool::Rustc,
            RustcDataLayoutConfig::Cargo(_, _) => Tool::Cargo,
        }
    }

    /// The installation to take the binary from, if one was given.
    pub fn sysroot(&self) -> (sysroot: Option<&'a Sysroot>)
        ensures
            sysroot == self.spec_sysroot(),
    {
        match self {
            RustcDataLayoutConfig::Rustc(sysroot) => *sysroot,
            RustcDataLayoutConfig::Cargo(sysroot, _) => *sysroot,
        }
    }
}

} // verus!
