//! The records that the stripping stage reads and writes.
use vstd::prelude::*;

verus! {

/// Where the data of a packaged file currently is.
#[derive(Debug)]
pub enum AssetSource {
    /// A file on disk.
    Path(String),
    /// Bytes held in memory.
    Data(Vec<u8>),
    /// A symbolic link to the given path: only the link is archived.
    Symlink(String),
}

impl AssetSource {
    /// The file path, for a source on disk.
    pub open spec fn path_of(&self) -> Option<Seq<char>> {
        match self {
            AssetSource::Path(p) => Some(p@),
            _ => None,
        }
    }

    /// Whether only a link is archived, so that no data is ever read.
    pub open spec fn symlink_only(&self) -> bool {
        self is Symlink
    }

    /// The file path, for a source on disk.
    pub fn path(&self) -> (r: Option<&String>)
        ensures
            match r {
                Some(p) => self.path_of() == Some(p@),
                None => self.path_of().is_none(),
            },
    {
        match self {
            AssetSource::Path(p) => Some(p),
            _ => None,
        }
    }

    /// Whether only a link is archived.
    pub fn archive_as_symlink_only(&self) -> (r: bool)
        ensures
            r == self.symlink_only(),
    {
        match self {
            AssetSource::Symlink(_) => true,
            _ => false,
        }
    }
}

/// The transformation that produced an asset's current source.
#[derive(Debug)]
pub struct ProcessedFrom {
    pub original_path: Option<String>,
    pub action: String,
}

/// A file that the package installs.
#[derive(Debug)]
pub struct Asset {
    pub source: AssetSource,
    /// Install destination inside the package.
    pub target_path: String,
    /// Permission bits.
    pub chmod: u32,
    /// Whether the build produced this file.
    pub is_built: bool,
    pub processed_from: Option<ProcessedFrom>,
}

impl Asset {
    pub fn new(source: AssetSource, target_path: String, chmod: u32, is_built: bool) -> (r: Asset)
        ensures
            r.source == source,
            r.target_path == target_path,
            r.chmod == chmod,
            r.is_built == is_built,
            r.processed_from.is_none(),
    {
        Asset { source, target_path, chmod, is_built, processed_from: None }
    }

    /// The same asset with a record of the action that produced it from
    /// `original_path`.
    pub fn processed(self, action: &str, original_path: String) -> (r: Asset)
        ensures
            r.source == self.source,
            r.target_path == self.target_path,
            r.chmod == self.chmod,
            r.is_built == self.is_built,
            r.processed_from matches Some(pf) && pf.action@ == action@ && pf.original_path
                == Some(original_path),
    {
        Asset {
            processed_from: Some(
                ProcessedFrom { original_path: Some(original_path), action: String::from_str(action) },
            ),
            ..self
        }
    }
}

/// What happens to debug information.
#[derive(Clone, Copy, Debug, PartialEq, Eq, Structural)]
pub enum DebugSymbols {
    /// Binaries are left as built.
    Keep,
    /// Binaries are stripped and debug information is dropped.
    Strip,
    /// Binaries are stripped and debug information goes to a file of its own.
    Separate { compress: bool },
}

/// Settings of one run of the stripping stage.
pub struct StripContext {
    /// The strip tool to run.
    pub strip_cmd: String,
    /// The tool that extracts and links debug information.
    pub objcopy_cmd: String,
    /// The cross-compilation target, if any.
    pub target: Option<String>,
    /// The configuration file where per-target tools are set, for messages.
    pub config_path: String,
    /// Directory for stripped and debug files.
    pub output_dir: String,
    pub debug_symbols: DebugSymbols,
}

/// Why stripping an artifact failed.
#[derive(Debug)]
pub enum StripError {
    /// The artifact's file is not on disk.
    MissingInput { path: String },
    /// The tool could not be started.
    ToolInvocationFailed { tool: String, path: String, message: String },
    /// The tool ran and reported failure.
    ToolExitedNonZero { tool: String, path: String, message: String },
    /// The tool reported success but its output file is not there.
    MissingToolOutput { tool: String, path: String, output: String },
    /// A path has no file name or stem.
    BadPath { path: String },
}

} // verus!
