use crate::args::Args;
use vstd::prelude::*;

verus! {

/// Error returned when the path exists but is neither a file nor a folder.
pub const NEITHER_FILE_NOR_DIR: &'static str =
    "Path is neither file nor directory? This should never happen.";

/// Error returned when nothing could be learned about the path.
pub const NO_METADATA: &'static str =
    "Could not fetch metadata for supplied path. Does the path exist? Do you have the correct permissions?";

/// Whether the viewer was started on a single file or on a folder.
#[derive(Debug, PartialEq, Eq, Structural, Clone, Copy)]
pub enum InvocationMode {
    File,
    Directory,
}

/// What a metadata lookup found at a path.
#[derive(Debug, PartialEq, Eq, Structural, Clone, Copy)]
pub enum PathKind {
    Directory,
    File,
    Other,
}

/// The run configuration: the parsed arguments and how the path was classified.
#[derive(Debug)]
pub struct Config {
    pub args: Args,
    pub invoked_as: InvocationMode,
}

impl Config {
    /// Classifies the path of `args` by what its metadata lookup found
    /// (`None` when the lookup failed).
    ///
    /// A folder gives directory mode, a file gives file mode; anything else is
    /// an error.
    pub fn from(args: Args, found: Option<PathKind>) -> (r: Result<Config, &'static str>)
        ensures
            found == Some(PathKind::Directory) ==> r == Ok::<Config, &'static str>(
                Config { args, invoked_as: InvocationMode::Directory },
            ),
            found == Some(PathKind::File) ==> r == Ok::<Config, &'static str>(
                Config { args, invoked_as: InvocationMode::File },
            ),
            found == Some(PathKind::Other) ==> r == Err::<Config, &'static str>(
                NEITHER_FILE_NOR_DIR,
            ),
            found is None ==> r == Err::<Config, &'static str>(NO_METADATA),
    {
        let mode = match found {
            Some(PathKind::Directory) => InvocationMode::Directory,
            Some(PathKind::File) => InvocationMode::File,
            Some(PathKind::Other) => return Err(NEITHER_FILE_NOR_DIR),
            None => return Err(NO_METADATA),
        };
        Ok(Config { args, invoked_as: mode })
    }
}

} // verus!
