//! The options of each subcommand, as plain values. Paths are held as text.
use vstd::prelude::*;

verus! {

/// Creates a timestamped backup of a file or directory.
#[derive(Debug)]
pub struct BackupArgs {
    /// Element to be backed up.
    pub source: String,
    /// Where the backup goes (the current directory when absent).
    pub target: Option<String>,
    /// Only report actions, without performing them.
    pub dry: bool,
}

/// Restores a file or directory from a timestamped backup.
#[derive(Debug)]
pub struct RestoreArgs {
    /// Element to be restored.
    pub source: String,
    /// Where it is restored to (the current directory when absent).
    pub target: Option<String>,
    /// Only report actions, without performing them.
    pub dry: bool,
}

/// Removes non-ASCII characters from file names.
#[derive(Debug)]
pub struct ClnArgs {
    /// Paths to be cleaned.
    pub paths: Vec<String>,
    /// Only report actions, without performing them.
    pub dry: bool,
    /// Clean directories recursively.
    pub recursive: bool,
    /// Recursion depth.
    pub depth: Option<usize>,
    /// Whether existing files are overwritten: "y", "n" or "auto".
    pub force: String,
}

/// Copies standard output to the clipboard.
#[derive(Debug, Clone, Copy)]
pub struct CopyArgs {}

/// Prints the disk usage of a directory.
#[derive(Debug)]
pub struct HogArgs {
    /// Directory to analyse.
    pub dir: String,
    /// Human readable sizes.
    pub human_readable: bool,
    /// Number of items to show.
    pub limit: usize,
}

/// Pastes the clipboard to standard input.
#[derive(Debug, Clone, Copy)]
pub struct PasteArgs {}

/// Extracts archives.
#[derive(Debug, Clone, Copy)]
pub struct XtractArgs {}

} // verus!
