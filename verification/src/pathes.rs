//! The files and directories of the program

use vstd::prelude::*;

verus! {

/// A place in the file system that the program knows.
#[derive(Debug, Clone, Copy, PartialEq, Eq, Structural)]
pub enum ProgPath {
    HomeDir,
    ConfigPrefixDir,
    Preferences,
    Statistics,
    CSVFile,
}

/// What is to be done about a place when the program starts.
#[derive(Debug, Clone, Copy, PartialEq, Eq, Structural)]
pub enum Creation {
    /// It is there already.
    Nothing,
    /// It is missing and cannot be made: there is no home directory.
    Impossible,
    /// Make the directory and those above it.
    Directory,
    /// Write an empty file.
    EmptyFile,
}

impl ProgPath {
    /// What [`ProgPath::create`] decides.
    pub open spec fn creation(self, exists: bool) -> Creation {
        if exists {
            Creation::Nothing
        } else {
            match self {
                ProgPath::HomeDir => Creation::Impossible,
                ProgPath::ConfigPrefixDir => Creation::Directory,
                _ => Creation::EmptyFile,
            }
        }
    }

    /// Decides what is to be done about this place. `exists` says whether
    /// anything lies there.
    pub fn create(&self, exists: bool) -> (creation: Creation)
        ensures
            creation == self.creation(exists),
    {
        if exists {
            return Creation::Nothing;
        }
        match self {
            ProgPath::HomeDir => Creation::Impossible,
            ProgPath::ConfigPrefixDir => Creation::Directory,
            _ => Creation::EmptyFile,
        }
    }
}

/// The places that have to be there before the program can work, in the
/// order in which they are made: the directory first, then the files in
/// it.
pub fn init() -> (files: Vec<ProgPath>)
    ensures
        files@ == seq![ProgPath::ConfigPrefixDir, ProgPath::Preferences, ProgPath::Statistics],
{
    let mut files = Vec::new();
    files.push(ProgPath::ConfigPrefixDir);
    files.push(ProgPath::Preferences);
    files.push(ProgPath::Statistics);
    assert(files@ =~= seq![
        ProgPath::ConfigPrefixDir,
        ProgPath::Preferences,
        ProgPath::Statistics,
    ]);
    files
}

} // verus!
