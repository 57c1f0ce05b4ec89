use vstd::prelude::*;

verus! {

/// Why an analysis, a materialization or a rendering step could not go on.
#[derive(Debug, PartialEq, Eq, Structural)]
pub enum DarwinError {
    /// The source, or the snippet starting at this byte offset, does not parse.
    Parse { offset: usize },
    /// The syntax tree handed back by the parser breaks its own shape
    /// (a span out of the text or off a character boundary).
    MalformedTree { offset: usize },
    /// The mutated content has not been computed yet.
    MissingMutatedFile,
    /// No source file path was attached to the mutation.
    MissingFilePath,
    /// No workspace path was attached to the mutation.
    MissingProjectPath,
    /// No verification report was attached to the mutation.
    MissingReport,
    /// The source file path does not lie under the project root.
    OutsideProject,
    /// A text has more lines than a diff can number.
    TooManyLines,
}

} // verus!
