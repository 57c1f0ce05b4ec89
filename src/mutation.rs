use crate::error::DarwinError;
use crate::report::MutationReport;
use crate::text::{lemma_encode_utf8_concat, text_between, valid_byte_range};
use vstd::prelude::*;
use vstd::string::*;
use vstd::utf8::*;

verus! {

/// A position in a text: zero-based row, and column in bytes.
#[derive(Debug, Clone, Copy, PartialEq, Eq, Structural)]
pub struct Position {
    pub row: usize,
    pub column: usize,
}

/// The half-open byte range `[start, end)` of the original text that a
/// mutation replaces, with the positions of both ends.
#[derive(Debug, Clone, Copy, PartialEq, Eq, Structural)]
pub struct MutationChunk {
    pub start: usize,
    pub end: usize,
    pub start_point: Position,
    pub end_point: Position,
}

impl MutationChunk {
    /// A chunk over a byte range, with both positions at the origin.
    pub fn new_chunk(range: std::ops::Range<usize>) -> (r: Self)
        ensures
            r.start == range.start,
            r.end == range.end,
            r.start_point == (Position { row: 0, column: 0 }),
            r.end_point == (Position { row: 0, column: 0 }),
    {
        MutationChunk {
            start: range.start,
            end: range.end,
            start_point: Position { row: 0, column: 0 },
            end_point: Position { row: 0, column: 0 },
        }
    }
}

/// The chunk lies within `text` and starts and ends on character boundaries.
pub open spec fn chunk_fits(chunk: MutationChunk, text: Seq<char>) -> bool {
    valid_byte_range(encode_utf8(text), chunk.start as int, chunk.end as int)
}

/// The bytes `[start, end)` of `text` replaced by `replacement`.
pub open spec fn patched_bytes(text: Seq<u8>, start: int, end: int, replacement: Seq<u8>) -> Seq<
    u8,
> {
    text.subrange(0, start) + replacement + text.subrange(end, text.len() as int)
}

/// The text that results from replacing the chunk of `text` by `replacement`.
pub open spec fn patched_text(text: Seq<char>, chunk: MutationChunk, replacement: Seq<char>) -> Seq<
    char,
> {
    decode_utf8(
        patched_bytes(
            encode_utf8(text),
            chunk.start as int,
            chunk.end as int,
            encode_utf8(replacement),
        ),
    )
}

/// One candidate edit of a source file, and what became of it.
#[derive(Debug, PartialEq)]
pub struct Mutation {
    /// The text put in place of the chunk.
    pub mutation: String,
    pub chunk: MutationChunk,
    /// What the edit does, in words.
    pub reason: String,
    /// The whole file after the edit, once computed.
    pub mutated_file: Option<String>,
    /// The source file that the edit targets.
    pub file_path: Option<String>,
    /// The workspace that holds the mutant.
    pub mutation_project_path: Option<String>,
    pub report: Option<MutationReport>,
    /// The function that encloses the chunk.
    pub function_name: String,
    /// The mutant's number within a run.
    pub id: usize,
}

impl Mutation {
    /// A mutation that puts `mutation_chunk` in place of `chunk`, with
    /// nothing else known yet.
    pub fn new(mutation_chunk: &str, chunk: MutationChunk) -> (r: Self)
        ensures
            r.mutation@ == mutation_chunk@,
            r.chunk == chunk,
            r.reason@ == Seq::<char>::empty(),
            r.function_name@ == Seq::<char>::empty(),
            r.mutated_file is None,
            r.file_path is None,
            r.mutation_project_path is None,
            r.report is None,
            r.id == 0,
    {
        Mutation {
            mutation: String::from_str(mutation_chunk),
            chunk,
            reason: String::new(),
            mutated_file: None,
            file_path: None,
            mutation_project_path: None,
            report: None,
            function_name: String::new(),
            id: 0,
        }
    }

    pub fn with_reason(self, reason: &str) -> (r: Self)
        ensures
            r.reason@ == reason@,
            r.mutation == self.mutation,
            r.chunk == self.chunk,
            r.function_name == self.function_name,
            r.mutated_file == self.mutated_file,
            r.file_path == self.file_path,
            r.mutation_project_path == self.mutation_project_path,
            r.report == self.report,
            r.id == self.id,
    {
        Mutation { reason: String::from_str(reason), ..self }
    }

    pub fn with_function_name(self, function_name: &str) -> (r: Self)
        ensures
            r.function_name@ == function_name@,
            r.mutation == self.mutation,
            r.chunk == self.chunk,
            r.reason == self.reason,
            r.mutated_file == self.mutated_file,
            r.file_path == self.file_path,
            r.mutation_project_path == self.mutation_project_path,
            r.report == self.report,
            r.id == self.id,
    {
        Mutation { function_name: String::from_str(function_name), ..self }
    }

    /// Computes the file after the edit: the bytes of `file` before the
    /// chunk, the replacement text, then the bytes after the chunk. The
    /// replacement may be shorter or longer than the chunk.
    pub fn mutate_file(&mut self, file: &String)
        requires
            chunk_fits(old(self).chunk, file@),
        ensures
            final(self).mutated_file matches Some(m) && encode_utf8(m@) == patched_bytes(
                encode_utf8(file@),
                old(self).chunk.start as int,
                old(self).chunk.end as int,
                encode_utf8(old(self).mutation@),
            ),
            final(self).mutated_file matches Some(m) && m@ == patched_text(
                file@,
                old(self).chunk,
                old(self).mutation@,
            ),
            final(self).mutation == old(self).mutation,
            final(self).chunk == old(self).chunk,
            final(self).reason == old(self).reason,
            final(self).function_name == old(self).function_name,
            final(self).file_path == old(self).file_path,
            final(self).mutation_project_path == old(self).mutation_project_path,
            final(self).report == old(self).report,
            final(self).id == old(self).id,
    {
        let text = file.as_str();
        let ghost bytes = encode_utf8(file@);
        proof {
            encode_utf8_valid_utf8(file@);
            is_char_boundary_start_end_of_seq(bytes);
        }
        assert(text.spec_bytes() == bytes);
        let (head, _) = text.split_at(self.chunk.start);
        let (_, tail) = text.split_at(self.chunk.end);
        let mut out = head.to_owned();
        out.append(self.mutation.as_str());
        out.append(tail);
        proof {
            assert(head.spec_bytes() == encode_utf8(head@));
            assert(tail.spec_bytes() == encode_utf8(tail@));
            lemma_encode_utf8_concat(head@, self.mutation@);
            lemma_encode_utf8_concat(head@ + self.mutation@, tail@);
            assert(encode_utf8(out@) =~= patched_bytes(
                bytes,
                self.chunk.start as int,
                self.chunk.end as int,
                encode_utf8(self.mutation@),
            ));
            encode_utf8_decode_utf8(out@);
        }
        self.mutated_file = Some(out);
    }

    pub fn get_mutated_file(&self) -> (r: Result<&String, DarwinError>)
        ensures
            match self.mutated_file {
                Some(m) => r == Ok::<&String, DarwinError>(&m),
                None => r == Err::<&String, DarwinError>(DarwinError::MissingMutatedFile),
            },
    {
        match &self.mutated_file {
            Some(m) => Ok(m),
            None => Err(DarwinError::MissingMutatedFile),
        }
    }

    pub fn get_file_path(&self) -> (r: Result<&String, DarwinError>)
        ensures
            match self.file_path {
                Some(p) => r == Ok::<&String, DarwinError>(&p),
                None => r == Err::<&String, DarwinError>(DarwinError::MissingFilePath),
            },
    {
        match &self.file_path {
            Some(p) => Ok(p),
            None => Err(DarwinError::MissingFilePath),
        }
    }

    pub fn get_mutation_project_path(&self) -> (r: Result<&String, DarwinError>)
        ensures
            match self.mutation_project_path {
                Some(p) => r == Ok::<&String, DarwinError>(&p),
                None => r == Err::<&String, DarwinError>(DarwinError::MissingProjectPath),
            },
    {
        match &self.mutation_project_path {
            Some(p) => Ok(p),
            None => Err(DarwinError::MissingProjectPath),
        }
    }

    pub fn set_file_path(&mut self, path: &String)
        ensures
            final(self).file_path == Some(*path),
            final(self).mutation == old(self).mutation,
            final(self).chunk == old(self).chunk,
            final(self).reason == old(self).reason,
            final(self).function_name == old(self).function_name,
            final(self).mutated_file == old(self).mutated_file,
            final(self).mutation_project_path == old(self).mutation_project_path,
            final(self).report == old(self).report,
            final(self).id == old(self).id,
    {
        self.file_path = Some(path.clone());
    }

    pub fn set_mutation_project_path(&mut self, path: &String)
        ensures
            final(self).mutation_project_path == Some(*path),
            final(self).mutation == old(self).mutation,
            final(self).chunk == old(self).chunk,
            final(self).reason == old(self).reason,
            final(self).function_name == old(self).function_name,
            final(self).mutated_file == old(self).mutated_file,
            final(self).file_path == old(self).file_path,
            final(self).report == old(self).report,
            final(self).id == old(self).id,
    {
        self.mutation_project_path = Some(path.clone());
    }

    pub fn set_report(&mut self, report: MutationReport)
        ensures
            final(self).report == Some(report),
            final(self).mutation == old(self).mutation,
            final(self).chunk == old(self).chunk,
            final(self).reason == old(self).reason,
            final(self).function_name == old(self).function_name,
            final(self).mutated_file == old(self).mutated_file,
            final(self).file_path == old(self).file_path,
            final(self).mutation_project_path == old(self).mutation_project_path,
            final(self).id == old(self).id,
    {
        self.report = Some(report);
    }

    pub fn set_mutation_id(&mut self, id: usize)
        ensures
            final(self).id == id,
            final(self).mutation == old(self).mutation,
            final(self).chunk == old(self).chunk,
            final(self).reason == old(self).reason,
            final(self).function_name == old(self).function_name,
            final(self).mutated_file == old(self).mutated_file,
            final(self).file_path == old(self).file_path,
            final(self).mutation_project_path == old(self).mutation_project_path,
            final(self).report == old(self).report,
    {
        self.id = id;
    }

    pub fn get_mutation_id(&self) -> (r: usize)
        ensures
            r == self.id,
    {
        self.id
    }
}

/// Two valid UTF-8 texts joined make a valid one, with a character
/// boundary where they meet.
pub proof fn lemma_concat_boundary(a: Seq<u8>, b: Seq<u8>)
    requires
        valid_utf8(a),
        valid_utf8(b),
    ensures
        valid_utf8(a + b),
        is_char_boundary(a + b, a.len() as int),
{
    valid_utf8_concat(a, b);
    let ab = a + b;
    if b.len() == 0 {
        assert(ab =~= a);
        is_char_boundary_start_end_of_seq(a);
    } else {
        is_char_boundary_start_end_of_seq(b);
        is_char_boundary_iff_not_is_continuation_byte(b, 0);
        assert(ab[a.len() as int] == b[0]);
        is_char_boundary_iff_not_is_continuation_byte(ab, a.len() as int);
    }
}

/// After an edit, the replacement stands at the chunk's start offset, on
/// character boundaries: the bytes from that offset on start with the
/// replacement's bytes, the text before it is unchanged, and the text read
/// back over those bytes is the replacement.
pub proof fn lemma_replacement_at_start(text: Seq<char>, chunk: MutationChunk, replacement: Seq<
    char,
>)
    requires
        chunk_fits(chunk, text),
    ensures
        ({
            let bytes = encode_utf8(text);
            let r = encode_utf8(replacement);
            let p = patched_bytes(bytes, chunk.start as int, chunk.end as int, r);
            &&& encode_utf8(patched_text(text, chunk, replacement)) == p
            &&& p.subrange(0, chunk.start as int) == bytes.subrange(0, chunk.start as int)
            &&& p.subrange(chunk.start as int, chunk.start + r.len()) == r
            &&& is_char_boundary(p, chunk.start as int)
            &&& is_char_boundary(p, chunk.start + r.len())
            &&& text_between(
                patched_text(text, chunk, replacement),
                chunk.start as int,
                chunk.start + r.len(),
            ) == replacement
        }),
{
    let bytes = encode_utf8(text);
    let r = encode_utf8(replacement);
    let s = chunk.start as int;
    let e = chunk.end as int;
    let x = bytes.subrange(0, s);
    let y = bytes.subrange(e, bytes.len() as int);
    let p = patched_bytes(bytes, s, e, r);
    encode_utf8_valid_utf8(text);
    encode_utf8_valid_utf8(replacement);
    valid_utf8_split(bytes, s);
    valid_utf8_split(bytes, e);
    lemma_concat_boundary(r, y);
    lemma_concat_boundary(x, r + y);
    lemma_concat_boundary(x, r);
    lemma_concat_boundary(x + r, y);
    assert(p =~= x + (r + y));
    assert(p =~= (x + r) + y);
    decode_utf8_encode_utf8(p);
    assert(p.subrange(0, s) =~= x);
    assert(p.subrange(s, s + r.len()) =~= r);
    encode_utf8_decode_utf8(replacement);
}

} // verus!
