use crate::color::painted;
use crate::error::DarwinError;
use crate::mutation::Mutation;
use crate::diff::{color_diff, diffable, text_lines, unified_diff, unified_diff_of};
use crate::report::{
    padded_status_tag, status_description, status_paint, status_tag, MutationStatus,
};
use crate::text::{append_decimal, decimal_chars};
use vstd::prelude::*;
use vstd::string::*;

verus! {

/// Relies on std::path::Path::strip_prefix: `None` where `base` is not a
/// leading run of the components of `path`; else what follows it, which is
/// a stretch of the text of `path` whatever the platform's separators.
#[verifier::external_body]
fn strip_path_prefix(path: &str, base: &str) -> (r: Option<String>)
    ensures
        r matches Some(rest) ==> exists|i: int, j: int|
            0 <= i <= j <= path@.len() && rest@ == #[trigger] path@.subrange(i, j),
{
    std::path::Path::new(path).strip_prefix(base).ok().map(|rest| rest.to_string_lossy().into_owned())
}

/// Relies on dunce::simplified: the path as it is, or, for a Windows
/// verbatim disk path, the path without its four leading characters.
#[verifier::external_body]
pub(crate) fn simplified_path(path: &str) -> (r: String)
    ensures
        r@ == path@ || (path@.len() >= 4 && r@ == path@.subrange(4, path@.len() as int)),
{
    dunce::simplified(std::path::Path::new(path)).to_string_lossy().into_owned()
}

/// How a path may show once simplified.
pub open spec fn shows_path(shown: Seq<char>, path: Seq<char>) -> bool {
    shown == path || (path.len() >= 4 && shown == path.subrange(4, path.len() as int))
}

/// How a file path may show relative to the project: a stretch of its
/// text, simplified.
pub open spec fn relative_shown(shown: Seq<char>, path: Seq<char>) -> bool {
    exists|i: int, j: int|
        0 <= i <= j <= path.len() && #[trigger] shows_path(shown, path.subrange(i, j))
}

/// The mutation's file path may show as `rel` relative to the project.
pub open spec fn path_shown_as(m: Mutation, rel: Seq<char>) -> bool {
    match m.file_path {
        Some(p) => relative_shown(rel, p@),
        None => false,
    }
}

/// Where and what a mutation is, for one line of a summary: its number,
/// reason, function, file, and the 1-based row and column of its start.
pub open spec fn details_text(m: Mutation, relative_path: Seq<char>) -> Seq<char> {
    "Mutation #"@ + decimal_chars(m.id as nat) + " "@ + m.reason@ + " in function \""@
        + m.function_name@ + "\" of file "@ + relative_path + " at line "@ + decimal_chars(
        m.chunk.start_point.row as nat + 1,
    ) + ":"@ + decimal_chars(m.chunk.start_point.column as nat + 1)
}

/// The summary line of a verified mutation.
pub open spec fn summary_line(m: Mutation, relative_path: Seq<char>) -> Seq<char> {
    status_tag(m.report->Some_0.status) + " : "@ + details_text(m, relative_path)
}

/// The lines, each ended by a newline.
pub open spec fn lines_text(lines: Seq<Seq<char>>) -> Seq<char>
    decreases lines.len(),
{
    if lines.len() == 0 {
        seq![]
    } else {
        lines_text(lines.drop_last()) + lines.last() + "\n"@
    }
}

/// The summary lines of the mutations, the `i`-th file path given as
/// `relative_paths[i]`.
pub open spec fn summary_lines(ms: Seq<Mutation>, relative_paths: Seq<Seq<char>>) -> Seq<Seq<char>> {
    Seq::new(ms.len(), |i: int| summary_line(ms[i], relative_paths[i]))
}

/// Every mutation has its report.
pub open spec fn all_reported(ms: Seq<Mutation>) -> bool {
    forall|i: int| 0 <= i < ms.len() ==> (#[trigger] ms[i]).report is Some
}

impl Mutation {
    /// Where and what the mutation is, its file given relative to the project.
    pub fn details(&self, relative_path: &str) -> (r: String)
        ensures
            r@ == details_text(*self, relative_path@),
    {
        let mut s = String::from_str("Mutation #");
        append_decimal(&mut s, self.id as u128);
        s.append(" ");
        s.append(self.reason.as_str());
        s.append(" in function \"");
        s.append(self.function_name.as_str());
        s.append("\" of file ");
        s.append(relative_path);
        s.append(" at line ");
        append_decimal(&mut s, self.chunk.start_point.row as u128 + 1);
        s.append(":");
        append_decimal(&mut s, self.chunk.start_point.column as u128 + 1);
        s
    }

    /// The path of the mutated file relative to the project root.
    pub fn relative_file_path(&self, project_path: &String) -> (r: Result<String, DarwinError>)
        ensures
            self.file_path is None ==> r == Err::<String, DarwinError>(
                DarwinError::MissingFilePath,
            ),
            r matches Ok(rel) ==> (self.file_path matches Some(p) && relative_shown(rel@, p@)),
    {
        let file_path = match self.get_file_path() {
            Ok(p) => p,
            Err(e) => {
                return Err(e);
            },
        };
        match strip_path_prefix(file_path.as_str(), project_path.as_str()) {
            Some(rest) => {
                let shown = simplified_path(rest.as_str());
                proof {
                    let (i, j) = choose|i: int, j: int|
                        0 <= i <= j <= file_path@.len() && rest@ == #[trigger] file_path@.subrange(
                            i,
                            j,
                        );
                    assert(shows_path(shown@, file_path@.subrange(i, j)));
                }
                Ok(shown)
            },
            None => Err(DarwinError::OutsideProject),
        }
    }

    /// Where and what the mutation is, its file shown relative to the project.
    pub fn get_details(&self, project_path: &String) -> (r: Result<String, DarwinError>)
        ensures
            r matches Ok(s) ==> (self.file_path matches Some(p) && exists|rel: Seq<char>|
                relative_shown(rel, p@) && s@ == #[trigger] details_text(*self, rel)),
            self.file_path is None ==> r is Err,
    {
        match self.relative_file_path(project_path) {
            Ok(rel) => Ok(self.details(rel.as_str())),
            Err(e) => Err(e),
        }
    }

    /// The summary line of the mutation, its file given relative to the project.
    pub fn summary_entry(&self, relative_path: &str) -> (r: Result<String, DarwinError>)
        ensures
            match self.report {
                Some(_) => r matches Ok(s) && s@ == summary_line(*self, relative_path@),
                None => r == Err::<String, DarwinError>(DarwinError::MissingReport),
            },
    {
        match &self.report {
            Some(report) => {
                let mut s = report.simple();
                s.append(" : ");
                let details = self.details(relative_path);
                s.append(details.as_str());
                Ok(s)
            },
            None => Err(DarwinError::MissingReport),
        }
    }

    /// The summary line of the mutation: its status tag, then where and what it is.
    pub fn simple(&self, project_path: &String) -> (r: Result<String, DarwinError>)
        ensures
            r matches Ok(s) ==> (self.file_path matches Some(p) && exists|rel: Seq<char>|
                relative_shown(rel, p@) && s@ == #[trigger] summary_line(*self, rel)),
            (self.report is None || self.file_path is None) ==> r is Err,
    {
        match self.relative_file_path(project_path) {
            Ok(rel) => self.summary_entry(rel.as_str()),
            Err(e) => Err(e),
        }
    }

    /// The line that a terminal shows once the mutation is verified: its
    /// status tag in color, then where and what it is.
    pub fn pretty(&self, project_path: &String) -> (r: Result<String, DarwinError>)
        ensures
            r matches Ok(s) ==> (self.report matches Some(rep) && exists|tag: Seq<char>, rel: Seq<char>|
                #![trigger painted(tag, padded_status_tag(rep.status), status_paint(rep.status)), details_text(*self, rel)]
                painted(tag, padded_status_tag(rep.status), status_paint(rep.status)) && s@ == tag
                    + " : "@ + details_text(*self, rel) && relative_shown(
                    rel,
                    self.file_path->Some_0@,
                )),
            (self.report is None || self.file_path is None) ==> r is Err,
    {
        let details = match self.get_details(project_path) {
            Ok(d) => d,
            Err(e) => {
                return Err(e);
            },
        };
        match &self.report {
            Some(report) => {
                let mut s = report.pretty();
                s.append(" : ");
                s.append(details.as_str());
                Ok(s)
            },
            None => Err(DarwinError::MissingReport),
        }
    }
}

/// The summary of verified mutations, one line each in their order, the
/// `i`-th file given by `relative_paths[i]`. Fails where a mutation has no
/// report yet.
pub fn summary_from(mutations: &Vec<Mutation>, relative_paths: &Vec<String>) -> (r: Result<
    String,
    DarwinError,
>)
    requires
        relative_paths@.len() == mutations@.len(),
    ensures
        all_reported(mutations@) ==> (r matches Ok(s) && s@ == lines_text(
            summary_lines(mutations@, relative_paths.deep_view()),
        )),
        !all_reported(mutations@) ==> r == Err::<String, DarwinError>(DarwinError::MissingReport),
{
    let ghost rels = relative_paths.deep_view();
    let mut data = String::new();
    let mut i: usize = 0;
    while i < mutations.len()
        invariant
            i <= mutations@.len(),
            relative_paths@.len() == mutations@.len(),
            rels == relative_paths.deep_view(),
            forall|j: int| 0 <= j < i ==> (#[trigger] mutations@[j]).report is Some,
            data@ == lines_text(summary_lines(mutations@, rels).take(i as int)),
        decreases mutations@.len() - i,
    {
        let line = match mutations[i].summary_entry(relative_paths[i].as_str()) {
            Ok(line) => line,
            Err(e) => {
                return Err(e);
            },
        };
        data.append(line.as_str());
        data.append("\n");
        proof {
            let all = summary_lines(mutations@, rels);
            assert(all.take(i + 1).drop_last() =~= all.take(i as int));
            assert(rels[i as int] == relative_paths@[i as int]@);
        }
        i = i + 1;
    }
    assert(summary_lines(mutations@, rels).take(mutations@.len() as int) =~= summary_lines(
        mutations@,
        rels,
    ));
    Ok(data)
}

/// The summary of verified mutations, one line each in their order, with
/// each file shown relative to the project root. Fails where a mutation
/// has no report or no file path, or lies outside the project.
pub fn generate_summary(mutations: &Vec<Mutation>, project_path: &String) -> (r: Result<
    String,
    DarwinError,
>)
    ensures
        r matches Ok(s) ==> (all_reported(mutations@) && exists|rels: Seq<Seq<char>>|
            rels.len() == mutations@.len() && s@ == lines_text(
                #[trigger] summary_lines(mutations@, rels),
            ) && forall|i: int|
                0 <= i < rels.len() ==> path_shown_as(#[trigger] mutations@[i], rels[i])),
        !all_reported(mutations@) ==> r is Err,
        (exists|i: int| 0 <= i < mutations@.len() && (#[trigger] mutations@[i]).file_path is None)
            ==> r is Err,
        mutations@.len() == 0 ==> (r matches Ok(s) && s@.len() == 0),
{
    let mut relative_paths: Vec<String> = Vec::new();
    let mut i: usize = 0;
    while i < mutations.len()
        invariant
            i <= mutations@.len(),
            relative_paths@.len() == i,
            forall|j: int|
                0 <= j < i ==> path_shown_as(#[trigger] mutations@[j], relative_paths@[j]@),
        decreases mutations@.len() - i,
    {
        match mutations[i].relative_file_path(project_path) {
            Ok(rel) => relative_paths.push(rel),
            Err(e) => {
                if mutations[i].report.is_none() {
                    return Err(DarwinError::MissingReport);
                }
                return Err(e);
            },
        }
        i = i + 1;
    }
    let r = summary_from(mutations, &relative_paths);
    proof {
        let rels = relative_paths.deep_view();
        assert forall|j: int| 0 <= j < rels.len() implies path_shown_as(
            #[trigger] mutations@[j],
            rels[j],
        ) by {
            assert(rels[j] == relative_paths@[j]@);
        }
    }
    r
}

/// The name of the detailed report file of mutant `id`.
pub open spec fn report_file_name(id: nat) -> Seq<char> {
    "mutation_"@ + decimal_chars(id) + ".log"@
}

/// The name of the detailed report file of a mutation, from its number.
pub fn report_file(mutation: &Mutation) -> (r: String)
    ensures
        r@ == report_file_name(mutation.id as nat),
{
    let mut s = String::from_str("mutation_");
    append_decimal(&mut s, mutation.id as u128);
    s.append(".log");
    s
}

/// How the summary line of mutant `id` starts.
pub open spec fn summary_line_head(status: MutationStatus, id: nat) -> Seq<char> {
    status_tag(status) + " : "@ + "Mutation #"@ + decimal_chars(id) + " "@
}

/// The summary lists the mutations in order. Once they are numbered in
/// order from 0, its `k`-th line is that of mutant `k`: its status tag,
/// then `Mutation #k`.
pub proof fn lemma_summary_in_sequence_order(
    ms: Seq<Mutation>,
    relative_paths: Seq<Seq<char>>,
    k: int,
)
    requires
        relative_paths.len() == ms.len(),
        forall|i: int| 0 <= i < ms.len() ==> (#[trigger] ms[i]).id == i,
        all_reported(ms),
        0 <= k < ms.len(),
    ensures
        summary_lines(ms, relative_paths).len() == ms.len(),
        summary_line_head(ms[k].report->Some_0.status, k as nat).is_prefix_of(
            summary_lines(ms, relative_paths)[k],
        ),
{
    assert(ms[k].id == k);
    let line = summary_lines(ms, relative_paths)[k];
    let head = summary_line_head(ms[k].report->Some_0.status, k as nat);
    assert(line.subrange(0, head.len() as int) =~= head);
}

/// The detailed report of a mutation: the file, the reason, the status if
/// known, the diff, and what the build or the tests printed if known.
pub open spec fn display_text(m: Mutation, shown_path: Seq<char>, diff: Seq<char>) -> Seq<char> {
    let status = match m.report {
        Some(r) => "Mutation status : "@ + status_description(r.status),
        None => Seq::<char>::empty(),
    };
    let output = match m.report {
        Some(r) => "stderr:\n"@ + r.stderr@ + "\nstdout:\n"@ + r.stdout@ + "--\n"@,
        None => Seq::<char>::empty(),
    };
    "Mutation of file "@ + shown_path + "\n"@ + "Mutation reason: "@ + m.reason@ + "\n"@ + status
        + "\n"@ + "Mutation diff:\n"@ + diff + output
}

impl Mutation {
    /// The detailed report of the mutation, given the original text of its
    /// file: a plain unified diff, or with `pretty_diff` one with colors
    /// that also shows changes within lines.
    pub fn display(&self, original_content: &String, pretty_diff: bool) -> (r: Result<
        String,
        DarwinError,
    >)
        ensures
            self.file_path is None ==> r == Err::<String, DarwinError>(DarwinError::MissingFilePath),
            self.file_path is Some && self.mutated_file is None ==> r == Err::<String, DarwinError>(
                DarwinError::MissingMutatedFile,
            ),
            self.file_path is Some && self.mutated_file is Some && !diffable(
                original_content@,
                self.mutated_file->Some_0@,
            ) ==> r == Err::<String, DarwinError>(DarwinError::TooManyLines),
            self.file_path is Some && self.mutated_file is Some && !pretty_diff && diffable(
                original_content@,
                self.mutated_file->Some_0@,
            ) ==> (r matches Ok(s) && exists|shown: Seq<char>|
                #![trigger shows_path(shown, self.file_path->Some_0@)]
                shows_path(shown, self.file_path->Some_0@) && s@ == display_text(
                    *self,
                    shown,
                    unified_diff_of(original_content@, self.mutated_file->Some_0@),
                )),
            self.file_path is Some && self.mutated_file is Some && diffable(
                original_content@,
                self.mutated_file->Some_0@,
            ) ==> r is Ok,
            pretty_diff && r is Ok ==> (r matches Ok(s) && exists|shown: Seq<char>, diff: Seq<char>|
                #![trigger shows_path(shown, self.file_path->Some_0@), display_text(*self, shown, diff)]
                shows_path(shown, self.file_path->Some_0@) && s@ == display_text(*self, shown, diff)),
    {
        let file_path = match &self.file_path {
            Some(p) => p,
            None => {
                return Err(DarwinError::MissingFilePath);
            },
        };
        let shown = simplified_path(file_path.as_str());
        let mutated_content = match &self.mutated_file {
            Some(m) => m,
            None => {
                return Err(DarwinError::MissingMutatedFile);
            },
        };
        let diff = if pretty_diff {
            match color_diff(original_content.as_str(), mutated_content.as_str()) {
                Some(d) => d,
                None => {
                    return Err(DarwinError::TooManyLines);
                },
            }
        } else {
            let before_lines = text_lines(original_content.as_str());
            let after_lines = text_lines(mutated_content.as_str());
            if before_lines.len() >= 2147483647 || after_lines.len() >= 2147483647 {
                return Err(DarwinError::TooManyLines);
            }
            unified_diff(original_content.as_str(), mutated_content.as_str())
        };
        let mut out = String::from_str("Mutation of file ");
        out.append(shown.as_str());
        out.append("\n");
        out.append("Mutation reason: ");
        out.append(self.reason.as_str());
        out.append("\n");
        match &self.report {
            Some(report) => {
                out.append("Mutation status : ");
                let description = report.status.description();
                out.append(description.as_str());
            },
            None => {},
        }
        out.append("\n");
        out.append("Mutation diff:\n");
        out.append(diff.as_str());
        match &self.report {
            Some(report) => {
                out.append("stderr:\n");
                out.append(report.stderr.as_str());
                out.append("\nstdout:\n");
                out.append(report.stdout.as_str());
                out.append("--\n");
            },
            None => {},
        }
        proof {
            assert(shows_path(shown@, file_path@));
            assert(out@ =~= display_text(*self, shown@, diff@));
        }
        Ok(out)
    }
}

} // verus!
