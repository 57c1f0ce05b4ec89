use crate::color::{paint, painted, Paint};
use crate::text::{append_decimal, decimal_chars};
use vstd::prelude::*;
use vstd::string::*;

verus! {

/// The unified diff (`@@ -a,b +c,d @@` hunks with three lines of context)
/// that Myers' algorithm gives between the lines of two texts.
pub uninterp spec fn unified_diff_of(before: Seq<char>, after: Seq<char>) -> Seq<char>;

/// Both texts have fewer lines than the diff can take (it asserts that
/// each side has fewer than `i32::MAX` tokens).
pub open spec fn diffable(before: Seq<char>, after: Seq<char>) -> bool {
    &&& lines_of(before).len() < 2147483647
    &&& lines_of(after).len() < 2147483647
}

/// Relies on imara_diff::diff with `Algorithm::Myers` and imara_diff's
/// `UnifiedDiffBuilder`, over the lines of both texts: the diff depends on
/// the two texts alone.
#[verifier::external_body]
pub(crate) fn unified_diff(before: &str, after: &str) -> (r: String)
    requires
        diffable(before@, after@),
    ensures
        r@ == unified_diff_of(before@, after@),
{
    let input = imara_diff::intern::InternedInput::new(before, after);
    imara_diff::diff(
        imara_diff::Algorithm::Myers,
        &input,
        imara_diff::UnifiedDiffBuilder::new(&input),
    )
}

/// The lines of a text, without their line terminators, as the diff sees them.
pub uninterp spec fn lines_of(text: Seq<char>) -> Seq<Seq<char>>;

/// Relies on imara_diff::sources::lines: the lines of the text, without
/// their terminators, which the diff compares.
#[verifier::external_body]
pub(crate) fn text_lines(text: &str) -> (r: Vec<String>)
    ensures
        r.deep_view() == lines_of(text@),
{
    imara_diff::sources::lines(text).map(|line| line.to_string()).collect()
}

/// One change between two lists of lines: the lines `[before_start,
/// before_end)` of the first are replaced by `[after_start, after_end)` of
/// the second.
#[derive(Debug, Clone, Copy, PartialEq, Eq, Structural)]
pub struct LineChange {
    pub before_start: u32,
    pub before_end: u32,
    pub after_start: u32,
    pub after_end: u32,
}

/// The changes, in order, that Myers' algorithm finds between the lines of
/// two texts.
pub uninterp spec fn myers_changes(before: Seq<char>, after: Seq<char>) -> Seq<LineChange>;

/// Relies on imara_diff::diff with `Algorithm::Myers`, whose sink gets the
/// changes between the lines of both texts in strictly increasing order on
/// both sides, each a range of the lines of each text (as
/// `Sink::process_change` documents).
#[verifier::external_body]
pub(crate) fn line_changes(before: &str, after: &str) -> (r: Vec<LineChange>)
    requires
        diffable(before@, after@),
    ensures
        r@ == myers_changes(before@, after@),
        forall|k: int|
            0 <= k < r@.len() - 1 ==> (#[trigger] r@[k]).before_end < r@[k + 1].before_start
                && r@[k].after_end < r@[k + 1].after_start,
        forall|k: int|
            0 <= k < r@.len() ==> (#[trigger] r@[k]).before_start <= r@[k].before_end <= lines_of(
                before@,
            ).len() && r@[k].after_start <= r@[k].after_end <= lines_of(after@).len(),
{
    let input = imara_diff::intern::InternedInput::new(before, after);
    let mut changes = Vec::new();
    imara_diff::diff(
        imara_diff::Algorithm::Myers,
        &input,
        |b: std::ops::Range<u32>, a: std::ops::Range<u32>| push_change(&mut changes, b, a),
    );
    changes
}

/// Records a change found by the diff.
fn push_change(changes: &mut Vec<LineChange>, before: std::ops::Range<u32>, after: std::ops::Range<u32>)
    ensures
        final(changes)@ == old(changes)@.push(
            LineChange {
                before_start: before.start,
                before_end: before.end,
                after_start: after.start,
                after_end: after.end,
            },
        ),
{
    changes.push(
        LineChange {
            before_start: before.start,
            before_end: before.end,
            after_start: after.start,
            after_end: after.end,
        },
    );
}

/// How a piece of an in-line diff relates the two lines.
#[derive(Debug, Clone, Copy, PartialEq, Eq, Structural)]
pub enum PieceKind {
    /// In both lines.
    Same,
    /// Only in the second line.
    Add,
    /// Only in the first line.
    Rem,
}

/// A piece of an in-line diff.
pub struct Piece {
    pub kind: PieceKind,
    pub text: String,
}

/// The character-level differences that text_diff finds from `orig` to `edit`.
pub uninterp spec fn text_differences(orig: Seq<char>, edit: Seq<char>) -> Seq<
    (PieceKind, Seq<char>),
>;

/// The kinds and texts of pieces.
pub open spec fn pieces_view(pieces: Seq<Piece>) -> Seq<(PieceKind, Seq<char>)> {
    Seq::new(pieces.len(), |i: int| (pieces[i].kind, pieces[i].text@))
}

/// Relies on text_diff::diff with an empty separator: the differences, in
/// order, that turn `orig` into `edit`, each told apart by its
/// `text_diff::Difference` variant.
#[verifier::external_body]
pub(crate) fn inline_pieces(orig: &str, edit: &str) -> (r: Vec<Piece>)
    ensures
        pieces_view(r@) == text_differences(orig@, edit@),
{
    let (_, diffs) = text_diff::diff(orig, edit, "");
    diffs.into_iter().map(|d| match d {
        text_diff::Difference::Same(text) => Piece { kind: PieceKind::Same, text },
        text_diff::Difference::Add(text) => Piece { kind: PieceKind::Add, text },
        text_diff::Difference::Rem(text) => Piece { kind: PieceKind::Rem, text },
    }).collect()
}

/// The texts joined.
pub open spec fn concat_all(parts: Seq<Seq<char>>) -> Seq<char>
    decreases parts.len(),
{
    if parts.len() == 0 {
        seq![]
    } else {
        concat_all(parts.drop_last()) + parts.last()
    }
}

/// `out` is the pieces that are not additions, in order, each painted:
/// the pieces only in the first line with `removed`, shared ones as they are.
pub open spec fn rendered_pieces(
    out: Seq<char>,
    pieces: Seq<(PieceKind, Seq<char>)>,
    removed: Paint,
) -> bool {
    exists|parts: Seq<Seq<char>>|
        #![trigger concat_all(parts)]
        parts.len() == pieces.len() && out == concat_all(parts) && forall|k: int|
            0 <= k < pieces.len() ==> #[trigger] piece_rendered(parts[k], pieces[k], removed)
}

/// How one piece of an in-line diff shows.
pub open spec fn piece_rendered(part: Seq<char>, piece: (PieceKind, Seq<char>), removed: Paint) -> bool {
    match piece.0 {
        PieceKind::Add => part == Seq::<char>::empty(),
        PieceKind::Same => part == piece.1,
        PieceKind::Rem => painted(part, piece.1, removed),
    }
}

/// The pieces other than additions, the removed ones painted.
fn render_pieces(pieces: &Vec<Piece>, removed: Paint) -> (r: String)
    ensures
        rendered_pieces(r@, pieces_view(pieces@), removed),
{
    let ghost view = pieces_view(pieces@);
    let ghost mut parts: Seq<Seq<char>> = seq![];
    let mut out = String::new();
    let mut i: usize = 0;
    while i < pieces.len()
        invariant
            i <= pieces@.len(),
            view == pieces_view(pieces@),
            parts.len() == i,
            out@ == concat_all(parts),
            forall|k: int| 0 <= k < i ==> #[trigger] piece_rendered(parts[k], view[k], removed),
        decreases pieces@.len() - i,
    {
        let piece = &pieces[i];
        let ghost part: Seq<char>;
        match piece.kind {
            PieceKind::Add => {
                proof {
                    part = seq![];
                }
            },
            PieceKind::Same => {
                out.append(piece.text.as_str());
                proof {
                    part = piece.text@;
                }
            },
            PieceKind::Rem => {
                let p = paint(piece.text.as_str(), removed);
                out.append(p.as_str());
                proof {
                    part = p@;
                }
            },
        }
        proof {
            let old_parts = parts;
            parts = parts.push(part);
            assert(parts.drop_last() =~= old_parts);
            assert forall|k: int| 0 <= k < i + 1 implies #[trigger] piece_rendered(
                parts[k],
                view[k],
                removed,
            ) by {
                if k < i {
                    assert(parts[k] == old_parts[k]);
                }
            }
        }
        i = i + 1;
    }
    out
}

/// The hunk header `@@ -a,b +c,d @@` and its newline.
pub open spec fn hunk_header(
    before_start: nat,
    before_len: nat,
    after_start: nat,
    after_len: nat,
) -> Seq<char> {
    "@@ -"@ + decimal_chars(before_start) + ","@ + decimal_chars(before_len) + " +"@
        + decimal_chars(after_start) + ","@ + decimal_chars(after_len) + " @@"@ + "\n"@
}

/// Each line after a prefix, and a newline after each.
pub open spec fn prefixed_lines(prefix: Seq<char>, lines: Seq<Seq<char>>) -> Seq<char>
    decreases lines.len(),
{
    if lines.len() == 0 {
        seq![]
    } else {
        prefixed_lines(prefix, lines.drop_last()) + prefix + lines.last() + "\n"@
    }
}

/// Appends each of the lines `[from, to)`, after `prefix` and with a newline.
fn append_lines(buf: &mut String, prefix: &str, lines: &Vec<String>, from: u64, to: u64)
    requires
        from <= to <= lines@.len(),
    ensures
        final(buf)@ == old(buf)@ + prefixed_lines(
            prefix@,
            lines.deep_view().subrange(from as int, to as int),
        ),
{
    let ghost all = lines.deep_view();
    let mut i = from;
    while i < to
        invariant
            from <= i <= to,
            to <= lines@.len(),
            all == lines.deep_view(),
            buf@ == old(buf)@ + prefixed_lines(prefix@, all.subrange(from as int, i as int)),
        decreases to - i,
    {
        assert(i < lines.len());
        buf.append(prefix);
        buf.append(lines[i as usize].as_str());
        buf.append("\n");
        proof {
            let sub = all.subrange(from as int, i + 1);
            assert(sub.drop_last() =~= all.subrange(from as int, i as int));
            assert(sub.last() == lines@[i as int]@);
            assert(prefixed_lines(prefix@, sub) == prefixed_lines(prefix@, sub.drop_last())
                + prefix@ + sub.last() + "\n"@);
            assert(buf@ =~= old(buf)@ + prefixed_lines(prefix@, sub));
        }
        i = i + 1;
    }
}

/// A unified diff with colors, built from the changes between two lists of
/// lines; each changed pair of lines also shows what changed within it.
pub struct UnifiedColorDiff {
    before: Vec<String>,
    after: Vec<String>,
    context_prefix: String,
    added_prefix: String,
    removed_prefix: String,
    pos: u64,
    after_pos: u64,
    before_hunk_start: u64,
    after_hunk_start: u64,
    before_hunk_len: u64,
    after_hunk_len: u64,
    buffer: String,
    dst: String,
}

impl UnifiedColorDiff {
    /// The lines of the first text.
    pub closed spec fn before_lines(&self) -> Seq<Seq<char>> {
        self.before.deep_view()
    }

    /// The lines of the second text.
    pub closed spec fn after_lines(&self) -> Seq<Seq<char>> {
        self.after.deep_view()
    }

    /// The current position in the first text: where the last change ended.
    pub closed spec fn position(&self) -> nat {
        self.pos as nat
    }

    /// Where the last change ended in the second text.
    pub closed spec fn after_position(&self) -> nat {
        self.after_pos as nat
    }

    /// The start and length of the open hunk, on both sides.
    pub closed spec fn hunk(&self) -> (nat, nat, nat, nat) {
        (
            self.before_hunk_start as nat,
            self.before_hunk_len as nat,
            self.after_hunk_start as nat,
            self.after_hunk_len as nat,
        )
    }

    /// The lines of the open hunk, as far as they are written.
    pub closed spec fn pending(&self) -> Seq<char> {
        self.buffer@
    }

    /// The hunks that are complete.
    pub closed spec fn written(&self) -> Seq<char> {
        self.dst@
    }

    /// The prefix of context lines.
    pub closed spec fn context(&self) -> Seq<char> {
        self.context_prefix@
    }

    /// The counters stay far from overflow: positions lie within the lines,
    /// and each hunk is no longer than what lies before the positions.
    pub closed spec fn wf(&self) -> bool {
        &&& self.before@.len() <= u32::MAX
        &&& self.after@.len() <= u32::MAX
        &&& self.pos <= self.before@.len()
        &&& self.after_pos <= self.after@.len()
        &&& self.before_hunk_len <= self.pos
        &&& self.after_hunk_len <= self.pos + self.after_pos
        &&& self.before_hunk_len == 0 && self.after_hunk_len == 0 ==> self.buffer@.len() == 0
    }

    /// The prefix of removed lines.
    pub closed spec fn removed(&self) -> Seq<char> {
        self.removed_prefix@
    }

    /// The prefix of added lines.
    pub closed spec fn added(&self) -> Seq<char> {
        self.added_prefix@
    }

    /// A diff of `before` into `after` with no change seen yet.
    pub fn new(before: &str, after: &str) -> (r: Self)
        ensures
            r.before_lines() == lines_of(before@),
            r.position() == 0,
            r.after_position() == 0,
            r.hunk() == (0nat, 0nat, 0nat, 0nat),
            r.pending() == Seq::<char>::empty(),
            r.written() == Seq::<char>::empty(),
            painted(r.context(), " "@, Paint::White),
            painted(r.removed(), "-"@, Paint::Red),
            painted(r.added(), "+"@, Paint::Green),
            r.after_lines() == lines_of(after@),
            r.before_lines().len() <= u32::MAX && r.after_lines().len() <= u32::MAX ==> r.wf(),
    {
        UnifiedColorDiff {
            before: text_lines(before),
            after: text_lines(after),
            context_prefix: paint(" ", Paint::White),
            added_prefix: paint("+", Paint::Green),
            removed_prefix: paint("-", Paint::Red),
            pos: 0,
            after_pos: 0,
            before_hunk_start: 0,
            after_hunk_start: 0,
            before_hunk_len: 0,
            after_hunk_len: 0,
            buffer: String::new(),
            dst: String::new(),
        }
    }

    /// Writes the lines `[from, to)` of the first text to the open hunk, as context.
    fn print_tokens(&mut self, from: u64, to: u64)
        requires
            from <= to <= old(self).before@.len(),
        ensures
            final(self).buffer@ == old(self).buffer@ + prefixed_lines(
                old(self).context_prefix@,
                old(self).before.deep_view().subrange(from as int, to as int),
            ),
            final(self).before == old(self).before,
            final(self).after == old(self).after,
            final(self).context_prefix == old(self).context_prefix,
            final(self).added_prefix == old(self).added_prefix,
            final(self).removed_prefix == old(self).removed_prefix,
            final(self).pos == old(self).pos,
            final(self).after_pos == old(self).after_pos,
            final(self).before_hunk_start == old(self).before_hunk_start,
            final(self).after_hunk_start == old(self).after_hunk_start,
            final(self).before_hunk_len == old(self).before_hunk_len,
            final(self).after_hunk_len == old(self).after_hunk_len,
            final(self).dst == old(self).dst,
    {
        append_lines(&mut self.buffer, self.context_prefix.as_str(), &self.before, from, to);
    }

    /// Writes the context from the position up to `print_to`, counts it in
    /// the hunk on both sides, and moves the position to `move_to`.
    fn update_pos(&mut self, print_to: u64, move_to: u64)
        requires
            old(self).wf(),
            old(self).pos <= print_to <= old(self).before@.len(),
        ensures
            final(self).buffer@ == old(self).buffer@ + prefixed_lines(
                old(self).context_prefix@,
                old(self).before.deep_view().subrange(old(self).pos as int, print_to as int),
            ),
            final(self).pos == move_to,
            final(self).before_hunk_len == old(self).before_hunk_len + (print_to - old(self).pos),
            final(self).after_hunk_len == old(self).after_hunk_len + (print_to - old(self).pos),
            final(self).before == old(self).before,
            final(self).after == old(self).after,
            final(self).context_prefix == old(self).context_prefix,
            final(self).added_prefix == old(self).added_prefix,
            final(self).removed_prefix == old(self).removed_prefix,
            final(self).after_pos == old(self).after_pos,
            final(self).before_hunk_start == old(self).before_hunk_start,
            final(self).after_hunk_start == old(self).after_hunk_start,
            final(self).dst == old(self).dst,
    {
        self.print_tokens(self.pos, print_to);
        let len = print_to - self.pos;
        self.pos = move_to;
        self.before_hunk_len = self.before_hunk_len + len;
        self.after_hunk_len = self.after_hunk_len + len;
    }

    /// The hunks written once the open hunk is closed: its header, then its
    /// lines, then up to three lines of context after it.
    pub open spec fn flushed(&self) -> Seq<char> {
        let (bs, bl, a_s, al) = self.hunk();
        if bl == 0 && al == 0 {
            self.written()
        } else {
            let end = self.flush_end();
            let extra = (end - self.position()) as nat;
            self.written() + hunk_header(bs + 1, bl + extra, a_s + 1, al + extra) + self.pending()
                + prefixed_lines(
                self.context(),
                self.before_lines().subrange(self.position() as int, end as int),
            )
        }
    }

    /// Where the context after the open hunk ends: three lines past the
    /// position, or the end of the first text.
    pub open spec fn flush_end(&self) -> nat {
        if self.position() + 3 <= self.before_lines().len() {
            self.position() + 3
        } else {
            self.before_lines().len()
        }
    }

    /// Closes the open hunk, if it holds anything: writes its header and its
    /// lines, with up to three lines of context after it.
    fn flush(&mut self)
        requires
            old(self).wf(),
        ensures
            final(self).wf(),
            old(self).hunk().1 == 0 && old(self).hunk().3 == 0 ==> *final(self) == *old(self),
            !(old(self).hunk().1 == 0 && old(self).hunk().3 == 0) ==> {
                &&& final(self).written() == old(self).flushed()
                &&& final(self).pending() == Seq::<char>::empty()
                &&& final(self).position() == old(self).flush_end()
                &&& final(self).hunk() == (old(self).hunk().0, 0nat, old(self).hunk().2, 0nat)
            },
            final(self).before == old(self).before,
            final(self).after == old(self).after,
            final(self).context_prefix == old(self).context_prefix,
            final(self).added_prefix == old(self).added_prefix,
            final(self).removed_prefix == old(self).removed_prefix,
            final(self).after_pos == old(self).after_pos,
    {
        if self.before_hunk_len == 0 && self.after_hunk_len == 0 {
            return;
        }
        let ghost old_self = *self;
        let len = self.before.len() as u64;
        let end = if self.pos + 3 <= len {
            self.pos + 3
        } else {
            len
        };
        self.update_pos(end, end);
        self.dst.append("@@ -");
        append_decimal(&mut self.dst, self.before_hunk_start as u128 + 1);
        self.dst.append(",");
        append_decimal(&mut self.dst, self.before_hunk_len as u128);
        self.dst.append(" +");
        append_decimal(&mut self.dst, self.after_hunk_start as u128 + 1);
        self.dst.append(",");
        append_decimal(&mut self.dst, self.after_hunk_len as u128);
        self.dst.append(" @@");
        self.dst.append("\n");
        let ghost header = hunk_header(
            self.before_hunk_start as nat + 1,
            self.before_hunk_len as nat,
            self.after_hunk_start as nat + 1,
            self.after_hunk_len as nat,
        );
        assert(self.dst@ =~= old_self.dst@ + header);
        self.dst.append(self.buffer.as_str());
        self.buffer = String::new();
        self.before_hunk_len = 0;
        self.after_hunk_len = 0;
        assert(self.dst@ =~= old_self.flushed());
    }

    /// Takes in one change: closes the open hunk and opens one three lines
    /// before the change where more than six unchanged lines lie between;
    /// writes the unchanged lines up to the change as context and counts the
    /// change on both sides; then shows each pair of changed lines with what
    /// changed within it, and the lines left over on the longer side. A
    /// change that does not fit is ignored.
    pub fn process_change(&mut self, before: std::ops::Range<u32>, after: std::ops::Range<u32>)
        requires
            old(self).wf(),
        ensures
            final(self).wf(),
            change_taken(*old(self), before, after, *final(self)),
    {
        let b_start = before.start as u64;
        let b_end = before.end as u64;
        let a_start = after.start as u64;
        let a_end = after.end as u64;
        assert(self.before.deep_view().len() == self.before@.len());
        assert(self.after.deep_view().len() == self.after@.len());
        if !(self.pos <= b_start && b_start <= b_end && b_end <= self.before.len() as u64
            && self.after_pos <= a_start && a_start <= a_end && a_end <= self.after.len() as u64
            && (b_start - self.pos <= 6 || a_start >= 3)) {
            return;
        }
        let ghost old_self = *self;
        let gap = b_start - self.pos > 6;
        if gap {
            self.flush();
            self.pos = b_start - 3;
            self.before_hunk_start = self.pos;
            self.after_hunk_start = a_start - 3;
        }
        let ghost base = self.buffer@;
        assert(gap ==> base == Seq::<char>::empty());
        let ghost p = self.pos;
        self.update_pos(b_start, b_end);
        self.before_hunk_len = self.before_hunk_len + (b_end - b_start);
        self.after_hunk_len = self.after_hunk_len + (a_end - a_start);
        self.after_pos = a_end;
        let ghost context_part = self.buffer@;
        let ghost old_lines = self.before.deep_view().subrange(b_start as int, b_end as int);
        let ghost new_lines = self.after.deep_view().subrange(a_start as int, a_end as int);
        let ghost dst_now = self.dst@;
        let ghost hunk_now = self.hunk();
        let ghost mut parts: Seq<Seq<char>> = seq![];
        let mut k: u64 = 0;
        while b_start + k < b_end && a_start + k < a_end
            invariant
                b_start <= b_end <= self.before@.len(),
                a_start <= a_end <= self.after@.len(),
                old_lines == self.before.deep_view().subrange(b_start as int, b_end as int),
                new_lines == self.after.deep_view().subrange(a_start as int, a_end as int),
                parts.len() == k,
                k <= b_end - b_start,
                k <= a_end - a_start,
                self.buffer@ == context_part + concat_all(parts),
                forall|j: int|
                    0 <= j < k ==> #[trigger] pair_rendered(
                        parts[j],
                        old_lines[j],
                        new_lines[j],
                        self.removed_prefix@,
                        self.added_prefix@,
                    ),
                self.before == old_self.before,
                self.after == old_self.after,
                self.context_prefix == old_self.context_prefix,
                self.added_prefix == old_self.added_prefix,
                self.removed_prefix == old_self.removed_prefix,
                self.pos == b_end,
                self.after_pos == a_end,
                self.dst@ == dst_now,
                self.hunk() == hunk_now,
            decreases b_end - b_start - k,
        {
            assert(b_start + k < self.before.len());
            assert(a_start + k < self.after.len());
            let old_line = self.before[(b_start + k) as usize].as_str();
            let new_line = self.after[(a_start + k) as usize].as_str();
            let forward = inline_pieces(old_line, new_line);
            let backward = inline_pieces(new_line, old_line);
            let x = render_pieces(&forward, Paint::Red);
            let y = render_pieces(&backward, Paint::Green);
            self.buffer.append(self.removed_prefix.as_str());
            self.buffer.append(x.as_str());
            self.buffer.append("\n");
            self.buffer.append(self.added_prefix.as_str());
            self.buffer.append(y.as_str());
            self.buffer.append("\n");
            proof {
                let part = self.removed_prefix@ + x@ + "\n"@ + self.added_prefix@ + y@ + "\n"@;
                assert(old_lines[k as int] == old_line@);
                assert(new_lines[k as int] == new_line@);
                assert(pair_rendered(
                    part,
                    old_lines[k as int],
                    new_lines[k as int],
                    self.removed_prefix@,
                    self.added_prefix@,
                ));
                let old_parts = parts;
                parts = parts.push(part);
                assert(parts.drop_last() =~= old_parts);
                assert(self.buffer@ =~= context_part + concat_all(parts));
                assert forall|j: int| 0 <= j < k + 1 implies #[trigger] pair_rendered(
                    parts[j],
                    old_lines[j],
                    new_lines[j],
                    self.removed_prefix@,
                    self.added_prefix@,
                ) by {
                    if j < k {
                        assert(parts[j] == old_parts[j]);
                    }
                }
            }
            k = k + 1;
        }
        let ghost paired = self.buffer@;
        append_lines(&mut self.buffer, self.removed_prefix.as_str(), &self.before, b_start + k, b_end);
        let ghost with_removed = self.buffer@;
        append_lines(&mut self.buffer, self.added_prefix.as_str(), &self.after, a_start + k, a_end);
        proof {
            let m = k as int;
            assert(self.before.deep_view().subrange(b_start + k, b_end as int) =~= old_lines.subrange(
                m,
                old_lines.len() as int,
            ));
            assert(self.after.deep_view().subrange(a_start + k, a_end as int) =~= new_lines.subrange(
                m,
                new_lines.len() as int,
            ));
            let changed = concat_all(parts) + prefixed_lines(
                self.removed_prefix@,
                old_lines.subrange(m, old_lines.len() as int),
            ) + prefixed_lines(self.added_prefix@, new_lines.subrange(m, new_lines.len() as int));
            assert(changes_rendered(
                changed,
                old_lines,
                new_lines,
                self.removed_prefix@,
                self.added_prefix@,
            ));
            assert(self.buffer@ =~= base + prefixed_lines(
                old_self.context_prefix@,
                old_self.before.deep_view().subrange(p as int, b_start as int),
            ) + changed);
            let d = *old(self);
            assert(old_self == d);
            assert(old_lines == d.before_lines().subrange(before.start as int, before.end as int));
            assert(new_lines == d.after_lines().subrange(after.start as int, after.end as int));
            assert(self.removed_prefix@ == d.removed() && self.added_prefix@ == d.added());
            assert(self.pending() == (if gap {
                Seq::<char>::empty()
            } else {
                d.pending()
            }) + prefixed_lines(d.context(), d.before_lines().subrange(p as int, before.start as int))
                + changed);
            if self.before_hunk_len == 0 && self.after_hunk_len == 0 {
                assert(old_lines.len() == 0 && new_lines.len() == 0);
                assert(parts.len() == 0);
                assert(old_self.before.deep_view().subrange(p as int, b_start as int).len() == 0);
                assert(self.buffer@ =~= base);
            }
        }
    }

    /// The whole diff: the hunks written so far and the open one, closed.
    pub fn finish(self) -> (r: String)
        requires
            self.wf(),
        ensures
            r@ == self.flushed(),
    {
        let mut sink = self;
        sink.flush();
        sink.dst
    }
}

/// The lines that show one changed pair: the first line without what the
/// second adds, removals in red, after the removed prefix; then the second
/// line without what the first adds, additions in green, after the added prefix.
pub open spec fn pair_rendered(
    part: Seq<char>,
    old_line: Seq<char>,
    new_line: Seq<char>,
    removed_prefix: Seq<char>,
    added_prefix: Seq<char>,
) -> bool {
    exists|x: Seq<char>, y: Seq<char>|
        #![trigger rendered_pieces(x, text_differences(old_line, new_line), Paint::Red), rendered_pieces(y, text_differences(new_line, old_line), Paint::Green)]
        rendered_pieces(x, text_differences(old_line, new_line), Paint::Red) && rendered_pieces(
            y,
            text_differences(new_line, old_line),
            Paint::Green,
        ) && part == removed_prefix + x + "\n"@ + added_prefix + y + "\n"@
}

/// `out` shows the changed lines: pair by pair as far as both sides go, then
/// each line left over on the first side as removed, then each line left
/// over on the second side as added.
pub open spec fn changes_rendered(
    out: Seq<char>,
    old_lines: Seq<Seq<char>>,
    new_lines: Seq<Seq<char>>,
    removed_prefix: Seq<char>,
    added_prefix: Seq<char>,
) -> bool {
    let m = if old_lines.len() <= new_lines.len() {
        old_lines.len()
    } else {
        new_lines.len()
    };
    exists|parts: Seq<Seq<char>>|
        #![trigger concat_all(parts)]
        parts.len() == m && out == concat_all(parts) + prefixed_lines(
            removed_prefix,
            old_lines.subrange(m as int, old_lines.len() as int),
        ) + prefixed_lines(added_prefix, new_lines.subrange(m as int, new_lines.len() as int))
            && forall|k: int|
            0 <= k < m ==> #[trigger] pair_rendered(
                parts[k],
                old_lines[k],
                new_lines[k],
                removed_prefix,
                added_prefix,
            )
}

/// A change lies past the last one, within the lines, and leaves room for
/// three lines of context before it on the second side when a new hunk opens.
pub open spec fn change_fits(d: UnifiedColorDiff, before: std::ops::Range<u32>, after: std::ops::Range<u32>) -> bool {
    &&& d.position() <= before.start <= before.end <= d.before_lines().len()
    &&& d.after_position() <= after.start <= after.end <= d.after_lines().len()
    &&& before.start - d.position() > 6 ==> after.start >= 3
}

/// `e` is `d` once it has taken in the change `before` / `after` (see
/// [`UnifiedColorDiff::process_change`]).
pub open spec fn change_taken(
    d: UnifiedColorDiff,
    before: std::ops::Range<u32>,
    after: std::ops::Range<u32>,
    e: UnifiedColorDiff,
) -> bool {
    &&& e.before_lines() == d.before_lines()
    &&& e.after_lines() == d.after_lines()
    &&& e.context() == d.context()
    &&& e.added() == d.added()
    &&& e.removed() == d.removed()
    &&& !change_fits(d, before, after) ==> e == d
    &&& change_fits(d, before, after) ==> {
        let gap = before.start - d.position() > 6;
        let (bs, bl, a_s, al) = d.hunk();
        let p = if gap {
            before.start - 3
        } else {
            d.position() as int
        };
        let base = if gap {
            Seq::<char>::empty()
        } else {
            d.pending()
        };
        &&& e.position() == before.end
        &&& e.after_position() == after.end
        &&& e.written() == if gap {
            d.flushed()
        } else {
            d.written()
        }
        &&& e.hunk() == if gap {
            (
                (before.start - 3) as nat,
                (before.end - p) as nat,
                (after.start - 3) as nat,
                (before.start - p + after.end - after.start) as nat,
            )
        } else {
            (
                bs,
                (bl + before.end - p) as nat,
                a_s,
                (al + before.start - p + after.end - after.start) as nat,
            )
        }
        &&& exists|changed: Seq<char>|
            #![trigger changes_rendered(changed, d.before_lines().subrange(before.start as int, before.end as int), d.after_lines().subrange(after.start as int, after.end as int), d.removed(), d.added())]
            changes_rendered(
                changed,
                d.before_lines().subrange(before.start as int, before.end as int),
                d.after_lines().subrange(after.start as int, after.end as int),
                d.removed(),
                d.added(),
            ) && e.pending() == base + prefixed_lines(
                d.context(),
                d.before_lines().subrange(p, before.start as int),
            ) + changed
    }
}

/// `d` is a diff of `before` into `after` that has seen no change yet.
pub open spec fn fresh(d: UnifiedColorDiff, before: Seq<char>, after: Seq<char>) -> bool {
    &&& d.before_lines() == lines_of(before)
    &&& d.after_lines() == lines_of(after)
    &&& d.position() == 0
    &&& d.after_position() == 0
    &&& d.hunk() == (0nat, 0nat, 0nat, 0nat)
    &&& d.pending() == Seq::<char>::empty()
    &&& d.written() == Seq::<char>::empty()
    &&& painted(d.context(), " "@, Paint::White)
    &&& painted(d.removed(), "-"@, Paint::Red)
    &&& painted(d.added(), "+"@, Paint::Green)
}

/// The range of lines that a change removes.
pub open spec fn removed_range(c: LineChange) -> std::ops::Range<u32> {
    std::ops::Range { start: c.before_start, end: c.before_end }
}

/// The range of lines that a change adds.
pub open spec fn added_range(c: LineChange) -> std::ops::Range<u32> {
    std::ops::Range { start: c.after_start, end: c.after_end }
}

/// `states` runs from `d` through one state per change, each the one
/// before it once it has taken in that change.
pub open spec fn changes_taken(states: Seq<UnifiedColorDiff>, d: UnifiedColorDiff, changes: Seq<LineChange>) -> bool {
    &&& states.len() == changes.len() + 1
    &&& states[0] == d
    &&& forall|k: int|
        0 <= k < changes.len() ==> #[trigger] change_taken(
            states[k],
            removed_range(changes[k]),
            added_range(changes[k]),
            states[k + 1],
        )
}

/// The diff of `before` into `after` with colors: a fresh
/// [`UnifiedColorDiff`] takes in, in order, every change that Myers'
/// algorithm finds between their lines, and is then finished. `None` where
/// a text has more lines than the diff can take.
pub fn color_diff(before: &str, after: &str) -> (r: Option<String>)
    ensures
        r is None <==> !diffable(before@, after@),
        r matches Some(s) ==> exists|states: Seq<UnifiedColorDiff>|
            #[trigger] changes_taken(states, states[0], myers_changes(before@, after@)) && fresh(
                states[0],
                before@,
                after@,
            ) && s@ == states.last().flushed(),
{
    let mut sink = UnifiedColorDiff::new(before, after);
    if sink.before.len() >= 2147483647 || sink.after.len() >= 2147483647 {
        return None;
    }
    let ghost d0 = sink;
    assert(fresh(d0, before@, after@));
    let ghost mut states: Seq<UnifiedColorDiff> = seq![sink];
    let changes = line_changes(before, after);
    let mut i: usize = 0;
    while i < changes.len()
        invariant
            sink.wf(),
            i <= changes@.len(),
            changes@ == myers_changes(before@, after@),
            changes_taken(states, d0, changes@.take(i as int)),
            states.last() == sink,
            fresh(d0, before@, after@),
        decreases changes@.len() - i,
    {
        let c = changes[i];
        sink.process_change(
            std::ops::Range { start: c.before_start, end: c.before_end },
            std::ops::Range { start: c.after_start, end: c.after_end },
        );
        proof {
            let old_states = states;
            states = states.push(sink);
            let taken = changes@.take(i + 1);
            assert(taken[i as int] == c);
            assert(removed_range(c) == std::ops::Range { start: c.before_start, end: c.before_end });
            assert(added_range(c) == std::ops::Range { start: c.after_start, end: c.after_end });
            assert forall|k: int| 0 <= k < taken.len() implies #[trigger] change_taken(
                states[k],
                removed_range(taken[k]),
                added_range(taken[k]),
                states[k + 1],
            ) by {
                if k < i {
                    assert(taken[k] == changes@.take(i as int)[k]);
                    assert(states[k] == old_states[k] && states[k + 1] == old_states[k + 1]);
                }
            }
        }
        i = i + 1;
    }
    assert(changes@.take(changes@.len() as int) =~= changes@);
    let ghost last = sink;
    let out = sink.finish();
    assert(out@ == last.flushed());
    assert(changes_taken(states, states[0], myers_changes(before@, after@)));
    Some(out)
}

} // verus!
