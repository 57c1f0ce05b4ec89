use crate::error::DarwinError;
use crate::mutation::{chunk_fits, patched_text, Mutation, MutationChunk};
use crate::syntax::{lemma_child_fits, lemma_fits_chunk, node_fits, parse_rust, NodeKind, SyntaxNode};
use crate::text::{byte_slice, same_text, text_between};
use vstd::prelude::*;
use vstd::string::*;

verus! {

broadcast use vstd::std_specs::vec::group_vec_axioms;

/// The operators that have mutations.
#[derive(Debug, Clone, Copy, PartialEq, Eq, Structural)]
pub enum Operator {
    Add,
    Sub,
}

/// The operator that a token node stands for, if it is one that mutates.
pub open spec fn operator_of(kind: NodeKind) -> Option<Operator> {
    match kind {
        NodeKind::Plus => Some(Operator::Add),
        NodeKind::Minus => Some(Operator::Sub),
        _ => None,
    }
}

/// One mutation that analysis finds: the span of an operator token, the
/// text to put there, why, and the enclosing function.
pub struct Site {
    pub chunk: MutationChunk,
    pub replacement: Seq<char>,
    pub reason: Seq<char>,
    pub function_name: Seq<char>,
}

/// The catalog: `-` becomes `+`, `*` or `&&`; `+` becomes `-` or `*`.
pub open spec fn catalog_sites(chunk: MutationChunk, op: Operator, function_name: Seq<char>) -> Seq<
    Site,
> {
    match op {
        Operator::Sub => seq![
            Site { chunk, replacement: "+"@, reason: "replace - by +"@, function_name },
            Site { chunk, replacement: "*"@, reason: "replace - by *"@, function_name },
            Site { chunk, replacement: "&&"@, reason: "replace - by &&"@, function_name },
        ],
        Operator::Add => seq![
            Site { chunk, replacement: "-"@, reason: "replace + by -"@, function_name },
            Site { chunk, replacement: "*"@, reason: "replace + by *"@, function_name },
        ],
    }
}

/// The sites below the first `n` children of `node`, in document order: for
/// each child, the sites below it, then, where `node` is a binary expression
/// and the child its `+` or `-` token, that operator's catalog. Nested binary
/// expressions thus come before the operator that they stand left of.
pub open spec fn walk_sites_upto(node: SyntaxNode, n: int, function_name: Seq<char>) -> Seq<Site>
    decreases node, n,
{
    if n <= 0 || n > node.children@.len() {
        seq![]
    } else {
        let c = node.children@[n - 1];
        let own = if node.kind == NodeKind::BinaryExpression {
            match operator_of(c.kind) {
                Some(op) => catalog_sites(c.chunk, op, function_name),
                None => seq![],
            }
        } else {
            seq![]
        };
        walk_sites_upto(node, n - 1, function_name) + walk_sites_upto(
            c,
            c.children@.len() as int,
            function_name,
        ) + own
    }
}

/// All the sites below a node, in document order.
pub open spec fn walk_sites(node: SyntaxNode, function_name: Seq<char>) -> Seq<Site> {
    walk_sites_upto(node, node.children@.len() as int, function_name)
}

/// The sites of the blocks among the first `n` children of a function item.
pub open spec fn body_sites_upto(f: SyntaxNode, n: int, function_name: Seq<char>) -> Seq<Site>
    decreases n,
{
    if n <= 0 || n > f.children@.len() {
        seq![]
    } else {
        let c = f.children@[n - 1];
        body_sites_upto(f, n - 1, function_name) + if c.kind == NodeKind::Block {
            walk_sites(c, function_name)
        } else {
            seq![]
        }
    }
}

/// For a text parsed as one function item: the function's identifier, and
/// for each of its attributes in order, the identifiers of the attribute's
/// path; `None` where the text is no function item.
pub uninterp spec fn parsed_fn_item_of(src: Seq<char>) -> Option<(Seq<char>, Seq<Seq<Seq<char>>>)>;

/// Relies on syn::parse_str::<syn::ItemFn>: the text parses as one function
/// item, or not; its `sig.ident`, and the segments of `Attribute::path` of
/// each of its attributes, are handed over as text.
#[verifier::external_body]
fn parse_fn_item(src: &str) -> (r: Option<(String, Vec<Vec<String>>)>)
    ensures
        r.deep_view() == parsed_fn_item_of(src@),
{
    let item = syn::parse_str::<syn::ItemFn>(src).ok()?;
    let paths = item.attrs.iter().map(|attr| {
        attr.path().segments.iter().map(|s| s.ident.to_string()).collect()
    }).collect();
    Some((item.sig.ident.to_string(), paths))
}

/// The name of a function item, as its text parses: its identifier.
pub open spec fn function_name_of(f: SyntaxNode, text: Seq<char>) -> Option<Seq<char>> {
    match parsed_fn_item_of(text_between(text, f.chunk.start as int, f.chunk.end as int)) {
        Some(item) => Some(item.0),
        None => None,
    }
}

/// The sites of a function that is not excluded; `None` where its text
/// does not parse as a function.
pub open spec fn function_sites(f: SyntaxNode, text: Seq<char>) -> Option<Seq<Site>> {
    match function_name_of(f, text) {
        Some(name) => Some(body_sites_upto(f, f.children@.len() as int, name)),
        None => None,
    }
}

/// The attribute paths that mark a test: `test` and `tokio::test`.
pub open spec fn is_test_marker(path: Seq<Seq<char>>) -> bool {
    ||| path == seq!["test"@]
    ||| path == seq!["tokio"@, "test"@]
}

/// Some attribute's path marks a test, whatever arguments follow it.
pub open spec fn has_test_marker(paths: Seq<Seq<Seq<char>>>) -> bool {
    exists|i: int| 0 <= i < paths.len() && #[trigger] is_test_marker(paths[i])
}

/// Whether an attribute path marks a test.
fn is_test_path(path: &Vec<String>) -> (r: bool)
    ensures
        r == is_test_marker(path.deep_view()),
{
    let ghost dv = path.deep_view();
    assert(dv.len() == path@.len());
    assert(forall|k: int| 0 <= k < dv.len() ==> dv[k] == path@[k]@);
    if path.len() == 1 {
        let r = same_text(path[0].as_str(), "test");
        let ghost want = seq!["test"@];
        assert(want.len() == 1 && want[0] == "test"@);
        assert(dv[0] == path@[0]@);
        assert(r ==> dv =~= want);
        assert(dv =~= want ==> r);
        r
    } else if path.len() == 2 {
        let r = same_text(path[0].as_str(), "tokio") && same_text(path[1].as_str(), "test");
        assert(r == (dv =~= seq!["tokio"@, "test"@]));
        r
    } else {
        false
    }
}

/// Whether one of the attribute paths marks a test.
fn is_test_function(paths: &Vec<Vec<String>>) -> (r: bool)
    ensures
        r == has_test_marker(paths.deep_view()),
{
    let ghost dv = paths.deep_view();
    let mut i: usize = 0;
    while i < paths.len()
        invariant
            i <= paths.len(),
            dv == paths.deep_view(),
            forall|j: int| 0 <= j < i ==> !#[trigger] is_test_marker(dv[j]),
        decreases paths.len() - i,
    {
        if is_test_path(&paths[i]) {
            assert(is_test_marker(dv[i as int]));
            return true;
        }
        i = i + 1;
    }
    false
}

/// Whether the function item at `index` among the children of `parent` is
/// a test: only the one sibling right before it is looked at, and it must be
/// an attribute whose text, up to the end of the function, parses as a
/// function one of whose attribute paths is a test marker. `None` where
/// that text does not parse.
pub open spec fn function_is_test(
    parent: SyntaxNode,
    function_item: SyntaxNode,
    index: int,
    text: Seq<char>,
) -> Option<bool> {
    if index <= 0 || index > parent.children@.len() {
        Some(false)
    } else {
        let attr = parent.children@[index - 1];
        if attr.kind != NodeKind::AttributeItem {
            Some(false)
        } else if attr.chunk.start > function_item.chunk.end {
            None
        } else {
            match parsed_fn_item_of(
                text_between(text, attr.chunk.start as int, function_item.chunk.end as int),
            ) {
                Some(item) => Some(has_test_marker(item.1)),
                None => None,
            }
        }
    }
}

/// Whether `function_item`, the child at `index` of `parent`, is a test
/// function (see [`function_is_test`]).
pub fn check_function_is_test(
    parent: &SyntaxNode,
    function_item: &SyntaxNode,
    index: usize,
    file: &String,
) -> (r: Result<bool, DarwinError>)
    requires
        node_fits(*parent, file@),
        chunk_fits(function_item.chunk, file@),
    ensures
        match function_is_test(*parent, *function_item, index as int, file@) {
            Some(b) => r == Ok::<bool, DarwinError>(b),
            None => r is Err,
        },
{
    if index == 0 || index > parent.children.len() {
        return Ok(false);
    }
    let attr = &parent.children[index - 1];
    if attr.kind != NodeKind::AttributeItem {
        return Ok(false);
    }
    if attr.chunk.start > function_item.chunk.end {
        return Err(DarwinError::Parse { offset: attr.chunk.start });
    }
    proof {
        lemma_child_fits(*parent, file@, index - 1);
    }
    let snippet = byte_slice(file.as_str(), attr.chunk.start, function_item.chunk.end);
    match parse_fn_item(snippet) {
        Some(item) => Ok(is_test_function(&item.1)),
        None => Err(DarwinError::Parse { offset: attr.chunk.start }),
    }
}

/// The sites of the `i`-th top-level item: none for an item that is no
/// function or is a test; `None` where the test check or the name fails.
pub open spec fn item_sites(root: SyntaxNode, i: int, text: Seq<char>) -> Option<Seq<Site>> {
    let c = root.children@[i];
    if c.kind != NodeKind::FunctionItem {
        Some(seq![])
    } else {
        match function_is_test(root, c, i, text) {
            None => None,
            Some(true) => Some(seq![]),
            Some(false) => function_sites(c, text),
        }
    }
}

/// The sites of the first `n` top-level items, in document order; `None`
/// as soon as one of them fails.
pub open spec fn file_sites_upto(root: SyntaxNode, n: int, text: Seq<char>) -> Option<Seq<Site>>
    decreases n,
{
    if n <= 0 || n > root.children@.len() {
        Some(seq![])
    } else {
        match file_sites_upto(root, n - 1, text) {
            None => None,
            Some(prev) => match item_sites(root, n - 1, text) {
                None => None,
                Some(own) => Some(prev + own),
            },
        }
    }
}

/// All the sites of a source file's syntax tree, in document order.
pub open spec fn file_sites(root: SyntaxNode, text: Seq<char>) -> Option<Seq<Site>> {
    file_sites_upto(root, root.children@.len() as int, text)
}

/// The mutation carries what the site says, with nothing attached yet.
pub open spec fn describes(m: Mutation, s: Site) -> bool {
    &&& m.mutation@ == s.replacement
    &&& m.reason@ == s.reason
    &&& m.function_name@ == s.function_name
    &&& m.chunk == s.chunk
    &&& m.mutated_file is None
    &&& m.file_path is None
    &&& m.mutation_project_path is None
    &&& m.report is None
    &&& m.id == 0
}

/// `new` is `old` followed by one mutation for each site, in order.
pub open spec fn extends_with(new: Seq<Mutation>, old: Seq<Mutation>, sites: Seq<Site>) -> bool {
    &&& new.len() == old.len() + sites.len()
    &&& new.subrange(0, old.len() as int) == old
    &&& forall|j: int|
        #![trigger new[j]]
        old.len() <= j < new.len() ==> describes(new[j], sites[j - old.len()])
}

/// Every mutation's chunk fits the text.
pub open spec fn all_fit(ms: Seq<Mutation>, text: Seq<char>) -> bool {
    forall|j: int| 0 <= j < ms.len() ==> chunk_fits(#[trigger] ms[j].chunk, text)
}

proof fn lemma_extends_trans(
    a: Seq<Mutation>,
    b: Seq<Mutation>,
    c: Seq<Mutation>,
    s1: Seq<Site>,
    s2: Seq<Site>,
)
    requires
        extends_with(b, a, s1),
        extends_with(c, b, s2),
    ensures
        extends_with(c, a, s1 + s2),
{
    assert(c.subrange(0, a.len() as int) =~= c.subrange(0, b.len() as int).subrange(
        0,
        a.len() as int,
    ));
    assert forall|j: int| #![trigger c[j]] a.len() <= j < c.len() implies describes(
        c[j],
        (s1 + s2)[j - a.len()],
    ) by {
        if j < b.len() {
            assert(c[j] == c.subrange(0, b.len() as int)[j]);
            assert(b[j] == c[j]);
        }
    }
}

proof fn lemma_extends_empty(a: Seq<Mutation>)
    ensures
        extends_with(a, a, seq![]),
{
    assert(a.subrange(0, a.len() as int) =~= a);
}

fn push_site(
    mutations: &mut Vec<Mutation>,
    replacement: &str,
    reason: &str,
    chunk: MutationChunk,
    function_name: &str,
)
    ensures
        final(mutations)@.len() == old(mutations)@.len() + 1,
        final(mutations)@.subrange(0, old(mutations)@.len() as int) == old(mutations)@,
        describes(
            final(mutations)@[old(mutations)@.len() as int],
            Site {
                chunk,
                replacement: replacement@,
                reason: reason@,
                function_name: function_name@,
            },
        ),
{
    mutations.push(
        Mutation::new(replacement, chunk).with_reason(reason).with_function_name(function_name),
    );
    assert(mutations@.subrange(0, old(mutations)@.len() as int) =~= old(mutations)@);
}

/// Appends the catalog's mutations for one operator token.
fn push_catalog(
    mutations: &mut Vec<Mutation>,
    chunk: MutationChunk,
    op: Operator,
    function_name: &str,
    file: &String,
)
    requires
        chunk_fits(chunk, file@),
        all_fit(old(mutations)@, file@),
    ensures
        extends_with(final(mutations)@, old(mutations)@, catalog_sites(chunk, op, function_name@)),
        all_fit(final(mutations)@, file@),
{
    let ghost start = mutations@;
    let ghost sites = catalog_sites(chunk, op, function_name@);
    match op {
        Operator::Sub => {
            push_site(mutations, "+", "replace - by +", chunk, function_name);
            push_site(mutations, "*", "replace - by *", chunk, function_name);
            push_site(mutations, "&&", "replace - by &&", chunk, function_name);
        },
        Operator::Add => {
            push_site(mutations, "-", "replace + by -", chunk, function_name);
            push_site(mutations, "*", "replace + by *", chunk, function_name);
        },
    }
    assert(mutations@.subrange(0, start.len() as int) =~= start);
    assert(mutations@.len() == start.len() + sites.len());
    assert forall|j: int| #![trigger mutations@[j]] start.len() <= j < mutations@.len() implies describes(
        mutations@[j],
        sites[j - start.len()],
    ) by {}
    assert forall|j: int| 0 <= j < mutations@.len() implies chunk_fits(
        #[trigger] mutations@[j].chunk,
        file@,
    ) by {
        if j < start.len() {
            assert(mutations@[j] == start[j]);
        }
    }
}

/// Appends the mutations below a node, in document order: for each child,
/// those below it, then the catalog of the child where the node is a binary
/// expression and the child its `+` or `-` token.
fn walk_node(node: &SyntaxNode, file: &String, mutations: &mut Vec<Mutation>, function_name: &str)
    requires
        node_fits(*node, file@),
        all_fit(old(mutations)@, file@),
    ensures
        extends_with(final(mutations)@, old(mutations)@, walk_sites(*node, function_name@)),
        all_fit(final(mutations)@, file@),
    decreases *node,
{
    let ghost start = mutations@;
    proof {
        lemma_extends_empty(start);
    }
    let mut i: usize = 0;
    while i < node.children.len()
        invariant
            i <= node.children@.len(),
            node_fits(*node, file@),
            extends_with(mutations@, start, walk_sites_upto(*node, i as int, function_name@)),
            all_fit(mutations@, file@),
        decreases node.children@.len() - i,
    {
        let child = &node.children[i];
        proof {
            lemma_child_fits(*node, file@, i as int);
        }
        let ghost before = mutations@;
        let ghost nested = walk_sites(*child, function_name@);
        let ghost own = if node.kind == NodeKind::BinaryExpression {
            match operator_of(child.kind) {
                Some(op) => catalog_sites(child.chunk, op, function_name@),
                None => seq![],
            }
        } else {
            seq![]
        };
        walk_node(child, file, mutations, function_name);
        let ghost middle = mutations@;
        if node.kind == NodeKind::BinaryExpression && child.kind == NodeKind::Minus {
            push_catalog(mutations, child.chunk, Operator::Sub, function_name, file);
        } else if node.kind == NodeKind::BinaryExpression && child.kind == NodeKind::Plus {
            push_catalog(mutations, child.chunk, Operator::Add, function_name, file);
        } else {
            proof {
                lemma_extends_empty(middle);
            }
        }
        proof {
            lemma_extends_trans(before, middle, mutations@, nested, own);
            lemma_extends_trans(
                start,
                before,
                mutations@,
                walk_sites_upto(*node, i as int, function_name@),
                nested + own,
            );
            assert(walk_sites_upto(*node, i as int, function_name@) + (nested + own)
                =~= walk_sites_upto(*node, i + 1, function_name@));
        }
        i = i + 1;
    }
}

/// Appends the mutations of the blocks of a function item.
fn handle_function_body(
    function_item: &SyntaxNode,
    file: &String,
    mutations: &mut Vec<Mutation>,
    function_name: &str,
)
    requires
        node_fits(*function_item, file@),
        all_fit(old(mutations)@, file@),
    ensures
        extends_with(
            final(mutations)@,
            old(mutations)@,
            body_sites_upto(*function_item, function_item.children@.len() as int, function_name@),
        ),
        all_fit(final(mutations)@, file@),
{
    let ghost start = mutations@;
    proof {
        lemma_extends_empty(start);
    }
    let mut i: usize = 0;
    while i < function_item.children.len()
        invariant
            i <= function_item.children@.len(),
            node_fits(*function_item, file@),
            extends_with(mutations@, start, body_sites_upto(*function_item, i as int, function_name@)),
            all_fit(mutations@, file@),
        decreases function_item.children@.len() - i,
    {
        let node = &function_item.children[i];
        proof {
            lemma_child_fits(*function_item, file@, i as int);
        }
        let ghost before = mutations@;
        let ghost own = if node.kind == NodeKind::Block {
            walk_sites(*node, function_name@)
        } else {
            seq![]
        };
        if node.kind == NodeKind::Block {
            walk_node(node, file, mutations, function_name);
        } else {
            proof {
                lemma_extends_empty(before);
            }
        }
        proof {
            lemma_extends_trans(
                start,
                before,
                mutations@,
                body_sites_upto(*function_item, i as int, function_name@),
                own,
            );
        }
        i = i + 1;
    }
}

/// The name of a function item: the identifier that its text parses with.
fn function_name(function_item: &SyntaxNode, file: &String) -> (r: Result<String, DarwinError>)
    requires
        node_fits(*function_item, file@),
    ensures
        match function_name_of(*function_item, file@) {
            Some(name) => r matches Ok(s) && s@ == name,
            None => r == Err::<String, DarwinError>(
                DarwinError::Parse { offset: function_item.chunk.start },
            ),
        },
{
    proof {
        lemma_fits_chunk(*function_item, file@);
    }
    let text = byte_slice(file.as_str(), function_item.chunk.start, function_item.chunk.end);
    match parse_fn_item(text) {
        Some(item) => Ok(item.0),
        None => Err(DarwinError::Parse { offset: function_item.chunk.start }),
    }
}

proof fn lemma_failure_stays(root: SyntaxNode, k: int, n: int, text: Seq<char>)
    requires
        0 <= k <= n <= root.children@.len(),
        file_sites_upto(root, k, text) is None,
    ensures
        file_sites_upto(root, n, text) is None,
    decreases n - k,
{
    if n > k {
        lemma_failure_stays(root, k, n - 1, text);
    }
}

/// The mutations of a source file's syntax tree, in document order: for each
/// top-level function item that is not a test, one mutation per catalog
/// entry of each `+` or `-` operator in the binary expressions of its body.
/// Fails where a test check or a function's name cannot be read.
pub fn analyze_tree(root: &SyntaxNode, content: &String) -> (r: Result<Vec<Mutation>, DarwinError>)
    requires
        node_fits(*root, content@),
    ensures
        match file_sites(*root, content@) {
            Some(sites) => r matches Ok(ms) && extends_with(ms@, seq![], sites) && all_fit(
                ms@,
                content@,
            ),
            None => r is Err,
        },
{
    let mut file_mutants: Vec<Mutation> = Vec::new();
    proof {
        lemma_extends_empty(file_mutants@);
    }
    let mut child_index: usize = 0;
    while child_index < root.children.len()
        invariant
            child_index <= root.children@.len(),
            node_fits(*root, content@),
            file_sites_upto(*root, child_index as int, content@) matches Some(sites) && extends_with(
                file_mutants@,
                seq![],
                sites,
            ),
            all_fit(file_mutants@, content@),
        decreases root.children@.len() - child_index,
    {
        let child_node = &root.children[child_index];
        proof {
            lemma_child_fits(*root, content@, child_index as int);
        }
        let ghost before = file_mutants@;
        let ghost prev = file_sites_upto(*root, child_index as int, content@)->Some_0;
        if child_node.kind == NodeKind::FunctionItem {
            match check_function_is_test(root, child_node, child_index, content) {
                Err(e) => {
                    proof {
                        lemma_failure_stays(
                            *root,
                            child_index + 1,
                            root.children@.len() as int,
                            content@,
                        );
                    }
                    return Err(e);
                },
                Ok(true) => {
                    proof {
                        lemma_extends_empty(before);
                        lemma_extends_trans(seq![], before, file_mutants@, prev, seq![]);
                    }
                },
                Ok(false) => {
                    let name = match function_name(child_node, content) {
                        Ok(n) => n,
                        Err(e) => {
                            proof {
                                lemma_failure_stays(
                                    *root,
                                    child_index + 1,
                                    root.children@.len() as int,
                                    content@,
                                );
                            }
                            return Err(e);
                        },
                    };
                    handle_function_body(child_node, content, &mut file_mutants, name.as_str());
                    proof {
                        lemma_extends_trans(
                            seq![],
                            before,
                            file_mutants@,
                            prev,
                            body_sites_upto(
                                *child_node,
                                child_node.children@.len() as int,
                                name@,
                            ),
                        );
                    }
                },
            }
        } else {
            proof {
                lemma_extends_empty(before);
                lemma_extends_trans(seq![], before, file_mutants@, prev, seq![]);
            }
        }
        child_index = child_index + 1;
    }
    Ok(file_mutants)
}

/// The mutation carries what the site says, the path of the file it
/// targets, and that file's text after the edit.
pub open spec fn applied(m: Mutation, s: Site, path: Seq<char>, text: Seq<char>) -> bool {
    &&& m.mutation@ == s.replacement
    &&& m.reason@ == s.reason
    &&& m.function_name@ == s.function_name
    &&& m.chunk == s.chunk
    &&& m.file_path matches Some(p) && p@ == path
    &&& m.mutated_file matches Some(f) && f@ == patched_text(text, s.chunk, s.replacement)
    &&& m.mutation_project_path is None
    &&& m.report is None
    &&& m.id == 0
}

/// `ms` are the mutations of the sites of `tree`, in order, applied to the
/// file at `path` whose text is `text`.
pub open spec fn all_applied(ms: Seq<Mutation>, tree: SyntaxNode, path: Seq<char>, text: Seq<char>) -> bool {
    match file_sites(tree, text) {
        Some(sites) => ms.len() == sites.len() && forall|i: int|
            0 <= i < sites.len() ==> applied(#[trigger] ms[i], sites[i], path, text),
        None => false,
    }
}

/// The mutations of a parsed source file (see [`analyze_tree`]), each with
/// the file's path attached and the file's text after its edit computed;
/// fails exactly where analysis of the tree fails.
pub fn mutations_for_tree(tree: &SyntaxNode, content: &String, path: &String) -> (r: Result<
    Vec<Mutation>,
    DarwinError,
>)
    requires
        node_fits(*tree, content@),
    ensures
        match file_sites(*tree, content@) {
            Some(_) => r matches Ok(ms) && all_applied(ms@, *tree, path@, content@) && all_fit(
                ms@,
                content@,
            ),
            None => r is Err,
        },
{
    let mut file_mutants = match analyze_tree(tree, content) {
        Ok(ms) => ms,
        Err(e) => {
            return Err(e);
        },
    };
    let ghost sites = file_sites(*tree, content@)->Some_0;
    let ghost found = file_mutants@;
    let mut i: usize = 0;
    while i < file_mutants.len()
        invariant
            i <= file_mutants@.len(),
            file_mutants@.len() == sites.len(),
            found.len() == sites.len(),
            forall|j: int| #![trigger found[j]] 0 <= j < found.len() ==> describes(found[j], sites[j]),
            all_fit(found, content@),
            forall|j: int| i <= j < found.len() ==> file_mutants@[j] == found[j],
            forall|j: int|
                0 <= j < i ==> applied(#[trigger] file_mutants@[j], sites[j], path@, content@),
        decreases file_mutants@.len() - i,
    {
        assert(found[i as int] == file_mutants@[i as int]);
        assert(chunk_fits(found[i as int].chunk, content@));
        file_mutants[i].set_file_path(path);
        file_mutants[i].mutate_file(content);
        i = i + 1;
    }
    assert(all_applied(file_mutants@, *tree, path@, content@));
    assert forall|j: int| 0 <= j < file_mutants@.len() implies chunk_fits(
        #[trigger] file_mutants@[j].chunk,
        content@,
    ) by {
        assert(describes(found[j], sites[j]));
        assert(chunk_fits(found[j].chunk, content@));
    }
    Ok(file_mutants)
}

/// The mutations that analysis finds in one source file: the text is parsed
/// as Rust, and the tree is analysed by [`mutations_for_tree`]. What the
/// parser hands back is checked span by span, not assumed.
pub fn get_mutations_for_file(content: &String, path: &String) -> (r: Result<
    Vec<Mutation>,
    DarwinError,
>)
    ensures
        r matches Ok(ms) ==> exists|tree: SyntaxNode|
            #[trigger] node_fits(tree, content@) && all_applied(ms@, tree, path@, content@)
                && all_fit(ms@, content@),
{
    let tree = match parse_rust(content) {
        Ok(t) => t,
        Err(e) => {
            return Err(e);
        },
    };
    mutations_for_tree(&tree, content, path)
}

/// A top-level function right after an attribute that marks it as a test
/// yields no mutation. One with no attribute right before it, or right
/// after an attribute that parses and marks no test, yields the sites of
/// its body. Only that one sibling is looked at.
pub proof fn lemma_test_exclusion(root: SyntaxNode, i: int, text: Seq<char>)
    requires
        0 <= i < root.children@.len(),
        root.children@[i].kind == NodeKind::FunctionItem,
    ensures
        function_is_test(root, root.children@[i], i, text) == Some(true) ==> item_sites(
            root,
            i,
            text,
        ) == Some(Seq::<Site>::empty()),
        function_is_test(root, root.children@[i], i, text) == Some(false) ==> item_sites(
            root,
            i,
            text,
        ) == function_sites(root.children@[i], text),
        (i == 0 || root.children@[i - 1].kind != NodeKind::AttributeItem) ==> item_sites(
            root,
            i,
            text,
        ) == function_sites(root.children@[i], text),
{
}

} // verus!
