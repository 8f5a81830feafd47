//! The kind registry: synthetic kinds, node kinds and token kinds merged into
//! one flat classification, collisions resolved by priority.
use vstd::prelude::*;

verus! {

/// The category that a kind was declared in, highest priority first.
#[derive(Clone, Copy, PartialEq, Eq, Structural, Debug)]
pub enum KindOrigin {
    Custom,
    Node,
    Token,
}

/// A kind of the unified classification: its position in the registry.
#[derive(Clone, Copy, PartialEq, Eq, Structural, PartialOrd, Ord, Hash, Debug)]
pub struct SyntaxKind {
    pub code: u32,
}

/// How the tree assembler applies a token of a kind. A `Follow` token is not
/// added to the tree at once but buffered, and the buffer is applied at the
/// depth of the node that opens next; so in `select * from contact;` the
/// whitespace between `*` and `from` becomes a child of the `SelectStmt`,
/// not of the `ColumnRef` before it.
#[derive(Clone, Copy, PartialEq, Eq, Structural, Debug)]
pub enum SyntaxKindType {
    Follow,
    Close,
}

/// The scalar type of a field of a grammar node.
#[derive(Clone, Copy, PartialEq, Eq, Structural, Debug)]
pub enum FieldType {
    String,
    Int32,
    Int64,
    Uint32,
    Uint64,
    Double,
    Bool,
    Enum,
    Message,
}

/// One field of a grammar node type.
#[derive(Clone, Debug)]
pub struct FieldDescriptor {
    pub name: String,
    pub field_type: FieldType,
    pub repeated: bool,
}

/// A grammar node type with its fields in declared order.
#[derive(Clone, Debug)]
pub struct NodeDescriptor {
    pub name: String,
    pub fields: Vec<FieldDescriptor>,
}

/// A lexical token of the grammar with its numeric code.
#[derive(Clone, Debug)]
pub struct TokenDescriptor {
    pub name: String,
    pub value: i32,
}

/// One registered kind.
#[derive(Clone, Debug)]
pub struct KindEntry {
    pub name: String,
    pub origin: KindOrigin,
    pub token_code: Option<i32>,
}

/// What a registered kind is, as a mathematical value.
pub ghost struct KindEntryView {
    pub name: Seq<char>,
    pub origin: KindOrigin,
    pub token_code: Option<i32>,
}

impl View for KindEntry {
    type V = KindEntryView;

    open spec fn view(&self) -> KindEntryView {
        KindEntryView { name: self.name@, origin: self.origin, token_code: self.token_code }
    }
}

/// A lookup that the registry or the rule table cannot answer: the grammar
/// and the library have drifted apart.
#[derive(Clone, Debug)]
pub enum CoverageError {
    /// No token kind carries this code.
    UnknownToken { code: i32 },
    /// No node kind carries this name.
    UnknownNode { name: String },
    /// The rule table has no case for this value of the node's discriminant.
    UnknownDiscriminant { field: Discriminant, value: i32 },
}

/// The discriminant fields that select among the sub-forms of a node.
#[derive(Clone, Copy, PartialEq, Eq, Structural, Debug)]
pub enum Discriminant {
    BoolExprOp,
    JoinExprType,
    DefElemAction,
    AExprKind,
    SqlvalueFunctionOp,
    AlterTableCmdSubtype,
    VariableSetStmtKind,
    ConstraintType,
    NullTestType,
    FunctionParameterMode,
    SortByDir,
    SelectStmtOp,
}

/// Failure to build a registry: a name declared twice within one category.
#[derive(Clone, Debug)]
pub enum RegistryError {
    DuplicateCustomName(String),
    DuplicateNodeName(String),
    DuplicateTokenName(String),
}

/// The merged classification. Entry `i` is the kind with code `i`.
pub struct KindRegistry {
    entries: Vec<KindEntry>,
}

pub open spec fn views(s: Seq<String>) -> Seq<Seq<char>> {
    s.map_values(|x: String| x@)
}

pub open spec fn str_views(s: Seq<&str>) -> Seq<Seq<char>> {
    s.map_values(|x: &str| x@)
}

pub open spec fn node_name_seq(nodes: Seq<NodeDescriptor>) -> Seq<Seq<char>> {
    nodes.map_values(|n: NodeDescriptor| n.name@)
}

pub open spec fn token_name_seq(tokens: Seq<TokenDescriptor>) -> Seq<Seq<char>> {
    tokens.map_values(|t: TokenDescriptor| t.name@)
}

/// The names of `names` that `taken` does not hold, in order.
pub open spec fn fresh_names(names: Seq<Seq<char>>, taken: Seq<Seq<char>>) -> Seq<Seq<char>>
    decreases names.len(),
{
    if names.len() == 0 {
        Seq::empty()
    } else {
        let rest = fresh_names(names.drop_last(), taken);
        if taken.contains(names.last()) {
            rest
        } else {
            rest.push(names.last())
        }
    }
}

/// The tokens whose names `taken` does not hold, in order.
pub open spec fn fresh_tokens(tokens: Seq<TokenDescriptor>, taken: Seq<Seq<char>>) -> Seq<TokenDescriptor>
    decreases tokens.len(),
{
    if tokens.len() == 0 {
        Seq::empty()
    } else {
        let rest = fresh_tokens(tokens.drop_last(), taken);
        if taken.contains(tokens.last().name@) {
            rest
        } else {
            rest.push(tokens.last())
        }
    }
}

/// The entry of a synthetic or node kind.
pub open spec fn plain_entry(n: Seq<char>, origin: KindOrigin) -> KindEntryView {
    KindEntryView { name: n, origin, token_code: None }
}

pub open spec fn token_entry(t: TokenDescriptor) -> KindEntryView {
    KindEntryView { name: t.name@, origin: KindOrigin::Token, token_code: Some(t.value) }
}

/// The classification merged from the three categories: every synthetic
/// name, then every node name that no synthetic name claims, then every token
/// that no synthetic or node name claims.
pub open spec fn merged_kinds(
    custom: Seq<Seq<char>>,
    nodes: Seq<Seq<char>>,
    tokens: Seq<TokenDescriptor>,
) -> Seq<KindEntryView> {
    custom.map_values(|n: Seq<char>| plain_entry(n, KindOrigin::Custom))
        + fresh_names(nodes, custom).map_values(|n: Seq<char>| plain_entry(n, KindOrigin::Node))
        + fresh_tokens(tokens, custom + nodes).map_values(|t: TokenDescriptor| token_entry(t))
}

pub open spec fn entry_names(entries: Seq<KindEntryView>) -> Seq<Seq<char>> {
    entries.map_values(|e: KindEntryView| e.name)
}

/// The synthetic kinds, which the parser does not produce.
pub open spec fn custom_names_spec() -> Seq<Seq<char>> {
    seq![
        "SourceFile"@,
        "Comment"@,
        "Whitespace"@,
        "Newline"@,
        "Tab"@,
        "Stmt"@,
    ]
}

/// The names of the synthetic kinds, in declared order.
pub fn custom_node_names() -> (r: Vec<&'static str>)
    ensures
        str_views(r@) == custom_names_spec(),
{
    let r = vec!["SourceFile", "Comment", "Whitespace", "Newline", "Tab", "Stmt"];
    assert(str_views(r@) =~= custom_names_spec());
    r
}

/// Whether `names` holds `name`. The names already taken are kept in a `Vec`
/// and searched in order: the contracts speak of their contents as a sequence,
/// which vstd specifies for `String`; its `HashSet` specification proves little
/// for `String` keys.
pub fn contains_name(names: &Vec<String>, name: &String) -> (r: bool)
    ensures
        r == views(names@).contains(name@),
{
    let mut i: usize = 0;
    while i < names.len()
        invariant
            i <= names.len(),
            forall|j: int| 0 <= j < i ==> names@[j]@ != name@,
        decreases names.len() - i,
    {
        if names[i] == *name {
            assert(views(names@)[i as int] == name@);
            return true;
        }
        i += 1;
    }
    proof {
        if views(names@).contains(name@) {
            let j = choose|j: int| 0 <= j < views(names@).len() && views(names@)[j] == name@;
            assert(names@[j]@ == name@);
        }
    }
    false
}

/// The names of the node types, in declared order.
pub fn node_names(nodes: &Vec<NodeDescriptor>) -> (r: Vec<String>)
    ensures
        views(r@) == node_name_seq(nodes@),
{
    let mut r: Vec<String> = Vec::new();
    let mut i: usize = 0;
    while i < nodes.len()
        invariant
            i <= nodes.len(),
            views(r@) =~= node_name_seq(nodes@.take(i as int)),
        decreases nodes.len() - i,
    {
        let ghost old_r = r@;
        let name = nodes[i].name.clone();
        assert(name@ == nodes@[i as int].name@);
        r.push(name);
        proof {
            let t = nodes@.take(i + 1);
            assert(t =~= nodes@.take(i as int).push(nodes@[i as int]));
            assert(node_name_seq(t) =~= node_name_seq(nodes@.take(i as int)).push(name@));
            assert(views(r@) =~= views(old_r).push(name@));
        }
        i += 1;
    }
    assert(nodes@.take(i as int) =~= nodes@);
    r
}

/// The names of the node types that `existing` does not hold yet.
pub fn node_identifiers(nodes: &Vec<NodeDescriptor>, existing: &Vec<String>) -> (r: Vec<String>)
    ensures
        views(r@) == fresh_names(node_name_seq(nodes@), views(existing@)),
{
    let mut r: Vec<String> = Vec::new();
    let mut i: usize = 0;
    while i < nodes.len()
        invariant
            i <= nodes.len(),
            views(r@) =~= fresh_names(node_name_seq(nodes@.take(i as int)), views(existing@)),
        decreases nodes.len() - i,
    {
        let ghost prev = node_name_seq(nodes@.take(i as int));
        let taken = contains_name(existing, &nodes[i].name);
        if !taken {
            r.push(nodes[i].name.clone());
        }
        i += 1;
        assert(node_name_seq(nodes@.take(i as int)).drop_last() =~= prev);
        assert(views(r@) =~= fresh_names(node_name_seq(nodes@.take(i as int)), views(existing@)));
    }
    assert(nodes@.take(i as int) =~= nodes@);
    r
}

/// The tokens whose names `existing` does not hold yet.
fn fresh_token_list(tokens: &Vec<TokenDescriptor>, existing: &Vec<String>) -> (r: Vec<TokenDescriptor>)
    ensures
        r@ == fresh_tokens(tokens@, views(existing@)),
{
    let mut r: Vec<TokenDescriptor> = Vec::new();
    let mut i: usize = 0;
    while i < tokens.len()
        invariant
            i <= tokens.len(),
            r@ =~= fresh_tokens(tokens@.take(i as int), views(existing@)),
        decreases tokens.len() - i,
    {
        let ghost prev = tokens@.take(i as int);
        let taken = contains_name(existing, &tokens[i].name);
        if !taken {
            let t = TokenDescriptor { name: tokens[i].name.clone(), value: tokens[i].value };
            r.push(t);
        }
        i += 1;
        assert(tokens@.take(i as int).drop_last() =~= prev);
    }
    assert(tokens@.take(i as int) =~= tokens@);
    r
}

/// The names of the tokens that `existing` does not hold yet.
pub fn token_identifiers(tokens: &Vec<TokenDescriptor>, existing: &Vec<String>) -> (r: Vec<String>)
    ensures
        views(r@) == token_name_seq(fresh_tokens(tokens@, views(existing@))),
{
    let fresh = fresh_token_list(tokens, existing);
    let mut r: Vec<String> = Vec::new();
    let mut i: usize = 0;
    while i < fresh.len()
        invariant
            i <= fresh.len(),
            views(r@) =~= token_name_seq(fresh@.take(i as int)),
        decreases fresh.len() - i,
    {
        let ghost old_r = r@;
        let name = fresh[i].name.clone();
        assert(name@ == fresh@[i as int].name@);
        r.push(name);
        proof {
            let t = fresh@.take(i + 1);
            assert(t =~= fresh@.take(i as int).push(fresh@[i as int]));
            assert(token_name_seq(t) =~= token_name_seq(fresh@.take(i as int)).push(name@));
            assert(views(r@) =~= views(old_r).push(name@));
        }
        i += 1;
    }
    assert(fresh@.take(i as int) =~= fresh@);
    r
}

/// The codes of the tokens whose names `existing` does not hold yet.
pub fn token_value_literals(tokens: &Vec<TokenDescriptor>, existing: &Vec<String>) -> (r: Vec<i32>)
    ensures
        r@ == fresh_tokens(tokens@, views(existing@)).map_values(|t: TokenDescriptor| t.value),
{
    let fresh = fresh_token_list(tokens, existing);
    let mut r: Vec<i32> = Vec::new();
    let mut i: usize = 0;
    while i < fresh.len()
        invariant
            i <= fresh.len(),
            r@ =~= fresh@.take(i as int).map_values(|t: TokenDescriptor| t.value),
        decreases fresh.len() - i,
    {
        r.push(fresh[i].value);
        i += 1;
        assert(r@ =~= fresh@.take(i as int).map_values(|t: TokenDescriptor| t.value));
    }
    assert(fresh@.take(i as int) =~= fresh@);
    r
}

/// Every name of `fresh_names(names, taken)` is a name of `names` that `taken`
/// does not hold, each such name is kept, and no name is kept twice when
/// `names` holds none twice.
pub proof fn lemma_fresh_names(names: Seq<Seq<char>>, taken: Seq<Seq<char>>)
    ensures
        forall|x: Seq<char>|
            #[trigger] fresh_names(names, taken).contains(x) <==> (names.contains(x) && !taken.contains(x)),
        names.no_duplicates() ==> fresh_names(names, taken).no_duplicates(),
    decreases names.len(),
{
    if names.len() == 0 {
        assert forall|x: Seq<char>| !#[trigger] fresh_names(names, taken).contains(x) && !names.contains(x) by {}
    } else {
        let init = names.drop_last();
        let l = names.last();
        lemma_fresh_names(init, taken);
        assert(names =~= init.push(l));
        assert forall|x: Seq<char>| names.contains(x) <==> (init.contains(x) || x == l) by {
            if names.contains(x) {
                let j = choose|j: int| 0 <= j < names.len() && names[j] == x;
                if j < init.len() {
                    assert(init[j] == x);
                }
            }
            if init.contains(x) {
                let j = choose|j: int| 0 <= j < init.len() && init[j] == x;
                assert(names[j] == x);
            }
            if x == l {
                assert(names[names.len() - 1] == x);
            }
        }
        let rest = fresh_names(init, taken);
        assert(fresh_names(names, taken) == if taken.contains(l) { rest } else { rest.push(l) });
        if !taken.contains(l) {
            assert forall|x: Seq<char>| rest.push(l).contains(x) <==> (rest.contains(x) || x == l) by {
                if rest.push(l).contains(x) {
                    let j = choose|j: int| 0 <= j < rest.push(l).len() && rest.push(l)[j] == x;
                    if j < rest.len() {
                        assert(rest[j] == x);
                    }
                }
                if rest.contains(x) {
                    let j = choose|j: int| 0 <= j < rest.len() && rest[j] == x;
                    assert(rest.push(l)[j] == x);
                }
                if x == l {
                    assert(rest.push(l)[rest.len() as int] == x);
                }
            }
            if names.no_duplicates() {
                assert(init.no_duplicates()) by {
                    assert forall|a: int, b: int|
                        0 <= a < init.len() && 0 <= b < init.len() && a != b implies init[a] != init[b] by {
                        assert(names[a] == init[a] && names[b] == init[b]);
                    }
                }
                assert(!init.contains(l)) by {
                    if init.contains(l) {
                        let j = choose|j: int| 0 <= j < init.len() && init[j] == l;
                        assert(names[j] == names[names.len() - 1]);
                    }
                }
                assert(!rest.contains(l));
                assert forall|a: int, b: int|
                    0 <= a < rest.push(l).len() && 0 <= b < rest.push(l).len() && a != b implies
                    rest.push(l)[a] != rest.push(l)[b] by {
                    if a < rest.len() && b < rest.len() {
                        assert(rest.push(l)[a] == rest[a] && rest.push(l)[b] == rest[b]);
                    } else if a < rest.len() {
                        assert(rest.push(l)[a] == rest[a]);
                        assert(rest.contains(rest[a]));
                    } else if b < rest.len() {
                        assert(rest.push(l)[b] == rest[b]);
                        assert(rest.contains(rest[b]));
                    }
                }
            }
            assert forall|x: Seq<char>|
                #[trigger] fresh_names(names, taken).contains(x) <==> (names.contains(x) && !taken.contains(x)) by {
                assert(rest.contains(x) <==> (init.contains(x) && !taken.contains(x)));
            }
        } else {
            if names.no_duplicates() {
                assert forall|a: int, b: int|
                    0 <= a < init.len() && 0 <= b < init.len() && a != b implies init[a] != init[b] by {
                    assert(names[a] == init[a] && names[b] == init[b]);
                }
            }
            assert forall|x: Seq<char>|
                #[trigger] fresh_names(names, taken).contains(x) <==> (names.contains(x) && !taken.contains(x)) by {
                assert(rest.contains(x) <==> (init.contains(x) && !taken.contains(x)));
            }
        }
    }
}

/// Every name of a token of `fresh_tokens(tokens, taken)` is the name of a
/// token of `tokens` that `taken` does not hold, each such name is kept, and
/// no name is kept twice when `tokens` holds none twice.
pub proof fn lemma_fresh_tokens(tokens: Seq<TokenDescriptor>, taken: Seq<Seq<char>>)
    ensures
        token_name_seq(fresh_tokens(tokens, taken)) == fresh_names(token_name_seq(tokens), taken),
    decreases tokens.len(),
{
    if tokens.len() > 0 {
        lemma_fresh_tokens(tokens.drop_last(), taken);
        assert(token_name_seq(tokens).drop_last() =~= token_name_seq(tokens.drop_last()));
        let rest = fresh_tokens(tokens.drop_last(), taken);
        assert(token_name_seq(rest.push(tokens.last())) =~= token_name_seq(rest).push(tokens.last().name@));
    }
}

/// `a + b` holds no name twice when neither part does and they share none.
proof fn lemma_concat_no_duplicates(a: Seq<Seq<char>>, b: Seq<Seq<char>>)
    requires
        a.no_duplicates(),
        b.no_duplicates(),
        forall|x: Seq<char>| a.contains(x) ==> !b.contains(x),
    ensures
        (a + b).no_duplicates(),
        forall|x: Seq<char>| #[trigger] (a + b).contains(x) <==> (a.contains(x) || b.contains(x)),
{
    let c = a + b;
    assert forall|i: int, j: int| 0 <= i < c.len() && 0 <= j < c.len() && i != j implies c[i] != c[j] by {
        if i < a.len() && j >= a.len() {
            assert(c[i] == a[i] && c[j] == b[j - a.len()]);
            assert(a.contains(a[i]) && b.contains(b[j - a.len()]));
        } else if j < a.len() && i >= a.len() {
            assert(c[j] == a[j] && c[i] == b[i - a.len()]);
            assert(a.contains(a[j]) && b.contains(b[i - a.len()]));
        } else if i < a.len() {
            assert(c[i] == a[i] && c[j] == a[j]);
        } else {
            assert(c[i] == b[i - a.len()] && c[j] == b[j - a.len()]);
        }
    }
    assert forall|x: Seq<char>| #[trigger] c.contains(x) <==> (a.contains(x) || b.contains(x)) by {
        if c.contains(x) {
            let k = choose|k: int| 0 <= k < c.len() && c[k] == x;
            if k < a.len() {
                assert(a[k] == x);
            } else {
                assert(b[k - a.len()] == x);
            }
        }
        if a.contains(x) {
            let k = choose|k: int| 0 <= k < a.len() && a[k] == x;
            assert(c[k] == x);
        }
        if b.contains(x) {
            let k = choose|k: int| 0 <= k < b.len() && b[k] == x;
            assert(c[k + a.len()] == x);
        }
    }
}

/// The names of the merged classification, category by category.
pub proof fn lemma_merged_names(custom: Seq<Seq<char>>, nodes: Seq<Seq<char>>, tokens: Seq<TokenDescriptor>)
    ensures
        entry_names(merged_kinds(custom, nodes, tokens)) == custom + fresh_names(nodes, custom)
            + fresh_names(token_name_seq(tokens), custom + nodes),
{
    lemma_fresh_tokens(tokens, custom + nodes);
    let m = merged_kinds(custom, nodes, tokens);
    let r = custom + fresh_names(nodes, custom) + fresh_names(token_name_seq(tokens), custom + nodes);
    assert(entry_names(m) =~= r);
}

/// Registry uniqueness: when no category declares a name twice, every
/// declared name stands at exactly one position of the merged classification
/// (so it resolves to exactly one kind), no name stands twice, and every
/// entry's name was declared in one of the three categories.
pub proof fn lemma_registry_unique(custom: Seq<Seq<char>>, nodes: Seq<Seq<char>>, tokens: Seq<TokenDescriptor>)
    requires
        custom.no_duplicates(),
        nodes.no_duplicates(),
        token_name_seq(tokens).no_duplicates(),
    ensures
        entry_names(merged_kinds(custom, nodes, tokens)).no_duplicates(),
        forall|x: Seq<char>|
            custom.contains(x) || nodes.contains(x) || token_name_seq(tokens).contains(x) ==> #[trigger] entry_names(
                merged_kinds(custom, nodes, tokens),
            ).contains(x),
        forall|x: Seq<char>|
            #[trigger] entry_names(merged_kinds(custom, nodes, tokens)).contains(x) ==> custom.contains(x)
                || nodes.contains(x) || token_name_seq(tokens).contains(x),
        forall|i: int, j: int|
            0 <= i < merged_kinds(custom, nodes, tokens).len() && 0 <= j < merged_kinds(custom, nodes, tokens).len()
                && #[trigger] merged_kinds(custom, nodes, tokens)[i].name == #[trigger] merged_kinds(
                custom,
                nodes,
                tokens,
            )[j].name ==> i == j,
{
    lemma_merged_names(custom, nodes, tokens);
    let fn_ = fresh_names(nodes, custom);
    let ft = fresh_names(token_name_seq(tokens), custom + nodes);
    lemma_fresh_names(nodes, custom);
    lemma_fresh_names(token_name_seq(tokens), custom + nodes);
    lemma_concat_no_duplicates(custom, fn_);
    assert forall|x: Seq<char>| (custom + fn_).contains(x) implies !ft.contains(x) by {
        lemma_concat_contains(custom, nodes, x);
    }
    lemma_concat_no_duplicates(custom + fn_, ft);
    let m = merged_kinds(custom, nodes, tokens);
    let names = entry_names(m);
    assert forall|x: Seq<char>| #[trigger] names.contains(x) implies custom.contains(x) || nodes.contains(x)
        || token_name_seq(tokens).contains(x) by {
        assert((custom + fn_).contains(x) || ft.contains(x));
    }
    assert forall|i: int, j: int|
        0 <= i < m.len() && 0 <= j < m.len() && #[trigger] m[i].name == #[trigger] m[j].name implies i == j by {
        assert(names[i] == m[i].name && names[j] == m[j].name);
    }
}

/// Priority: a name that both a node type and a token declare is the name of
/// no token kind; unless a synthetic kind claims it, it is a node kind.
pub proof fn lemma_node_beats_token(
    custom: Seq<Seq<char>>,
    nodes: Seq<Seq<char>>,
    tokens: Seq<TokenDescriptor>,
    name: Seq<char>,
)
    requires
        nodes.contains(name),
        token_name_seq(tokens).contains(name),
    ensures
        forall|i: int|
            0 <= i < merged_kinds(custom, nodes, tokens).len() && #[trigger] merged_kinds(
                custom,
                nodes,
                tokens,
            )[i].name == name ==> merged_kinds(custom, nodes, tokens)[i].origin != KindOrigin::Token && (
            !custom.contains(name) ==> merged_kinds(custom, nodes, tokens)[i].origin == KindOrigin::Node),
{
    let m = merged_kinds(custom, nodes, tokens);
    let c = custom.map_values(|n: Seq<char>| plain_entry(n, KindOrigin::Custom));
    let fn_ = fresh_names(nodes, custom);
    let ft = fresh_tokens(tokens, custom + nodes);
    lemma_fresh_tokens(tokens, custom + nodes);
    lemma_fresh_names(token_name_seq(tokens), custom + nodes);
    lemma_concat_contains(custom, nodes, name);
    assert forall|i: int| 0 <= i < m.len() && #[trigger] m[i].name == name implies m[i].origin != KindOrigin::Token
        && (!custom.contains(name) ==> m[i].origin == KindOrigin::Node) by {
        if i < c.len() {
            assert(custom[i] == name);
            assert(custom.contains(name));
        } else if i >= c.len() + fn_.len() {
            let k = i - c.len() - fn_.len();
            assert(m[i] == token_entry(ft[k]));
            assert(token_name_seq(ft)[k] == name);
            assert(token_name_seq(ft).contains(name));
        }
    }
}

proof fn lemma_concat_contains(a: Seq<Seq<char>>, b: Seq<Seq<char>>, x: Seq<char>)
    ensures
        a.contains(x) || b.contains(x) ==> (a + b).contains(x),
{
    if a.contains(x) {
        let k = choose|k: int| 0 <= k < a.len() && a[k] == x;
        assert((a + b)[k] == x);
    } else if b.contains(x) {
        let k = choose|k: int| 0 <= k < b.len() && b[k] == x;
        assert((a + b)[k + a.len()] == x);
    }
}

proof fn lemma_fresh_len(names: Seq<Seq<char>>, taken: Seq<Seq<char>>)
    ensures
        fresh_names(names, taken).len() <= names.len(),
    decreases names.len(),
{
    if names.len() > 0 {
        lemma_fresh_len(names.drop_last(), taken);
    }
}

/// `n` stands twice in `s`.
pub open spec fn appears_twice(s: Seq<Seq<char>>, n: Seq<char>) -> bool {
    exists|i: int, j: int| 0 <= i < j < s.len() && s[i] == n && s[j] == n
}

/// A name of `names` that an earlier entry already holds, if any.
pub fn find_duplicate(names: &Vec<String>) -> (r: Option<String>)
    ensures
        r is None <==> views(names@).no_duplicates(),
        r matches Some(n) ==> appears_twice(views(names@), n@),
{
    let mut j: usize = 0;
    while j < names.len()
        invariant
            j <= names.len(),
            forall|a: int, b: int| 0 <= a < b < j ==> names@[a]@ != names@[b]@,
        decreases names.len() - j,
    {
        let mut i: usize = 0;
        while i < j
            invariant
                i <= j,
                j < names.len(),
                forall|a: int| 0 <= a < i ==> names@[a]@ != names@[j as int]@,
            decreases j - i,
        {
            if names[i] == names[j] {
                let n = names[j].clone();
                proof {
                    let v = views(names@);
                    assert(v[i as int] == n@ && v[j as int] == n@);
                    assert(!v.no_duplicates());
                }
                return Some(n);
            }
            i += 1;
        }
        j += 1;
    }
    proof {
        let v = views(names@);
        assert forall|a: int, b: int| 0 <= a < v.len() && 0 <= b < v.len() && a != b implies v[a] != v[b] by {
            if a < b {
                assert(names@[a]@ != names@[b]@);
            } else {
                assert(names@[b]@ != names@[a]@);
            }
        }
    }
    None
}

/// The names of the tokens, in declared order.
fn token_names(tokens: &Vec<TokenDescriptor>) -> (r: Vec<String>)
    ensures
        views(r@) == token_name_seq(tokens@),
{
    let mut r: Vec<String> = Vec::new();
    let mut i: usize = 0;
    while i < tokens.len()
        invariant
            i <= tokens.len(),
            views(r@) =~= token_name_seq(tokens@.take(i as int)),
        decreases tokens.len() - i,
    {
        let ghost old_r = r@;
        let name = tokens[i].name.clone();
        r.push(name);
        proof {
            let t = tokens@.take(i + 1);
            assert(t =~= tokens@.take(i as int).push(tokens@[i as int]));
            assert(token_name_seq(t) =~= token_name_seq(tokens@.take(i as int)).push(name@));
            assert(views(r@) =~= views(old_r).push(name@));
        }
        i += 1;
    }
    assert(tokens@.take(i as int) =~= tokens@);
    r
}

/// Appends a copy of each of `names` to `out`.
fn append_names(out: &mut Vec<String>, names: &Vec<String>)
    ensures
        views(final(out)@) == views(old(out)@) + views(names@),
{
    let mut i: usize = 0;
    while i < names.len()
        invariant
            i <= names.len(),
            views(out@) =~= views(old(out)@) + views(names@.take(i as int)),
        decreases names.len() - i,
    {
        let ghost before = out@;
        let name = names[i].clone();
        out.push(name);
        proof {
            assert(names@.take(i + 1) =~= names@.take(i as int).push(names@[i as int]));
            assert(views(out@) =~= views(before).push(name@));
        }
        i += 1;
    }
    assert(names@.take(i as int) =~= names@);
}

/// Appends one entry of the given origin for each of `names` to `out`.
fn append_plain_entries(out: &mut Vec<KindEntry>, names: &Vec<String>, origin: KindOrigin)
    ensures
        final(out)@.map_values(|e: KindEntry| e@) == old(out)@.map_values(|e: KindEntry| e@)
            + views(names@).map_values(|n: Seq<char>| plain_entry(n, origin)),
{
    let mut i: usize = 0;
    while i < names.len()
        invariant
            i <= names.len(),
            out@.map_values(|e: KindEntry| e@) =~= old(out)@.map_values(|e: KindEntry| e@)
                + views(names@.take(i as int)).map_values(|n: Seq<char>| plain_entry(n, origin)),
        decreases names.len() - i,
    {
        let ghost before = out@;
        let e = KindEntry { name: names[i].clone(), origin, token_code: None };
        out.push(e);
        proof {
            assert(names@.take(i + 1) =~= names@.take(i as int).push(names@[i as int]));
            assert(out@.map_values(|e: KindEntry| e@) =~= before.map_values(|e: KindEntry| e@).push(e@));
        }
        i += 1;
    }
    assert(names@.take(i as int) =~= names@);
}

impl View for KindRegistry {
    type V = Seq<KindEntryView>;

    closed spec fn view(&self) -> Seq<KindEntryView> {
        self.entries@.map_values(|e: KindEntry| e@)
    }
}

impl KindRegistry {
    /// Names are unique and every position fits a kind's code.
    pub open spec fn wf(&self) -> bool {
        &&& entry_names(self@).no_duplicates()
        &&& self@.len() <= u32::MAX
    }

    /// Merges the three categories, in priority order: synthetic names, node
    /// names, then tokens. A name declared twice within one category is an
    /// error; a name that an earlier category claims is left out silently.
    pub fn build_registry(custom: &Vec<&str>, nodes: &Vec<NodeDescriptor>, tokens: &Vec<TokenDescriptor>) -> (r:
        Result<KindRegistry, RegistryError>)
        requires
            custom@.len() + nodes@.len() + tokens@.len() <= u32::MAX,
        ensures
            match r {
                Ok(reg) => {
                    &&& str_views(custom@).no_duplicates()
                    &&& node_name_seq(nodes@).no_duplicates()
                    &&& token_name_seq(tokens@).no_duplicates()
                    &&& reg.wf()
                    &&& reg@ == merged_kinds(str_views(custom@), node_name_seq(nodes@), tokens@)
                },
                Err(RegistryError::DuplicateCustomName(n)) => appears_twice(str_views(custom@), n@),
                Err(RegistryError::DuplicateNodeName(n)) => {
                    &&& str_views(custom@).no_duplicates()
                    &&& appears_twice(node_name_seq(nodes@), n@)
                },
                Err(RegistryError::DuplicateTokenName(n)) => {
                    &&& str_views(custom@).no_duplicates()
                    &&& node_name_seq(nodes@).no_duplicates()
                    &&& appears_twice(token_name_seq(tokens@), n@)
                },
            },
    {
        let mut custom_strings: Vec<String> = Vec::new();
        let mut i: usize = 0;
        while i < custom.len()
            invariant
                i <= custom.len(),
                views(custom_strings@) =~= str_views(custom@.take(i as int)),
            decreases custom.len() - i,
        {
            let ghost before = custom_strings@;
            let s: &str = custom[i];
            let owned = s.to_owned();
            custom_strings.push(owned);
            proof {
                assert(custom@.take(i + 1) =~= custom@.take(i as int).push(custom@[i as int]));
                assert(views(custom_strings@) =~= views(before).push(owned@));
            }
            i += 1;
        }
        assert(custom@.take(i as int) =~= custom@);
        if let Some(n) = find_duplicate(&custom_strings) {
            return Err(RegistryError::DuplicateCustomName(n));
        }
        let node_name_list = node_names(nodes);
        if let Some(n) = find_duplicate(&node_name_list) {
            return Err(RegistryError::DuplicateNodeName(n));
        }
        let token_name_list = token_names(tokens);
        if let Some(n) = find_duplicate(&token_name_list) {
            return Err(RegistryError::DuplicateTokenName(n));
        }
        let ghost cv = str_views(custom@);
        let ghost nv = node_name_seq(nodes@);
        let mut entries: Vec<KindEntry> = Vec::new();
        assert(entries@.map_values(|e: KindEntry| e@) =~= Seq::<KindEntryView>::empty());
        append_plain_entries(&mut entries, &custom_strings, KindOrigin::Custom);
        let fresh_nodes = node_identifiers(nodes, &custom_strings);
        append_plain_entries(&mut entries, &fresh_nodes, KindOrigin::Node);
        let mut claimed = custom_strings.clone();
        append_names(&mut claimed, &node_name_list);
        let fresh = fresh_token_list(tokens, &claimed);
        let ghost prefix = entries@.map_values(|e: KindEntry| e@);
        let mut k: usize = 0;
        while k < fresh.len()
            invariant
                k <= fresh.len(),
                entries@.map_values(|e: KindEntry| e@) =~= prefix + fresh@.take(k as int).map_values(
                    |t: TokenDescriptor| token_entry(t),
                ),
            decreases fresh.len() - k,
        {
            let ghost before = entries@;
            let e = KindEntry { name: fresh[k].name.clone(), origin: KindOrigin::Token, token_code: Some(fresh[k].value) };
            entries.push(e);
            proof {
                assert(fresh@.take(k + 1) =~= fresh@.take(k as int).push(fresh@[k as int]));
                assert(entries@.map_values(|e: KindEntry| e@) =~= before.map_values(|e: KindEntry| e@).push(e@));
            }
            k += 1;
        }
        proof {
            assert(fresh@.take(k as int) =~= fresh@);
            assert(views(claimed@) =~= cv + nv);
            lemma_registry_unique(cv, nv, tokens@);
            lemma_fresh_len(nv, cv);
            lemma_fresh_len(token_name_seq(tokens@), cv + nv);
            lemma_fresh_tokens(tokens@, cv + nv);
            lemma_merged_names(cv, nv, tokens@);
            assert(entry_names(merged_kinds(cv, nv, tokens@)).len() == merged_kinds(cv, nv, tokens@).len());
        }
        let reg = KindRegistry { entries };
        assert(reg@ =~= merged_kinds(cv, nv, tokens@));
        Ok(reg)
    }

    /// The number of registered kinds.
    pub fn len(&self) -> (r: usize)
        ensures
            r == self@.len(),
    {
        self.entries.len()
    }

    /// The entry of a registered kind.
    pub fn entry(&self, kind: SyntaxKind) -> (r: &KindEntry)
        requires
            kind.code < self@.len(),
        ensures
            r@ == self@[kind.code as int],
    {
        &self.entries[kind.code as usize]
    }

    /// The kind that carries `name`, if any.
    pub fn kind_of(&self, name: &String) -> (r: Option<SyntaxKind>)
        requires
            self.wf(),
        ensures
            r is Some <==> entry_names(self@).contains(name@),
            r matches Some(k) ==> k.code < self@.len() && self@[k.code as int].name == name@,
    {
        let mut i: usize = 0;
        while i < self.entries.len()
            invariant
                i <= self.entries@.len(),
                self.entries@.len() <= u32::MAX,
                forall|j: int| 0 <= j < i ==> self.entries@[j].name@ != name@,
            decreases self.entries@.len() - i,
        {
            if self.entries[i].name == *name {
                assert(entry_names(self@)[i as int] == name@);
                return Some(SyntaxKind { code: i as u32 });
            }
            i += 1;
        }
        proof {
            if entry_names(self@).contains(name@) {
                let j = choose|j: int| 0 <= j < entry_names(self@).len() && entry_names(self@)[j] == name@;
                assert(self.entries@[j].name@ == name@);
            }
        }
        None
    }

    /// The kind of a raw token code: the first entry that carries it.
    pub fn kind_of_token(&self, code: i32) -> (r: Result<SyntaxKind, CoverageError>)
        requires
            self.wf(),
        ensures
            (r is Ok) <==> (exists|i: int| 0 <= i < self@.len() && self@[i].token_code == Some(code)),
            r matches Ok(k) ==> k.code < self@.len() && self@[k.code as int].token_code == Some(code)
                && forall|i: int| 0 <= i < k.code ==> self@[i].token_code != Some(code),
            r matches Err(e) ==> (e == (CoverageError::UnknownToken { code })),
    {
        let mut i: usize = 0;
        while i < self.entries.len()
            invariant
                i <= self.entries@.len(),
                self.entries@.len() <= u32::MAX,
                forall|j: int| 0 <= j < i ==> self.entries@[j].token_code != Some(code),
            decreases self.entries@.len() - i,
        {
            if let Some(c) = self.entries[i].token_code {
                if c == code {
                    return Ok(SyntaxKind { code: i as u32 });
                }
            }
            i += 1;
        }
        proof {
            if exists|i: int| 0 <= i < self@.len() && self@[i].token_code == Some(code) {
                let j = choose|j: int| 0 <= j < self@.len() && self@[j].token_code == Some(code);
                assert(self.entries@[j].token_code == Some(code));
            }
        }
        Err(CoverageError::UnknownToken { code })
    }
}

} // verus!
