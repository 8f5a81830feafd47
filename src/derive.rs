//! The property deriver: for one node instance, the implied tokens of its
//! type's rule, then the spellings of its single string fields.
use vstd::prelude::*;
use crate::node::{
    AstNode, Boolean, CaseExpr, Integer, CreateFunctionStmt, CreatePolicyStmt, CreateStmt, DeleteStmt, FieldValue, FuncCall,
    FunctionParameter, NodeEnum, SelectStmt, SortBy, ViewStmt, WindowDef, generic_props, props_view,
    string_properties, text_field_indices,
};
use crate::property::{
    TokenProperty, TokenPropertyView, bool_text, boolean_token, decimal, of_kind, opt_text, token_kind,
};
use crate::registry::{CoverageError, Discriminant, FieldDescriptor, KindEntryView, KindRegistry, NodeDescriptor};
use crate::token::Token;

verus! {

/// One token that a rule implies, before the registry gives it a kind.
#[derive(Clone, Copy, PartialEq, Eq, Structural, Debug)]
pub enum Implied {
    Keyword(Token),
    IntegerLiteral(i32),
    BooleanLiteral(bool),
}

pub open spec fn kw(t: Token) -> Implied {
    Implied::Keyword(t)
}

/// `s` where `c` holds, nothing otherwise.
pub open spec fn when(c: bool, s: Seq<Implied>) -> Seq<Implied> {
    if c {
        s
    } else {
        Seq::empty()
    }
}

pub open spec fn unknown(field: Discriminant, value: i32) -> Result<Seq<Implied>, CoverageError> {
    Err(CoverageError::UnknownDiscriminant { field, value })
}

/// The keywords that a discriminant's table gives its value, or the coverage
/// error of a value that the table has no case for.
pub open spec fn lookup(keywords: Option<Seq<Implied>>, field: Discriminant, value: i32) -> Result<
    Seq<Implied>,
    CoverageError,
> {
    match keywords {
        Some(s) => Ok(s),
        None => unknown(field, value),
    }
}

/// A call of `count` with no explicit arguments: `count(*)`.
pub open spec fn is_count_star(f: FuncCall) -> bool {
    &&& f.funcname@.len() == 1
    &&& f.args == 0
    &&& opt_text(f.funcname@[0]) == Some("count"@)
}

/// The keyword of each boolean operator: and, or, not.
pub open spec fn bool_op_keywords(v: i32) -> Option<Seq<Implied>> {
    if v == 1 {
        Some(seq![kw(Token::And)])
    } else if v == 2 {
        Some(seq![kw(Token::Or)])
    } else if v == 3 {
        Some(seq![kw(Token::Not)])
    } else {
        None
    }
}

fn bool_op_keywords_of(v: i32) -> (r: Option<Vec<Implied>>)
    ensures
        match r {
            Some(x) => bool_op_keywords(v) == Some(x@),
            None => bool_op_keywords(v) is None,
        },
{
    let r = match v {
        1 => Some(vec![Implied::Keyword(Token::And)]),
        2 => Some(vec![Implied::Keyword(Token::Or)]),
        3 => Some(vec![Implied::Keyword(Token::Not)]),
        _ => None,
    };
    proof {
        if r is Some {
            assert(r->Some_0@ =~= bool_op_keywords(v)->Some_0);
        }
    }
    r
}

/// The keywords of each join type the parser produces: inner, left, full, right.
pub open spec fn join_keywords(v: i32) -> Option<Seq<Implied>> {
    if v == 1 {
        Some(seq![kw(Token::InnerP), kw(Token::Join), kw(Token::On)])
    } else if v == 2 {
        Some(seq![kw(Token::Left), kw(Token::Join), kw(Token::On)])
    } else if v == 3 {
        Some(seq![kw(Token::Full), kw(Token::Join), kw(Token::On)])
    } else if v == 4 {
        Some(seq![kw(Token::Right), kw(Token::Join), kw(Token::On)])
    } else {
        None
    }
}

fn join_keywords_of(v: i32) -> (r: Option<Vec<Implied>>)
    ensures
        match r {
            Some(x) => join_keywords(v) == Some(x@),
            None => join_keywords(v) is None,
        },
{
    let r = match v {
        1 => Some(vec![Implied::Keyword(Token::InnerP), Implied::Keyword(Token::Join), Implied::Keyword(Token::On)]),
        2 => Some(vec![Implied::Keyword(Token::Left), Implied::Keyword(Token::Join), Implied::Keyword(Token::On)]),
        3 => Some(vec![Implied::Keyword(Token::Full), Implied::Keyword(Token::Join), Implied::Keyword(Token::On)]),
        4 => Some(vec![Implied::Keyword(Token::Right), Implied::Keyword(Token::Join), Implied::Keyword(Token::On)]),
        _ => None,
    };
    proof {
        if r is Some {
            assert(r->Some_0@ =~= join_keywords(v)->Some_0);
        }
    }
    r
}

/// The keywords of each option action: plain `name = value`, `SET`, `ADD`, `DROP`.
pub open spec fn def_elem_keywords(v: i32) -> Option<Seq<Implied>> {
    if v == 1 {
        Some(seq![kw(Token::Ascii61)])
    } else if v == 2 {
        Some(seq![kw(Token::SetP)])
    } else if v == 3 {
        Some(seq![kw(Token::AddP)])
    } else if v == 4 {
        Some(seq![kw(Token::Drop)])
    } else {
        None
    }
}

fn def_elem_keywords_of(v: i32) -> (r: Option<Vec<Implied>>)
    ensures
        match r {
            Some(x) => def_elem_keywords(v) == Some(x@),
            None => def_elem_keywords(v) is None,
        },
{
    let r = match v {
        1 => Some(vec![Implied::Keyword(Token::Ascii61)]),
        2 => Some(vec![Implied::Keyword(Token::SetP)]),
        3 => Some(vec![Implied::Keyword(Token::AddP)]),
        4 => Some(vec![Implied::Keyword(Token::Drop)]),
        _ => None,
    };
    proof {
        if r is Some {
            assert(r->Some_0@ =~= def_elem_keywords(v)->Some_0);
        }
    }
    r
}

/// The keywords of each operator-expression kind: plain operator, `ANY`, `ALL`,
/// `IS [NOT] DISTINCT FROM`, `NULLIF`, `IN`, `LIKE`, `ILIKE`, `SIMILAR TO`, and
/// `[NOT] BETWEEN [SYMMETRIC] ... AND`.
pub open spec fn a_expr_keywords(v: i32) -> Option<Seq<Implied>> {
    if v == 1 {
        Some(Seq::empty())
    } else if v == 2 {
        Some(seq![kw(Token::Any)])
    } else if v == 3 {
        Some(seq![kw(Token::All)])
    } else if v == 4 {
        Some(seq![kw(Token::Is), kw(Token::Distinct), kw(Token::From)])
    } else if v == 5 {
        Some(seq![kw(Token::Is), kw(Token::Not), kw(Token::Distinct), kw(Token::From)])
    } else if v == 6 {
        Some(seq![kw(Token::Nullif)])
    } else if v == 7 {
        Some(seq![kw(Token::InP)])
    } else if v == 8 {
        Some(seq![kw(Token::Like)])
    } else if v == 9 {
        Some(seq![kw(Token::Ilike)])
    } else if v == 10 {
        Some(seq![kw(Token::Similar), kw(Token::To)])
    } else if v == 11 {
        Some(seq![kw(Token::Between), kw(Token::And)])
    } else if v == 12 {
        Some(seq![kw(Token::Not), kw(Token::Between), kw(Token::And)])
    } else if v == 13 {
        Some(seq![kw(Token::Between), kw(Token::Symmetric), kw(Token::And)])
    } else if v == 14 {
        Some(seq![kw(Token::Not), kw(Token::Between), kw(Token::Symmetric), kw(Token::And)])
    } else {
        None
    }
}

fn a_expr_keywords_of(v: i32) -> (r: Option<Vec<Implied>>)
    ensures
        match r {
            Some(x) => a_expr_keywords(v) == Some(x@),
            None => a_expr_keywords(v) is None,
        },
{
    let r = match v {
        1 => Some(Vec::new()),
        2 => Some(vec![Implied::Keyword(Token::Any)]),
        3 => Some(vec![Implied::Keyword(Token::All)]),
        4 => Some(vec![Implied::Keyword(Token::Is), Implied::Keyword(Token::Distinct), Implied::Keyword(Token::From)]),
        5 => Some(vec![Implied::Keyword(Token::Is), Implied::Keyword(Token::Not), Implied::Keyword(Token::Distinct), Implied::Keyword(Token::From)]),
        6 => Some(vec![Implied::Keyword(Token::Nullif)]),
        7 => Some(vec![Implied::Keyword(Token::InP)]),
        8 => Some(vec![Implied::Keyword(Token::Like)]),
        9 => Some(vec![Implied::Keyword(Token::Ilike)]),
        10 => Some(vec![Implied::Keyword(Token::Similar), Implied::Keyword(Token::To)]),
        11 => Some(vec![Implied::Keyword(Token::Between), Implied::Keyword(Token::And)]),
        12 => Some(vec![Implied::Keyword(Token::Not), Implied::Keyword(Token::Between), Implied::Keyword(Token::And)]),
        13 => Some(vec![Implied::Keyword(Token::Between), Implied::Keyword(Token::Symmetric), Implied::Keyword(Token::And)]),
        14 => Some(vec![Implied::Keyword(Token::Not), Implied::Keyword(Token::Between), Implied::Keyword(Token::Symmetric), Implied::Keyword(Token::And)]),
        _ => None,
    };
    proof {
        if r is Some {
            assert(r->Some_0@ =~= a_expr_keywords(v)->Some_0);
        }
    }
    r
}

/// The keyword of each parameterless SQL value function.
pub open spec fn sql_value_keywords(v: i32) -> Option<Seq<Implied>> {
    if v == 1 {
        Some(seq![kw(Token::CurrentDate)])
    } else if v == 2 {
        Some(seq![kw(Token::CurrentTime)])
    } else if v == 3 {
        Some(seq![kw(Token::CurrentTime)])
    } else if v == 4 {
        Some(seq![kw(Token::CurrentTimestamp)])
    } else if v == 5 {
        Some(seq![kw(Token::CurrentTimestamp)])
    } else if v == 6 {
        Some(seq![kw(Token::Localtime)])
    } else if v == 7 {
        Some(seq![kw(Token::Localtime)])
    } else if v == 8 {
        Some(seq![kw(Token::Localtimestamp)])
    } else if v == 9 {
        Some(seq![kw(Token::Localtimestamp)])
    } else if v == 10 {
        Some(seq![kw(Token::CurrentRole)])
    } else if v == 11 {
        Some(seq![kw(Token::CurrentUser)])
    } else if v == 12 {
        Some(seq![kw(Token::User)])
    } else if v == 13 {
        Some(seq![kw(Token::SessionUser)])
    } else if v == 14 {
        Some(seq![kw(Token::CurrentCatalog)])
    } else if v == 15 {
        Some(seq![kw(Token::CurrentSchema)])
    } else {
        None
    }
}

fn sql_value_keywords_of(v: i32) -> (r: Option<Vec<Implied>>)
    ensures
        match r {
            Some(x) => sql_value_keywords(v) == Some(x@),
            None => sql_value_keywords(v) is None,
        },
{
    let r = match v {
        1 => Some(vec![Implied::Keyword(Token::CurrentDate)]),
        2 => Some(vec![Implied::Keyword(Token::CurrentTime)]),
        3 => Some(vec![Implied::Keyword(Token::CurrentTime)]),
        4 => Some(vec![Implied::Keyword(Token::CurrentTimestamp)]),
        5 => Some(vec![Implied::Keyword(Token::CurrentTimestamp)]),
        6 => Some(vec![Implied::Keyword(Token::Localtime)]),
        7 => Some(vec![Implied::Keyword(Token::Localtime)]),
        8 => Some(vec![Implied::Keyword(Token::Localtimestamp)]),
        9 => Some(vec![Implied::Keyword(Token::Localtimestamp)]),
        10 => Some(vec![Implied::Keyword(Token::CurrentRole)]),
        11 => Some(vec![Implied::Keyword(Token::CurrentUser)]),
        12 => Some(vec![Implied::Keyword(Token::User)]),
        13 => Some(vec![Implied::Keyword(Token::SessionUser)]),
        14 => Some(vec![Implied::Keyword(Token::CurrentCatalog)]),
        15 => Some(vec![Implied::Keyword(Token::CurrentSchema)]),
        _ => None,
    };
    proof {
        if r is Some {
            assert(r->Some_0@ =~= sql_value_keywords(v)->Some_0);
        }
    }
    r
}

/// The keywords after `ORDER BY` of each sort direction: implicit, `ASC`,
/// `DESC`, `USING`.
pub open spec fn sort_dir_keywords(v: i32) -> Option<Seq<Implied>> {
    if v == 1 {
        Some(Seq::empty())
    } else if v == 2 {
        Some(seq![kw(Token::Asc)])
    } else if v == 3 {
        Some(seq![kw(Token::Desc)])
    } else if v == 4 {
        Some(seq![kw(Token::Using)])
    } else {
        None
    }
}

fn sort_dir_keywords_of(v: i32) -> (r: Option<Vec<Implied>>)
    ensures
        match r {
            Some(x) => sort_dir_keywords(v) == Some(x@),
            None => sort_dir_keywords(v) is None,
        },
{
    let r = match v {
        1 => Some(Vec::new()),
        2 => Some(vec![Implied::Keyword(Token::Asc)]),
        3 => Some(vec![Implied::Keyword(Token::Desc)]),
        4 => Some(vec![Implied::Keyword(Token::Using)]),
        _ => None,
    };
    proof {
        if r is Some {
            assert(r->Some_0@ =~= sort_dir_keywords(v)->Some_0);
        }
    }
    r
}

/// The keywords of each `ALTER TABLE` sub-command, after `ALTER TABLE name`.
pub open spec fn alter_table_keywords(v: i32) -> Option<Seq<Implied>> {
    if v == 1 {
        Some(seq![kw(Token::AddP), kw(Token::Column)])
    } else if v == 2 {
        Some(seq![kw(Token::AddP), kw(Token::Column)])
    } else if v == 3 {
        Some(seq![kw(Token::Alter), kw(Token::Column), kw(Token::SetP), kw(Token::Default)])
    } else if v == 4 {
        Some(seq![kw(Token::Alter), kw(Token::Column), kw(Token::SetP), kw(Token::Default)])
    } else if v == 5 {
        Some(seq![kw(Token::Alter), kw(Token::Column), kw(Token::Drop), kw(Token::Not), kw(Token::NullP)])
    } else if v == 6 {
        Some(seq![kw(Token::Alter), kw(Token::Column), kw(Token::SetP), kw(Token::Not), kw(Token::NullP)])
    } else if v == 7 {
        Some(seq![kw(Token::Alter), kw(Token::Column), kw(Token::SetP), kw(Token::Expression), kw(Token::As)])
    } else if v == 8 {
        Some(seq![kw(Token::Alter), kw(Token::Column), kw(Token::Drop), kw(Token::Expression)])
    } else if v == 9 {
        Some(seq![kw(Token::Alter), kw(Token::Column), kw(Token::SetP), kw(Token::Not), kw(Token::NullP)])
    } else if v == 10 {
        Some(seq![kw(Token::Alter), kw(Token::Column), kw(Token::SetP), kw(Token::Statistics)])
    } else if v == 11 {
        Some(seq![kw(Token::Alter), kw(Token::Column), kw(Token::SetP)])
    } else if v == 12 {
        Some(seq![kw(Token::Alter), kw(Token::Column), kw(Token::Reset)])
    } else if v == 13 {
        Some(seq![kw(Token::Alter), kw(Token::Column), kw(Token::SetP), kw(Token::Storage)])
    } else if v == 14 {
        Some(seq![kw(Token::Alter), kw(Token::Column), kw(Token::SetP), kw(Token::Compression)])
    } else if v == 15 {
        Some(seq![kw(Token::Drop), kw(Token::Column)])
    } else if v == 16 {
        Some(seq![kw(Token::AddP)])
    } else if v == 17 {
        Some(seq![kw(Token::AddP)])
    } else if v == 18 {
        Some(seq![kw(Token::AddP)])
    } else if v == 19 {
        Some(seq![kw(Token::AddP)])
    } else if v == 20 {
        Some(seq![kw(Token::AddP)])
    } else if v == 21 {
        Some(seq![kw(Token::Alter), kw(Token::Constraint)])
    } else if v == 22 {
        Some(seq![kw(Token::Validate), kw(Token::Constraint)])
    } else if v == 23 {
        Some(seq![kw(Token::AddP)])
    } else if v == 24 {
        Some(seq![kw(Token::Drop), kw(Token::Constraint)])
    } else if v == 25 {
        Some(seq![kw(Token::Comment)])
    } else if v == 26 {
        Some(seq![kw(Token::Alter), kw(Token::Column), kw(Token::TypeP)])
    } else if v == 27 {
        Some(seq![kw(Token::Alter), kw(Token::Column), kw(Token::Options)])
    } else if v == 28 {
        Some(seq![kw(Token::Owner), kw(Token::To)])
    } else if v == 29 {
        Some(seq![kw(Token::Cluster), kw(Token::On)])
    } else if v == 30 {
        Some(seq![kw(Token::SetP), kw(Token::Without), kw(Token::Cluster)])
    } else if v == 31 {
        Some(seq![kw(Token::SetP), kw(Token::Logged)])
    } else if v == 32 {
        Some(seq![kw(Token::SetP), kw(Token::Unlogged)])
    } else if v == 33 {
        Some(seq![kw(Token::SetP), kw(Token::Without), kw(Token::Oids)])
    } else if v == 34 {
        Some(seq![kw(Token::SetP), kw(Token::Access), kw(Token::Method)])
    } else if v == 35 {
        Some(seq![kw(Token::SetP), kw(Token::Tablespace)])
    } else if v == 36 {
        Some(seq![kw(Token::SetP)])
    } else if v == 37 {
        Some(seq![kw(Token::Reset)])
    } else if v == 38 {
        Some(seq![kw(Token::SetP)])
    } else if v == 39 {
        Some(seq![kw(Token::EnableP), kw(Token::Trigger)])
    } else if v == 40 {
        Some(seq![kw(Token::EnableP), kw(Token::Always), kw(Token::Trigger)])
    } else if v == 41 {
        Some(seq![kw(Token::EnableP), kw(Token::Replica), kw(Token::Trigger)])
    } else if v == 42 {
        Some(seq![kw(Token::DisableP), kw(Token::Trigger)])
    } else if v == 43 {
        Some(seq![kw(Token::EnableP), kw(Token::Trigger), kw(Token::All)])
    } else if v == 44 {
        Some(seq![kw(Token::DisableP), kw(Token::Trigger), kw(Token::All)])
    } else if v == 45 {
        Some(seq![kw(Token::EnableP), kw(Token::Trigger), kw(Token::User)])
    } else if v == 46 {
        Some(seq![kw(Token::DisableP), kw(Token::Trigger), kw(Token::User)])
    } else if v == 47 {
        Some(seq![kw(Token::EnableP), kw(Token::Rule)])
    } else if v == 48 {
        Some(seq![kw(Token::EnableP), kw(Token::Always), kw(Token::Rule)])
    } else if v == 49 {
        Some(seq![kw(Token::EnableP), kw(Token::Replica), kw(Token::Rule)])
    } else if v == 50 {
        Some(seq![kw(Token::DisableP), kw(Token::Rule)])
    } else if v == 51 {
        Some(seq![kw(Token::Inherit)])
    } else if v == 52 {
        Some(seq![kw(Token::No), kw(Token::Inherit)])
    } else if v == 53 {
        Some(seq![kw(Token::Of)])
    } else if v == 54 {
        Some(seq![kw(Token::Not), kw(Token::Of)])
    } else if v == 55 {
        Some(seq![kw(Token::Replica), kw(Token::IdentityP)])
    } else if v == 56 {
        Some(seq![kw(Token::EnableP), kw(Token::Row), kw(Token::Level), kw(Token::Security)])
    } else if v == 57 {
        Some(seq![kw(Token::DisableP), kw(Token::Row), kw(Token::Level), kw(Token::Security)])
    } else if v == 58 {
        Some(seq![kw(Token::Force), kw(Token::Row), kw(Token::Level), kw(Token::Security)])
    } else if v == 59 {
        Some(seq![kw(Token::No), kw(Token::Force), kw(Token::Row), kw(Token::Level), kw(Token::Security)])
    } else if v == 60 {
        Some(seq![kw(Token::Options)])
    } else if v == 61 {
        Some(seq![kw(Token::Attach), kw(Token::Partition)])
    } else if v == 62 {
        Some(seq![kw(Token::Detach), kw(Token::Partition)])
    } else if v == 63 {
        Some(seq![kw(Token::Detach), kw(Token::Partition), kw(Token::Finalize)])
    } else if v == 64 {
        Some(seq![kw(Token::Alter), kw(Token::Column), kw(Token::AddP), kw(Token::Generated), kw(Token::As), kw(Token::IdentityP)])
    } else if v == 65 {
        Some(seq![kw(Token::Alter), kw(Token::Column), kw(Token::SetP)])
    } else if v == 66 {
        Some(seq![kw(Token::Alter), kw(Token::Column), kw(Token::Drop), kw(Token::IdentityP)])
    } else if v == 67 {
        Some(seq![kw(Token::AddP)])
    } else {
        None
    }
}

fn alter_table_keywords_of(v: i32) -> (r: Option<Vec<Implied>>)
    ensures
        match r {
            Some(x) => alter_table_keywords(v) == Some(x@),
            None => alter_table_keywords(v) is None,
        },
{
    let r = match v {
        1 => Some(vec![Implied::Keyword(Token::AddP), Implied::Keyword(Token::Column)]),
        2 => Some(vec![Implied::Keyword(Token::AddP), Implied::Keyword(Token::Column)]),
        3 => Some(vec![Implied::Keyword(Token::Alter), Implied::Keyword(Token::Column), Implied::Keyword(Token::SetP), Implied::Keyword(Token::Default)]),
        4 => Some(vec![Implied::Keyword(Token::Alter), Implied::Keyword(Token::Column), Implied::Keyword(Token::SetP), Implied::Keyword(Token::Default)]),
        5 => Some(vec![Implied::Keyword(Token::Alter), Implied::Keyword(Token::Column), Implied::Keyword(Token::Drop), Implied::Keyword(Token::Not), Implied::Keyword(Token::NullP)]),
        6 => Some(vec![Implied::Keyword(Token::Alter), Implied::Keyword(Token::Column), Implied::Keyword(Token::SetP), Implied::Keyword(Token::Not), Implied::Keyword(Token::NullP)]),
        7 => Some(vec![Implied::Keyword(Token::Alter), Implied::Keyword(Token::Column), Implied::Keyword(Token::SetP), Implied::Keyword(Token::Expression), Implied::Keyword(Token::As)]),
        8 => Some(vec![Implied::Keyword(Token::Alter), Implied::Keyword(Token::Column), Implied::Keyword(Token::Drop), Implied::Keyword(Token::Expression)]),
        9 => Some(vec![Implied::Keyword(Token::Alter), Implied::Keyword(Token::Column), Implied::Keyword(Token::SetP), Implied::Keyword(Token::Not), Implied::Keyword(Token::NullP)]),
        10 => Some(vec![Implied::Keyword(Token::Alter), Implied::Keyword(Token::Column), Implied::Keyword(Token::SetP), Implied::Keyword(Token::Statistics)]),
        11 => Some(vec![Implied::Keyword(Token::Alter), Implied::Keyword(Token::Column), Implied::Keyword(Token::SetP)]),
        12 => Some(vec![Implied::Keyword(Token::Alter), Implied::Keyword(Token::Column), Implied::Keyword(Token::Reset)]),
        13 => Some(vec![Implied::Keyword(Token::Alter), Implied::Keyword(Token::Column), Implied::Keyword(Token::SetP), Implied::Keyword(Token::Storage)]),
        14 => Some(vec![Implied::Keyword(Token::Alter), Implied::Keyword(Token::Column), Implied::Keyword(Token::SetP), Implied::Keyword(Token::Compression)]),
        15 => Some(vec![Implied::Keyword(Token::Drop), Implied::Keyword(Token::Column)]),
        16 => Some(vec![Implied::Keyword(Token::AddP)]),
        17 => Some(vec![Implied::Keyword(Token::AddP)]),
        18 => Some(vec![Implied::Keyword(Token::AddP)]),
        19 => Some(vec![Implied::Keyword(Token::AddP)]),
        20 => Some(vec![Implied::Keyword(Token::AddP)]),
        21 => Some(vec![Implied::Keyword(Token::Alter), Implied::Keyword(Token::Constraint)]),
        22 => Some(vec![Implied::Keyword(Token::Validate), Implied::Keyword(Token::Constraint)]),
        23 => Some(vec![Implied::Keyword(Token::AddP)]),
        24 => Some(vec![Implied::Keyword(Token::Drop), Implied::Keyword(Token::Constraint)]),
        25 => Some(vec![Implied::Keyword(Token::Comment)]),
        26 => Some(vec![Implied::Keyword(Token::Alter), Implied::Keyword(Token::Column), Implied::Keyword(Token::TypeP)]),
        27 => Some(vec![Implied::Keyword(Token::Alter), Implied::Keyword(Token::Column), Implied::Keyword(Token::Options)]),
        28 => Some(vec![Implied::Keyword(Token::Owner), Implied::Keyword(Token::To)]),
        29 => Some(vec![Implied::Keyword(Token::Cluster), Implied::Keyword(Token::On)]),
        30 => Some(vec![Implied::Keyword(Token::SetP), Implied::Keyword(Token::Without), Implied::Keyword(Token::Cluster)]),
        31 => Some(vec![Implied::Keyword(Token::SetP), Implied::Keyword(Token::Logged)]),
        32 => Some(vec![Implied::Keyword(Token::SetP), Implied::Keyword(Token::Unlogged)]),
        33 => Some(vec![Implied::Keyword(Token::SetP), Implied::Keyword(Token::Without), Implied::Keyword(Token::Oids)]),
        34 => Some(vec![Implied::Keyword(Token::SetP), Implied::Keyword(Token::Access), Implied::Keyword(Token::Method)]),
        35 => Some(vec![Implied::Keyword(Token::SetP), Implied::Keyword(Token::Tablespace)]),
        36 => Some(vec![Implied::Keyword(Token::SetP)]),
        37 => Some(vec![Implied::Keyword(Token::Reset)]),
        38 => Some(vec![Implied::Keyword(Token::SetP)]),
        39 => Some(vec![Implied::Keyword(Token::EnableP), Implied::Keyword(Token::Trigger)]),
        40 => Some(vec![Implied::Keyword(Token::EnableP), Implied::Keyword(Token::Always), Implied::Keyword(Token::Trigger)]),
        41 => Some(vec![Implied::Keyword(Token::EnableP), Implied::Keyword(Token::Replica), Implied::Keyword(Token::Trigger)]),
        42 => Some(vec![Implied::Keyword(Token::DisableP), Implied::Keyword(Token::Trigger)]),
        43 => Some(vec![Implied::Keyword(Token::EnableP), Implied::Keyword(Token::Trigger), Implied::Keyword(Token::All)]),
        44 => Some(vec![Implied::Keyword(Token::DisableP), Implied::Keyword(Token::Trigger), Implied::Keyword(Token::All)]),
        45 => Some(vec![Implied::Keyword(Token::EnableP), Implied::Keyword(Token::Trigger), Implied::Keyword(Token::User)]),
        46 => Some(vec![Implied::Keyword(Token::DisableP), Implied::Keyword(Token::Trigger), Implied::Keyword(Token::User)]),
        47 => Some(vec![Implied::Keyword(Token::EnableP), Implied::Keyword(Token::Rule)]),
        48 => Some(vec![Implied::Keyword(Token::EnableP), Implied::Keyword(Token::Always), Implied::Keyword(Token::Rule)]),
        49 => Some(vec![Implied::Keyword(Token::EnableP), Implied::Keyword(Token::Replica), Implied::Keyword(Token::Rule)]),
        50 => Some(vec![Implied::Keyword(Token::DisableP), Implied::Keyword(Token::Rule)]),
        51 => Some(vec![Implied::Keyword(Token::Inherit)]),
        52 => Some(vec![Implied::Keyword(Token::No), Implied::Keyword(Token::Inherit)]),
        53 => Some(vec![Implied::Keyword(Token::Of)]),
        54 => Some(vec![Implied::Keyword(Token::Not), Implied::Keyword(Token::Of)]),
        55 => Some(vec![Implied::Keyword(Token::Replica), Implied::Keyword(Token::IdentityP)]),
        56 => Some(vec![Implied::Keyword(Token::EnableP), Implied::Keyword(Token::Row), Implied::Keyword(Token::Level), Implied::Keyword(Token::Security)]),
        57 => Some(vec![Implied::Keyword(Token::DisableP), Implied::Keyword(Token::Row), Implied::Keyword(Token::Level), Implied::Keyword(Token::Security)]),
        58 => Some(vec![Implied::Keyword(Token::Force), Implied::Keyword(Token::Row), Implied::Keyword(Token::Level), Implied::Keyword(Token::Security)]),
        59 => Some(vec![Implied::Keyword(Token::No), Implied::Keyword(Token::Force), Implied::Keyword(Token::Row), Implied::Keyword(Token::Level), Implied::Keyword(Token::Security)]),
        60 => Some(vec![Implied::Keyword(Token::Options)]),
        61 => Some(vec![Implied::Keyword(Token::Attach), Implied::Keyword(Token::Partition)]),
        62 => Some(vec![Implied::Keyword(Token::Detach), Implied::Keyword(Token::Partition)]),
        63 => Some(vec![Implied::Keyword(Token::Detach), Implied::Keyword(Token::Partition), Implied::Keyword(Token::Finalize)]),
        64 => Some(vec![Implied::Keyword(Token::Alter), Implied::Keyword(Token::Column), Implied::Keyword(Token::AddP), Implied::Keyword(Token::Generated), Implied::Keyword(Token::As), Implied::Keyword(Token::IdentityP)]),
        65 => Some(vec![Implied::Keyword(Token::Alter), Implied::Keyword(Token::Column), Implied::Keyword(Token::SetP)]),
        66 => Some(vec![Implied::Keyword(Token::Alter), Implied::Keyword(Token::Column), Implied::Keyword(Token::Drop), Implied::Keyword(Token::IdentityP)]),
        67 => Some(vec![Implied::Keyword(Token::AddP)]),
        _ => None,
    };
    proof {
        if r is Some {
            assert(r->Some_0@ =~= alter_table_keywords(v)->Some_0);
        }
    }
    r
}

/// The keywords of each form of `SET` and `RESET`.
pub open spec fn variable_set_keywords(v: i32) -> Option<Seq<Implied>> {
    if v == 1 {
        Some(seq![kw(Token::SetP), kw(Token::To)])
    } else if v == 2 {
        Some(seq![kw(Token::SetP), kw(Token::To), kw(Token::Default)])
    } else if v == 3 {
        Some(seq![kw(Token::SetP), kw(Token::From), kw(Token::CurrentP)])
    } else if v == 4 {
        Some(seq![kw(Token::SetP)])
    } else if v == 5 {
        Some(seq![kw(Token::Reset)])
    } else if v == 6 {
        Some(seq![kw(Token::Reset), kw(Token::All)])
    } else {
        None
    }
}

fn variable_set_keywords_of(v: i32) -> (r: Option<Vec<Implied>>)
    ensures
        match r {
            Some(x) => variable_set_keywords(v) == Some(x@),
            None => variable_set_keywords(v) is None,
        },
{
    let r = match v {
        1 => Some(vec![Implied::Keyword(Token::SetP), Implied::Keyword(Token::To)]),
        2 => Some(vec![Implied::Keyword(Token::SetP), Implied::Keyword(Token::To), Implied::Keyword(Token::Default)]),
        3 => Some(vec![Implied::Keyword(Token::SetP), Implied::Keyword(Token::From), Implied::Keyword(Token::CurrentP)]),
        4 => Some(vec![Implied::Keyword(Token::SetP)]),
        5 => Some(vec![Implied::Keyword(Token::Reset)]),
        6 => Some(vec![Implied::Keyword(Token::Reset), Implied::Keyword(Token::All)]),
        _ => None,
    };
    proof {
        if r is Some {
            assert(r->Some_0@ =~= variable_set_keywords(v)->Some_0);
        }
    }
    r
}

/// The keywords of each constraint type.
pub open spec fn constraint_keywords(v: i32) -> Option<Seq<Implied>> {
    if v == 1 {
        Some(seq![kw(Token::NullP)])
    } else if v == 2 {
        Some(seq![kw(Token::Not), kw(Token::NullP)])
    } else if v == 3 {
        Some(seq![kw(Token::Default)])
    } else if v == 4 {
        Some(seq![kw(Token::Generated), kw(Token::As), kw(Token::IdentityP)])
    } else if v == 5 {
        Some(seq![kw(Token::Generated), kw(Token::Always), kw(Token::As), kw(Token::Stored)])
    } else if v == 6 {
        Some(seq![kw(Token::Check)])
    } else if v == 7 {
        Some(seq![kw(Token::Primary), kw(Token::Key)])
    } else if v == 8 {
        Some(seq![kw(Token::Unique)])
    } else if v == 9 {
        Some(seq![kw(Token::Exclude)])
    } else if v == 10 {
        Some(seq![kw(Token::References)])
    } else if v == 11 {
        Some(seq![kw(Token::Deferrable)])
    } else if v == 12 {
        Some(seq![kw(Token::Not), kw(Token::Deferrable)])
    } else if v == 13 {
        Some(seq![kw(Token::Initially), kw(Token::Deferred)])
    } else if v == 14 {
        Some(seq![kw(Token::Initially), kw(Token::Immediate)])
    } else {
        None
    }
}

fn constraint_keywords_of(v: i32) -> (r: Option<Vec<Implied>>)
    ensures
        match r {
            Some(x) => constraint_keywords(v) == Some(x@),
            None => constraint_keywords(v) is None,
        },
{
    let r = match v {
        1 => Some(vec![Implied::Keyword(Token::NullP)]),
        2 => Some(vec![Implied::Keyword(Token::Not), Implied::Keyword(Token::NullP)]),
        3 => Some(vec![Implied::Keyword(Token::Default)]),
        4 => Some(vec![Implied::Keyword(Token::Generated), Implied::Keyword(Token::As), Implied::Keyword(Token::IdentityP)]),
        5 => Some(vec![Implied::Keyword(Token::Generated), Implied::Keyword(Token::Always), Implied::Keyword(Token::As), Implied::Keyword(Token::Stored)]),
        6 => Some(vec![Implied::Keyword(Token::Check)]),
        7 => Some(vec![Implied::Keyword(Token::Primary), Implied::Keyword(Token::Key)]),
        8 => Some(vec![Implied::Keyword(Token::Unique)]),
        9 => Some(vec![Implied::Keyword(Token::Exclude)]),
        10 => Some(vec![Implied::Keyword(Token::References)]),
        11 => Some(vec![Implied::Keyword(Token::Deferrable)]),
        12 => Some(vec![Implied::Keyword(Token::Not), Implied::Keyword(Token::Deferrable)]),
        13 => Some(vec![Implied::Keyword(Token::Initially), Implied::Keyword(Token::Deferred)]),
        14 => Some(vec![Implied::Keyword(Token::Initially), Implied::Keyword(Token::Immediate)]),
        _ => None,
    };
    proof {
        if r is Some {
            assert(r->Some_0@ =~= constraint_keywords(v)->Some_0);
        }
    }
    r
}

/// The keywords of each null test: `IS NULL`, `IS NOT NULL`.
pub open spec fn null_test_keywords(v: i32) -> Option<Seq<Implied>> {
    if v == 1 {
        Some(seq![kw(Token::Is), kw(Token::NullP)])
    } else if v == 2 {
        Some(seq![kw(Token::Is), kw(Token::Not), kw(Token::NullP)])
    } else {
        None
    }
}

fn null_test_keywords_of(v: i32) -> (r: Option<Vec<Implied>>)
    ensures
        match r {
            Some(x) => null_test_keywords(v) == Some(x@),
            None => null_test_keywords(v) is None,
        },
{
    let r = match v {
        1 => Some(vec![Implied::Keyword(Token::Is), Implied::Keyword(Token::NullP)]),
        2 => Some(vec![Implied::Keyword(Token::Is), Implied::Keyword(Token::Not), Implied::Keyword(Token::NullP)]),
        _ => None,
    };
    proof {
        if r is Some {
            assert(r->Some_0@ =~= null_test_keywords(v)->Some_0);
        }
    }
    r
}

/// The keyword of each parameter mode: `IN`, `OUT`, `INOUT`, `VARIADIC`; a
/// column of `RETURNS TABLE` and a parameter without a mode have none.
pub open spec fn parameter_mode_keywords(v: i32) -> Option<Seq<Implied>> {
    if v == 1 {
        Some(seq![kw(Token::InP)])
    } else if v == 2 {
        Some(seq![kw(Token::OutP)])
    } else if v == 3 {
        Some(seq![kw(Token::Inout)])
    } else if v == 4 {
        Some(seq![kw(Token::Variadic)])
    } else if v == 5 {
        Some(Seq::empty())
    } else if v == 6 {
        Some(Seq::empty())
    } else {
        None
    }
}

fn parameter_mode_keywords_of(v: i32) -> (r: Option<Vec<Implied>>)
    ensures
        match r {
            Some(x) => parameter_mode_keywords(v) == Some(x@),
            None => parameter_mode_keywords(v) is None,
        },
{
    let r = match v {
        1 => Some(vec![Implied::Keyword(Token::InP)]),
        2 => Some(vec![Implied::Keyword(Token::OutP)]),
        3 => Some(vec![Implied::Keyword(Token::Inout)]),
        4 => Some(vec![Implied::Keyword(Token::Variadic)]),
        5 => Some(Vec::new()),
        6 => Some(Vec::new()),
        _ => None,
    };
    proof {
        if r is Some {
            assert(r->Some_0@ =~= parameter_mode_keywords(v)->Some_0);
        }
    }
    r
}

/// The keyword of each set operation.
pub open spec fn set_operation_keywords(v: i32) -> Option<Seq<Implied>> {
    if v == 2 {
        Some(seq![kw(Token::Union)])
    } else if v == 3 {
        Some(seq![kw(Token::Intersect)])
    } else if v == 4 {
        Some(seq![kw(Token::Except)])
    } else {
        None
    }
}

fn set_operation_keywords_of(v: i32) -> (r: Option<Vec<Implied>>)
    ensures
        match r {
            Some(x) => set_operation_keywords(v) == Some(x@),
            None => set_operation_keywords(v) is None,
        },
{
    let r = match v {
        2 => Some(vec![Implied::Keyword(Token::Union)]),
        3 => Some(vec![Implied::Keyword(Token::Intersect)]),
        4 => Some(vec![Implied::Keyword(Token::Except)]),
        _ => None,
    };
    proof {
        if r is Some {
            assert(r->Some_0@ =~= set_operation_keywords(v)->Some_0);
        }
    }
    r
}

/// A plain `SELECT`: its keyword, then the keyword of each clause present.
pub open spec fn plain_select_rule(s: SelectStmt) -> Seq<Implied> {
    seq![kw(Token::Select)] + when(s.distinct_clause > 0, seq![kw(Token::Distinct)]) + when(
        s.values_lists > 0,
        seq![kw(Token::Values)],
    ) + when(s.from_clause > 0, seq![kw(Token::From)]) + when(s.where_clause, seq![kw(Token::Where)]) + when(
        s.group_clause > 0,
        seq![kw(Token::GroupP), kw(Token::By)],
    )
}

/// A plain `SELECT` (operation 1), or the keyword of a set operation between
/// two queries, with `ALL` where given.
pub open spec fn select_rule(s: SelectStmt) -> Result<Seq<Implied>, CoverageError> {
    if s.op == 1 {
        Ok(plain_select_rule(s))
    } else {
        match set_operation_keywords(s.op) {
            Some(k) => Ok(k + when(s.all, seq![kw(Token::All)])),
            None => unknown(Discriminant::SelectStmtOp, s.op),
        }
    }
}

pub open spec fn window_rule(w: WindowDef) -> Seq<Implied> {
    when(w.partition_clause > 0 || w.order_clause > 0, seq![kw(Token::Window), kw(Token::As)]) + when(
        w.partition_clause > 0,
        seq![kw(Token::Partition), kw(Token::By)],
    )
}

pub open spec fn func_call_rule(f: FuncCall) -> Seq<Implied> {
    when(is_count_star(f), seq![kw(Token::Ascii42)]) + when(f.agg_filter, seq![kw(Token::Filter), kw(Token::Where)])
        + when(f.over, seq![kw(Token::Over)])
}

pub open spec fn sort_by_rule(s: SortBy) -> Result<Seq<Implied>, CoverageError> {
    match sort_dir_keywords(s.sortby_dir) {
        Some(k) => Ok(seq![kw(Token::Order), kw(Token::By)] + k),
        None => unknown(Discriminant::SortByDir, s.sortby_dir),
    }
}

pub open spec fn policy_rule(p: CreatePolicyStmt) -> Seq<Implied> {
    seq![kw(Token::Create), kw(Token::Policy), kw(Token::On)] + when(p.roles > 0, seq![kw(Token::To)]) + when(
        p.qual,
        seq![kw(Token::Using)],
    ) + when(p.with_check, seq![kw(Token::With), kw(Token::Check)])
}

pub open spec fn delete_rule(d: DeleteStmt) -> Seq<Implied> {
    seq![kw(Token::DeleteP), kw(Token::From)] + when(d.using_clause > 0, seq![kw(Token::Using)]) + when(
        d.where_clause,
        seq![kw(Token::Where)],
    )
}

pub open spec fn view_rule(v: ViewStmt) -> Seq<Implied> {
    seq![kw(Token::Create)] + when(v.replace, seq![kw(Token::Or), kw(Token::Replace)]) + seq![kw(Token::View)]
        + when(v.query, seq![kw(Token::As)])
}

pub open spec fn create_rule(c: CreateStmt) -> Seq<Implied> {
    seq![kw(Token::Create), kw(Token::Table)] + when(
        c.if_not_exists,
        seq![kw(Token::IfP), kw(Token::Not), kw(Token::Exists)],
    ) + when(c.partbound, seq![kw(Token::Partition), kw(Token::Of), kw(Token::For), kw(Token::Values)]) + when(
        c.options > 0,
        seq![kw(Token::With)],
    ) + when(c.tablespacename@.len() > 0, seq![kw(Token::Tablespace)])
}

pub open spec fn create_function_rule(c: CreateFunctionStmt) -> Seq<Implied> {
    seq![kw(Token::Create)] + when(c.replace, seq![kw(Token::Or), kw(Token::Replace)]) + seq![kw(Token::Function)]
        + when(c.return_type, seq![kw(Token::Returns)])
}

pub open spec fn case_rule(c: CaseExpr) -> Seq<Implied> {
    seq![kw(Token::Case)] + when(c.defresult, seq![kw(Token::Else)]) + seq![kw(Token::EndP)]
}

pub open spec fn parameter_rule(p: FunctionParameter) -> Result<Seq<Implied>, CoverageError> {
    match parameter_mode_keywords(p.mode) {
        Some(k) => Ok(k + when(p.defexpr, seq![kw(Token::Default)])),
        None => unknown(Discriminant::FunctionParameterMode, p.mode),
    }
}

/// The rule table: the implied tokens of each node type, in source order,
/// or the coverage error of a discriminant value that it has no case for.
pub open spec fn custom_implied(n: NodeEnum) -> Result<Seq<Implied>, CoverageError> {
    match n {
        NodeEnum::SelectStmt(s) => select_rule(s),
        NodeEnum::BoolExpr(b) => lookup(bool_op_keywords(b.boolop), Discriminant::BoolExprOp, b.boolop),
        NodeEnum::JoinExpr(j) => lookup(join_keywords(j.jointype), Discriminant::JoinExprType, j.jointype),
        NodeEnum::ResTarget(r) => Ok(when(r.name@.len() > 0, seq![kw(Token::As)])),
        NodeEnum::Integer(i) => Ok(seq![Implied::IntegerLiteral(i.ival)]),
        NodeEnum::DefElem(d) => lookup(def_elem_keywords(d.defaction), Discriminant::DefElemAction, d.defaction),
        NodeEnum::Alias => Ok(seq![kw(Token::As)]),
        NodeEnum::CollateClause => Ok(seq![kw(Token::Collate)]),
        NodeEnum::AExpr(a) => lookup(a_expr_keywords(a.kind), Discriminant::AExprKind, a.kind),
        NodeEnum::WindowDef(w) => Ok(window_rule(w)),
        NodeEnum::Boolean(b) => Ok(seq![Implied::BooleanLiteral(b.boolval)]),
        NodeEnum::AStar => Ok(seq![kw(Token::Ascii42)]),
        NodeEnum::FuncCall(f) => Ok(func_call_rule(f)),
        NodeEnum::SqlvalueFunction(s) => lookup(sql_value_keywords(s.op), Discriminant::SqlvalueFunctionOp, s.op),
        NodeEnum::SortBy(s) => sort_by_rule(s),
        NodeEnum::AConst(c) => Ok(when(c.isnull, seq![kw(Token::NullP)])),
        NodeEnum::AlterTableStmt => Ok(seq![kw(Token::Alter), kw(Token::Table)]),
        NodeEnum::AlterTableCmd(c) => lookup(
            alter_table_keywords(c.subtype),
            Discriminant::AlterTableCmdSubtype,
            c.subtype,
        ),
        NodeEnum::VariableSetStmt(v) => lookup(variable_set_keywords(v.kind), Discriminant::VariableSetStmtKind, v.kind),
        NodeEnum::CreatePolicyStmt(p) => Ok(policy_rule(p)),
        NodeEnum::CopyStmt => Ok(seq![kw(Token::Copy), kw(Token::From)]),
        NodeEnum::RenameStmt => Ok(seq![kw(Token::Alter), kw(Token::Table), kw(Token::Rename), kw(Token::To)]),
        NodeEnum::Constraint(c) => lookup(constraint_keywords(c.contype), Discriminant::ConstraintType, c.contype),
        NodeEnum::PartitionSpec => Ok(seq![kw(Token::Partition), kw(Token::By)]),
        NodeEnum::InsertStmt => Ok(seq![kw(Token::Insert), kw(Token::Into)]),
        NodeEnum::DeleteStmt(d) => Ok(delete_rule(d)),
        NodeEnum::ViewStmt(v) => Ok(view_rule(v)),
        NodeEnum::CreateStmt(c) => Ok(create_rule(c)),
        NodeEnum::PartitionBoundSpec => Ok(seq![kw(Token::From), kw(Token::To)]),
        NodeEnum::CaseExpr(c) => Ok(case_rule(c)),
        NodeEnum::NullTest(t) => lookup(null_test_keywords(t.nulltesttype), Discriminant::NullTestType, t.nulltesttype),
        NodeEnum::CreateFunctionStmt(c) => Ok(create_function_rule(c)),
        NodeEnum::FunctionParameter(p) => parameter_rule(p),
        NodeEnum::NamedArgExpr => Ok(seq![kw(Token::EqualsGreater)]),
        NodeEnum::CaseWhen => Ok(seq![kw(Token::When), kw(Token::Then)]),
        NodeEnum::TypeCast => Ok(seq![kw(Token::Typecast)]),
        NodeEnum::Other(_) => Ok(Seq::empty()),
    }
}

/// A table's keywords as the rule's result, or the coverage error.
fn table_result(keywords: Option<Vec<Implied>>, field: Discriminant, value: i32) -> (r: Result<
    Vec<Implied>,
    CoverageError,
>)
    ensures
        match keywords {
            Some(x) => r == Ok::<Vec<Implied>, CoverageError>(x),
            None => r == Err::<Vec<Implied>, CoverageError>(CoverageError::UnknownDiscriminant { field, value }),
        },
{
    match keywords {
        Some(x) => Ok(x),
        None => Err(CoverageError::UnknownDiscriminant { field, value }),
    }
}

fn select_handler(s: &SelectStmt) -> (r: Result<Vec<Implied>, CoverageError>)
    ensures
        match r {
            Ok(v) => select_rule(*s) == Ok::<Seq<Implied>, CoverageError>(v@),
            Err(e) => select_rule(*s) == Err::<Seq<Implied>, CoverageError>(e),
        },
{
    if s.op != 1 {
        let mut r = match set_operation_keywords_of(s.op) {
            Some(k) => k,
            None => return Err(CoverageError::UnknownDiscriminant { field: Discriminant::SelectStmtOp, value: s.op }),
        };
        let ghost k = r@;
        if s.all {
            r.push(Implied::Keyword(Token::All));
        }
        assert(r@ =~= k + when(s.all, seq![kw(Token::All)]));
        return Ok(r);
    }
    let mut r = vec![Implied::Keyword(Token::Select)];
    if s.distinct_clause > 0 {
        r.push(Implied::Keyword(Token::Distinct));
    }
    if s.values_lists > 0 {
        r.push(Implied::Keyword(Token::Values));
    }
    if s.from_clause > 0 {
        r.push(Implied::Keyword(Token::From));
    }
    if s.where_clause {
        r.push(Implied::Keyword(Token::Where));
    }
    if s.group_clause > 0 {
        r.push(Implied::Keyword(Token::GroupP));
        r.push(Implied::Keyword(Token::By));
    }
    assert(r@ =~= plain_select_rule(*s));
    Ok(r)
}

fn window_handler(w: &WindowDef) -> (r: Vec<Implied>)
    ensures
        r@ == window_rule(*w),
{
    let mut r: Vec<Implied> = Vec::new();
    if w.partition_clause > 0 || w.order_clause > 0 {
        r.push(Implied::Keyword(Token::Window));
        r.push(Implied::Keyword(Token::As));
    }
    if w.partition_clause > 0 {
        r.push(Implied::Keyword(Token::Partition));
        r.push(Implied::Keyword(Token::By));
    }
    assert(r@ =~= window_rule(*w));
    r
}

fn func_call_handler(f: &FuncCall) -> (r: Vec<Implied>)
    ensures
        r@ == func_call_rule(*f),
{
    let mut r: Vec<Implied> = Vec::new();
    let mut count_star = false;
    if f.funcname.len() == 1 && f.args == 0 {
        if let Some(name) = &f.funcname[0] {
            let count = "count".to_owned();
            if *name == count {
                count_star = true;
            }
        }
    }
    assert(count_star == is_count_star(*f));
    if count_star {
        r.push(Implied::Keyword(Token::Ascii42));
    }
    if f.agg_filter {
        r.push(Implied::Keyword(Token::Filter));
        r.push(Implied::Keyword(Token::Where));
    }
    if f.over {
        r.push(Implied::Keyword(Token::Over));
    }
    assert(r@ =~= func_call_rule(*f));
    r
}

fn sort_by_handler(s: &SortBy) -> (r: Result<Vec<Implied>, CoverageError>)
    ensures
        match r {
            Ok(v) => sort_by_rule(*s) == Ok::<Seq<Implied>, CoverageError>(v@),
            Err(e) => sort_by_rule(*s) == Err::<Seq<Implied>, CoverageError>(e),
        },
{
    let k = match sort_dir_keywords_of(s.sortby_dir) {
        Some(k) => k,
        None => return Err(CoverageError::UnknownDiscriminant { field: Discriminant::SortByDir, value: s.sortby_dir }),
    };
    let mut r = vec![Implied::Keyword(Token::Order), Implied::Keyword(Token::By)];
    let mut i: usize = 0;
    while i < k.len()
        invariant
            i <= k@.len(),
            r@ =~= seq![kw(Token::Order), kw(Token::By)] + k@.take(i as int),
        decreases k@.len() - i,
    {
        r.push(k[i]);
        i += 1;
        assert(r@ =~= seq![kw(Token::Order), kw(Token::By)] + k@.take(i as int));
    }
    assert(k@.take(i as int) =~= k@);
    Ok(r)
}

fn policy_handler(p: &CreatePolicyStmt) -> (r: Vec<Implied>)
    ensures
        r@ == policy_rule(*p),
{
    let mut r = vec![Implied::Keyword(Token::Create), Implied::Keyword(Token::Policy), Implied::Keyword(Token::On)];
    if p.roles > 0 {
        r.push(Implied::Keyword(Token::To));
    }
    if p.qual {
        r.push(Implied::Keyword(Token::Using));
    }
    if p.with_check {
        r.push(Implied::Keyword(Token::With));
        r.push(Implied::Keyword(Token::Check));
    }
    assert(r@ =~= policy_rule(*p));
    r
}

fn delete_handler(d: &DeleteStmt) -> (r: Vec<Implied>)
    ensures
        r@ == delete_rule(*d),
{
    let mut r = vec![Implied::Keyword(Token::DeleteP), Implied::Keyword(Token::From)];
    if d.using_clause > 0 {
        r.push(Implied::Keyword(Token::Using));
    }
    if d.where_clause {
        r.push(Implied::Keyword(Token::Where));
    }
    assert(r@ =~= delete_rule(*d));
    r
}

fn view_handler(v: &ViewStmt) -> (r: Vec<Implied>)
    ensures
        r@ == view_rule(*v),
{
    let mut r = vec![Implied::Keyword(Token::Create)];
    if v.replace {
        r.push(Implied::Keyword(Token::Or));
        r.push(Implied::Keyword(Token::Replace));
    }
    r.push(Implied::Keyword(Token::View));
    if v.query {
        r.push(Implied::Keyword(Token::As));
    }
    assert(r@ =~= view_rule(*v));
    r
}

fn create_handler(c: &CreateStmt) -> (r: Vec<Implied>)
    ensures
        r@ == create_rule(*c),
{
    let mut r = vec![Implied::Keyword(Token::Create), Implied::Keyword(Token::Table)];
    if c.if_not_exists {
        r.push(Implied::Keyword(Token::IfP));
        r.push(Implied::Keyword(Token::Not));
        r.push(Implied::Keyword(Token::Exists));
    }
    if c.partbound {
        r.push(Implied::Keyword(Token::Partition));
        r.push(Implied::Keyword(Token::Of));
        r.push(Implied::Keyword(Token::For));
        r.push(Implied::Keyword(Token::Values));
    }
    if c.options > 0 {
        r.push(Implied::Keyword(Token::With));
    }
    if !c.tablespacename.as_str().is_empty() {
        r.push(Implied::Keyword(Token::Tablespace));
    }
    assert(r@ =~= create_rule(*c));
    r
}

fn create_function_handler(c: &CreateFunctionStmt) -> (r: Vec<Implied>)
    ensures
        r@ == create_function_rule(*c),
{
    let mut r = vec![Implied::Keyword(Token::Create)];
    if c.replace {
        r.push(Implied::Keyword(Token::Or));
        r.push(Implied::Keyword(Token::Replace));
    }
    r.push(Implied::Keyword(Token::Function));
    if c.return_type {
        r.push(Implied::Keyword(Token::Returns));
    }
    assert(r@ =~= create_function_rule(*c));
    r
}

fn case_handler(c: &CaseExpr) -> (r: Vec<Implied>)
    ensures
        r@ == case_rule(*c),
{
    let mut r = vec![Implied::Keyword(Token::Case)];
    if c.defresult {
        r.push(Implied::Keyword(Token::Else));
    }
    r.push(Implied::Keyword(Token::EndP));
    assert(r@ =~= case_rule(*c));
    r
}

fn parameter_handler(p: &FunctionParameter) -> (r: Result<Vec<Implied>, CoverageError>)
    ensures
        match r {
            Ok(v) => parameter_rule(*p) == Ok::<Seq<Implied>, CoverageError>(v@),
            Err(e) => parameter_rule(*p) == Err::<Seq<Implied>, CoverageError>(e),
        },
{
    let mut r = match parameter_mode_keywords_of(p.mode) {
        Some(k) => k,
        None => return Err(
            CoverageError::UnknownDiscriminant { field: Discriminant::FunctionParameterMode, value: p.mode },
        ),
    };
    let ghost k = r@;
    if p.defexpr {
        r.push(Implied::Keyword(Token::Default));
    }
    assert(r@ =~= k + when(p.defexpr, seq![kw(Token::Default)]));
    Ok(r)
}

/// The custom rule pass: the implied tokens of the node's type, in source
/// order, or the coverage error of a discriminant value without a case.
pub fn custom_handlers(node: &NodeEnum) -> (r: Result<Vec<Implied>, CoverageError>)
    ensures
        match r {
            Ok(v) => custom_implied(*node) == Ok::<Seq<Implied>, CoverageError>(v@),
            Err(e) => custom_implied(*node) == Err::<Seq<Implied>, CoverageError>(e),
        },
{
    let r = match node {
        NodeEnum::SelectStmt(s) => select_handler(s),
        NodeEnum::BoolExpr(b) => table_result(bool_op_keywords_of(b.boolop), Discriminant::BoolExprOp, b.boolop),
        NodeEnum::JoinExpr(j) => table_result(join_keywords_of(j.jointype), Discriminant::JoinExprType, j.jointype),
        NodeEnum::ResTarget(t) => if t.name.as_str().is_empty() {
            Ok(Vec::new())
        } else {
            Ok(vec![Implied::Keyword(Token::As)])
        },
        NodeEnum::Integer(i) => Ok(vec![Implied::IntegerLiteral(i.ival)]),
        NodeEnum::DefElem(d) => table_result(def_elem_keywords_of(d.defaction), Discriminant::DefElemAction, d.defaction),
        NodeEnum::Alias => Ok(vec![Implied::Keyword(Token::As)]),
        NodeEnum::CollateClause => Ok(vec![Implied::Keyword(Token::Collate)]),
        NodeEnum::AExpr(a) => table_result(a_expr_keywords_of(a.kind), Discriminant::AExprKind, a.kind),
        NodeEnum::WindowDef(w) => Ok(window_handler(w)),
        NodeEnum::Boolean(b) => Ok(vec![Implied::BooleanLiteral(b.boolval)]),
        NodeEnum::AStar => Ok(vec![Implied::Keyword(Token::Ascii42)]),
        NodeEnum::FuncCall(f) => Ok(func_call_handler(f)),
        NodeEnum::SqlvalueFunction(s) => table_result(sql_value_keywords_of(s.op), Discriminant::SqlvalueFunctionOp, s.op),
        NodeEnum::SortBy(s) => sort_by_handler(s),
        NodeEnum::AConst(c) => if c.isnull {
            Ok(vec![Implied::Keyword(Token::NullP)])
        } else {
            Ok(Vec::new())
        },
        NodeEnum::AlterTableStmt => Ok(vec![Implied::Keyword(Token::Alter), Implied::Keyword(Token::Table)]),
        NodeEnum::AlterTableCmd(c) => table_result(
            alter_table_keywords_of(c.subtype),
            Discriminant::AlterTableCmdSubtype,
            c.subtype,
        ),
        NodeEnum::VariableSetStmt(v) => table_result(
            variable_set_keywords_of(v.kind),
            Discriminant::VariableSetStmtKind,
            v.kind,
        ),
        NodeEnum::CreatePolicyStmt(p) => Ok(policy_handler(p)),
        NodeEnum::CopyStmt => Ok(vec![Implied::Keyword(Token::Copy), Implied::Keyword(Token::From)]),
        NodeEnum::RenameStmt => Ok(vec![
            Implied::Keyword(Token::Alter),
            Implied::Keyword(Token::Table),
            Implied::Keyword(Token::Rename),
            Implied::Keyword(Token::To),
        ]),
        NodeEnum::Constraint(c) => table_result(constraint_keywords_of(c.contype), Discriminant::ConstraintType, c.contype),
        NodeEnum::PartitionSpec => Ok(vec![Implied::Keyword(Token::Partition), Implied::Keyword(Token::By)]),
        NodeEnum::InsertStmt => Ok(vec![Implied::Keyword(Token::Insert), Implied::Keyword(Token::Into)]),
        NodeEnum::DeleteStmt(d) => Ok(delete_handler(d)),
        NodeEnum::ViewStmt(v) => Ok(view_handler(v)),
        NodeEnum::CreateStmt(c) => Ok(create_handler(c)),
        NodeEnum::PartitionBoundSpec => Ok(vec![Implied::Keyword(Token::From), Implied::Keyword(Token::To)]),
        NodeEnum::CaseExpr(c) => Ok(case_handler(c)),
        NodeEnum::NullTest(t) => table_result(
            null_test_keywords_of(t.nulltesttype),
            Discriminant::NullTestType,
            t.nulltesttype,
        ),
        NodeEnum::CreateFunctionStmt(c) => Ok(create_function_handler(c)),
        NodeEnum::FunctionParameter(p) => parameter_handler(p),
        NodeEnum::NamedArgExpr => Ok(vec![Implied::Keyword(Token::EqualsGreater)]),
        NodeEnum::CaseWhen => Ok(vec![Implied::Keyword(Token::When), Implied::Keyword(Token::Then)]),
        NodeEnum::TypeCast => Ok(vec![Implied::Keyword(Token::Typecast)]),
        NodeEnum::Other(_) => Ok(Vec::new()),
    };
    proof {
        if r is Ok {
            assert(custom_implied(*node)->Ok_0 =~= r->Ok_0@);
        }
    }
    r
}

/// The property of one implied token: its kind from the registry, and its
/// spelling for a literal.
pub open spec fn resolve(reg: Seq<KindEntryView>, i: Implied) -> Result<TokenPropertyView, CoverageError> {
    let (token, value) = match i {
        Implied::Keyword(t) => (t, None),
        Implied::IntegerLiteral(v) => (Token::Iconst, Some(decimal(v as int))),
        Implied::BooleanLiteral(b) => (boolean_token(b), Some(bool_text(b))),
    };
    match token_kind(reg, token.spec_code()) {
        Some(k) => Ok(TokenPropertyView { value, kind: Some(k) }),
        None => Err(CoverageError::UnknownToken { code: token.spec_code() }),
    }
}

/// The properties of a sequence of implied tokens, or the error of the first
/// that the registry cannot resolve.
pub open spec fn resolve_all(reg: Seq<KindEntryView>, s: Seq<Implied>) -> Result<Seq<TokenPropertyView>, CoverageError>
    decreases s.len(),
{
    if s.len() == 0 {
        Ok(Seq::empty())
    } else {
        match resolve_all(reg, s.drop_last()) {
            Err(e) => Err(e),
            Ok(p) => match resolve(reg, s.last()) {
                Ok(x) => Ok(p.push(x)),
                Err(e) => Err(e),
            },
        }
    }
}

/// The implied-token sequence of a node instance: the custom rule pass,
/// resolved through the registry, then the generic pass over the fields that
/// the node type's descriptor declares.
pub open spec fn derivation(
    reg: Seq<KindEntryView>,
    fields: Seq<FieldDescriptor>,
    node: NodeEnum,
    values: Seq<FieldValue>,
) -> Result<Seq<TokenPropertyView>, CoverageError> {
    match custom_implied(node) {
        Err(e) => Err(e),
        Ok(imp) => match resolve_all(reg, imp) {
            Err(e) => Err(e),
            Ok(p) => Ok(p + generic_props(text_field_indices(fields), values)),
        },
    }
}

/// The property of one implied token.
pub fn resolve_implied(reg: &KindRegistry, i: Implied) -> (r: Result<TokenProperty, CoverageError>)
    requires
        reg.wf(),
    ensures
        match r {
            Ok(p) => resolve(reg@, i) == Ok::<TokenPropertyView, CoverageError>(p@) && p.wf(),
            Err(e) => resolve(reg@, i) == Err::<TokenPropertyView, CoverageError>(e),
        },
{
    match i {
        Implied::Keyword(t) => TokenProperty::from_token(reg, t),
        Implied::IntegerLiteral(v) => TokenProperty::from_integer(reg, &Integer { ival: v }),
        Implied::BooleanLiteral(b) => TokenProperty::from_boolean(reg, &Boolean { boolval: b }),
    }
}

/// Once a prefix fails to resolve, the whole sequence fails with its error.
proof fn lemma_resolve_error_persists(reg: Seq<KindEntryView>, s: Seq<Implied>, k: int)
    requires
        0 <= k <= s.len(),
        resolve_all(reg, s.take(k)) is Err,
    ensures
        resolve_all(reg, s) == resolve_all(reg, s.take(k)),
    decreases s.len() - k,
{
    if k < s.len() {
        assert(s.take(k + 1).drop_last() =~= s.take(k));
        lemma_resolve_error_persists(reg, s, k + 1);
    } else {
        assert(s.take(k) =~= s);
    }
}

/// The implied-token sequence of a node instance, whose type's descriptor is
/// `desc`: the custom rule pass, then the generic pass, concatenated.
pub fn get_node_properties(reg: &KindRegistry, desc: &NodeDescriptor, node: &AstNode) -> (r: Result<
    Vec<TokenProperty>,
    CoverageError,
>)
    requires
        reg.wf(),
    ensures
        match r {
            Ok(v) => {
                &&& derivation(reg@, desc.fields@, node.node, node.fields@) == Ok::<
                    Seq<TokenPropertyView>,
                    CoverageError,
                >(props_view(v@))
                &&& forall|i: int| 0 <= i < v@.len() ==> (#[trigger] v@[i]).wf()
            },
            Err(e) => derivation(reg@, desc.fields@, node.node, node.fields@) == Err::<
                Seq<TokenPropertyView>,
                CoverageError,
            >(e),
        },
{
    let implied = match custom_handlers(&node.node) {
        Ok(v) => v,
        Err(e) => return Err(e),
    };
    let ghost imp = implied@;
    let mut out: Vec<TokenProperty> = Vec::new();
    let mut k: usize = 0;
    assert(imp.take(0) =~= Seq::<Implied>::empty());
    assert(props_view(out@) =~= Seq::<TokenPropertyView>::empty());
    while k < implied.len()
        invariant
            k <= implied@.len(),
            imp == implied@,
            custom_implied(node.node) == Ok::<Seq<Implied>, CoverageError>(imp),
            reg.wf(),
            resolve_all(reg@, imp.take(k as int)) == Ok::<Seq<TokenPropertyView>, CoverageError>(props_view(out@)),
            forall|i: int| 0 <= i < out@.len() ==> (#[trigger] out@[i]).wf(),
        decreases implied@.len() - k,
    {
        let ghost before = out@;
        assert(imp.take(k + 1).drop_last() =~= imp.take(k as int));
        assert(imp.take(k + 1).last() == imp[k as int]);
        match resolve_implied(reg, implied[k]) {
            Ok(p) => {
                out.push(p);
                assert(props_view(out@) =~= props_view(before).push(p@));
            },
            Err(e) => {
                proof {
                    assert(resolve_all(reg@, imp.take(k + 1)) == Err::<Seq<TokenPropertyView>, CoverageError>(e));
                    lemma_resolve_error_persists(reg@, imp, k + 1);
                }
                return Err(e);
            },
        }
        k += 1;
    }
    assert(imp.take(k as int) =~= imp);
    let ghost custom_part = out@;
    let mut generic = string_properties(desc, &node.fields);
    let ghost generic_part = generic@;
    out.append(&mut generic);
    assert(props_view(out@) =~= props_view(custom_part) + props_view(generic_part));
    Ok(out)
}

/// Derivation is a function of its inputs: two successful derivations of
/// the same node against the same registry and descriptor give equal
/// sequences, entry by entry.
pub proof fn lemma_derivation_deterministic(
    reg: Seq<KindEntryView>,
    fields: Seq<FieldDescriptor>,
    node: NodeEnum,
    values: Seq<FieldValue>,
    a: Seq<TokenProperty>,
    b: Seq<TokenProperty>,
)
    requires
        derivation(reg, fields, node, values) == Ok::<Seq<TokenPropertyView>, CoverageError>(props_view(a)),
        derivation(reg, fields, node, values) == Ok::<Seq<TokenPropertyView>, CoverageError>(props_view(b)),
    ensures
        a.len() == b.len(),
        forall|i: int| 0 <= i < a.len() ==> (#[trigger] a[i])@ == b[i]@,
{
    assert forall|i: int| 0 <= i < a.len() implies (#[trigger] a[i])@ == b[i]@ by {
        assert(props_view(a)[i] == props_view(b)[i]);
    }
}

/// The discriminant values of each node type that the grammar documents
/// and the parser produces; node types without a discriminant accept every
/// instance. Join types 5 to 9 (semi, anti, and unique joins) are the
/// planner's own and have no syntax, so they are not among them.
pub open spec fn covered(n: NodeEnum) -> bool {
    match n {
        NodeEnum::SelectStmt(s) => 1 <= s.op <= 4,
        NodeEnum::BoolExpr(b) => 1 <= b.boolop <= 3,
        NodeEnum::JoinExpr(j) => 1 <= j.jointype <= 4,
        NodeEnum::DefElem(d) => 1 <= d.defaction <= 4,
        NodeEnum::AExpr(a) => 1 <= a.kind <= 14,
        NodeEnum::SqlvalueFunction(s) => 1 <= s.op <= 15,
        NodeEnum::SortBy(s) => 1 <= s.sortby_dir <= 4,
        NodeEnum::AlterTableCmd(c) => 1 <= c.subtype <= 67,
        NodeEnum::VariableSetStmt(v) => 1 <= v.kind <= 6,
        NodeEnum::Constraint(c) => 1 <= c.contype <= 14,
        NodeEnum::NullTest(t) => 1 <= t.nulltesttype <= 2,
        NodeEnum::FunctionParameter(p) => 1 <= p.mode <= 6,
        _ => true,
    }
}

/// Exhaustiveness: the rule pass succeeds on every documented discriminant
/// value and raises a coverage error exactly on the others, naming the field
/// and the value.
pub proof fn lemma_rule_coverage(n: NodeEnum)
    ensures
        (custom_implied(n) is Ok) <==> covered(n),
        custom_implied(n) matches Err(e) ==> e matches CoverageError::UnknownDiscriminant { field, value }
            && match n {
            NodeEnum::SelectStmt(s) => field == Discriminant::SelectStmtOp && value == s.op,
            NodeEnum::BoolExpr(b) => field == Discriminant::BoolExprOp && value == b.boolop,
            NodeEnum::JoinExpr(j) => field == Discriminant::JoinExprType && value == j.jointype,
            NodeEnum::DefElem(d) => field == Discriminant::DefElemAction && value == d.defaction,
            NodeEnum::AExpr(a) => field == Discriminant::AExprKind && value == a.kind,
            NodeEnum::SqlvalueFunction(s) => field == Discriminant::SqlvalueFunctionOp && value == s.op,
            NodeEnum::SortBy(s) => field == Discriminant::SortByDir && value == s.sortby_dir,
            NodeEnum::AlterTableCmd(c) => field == Discriminant::AlterTableCmdSubtype && value == c.subtype,
            NodeEnum::VariableSetStmt(v) => field == Discriminant::VariableSetStmtKind && value == v.kind,
            NodeEnum::Constraint(c) => field == Discriminant::ConstraintType && value == c.contype,
            NodeEnum::NullTest(t) => field == Discriminant::NullTestType && value == t.nulltesttype,
            NodeEnum::FunctionParameter(p) => field == Discriminant::FunctionParameterMode && value == p.mode,
            _ => false,
        },
{
}

/// A plain `SELECT` with a non-empty `GROUP BY` clause implies `GROUP`
/// immediately followed by `BY`, whatever its other clauses.
pub proof fn lemma_group_by_adjacent(s: SelectStmt)
    requires
        s.op == 1,
        s.group_clause > 0,
    ensures
        select_rule(s) is Ok,
        exists|i: int|
            0 <= i && i + 1 < select_rule(s)->Ok_0.len() && #[trigger] select_rule(s)->Ok_0[i] == kw(Token::GroupP)
                && select_rule(s)->Ok_0[i + 1] == kw(Token::By),
{
    let r = plain_select_rule(s);
    assert(select_rule(s)->Ok_0 == r);
    let n = r.len() as int;
    assert(r[n - 2] == kw(Token::GroupP) && r[n - 1] == kw(Token::By));
    assert(select_rule(s)->Ok_0[n - 2] == kw(Token::GroupP));
}

} // verus!
