//! The library's model of an AST node instance: what the rule table reads
//! of each node type, the values of the node's fields in declared order, and
//! the classifier and generic text-field pass over them.
use vstd::prelude::*;
use crate::property::{TokenProperty, TokenPropertyView, lower_of, spelled};
use crate::registry::{CoverageError, FieldType, FieldDescriptor, KindRegistry, NodeDescriptor, SyntaxKind, entry_names};

verus! {

/// A `SELECT` statement.
#[derive(Clone, Debug)]
pub struct SelectStmt {
    /// The number of entries of the `DISTINCT` clause.
    pub distinct_clause: usize,
    /// The number of rows of a `VALUES` list.
    pub values_lists: usize,
    /// The number of entries of the `FROM` clause.
    pub from_clause: usize,
    /// Whether a `WHERE` condition is present.
    pub where_clause: bool,
    /// The number of entries of the `GROUP BY` clause.
    pub group_clause: usize,
    /// The set operation: 1 none, 2 `UNION`, 3 `INTERSECT`, 4 `EXCEPT`.
    pub op: i32,
    /// Whether `ALL` was given to the set operation.
    pub all: bool,
}

/// A boolean combination of expressions.
#[derive(Clone, Debug)]
pub struct BoolExpr {
    /// The operator: 1 and, 2 or, 3 not.
    pub boolop: i32,
}

/// A join of two relations.
#[derive(Clone, Debug)]
pub struct JoinExpr {
    /// The join type: 1 inner, 2 left, 3 full, 4 right; 5 to 9 are the planner's.
    pub jointype: i32,
}

/// An entry of a target list.
#[derive(Clone, Debug)]
pub struct ResTarget {
    /// The output name given with `AS`, empty if none.
    pub name: String,
}

/// An integer literal.
#[derive(Clone, Debug)]
pub struct Integer {
    /// The value.
    pub ival: i32,
}

/// A generic `name = value` option.
#[derive(Clone, Debug)]
pub struct DefElem {
    /// The action: 1 plain `name = value`, 2 `SET`, 3 `ADD`, 4 `DROP`.
    pub defaction: i32,
}

/// An operator expression.
#[derive(Clone, Debug)]
pub struct AExpr {
    /// The expression kind, 1 to 14, in the grammar's numbering.
    pub kind: i32,
}

/// A window definition.
#[derive(Clone, Debug)]
pub struct WindowDef {
    /// The number of entries of `PARTITION BY`.
    pub partition_clause: usize,
    /// The number of entries of `ORDER BY`.
    pub order_clause: usize,
}

/// A boolean literal.
#[derive(Clone, Debug)]
pub struct Boolean {
    /// Whether the value.
    pub boolval: bool,
}

/// A function call.
#[derive(Clone, Debug)]
pub struct FuncCall {
    /// The parts of the function name: the text of each part that is a string node.
    pub funcname: Vec<Option<String>>,
    /// The number of explicit arguments.
    pub args: usize,
    /// Whether a `FILTER` clause is present.
    pub agg_filter: bool,
    /// Whether an `OVER` window is present.
    pub over: bool,
}

/// A parameterless SQL value function.
#[derive(Clone, Debug)]
pub struct SqlvalueFunction {
    /// The function, 1 to 15, in the grammar's numbering.
    pub op: i32,
}

/// An `ORDER BY` entry.
#[derive(Clone, Debug)]
pub struct SortBy {
    /// The direction: 1 implicit, 2 `ASC`, 3 `DESC`, 4 `USING`.
    pub sortby_dir: i32,
}

/// A constant.
#[derive(Clone, Debug)]
pub struct AConst {
    /// Whether the constant is `NULL`.
    pub isnull: bool,
}

/// One command of an `ALTER TABLE`.
#[derive(Clone, Debug)]
pub struct AlterTableCmd {
    /// The sub-command, 1 to 67, in the grammar's numbering.
    pub subtype: i32,
}

/// A `SET` of a run-time parameter.
#[derive(Clone, Debug)]
pub struct VariableSetStmt {
    /// The form: 1 `SET TO` a value, 2 `SET TO DEFAULT`, 3 `SET FROM CURRENT`, 4 other `SET`s, 5 `RESET`, 6 `RESET ALL`.
    pub kind: i32,
}

/// A `CREATE POLICY` statement.
#[derive(Clone, Debug)]
pub struct CreatePolicyStmt {
    /// The number of roles after `TO`.
    pub roles: usize,
    /// Whether a `USING` condition is present.
    pub qual: bool,
    /// Whether a `WITH CHECK` condition is present.
    pub with_check: bool,
}

/// A column or table constraint.
#[derive(Clone, Debug)]
pub struct Constraint {
    /// The constraint type, 1 to 14, in the grammar's numbering.
    pub contype: i32,
}

/// A `DELETE` statement.
#[derive(Clone, Debug)]
pub struct DeleteStmt {
    /// Whether a `WHERE` condition is present.
    pub where_clause: bool,
    /// The number of entries of the `USING` clause.
    pub using_clause: usize,
}

/// A `CREATE VIEW` statement.
#[derive(Clone, Debug)]
pub struct ViewStmt {
    /// Whether the defining query is present.
    pub query: bool,
    /// Whether `OR REPLACE` was given.
    pub replace: bool,
}

/// A `CREATE TABLE` statement.
#[derive(Clone, Debug)]
pub struct CreateStmt {
    /// The tablespace, empty if none.
    pub tablespacename: String,
    /// The number of storage options.
    pub options: usize,
    /// Whether `IF NOT EXISTS` was given.
    pub if_not_exists: bool,
    /// Whether a partition bound is present.
    pub partbound: bool,
}

/// A `CASE` expression.
#[derive(Clone, Debug)]
pub struct CaseExpr {
    /// Whether an `ELSE` result is present.
    pub defresult: bool,
}

/// An `IS [NOT] NULL` test.
#[derive(Clone, Debug)]
pub struct NullTest {
    /// The test: 1 is null, 2 is not null.
    pub nulltesttype: i32,
}

/// A `CREATE FUNCTION` statement.
#[derive(Clone, Debug)]
pub struct CreateFunctionStmt {
    /// Whether `OR REPLACE` was given.
    pub replace: bool,
    /// Whether a return type is present.
    pub return_type: bool,
}

/// A parameter of a function definition.
#[derive(Clone, Debug)]
pub struct FunctionParameter {
    /// The mode: 1 in, 2 out, 3 inout, 4 variadic, 5 table column, 6 none given.
    pub mode: i32,
    /// Whether a default expression is present.
    pub defexpr: bool,
}

/// The node types that the rule table tells apart, with what it reads of
/// each; every other node type is `Other`, with its name.
#[derive(Clone, Debug)]
pub enum NodeEnum {
    SelectStmt(SelectStmt),
    BoolExpr(BoolExpr),
    JoinExpr(JoinExpr),
    ResTarget(ResTarget),
    Integer(Integer),
    DefElem(DefElem),
    Alias,
    CollateClause,
    AExpr(AExpr),
    WindowDef(WindowDef),
    Boolean(Boolean),
    AStar,
    FuncCall(FuncCall),
    SqlvalueFunction(SqlvalueFunction),
    SortBy(SortBy),
    AConst(AConst),
    AlterTableStmt,
    AlterTableCmd(AlterTableCmd),
    VariableSetStmt(VariableSetStmt),
    CreatePolicyStmt(CreatePolicyStmt),
    CopyStmt,
    RenameStmt,
    Constraint(Constraint),
    PartitionSpec,
    InsertStmt,
    DeleteStmt(DeleteStmt),
    ViewStmt(ViewStmt),
    CreateStmt(CreateStmt),
    PartitionBoundSpec,
    CaseExpr(CaseExpr),
    NullTest(NullTest),
    CreateFunctionStmt(CreateFunctionStmt),
    FunctionParameter(FunctionParameter),
    NamedArgExpr,
    CaseWhen,
    TypeCast,
    Other(String),
}

/// The grammar name of a node's type.
pub open spec fn node_type_name(n: NodeEnum) -> Seq<char> {
    match n {
        NodeEnum::SelectStmt(_) => "SelectStmt"@,
        NodeEnum::BoolExpr(_) => "BoolExpr"@,
        NodeEnum::JoinExpr(_) => "JoinExpr"@,
        NodeEnum::ResTarget(_) => "ResTarget"@,
        NodeEnum::Integer(_) => "Integer"@,
        NodeEnum::DefElem(_) => "DefElem"@,
        NodeEnum::Alias => "Alias"@,
        NodeEnum::CollateClause => "CollateClause"@,
        NodeEnum::AExpr(_) => "AExpr"@,
        NodeEnum::WindowDef(_) => "WindowDef"@,
        NodeEnum::Boolean(_) => "Boolean"@,
        NodeEnum::AStar => "AStar"@,
        NodeEnum::FuncCall(_) => "FuncCall"@,
        NodeEnum::SqlvalueFunction(_) => "SqlvalueFunction"@,
        NodeEnum::SortBy(_) => "SortBy"@,
        NodeEnum::AConst(_) => "AConst"@,
        NodeEnum::AlterTableStmt => "AlterTableStmt"@,
        NodeEnum::AlterTableCmd(_) => "AlterTableCmd"@,
        NodeEnum::VariableSetStmt(_) => "VariableSetStmt"@,
        NodeEnum::CreatePolicyStmt(_) => "CreatePolicyStmt"@,
        NodeEnum::CopyStmt => "CopyStmt"@,
        NodeEnum::RenameStmt => "RenameStmt"@,
        NodeEnum::Constraint(_) => "Constraint"@,
        NodeEnum::PartitionSpec => "PartitionSpec"@,
        NodeEnum::InsertStmt => "InsertStmt"@,
        NodeEnum::DeleteStmt(_) => "DeleteStmt"@,
        NodeEnum::ViewStmt(_) => "ViewStmt"@,
        NodeEnum::CreateStmt(_) => "CreateStmt"@,
        NodeEnum::PartitionBoundSpec => "PartitionBoundSpec"@,
        NodeEnum::CaseExpr(_) => "CaseExpr"@,
        NodeEnum::NullTest(_) => "NullTest"@,
        NodeEnum::CreateFunctionStmt(_) => "CreateFunctionStmt"@,
        NodeEnum::FunctionParameter(_) => "FunctionParameter"@,
        NodeEnum::NamedArgExpr => "NamedArgExpr"@,
        NodeEnum::CaseWhen => "CaseWhen"@,
        NodeEnum::TypeCast => "TypeCast"@,
        NodeEnum::Other(s) => s@,
    }
}

impl NodeEnum {
    /// The grammar name of the node's type.
    pub fn node_type_name(&self) -> (r: String)
        ensures
            r@ == node_type_name(*self),
    {
        match self {
            NodeEnum::SelectStmt(_) => "SelectStmt".to_owned(),
            NodeEnum::BoolExpr(_) => "BoolExpr".to_owned(),
            NodeEnum::JoinExpr(_) => "JoinExpr".to_owned(),
            NodeEnum::ResTarget(_) => "ResTarget".to_owned(),
            NodeEnum::Integer(_) => "Integer".to_owned(),
            NodeEnum::DefElem(_) => "DefElem".to_owned(),
            NodeEnum::Alias => "Alias".to_owned(),
            NodeEnum::CollateClause => "CollateClause".to_owned(),
            NodeEnum::AExpr(_) => "AExpr".to_owned(),
            NodeEnum::WindowDef(_) => "WindowDef".to_owned(),
            NodeEnum::Boolean(_) => "Boolean".to_owned(),
            NodeEnum::AStar => "AStar".to_owned(),
            NodeEnum::FuncCall(_) => "FuncCall".to_owned(),
            NodeEnum::SqlvalueFunction(_) => "SqlvalueFunction".to_owned(),
            NodeEnum::SortBy(_) => "SortBy".to_owned(),
            NodeEnum::AConst(_) => "AConst".to_owned(),
            NodeEnum::AlterTableStmt => "AlterTableStmt".to_owned(),
            NodeEnum::AlterTableCmd(_) => "AlterTableCmd".to_owned(),
            NodeEnum::VariableSetStmt(_) => "VariableSetStmt".to_owned(),
            NodeEnum::CreatePolicyStmt(_) => "CreatePolicyStmt".to_owned(),
            NodeEnum::CopyStmt => "CopyStmt".to_owned(),
            NodeEnum::RenameStmt => "RenameStmt".to_owned(),
            NodeEnum::Constraint(_) => "Constraint".to_owned(),
            NodeEnum::PartitionSpec => "PartitionSpec".to_owned(),
            NodeEnum::InsertStmt => "InsertStmt".to_owned(),
            NodeEnum::DeleteStmt(_) => "DeleteStmt".to_owned(),
            NodeEnum::ViewStmt(_) => "ViewStmt".to_owned(),
            NodeEnum::CreateStmt(_) => "CreateStmt".to_owned(),
            NodeEnum::PartitionBoundSpec => "PartitionBoundSpec".to_owned(),
            NodeEnum::CaseExpr(_) => "CaseExpr".to_owned(),
            NodeEnum::NullTest(_) => "NullTest".to_owned(),
            NodeEnum::CreateFunctionStmt(_) => "CreateFunctionStmt".to_owned(),
            NodeEnum::FunctionParameter(_) => "FunctionParameter".to_owned(),
            NodeEnum::NamedArgExpr => "NamedArgExpr".to_owned(),
            NodeEnum::CaseWhen => "CaseWhen".to_owned(),
            NodeEnum::TypeCast => "TypeCast".to_owned(),
            NodeEnum::Other(s) => s.clone(),
        }
    }
}

/// The value of one field of a node instance.
#[derive(Clone, Debug)]
pub enum FieldValue {
    Text(String),
    Int(i64),
    Bool(bool),
    /// A sub-node, a list, or a value that no rule reads as text.
    Nested,
}

/// One AST node instance: what the rule table reads of it, and the values of
/// its fields in the order that its type's descriptor declares them.
#[derive(Clone, Debug)]
pub struct AstNode {
    pub node: NodeEnum,
    pub fields: Vec<FieldValue>,
}

/// The kind of a node instance: the registered kind named as its type.
pub fn kind_of_node(reg: &KindRegistry, node: &AstNode) -> (r: Result<SyntaxKind, CoverageError>)
    requires
        reg.wf(),
    ensures
        match r {
            Ok(k) => k.code < reg@.len() && reg@[k.code as int].name == node_type_name(node.node),
            Err(e) => {
                &&& !entry_names(reg@).contains(node_type_name(node.node))
                &&& e matches CoverageError::UnknownNode { name } && name@ == node_type_name(node.node)
            },
        },
{
    let name = node.node.node_type_name();
    match reg.kind_of(&name) {
        Some(k) => Ok(k),
        None => Err(CoverageError::UnknownNode { name }),
    }
}

/// A field that the generic pass reads: a single string.
pub open spec fn is_text_field(f: FieldDescriptor) -> bool {
    f.field_type == FieldType::String && !f.repeated
}

/// The positions of the single string fields, in declared order.
pub open spec fn text_field_indices(fields: Seq<FieldDescriptor>) -> Seq<int>
    decreases fields.len(),
{
    if fields.len() == 0 {
        Seq::empty()
    } else {
        let rest = text_field_indices(fields.drop_last());
        if is_text_field(fields.last()) {
            rest.push(fields.len() - 1)
        } else {
            rest
        }
    }
}

/// The non-empty text at position `i`, if that is what the node holds there.
pub open spec fn text_value(values: Seq<FieldValue>, i: int) -> Option<Seq<char>> {
    if 0 <= i < values.len() {
        match values[i] {
            FieldValue::Text(s) => if s@.len() > 0 {
                Some(s@)
            } else {
                None
            },
            _ => None,
        }
    } else {
        None
    }
}

/// The properties of the generic pass: one lower-cased spelling for each
/// listed position that holds non-empty text, in order.
pub open spec fn generic_props(idx: Seq<int>, values: Seq<FieldValue>) -> Seq<TokenPropertyView>
    decreases idx.len(),
{
    if idx.len() == 0 {
        Seq::empty()
    } else {
        let rest = generic_props(idx.drop_last(), values);
        match text_value(values, idx.last()) {
            Some(s) => rest.push(spelled(lower_of(s))),
            None => rest,
        }
    }
}

pub open spec fn props_view(s: Seq<TokenProperty>) -> Seq<TokenPropertyView> {
    s.map_values(|p: TokenProperty| p@)
}

/// The positions of the fields that the generic pass reads: the string fields
/// that are not repeated.
pub fn string_property_handlers(node: &NodeDescriptor) -> (r: Vec<usize>)
    ensures
        r@.map_values(|i: usize| i as int) == text_field_indices(node.fields@),
{
    let mut r: Vec<usize> = Vec::new();
    let mut i: usize = 0;
    while i < node.fields.len()
        invariant
            i <= node.fields@.len(),
            r@.map_values(|j: usize| j as int) =~= text_field_indices(node.fields@.take(i as int)),
        decreases node.fields@.len() - i,
    {
        let ghost before = r@;
        let f = &node.fields[i];
        if f.field_type == FieldType::String && !f.repeated {
            r.push(i);
        }
        proof {
            assert(node.fields@.take(i + 1).drop_last() =~= node.fields@.take(i as int));
            assert(before.push(i).map_values(|j: usize| j as int) =~= before.map_values(|j: usize| j as int).push(i as int));
        }
        i += 1;
    }
    assert(node.fields@.take(i as int) =~= node.fields@);
    r
}

/// The generic pass: one property for each single string field of the
/// descriptor whose value in the node is non-empty text, in declared order.
pub fn string_properties(desc: &NodeDescriptor, values: &Vec<FieldValue>) -> (r: Vec<TokenProperty>)
    ensures
        props_view(r@) == generic_props(text_field_indices(desc.fields@), values@),
        forall|i: int| 0 <= i < r@.len() ==> (#[trigger] r@[i]).wf(),
{
    let idx = string_property_handlers(desc);
    let ghost iv = idx@.map_values(|i: usize| i as int);
    let mut r: Vec<TokenProperty> = Vec::new();
    let mut k: usize = 0;
    while k < idx.len()
        invariant
            k <= idx@.len(),
            iv == idx@.map_values(|i: usize| i as int),
            props_view(r@) =~= generic_props(iv.take(k as int), values@),
            forall|i: int| 0 <= i < r@.len() ==> (#[trigger] r@[i]).wf(),
        decreases idx@.len() - k,
    {
        let ghost before = r@;
        let i = idx[k];
        assert(iv.take(k + 1).drop_last() =~= iv.take(k as int));
        assert(iv.take(k + 1).last() == i as int);
        if i < values.len() {
            match &values[i] {
                FieldValue::Text(s) => {
                    if !s.as_str().is_empty() {
                        let t = s.clone();
                        match TokenProperty::from_text(t) {
                            Ok(p) => {
                                r.push(p);
                                assert(props_view(r@) =~= props_view(before).push(p@));
                            },
                            Err(_) => {},
                        }
                    }
                },
                _ => {},
            }
        }
        k += 1;
    }
    assert(iv.take(k as int) =~= iv);
    r
}

} // verus!
