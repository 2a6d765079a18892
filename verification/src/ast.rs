//! The abstract syntax tree that resolution produces and generation consumes.
//!
//! The tree owns all of its data: no node refers back into the graph model.
//! Each type has a mathematical view, and the resolver's and generator's
//! contracts are stated over those views.

use vstd::prelude::*;

use crate::error::CompileError;
use crate::strutil::str_eq;

verus! {

/// A literal value: the source format is loosely typed, numbers and strings
/// are both representable wherever a value is expected.
#[derive(Debug)]
pub enum Value {
    Number(i64),
    Str(String),
}

/// An operator of the source format's expression blocks.
#[derive(Clone, Copy, PartialEq, Eq, Structural, Debug)]
pub enum OpType {
    Add,
    Subtract,
    Multiply,
    Divide,
    Equals,
    GreaterThan,
    LessThan,
    And,
    Or,
    Not,
    Random,
    Modulo,
    Length,
    LetterOf,
    Join,
}

/// An expression node.
#[derive(Debug)]
pub enum Expr {
    BinOp { op: OpType, lhs: Box<Expr>, rhs: Box<Expr> },
    SingleOp { op: OpType, expr: Box<Expr> },
    LetterOf { val: Box<Expr>, index: Box<Expr> },
    ItemOf { list_name: String, index: Box<Expr> },
    Val(Value),
    Var(String),
    Param(String),
}

/// A statement node with no content.
#[derive(Debug)]
pub struct EmptyStmt {}

/// An ordered statement body.
#[derive(Debug)]
pub struct BlockStmt {
    pub stmts: Vec<Stmt>,
}

/// A user-defined procedure's prototype: the mangled call name, the ordered
/// parameter names, and the mapping from parameter identifier to name.
#[derive(Debug)]
pub struct ProcedurePrototype {
    pub params: Vec<(String, String)>,
    pub param_order: Vec<String>,
    pub name: String,
}

/// A statement node.
#[derive(Debug)]
pub enum Stmt {
    WhenFlagClicked(BlockStmt),
    SetVariable { name: String, id: String, val: Expr },
    AddToList { name: String, id: String, val: Expr },
    DeleteAllOfList { name: String },
    Repeat { times: Expr, block: BlockStmt },
    RepeatUntil { condition: Expr, block: BlockStmt },
    If { condition: Expr, block: BlockStmt },
    IfElse { condition: Expr, if_block: BlockStmt, else_block: BlockStmt },
    ChangeBy { var_name: String, inc: Expr },
    ProcedureCall { proc: String, params: Vec<Expr> },
    ProcedureDefinition { prototype: ProcedurePrototype, body: BlockStmt },
    Empty,
}

/// A fully resolved program: the entry body, the flat global variable and
/// list declarations, and the ordered procedure definitions.
#[derive(Debug)]
pub struct Project {
    pub body: Stmt,
    pub variables: Vec<String>,
    pub lists: Vec<String>,
    pub procedures: Vec<Stmt>,
}

/// Mathematical view of `Value`.
#[verifier::ext_equal]
pub enum ValueV {
    Number(i64),
    Str(Seq<char>),
}

/// Mathematical view of `Expr`.
#[verifier::ext_equal]
pub enum ExprV {
    BinOp { op: OpType, lhs: Box<ExprV>, rhs: Box<ExprV> },
    SingleOp { op: OpType, expr: Box<ExprV> },
    LetterOf { val: Box<ExprV>, index: Box<ExprV> },
    ItemOf { list_name: Seq<char>, index: Box<ExprV> },
    Val(ValueV),
    Var(Seq<char>),
    Param(Seq<char>),
}

/// Mathematical view of `BlockStmt`.
#[verifier::ext_equal]
pub struct BlockStmtV {
    pub stmts: Seq<StmtV>,
}

/// Mathematical view of `ProcedurePrototype`.
#[verifier::ext_equal]
pub struct PrototypeV {
    pub params: Seq<(Seq<char>, Seq<char>)>,
    pub param_order: Seq<Seq<char>>,
    pub name: Seq<char>,
}

/// Mathematical view of `Stmt`.
#[verifier::ext_equal]
pub enum StmtV {
    WhenFlagClicked(BlockStmtV),
    SetVariable { name: Seq<char>, id: Seq<char>, val: ExprV },
    AddToList { name: Seq<char>, id: Seq<char>, val: ExprV },
    DeleteAllOfList { name: Seq<char> },
    Repeat { times: ExprV, block: BlockStmtV },
    RepeatUntil { condition: ExprV, block: BlockStmtV },
    If { condition: ExprV, block: BlockStmtV },
    IfElse { condition: ExprV, if_block: BlockStmtV, else_block: BlockStmtV },
    ChangeBy { var_name: Seq<char>, inc: ExprV },
    ProcedureCall { proc: Seq<char>, params: Seq<ExprV> },
    ProcedureDefinition { prototype: PrototypeV, body: BlockStmtV },
    Empty,
}

/// Mathematical view of `Project`.
#[verifier::ext_equal]
pub struct ProjectV {
    pub body: StmtV,
    pub variables: Seq<Seq<char>>,
    pub lists: Seq<Seq<char>>,
    pub procedures: Seq<StmtV>,
}

impl DeepView for Value {
    type V = ValueV;

    open spec fn deep_view(&self) -> ValueV {
        match self {
            Value::Number(x) => ValueV::Number(*x),
            Value::Str(s) => ValueV::Str(s@),
        }
    }
}

impl DeepView for OpType {
    type V = OpType;

    open spec fn deep_view(&self) -> OpType {
        *self
    }
}

/// The view of an expression tree.
pub open spec fn expr_view(e: Expr) -> ExprV
    decreases e,
{
    match e {
        Expr::BinOp { op, lhs, rhs } => ExprV::BinOp {
            op,
            lhs: Box::new(expr_view(*lhs)),
            rhs: Box::new(expr_view(*rhs)),
        },
        Expr::SingleOp { op, expr } => ExprV::SingleOp { op, expr: Box::new(expr_view(*expr)) },
        Expr::LetterOf { val, index } => ExprV::LetterOf {
            val: Box::new(expr_view(*val)),
            index: Box::new(expr_view(*index)),
        },
        Expr::ItemOf { list_name, index } => ExprV::ItemOf {
            list_name: list_name@,
            index: Box::new(expr_view(*index)),
        },
        Expr::Val(v) => ExprV::Val(v.deep_view()),
        Expr::Var(s) => ExprV::Var(s@),
        Expr::Param(s) => ExprV::Param(s@),
    }
}

impl DeepView for Expr {
    type V = ExprV;

    open spec fn deep_view(&self) -> ExprV {
        expr_view(*self)
    }
}

impl DeepView for ProcedurePrototype {
    type V = PrototypeV;

    open spec fn deep_view(&self) -> PrototypeV {
        PrototypeV {
            params: self.params.deep_view(),
            param_order: self.param_order.deep_view(),
            name: self.name@,
        }
    }
}

/// The view of a statement tree.
pub open spec fn stmt_view(s: Stmt) -> StmtV
    decreases s,
{
    match s {
        Stmt::WhenFlagClicked(b) => StmtV::WhenFlagClicked(block_stmt_view(b)),
        Stmt::SetVariable { name, id, val } => StmtV::SetVariable {
            name: name@,
            id: id@,
            val: expr_view(val),
        },
        Stmt::AddToList { name, id, val } => StmtV::AddToList {
            name: name@,
            id: id@,
            val: expr_view(val),
        },
        Stmt::DeleteAllOfList { name } => StmtV::DeleteAllOfList { name: name@ },
        Stmt::Repeat { times, block } => StmtV::Repeat {
            times: expr_view(times),
            block: block_stmt_view(block),
        },
        Stmt::RepeatUntil { condition, block } => StmtV::RepeatUntil {
            condition: expr_view(condition),
            block: block_stmt_view(block),
        },
        Stmt::If { condition, block } => StmtV::If {
            condition: expr_view(condition),
            block: block_stmt_view(block),
        },
        Stmt::IfElse { condition, if_block, else_block } => StmtV::IfElse {
            condition: expr_view(condition),
            if_block: block_stmt_view(if_block),
            else_block: block_stmt_view(else_block),
        },
        Stmt::ChangeBy { var_name, inc } => StmtV::ChangeBy {
            var_name: var_name@,
            inc: expr_view(inc),
        },
        Stmt::ProcedureCall { proc, params } => StmtV::ProcedureCall {
            proc: proc@,
            params: exprs_view(params@),
        },
        Stmt::ProcedureDefinition { prototype, body } => StmtV::ProcedureDefinition {
            prototype: prototype.deep_view(),
            body: block_stmt_view(body),
        },
        Stmt::Empty => StmtV::Empty,
    }
}

/// The views of a sequence of expressions, element-wise.
pub open spec fn exprs_view(es: Seq<Expr>) -> Seq<ExprV>
    decreases es,
{
    if es.len() == 0 {
        Seq::empty()
    } else {
        seq![expr_view(es[0])] + exprs_view(es.drop_first())
    }
}

/// The views of a sequence of statements, element-wise.
pub open spec fn stmts_view(ss: Seq<Stmt>) -> Seq<StmtV>
    decreases ss,
{
    if ss.len() == 0 {
        Seq::empty()
    } else {
        seq![stmt_view(ss[0])] + stmts_view(ss.drop_first())
    }
}

/// The view of a statement body.
pub open spec fn block_stmt_view(b: BlockStmt) -> BlockStmtV
    decreases b,
{
    BlockStmtV { stmts: stmts_view(b.stmts@) }
}

/// `exprs_view` is the element-wise image of `expr_view`.
pub proof fn lemma_exprs_view(es: Seq<Expr>)
    ensures
        exprs_view(es).len() == es.len(),
        forall|i: int| 0 <= i < es.len() ==> exprs_view(es)[i] == expr_view(es[i]),
    decreases es.len(),
{
    if es.len() > 0 {
        lemma_exprs_view(es.drop_first());
    }
}

/// `stmts_view` is the element-wise image of `stmt_view`.
pub proof fn lemma_stmts_view(ss: Seq<Stmt>)
    ensures
        stmts_view(ss).len() == ss.len(),
        forall|i: int| 0 <= i < ss.len() ==> stmts_view(ss)[i] == stmt_view(ss[i]),
    decreases ss.len(),
{
    if ss.len() > 0 {
        lemma_stmts_view(ss.drop_first());
    }
}

/// A vector of expressions views element-wise.
pub proof fn lemma_exprs_view_is_dv(v: Vec<Expr>)
    ensures
        exprs_view(v@) == v.deep_view(),
{
    lemma_exprs_view(v@);
    assert(exprs_view(v@) =~= v.deep_view());
}

/// A vector of statements views element-wise.
pub proof fn lemma_stmts_view_is_dv(v: Vec<Stmt>)
    ensures
        stmts_view(v@) == v.deep_view(),
{
    lemma_stmts_view(v@);
    assert(stmts_view(v@) =~= v.deep_view());
}

impl DeepView for Stmt {
    type V = StmtV;

    open spec fn deep_view(&self) -> StmtV {
        stmt_view(*self)
    }
}

impl DeepView for BlockStmt {
    type V = BlockStmtV;

    open spec fn deep_view(&self) -> BlockStmtV {
        block_stmt_view(*self)
    }
}

impl DeepView for Project {
    type V = ProjectV;

    open spec fn deep_view(&self) -> ProjectV {
        ProjectV {
            body: stmt_view(self.body),
            variables: self.variables.deep_view(),
            lists: self.lists.deep_view(),
            procedures: self.procedures.deep_view(),
        }
    }
}

/// The operator named by an operator opcode's remainder, if the operator is
/// known.
pub open spec fn spec_op_from_str(s: Seq<char>) -> Option<OpType> {
    if s == "add"@ {
        Some(OpType::Add)
    } else if s == "subtract"@ {
        Some(OpType::Subtract)
    } else if s == "multiply"@ {
        Some(OpType::Multiply)
    } else if s == "divide"@ {
        Some(OpType::Divide)
    } else if s == "equals"@ {
        Some(OpType::Equals)
    } else if s == "gt"@ {
        Some(OpType::GreaterThan)
    } else if s == "lt"@ {
        Some(OpType::LessThan)
    } else if s == "and"@ {
        Some(OpType::And)
    } else if s == "or"@ {
        Some(OpType::Or)
    } else if s == "not"@ {
        Some(OpType::Not)
    } else if s == "random"@ {
        Some(OpType::Random)
    } else if s == "mod"@ {
        Some(OpType::Modulo)
    } else if s == "length"@ {
        Some(OpType::Length)
    } else if s == "letter_of"@ {
        Some(OpType::LetterOf)
    } else if s == "join"@ {
        Some(OpType::Join)
    } else {
        None
    }
}

/// The source-format name of an operator, as it appears after the opcode
/// family prefix.
pub open spec fn spec_op_name(op: OpType) -> Seq<char> {
    match op {
        OpType::Add => "add"@,
        OpType::Subtract => "subtract"@,
        OpType::Multiply => "multiply"@,
        OpType::Divide => "divide"@,
        OpType::Equals => "equals"@,
        OpType::GreaterThan => "gt"@,
        OpType::LessThan => "lt"@,
        OpType::And => "and"@,
        OpType::Or => "or"@,
        OpType::Not => "not"@,
        OpType::Random => "random"@,
        OpType::Modulo => "mod"@,
        OpType::Length => "length"@,
        OpType::LetterOf => "letter_of"@,
        OpType::Join => "join"@,
    }
}

impl OpType {
    /// Parses the operator name that follows the opcode family prefix; an
    /// unknown name is an unsupported construct.
    pub fn from_str(s: &str) -> (r: Result<OpType, CompileError>)
        ensures
            crate::error::rv(r) == match spec_op_from_str(s@) {
                Some(op) => Ok::<OpType, crate::error::ErrorV>(op),
                None => Err(crate::error::ErrorV::Unsupported(s@)),
            },
    {
        if str_eq(s, "add") {
            Ok(OpType::Add)
        } else if str_eq(s, "subtract") {
            Ok(OpType::Subtract)
        } else if str_eq(s, "multiply") {
            Ok(OpType::Multiply)
        } else if str_eq(s, "divide") {
            Ok(OpType::Divide)
        } else if str_eq(s, "equals") {
            Ok(OpType::Equals)
        } else if str_eq(s, "gt") {
            Ok(OpType::GreaterThan)
        } else if str_eq(s, "lt") {
            Ok(OpType::LessThan)
        } else if str_eq(s, "and") {
            Ok(OpType::And)
        } else if str_eq(s, "or") {
            Ok(OpType::Or)
        } else if str_eq(s, "not") {
            Ok(OpType::Not)
        } else if str_eq(s, "random") {
            Ok(OpType::Random)
        } else if str_eq(s, "mod") {
            Ok(OpType::Modulo)
        } else if str_eq(s, "length") {
            Ok(OpType::Length)
        } else if str_eq(s, "letter_of") {
            Ok(OpType::LetterOf)
        } else if str_eq(s, "join") {
            Ok(OpType::Join)
        } else {
            Err(CompileError::Unsupported(s.to_owned()))
        }
    }

    /// The operator's source-format name.
    pub fn name(&self) -> (r: &'static str)
        ensures
            r@ == spec_op_name(*self),
    {
        match self {
            OpType::Add => "add",
            OpType::Subtract => "subtract",
            OpType::Multiply => "multiply",
            OpType::Divide => "divide",
            OpType::Equals => "equals",
            OpType::GreaterThan => "gt",
            OpType::LessThan => "lt",
            OpType::And => "and",
            OpType::Or => "or",
            OpType::Not => "not",
            OpType::Random => "random",
            OpType::Modulo => "mod",
            OpType::Length => "length",
            OpType::LetterOf => "letter_of",
            OpType::Join => "join",
        }
    }
}

} // verus!
