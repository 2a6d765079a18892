//! The resolver: converts blocks of the graph model into owned syntax trees.
//!
//! Expression resolution dispatches on the opcode family of a referenced
//! block; statement resolution follows `next` chains and nested substack
//! references. The graph is not guaranteed acyclic, so every step that moves
//! to another block consumes one unit of fuel; a cyclic graph exhausts the
//! fuel and fails with a depth error, and a fuel of one more than the number
//! of blocks in the file is enough for every acyclic graph. Each executable
//! function returns exactly what its `spec` twin denotes on the views of its
//! arguments.

use vstd::prelude::*;

use crate::ast::Expr;
use crate::ast::ExprV;
use crate::ast::OpType;
use crate::ast::Value;
use crate::ast::ValueV;
use crate::ast::Stmt;
use crate::ast::StmtV;
use crate::ast::BlockStmt;
use crate::ast::BlockStmtV;
use crate::ast::ProcedurePrototype;
use crate::ast::PrototypeV;
use crate::ast::spec_op_from_str;
use crate::error::CompileError;
use crate::error::ErrorV;
use crate::error::rv;
use crate::model::BlockV;
use crate::model::FileV;
use crate::model::ScratchBlock;
use crate::model::ScratchFile;
use crate::model::ScratchTypes;
use crate::model::ScratchValue;
use crate::model::ScratchValueData;
use crate::model::ScratchValueDataV;
use crate::model::ScratchValueV;
use crate::model::field_strings;
use crate::model::get_field;
use crate::model::get_input_block_id;
use crate::model::get_input_value;
use crate::model::get_mutation;
use crate::model::input_block_id;
use crate::model::input_value;
use crate::model::lemma_vec_dv;
use crate::model::lookup_block;
use crate::model::mutation_value;
use crate::model::spec_lookup_block;
use crate::mutation::bind_parameters;
use crate::mutation::json_string_array_of;
use crate::mutation::parse_string_array;
use crate::mutation::spec_bind_parameters;
use crate::strutil::mangle;
use crate::strutil::opcode_split;
use crate::strutil::spec_mangle;
use crate::strutil::split_opcode;
use crate::strutil::str_eq;

verus! {

/// What resolving a tagged value denotes: literals map to literal expression
/// nodes, a variable reference maps to a variable node, and a block reference
/// resolves the referenced block as an expression, spending one unit of fuel.
pub open spec fn spec_scratch_val_to_expr(
    f: FileV,
    val: ScratchValueV,
    tgt: usize,
    fuel: nat,
) -> Result<ExprV, ErrorV>
    decreases fuel, 0int, 0int,
{
    match val.value_type {
        ScratchTypes::Number | ScratchTypes::Str => match val.data {
            ScratchValueDataV::Int(x) => Ok(ExprV::Val(ValueV::Number(x))),
            ScratchValueDataV::Str(s) => Ok(ExprV::Val(ValueV::Str(s))),
            _ => Err(ErrorV::Malformed("value"@)),
        },
        ScratchTypes::BlockCall => match val.data {
            ScratchValueDataV::BlockCall(id) => match spec_lookup_block(f, tgt, id) {
                Some(nb) => if fuel == 0 {
                    Err(ErrorV::Depth)
                } else {
                    spec_expr_from_block(f, nb, (fuel - 1) as nat)
                },
                None => Err(ErrorV::Malformed(id)),
            },
            _ => Err(ErrorV::Malformed("value"@)),
        },
        ScratchTypes::Variable => match val.data {
            ScratchValueDataV::Variable(x) => Ok(ExprV::Var(x)),
            _ => Err(ErrorV::Malformed("value"@)),
        },
    }
}

/// What resolving the named input slot denotes: a missing slot is malformed
/// input, a present one resolves its value in the block's own target.
pub open spec fn spec_resolve_input(f: FileV, b: BlockV, slot: Seq<char>, fuel: nat) -> Result<
    ExprV,
    ErrorV,
>
    decreases fuel, 1int, 0int,
{
    match input_value(b, slot) {
        Some(v) => spec_scratch_val_to_expr(f, v, b.target, fuel),
        None => Err(ErrorV::Malformed(slot)),
    }
}

/// What a binary operator block denotes: both named operand slots resolved,
/// left before right, under the operator.
pub open spec fn spec_bin_op(
    f: FileV,
    b: BlockV,
    op: Seq<char>,
    s1: Seq<char>,
    s2: Seq<char>,
    fuel: nat,
) -> Result<ExprV, ErrorV>
    decreases fuel, 1int, 1int,
{
    match spec_op_from_str(op) {
        Some(o) => match spec_resolve_input(f, b, s1, fuel) {
            Ok(l) => match spec_resolve_input(f, b, s2, fuel) {
                Ok(r) => Ok(ExprV::BinOp { op: o, lhs: Box::new(l), rhs: Box::new(r) }),
                Err(e) => Err(e),
            },
            Err(e) => Err(e),
        },
        None => Err(ErrorV::Unsupported(op)),
    }
}

/// What an operator-family block denotes. The operand slot names vary by
/// operator family and are part of the source format: arithmetic reads
/// `NUM1`/`NUM2`, string join reads `STRING1`/`STRING2`, comparisons and
/// boolean operators read `OPERAND1`/`OPERAND2`, `not` reads `OPERAND`,
/// `length` reads its single positional slot, and `letter_of` reads `STRING`
/// and a one-based `LETTER` index (index conversion is the generator's job).
pub open spec fn spec_expr_from_operator(f: FileV, b: BlockV, op: Seq<char>, fuel: nat) -> Result<
    ExprV,
    ErrorV,
>
    decreases fuel, 2int, 0int,
{
    if op == "add"@ || op == "subtract"@ || op == "multiply"@ || op == "divide"@ || op
        == "random"@ || op == "mod"@ {
        spec_bin_op(f, b, op, "NUM1"@, "NUM2"@, fuel)
    } else if op == "join"@ {
        spec_bin_op(f, b, op, "STRING1"@, "STRING2"@, fuel)
    } else if op == "gt"@ || op == "lt"@ || op == "equals"@ || op == "and"@ || op == "or"@ {
        spec_bin_op(f, b, op, "OPERAND1"@, "OPERAND2"@, fuel)
    } else if op == "not"@ {
        match spec_resolve_input(f, b, "OPERAND"@, fuel) {
            Ok(e) => Ok(ExprV::SingleOp { op: OpType::Not, expr: Box::new(e) }),
            Err(e) => Err(e),
        }
    } else if op == "length"@ {
        if b.inputs.len() == 0 {
            Err(ErrorV::Malformed("length operand"@))
        } else {
            match spec_scratch_val_to_expr(f, b.inputs[0].1.value, b.target, fuel) {
                Ok(e) => Ok(ExprV::SingleOp { op: OpType::Length, expr: Box::new(e) }),
                Err(e) => Err(e),
            }
        }
    } else if op == "letter_of"@ {
        match spec_resolve_input(f, b, "STRING"@, fuel) {
            Ok(v) => match spec_resolve_input(f, b, "LETTER"@, fuel) {
                Ok(ix) => Ok(ExprV::LetterOf { val: Box::new(v), index: Box::new(ix) }),
                Err(e) => Err(e),
            },
            Err(e) => Err(e),
        }
    } else {
        Err(ErrorV::Unsupported(op))
    }
}

/// What a data-family block denotes in expression position: only list-index
/// access is recognized; the one-based index is kept as resolved.
pub open spec fn spec_expr_from_data(f: FileV, b: BlockV, op: Seq<char>, fuel: nat) -> Result<
    ExprV,
    ErrorV,
>
    decreases fuel, 2int, 0int,
{
    if op == "itemoflist"@ {
        match field_strings(b, "LIST"@) {
            Some(fs) => if fs.len() < 1 {
                Err(ErrorV::Malformed("LIST"@))
            } else {
                match spec_resolve_input(f, b, "INDEX"@, fuel) {
                    Ok(ix) => Ok(ExprV::ItemOf { list_name: fs[0], index: Box::new(ix) }),
                    Err(e) => Err(e),
                }
            },
            None => Err(ErrorV::Malformed("LIST"@)),
        }
    } else {
        Err(ErrorV::Unsupported(b.opcode))
    }
}

/// What a block denotes in expression position: dispatch on the opcode's
/// family. `operator` and `data` families have their own rules; an
/// `argument` block is a procedure-parameter reference named by its `VALUE`
/// field; any other family in expression position, and an opcode with no
/// family separator, is unrecognized input and malformed.
pub open spec fn spec_expr_from_block(f: FileV, b: BlockV, fuel: nat) -> Result<ExprV, ErrorV>
    decreases fuel, 3int, 0int,
{
    match opcode_split(b.opcode) {
        Some(p) => if p.0 == "operator"@ {
            spec_expr_from_operator(f, b, p.1, fuel)
        } else if p.0 == "data"@ {
            spec_expr_from_data(f, b, p.1, fuel)
        } else if p.0 == "argument"@ {
            match field_strings(b, "VALUE"@) {
                Some(fs) => if fs.len() < 1 {
                    Err(ErrorV::Malformed("VALUE"@))
                } else {
                    Ok(ExprV::Param(fs[0]))
                },
                None => Err(ErrorV::Malformed("VALUE"@)),
            }
        } else {
            Err(ErrorV::Malformed(b.opcode))
        },
        None => Err(ErrorV::Malformed(b.opcode)),
    }
}

/// Resolves a tagged value into an expression.
pub fn scratch_val_to_expr(
    f: &ScratchFile,
    val: &ScratchValue,
    tgt: usize,
    fuel: u64,
) -> (r: Result<Expr, CompileError>)
    ensures
        rv(r) == spec_scratch_val_to_expr(f.deep_view(), val.deep_view(), tgt, fuel as nat),
    decreases fuel, 0int, 0int,
{
    match val.value_type {
        ScratchTypes::Number | ScratchTypes::Str => match &val.data {
            ScratchValueData::Int(x) => Ok(Expr::Val(Value::Number(*x))),
            ScratchValueData::Str(s) => Ok(Expr::Val(Value::Str(s.clone()))),
            _ => Err(CompileError::Malformed("value".to_owned())),
        },
        ScratchTypes::BlockCall => match &val.data {
            ScratchValueData::BlockCall(id) => match lookup_block(f, tgt, id.as_str()) {
                Some(nb) => if fuel == 0 {
                    Err(CompileError::Depth)
                } else {
                    expr_from_block(f, nb, fuel - 1)
                },
                None => Err(CompileError::Malformed(id.clone())),
            },
            _ => Err(CompileError::Malformed("value".to_owned())),
        },
        ScratchTypes::Variable => match &val.data {
            ScratchValueData::Variable(x) => Ok(Expr::Var(x.clone())),
            _ => Err(CompileError::Malformed("value".to_owned())),
        },
    }
}

/// Resolves the named input slot of a block into an expression.
pub fn resolve_input(f: &ScratchFile, b: &ScratchBlock, slot: &str, fuel: u64) -> (r: Result<
    Expr,
    CompileError,
>)
    ensures
        rv(r) == spec_resolve_input(f.deep_view(), b.deep_view(), slot@, fuel as nat),
    decreases fuel, 1int, 0int,
{
    match get_input_value(b, slot) {
        Some(v) => scratch_val_to_expr(f, v, b.target, fuel),
        None => Err(CompileError::Malformed(slot.to_owned())),
    }
}

fn bin_op_expr(
    f: &ScratchFile,
    b: &ScratchBlock,
    op: &str,
    s1: &str,
    s2: &str,
    fuel: u64,
) -> (r: Result<Expr, CompileError>)
    ensures
        rv(r) == spec_bin_op(f.deep_view(), b.deep_view(), op@, s1@, s2@, fuel as nat),
    decreases fuel, 1int, 1int,
{
    let o = match OpType::from_str(op) {
        Ok(o) => o,
        Err(e) => {
            return Err(e);
        },
    };
    let l = match resolve_input(f, b, s1, fuel) {
        Ok(x) => x,
        Err(e) => {
            return Err(e);
        },
    };
    let r2 = match resolve_input(f, b, s2, fuel) {
        Ok(x) => x,
        Err(e) => {
            return Err(e);
        },
    };
    Ok(Expr::BinOp { op: o, lhs: Box::new(l), rhs: Box::new(r2) })
}

/// Resolves an operator-family block into an expression; `op` is the opcode's
/// remainder after the family prefix.
pub fn expr_from_operator(f: &ScratchFile, b: &ScratchBlock, op: &str, fuel: u64) -> (r: Result<
    Expr,
    CompileError,
>)
    ensures
        rv(r) == spec_expr_from_operator(f.deep_view(), b.deep_view(), op@, fuel as nat),
    decreases fuel, 2int, 0int,
{
    if str_eq(op, "add") || str_eq(op, "subtract") || str_eq(op, "multiply") || str_eq(
        op,
        "divide",
    ) || str_eq(op, "random") || str_eq(op, "mod") {
        bin_op_expr(f, b, op, "NUM1", "NUM2", fuel)
    } else if str_eq(op, "join") {
        bin_op_expr(f, b, op, "STRING1", "STRING2", fuel)
    } else if str_eq(op, "gt") || str_eq(op, "lt") || str_eq(op, "equals") || str_eq(op, "and")
        || str_eq(op, "or") {
        bin_op_expr(f, b, op, "OPERAND1", "OPERAND2", fuel)
    } else if str_eq(op, "not") {
        match resolve_input(f, b, "OPERAND", fuel) {
            Ok(e) => Ok(Expr::SingleOp { op: OpType::Not, expr: Box::new(e) }),
            Err(e) => Err(e),
        }
    } else if str_eq(op, "length") {
        if b.inputs.len() == 0 {
            Err(CompileError::Malformed("length operand".to_owned()))
        } else {
            match scratch_val_to_expr(f, &b.inputs[0].1.value, b.target, fuel) {
                Ok(e) => Ok(Expr::SingleOp { op: OpType::Length, expr: Box::new(e) }),
                Err(e) => Err(e),
            }
        }
    } else if str_eq(op, "letter_of") {
        match resolve_input(f, b, "STRING", fuel) {
            Ok(v) => match resolve_input(f, b, "LETTER", fuel) {
                Ok(ix) => Ok(Expr::LetterOf { val: Box::new(v), index: Box::new(ix) }),
                Err(e) => Err(e),
            },
            Err(e) => Err(e),
        }
    } else {
        Err(CompileError::Unsupported(op.to_owned()))
    }
}

/// Resolves a data-family block in expression position; `op` is the opcode's
/// remainder after the family prefix.
pub fn expr_from_data(f: &ScratchFile, b: &ScratchBlock, op: &str, fuel: u64) -> (r: Result<
    Expr,
    CompileError,
>)
    ensures
        rv(r) == spec_expr_from_data(f.deep_view(), b.deep_view(), op@, fuel as nat),
    decreases fuel, 2int, 0int,
{
    if str_eq(op, "itemoflist") {
        match get_field(b, "LIST") {
            Some(fs) => if fs.len() < 1 {
                Err(CompileError::Malformed("LIST".to_owned()))
            } else {
                match resolve_input(f, b, "INDEX", fuel) {
                    Ok(ix) => Ok(
                        Expr::ItemOf { list_name: fs[0].clone(), index: Box::new(ix) },
                    ),
                    Err(e) => Err(e),
                }
            },
            None => Err(CompileError::Malformed("LIST".to_owned())),
        }
    } else {
        Err(CompileError::Unsupported(b.opcode.clone()))
    }
}

/// Resolves a block referenced from an input slot into an expression.
pub fn expr_from_block(f: &ScratchFile, b: &ScratchBlock, fuel: u64) -> (r: Result<
    Expr,
    CompileError,
>)
    ensures
        rv(r) == spec_expr_from_block(f.deep_view(), b.deep_view(), fuel as nat),
    decreases fuel, 3int, 0int,
{
    match split_opcode(b.opcode.as_str()) {
        Some((ns, rest)) => if str_eq(ns, "operator") {
            expr_from_operator(f, b, rest, fuel)
        } else if str_eq(ns, "data") {
            expr_from_data(f, b, rest, fuel)
        } else if str_eq(ns, "argument") {
            match get_field(b, "VALUE") {
                Some(fs) => if fs.len() < 1 {
                    Err(CompileError::Malformed("VALUE".to_owned()))
                } else {
                    Ok(Expr::Param(fs[0].clone()))
                },
                None => Err(CompileError::Malformed("VALUE".to_owned())),
            }
        } else {
            Err(CompileError::Malformed(b.opcode.clone()))
        },
        None => Err(CompileError::Malformed(b.opcode.clone())),
    }
}

/// What resolving the chain rooted at the block named `id` denotes: the
/// lookup must succeed, and following the reference spends one unit of fuel.
pub open spec fn spec_chain_from_id(f: FileV, tgt: usize, id: Seq<char>, fuel: nat) -> Result<
    Seq<StmtV>,
    ErrorV,
>
    decreases fuel, 3int, 0int,
{
    match spec_lookup_block(f, tgt, id) {
        Some(rb) => if fuel == 0 {
            Err(ErrorV::Depth)
        } else {
            spec_block_chain_to_vec(f, rb, (fuel - 1) as nat)
        },
        None => Err(ErrorV::Malformed(id)),
    }
}

/// What a control-family block denotes. Substack inputs are optional: a plain
/// conditional without a body, and a two-branch conditional without either
/// body, resolve to a no-op; a two-branch conditional missing only one branch
/// gets an empty statement list for that branch. Loop bodies are required.
pub open spec fn spec_control_to_statement(f: FileV, b: BlockV, op: Seq<char>, fuel: nat) -> Result<
    StmtV,
    ErrorV,
>
    decreases fuel, 4int, 0int,
{
    if op == "if"@ {
        match input_block_id(b, "SUBSTACK"@) {
            None => Ok(StmtV::Empty),
            Some(body_id) => match input_block_id(b, "CONDITION"@) {
                None => Err(ErrorV::Malformed("CONDITION"@)),
                Some(cid) => match spec_lookup_block(f, b.target, cid) {
                    None => Err(ErrorV::Malformed(cid)),
                    Some(cb) => match spec_expr_from_block(f, cb, fuel) {
                        Err(e) => Err(e),
                        Ok(cond) => match spec_chain_from_id(f, b.target, body_id, fuel) {
                            Err(e) => Err(e),
                            Ok(stmts) => Ok(
                                StmtV::If { condition: cond, block: BlockStmtV { stmts } },
                            ),
                        },
                    },
                },
            },
        }
    } else if op == "repeat"@ {
        match spec_resolve_input(f, b, "TIMES"@, fuel) {
            Err(e) => Err(e),
            Ok(times) => match input_block_id(b, "SUBSTACK"@) {
                None => Err(ErrorV::Malformed("SUBSTACK"@)),
                Some(body_id) => match spec_chain_from_id(f, b.target, body_id, fuel) {
                    Err(e) => Err(e),
                    Ok(stmts) => Ok(StmtV::Repeat { times, block: BlockStmtV { stmts } }),
                },
            },
        }
    } else if op == "repeat_until"@ {
        match input_block_id(b, "CONDITION"@) {
            None => Err(ErrorV::Malformed("CONDITION"@)),
            Some(cid) => match spec_lookup_block(f, b.target, cid) {
                None => Err(ErrorV::Malformed(cid)),
                Some(cb) => match spec_expr_from_block(f, cb, fuel) {
                    Err(e) => Err(e),
                    Ok(condition) => match input_block_id(b, "SUBSTACK"@) {
                        None => Err(ErrorV::Malformed("SUBSTACK"@)),
                        Some(body_id) => match spec_chain_from_id(f, b.target, body_id, fuel) {
                            Err(e) => Err(e),
                            Ok(stmts) => Ok(
                                StmtV::RepeatUntil { condition, block: BlockStmtV { stmts } },
                            ),
                        },
                    },
                },
            },
        }
    } else if op == "if_else"@ {
        let if_id = input_block_id(b, "SUBSTACK"@);
        let else_id = input_block_id(b, "SUBSTACK2"@);
        if if_id is None && else_id is None {
            Ok(StmtV::Empty)
        } else {
            let else_r: Result<Seq<StmtV>, ErrorV> = match else_id {
                None => Ok(Seq::empty()),
                Some(eid) => spec_chain_from_id(f, b.target, eid, fuel),
            };
            match else_r {
                Err(e) => Err(e),
                Ok(else_stmts) => match input_block_id(b, "CONDITION"@) {
                    None => Err(ErrorV::Malformed("CONDITION"@)),
                    Some(cid) => match spec_lookup_block(f, b.target, cid) {
                        None => Err(ErrorV::Malformed(cid)),
                        Some(cb) => match spec_expr_from_block(f, cb, fuel) {
                            Err(e) => Err(e),
                            Ok(condition) => {
                                let if_r: Result<Seq<StmtV>, ErrorV> = match if_id {
                                    None => Ok(Seq::empty()),
                                    Some(iid) => spec_chain_from_id(f, b.target, iid, fuel),
                                };
                                match if_r {
                                    Err(e) => Err(e),
                                    Ok(if_stmts) => Ok(
                                        StmtV::IfElse {
                                            condition,
                                            if_block: BlockStmtV { stmts: if_stmts },
                                            else_block: BlockStmtV { stmts: else_stmts },
                                        },
                                    ),
                                }
                            },
                        },
                    },
                },
            }
        }
    } else {
        Err(ErrorV::Unsupported(b.opcode))
    }
}

/// What a data-family block denotes in statement position: list append, list
/// clear, variable assignment, or numeric increment. The named field holds
/// the display name (and, where used, the identifier) of the variable or
/// list; the value comes from the named input slot.
pub open spec fn spec_data_to_statement(f: FileV, b: BlockV, op: Seq<char>, fuel: nat) -> Result<
    StmtV,
    ErrorV,
>
    decreases fuel, 4int, 0int,
{
    if op == "addtolist"@ {
        match field_strings(b, "LIST"@) {
            None => Err(ErrorV::Malformed("LIST"@)),
            Some(fs) => if fs.len() < 2 {
                Err(ErrorV::Malformed("LIST"@))
            } else {
                match spec_resolve_input(f, b, "ITEM"@, fuel) {
                    Err(e) => Err(e),
                    Ok(val) => Ok(StmtV::AddToList { name: fs[0], id: fs[1], val }),
                }
            },
        }
    } else if op == "deletealloflist"@ {
        match field_strings(b, "LIST"@) {
            None => Err(ErrorV::Malformed("LIST"@)),
            Some(fs) => if fs.len() < 1 {
                Err(ErrorV::Malformed("LIST"@))
            } else {
                Ok(StmtV::DeleteAllOfList { name: fs[0] })
            },
        }
    } else if op == "setvariableto"@ {
        match field_strings(b, "VARIABLE"@) {
            None => Err(ErrorV::Malformed("VARIABLE"@)),
            Some(fs) => if fs.len() < 2 {
                Err(ErrorV::Malformed("VARIABLE"@))
            } else {
                match spec_resolve_input(f, b, "VALUE"@, fuel) {
                    Err(e) => Err(e),
                    Ok(val) => Ok(StmtV::SetVariable { name: fs[0], id: fs[1], val }),
                }
            },
        }
    } else if op == "changevariableby"@ {
        match field_strings(b, "VARIABLE"@) {
            None => Err(ErrorV::Malformed("VARIABLE"@)),
            Some(fs) => if fs.len() < 1 {
                Err(ErrorV::Malformed("VARIABLE"@))
            } else {
                match spec_resolve_input(f, b, "VALUE"@, fuel) {
                    Err(e) => Err(e),
                    Ok(inc) => Ok(StmtV::ChangeBy { var_name: fs[0], inc }),
                }
            },
        }
    } else {
        Err(ErrorV::Unsupported(b.opcode))
    }
}

/// What an event-family block denotes: the program entry, whose body is the
/// chain that follows it. The resolved chain link is handed in, already
/// looked up by the statement dispatcher.
pub open spec fn spec_event_to_statement(
    f: FileV,
    b: BlockV,
    nb: Option<BlockV>,
    op: Seq<char>,
    fuel: nat,
) -> Result<StmtV, ErrorV>
    decreases fuel, 4int, 0int,
{
    if op == "whenflagclicked"@ {
        match nb {
            Some(x) => if fuel == 0 {
                Err(ErrorV::Depth)
            } else {
                match spec_block_chain_to_vec(f, x, (fuel - 1) as nat) {
                    Err(e) => Err(e),
                    Ok(stmts) => Ok(StmtV::WhenFlagClicked(BlockStmtV { stmts })),
                }
            },
            None => Err(ErrorV::Malformed("next"@)),
        }
    } else {
        Err(ErrorV::Unsupported(b.opcode))
    }
}

/// What resolving a call site's arguments denotes: each identifier of the
/// call's argument-identifier array names the input slot holding that
/// argument's expression, in array order.
pub open spec fn spec_resolve_args(f: FileV, b: BlockV, ids: Seq<Seq<char>>, fuel: nat) -> Result<
    Seq<ExprV>,
    ErrorV,
>
    decreases fuel, 2int, ids.len(),
{
    if ids.len() == 0 {
        Ok(Seq::empty())
    } else {
        match spec_resolve_args(f, b, ids.drop_last(), fuel) {
            Err(e) => Err(e),
            Ok(rest) => match spec_resolve_input(f, b, ids.last(), fuel) {
                Err(e) => Err(e),
                Ok(x) => Ok(rest.push(x)),
            },
        }
    }
}

/// What a procedures-family block denotes: a definition reads its prototype
/// block's parallel argument arrays and mangles the call-signature string
/// into the procedure name; a call reads its own argument-identifier array
/// and resolves each named input in array order.
pub open spec fn spec_procedures_to_statement(
    f: FileV,
    b: BlockV,
    op: Seq<char>,
    fuel: nat,
) -> Result<StmtV, ErrorV>
    decreases fuel, 4int, 0int,
{
    if op == "definition"@ {
        match input_block_id(b, "custom_block"@) {
            None => Err(ErrorV::Malformed("custom_block"@)),
            Some(pid) => match spec_lookup_block(f, b.target, pid) {
                None => Err(ErrorV::Malformed(pid)),
                Some(pb) => match mutation_value(pb, "argumentids"@) {
                    None => Err(ErrorV::Malformed("argumentids"@)),
                    Some(ids_raw) => match json_string_array_of(ids_raw) {
                        None => Err(ErrorV::Malformed("argumentids"@)),
                        Some(ids) => match mutation_value(pb, "argumentnames"@) {
                            None => Err(ErrorV::Malformed("argumentnames"@)),
                            Some(names_raw) => match json_string_array_of(names_raw) {
                                None => Err(ErrorV::Malformed("argumentnames"@)),
                                Some(names) => match spec_bind_parameters(ids, names) {
                                    Err(e) => Err(e),
                                    Ok(params) => match mutation_value(pb, "proccode"@) {
                                        None => Err(ErrorV::Malformed("proccode"@)),
                                        Some(pc) => match b.next {
                                            None => Err(ErrorV::Malformed("next"@)),
                                            Some(nid) => match spec_chain_from_id(
                                                f,
                                                b.target,
                                                nid,
                                                fuel,
                                            ) {
                                                Err(e) => Err(e),
                                                Ok(stmts) => Ok(
                                                    StmtV::ProcedureDefinition {
                                                        prototype: PrototypeV {
                                                            params,
                                                            param_order: names,
                                                            name: spec_mangle(pc),
                                                        },
                                                        body: BlockStmtV { stmts },
                                                    },
                                                ),
                                            },
                                        },
                                    },
                                },
                            },
                        },
                    },
                },
            },
        }
    } else if op == "call"@ {
        match mutation_value(b, "proccode"@) {
            None => Err(ErrorV::Malformed("proccode"@)),
            Some(pc) => match mutation_value(b, "argumentids"@) {
                None => Err(ErrorV::Malformed("argumentids"@)),
                Some(ids_raw) => match json_string_array_of(ids_raw) {
                    None => Err(ErrorV::Malformed("argumentids"@)),
                    Some(ids) => match spec_resolve_args(f, b, ids, fuel) {
                        Err(e) => Err(e),
                        Ok(args) => Ok(
                            StmtV::ProcedureCall { proc: spec_mangle(pc), params: args },
                        ),
                    },
                },
            },
        }
    } else {
        Err(ErrorV::Unsupported(b.opcode))
    }
}

/// What a block denotes in statement position: a dangling `next` reference,
/// an opcode with no family separator, and an opcode family other than the
/// four known ones are malformed input; otherwise dispatch on the family.
pub open spec fn spec_scratch_block_to_statement(f: FileV, b: BlockV, fuel: nat) -> Result<
    StmtV,
    ErrorV,
>
    decreases fuel, 5int, 0int,
{
    let nbr: Result<Option<BlockV>, ErrorV> = match b.next {
        None => Ok(None),
        Some(id) => match spec_lookup_block(f, b.target, id) {
            Some(x) => Ok(Some(x)),
            None => Err(ErrorV::Malformed(id)),
        },
    };
    match nbr {
        Err(e) => Err(e),
        Ok(nb) => match opcode_split(b.opcode) {
            None => Err(ErrorV::Malformed(b.opcode)),
            Some(p) => if p.0 == "event"@ {
                spec_event_to_statement(f, b, nb, p.1, fuel)
            } else if p.0 == "data"@ {
                spec_data_to_statement(f, b, p.1, fuel)
            } else if p.0 == "control"@ {
                spec_control_to_statement(f, b, p.1, fuel)
            } else if p.0 == "procedures"@ {
                spec_procedures_to_statement(f, b, p.1, fuel)
            } else {
                Err(ErrorV::Malformed(b.opcode))
            },
        },
    }
}

/// What resolving a chain denotes: the statement of each block from the root
/// along `next` links, in source order; following a link spends one unit of
/// fuel.
pub open spec fn spec_block_chain_to_vec(f: FileV, b: BlockV, fuel: nat) -> Result<
    Seq<StmtV>,
    ErrorV,
>
    decreases fuel, 6int, 0int,
{
    match spec_scratch_block_to_statement(f, b, fuel) {
        Err(e) => Err(e),
        Ok(s) => match b.next {
            None => Ok(seq![s]),
            Some(id) => match spec_lookup_block(f, b.target, id) {
                None => Err(ErrorV::Malformed(id)),
                Some(nb) => if fuel == 0 {
                    Err(ErrorV::Depth)
                } else {
                    match spec_block_chain_to_vec(f, nb, (fuel - 1) as nat) {
                        Err(e) => Err(e),
                        Ok(rest) => Ok(seq![s] + rest),
                    }
                },
            },
        },
    }
}

/// Resolves the chain rooted at the block named `id` within target `tgt`.
fn chain_from_id(f: &ScratchFile, tgt: usize, id: &str, fuel: u64) -> (r: Result<
    Vec<Stmt>,
    CompileError,
>)
    ensures
        rv(r) == spec_chain_from_id(f.deep_view(), tgt, id@, fuel as nat),
    decreases fuel, 3int, 0int,
{
    match lookup_block(f, tgt, id) {
        Some(rb) => if fuel == 0 {
            Err(CompileError::Depth)
        } else {
            block_chain_to_vec(f, rb, fuel - 1)
        },
        None => Err(CompileError::Malformed(id.to_owned())),
    }
}

/// Resolves a control-family block into a statement; `op` is the opcode's
/// remainder after the family prefix.
pub fn control_to_statement(f: &ScratchFile, b: &ScratchBlock, op: &str, fuel: u64) -> (r: Result<
    Stmt,
    CompileError,
>)
    ensures
        rv(r) == spec_control_to_statement(f.deep_view(), b.deep_view(), op@, fuel as nat),
    decreases fuel, 4int, 0int,
{
    if str_eq(op, "if") {
        let body_id = match get_input_block_id(b, "SUBSTACK") {
            Some(x) => x,
            None => {
                return Ok(Stmt::Empty);
            },
        };
        let cid = match get_input_block_id(b, "CONDITION") {
            Some(x) => x,
            None => {
                return Err(CompileError::Malformed("CONDITION".to_owned()));
            },
        };
        let cb = match lookup_block(f, b.target, cid.as_str()) {
            Some(x) => x,
            None => {
                return Err(CompileError::Malformed(cid.clone()));
            },
        };
        let condition = match expr_from_block(f, cb, fuel) {
            Ok(x) => x,
            Err(e) => {
                return Err(e);
            },
        };
        let stmts = match chain_from_id(f, b.target, body_id.as_str(), fuel) {
            Ok(v) => v,
            Err(e) => {
                return Err(e);
            },
        };
        proof {
            crate::ast::lemma_stmts_view_is_dv(stmts);
        }
        Ok(Stmt::If { condition, block: BlockStmt { stmts } })
    } else if str_eq(op, "repeat") {
        let times = match resolve_input(f, b, "TIMES", fuel) {
            Ok(x) => x,
            Err(e) => {
                return Err(e);
            },
        };
        let body_id = match get_input_block_id(b, "SUBSTACK") {
            Some(x) => x,
            None => {
                return Err(CompileError::Malformed("SUBSTACK".to_owned()));
            },
        };
        let stmts = match chain_from_id(f, b.target, body_id.as_str(), fuel) {
            Ok(v) => v,
            Err(e) => {
                return Err(e);
            },
        };
        proof {
            crate::ast::lemma_stmts_view_is_dv(stmts);
        }
        Ok(Stmt::Repeat { times, block: BlockStmt { stmts } })
    } else if str_eq(op, "repeat_until") {
        let cid = match get_input_block_id(b, "CONDITION") {
            Some(x) => x,
            None => {
                return Err(CompileError::Malformed("CONDITION".to_owned()));
            },
        };
        let cb = match lookup_block(f, b.target, cid.as_str()) {
            Some(x) => x,
            None => {
                return Err(CompileError::Malformed(cid.clone()));
            },
        };
        let condition = match expr_from_block(f, cb, fuel) {
            Ok(x) => x,
            Err(e) => {
                return Err(e);
            },
        };
        let body_id = match get_input_block_id(b, "SUBSTACK") {
            Some(x) => x,
            None => {
                return Err(CompileError::Malformed("SUBSTACK".to_owned()));
            },
        };
        let stmts = match chain_from_id(f, b.target, body_id.as_str(), fuel) {
            Ok(v) => v,
            Err(e) => {
                return Err(e);
            },
        };
        proof {
            crate::ast::lemma_stmts_view_is_dv(stmts);
        }
        Ok(Stmt::RepeatUntil { condition, block: BlockStmt { stmts } })
    } else if str_eq(op, "if_else") {
        let if_id = get_input_block_id(b, "SUBSTACK");
        let else_id = get_input_block_id(b, "SUBSTACK2");
        if if_id.is_none() && else_id.is_none() {
            return Ok(Stmt::Empty);
        }
        let else_stmts = match else_id {
            None => {
                let v: Vec<Stmt> = Vec::new();
                proof {
                    assert(v.deep_view() =~= Seq::<StmtV>::empty());
                }
                v
            },
            Some(eid) => match chain_from_id(f, b.target, eid.as_str(), fuel) {
                Ok(v) => v,
                Err(e) => {
                    return Err(e);
                },
            },
        };
        let cid = match get_input_block_id(b, "CONDITION") {
            Some(x) => x,
            None => {
                return Err(CompileError::Malformed("CONDITION".to_owned()));
            },
        };
        let cb = match lookup_block(f, b.target, cid.as_str()) {
            Some(x) => x,
            None => {
                return Err(CompileError::Malformed(cid.clone()));
            },
        };
        let condition = match expr_from_block(f, cb, fuel) {
            Ok(x) => x,
            Err(e) => {
                return Err(e);
            },
        };
        let if_stmts = match if_id {
            None => {
                let v: Vec<Stmt> = Vec::new();
                proof {
                    assert(v.deep_view() =~= Seq::<StmtV>::empty());
                }
                v
            },
            Some(iid) => match chain_from_id(f, b.target, iid.as_str(), fuel) {
                Ok(v) => v,
                Err(e) => {
                    return Err(e);
                },
            },
        };
        proof {
            crate::ast::lemma_stmts_view_is_dv(if_stmts);
            crate::ast::lemma_stmts_view_is_dv(else_stmts);
        }
        Ok(
            Stmt::IfElse {
                condition,
                if_block: BlockStmt { stmts: if_stmts },
                else_block: BlockStmt { stmts: else_stmts },
            },
        )
    } else {
        Err(CompileError::Unsupported(b.opcode.clone()))
    }
}

/// Resolves a data-family block into a statement; `op` is the opcode's
/// remainder after the family prefix.
pub fn data_to_statement(f: &ScratchFile, b: &ScratchBlock, op: &str, fuel: u64) -> (r: Result<
    Stmt,
    CompileError,
>)
    ensures
        rv(r) == spec_data_to_statement(f.deep_view(), b.deep_view(), op@, fuel as nat),
    decreases fuel, 4int, 0int,
{
    if str_eq(op, "addtolist") {
        match get_field(b, "LIST") {
            None => Err(CompileError::Malformed("LIST".to_owned())),
            Some(fs) => if fs.len() < 2 {
                Err(CompileError::Malformed("LIST".to_owned()))
            } else {
                match resolve_input(f, b, "ITEM", fuel) {
                    Err(e) => Err(e),
                    Ok(val) => Ok(
                        Stmt::AddToList { name: fs[0].clone(), id: fs[1].clone(), val },
                    ),
                }
            },
        }
    } else if str_eq(op, "deletealloflist") {
        match get_field(b, "LIST") {
            None => Err(CompileError::Malformed("LIST".to_owned())),
            Some(fs) => if fs.len() < 1 {
                Err(CompileError::Malformed("LIST".to_owned()))
            } else {
                Ok(Stmt::DeleteAllOfList { name: fs[0].clone() })
            },
        }
    } else if str_eq(op, "setvariableto") {
        match get_field(b, "VARIABLE") {
            None => Err(CompileError::Malformed("VARIABLE".to_owned())),
            Some(fs) => if fs.len() < 2 {
                Err(CompileError::Malformed("VARIABLE".to_owned()))
            } else {
                match resolve_input(f, b, "VALUE", fuel) {
                    Err(e) => Err(e),
                    Ok(val) => Ok(
                        Stmt::SetVariable { name: fs[0].clone(), id: fs[1].clone(), val },
                    ),
                }
            },
        }
    } else if str_eq(op, "changevariableby") {
        match get_field(b, "VARIABLE") {
            None => Err(CompileError::Malformed("VARIABLE".to_owned())),
            Some(fs) => if fs.len() < 1 {
                Err(CompileError::Malformed("VARIABLE".to_owned()))
            } else {
                match resolve_input(f, b, "VALUE", fuel) {
                    Err(e) => Err(e),
                    Ok(inc) => Ok(Stmt::ChangeBy { var_name: fs[0].clone(), inc }),
                }
            },
        }
    } else {
        Err(CompileError::Unsupported(b.opcode.clone()))
    }
}

/// Resolves an event-family block into a statement; `next_block` is the
/// already-resolved chain link of the block, and `event` is the opcode's
/// remainder after the family prefix.
pub fn event_to_statement(
    f: &ScratchFile,
    b: &ScratchBlock,
    next_block: Option<&ScratchBlock>,
    event: &str,
    fuel: u64,
) -> (r: Result<Stmt, CompileError>)
    ensures
        rv(r) == spec_event_to_statement(
            f.deep_view(),
            b.deep_view(),
            next_block.deep_view(),
            event@,
            fuel as nat,
        ),
    decreases fuel, 4int, 0int,
{
    if str_eq(event, "whenflagclicked") {
        match next_block {
            Some(x) => if fuel == 0 {
                Err(CompileError::Depth)
            } else {
                match block_chain_to_vec(f, x, fuel - 1) {
                    Err(e) => Err(e),
                    Ok(stmts) => {
                        proof {
                            crate::ast::lemma_stmts_view_is_dv(stmts);
                        }
                        Ok(Stmt::WhenFlagClicked(BlockStmt { stmts }))
                    },
                }
            },
            None => Err(CompileError::Malformed("next".to_owned())),
        }
    } else {
        Err(CompileError::Unsupported(b.opcode.clone()))
    }
}

proof fn lemma_resolve_args_err(f: FileV, b: BlockV, ids: Seq<Seq<char>>, i: int, e: ErrorV, fuel: nat)
    requires
        0 <= i < ids.len(),
        spec_resolve_args(f, b, ids.take(i), fuel) is Ok,
        spec_resolve_input(f, b, ids[i], fuel) == Err::<ExprV, ErrorV>(e),
    ensures
        spec_resolve_args(f, b, ids, fuel) == Err::<Seq<ExprV>, ErrorV>(e),
    decreases ids.len(),
{
    if i == ids.len() - 1 {
        assert(ids.drop_last() =~= ids.take(i));
        assert(ids.last() == ids[i]);
    } else {
        assert(ids.drop_last().take(i) =~= ids.take(i));
        lemma_resolve_args_err(f, b, ids.drop_last(), i, e, fuel);
    }
}

/// Resolves a call site's arguments: each identifier names the input slot
/// holding that argument's expression, in array order.
fn resolve_args(f: &ScratchFile, b: &ScratchBlock, ids: &Vec<String>, fuel: u64) -> (r: Result<
    Vec<Expr>,
    CompileError,
>)
    ensures
        rv(r) == spec_resolve_args(f.deep_view(), b.deep_view(), ids.deep_view(), fuel as nat),
{
    let mut out: Vec<Expr> = Vec::new();
    let mut i: usize = 0;
    proof {
        assert(out.deep_view() =~= Seq::<ExprV>::empty());
        assert(ids.deep_view().take(0) =~= Seq::<Seq<char>>::empty());
    }
    while i < ids.len()
        invariant
            i <= ids@.len(),
            out@.len() == i,
            ids@.len() == ids.deep_view().len(),
            spec_resolve_args(f.deep_view(), b.deep_view(), ids.deep_view().take(i as int), fuel as nat)
                == Ok::<Seq<ExprV>, ErrorV>(out.deep_view()),
        decreases ids@.len() - i,
    {
        let x = match resolve_input(f, b, ids[i].as_str(), fuel) {
            Ok(x) => x,
            Err(e) => {
                proof {
                    lemma_resolve_args_err(
                        f.deep_view(),
                        b.deep_view(),
                        ids.deep_view(),
                        i as int,
                        e.deep_view(),
                        fuel as nat,
                    );
                }
                return Err(e);
            },
        };
        let ghost prev = out@;
        let ghost pre = out.deep_view();
        let ghost xv = x.deep_view();
        out.push(x);
        proof {
            lemma_vec_dv(out);
            assert forall|j: int| 0 <= j < out@.len() implies out.deep_view()[j] == pre.push(xv)[j] by {
                if j < i {
                    assert(out@[j] == prev[j]);
                    assert(prev[j].deep_view() == pre[j]);
                }
            }
            assert(out.deep_view() =~= pre.push(xv));
            assert(ids.deep_view().take((i + 1) as int).drop_last() =~= ids.deep_view().take(
                i as int,
            ));
            assert(ids.deep_view().take((i + 1) as int).last() == ids.deep_view()[i as int]);
        }
        i += 1;
    }
    proof {
        assert(ids.deep_view().take(ids@.len() as int) =~= ids.deep_view());
    }
    Ok(out)
}

/// Resolves a procedures-family block into a statement; `op` is the opcode's
/// remainder after the family prefix.
pub fn procedures_to_statement(f: &ScratchFile, b: &ScratchBlock, op: &str, fuel: u64) -> (r:
    Result<Stmt, CompileError>)
    ensures
        rv(r) == spec_procedures_to_statement(f.deep_view(), b.deep_view(), op@, fuel as nat),
    decreases fuel, 4int, 0int,
{
    if str_eq(op, "definition") {
        let pid = match get_input_block_id(b, "custom_block") {
            Some(x) => x,
            None => {
                return Err(CompileError::Malformed("custom_block".to_owned()));
            },
        };
        let pb = match lookup_block(f, b.target, pid.as_str()) {
            Some(x) => x,
            None => {
                return Err(CompileError::Malformed(pid.clone()));
            },
        };
        let ids_raw = match get_mutation(pb, "argumentids") {
            Some(x) => x,
            None => {
                return Err(CompileError::Malformed("argumentids".to_owned()));
            },
        };
        let ids = match parse_string_array(ids_raw.as_str()) {
            Some(v) => v,
            None => {
                return Err(CompileError::Malformed("argumentids".to_owned()));
            },
        };
        let names_raw = match get_mutation(pb, "argumentnames") {
            Some(x) => x,
            None => {
                return Err(CompileError::Malformed("argumentnames".to_owned()));
            },
        };
        let names = match parse_string_array(names_raw.as_str()) {
            Some(v) => v,
            None => {
                return Err(CompileError::Malformed("argumentnames".to_owned()));
            },
        };
        let params = match bind_parameters(&ids, &names) {
            Ok(p) => p,
            Err(e) => {
                return Err(e);
            },
        };
        let pc = match get_mutation(pb, "proccode") {
            Some(x) => x,
            None => {
                return Err(CompileError::Malformed("proccode".to_owned()));
            },
        };
        let name = mangle(pc.as_str());
        let nid = match &b.next {
            Some(x) => x,
            None => {
                return Err(CompileError::Malformed("next".to_owned()));
            },
        };
        let stmts = match chain_from_id(f, b.target, nid.as_str(), fuel) {
            Ok(v) => v,
            Err(e) => {
                return Err(e);
            },
        };
        proof {
            crate::ast::lemma_stmts_view_is_dv(stmts);
        }
        Ok(
            Stmt::ProcedureDefinition {
                prototype: ProcedurePrototype { params, param_order: names, name },
                body: BlockStmt { stmts },
            },
        )
    } else if str_eq(op, "call") {
        let pc = match get_mutation(b, "proccode") {
            Some(x) => x,
            None => {
                return Err(CompileError::Malformed("proccode".to_owned()));
            },
        };
        let ids_raw = match get_mutation(b, "argumentids") {
            Some(x) => x,
            None => {
                return Err(CompileError::Malformed("argumentids".to_owned()));
            },
        };
        let ids = match parse_string_array(ids_raw.as_str()) {
            Some(v) => v,
            None => {
                return Err(CompileError::Malformed("argumentids".to_owned()));
            },
        };
        let args = match resolve_args(f, b, &ids, fuel) {
            Ok(v) => v,
            Err(e) => {
                return Err(e);
            },
        };
        proof {
            crate::ast::lemma_exprs_view_is_dv(args);
        }
        Ok(Stmt::ProcedureCall { proc: mangle(pc.as_str()), params: args })
    } else {
        Err(CompileError::Unsupported(b.opcode.clone()))
    }
}

/// Resolves a block in statement position.
pub fn scratch_block_to_statement(f: &ScratchFile, b: &ScratchBlock, fuel: u64) -> (r: Result<
    Stmt,
    CompileError,
>)
    ensures
        rv(r) == spec_scratch_block_to_statement(f.deep_view(), b.deep_view(), fuel as nat),
    decreases fuel, 5int, 0int,
{
    let next_block: Option<&ScratchBlock> = match &b.next {
        None => None,
        Some(id) => match lookup_block(f, b.target, id.as_str()) {
            Some(x) => Some(x),
            None => {
                return Err(CompileError::Malformed(id.clone()));
            },
        },
    };
    match split_opcode(b.opcode.as_str()) {
        None => Err(CompileError::Malformed(b.opcode.clone())),
        Some((ns, rest)) => if str_eq(ns, "event") {
            event_to_statement(f, b, next_block, rest, fuel)
        } else if str_eq(ns, "data") {
            data_to_statement(f, b, rest, fuel)
        } else if str_eq(ns, "control") {
            control_to_statement(f, b, rest, fuel)
        } else if str_eq(ns, "procedures") {
            procedures_to_statement(f, b, rest, fuel)
        } else {
            Err(CompileError::Malformed(b.opcode.clone()))
        },
    }
}

/// Resolves the chain of blocks starting at `root_block`, following `next`
/// links, into the ordered statement sequence.
pub fn block_chain_to_vec(f: &ScratchFile, root_block: &ScratchBlock, fuel: u64) -> (r: Result<
    Vec<Stmt>,
    CompileError,
>)
    ensures
        rv(r) == spec_block_chain_to_vec(f.deep_view(), root_block.deep_view(), fuel as nat),
    decreases fuel, 6int, 0int,
{
    let s = match scratch_block_to_statement(f, root_block, fuel) {
        Ok(x) => x,
        Err(e) => {
            return Err(e);
        },
    };
    match &root_block.next {
        None => {
            let ghost sv = s.deep_view();
            let mut v: Vec<Stmt> = Vec::new();
            v.push(s);
            proof {
                assert(v.deep_view() =~= seq![sv]);
            }
            Ok(v)
        },
        Some(id) => match lookup_block(f, root_block.target, id.as_str()) {
            None => Err(CompileError::Malformed(id.clone())),
            Some(nb) => if fuel == 0 {
                Err(CompileError::Depth)
            } else {
                match block_chain_to_vec(f, nb, fuel - 1) {
                    Err(e) => Err(e),
                    Ok(rest) => {
                        let ghost restd = rest.deep_view();
                        let ghost restq = rest@;
                        let ghost sv = s.deep_view();
                        let mut v: Vec<Stmt> = Vec::new();
                        v.push(s);
                        let mut rest_m = rest;
                        v.append(&mut rest_m);
                        proof {
                            assert forall|j: int| 0 <= j < v@.len() implies v.deep_view()[j] == (
                            seq![sv] + restd)[j] by {
                                if j > 0 {
                                    assert(v@[j] == restq[j - 1]);
                                    assert(restq[j - 1].deep_view() == restd[j - 1]);
                                }
                            }
                            assert(v.deep_view() =~= seq![sv] + restd);
                        }
                        Ok(v)
                    },
                }
            },
        },
    }
}

} // verus!
