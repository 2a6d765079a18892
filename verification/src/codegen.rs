//! The code generator: lowers a resolved program into target-language source
//! text, deterministically (the output is a function of the tree alone).
//!
//! Operators are emitted as their direct target-language equivalents with
//! every operand parenthesized, so the output does not depend on the target
//! language's precedence rules. List-index and letter-index accesses convert
//! the source format's one-based index to a zero-based access by subtracting
//! one and truncating at the point of emission. Display names have spaces
//! rewritten to underscores at emission, so the tree keeps the original
//! names. A no-op statement emits nothing. Procedures become named closures
//! capturing the enclosing scope by reference, so globals stay shared.

use vstd::prelude::*;

use crate::ast::Expr;
use crate::ast::ExprV;
use crate::ast::OpType;
use crate::ast::Project;
use crate::ast::ProjectV;
use crate::ast::Stmt;
use crate::ast::StmtV;
use crate::ast::Value;
use crate::ast::ValueV;
use crate::ast::spec_op_name;
use crate::error::CompileError;
use crate::error::ErrorV;
use crate::error::rv;
use crate::strutil::i64_dec;
use crate::strutil::mangle;
use crate::strutil::spec_i64_dec;
use crate::strutil::spec_mangle;

verus! {

/// The target-language token for an operator, where one exists.
pub open spec fn spec_bin_op_str(op: OpType) -> Option<Seq<char>> {
    match op {
        OpType::Add => Some("+"@),
        OpType::And => Some("&&"@),
        OpType::Divide => Some("/"@),
        OpType::Equals => Some("=="@),
        OpType::GreaterThan => Some(">"@),
        OpType::LessThan => Some("<"@),
        OpType::Modulo => Some("%"@),
        OpType::Multiply => Some("*"@),
        OpType::Not => Some("!"@),
        OpType::Or => Some("||"@),
        OpType::Subtract => Some("-"@),
        _ => None,
    }
}

/// The operators with a binary emission rule.
pub open spec fn is_binary_gen_op(op: OpType) -> bool {
    match op {
        OpType::Add | OpType::Subtract | OpType::Multiply | OpType::Divide | OpType::Modulo
            | OpType::And | OpType::GreaterThan | OpType::LessThan | OpType::Equals
            | OpType::Or => true,
        _ => false,
    }
}

/// The text of a literal: a number in decimal, a string in double quotes.
pub open spec fn spec_gen_value(v: ValueV) -> Seq<char> {
    match v {
        ValueV::Number(x) => spec_i64_dec(x as int),
        ValueV::Str(s) => "\""@ + s + "\""@,
    }
}

/// The text of an expression, fully parenthesized per operand; a recognized
/// operator without an emission rule is an unsupported construct.
pub open spec fn spec_gen_expr(e: ExprV) -> Result<Seq<char>, ErrorV>
    decreases e,
{
    match e {
        ExprV::BinOp { op, lhs, rhs } => if is_binary_gen_op(op) {
            let tok = match spec_bin_op_str(op) {
                Some(t) => t,
                None => Seq::empty(),
            };
            match spec_gen_expr(*lhs) {
                Err(er) => Err(er),
                Ok(l) => match spec_gen_expr(*rhs) {
                    Err(er) => Err(er),
                    Ok(r) => Ok("("@ + l + ") "@ + tok + " ("@ + r + ")"@),
                },
            }
        } else {
            Err(ErrorV::Unsupported(spec_op_name(op)))
        },
        ExprV::SingleOp { op, expr } => if op is Not {
            match spec_gen_expr(*expr) {
                Err(er) => Err(er),
                Ok(x) => Ok("!("@ + x + ")"@),
            }
        } else {
            Err(ErrorV::Unsupported(spec_op_name(op)))
        },
        ExprV::LetterOf { val, index } => match spec_gen_expr(*val) {
            Err(er) => Err(er),
            Ok(v) => match spec_gen_expr(*index) {
                Err(er) => Err(er),
                Ok(ix) => Ok(
                    "("@ + v + ")[static_cast<int>(("@ + ix + "-1).get<double>())]"@,
                ),
            },
        },
        ExprV::ItemOf { list_name, index } => match spec_gen_expr(*index) {
            Err(er) => Err(er),
            Ok(ix) => Ok(
                spec_mangle(list_name) + "[static_cast<int>(("@ + ix + "-1).get<double>())]"@,
            ),
        },
        ExprV::Val(v) => Ok(spec_gen_value(v)),
        ExprV::Var(n) => Ok(spec_mangle(n)),
        ExprV::Param(n) => Ok(spec_mangle(n)),
    }
}

/// The text of a call's argument list: the arguments' texts joined by commas.
pub open spec fn spec_gen_args(ps: Seq<ExprV>) -> Result<Seq<char>, ErrorV>
    decreases ps,
{
    if ps.len() == 0 {
        Ok(Seq::empty())
    } else if ps.len() == 1 {
        spec_gen_expr(ps[0])
    } else {
        match spec_gen_args(ps.drop_last()) {
            Err(er) => Err(er),
            Ok(rest) => match spec_gen_expr(ps.last()) {
                Err(er) => Err(er),
                Ok(x) => Ok(rest + ","@ + x),
            },
        }
    }
}

/// The text of a closure's parameter list: each parameter declared with the
/// runtime value type, its display name mangled, joined by commas.
pub open spec fn spec_gen_params(names: Seq<Seq<char>>) -> Seq<char>
    decreases names,
{
    if names.len() == 0 {
        Seq::empty()
    } else if names.len() == 1 {
        "ScratchValue "@ + spec_mangle(names[0])
    } else {
        spec_gen_params(names.drop_last()) + ","@ + "ScratchValue "@ + spec_mangle(names.last())
    }
}

/// The text of a statement. A no-op emits nothing; the program-entry node
/// emits its body's statements in order.
pub open spec fn spec_gen_stmt(s: StmtV) -> Result<Seq<char>, ErrorV>
    decreases s,
{
    match s {
        StmtV::WhenFlagClicked(b) => spec_gen_stmts(b.stmts),
        StmtV::SetVariable { name, id, val } => match spec_gen_expr(val) {
            Err(er) => Err(er),
            Ok(v) => Ok(spec_mangle(name) + " = ("@ + v + ");\n"@),
        },
        StmtV::AddToList { name, id, val } => match spec_gen_expr(val) {
            Err(er) => Err(er),
            Ok(v) => Ok(spec_mangle(name) + ".push_back("@ + v + ");"@),
        },
        StmtV::DeleteAllOfList { name } => Ok(spec_mangle(name) + ".clear();"@),
        StmtV::Repeat { times, block } => match spec_gen_expr(times) {
            Err(er) => Err(er),
            Ok(t) => match spec_gen_stmts(block.stmts) {
                Err(er) => Err(er),
                Ok(body) => Ok("for (auto _ = "@ + t + "; _--;){\n"@ + body + "}\n"@),
            },
        },
        StmtV::RepeatUntil { condition, block } => match spec_gen_expr(condition) {
            Err(er) => Err(er),
            Ok(c) => match spec_gen_stmts(block.stmts) {
                Err(er) => Err(er),
                Ok(body) => Ok("while(!("@ + c + ")) {\n"@ + body + "}\n"@),
            },
        },
        StmtV::If { condition, block } => match spec_gen_expr(condition) {
            Err(er) => Err(er),
            Ok(c) => match spec_gen_stmts(block.stmts) {
                Err(er) => Err(er),
                Ok(body) => Ok("if ("@ + c + ") {\n"@ + body + "}\n"@),
            },
        },
        StmtV::IfElse { condition, if_block, else_block } => match spec_gen_expr(condition) {
            Err(er) => Err(er),
            Ok(c) => match spec_gen_stmts(if_block.stmts) {
                Err(er) => Err(er),
                Ok(ib) => match spec_gen_stmts(else_block.stmts) {
                    Err(er) => Err(er),
                    Ok(eb) => Ok(
                        "if ("@ + c + ") {\n"@ + ib + "} else {\n"@ + eb + "}\n"@,
                    ),
                },
            },
        },
        StmtV::ChangeBy { var_name, inc } => match spec_gen_expr(inc) {
            Err(er) => Err(er),
            Ok(x) => Ok(spec_mangle(var_name) + " += "@ + x + ";"@),
        },
        StmtV::ProcedureCall { proc, params } => match spec_gen_args(params) {
            Err(er) => Err(er),
            Ok(a) => Ok(proc + "("@ + a + ");"@),
        },
        StmtV::ProcedureDefinition { prototype, body } => match spec_gen_stmts(body.stmts) {
            Err(er) => Err(er),
            Ok(bs) => Ok(
                "auto "@ + prototype.name + " = [&]("@ + spec_gen_params(prototype.param_order)
                    + ") {"@ + bs + "};"@,
            ),
        },
        StmtV::Empty => Ok(Seq::empty()),
    }
}

/// The text of a run of statements: each statement's text, concatenated in
/// order; the first failing statement decides the error.
pub open spec fn spec_gen_stmts(ss: Seq<StmtV>) -> Result<Seq<char>, ErrorV>
    decreases ss,
{
    if ss.len() == 0 {
        Ok(Seq::empty())
    } else {
        match spec_gen_stmts(ss.drop_last()) {
            Err(er) => Err(er),
            Ok(rest) => match spec_gen_stmt(ss.last()) {
                Err(er) => Err(er),
                Ok(s) => Ok(rest + s),
            },
        }
    }
}

/// The global variable declarations, one per name, in order.
pub open spec fn spec_gen_var_decls(names: Seq<Seq<char>>) -> Seq<char>
    decreases names,
{
    if names.len() == 0 {
        Seq::empty()
    } else {
        spec_gen_var_decls(names.drop_last()) + "ScratchValue "@ + spec_mangle(names.last())
            + " = {};\n"@
    }
}

/// The global list declarations, one per name, in order.
pub open spec fn spec_gen_list_decls(names: Seq<Seq<char>>) -> Seq<char>
    decreases names,
{
    if names.len() == 0 {
        Seq::empty()
    } else {
        spec_gen_list_decls(names.drop_last()) + "ScratchList "@ + spec_mangle(names.last())
            + " = {};\n"@
    }
}

/// The text of a whole program: the fixed runtime-include header, the entry
/// point with all global declarations first, then every procedure definition,
/// then the program body, then a normal-termination return.
pub open spec fn spec_gen_project(p: ProjectV) -> Result<Seq<char>, ErrorV> {
    let head = "#include <runtime/scratchnative.hpp>\nint main(void)\n{\n"@
        + spec_gen_var_decls(p.variables) + spec_gen_list_decls(p.lists);
    match spec_gen_stmts(p.procedures) {
        Err(er) => Err(er),
        Ok(procs) => match spec_gen_stmt(p.body) {
            Err(er) => Err(er),
            Ok(body) => Ok(head + procs + body + "\nreturn 0;\n\n}"@),
        },
    }
}

/// Emits the target-language token of an operator; operators without a token
/// are unsupported constructs.
pub fn bin_op_to_str(op: OpType) -> (r: Result<String, CompileError>)
    ensures
        rv(r) == match spec_bin_op_str(op) {
            Some(t) => Ok::<Seq<char>, ErrorV>(t),
            None => Err(ErrorV::Unsupported(spec_op_name(op))),
        },
{
    match op {
        OpType::Add => Ok("+".to_owned()),
        OpType::And => Ok("&&".to_owned()),
        OpType::Divide => Ok("/".to_owned()),
        OpType::Equals => Ok("==".to_owned()),
        OpType::GreaterThan => Ok(">".to_owned()),
        OpType::LessThan => Ok("<".to_owned()),
        OpType::Modulo => Ok("%".to_owned()),
        OpType::Multiply => Ok("*".to_owned()),
        OpType::Not => Ok("!".to_owned()),
        OpType::Or => Ok("||".to_owned()),
        OpType::Subtract => Ok("-".to_owned()),
        OpType::Random | OpType::Length | OpType::LetterOf | OpType::Join => Err(
            CompileError::Unsupported(op.name().to_owned()),
        ),
    }
}

/// Emits an expression.
pub fn codegen_expr(e: &Expr) -> (r: Result<String, CompileError>)
    ensures
        rv(r) == spec_gen_expr(e.deep_view()),
    decreases e,
{
    match e {
        Expr::BinOp { op, lhs, rhs } => match op {
            OpType::Add | OpType::Subtract | OpType::Multiply | OpType::Divide | OpType::Modulo
                | OpType::And | OpType::GreaterThan | OpType::LessThan | OpType::Equals
                | OpType::Or => {
                let l = match codegen_expr(lhs) {
                    Ok(x) => x,
                    Err(er) => {
                        return Err(er);
                    },
                };
                let tok = match bin_op_to_str(*op) {
                    Ok(t) => t,
                    Err(er) => {
                        return Err(er);
                    },
                };
                let r2 = match codegen_expr(rhs) {
                    Ok(x) => x,
                    Err(er) => {
                        return Err(er);
                    },
                };
                let mut out = "(".to_owned();
                out.append(l.as_str());
                out.append(") ");
                out.append(tok.as_str());
                out.append(" (");
                out.append(r2.as_str());
                out.append(")");
                Ok(out)
            },
            _ => Err(CompileError::Unsupported(op.name().to_owned())),
        },
        Expr::SingleOp { op, expr } => match op {
            OpType::Not => {
                let x = match codegen_expr(expr) {
                    Ok(x) => x,
                    Err(er) => {
                        return Err(er);
                    },
                };
                let mut out = "!(".to_owned();
                out.append(x.as_str());
                out.append(")");
                Ok(out)
            },
            _ => Err(CompileError::Unsupported(op.name().to_owned())),
        },
        Expr::LetterOf { val, index } => {
            let v = match codegen_expr(val) {
                Ok(x) => x,
                Err(er) => {
                    return Err(er);
                },
            };
            let ix = match codegen_expr(index) {
                Ok(x) => x,
                Err(er) => {
                    return Err(er);
                },
            };
            let mut out = "(".to_owned();
            out.append(v.as_str());
            out.append(")[static_cast<int>((");
            out.append(ix.as_str());
            out.append("-1).get<double>())]");
            Ok(out)
        },
        Expr::ItemOf { list_name, index } => {
            let ix = match codegen_expr(index) {
                Ok(x) => x,
                Err(er) => {
                    return Err(er);
                },
            };
            let mut out = mangle(list_name.as_str());
            out.append("[static_cast<int>((");
            out.append(ix.as_str());
            out.append("-1).get<double>())]");
            Ok(out)
        },
        Expr::Val(v) => match v {
            Value::Number(x) => Ok(i64_dec(*x)),
            Value::Str(s) => {
                let mut out = "\"".to_owned();
                out.append(s.as_str());
                out.append("\"");
                Ok(out)
            },
        },
        Expr::Var(n) => Ok(mangle(n.as_str())),
        Expr::Param(n) => Ok(mangle(n.as_str())),
    }
}

proof fn lemma_gen_args_err(ps: Seq<ExprV>, i: int, e: ErrorV)
    requires
        0 <= i < ps.len(),
        spec_gen_args(ps.take(i)) is Ok,
        spec_gen_expr(ps[i]) == Err::<Seq<char>, ErrorV>(e),
    ensures
        spec_gen_args(ps) == Err::<Seq<char>, ErrorV>(e),
    decreases ps.len(),
{
    if ps.len() == 1 {
    } else if i == ps.len() - 1 {
        assert(ps.drop_last() =~= ps.take(i));
        assert(ps.last() == ps[i]);
    } else {
        assert(ps.drop_last().take(i) =~= ps.take(i));
        lemma_gen_args_err(ps.drop_last(), i, e);
    }
}

/// Emits a call's argument list, comma-separated.
fn codegen_args(ps: &Vec<Expr>) -> (r: Result<String, CompileError>)
    ensures
        rv(r) == spec_gen_args(ps.deep_view()),
{
    let mut out = String::new();
    let mut i: usize = 0;
    proof {
        assert(ps.deep_view().take(0) =~= Seq::<ExprV>::empty());
    }
    while i < ps.len()
        invariant
            i <= ps@.len(),
            ps@.len() == ps.deep_view().len(),
            spec_gen_args(ps.deep_view().take(i as int)) == Ok::<Seq<char>, ErrorV>(out@),
        decreases ps@.len() - i,
    {
        let x = match codegen_expr(&ps[i]) {
            Ok(x) => x,
            Err(er) => {
                proof {
                    lemma_gen_args_err(ps.deep_view(), i as int, er.deep_view());
                }
                return Err(er);
            },
        };
        if i > 0 {
            out.append(",");
        }
        out.append(x.as_str());
        proof {
            assert(ps.deep_view().take((i + 1) as int).drop_last() =~= ps.deep_view().take(
                i as int,
            ));
            assert(ps.deep_view().take((i + 1) as int).last() == ps.deep_view()[i as int]);
            if i == 0 {
                assert(ps.deep_view().take(1int)[0] == ps.deep_view()[0]);
            }
        }
        i += 1;
    }
    proof {
        assert(ps.deep_view().take(ps@.len() as int) =~= ps.deep_view());
    }
    Ok(out)
}

/// Emits a closure's parameter list, comma-separated.
fn codegen_params(names: &Vec<String>) -> (r: String)
    ensures
        r@ == spec_gen_params(names.deep_view()),
{
    let mut out = String::new();
    let mut i: usize = 0;
    proof {
        assert(names.deep_view().take(0) =~= Seq::<Seq<char>>::empty());
    }
    while i < names.len()
        invariant
            i <= names@.len(),
            names@.len() == names.deep_view().len(),
            out@ == spec_gen_params(names.deep_view().take(i as int)),
        decreases names@.len() - i,
    {
        if i > 0 {
            out.append(",");
        }
        out.append("ScratchValue ");
        let m = mangle(names[i].as_str());
        out.append(m.as_str());
        proof {
            assert(names.deep_view().take((i + 1) as int).drop_last() =~= names.deep_view().take(
                i as int,
            ));
            assert(names.deep_view().take((i + 1) as int).last() == names.deep_view()[i as int]);
            if i == 0 {
                assert(names.deep_view().take(1int)[0] == names.deep_view()[0]);
            }
        }
        i += 1;
    }
    proof {
        assert(names.deep_view().take(names@.len() as int) =~= names.deep_view());
    }
    out
}

proof fn lemma_gen_stmts_err(ss: Seq<StmtV>, i: int, e: ErrorV)
    requires
        0 <= i < ss.len(),
        spec_gen_stmts(ss.take(i)) is Ok,
        spec_gen_stmt(ss[i]) == Err::<Seq<char>, ErrorV>(e),
    ensures
        spec_gen_stmts(ss) == Err::<Seq<char>, ErrorV>(e),
    decreases ss.len(),
{
    if i == ss.len() - 1 {
        assert(ss.drop_last() =~= ss.take(i));
        assert(ss.last() == ss[i]);
    } else {
        assert(ss.drop_last().take(i) =~= ss.take(i));
        lemma_gen_stmts_err(ss.drop_last(), i, e);
    }
}

/// Emits a run of statements, concatenated in order.
fn codegen_stmts(ss: &Vec<Stmt>) -> (r: Result<String, CompileError>)
    ensures
        rv(r) == spec_gen_stmts(ss.deep_view()),
    decreases ss,
{
    let mut out = String::new();
    let mut i: usize = 0;
    proof {
        assert(ss.deep_view().take(0) =~= Seq::<StmtV>::empty());
    }
    while i < ss.len()
        invariant
            i <= ss@.len(),
            ss@.len() == ss.deep_view().len(),
            spec_gen_stmts(ss.deep_view().take(i as int)) == Ok::<Seq<char>, ErrorV>(out@),
        decreases ss@.len() - i,
    {
        let x = match codegen_stmt(&ss[i]) {
            Ok(x) => x,
            Err(er) => {
                proof {
                    lemma_gen_stmts_err(ss.deep_view(), i as int, er.deep_view());
                }
                return Err(er);
            },
        };
        out.append(x.as_str());
        proof {
            assert(ss.deep_view().take((i + 1) as int).drop_last() =~= ss.deep_view().take(
                i as int,
            ));
            assert(ss.deep_view().take((i + 1) as int).last() == ss.deep_view()[i as int]);
        }
        i += 1;
    }
    proof {
        assert(ss.deep_view().take(ss@.len() as int) =~= ss.deep_view());
    }
    Ok(out)
}

/// Emits one statement.
pub fn codegen_stmt(statement: &Stmt) -> (r: Result<String, CompileError>)
    ensures
        rv(r) == spec_gen_stmt(statement.deep_view()),
    decreases statement,
{
    match statement {
        Stmt::WhenFlagClicked(b) => {
            proof {
                crate::ast::lemma_stmts_view_is_dv(b.stmts);
            }
            codegen_stmts(&b.stmts)
        },
        Stmt::SetVariable { name, id, val } => {
            let v = match codegen_expr(val) {
                Ok(x) => x,
                Err(er) => {
                    return Err(er);
                },
            };
            let mut out = mangle(name.as_str());
            out.append(" = (");
            out.append(v.as_str());
            out.append(");\n");
            Ok(out)
        },
        Stmt::AddToList { name, id, val } => {
            let v = match codegen_expr(val) {
                Ok(x) => x,
                Err(er) => {
                    return Err(er);
                },
            };
            let mut out = mangle(name.as_str());
            out.append(".push_back(");
            out.append(v.as_str());
            out.append(");");
            Ok(out)
        },
        Stmt::DeleteAllOfList { name } => {
            let mut out = mangle(name.as_str());
            out.append(".clear();");
            Ok(out)
        },
        Stmt::Repeat { times, block } => {
            let t = match codegen_expr(times) {
                Ok(x) => x,
                Err(er) => {
                    return Err(er);
                },
            };
            proof {
                crate::ast::lemma_stmts_view_is_dv(block.stmts);
            }
            let body = match codegen_stmts(&block.stmts) {
                Ok(x) => x,
                Err(er) => {
                    return Err(er);
                },
            };
            let mut out = "for (auto _ = ".to_owned();
            out.append(t.as_str());
            out.append("; _--;){\n");
            out.append(body.as_str());
            out.append("}\n");
            Ok(out)
        },
        Stmt::RepeatUntil { condition, block } => {
            let c = match codegen_expr(condition) {
                Ok(x) => x,
                Err(er) => {
                    return Err(er);
                },
            };
            proof {
                crate::ast::lemma_stmts_view_is_dv(block.stmts);
            }
            let body = match codegen_stmts(&block.stmts) {
                Ok(x) => x,
                Err(er) => {
                    return Err(er);
                },
            };
            let mut out = "while(!(".to_owned();
            out.append(c.as_str());
            out.append(")) {\n");
            out.append(body.as_str());
            out.append("}\n");
            Ok(out)
        },
        Stmt::If { condition, block } => {
            let c = match codegen_expr(condition) {
                Ok(x) => x,
                Err(er) => {
                    return Err(er);
                },
            };
            proof {
                crate::ast::lemma_stmts_view_is_dv(block.stmts);
            }
            let body = match codegen_stmts(&block.stmts) {
                Ok(x) => x,
                Err(er) => {
                    return Err(er);
                },
            };
            let mut out = "if (".to_owned();
            out.append(c.as_str());
            out.append(") {\n");
            out.append(body.as_str());
            out.append("}\n");
            Ok(out)
        },
        Stmt::IfElse { condition, if_block, else_block } => {
            let c = match codegen_expr(condition) {
                Ok(x) => x,
                Err(er) => {
                    return Err(er);
                },
            };
            proof {
                crate::ast::lemma_stmts_view_is_dv(if_block.stmts);
                crate::ast::lemma_stmts_view_is_dv(else_block.stmts);
            }
            let ib = match codegen_stmts(&if_block.stmts) {
                Ok(x) => x,
                Err(er) => {
                    return Err(er);
                },
            };
            let eb = match codegen_stmts(&else_block.stmts) {
                Ok(x) => x,
                Err(er) => {
                    return Err(er);
                },
            };
            let mut out = "if (".to_owned();
            out.append(c.as_str());
            out.append(") {\n");
            out.append(ib.as_str());
            out.append("} else {\n");
            out.append(eb.as_str());
            out.append("}\n");
            Ok(out)
        },
        Stmt::ChangeBy { var_name, inc } => {
            let x = match codegen_expr(inc) {
                Ok(x) => x,
                Err(er) => {
                    return Err(er);
                },
            };
            let mut out = mangle(var_name.as_str());
            out.append(" += ");
            out.append(x.as_str());
            out.append(";");
            Ok(out)
        },
        Stmt::ProcedureCall { proc, params } => {
            proof {
                crate::ast::lemma_exprs_view_is_dv(*params);
            }
            let a = match codegen_args(params) {
                Ok(x) => x,
                Err(er) => {
                    return Err(er);
                },
            };
            let mut out = proc.clone();
            out.append("(");
            out.append(a.as_str());
            out.append(");");
            Ok(out)
        },
        Stmt::ProcedureDefinition { prototype, body } => {
            proof {
                crate::ast::lemma_stmts_view_is_dv(body.stmts);
            }
            let bs = match codegen_stmts(&body.stmts) {
                Ok(x) => x,
                Err(er) => {
                    return Err(er);
                },
            };
            let mut out = "auto ".to_owned();
            out.append(prototype.name.as_str());
            out.append(" = [&](");
            let params = codegen_params(&prototype.param_order);
            out.append(params.as_str());
            out.append(") {");
            out.append(bs.as_str());
            out.append("};");
            Ok(out)
        },
        Stmt::Empty => Ok(String::new()),
    }
}

/// Emits the variable declarations, one per line.
fn codegen_var_decls(names: &Vec<String>) -> (r: String)
    ensures
        r@ == spec_gen_var_decls(names.deep_view()),
{
    let mut out = String::new();
    let mut i: usize = 0;
    proof {
        assert(names.deep_view().take(0) =~= Seq::<Seq<char>>::empty());
    }
    while i < names.len()
        invariant
            i <= names@.len(),
            names@.len() == names.deep_view().len(),
            out@ == spec_gen_var_decls(names.deep_view().take(i as int)),
        decreases names@.len() - i,
    {
        out.append("ScratchValue ");
        let m = mangle(names[i].as_str());
        out.append(m.as_str());
        out.append(" = {};\n");
        proof {
            assert(names.deep_view().take((i + 1) as int).drop_last() =~= names.deep_view().take(
                i as int,
            ));
            assert(names.deep_view().take((i + 1) as int).last() == names.deep_view()[i as int]);
        }
        i += 1;
    }
    proof {
        assert(names.deep_view().take(names@.len() as int) =~= names.deep_view());
    }
    out
}

/// Emits the list declarations, one per line.
fn codegen_list_decls(names: &Vec<String>) -> (r: String)
    ensures
        r@ == spec_gen_list_decls(names.deep_view()),
{
    let mut out = String::new();
    let mut i: usize = 0;
    proof {
        assert(names.deep_view().take(0) =~= Seq::<Seq<char>>::empty());
    }
    while i < names.len()
        invariant
            i <= names@.len(),
            names@.len() == names.deep_view().len(),
            out@ == spec_gen_list_decls(names.deep_view().take(i as int)),
        decreases names@.len() - i,
    {
        out.append("ScratchList ");
        let m = mangle(names[i].as_str());
        out.append(m.as_str());
        out.append(" = {};\n");
        proof {
            assert(names.deep_view().take((i + 1) as int).drop_last() =~= names.deep_view().take(
                i as int,
            ));
            assert(names.deep_view().take((i + 1) as int).last() == names.deep_view()[i as int]);
        }
        i += 1;
    }
    proof {
        assert(names.deep_view().take(names@.len() as int) =~= names.deep_view());
    }
    out
}

/// Emits a whole program: the runtime-include header, the entry point with
/// global declarations, the procedure definitions, the program body, and a
/// normal-termination return. Same tree, same text: the output is a function
/// of the tree alone.
pub fn codegen_project(project: &Project) -> (r: Result<String, CompileError>)
    ensures
        rv(r) == spec_gen_project(project.deep_view()),
{
    let mut out = "#include <runtime/scratchnative.hpp>\nint main(void)\n{\n".to_owned();
    let vars = codegen_var_decls(&project.variables);
    out.append(vars.as_str());
    let lists = codegen_list_decls(&project.lists);
    out.append(lists.as_str());
    let procs = match codegen_stmts(&project.procedures) {
        Ok(x) => x,
        Err(er) => {
            return Err(er);
        },
    };
    out.append(procs.as_str());
    let body = match codegen_stmt(&project.body) {
        Ok(x) => x,
        Err(er) => {
            return Err(er);
        },
    };
    out.append(body.as_str());
    out.append("\nreturn 0;\n\n}");
    Ok(out)
}

} // verus!
