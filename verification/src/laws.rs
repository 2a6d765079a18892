//! Laws of the translator, stated and proved over the specification
//! functions that the executable functions are verified against.

use vstd::prelude::*;

use crate::assemble::decl_names_v;
use crate::assemble::spec_collect_vars;
use crate::assemble::spec_scratch_file_to_project;
use crate::ast::ExprV;
use crate::ast::StmtV;
use crate::codegen::is_binary_gen_op;
use crate::codegen::spec_bin_op_str;
use crate::codegen::spec_gen_expr;
use crate::codegen::spec_gen_project;
use crate::codegen::spec_gen_stmt;
use crate::error::ErrorV;
use crate::model::BlockV;
use crate::model::FileV;
use crate::model::TargetV;
use crate::model::input_block_id;
use crate::model::spec_lookup_block;
use crate::mutation::spec_bind_parameters;
use crate::resolve::spec_block_chain_to_vec;
use crate::resolve::spec_control_to_statement;
use crate::resolve::spec_scratch_block_to_statement;

verus! {

/// Determinism: translation is a function of the graph model alone, so
/// resolving and generating equal models yields byte-identical output.
pub proof fn lemma_translation_deterministic(a: FileV, b: FileV)
    requires
        a == b,
    ensures
        spec_scratch_file_to_project(a) == spec_scratch_file_to_project(b),
        match (spec_scratch_file_to_project(a), spec_scratch_file_to_project(b)) {
            (Ok(p), Ok(q)) => spec_gen_project(p) == spec_gen_project(q),
            (Err(e), Err(d)) => e == d,
            _ => false,
        },
{
}

/// The blocks of the chain rooted at `b`: the root, then the chain of the
/// block its `next` link names, as far as the links resolve and fuel lasts.
pub open spec fn spec_chain_blocks(f: FileV, b: BlockV, fuel: nat) -> Seq<BlockV>
    decreases fuel,
{
    match b.next {
        None => seq![b],
        Some(id) => match spec_lookup_block(f, b.target, id) {
            None => seq![b],
            Some(nb) => if fuel == 0 {
                seq![b]
            } else {
                seq![b] + spec_chain_blocks(f, nb, (fuel - 1) as nat)
            },
        },
    }
}

/// Chain completeness: when resolving the chain rooted at `b` succeeds, the
/// statement sequence has exactly one element per block of the chain, in
/// source order, each element the resolution of its block.
pub proof fn lemma_chain_completeness(f: FileV, b: BlockV, fuel: nat, stmts: Seq<StmtV>)
    requires
        spec_block_chain_to_vec(f, b, fuel) == Ok::<Seq<StmtV>, ErrorV>(stmts),
    ensures
        stmts.len() == spec_chain_blocks(f, b, fuel).len(),
        forall|i: int|
            0 <= i < stmts.len() ==> spec_scratch_block_to_statement(
                f,
                spec_chain_blocks(f, b, fuel)[i],
                (fuel - i) as nat,
            ) == Ok::<StmtV, ErrorV>(stmts[i]),
    decreases fuel,
{
    match b.next {
        None => {
        },
        Some(id) => match spec_lookup_block(f, b.target, id) {
            None => {
            },
            Some(nb) => {
                let chain = spec_chain_blocks(f, b, fuel);
                let rest_stmts = stmts.drop_first();
                if fuel != 0 {
                    match (
                        spec_scratch_block_to_statement(f, b, fuel),
                        spec_block_chain_to_vec(f, nb, (fuel - 1) as nat),
                    ) {
                        (Ok(s), Ok(rest)) => {
                            assert(stmts == seq![s] + rest);
                            assert(rest =~= rest_stmts);
                        },
                        _ => {
                            assert(false);
                        },
                    }
                }
                lemma_chain_completeness(f, nb, (fuel - 1) as nat, rest_stmts);
                let rest_chain = spec_chain_blocks(f, nb, (fuel - 1) as nat);
                assert(chain == seq![b] + rest_chain);
                assert forall|i: int| 0 <= i < stmts.len() implies spec_scratch_block_to_statement(
                    f,
                    chain[i],
                    (fuel - i) as nat,
                ) == Ok::<StmtV, ErrorV>(stmts[i]) by {
                    if i > 0 {
                        assert(stmts[i] == rest_stmts[i - 1]);
                        assert(chain[i] == rest_chain[i - 1]);
                    }
                }
            },
        },
    }
}

/// Empty-body policy, first half: a plain conditional whose substack input is
/// absent resolves to a no-op rather than failing.
pub proof fn lemma_if_empty_body(f: FileV, b: BlockV, fuel: nat)
    requires
        input_block_id(b, "SUBSTACK"@) is None,
    ensures
        spec_control_to_statement(f, b, "if"@, fuel) == Ok::<StmtV, ErrorV>(StmtV::Empty),
{
}

/// Empty-body policy, second half: a no-op statement emits no text.
pub proof fn lemma_empty_emits_nothing()
    ensures
        spec_gen_stmt(StmtV::Empty) == Ok::<Seq<char>, ErrorV>(Seq::<char>::empty()),
{
}

/// Empty-body policy for two-branch conditionals: with both substacks absent
/// the whole conditional is a no-op; with only the if-substack absent, any
/// conditional it resolves to has an empty if-branch.
pub proof fn lemma_if_else_empty_branches(f: FileV, b: BlockV, fuel: nat)
    requires
        input_block_id(b, "SUBSTACK"@) is None,
    ensures
        input_block_id(b, "SUBSTACK2"@) is None ==> spec_control_to_statement(
            f,
            b,
            "if_else"@,
            fuel,
        ) == Ok::<StmtV, ErrorV>(StmtV::Empty),
        match spec_control_to_statement(f, b, "if_else"@, fuel) {
            Ok(StmtV::IfElse { condition, if_block, else_block }) => if_block.stmts.len() == 0,
            _ => true,
        },
{
    reveal_strlit("if");
    reveal_strlit("repeat");
    reveal_strlit("repeat_until");
    reveal_strlit("if_else");
    assert("if_else"@.len() == 7);
    assert("if"@.len() == 2);
    assert("repeat"@.len() == 6);
    assert("repeat_until"@.len() == 12);
}

/// Parallel-array binding: with identifier and name arrays of equal length,
/// position `i` of the binding pairs the identifier at `i` with the display
/// name at `i`, one entry per identifier.
pub proof fn lemma_parallel_binding(
    ids: Seq<Seq<char>>,
    names: Seq<Seq<char>>,
    params: Seq<(Seq<char>, Seq<char>)>,
)
    requires
        spec_bind_parameters(ids, names) == Ok::<Seq<(Seq<char>, Seq<char>)>, ErrorV>(params),
    ensures
        ids.len() == names.len(),
        params.len() == ids.len(),
        forall|i: int| 0 <= i < ids.len() ==> params[i] == (ids[i], names[i]),
{
}

/// Operator fidelity: a binary operator emits the parenthesized texts of its
/// operands around its target-language token.
pub proof fn lemma_binop_parenthesized(
    op: crate::ast::OpType,
    l: ExprV,
    r: ExprV,
    lt: Seq<char>,
    rt: Seq<char>,
    tok: Seq<char>,
)
    requires
        is_binary_gen_op(op),
        spec_bin_op_str(op) == Some(tok),
        spec_gen_expr(l) == Ok::<Seq<char>, ErrorV>(lt),
        spec_gen_expr(r) == Ok::<Seq<char>, ErrorV>(rt),
    ensures
        spec_gen_expr(ExprV::BinOp { op, lhs: Box::new(l), rhs: Box::new(r) }) == Ok::<
            Seq<char>,
            ErrorV,
        >("("@ + lt + ") "@ + tok + " ("@ + rt + ")"@),
{
}

/// Name collision awareness: declarations are collected across targets in
/// order and never merged, so a display name declared by two targets yields
/// two declarations.
pub proof fn lemma_collisions_kept(ts: Seq<TargetV>)
    requires
        ts.len() == 2,
    ensures
        spec_collect_vars(ts) == decl_names_v(ts[0].variables) + decl_names_v(ts[1].variables),
{
    assert(ts.drop_last() =~= seq![ts[0]]);
    assert(seq![ts[0]].drop_last() =~= Seq::<TargetV>::empty());
    assert(spec_collect_vars(Seq::<TargetV>::empty()) =~= Seq::<Seq<char>>::empty());
    assert(spec_collect_vars(seq![ts[0]]) =~= decl_names_v(ts[0].variables));
    assert(spec_collect_vars(ts) =~= decl_names_v(ts[0].variables) + decl_names_v(
        ts[1].variables,
    ));
}

} // verus!

