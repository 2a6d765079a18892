//! The program assembler: scans all targets of a file, collects the global
//! variable and list declarations, finds the unique program-entry block,
//! resolves every procedure definition, and resolves the program body.
//!
//! Declaration names are collected across targets in model order and are not
//! deduplicated: two targets declaring the same display name yield two
//! declarations. The fuel handed to the resolver is one more than the number
//! of blocks in the file, which suffices for every acyclic graph: a walk that
//! takes more steps than there are blocks must have revisited one.

use vstd::prelude::*;

use crate::ast::Project;
use crate::ast::ProjectV;
use crate::ast::Stmt;
use crate::ast::StmtV;
use crate::error::CompileError;
use crate::error::ErrorV;
use crate::error::rv;
use crate::model::BlockV;
use crate::model::FileV;
use crate::model::ScratchBlock;
use crate::model::ScratchFile;
use crate::model::ScratchVariableDecl;
use crate::model::TargetV;
use crate::model::VariableDeclV;
use crate::model::lemma_vec_dv;
use crate::resolve::spec_scratch_block_to_statement;
use crate::resolve::scratch_block_to_statement;
use crate::strutil::str_eq;

verus! {

/// The display names of a run of declarations, in order.
pub open spec fn decl_names_v(ds: Seq<VariableDeclV>) -> Seq<Seq<char>> {
    ds.map_values(|d: VariableDeclV| d.name)
}

/// The variable display names of all targets, flattened in target order.
pub open spec fn spec_collect_vars(ts: Seq<TargetV>) -> Seq<Seq<char>>
    decreases ts.len(),
{
    if ts.len() == 0 {
        Seq::empty()
    } else {
        spec_collect_vars(ts.drop_last()) + decl_names_v(ts.last().variables)
    }
}

/// The list display names of all targets, flattened in target order.
pub open spec fn spec_collect_lists(ts: Seq<TargetV>) -> Seq<Seq<char>>
    decreases ts.len(),
{
    if ts.len() == 0 {
        Seq::empty()
    } else {
        spec_collect_lists(ts.drop_last()) + decl_names_v(ts.last().lists)
    }
}

/// Whether a block is a root (it has no parent) with the given opcode.
pub open spec fn is_root_with(b: BlockV, opcode: Seq<char>) -> bool {
    b.parent is None && b.opcode == opcode
}

/// The root blocks with the given opcode among one target's blocks, in order.
pub open spec fn roots_of_blocks(blocks: Seq<(Seq<char>, BlockV)>, opcode: Seq<char>) -> Seq<BlockV>
    decreases blocks.len(),
{
    if blocks.len() == 0 {
        Seq::empty()
    } else {
        let rest = roots_of_blocks(blocks.drop_last(), opcode);
        if is_root_with(blocks.last().1, opcode) {
            rest.push(blocks.last().1)
        } else {
            rest
        }
    }
}

/// The root blocks with the given opcode across all targets, in target order.
pub open spec fn spec_roots(ts: Seq<TargetV>, opcode: Seq<char>) -> Seq<BlockV>
    decreases ts.len(),
{
    if ts.len() == 0 {
        Seq::empty()
    } else {
        spec_roots(ts.drop_last(), opcode) + roots_of_blocks(ts.last().blocks, opcode)
    }
}

/// What resolving the procedure-definition roots denotes, in order; the first
/// failing definition decides the error.
pub open spec fn spec_resolve_procs(f: FileV, roots: Seq<BlockV>, fuel: nat) -> Result<
    Seq<StmtV>,
    ErrorV,
>
    decreases roots.len(),
{
    if roots.len() == 0 {
        Ok(Seq::empty())
    } else {
        match spec_resolve_procs(f, roots.drop_last(), fuel) {
            Err(e) => Err(e),
            Ok(rest) => match spec_scratch_block_to_statement(f, roots.last(), fuel) {
                Err(e) => Err(e),
                Ok(s) => Ok(rest.push(s)),
            },
        }
    }
}

/// Addition capped at the largest fuel value.
pub open spec fn sat_add(a: nat, b: nat) -> nat {
    if a + b > u64::MAX {
        u64::MAX as nat
    } else {
        a + b
    }
}

/// The number of blocks in the file, capped at the largest fuel value.
pub open spec fn spec_block_count(ts: Seq<TargetV>) -> nat
    decreases ts.len(),
{
    if ts.len() == 0 {
        0
    } else {
        sat_add(spec_block_count(ts.drop_last()), ts.last().blocks.len())
    }
}

/// The fuel handed to the resolver: one more than the number of blocks.
pub open spec fn spec_fuel(ts: Seq<TargetV>) -> nat {
    sat_add(spec_block_count(ts), 1)
}

/// What assembling a file denotes: the flattened declarations, the body of
/// the unique program-entry root (zero or several such roots are a structural
/// error), and the resolved procedure definitions in target order.
pub open spec fn spec_scratch_file_to_project(f: FileV) -> Result<ProjectV, ErrorV> {
    let fuel = spec_fuel(f.targets);
    let eroots = spec_roots(f.targets, "event_whenflagclicked"@);
    if eroots.len() != 1 {
        Err(ErrorV::Structure)
    } else {
        match spec_resolve_procs(f, spec_roots(f.targets, "procedures_definition"@), fuel) {
            Err(e) => Err(e),
            Ok(procs) => match spec_scratch_block_to_statement(f, eroots[0], fuel) {
                Err(e) => Err(e),
                Ok(body) => Ok(
                    ProjectV {
                        body,
                        variables: spec_collect_vars(f.targets),
                        lists: spec_collect_lists(f.targets),
                        procedures: procs,
                    },
                ),
            },
        }
    }
}

/// Appends the display names of a run of declarations.
fn decl_names_into(ds: &Vec<ScratchVariableDecl>, out: &mut Vec<String>)
    ensures
        final(out).deep_view() == old(out).deep_view() + decl_names_v(ds.deep_view()),
{
    let ghost base = out.deep_view();
    let mut j: usize = 0;
    proof {
        assert(ds.deep_view().take(0) =~= Seq::<VariableDeclV>::empty());
        assert(base + decl_names_v(ds.deep_view().take(0)) =~= base);
    }
    while j < ds.len()
        invariant
            j <= ds@.len(),
            ds@.len() == ds.deep_view().len(),
            out.deep_view() == base + decl_names_v(ds.deep_view().take(j as int)),
        decreases ds@.len() - j,
    {
        let ghost prev = out@;
        let ghost pre = out.deep_view();
        out.push(ds[j].name.clone());
        proof {
            assert forall|k: int| 0 <= k < out@.len() implies out.deep_view()[k] == pre.push(
                ds.deep_view()[j as int].name,
            )[k] by {
                if k < prev.len() {
                    assert(out@[k] == prev[k]);
                    assert(prev[k].deep_view() == pre[k]);
                }
            }
            assert(out.deep_view() =~= pre.push(ds.deep_view()[j as int].name));
            assert(ds.deep_view().take((j + 1) as int).drop_last() =~= ds.deep_view().take(
                j as int,
            ));
            assert(base + decl_names_v(ds.deep_view().take((j + 1) as int)) =~= (base
                + decl_names_v(ds.deep_view().take(j as int))).push(
                ds.deep_view()[j as int].name,
            ));
        }
        j += 1;
    }
    proof {
        assert(ds.deep_view().take(ds@.len() as int) =~= ds.deep_view());
    }
}

/// Collects every target's variable display names, flattened in target order.
fn collect_var_names(f: &ScratchFile) -> (r: Vec<String>)
    ensures
        r.deep_view() == spec_collect_vars(f.deep_view().targets),
{
    let mut out: Vec<String> = Vec::new();
    let mut i: usize = 0;
    proof {
        assert(out.deep_view() =~= Seq::<Seq<char>>::empty());
        assert(f.deep_view().targets.take(0) =~= Seq::<TargetV>::empty());
    }
    while i < f.targets.len()
        invariant
            i <= f.targets@.len(),
            f.deep_view().targets.len() == f.targets@.len(),
            out.deep_view() == spec_collect_vars(f.deep_view().targets.take(i as int)),
        decreases f.targets@.len() - i,
    {
        decl_names_into(&f.targets[i].variables, &mut out);
        proof {
            assert(f.deep_view().targets.take((i + 1) as int).drop_last()
                =~= f.deep_view().targets.take(i as int));
            assert(f.deep_view().targets[i as int].variables == f.targets@[i as int].deep_view().variables);
        }
        i += 1;
    }
    proof {
        assert(f.deep_view().targets.take(f.targets@.len() as int) =~= f.deep_view().targets);
    }
    out
}

/// Collects every target's list display names, flattened in target order.
fn collect_list_names(f: &ScratchFile) -> (r: Vec<String>)
    ensures
        r.deep_view() == spec_collect_lists(f.deep_view().targets),
{
    let mut out: Vec<String> = Vec::new();
    let mut i: usize = 0;
    proof {
        assert(out.deep_view() =~= Seq::<Seq<char>>::empty());
        assert(f.deep_view().targets.take(0) =~= Seq::<TargetV>::empty());
    }
    while i < f.targets.len()
        invariant
            i <= f.targets@.len(),
            f.deep_view().targets.len() == f.targets@.len(),
            out.deep_view() == spec_collect_lists(f.deep_view().targets.take(i as int)),
        decreases f.targets@.len() - i,
    {
        decl_names_into(&f.targets[i].lists, &mut out);
        proof {
            assert(f.deep_view().targets.take((i + 1) as int).drop_last()
                =~= f.deep_view().targets.take(i as int));
            assert(f.deep_view().targets[i as int].lists == f.targets@[i as int].deep_view().lists);
        }
        i += 1;
    }
    proof {
        assert(f.deep_view().targets.take(f.targets@.len() as int) =~= f.deep_view().targets);
    }
    out
}

/// Collects the root blocks with the given opcode across all targets.
fn collect_roots<'a>(f: &'a ScratchFile, opcode: &str) -> (r: Vec<&'a ScratchBlock>)
    ensures
        r.deep_view() == spec_roots(f.deep_view().targets, opcode@),
{
    let mut out: Vec<&ScratchBlock> = Vec::new();
    let mut i: usize = 0;
    proof {
        assert(out.deep_view() =~= Seq::<BlockV>::empty());
        assert(f.deep_view().targets.take(0) =~= Seq::<TargetV>::empty());
    }
    while i < f.targets.len()
        invariant
            i <= f.targets@.len(),
            f.deep_view().targets.len() == f.targets@.len(),
            out.deep_view() == spec_roots(f.deep_view().targets.take(i as int), opcode@),
        decreases f.targets@.len() - i,
    {
        let t = &f.targets[i];
        let ghost tv = t.deep_view();
        let ghost outer = out.deep_view();
        proof {
            assert(tv.blocks.take(0) =~= Seq::<(Seq<char>, BlockV)>::empty());
            assert(outer + roots_of_blocks(tv.blocks.take(0), opcode@) =~= outer);
        }
        let mut j: usize = 0;
        while j < t.blocks.len()
            invariant
                j <= t.blocks@.len(),
                tv == t.deep_view(),
                tv.blocks.len() == t.blocks@.len(),
                out.deep_view() == outer + roots_of_blocks(tv.blocks.take(j as int), opcode@),
            decreases t.blocks@.len() - j,
        {
            let b = &t.blocks[j].1;
            proof {
                assert(tv.blocks[j as int] == t.blocks@[j as int].deep_view());
            }
            if b.parent.is_none() && str_eq(b.opcode.as_str(), opcode) {
                let ghost prev = out@;
                let ghost pre = out.deep_view();
                out.push(b);
                proof {
                    assert forall|k: int| 0 <= k < out@.len() implies out.deep_view()[k]
                        == pre.push(tv.blocks[j as int].1)[k] by {
                        if k < prev.len() {
                            assert(out@[k] == prev[k]);
                            assert(prev[k].deep_view() == pre[k]);
                        }
                    }
                    assert(out.deep_view() =~= pre.push(tv.blocks[j as int].1));
                }
            }
            proof {
                assert(tv.blocks.take((j + 1) as int).drop_last() =~= tv.blocks.take(j as int));
                assert(out.deep_view() =~= outer + roots_of_blocks(
                    tv.blocks.take((j + 1) as int),
                    opcode@,
                ));
            }
            j += 1;
        }
        proof {
            assert(tv.blocks.take(t.blocks@.len() as int) =~= tv.blocks);
            assert(f.deep_view().targets.take((i + 1) as int).drop_last()
                =~= f.deep_view().targets.take(i as int));
            assert(f.deep_view().targets[i as int] == tv);
            assert(out.deep_view() =~= spec_roots(
                f.deep_view().targets.take((i + 1) as int),
                opcode@,
            ));
        }
        i += 1;
    }
    proof {
        assert(f.deep_view().targets.take(f.targets@.len() as int) =~= f.deep_view().targets);
    }
    out
}

/// Computes the resolver's fuel: one more than the number of blocks in the
/// file, capped at the largest fuel value.
fn compute_fuel(f: &ScratchFile) -> (r: u64)
    ensures
        r as nat == spec_fuel(f.deep_view().targets),
{
    let mut acc: u64 = 0;
    let mut i: usize = 0;
    proof {
        assert(f.deep_view().targets.take(0) =~= Seq::<TargetV>::empty());
    }
    while i < f.targets.len()
        invariant
            i <= f.targets@.len(),
            f.deep_view().targets.len() == f.targets@.len(),
            acc as nat == spec_block_count(f.deep_view().targets.take(i as int)),
        decreases f.targets@.len() - i,
    {
        let n = f.targets[i].blocks.len();
        acc = if (n as u64) > u64::MAX - acc {
            u64::MAX
        } else {
            acc + (n as u64)
        };
        proof {
            assert(f.deep_view().targets.take((i + 1) as int).drop_last()
                =~= f.deep_view().targets.take(i as int));
            assert(f.deep_view().targets[i as int].blocks.len() == f.targets@[i as int].blocks@.len());
        }
        i += 1;
    }
    proof {
        assert(f.deep_view().targets.take(f.targets@.len() as int) =~= f.deep_view().targets);
    }
    if acc == u64::MAX {
        u64::MAX
    } else {
        acc + 1
    }
}

proof fn lemma_resolve_procs_err(f: FileV, roots: Seq<BlockV>, i: int, e: ErrorV, fuel: nat)
    requires
        0 <= i < roots.len(),
        spec_resolve_procs(f, roots.take(i), fuel) is Ok,
        spec_scratch_block_to_statement(f, roots[i], fuel) == Err::<StmtV, ErrorV>(e),
    ensures
        spec_resolve_procs(f, roots, fuel) == Err::<Seq<StmtV>, ErrorV>(e),
    decreases roots.len(),
{
    if i == roots.len() - 1 {
        assert(roots.drop_last() =~= roots.take(i));
        assert(roots.last() == roots[i]);
    } else {
        assert(roots.drop_last().take(i) =~= roots.take(i));
        lemma_resolve_procs_err(f, roots.drop_last(), i, e, fuel);
    }
}

/// Assembles a fully decoded file into one resolved program.
pub fn scratch_file_to_project(file: &ScratchFile) -> (r: Result<Project, CompileError>)
    ensures
        rv(r) == spec_scratch_file_to_project(file.deep_view()),
{
    let fuel = compute_fuel(file);
    let variables = collect_var_names(file);
    let lists = collect_list_names(file);
    let entry_roots = collect_roots(file, "event_whenflagclicked");
    proof {
        lemma_vec_dv(entry_roots);
    }
    if entry_roots.len() != 1 {
        return Err(CompileError::Structure);
    }
    let proc_roots = collect_roots(file, "procedures_definition");
    proof {
        lemma_vec_dv(proc_roots);
    }
    let mut procedures: Vec<Stmt> = Vec::new();
    let mut i: usize = 0;
    proof {
        assert(procedures.deep_view() =~= Seq::<StmtV>::empty());
        assert(proc_roots.deep_view().take(0) =~= Seq::<BlockV>::empty());
    }
    while i < proc_roots.len()
        invariant
            i <= proc_roots@.len(),
            procedures@.len() == i,
            proc_roots.deep_view().len() == proc_roots@.len(),
            proc_roots.deep_view() == spec_roots(
                file.deep_view().targets,
                "procedures_definition"@,
            ),
            spec_roots(file.deep_view().targets, "event_whenflagclicked"@).len() == 1,
            fuel as nat == spec_fuel(file.deep_view().targets),
            spec_resolve_procs(
                file.deep_view(),
                proc_roots.deep_view().take(i as int),
                fuel as nat,
            ) == Ok::<Seq<StmtV>, ErrorV>(procedures.deep_view()),
        decreases proc_roots@.len() - i,
    {
        let rb: &ScratchBlock = proc_roots[i];
        match scratch_block_to_statement(file, rb, fuel) {
            Err(e) => {
                proof {
                    lemma_resolve_procs_err(
                        file.deep_view(),
                        proc_roots.deep_view(),
                        i as int,
                        e.deep_view(),
                        fuel as nat,
                    );
                }
                return Err(e);
            },
            Ok(s) => {
                let ghost prev = procedures@;
                let ghost pre = procedures.deep_view();
                let ghost sv = s.deep_view();
                procedures.push(s);
                proof {
                    assert forall|k: int| 0 <= k < procedures@.len() implies procedures.deep_view()[k]
                        == pre.push(sv)[k] by {
                        if k < prev.len() {
                            assert(procedures@[k] == prev[k]);
                            assert(prev[k].deep_view() == pre[k]);
                        }
                    }
                    assert(procedures.deep_view() =~= pre.push(sv));
                    assert(proc_roots.deep_view().take((i + 1) as int).drop_last()
                        =~= proc_roots.deep_view().take(i as int));
                    assert(proc_roots.deep_view().take((i + 1) as int).last()
                        == proc_roots.deep_view()[i as int]);
                }
            },
        }
        i += 1;
    }
    proof {
        assert(proc_roots.deep_view().take(proc_roots@.len() as int) =~= proc_roots.deep_view());
    }
    let body = match scratch_block_to_statement(file, entry_roots[0], fuel) {
        Ok(s) => s,
        Err(e) => {
            return Err(e);
        },
    };
    Ok(Project { body, variables, lists, procedures })
}

} // verus!
