use scratchnative::assemble::scratch_file_to_project;
use scratchnative::ast::Expr;
use scratchnative::ast::OpType;
use scratchnative::ast::Stmt;
use scratchnative::ast::Value;
use scratchnative::codegen::bin_op_to_str;
use scratchnative::codegen::codegen_expr;
use scratchnative::codegen::codegen_project;
use scratchnative::codegen::codegen_stmt;
use scratchnative::error::CompileError;
use scratchnative::model::ScratchBlock;
use scratchnative::model::ScratchFile;
use scratchnative::model::ScratchInitializer;
use scratchnative::model::ScratchInput;
use scratchnative::model::ScratchMetadata;
use scratchnative::model::ScratchTarget;
use scratchnative::model::ScratchTypes;
use scratchnative::model::ScratchValue;
use scratchnative::model::ScratchValueData;
use scratchnative::model::ScratchVariableDecl;
use scratchnative::mutation::bind_parameters;
use scratchnative::resolve::control_to_statement;
use scratchnative::resolve::expr_from_operator;
use scratchnative::resolve::procedures_to_statement;
use scratchnative::resolve::scratch_block_to_statement;

fn meta() -> ScratchMetadata {
    ScratchMetadata {
        user_agent: String::from("test"),
        semantic_version: String::from("3.0.0"),
        vm_version: String::from("0.1.0"),
    }
}

fn block(opcode: &str, next: Option<&str>, parent: Option<&str>) -> ScratchBlock {
    ScratchBlock {
        opcode: String::from(opcode),
        next: next.map(String::from),
        parent: parent.map(String::from),
        inputs: Vec::new(),
        fields: Vec::new(),
        mutation: Vec::new(),
        target: 0,
    }
}

fn num_input(v: i64) -> ScratchInput {
    ScratchInput {
        shadow: 1,
        value: ScratchValue {
            value_type: ScratchTypes::Number,
            data: ScratchValueData::Int(v),
        },
    }
}

fn str_input(s: &str) -> ScratchInput {
    ScratchInput {
        shadow: 1,
        value: ScratchValue {
            value_type: ScratchTypes::Str,
            data: ScratchValueData::Str(String::from(s)),
        },
    }
}

fn call_input(id: &str) -> ScratchInput {
    ScratchInput {
        shadow: 1,
        value: ScratchValue {
            value_type: ScratchTypes::BlockCall,
            data: ScratchValueData::BlockCall(String::from(id)),
        },
    }
}

fn var_input(name: &str) -> ScratchInput {
    ScratchInput {
        shadow: 1,
        value: ScratchValue {
            value_type: ScratchTypes::Variable,
            data: ScratchValueData::Variable(String::from(name)),
        },
    }
}

fn var_decl(name: &str) -> ScratchVariableDecl {
    ScratchVariableDecl {
        name: String::from(name),
        init: ScratchInitializer::Int(0),
    }
}

fn target(
    variables: Vec<ScratchVariableDecl>,
    lists: Vec<ScratchVariableDecl>,
    blocks: Vec<(&str, ScratchBlock)>,
) -> ScratchTarget {
    ScratchTarget {
        is_stage: true,
        name: String::from("Stage"),
        variables,
        lists,
        blocks: blocks
            .into_iter()
            .map(|(k, b)| (String::from(k), b))
            .collect(),
    }
}

fn one_target_file(t: ScratchTarget) -> ScratchFile {
    ScratchFile {
        metadata: meta(),
        targets: vec![t],
    }
}

fn set_block(var: &str, id: &str, input: ScratchInput, next: Option<&str>) -> ScratchBlock {
    let mut b = block("data_setvariableto", next, Some("parent"));
    b.inputs.push((String::from("VALUE"), input));
    b.fields
        .push((String::from("VARIABLE"), vec![String::from(var), String::from(id)]));
    b
}

fn add_block(lhs: ScratchInput, rhs: ScratchInput) -> ScratchBlock {
    let mut b = block("operator_add", None, Some("parent"));
    b.inputs.push((String::from("NUM1"), lhs));
    b.inputs.push((String::from("NUM2"), rhs));
    b
}

fn header() -> String {
    let mut s = String::from("#");
    s.push_str("include <runtime/scratchnative.hpp>\nint main(void)\n{\n");
    s
}

#[test]
fn end_to_end_sum_assignment() {
    // A program-entry block chained to an assignment whose value is the sum
    // of the literals 2 and 3.
    let entry = block("event_whenflagclicked", Some("b_set"), None);
    let set = set_block("score", "id1", call_input("b_add"), None);
    let add = add_block(num_input(2), num_input(3));
    let file = one_target_file(target(
        vec![var_decl("score")],
        Vec::new(),
        vec![("b_entry", entry), ("b_set", set), ("b_add", add)],
    ));
    let project = scratch_file_to_project(&file).unwrap();
    assert_eq!(project.variables, vec![String::from("score")]);
    let text = codegen_project(&project).unwrap();
    let mut expected = header();
    expected.push_str("ScratchValue score = {};\n");
    expected.push_str("score = ((2) + (3));\n");
    expected.push_str("\nreturn 0;\n\n}");
    assert_eq!(text, expected);
}

#[test]
fn translation_is_deterministic() {
    let entry = block("event_whenflagclicked", Some("b_set"), None);
    let set = set_block("score", "id1", call_input("b_add"), None);
    let add = add_block(num_input(2), num_input(3));
    let file = one_target_file(target(
        vec![var_decl("score")],
        Vec::new(),
        vec![("b_entry", entry), ("b_set", set), ("b_add", add)],
    ));
    let first = codegen_project(&scratch_file_to_project(&file).unwrap()).unwrap();
    let second = codegen_project(&scratch_file_to_project(&file).unwrap()).unwrap();
    assert_eq!(first, second);
}

#[test]
fn chain_of_three_resolves_to_three_statements() {
    let entry = block("event_whenflagclicked", Some("s1"), None);
    let s1 = set_block("a", "i1", num_input(1), Some("s2"));
    let s2 = set_block("b", "i2", num_input(2), Some("s3"));
    let s3 = set_block("c", "i3", num_input(3), None);
    let file = one_target_file(target(
        vec![var_decl("a"), var_decl("b"), var_decl("c")],
        Vec::new(),
        vec![("b_entry", entry), ("s1", s1), ("s2", s2), ("s3", s3)],
    ));
    let project = scratch_file_to_project(&file).unwrap();
    match &project.body {
        Stmt::WhenFlagClicked(body) => {
            assert_eq!(body.stmts.len(), 3);
            let names: Vec<&str> = body
                .stmts
                .iter()
                .map(|s| match s {
                    Stmt::SetVariable { name, .. } => name.as_str(),
                    _ => panic!("expected an assignment"),
                })
                .collect();
            assert_eq!(names, vec!["a", "b", "c"]);
        }
        _ => panic!("expected the program entry"),
    }
}

#[test]
fn if_without_substack_is_a_no_op() {
    let file = one_target_file(target(Vec::new(), Vec::new(), Vec::new()));
    let b = block("control_if", None, None);
    let stmt = control_to_statement(&file, &b, "if", 10).unwrap();
    assert!(matches!(stmt, Stmt::Empty));
    let text = codegen_stmt(&stmt).unwrap();
    assert_eq!(text, "");
}

#[test]
fn if_else_with_only_else_branch_has_empty_if_branch() {
    let body = set_block("a", "i1", num_input(1), None);
    let mut cond = block("operator_equals", None, Some("p"));
    cond.inputs.push((String::from("OPERAND1"), num_input(1)));
    cond.inputs.push((String::from("OPERAND2"), num_input(2)));
    let mut ifelse = block("control_if_else", None, None);
    ifelse
        .inputs
        .push((String::from("CONDITION"), call_input("b_cond")));
    ifelse
        .inputs
        .push((String::from("SUBSTACK2"), call_input("b_body")));
    let file = one_target_file(target(
        Vec::new(),
        Vec::new(),
        vec![("b_cond", cond), ("b_body", body)],
    ));
    let stmt = control_to_statement(&file, &ifelse, "if_else", 10).unwrap();
    match &stmt {
        Stmt::IfElse {
            if_block,
            else_block,
            ..
        } => {
            assert_eq!(if_block.stmts.len(), 0);
            assert_eq!(else_block.stmts.len(), 1);
        }
        _ => panic!("expected a two-branch conditional"),
    }
    let text = codegen_stmt(&stmt).unwrap();
    assert_eq!(text, "if ((1) == (2)) {\n} else {\na = (1);\n}\n");
}

#[test]
fn if_else_with_both_branches_absent_is_a_no_op() {
    let file = one_target_file(target(Vec::new(), Vec::new(), Vec::new()));
    let b = block("control_if_else", None, None);
    let stmt = control_to_statement(&file, &b, "if_else", 10).unwrap();
    assert!(matches!(stmt, Stmt::Empty));
}

#[test]
fn list_access_converts_index_to_zero_based() {
    let e = Expr::ItemOf {
        list_name: String::from("xs"),
        index: Box::new(Expr::Val(Value::Number(3))),
    };
    let text = codegen_expr(&e).unwrap();
    assert_eq!(text, "xs[static_cast<int>((3-1).get<double>())]");
}

#[test]
fn letter_access_converts_index_to_zero_based() {
    let e = Expr::LetterOf {
        val: Box::new(Expr::Val(Value::Str(String::from("hi")))),
        index: Box::new(Expr::Val(Value::Number(2))),
    };
    let text = codegen_expr(&e).unwrap();
    assert_eq!(text, "(\"hi\")[static_cast<int>((2-1).get<double>())]");
}

#[test]
fn parallel_arrays_bind_positionally() {
    let ids = vec![String::from("a1"), String::from("a2")];
    let names = vec![String::from("count"), String::from("label")];
    let params = bind_parameters(&ids, &names).unwrap();
    assert_eq!(
        params,
        vec![
            (String::from("a1"), String::from("count")),
            (String::from("a2"), String::from("label")),
        ]
    );
}

#[test]
fn mismatched_parallel_arrays_are_malformed() {
    let ids = vec![String::from("a1"), String::from("a2")];
    let names = vec![String::from("count")];
    assert!(matches!(
        bind_parameters(&ids, &names),
        Err(CompileError::Malformed(_))
    ));
}

#[test]
fn procedure_definition_binds_and_mangles() {
    let mut def = block("procedures_definition", Some("p_body"), None);
    def.inputs
        .push((String::from("custom_block"), call_input("p_proto")));
    let mut proto = block("procedures_prototype", None, Some("p_def"));
    proto.mutation.push((
        String::from("proccode"),
        String::from("do thing %s %s"),
    ));
    proto.mutation.push((
        String::from("argumentids"),
        String::from("[\"a1\",\"a2\"]"),
    ));
    proto.mutation.push((
        String::from("argumentnames"),
        String::from("[\"count\",\"label\"]"),
    ));
    let body = set_block("score", "i1", num_input(7), None);
    let file = one_target_file(target(
        vec![var_decl("score")],
        Vec::new(),
        vec![("p_def", def), ("p_proto", proto), ("p_body", body)],
    ));
    let stmt =
        procedures_to_statement(&file, &file.targets[0].blocks[0].1, "definition", 10).unwrap();
    match &stmt {
        Stmt::ProcedureDefinition { prototype, body } => {
            assert_eq!(prototype.name, "do_thing_%s_%s");
            assert_eq!(
                prototype.param_order,
                vec![String::from("count"), String::from("label")]
            );
            assert_eq!(
                prototype.params,
                vec![
                    (String::from("a1"), String::from("count")),
                    (String::from("a2"), String::from("label")),
                ]
            );
            assert_eq!(body.stmts.len(), 1);
        }
        _ => panic!("expected a procedure definition"),
    }
    let text = codegen_stmt(&stmt).unwrap();
    assert_eq!(
        text,
        "auto do_thing_%s_%s = [&](ScratchValue count,ScratchValue label) {score = (7);\n};"
    );
}

#[test]
fn procedure_call_resolves_arguments_in_array_order() {
    let mut call = block("procedures_call", None, Some("p")) ;
    call.mutation.push((
        String::from("proccode"),
        String::from("do thing %s %s"),
    ));
    call.mutation.push((
        String::from("argumentids"),
        String::from("[\"a1\",\"a2\"]"),
    ));
    call.inputs.push((String::from("a1"), num_input(1)));
    call.inputs.push((String::from("a2"), str_input("x")));
    let file = one_target_file(target(Vec::new(), Vec::new(), Vec::new()));
    let stmt = procedures_to_statement(&file, &call, "call", 10).unwrap();
    let text = codegen_stmt(&stmt).unwrap();
    assert_eq!(text, "do_thing_%s_%s(1,\"x\");");
}

#[test]
fn operator_add_emits_parenthesized_sum() {
    let mut b = add_block(num_input(2), num_input(3));
    b.parent = None;
    let file = one_target_file(target(Vec::new(), Vec::new(), Vec::new()));
    let e = expr_from_operator(&file, &b, "add", 10).unwrap();
    match &e {
        Expr::BinOp { op, .. } => assert!(matches!(op, OpType::Add)),
        _ => panic!("expected a binary operation"),
    }
    let text = codegen_expr(&e).unwrap();
    assert_eq!(text, "(2) + (3)");
}

#[test]
fn boolean_and_comparison_operators_read_operand_slots() {
    let mut b = block("operator_and", None, None);
    b.inputs.push((String::from("OPERAND1"), num_input(1)));
    b.inputs.push((String::from("OPERAND2"), num_input(0)));
    let file = one_target_file(target(Vec::new(), Vec::new(), Vec::new()));
    let e = expr_from_operator(&file, &b, "and", 10).unwrap();
    assert_eq!(codegen_expr(&e).unwrap(), "(1) && (0)");
}

#[test]
fn name_collision_across_targets_keeps_both_declarations() {
    let entry = block("event_whenflagclicked", None, None);
    let mut t0 = target(
        vec![var_decl("x")],
        Vec::new(),
        vec![("b_entry", entry)],
    );
    // The entry with no follower is rejected; give it a follower.
    t0.blocks[0].1.next = Some(String::from("s1"));
    t0.blocks
        .push((String::from("s1"), set_block("x", "i1", num_input(1), None)));
    let t1 = ScratchTarget {
        is_stage: false,
        name: String::from("Sprite1"),
        variables: vec![var_decl("x")],
        lists: Vec::new(),
        blocks: Vec::new(),
    };
    let file = ScratchFile {
        metadata: meta(),
        targets: vec![t0, t1],
    };
    let project = scratch_file_to_project(&file).unwrap();
    assert_eq!(project.variables, vec![String::from("x"), String::from("x")]);
    let text = codegen_project(&project).unwrap();
    assert!(text.contains("ScratchValue x = {};\nScratchValue x = {};\n"));
}

#[test]
fn variable_and_param_names_with_spaces_are_mangled() {
    let e = Expr::Var(String::from("my var"));
    assert_eq!(codegen_expr(&e).unwrap(), "my_var");
    let s = Stmt::DeleteAllOfList {
        name: String::from("my list"),
    };
    assert_eq!(codegen_stmt(&s).unwrap(), "my_list.clear();");
}

#[test]
fn negative_and_extreme_numbers_render_in_decimal() {
    assert_eq!(codegen_expr(&Expr::Val(Value::Number(0))).unwrap(), "0");
    assert_eq!(codegen_expr(&Expr::Val(Value::Number(-42))).unwrap(), "-42");
    assert_eq!(
        codegen_expr(&Expr::Val(Value::Number(i64::MIN))).unwrap(),
        "-9223372036854775808"
    );
    assert_eq!(
        codegen_expr(&Expr::Val(Value::Number(i64::MAX))).unwrap(),
        "9223372036854775807"
    );
}

#[test]
fn unsupported_operator_token_is_reported() {
    assert!(matches!(
        bin_op_to_str(OpType::Join),
        Err(CompileError::Unsupported(_))
    ));
    let e = Expr::SingleOp {
        op: OpType::Length,
        expr: Box::new(Expr::Val(Value::Number(1))),
    };
    assert!(matches!(
        codegen_expr(&e),
        Err(CompileError::Unsupported(_))
    ));
}

#[test]
fn operator_parsing_recognizes_known_names_only() {
    assert!(matches!(OpType::from_str("gt"), Ok(OpType::GreaterThan)));
    assert!(matches!(
        OpType::from_str("quux"),
        Err(CompileError::Unsupported(_))
    ));
}

#[test]
fn unknown_opcode_family_is_malformed() {
    let file = one_target_file(target(Vec::new(), Vec::new(), Vec::new()));
    let b = block("motion_movesteps", None, None);
    assert!(matches!(
        scratch_block_to_statement(&file, &b, 10),
        Err(CompileError::Malformed(_))
    ));
    let no_sep = block("broken", None, None);
    assert!(matches!(
        scratch_block_to_statement(&file, &no_sep, 10),
        Err(CompileError::Malformed(_))
    ));
    let expr_pos = block("motion_xposition", None, Some("p"));
    assert!(matches!(
        scratchnative::resolve::expr_from_block(&file, &expr_pos, 10),
        Err(CompileError::Malformed(_))
    ));
}

#[test]
fn unimplemented_member_of_known_family_is_unsupported() {
    let file = one_target_file(target(Vec::new(), Vec::new(), Vec::new()));
    let b = block("control_wait", None, None);
    assert!(matches!(
        scratch_block_to_statement(&file, &b, 10),
        Err(CompileError::Unsupported(_))
    ));
}

#[test]
fn missing_condition_with_present_substack_is_malformed() {
    let body = set_block("a", "i1", num_input(1), None);
    let mut b = block("control_if", None, None);
    b.inputs
        .push((String::from("SUBSTACK"), call_input("b_body")));
    let file = one_target_file(target(Vec::new(), Vec::new(), vec![("b_body", body)]));
    assert!(matches!(
        control_to_statement(&file, &b, "if", 10),
        Err(CompileError::Malformed(_))
    ));
}

#[test]
fn entry_point_count_must_be_one() {
    let no_entry = one_target_file(target(Vec::new(), Vec::new(), Vec::new()));
    assert!(matches!(
        scratch_file_to_project(&no_entry),
        Err(CompileError::Structure)
    ));
    let e1 = block("event_whenflagclicked", Some("s1"), None);
    let e2 = block("event_whenflagclicked", Some("s1"), None);
    let s1 = set_block("a", "i1", num_input(1), None);
    let two_entries = one_target_file(target(
        vec![var_decl("a")],
        Vec::new(),
        vec![("e1", e1), ("e2", e2), ("s1", s1)],
    ));
    assert!(matches!(
        scratch_file_to_project(&two_entries),
        Err(CompileError::Structure)
    ));
}

#[test]
fn cyclic_chain_exhausts_the_recursion_bound() {
    let entry = block("event_whenflagclicked", Some("s1"), None);
    let s1 = set_block("a", "i1", num_input(1), Some("s1"));
    let file = one_target_file(target(
        vec![var_decl("a")],
        Vec::new(),
        vec![("b_entry", entry), ("s1", s1)],
    ));
    assert!(matches!(
        scratch_file_to_project(&file),
        Err(CompileError::Depth)
    ));
}

#[test]
fn loops_emit_native_equivalents() {
    let body = set_block("a", "i1", num_input(1), None);
    let mut rep = block("control_repeat", None, None);
    rep.inputs.push((String::from("TIMES"), num_input(5)));
    rep.inputs
        .push((String::from("SUBSTACK"), call_input("b_body")));
    let file = one_target_file(target(Vec::new(), Vec::new(), vec![("b_body", body)]));
    let stmt = control_to_statement(&file, &rep, "repeat", 10).unwrap();
    assert_eq!(
        codegen_stmt(&stmt).unwrap(),
        "for (auto _ = 5; _--;){\na = (1);\n}\n"
    );

    let body2 = set_block("a", "i1", num_input(1), None);
    let mut cond = block("operator_gt", None, Some("p"));
    cond.inputs.push((String::from("OPERAND1"), var_input("a")));
    cond.inputs.push((String::from("OPERAND2"), num_input(9)));
    let mut until = block("control_repeat_until", None, None);
    until
        .inputs
        .push((String::from("CONDITION"), call_input("b_cond")));
    until
        .inputs
        .push((String::from("SUBSTACK"), call_input("b_body")));
    let file2 = one_target_file(target(
        Vec::new(),
        Vec::new(),
        vec![("b_cond", cond), ("b_body", body2)],
    ));
    let stmt2 = control_to_statement(&file2, &until, "repeat_until", 10).unwrap();
    assert_eq!(
        codegen_stmt(&stmt2).unwrap(),
        "while(!((a) > (9))) {\na = (1);\n}\n"
    );
}

#[test]
fn list_statements_emit_runtime_calls() {
    let mut add = block("data_addtolist", None, None);
    add.inputs.push((String::from("ITEM"), str_input("v")));
    add.fields.push((
        String::from("LIST"),
        vec![String::from("xs"), String::from("lid")],
    ));
    let file = one_target_file(target(Vec::new(), Vec::new(), Vec::new()));
    let stmt = scratchnative::resolve::data_to_statement(&file, &add, "addtolist", 10).unwrap();
    assert_eq!(codegen_stmt(&stmt).unwrap(), "xs.push_back(\"v\");");

    let mut inc = block("data_changevariableby", None, None);
    inc.inputs.push((String::from("VALUE"), num_input(1)));
    inc.fields
        .push((String::from("VARIABLE"), vec![String::from("score")]));
    let stmt2 =
        scratchnative::resolve::data_to_statement(&file, &inc, "changevariableby", 10).unwrap();
    assert_eq!(codegen_stmt(&stmt2).unwrap(), "score += 1;");
}

#[test]
fn not_operator_emits_negation() {
    let mut b = block("operator_not", None, None);
    b.inputs.push((String::from("OPERAND"), num_input(1)));
    let file = one_target_file(target(Vec::new(), Vec::new(), Vec::new()));
    let e = expr_from_operator(&file, &b, "not", 10).unwrap();
    assert_eq!(codegen_expr(&e).unwrap(), "!(1)");
}

#[test]
fn variable_reference_resolves_to_its_name() {
    let set = set_block("a", "i1", var_input("other var"), None);
    let file = one_target_file(target(Vec::new(), Vec::new(), Vec::new()));
    let stmt =
        scratchnative::resolve::data_to_statement(&file, &set, "setvariableto", 10).unwrap();
    assert_eq!(codegen_stmt(&stmt).unwrap(), "a = (other_var);\n");
}

#[test]
fn duplicate_input_slots_use_the_first_entry() {
    let mut b = block("operator_not", None, None);
    b.inputs.push((String::from("OPERAND"), num_input(1)));
    b.inputs.push((String::from("OPERAND"), num_input(9)));
    let file = one_target_file(target(Vec::new(), Vec::new(), Vec::new()));
    let e = expr_from_operator(&file, &b, "not", 10).unwrap();
    assert_eq!(codegen_expr(&e).unwrap(), "!(1)");
}

#[test]
fn join_reads_string_slots_and_has_no_emission_rule() {
    let mut b = block("operator_join", None, None);
    b.inputs.push((String::from("STRING1"), str_input("a")));
    b.inputs.push((String::from("STRING2"), str_input("b")));
    let file = one_target_file(target(Vec::new(), Vec::new(), Vec::new()));
    let e = expr_from_operator(&file, &b, "join", 10).unwrap();
    match &e {
        Expr::BinOp { op, .. } => assert!(matches!(op, OpType::Join)),
        _ => panic!("expected a binary operation"),
    }
    assert!(matches!(codegen_expr(&e), Err(CompileError::Unsupported(_))));
}

#[test]
fn letter_of_resolves_string_and_one_based_index() {
    let mut b = block("operator_letter_of", None, None);
    b.inputs.push((String::from("STRING"), str_input("hi")));
    b.inputs.push((String::from("LETTER"), num_input(2)));
    let file = one_target_file(target(Vec::new(), Vec::new(), Vec::new()));
    let e = expr_from_operator(&file, &b, "letter_of", 10).unwrap();
    assert_eq!(
        codegen_expr(&e).unwrap(),
        "(\"hi\")[static_cast<int>((2-1).get<double>())]"
    );
}

#[test]
fn item_of_list_resolves_and_converts_at_emission() {
    let mut b = block("data_itemoflist", None, None);
    b.inputs.push((String::from("INDEX"), num_input(3)));
    b.fields.push((
        String::from("LIST"),
        vec![String::from("xs"), String::from("lid")],
    ));
    let file = one_target_file(target(Vec::new(), Vec::new(), Vec::new()));
    let e = scratchnative::resolve::expr_from_data(&file, &b, "itemoflist", 10).unwrap();
    assert_eq!(
        codegen_expr(&e).unwrap(),
        "xs[static_cast<int>((3-1).get<double>())]"
    );
}

#[test]
fn argument_block_resolves_to_a_parameter_reference() {
    let mut b = block("argument_reporter_string_number", None, Some("p"));
    b.fields
        .push((String::from("VALUE"), vec![String::from("count")]));
    let file = one_target_file(target(Vec::new(), Vec::new(), Vec::new()));
    let e = scratchnative::resolve::expr_from_block(&file, &b, 10).unwrap();
    assert!(matches!(&e, Expr::Param(n) if n == "count"));
    assert_eq!(codegen_expr(&e).unwrap(), "count");
}

#[test]
fn closure_parameter_declarations_are_mangled() {
    let s = Stmt::ProcedureDefinition {
        prototype: scratchnative::ast::ProcedurePrototype {
            params: vec![(String::from("a1"), String::from("my param"))],
            param_order: vec![String::from("my param")],
            name: String::from("do_it"),
        },
        body: scratchnative::ast::BlockStmt { stmts: Vec::new() },
    };
    assert_eq!(
        codegen_stmt(&s).unwrap(),
        "auto do_it = [&](ScratchValue my_param) {};"
    );
}
