use std::rc::Rc;

use tinycc::analyze::analyzer::Analyzer;
use tinycc::analyze::expr::{BinaryOpKind, Expr, ExprKind, FuncCallKind};
use tinycc::analyze::program::Program;
use tinycc::analyze::stmt::StmtKind;
use tinycc::error::Error;
use tinycc::file::file_info::FileInfo;
use tinycc::file::file_stream::FileStream;
use tinycc::file::position::Position;
use tinycc::generate::generator::Generator;
use tinycc::generate::instr::{Instr, Label};
use tinycc::generate::register::Register;
use tinycc::parse::parser::Parser;
use tinycc::parse::row_expr::{RowAssignOpKind, RowBinaryOpKind, RowExpr, RowExprKind};
use tinycc::parse::row_program::RowProgram;
use tinycc::parse::row_stmt::RowStmtKind;
use tinycc::tokenize::token::Token;
use tinycc::tokenize::token_kind::{PuncToken, TokenKind};
use tinycc::tokenize::token_stream::TokenStream;
use tinycc::tokenize::tokenizer::Tokenizer;

fn info(code: &str) -> Rc<FileInfo> {
    Rc::new(FileInfo::new("t.c".to_string(), format!("{}\n", code)))
}

fn tokens(code: &str) -> Result<Vec<Token>, Error> {
    let mut tokenizer = Tokenizer::new(FileStream::new(info(code)));
    tokenizer.tokenize()
}

fn kinds(code: &str) -> Vec<TokenKind> {
    tokens(code).unwrap().into_iter().map(|t| t.kind).collect()
}

fn parse(code: &str) -> Result<RowProgram, Error> {
    let mut stream = TokenStream::new(tokens(code)?);
    Parser::new().parse(&mut stream)
}

fn analyze(code: &str) -> Result<Program, Error> {
    Analyzer::new().analyze(parse(code)?)
}

fn compile(code: &str) -> String {
    let program = analyze(code).unwrap();
    assert!(Generator::can_generate(&program));
    Generator::new().generate(program)
}

/// Writes an expression with every operation in parentheses.
fn show(e: &RowExpr) -> String {
    match &e.kind {
        RowExprKind::Binary { row_binary_op_kind, row_lhs_expr, row_rhs_expr } => {
            let op = match row_binary_op_kind {
                RowBinaryOpKind::Add => "+",
                RowBinaryOpKind::Sub => "-",
                RowBinaryOpKind::Mul => "*",
                RowBinaryOpKind::Div => "/",
                RowBinaryOpKind::Rem => "%",
                RowBinaryOpKind::BitAnd => "&",
                RowBinaryOpKind::BitOr => "|",
                RowBinaryOpKind::BitXor => "^",
                RowBinaryOpKind::LogicAnd => "&&",
                RowBinaryOpKind::LogicOr => "||",
                RowBinaryOpKind::LShift => "<<",
                RowBinaryOpKind::RShift => ">>",
                RowBinaryOpKind::Lt => "<",
                RowBinaryOpKind::Gt => ">",
                RowBinaryOpKind::LtEqual => "<=",
                RowBinaryOpKind::GtEqual => ">=",
                RowBinaryOpKind::Equal => "==",
                RowBinaryOpKind::NotEqual => "!=",
            };
            format!("({} {} {})", show(row_lhs_expr), op, show(row_rhs_expr))
        }
        RowExprKind::Assign { row_assign_op_kind, row_lhs_expr, row_rhs_expr } => {
            let op = match row_assign_op_kind {
                RowAssignOpKind::Equal => "=",
                RowAssignOpKind::MulEqual => "*=",
                RowAssignOpKind::DivEqual => "/=",
                RowAssignOpKind::RemEqual => "%=",
                RowAssignOpKind::AddEqual => "+=",
                RowAssignOpKind::SubEqual => "-=",
                RowAssignOpKind::LShiftEqual => "<<=",
                RowAssignOpKind::RShiftEqual => ">>=",
                RowAssignOpKind::BitAndEqual => "&=",
                RowAssignOpKind::BitXorEqual => "^=",
                RowAssignOpKind::BitOrEqual => "|=",
            };
            format!("({} {} {})", show(row_lhs_expr), op, show(row_rhs_expr))
        }
        RowExprKind::Comma { row_lhs_expr, row_rhs_expr } => {
            format!("({}, {})", show(row_lhs_expr), show(row_rhs_expr))
        }
        RowExprKind::Condition { row_condition_expr, row_then_expr, row_else_expr } => format!(
            "({} ? {} : {})",
            show(row_condition_expr),
            show(row_then_expr),
            show(row_else_expr)
        ),
        RowExprKind::UnaryIncrement { row_expr } => format!("(++{})", show(row_expr)),
        RowExprKind::UnaryDecrement { row_expr } => format!("(--{})", show(row_expr)),
        RowExprKind::PostfixIncrement { row_expr } => format!("({}++)", show(row_expr)),
        RowExprKind::PostfixDecrement { row_expr } => format!("({}--)", show(row_expr)),
        RowExprKind::Identifier { ident } => ident.clone(),
        RowExprKind::Number { number } => number.to_string(),
        RowExprKind::Func { row_name_expr, row_args_expr } => {
            let args: Vec<String> = row_args_expr.iter().map(show).collect();
            let callee = match row_name_expr.kind {
                RowExprKind::Identifier { .. } => show(row_name_expr),
                _ => format!("({})", show(row_name_expr)),
            };
            format!("{}({})", callee, args.join(", "))
        }
    }
}

fn first_expr(code: &str) -> String {
    let program = parse(code).unwrap();
    match &program.stmts[0].kind {
        RowStmtKind::Expr { expr: Some(e) } => show(e),
        RowStmtKind::Return { expr: Some(e) } => show(e),
        _ => panic!("not an expression statement"),
    }
}

fn lowered_expr(code: &str) -> Expr {
    let mut program = analyze(code).unwrap();
    match program.stmts.remove(0).kind {
        StmtKind::Expr { expr: Some(e) } => e,
        StmtKind::Return { expr: Some(e) } => e,
        _ => panic!("not an expression statement"),
    }
}

fn offset_of(e: &Expr) -> usize {
    match &e.kind {
        ExprKind::Variable { var } => var.offset,
        _ => panic!("not a variable"),
    }
}

fn lines(text: &str) -> Vec<&str> {
    text.lines().collect()
}

#[test]
fn tokenize_longest_punctuator_first() {
    assert_eq!(
        kinds("a<<=b"),
        vec![
            TokenKind::Ident("a".to_string()),
            TokenKind::Punc(PuncToken::LtLtEqual),
            TokenKind::Ident("b".to_string()),
            TokenKind::Eof,
        ]
    );
    assert_eq!(
        kinds("x<<y<=z"),
        vec![
            TokenKind::Ident("x".to_string()),
            TokenKind::Punc(PuncToken::LtLt),
            TokenKind::Ident("y".to_string()),
            TokenKind::Punc(PuncToken::LtEqual),
            TokenKind::Ident("z".to_string()),
            TokenKind::Eof,
        ]
    );
}

#[test]
fn tokenize_keywords_numbers_identifiers() {
    assert_eq!(
        kinds("return if else for while _x1 iffy 42"),
        vec![
            TokenKind::Return,
            TokenKind::If,
            TokenKind::Else,
            TokenKind::For,
            TokenKind::While,
            TokenKind::Ident("_x1".to_string()),
            TokenKind::Ident("iffy".to_string()),
            TokenKind::Number(42),
            TokenKind::Eof,
        ]
    );
}

#[test]
fn tokenize_empty_input_is_only_end() {
    assert_eq!(kinds(""), vec![TokenKind::Eof]);
    assert_eq!(kinds(" \t\n"), vec![TokenKind::Eof]);
}

#[test]
fn tokenize_positions_track_lines_and_columns() {
    let ts = tokens("a\n  bc").unwrap();
    assert_eq!((ts[0].position.line, ts[0].position.column), (1, 1));
    assert_eq!((ts[1].position.line, ts[1].position.column), (2, 3));
    // The end of input sits after the appended line break.
    assert_eq!((ts[2].position.line, ts[2].position.column), (3, 1));
}

#[test]
fn tokenize_unexpected_char() {
    match tokens("a = @;") {
        Err(Error::TokenizeUnexpectedChar { position, char }) => {
            assert_eq!(char, '@');
            assert_eq!((position.line, position.column), (1, 5));
        }
        other => panic!("unexpected result {:?}", other.is_ok()),
    }
}

#[test]
fn tokenize_number_too_large() {
    assert!(matches!(
        tokens("return 99999999999999999999999;"),
        Err(Error::TokenizeUnexpectedChar { char: '9', .. })
    ));
}

#[test]
fn position_renders_its_line() {
    let ts = tokens("a;\n  b c;").unwrap();
    let (name, line, code, column) = ts[3].position.get_position();
    assert_eq!(name, "t.c");
    assert_eq!(line, 2);
    assert_eq!(code, "  b c;");
    assert_eq!(column, 5);
}

#[test]
fn position_moves() {
    let mut p = Position::new(info("x"));
    p.add_column();
    p.add_column();
    assert_eq!((p.line, p.column), (1, 3));
    p.new_line();
    assert_eq!((p.line, p.column), (2, 1));
}

#[test]
fn file_stream_lookahead() {
    let mut s = FileStream::new(info("<<= 7"));
    assert!(s.starts_with("<<="));
    assert!(!s.starts_with("<<=>"));
    assert!(!s.starts_with_number());
    let (p, c) = s.advance(3).unwrap();
    assert_eq!((c, p.column), ('<', 1));
    assert!(s.starts_with_white_space());
    s.advance(1);
    assert!(s.starts_with_number());
    s.advance(100);
    assert!(s.is_empty());
    assert_eq!(s.peek().unwrap().1, '\0');
}

#[test]
fn precedence_of_adjacent_levels() {
    let pairs = [
        ("a || b && c", "(a || (b && c))", "a && b || c", "((a && b) || c)"),
        ("a && b | c", "(a && (b | c))", "a | b && c", "((a | b) && c)"),
        ("a | b ^ c", "(a | (b ^ c))", "a ^ b | c", "((a ^ b) | c)"),
        ("a ^ b & c", "(a ^ (b & c))", "a & b ^ c", "((a & b) ^ c)"),
        ("a & b == c", "(a & (b == c))", "a == b & c", "((a == b) & c)"),
        ("a == b < c", "(a == (b < c))", "a < b == c", "((a < b) == c)"),
        ("a < b << c", "(a < (b << c))", "a << b < c", "((a << b) < c)"),
        ("a << b + c", "(a << (b + c))", "a + b << c", "((a + b) << c)"),
        ("a + b * c", "(a + (b * c))", "a * b + c", "((a * b) + c)"),
    ];
    for (loose_first, loose_tree, tight_first, tight_tree) in pairs {
        assert_eq!(first_expr(&format!("{};", loose_first)), loose_tree);
        assert_eq!(first_expr(&format!("{};", tight_first)), tight_tree);
    }
}

#[test]
fn precedence_of_conditional_assignment_and_comma() {
    assert_eq!(first_expr("a = b ? c : d;"), "(a = (b ? c : d))");
    assert_eq!(first_expr("a ? b : c || d;"), "(a ? b : (c || d))");
    assert_eq!(first_expr("a = 1, b = 2;"), "((a = 1), (b = 2))");
    assert_eq!(first_expr("a = b = c;"), "(a = (b = c))");
    assert_eq!(first_expr("a - b - c;"), "((a - b) - c)");
}

#[test]
fn assignment_and_equality_are_told_apart() {
    let program = parse("x = 1;").unwrap();
    match &program.stmts[0].kind {
        RowStmtKind::Expr { expr: Some(e) } => assert!(matches!(
            e.kind,
            RowExprKind::Assign { row_assign_op_kind: RowAssignOpKind::Equal, .. }
        )),
        _ => panic!("expected an expression statement"),
    }
    let program = parse("x == 1;").unwrap();
    match &program.stmts[0].kind {
        RowStmtKind::Expr { expr: Some(e) } => assert!(matches!(
            e.kind,
            RowExprKind::Binary { row_binary_op_kind: RowBinaryOpKind::Equal, .. }
        )),
        _ => panic!("expected an expression statement"),
    }
    assert_eq!(first_expr("x += 2;"), "(x += 2)");
}

#[test]
fn conditional_else_branch_takes_an_assignment() {
    assert_eq!(first_expr("a ? b : c = d;"), "(a ? b : (c = d))");
    assert_eq!(first_expr("a ? b : (c = d);"), "(a ? b : (c = d))");
    assert_eq!(first_expr("a ? b : c ? d : e;"), "(a ? b : (c ? d : e))");
}

#[test]
fn postfix_and_calls() {
    assert_eq!(first_expr("x++ + ++y;"), "((x++) + (++y))");
    assert_eq!(first_expr("f(1, g(2), a = 3);"), "f(1, g(2), (a = 3))");
    assert_eq!(first_expr("(f)();"), "f()");
    assert_eq!(first_expr("f(a)(b);"), "(f(a))(b)");
    assert_eq!(first_expr("x++--;"), "((x++)--)");
    assert_eq!(first_expr("f()++;"), "(f()++)");
}

#[test]
fn statements_parse() {
    let program = parse("if (a) b; else { c; d; } for (;;) ; while (x) x--; return;").unwrap();
    assert_eq!(program.stmts.len(), 4);
    assert!(matches!(program.stmts[0].kind, RowStmtKind::If { .. }));
    match &program.stmts[1].kind {
        RowStmtKind::For { init_expr, condition_expr, delta_expr, .. } => {
            assert!(init_expr.is_none() && condition_expr.is_none() && delta_expr.is_none());
        }
        _ => panic!("expected a for statement"),
    }
    assert!(matches!(program.stmts[2].kind, RowStmtKind::While { .. }));
    assert!(matches!(program.stmts[3].kind, RowStmtKind::Return { expr: None }));
}

#[test]
fn missing_semicolon_is_a_parse_error() {
    match parse("a = 1") {
        Err(Error::ParseUnexpectedToken { got, .. }) => assert_eq!(got.kind, TokenKind::Eof),
        _ => panic!("expected a parse error"),
    }
    assert!(matches!(parse("(a;"), Err(Error::ParseUnexpectedToken { .. })));
}

#[test]
fn same_name_same_slot() {
    let program = analyze("a = 1; b = a; a = b; { c = a; }").unwrap();
    assert_eq!(program.offset, 24);
    let slots: Vec<(usize, usize)> = program
        .stmts
        .iter()
        .filter_map(|s| match &s.kind {
            StmtKind::Expr { expr: Some(Expr { kind: ExprKind::Assign { lhs, rhs }, .. }) } => {
                let r = match &rhs.kind {
                    ExprKind::Variable { var } => var.offset,
                    _ => 0,
                };
                Some((offset_of(lhs), r))
            }
            _ => None,
        })
        .collect();
    assert_eq!(slots, vec![(8, 0), (16, 8), (8, 16)]);
}

#[test]
fn frame_size_counts_distinct_names() {
    assert_eq!(analyze("return 42;").unwrap().offset, 0);
    assert_eq!(analyze("x = y + z * x; y = z;").unwrap().offset, 24);
}

#[test]
fn analyze_twice_gives_same_tree() {
    let code = "i = 0; s = 0; for (i = 0; i < 5; i++) s = s + i; return s > 3 && s;";
    let a = format!("{:?}", analyze(code).unwrap());
    let b = format!("{:?}", analyze(code).unwrap());
    assert_eq!(a, b);
}

#[test]
fn greater_than_swaps_operands() {
    let e = lowered_expr("a > b;");
    match e.kind {
        ExprKind::Binary { op_kind, lhs, rhs } => {
            assert_eq!(op_kind, BinaryOpKind::Lt);
            assert_eq!(offset_of(&lhs), 16);
            assert_eq!(offset_of(&rhs), 8);
        }
        _ => panic!("expected a binary expression"),
    }
    let e = lowered_expr("a >= b;");
    assert!(matches!(e.kind, ExprKind::Binary { op_kind: BinaryOpKind::LtEqual, .. }));
}

#[test]
fn logical_operators_become_conditions() {
    match lowered_expr("a && b;").kind {
        ExprKind::Condition { else_expr, .. } => {
            assert!(matches!(else_expr.kind, ExprKind::Number { number: 0 }))
        }
        _ => panic!("expected a condition"),
    }
    match lowered_expr("a || b;").kind {
        ExprKind::Condition { then_expr, .. } => {
            assert!(matches!(then_expr.kind, ExprKind::Number { number: 1 }))
        }
        _ => panic!("expected a condition"),
    }
}

#[test]
fn increments_and_compound_assignments_lower() {
    assert!(matches!(
        lowered_expr("++a;").kind,
        ExprKind::AssignOp { op_kind: BinaryOpKind::Add, .. }
    ));
    assert!(matches!(
        lowered_expr("--a;").kind,
        ExprKind::AssignOp { op_kind: BinaryOpKind::Sub, .. }
    ));
    assert!(matches!(lowered_expr("a++;").kind, ExprKind::PostfixIncrement { .. }));
    assert!(matches!(
        lowered_expr("a <<= 2;").kind,
        ExprKind::AssignOp { op_kind: BinaryOpKind::LShift, .. }
    ));
    assert!(matches!(lowered_expr("a = 2;").kind, ExprKind::Assign { .. }));
}

#[test]
fn calls_by_name_and_by_value() {
    match lowered_expr("f(1, 2);").kind {
        ExprKind::Func { name: FuncCallKind::Label { name }, args } => {
            assert_eq!(name, "f");
            assert_eq!(args.len(), 2);
        }
        _ => panic!("expected a direct call"),
    }
    assert!(matches!(
        lowered_expr("(a + 1)(2);").kind,
        ExprKind::Func { name: FuncCallKind::Expr { .. }, .. }
    ));
}

#[test]
fn invalid_assignment_targets() {
    match analyze("(a + b) = 1;") {
        Err(Error::AnalyzeInvalidAssignTarget { position }) => assert_eq!(position.column, 4),
        _ => panic!("expected an invalid target"),
    }
    assert!(matches!(analyze("1++;"), Err(Error::AnalyzeInvalidAssignTarget { .. })));
    assert!(matches!(analyze("--f(1);"), Err(Error::AnalyzeInvalidAssignTarget { .. })));
}

#[test]
fn operator_conversions() {
    assert!(matches!(BinaryOpKind::from_row_assign_op_kind(RowAssignOpKind::Equal), Err(Error::Unexpected)));
    assert_eq!(
        BinaryOpKind::from_row_assign_op_kind(RowAssignOpKind::RemEqual).unwrap(),
        BinaryOpKind::Rem
    );
    assert!(matches!(BinaryOpKind::from_row_binary_op_kind(RowBinaryOpKind::LogicOr), Err(Error::Unexpected)));
    assert_eq!(BinaryOpKind::from_row_binary_op_kind(RowBinaryOpKind::Gt).unwrap(), BinaryOpKind::Lt);
    assert_eq!(BinaryOpKind::from_row_binary_op_kind(RowBinaryOpKind::NotEqual).unwrap(), BinaryOpKind::Ne);
}

#[test]
fn return_literal_exact_text() {
    assert_eq!(
        compile("return 42;"),
        ".intel_syntax noprefix\n.globl main\nmain:\n\tpush rbp\n\tmov rbp, rsp\n\tsub rsp, 0\n\
         \tpush 42\n\tpop rax\n\tjmp .Lmain_ret\n.Lmain_ret:\n\tmov rsp, rbp\n\tpop rbp\n\tret\n"
    );
}

#[test]
fn frame_rounds_to_sixteen() {
    assert!(compile("a = 3; return a + 4;").contains("\tsub rsp, 16\n"));
    assert!(compile("a = 1; b = 2; c = 3;").contains("\tsub rsp, 32\n"));
    assert!(compile("a = 1; b = 2;").contains("\tsub rsp, 16\n"));
}

#[test]
fn assignment_code() {
    let text = compile("a = 3;");
    assert!(text.contains(
        "\tmov rax, rbp\n\tsub rax, 8\n\tpush rax\n\tpush 3\n\tpop rdi\n\tpop rax\n\tmov [rax], rdi\n\tpush rdi\n\tpop rax\n"
    ));
}

#[test]
fn compound_assignment_code() {
    let text = compile("a -= 2;");
    assert!(text.contains(
        "\tpush 2\n\tpop rdi\n\tpop rax\n\tmov r8, [rax]\n\tpush rax\n\tmov rax, r8\n\tsub rax, rdi\n\tpush rax\n\tpop rdi\n\tpop rax\n\tmov [rax], rdi\n\tpush rdi\n"
    ));
}

#[test]
fn postfix_increment_pushes_old_value() {
    let text = compile("x = 5; return x++ + x;");
    assert!(text.contains(
        "\tpop rdi\n\tmov rax, [rdi]\n\tpush rax\n\tadd rax, 1\n\tmov [rdi], rax\n"
    ));
}

#[test]
fn binary_operator_code() {
    assert!(compile("return 7 / 2;").contains("\tcqo\n\tidiv rdi\n\tpush rax\n"));
    assert!(compile("return 7 % 2;").contains("\tcqo\n\tidiv rdi\n\tmov rax, rdx\n\tpush rax\n"));
    assert!(compile("return 1 << 3;").contains("\tmov rcx, rdi\n\tshl rax, cl\n"));
    assert!(compile("return 1 != 3;").contains("\tcmp rax, rdi\n\tsetne al\n\tmovzb rax, al\n"));
    assert!(compile("return 2 > 1;").contains("\tpush 1\n\tpush 2\n\tpop rdi\n\tpop rax\n\tcmp rax, rdi\n\tsetl al\n"));
}

#[test]
fn short_circuit_skips_right_operand() {
    let text = compile("return a && f();");
    let l = lines(&text);
    let je = l.iter().position(|x| *x == "\tje .Lelse0").unwrap();
    let call = l.iter().position(|x| *x == "\tcall f").unwrap();
    let jmp = l.iter().position(|x| *x == "\tjmp .Lend0").unwrap();
    let else_label = l.iter().position(|x| *x == ".Lelse0:").unwrap();
    assert!(je < call && call < jmp && jmp < else_label);
    assert_eq!(l[else_label + 1], "\tpush 0");
}

#[test]
fn seven_argument_call_is_aligned() {
    let text = compile("foo(1,2,3,4,5,6,7);");
    let l = lines(&text);
    let start = l.iter().position(|x| *x == "\tsub rsp, 8").unwrap();
    assert_eq!(
        &l[start..start + 18],
        &[
            "\tsub rsp, 8", "\tpush 7", "\tpush 6", "\tpush 5", "\tpush 4", "\tpush 3", "\tpush 2",
            "\tpush 1", "\tpop rdi", "\tpop rsi", "\tpop rdx", "\tpop rcx", "\tpop r8", "\tpop r9",
            "\tcall foo", "\tadd rsp, 16", "\tpush rax", "\tpop rax",
        ]
    );
}

#[test]
fn call_without_stack_arguments() {
    let text = compile("f();");
    assert!(text.contains("\tcall f\n\tadd rsp, 0\n\tpush rax\n"));
    assert!(!text.contains("\tsub rsp, 8\n"));
    let text = compile("return 1 + f(2);");
    assert!(text.contains("\tsub rsp, 8\n\tpush 2\n\tpop rdi\n\tcall f\n\tadd rsp, 8\n"));
}

#[test]
fn computed_call_goes_through_r10() {
    let text = compile("(g)(1);");
    assert!(text.contains("\tcall g\n"));
    let text = compile("(a + 1)(1);");
    assert!(text.contains("\tpop r10\n\tpop rdi\n\tcall r10\n"));
}

#[test]
fn control_flow_labels_are_unique() {
    let text = compile("if (a) b = 1; else b = 2; while (b) b--; for (i = 0; i < 3; i++) ;");
    for label in [".Lelse0:", ".Lend0:", ".Lbegin1:", ".Lend1:", ".Lbegin2:", ".Lend2:"] {
        assert_eq!(lines(&text).iter().filter(|x| **x == label).count(), 1, "{}", label);
    }
    assert!(text.contains("\tjmp .Lbegin2\n.Lend2:\n"));
}

#[test]
fn empty_for_condition_is_one() {
    let text = compile("for (;;) return 1;");
    assert!(text.contains(".Lbegin0:\n\tpush 1\n\tpop rax\n\tcmp rax, 0\n\tje .Lend0\n"));
}

#[test]
fn literals_truncate_to_32_bits() {
    assert!(compile("return 4294967297;").contains("\tpush 1\n"));
    assert!(compile("return 2147483648;").contains("\tpush -2147483648\n"));
}

#[test]
fn instructions_render() {
    let mut out = Vec::new();
    Instr::PushImm(-5).render(&mut out);
    Instr::Store(Register::Rax, Register::Rdi).render(&mut out);
    Instr::Label(Label::Else(12)).render(&mut out);
    Instr::SetCc(tinycc::generate::instr::Cond::Le, Register::Rax).render(&mut out);
    let text: String = out.into_iter().collect();
    assert_eq!(text, "\tpush -5\n\tmov [rax], rdi\n.Lelse12:\n\tsetle al\n");
}

#[test]
fn register_names() {
    assert_eq!(Register::R8.qword(), "r8");
    assert_eq!(Register::R8.dword(), "r8d");
    assert_eq!(Register::Rsi.word(), "si");
    assert_eq!(Register::Rdi.byte(), "dil");
}

#[test]
fn token_stream_clone_is_independent() {
    let mut a = TokenStream::new(tokens("x y").unwrap());
    let b = a.clone();
    a.next().unwrap();
    assert_eq!(b.peek().unwrap().kind, TokenKind::Ident("x".to_string()));
    assert_eq!(a.peek().unwrap().kind, TokenKind::Ident("y".to_string()));
    assert!(!a.at_eof().unwrap());
    assert!(a.expect(TokenKind::Ident("y".to_string())).is_ok());
    assert!(a.at_eof().unwrap());
    assert!(a.consume(TokenKind::Eof).unwrap());
    a.next().unwrap();
    assert!(matches!(a.peek(), Err(Error::Unexpected)));
}

#[test]
fn printed_expressions_parse_back_the_same() {
    let sources = [
        "a = b ? c : d, e += f(1, g(x), y = 2) * 0 + h;",
        "x = a || b && c | d ^ e & f == g < h << i + j * k;",
        "x = ++a - b-- + (c, d);",
        "return (f(a))(b);",
        "return f(a)(b)++;",
    ];
    for source in sources {
        let program = parse(source).unwrap();
        let printed = match &program.stmts[0].kind {
            RowStmtKind::Expr { expr: Some(e) } => show(e),
            RowStmtKind::Return { expr: Some(e) } => show(e),
            _ => panic!("expected an expression"),
        };
        assert_eq!(first_expr(&format!("{};", printed)), printed);
    }
    assert_eq!(first_expr("x = ++a - b-- + (c, d);"), "(x = (((++a) - (b--)) + (c, d)))");
}

#[test]
fn diagnostics_point_at_the_column() {
    let err = tokens("a = 1;\nb = @;").unwrap_err();
    assert_eq!(err.message(), "t.c:2\nb = @;\n    ^\nGot unexpected char `@`");
    let err = parse("x = (1;").unwrap_err();
    assert_eq!(err.message(), "t.c:1\nx = (1;\n      ^\nGot unexpected token `;`. Expect `)`.");
    let err = analyze("1 = x;").unwrap_err();
    assert_eq!(err.message(), "t.c:1\n1 = x;\n^\nMust be a modifiable value");
    assert_eq!(Error::Unexpected.message(), "Got unexpected error.");
}

#[test]
fn tokenize_reports_first_bad_character() {
    match tokens("a @") {
        Err(Error::TokenizeUnexpectedChar { position, char }) => {
            assert_eq!(char, '@');
            assert_eq!((position.line, position.column), (1, 3));
        }
        _ => panic!("expected a tokenize error"),
    }
    let ts = tokens("a<<=1").unwrap();
    let places: Vec<(usize, usize)> = ts.iter().map(|t| (t.position.line, t.position.column)).collect();
    assert_eq!(places, vec![(1, 1), (1, 2), (1, 5), (2, 1)]);
}

#[test]
fn expect_reports_the_expected_kind() {
    let mut s = TokenStream::new(tokens("x").unwrap());
    match s.expect(TokenKind::Punc(PuncToken::Semicolon)) {
        Err(Error::ParseUnexpectedToken { got, expect }) => {
            assert_eq!(got.kind, TokenKind::Ident("x".to_string()));
            assert_eq!(expect, ";");
        }
        _ => panic!("expected a parse error"),
    }
}

#[test]
fn else_binds_to_nearest_if() {
    let program = parse("if (a) if (b) c; else d;").unwrap();
    match &program.stmts[0].kind {
        RowStmtKind::If { else_stmt, then_stmt, .. } => {
            assert!(else_stmt.is_none());
            assert!(matches!(&then_stmt.kind, RowStmtKind::If { else_stmt, .. } if else_stmt.is_some()));
        }
        _ => panic!("expected an if statement"),
    }
}
