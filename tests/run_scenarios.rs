use std::collections::HashMap;
use std::rc::Rc;

use tinycc::analyze::analyzer::Analyzer;
use tinycc::file::file_info::FileInfo;
use tinycc::file::file_stream::FileStream;
use tinycc::generate::generator::Generator;
use tinycc::parse::parser::Parser;
use tinycc::tokenize::token_stream::TokenStream;
use tinycc::tokenize::tokenizer::Tokenizer;

fn compile(code: &str) -> String {
    let info = Rc::new(FileInfo::new("t.c".to_string(), format!("{}\n", code)));
    let tokens = Tokenizer::new(FileStream::new(info)).tokenize().unwrap();
    let mut stream = TokenStream::new(tokens);
    let program = Parser::new().parse(&mut stream).unwrap();
    let program = Analyzer::new().analyze(program).unwrap();
    Generator::new().generate(program)
}

/// Runs the emitted `main` on a model of the machine. Outside functions
/// return their first argument, `foo` the first plus the seventh, `h` zero. Returns the exit code and
/// whether every call site had a 16-byte aligned stack pointer.
fn run(text: &str) -> (i64, bool) {
    let lines: Vec<&str> = text.lines().collect();
    let mut labels = HashMap::new();
    for (i, l) in lines.iter().enumerate() {
        if let Some(name) = l.strip_suffix(':') {
            labels.insert(name.to_string(), i);
        }
    }
    let mut regs: HashMap<String, i64> = HashMap::new();
    let mut mem: HashMap<i64, i64> = HashMap::new();
    // At entry the return address has just been pushed.
    regs.insert("rsp".to_string(), 0x10000 - 8);
    let mut flags = (0i64, 0i64);
    let mut aligned = true;
    let mut pc = labels["main"] + 1;
    let reg = |regs: &HashMap<String, i64>, r: &str| -> i64 { *regs.get(r).unwrap_or(&0) };
    for _ in 0..100000 {
        let line = lines[pc].trim();
        pc += 1;
        if line.ends_with(':') {
            continue;
        }
        let (op, rest) = line.split_once(' ').unwrap_or((line, ""));
        let args: Vec<&str> = rest.split(", ").filter(|a| !a.is_empty()).collect();
        let value = |regs: &HashMap<String, i64>, a: &str| -> i64 {
            match a.parse::<i64>() {
                Ok(n) => n,
                Err(_) => reg(regs, a),
            }
        };
        match op {
            "push" => {
                let v = value(&regs, args[0]);
                let sp = reg(&regs, "rsp") - 8;
                regs.insert("rsp".to_string(), sp);
                mem.insert(sp, v);
            }
            "pop" => {
                let sp = reg(&regs, "rsp");
                let v = mem[&sp];
                regs.insert(args[0].to_string(), v);
                regs.insert("rsp".to_string(), sp + 8);
            }
            "mov" => {
                if let Some(d) = args[0].strip_prefix('[') {
                    let addr = reg(&regs, d.trim_end_matches(']'));
                    mem.insert(addr, reg(&regs, args[1]));
                } else if let Some(s) = args[1].strip_prefix('[') {
                    let addr = reg(&regs, s.trim_end_matches(']'));
                    regs.insert(args[0].to_string(), mem[&addr]);
                } else {
                    let v = reg(&regs, args[1]);
                    regs.insert(args[0].to_string(), v);
                }
            }
            "add" | "sub" | "imul" | "and" | "or" | "xor" => {
                let a = reg(&regs, args[0]);
                let b = value(&regs, args[1]);
                let v = match op {
                    "add" => a.wrapping_add(b),
                    "sub" => a.wrapping_sub(b),
                    "imul" => a.wrapping_mul(b),
                    "and" => a & b,
                    "or" => a | b,
                    _ => a ^ b,
                };
                regs.insert(args[0].to_string(), v);
            }
            "cmp" => flags = (reg(&regs, args[0]), value(&regs, args[1])),
            "setl" | "setle" | "sete" | "setne" => {
                let c = match op {
                    "setl" => flags.0 < flags.1,
                    "setle" => flags.0 <= flags.1,
                    "sete" => flags.0 == flags.1,
                    _ => flags.0 != flags.1,
                };
                let rax = reg(&regs, "rax");
                regs.insert("rax".to_string(), (rax & !0xff) | c as i64);
            }
            "movzb" => {
                let rax = reg(&regs, "rax");
                regs.insert("rax".to_string(), rax & 0xff);
            }
            "cqo" => {
                let rax = reg(&regs, "rax");
                regs.insert("rdx".to_string(), if rax < 0 { -1 } else { 0 });
            }
            "idiv" => {
                let a = reg(&regs, "rax");
                let b = reg(&regs, args[0]);
                regs.insert("rax".to_string(), a / b);
                regs.insert("rdx".to_string(), a % b);
            }
            "shl" | "shr" => {
                let a = reg(&regs, "rax");
                let c = (reg(&regs, "rcx") & 63) as u32;
                let v = if op == "shl" { a << c } else { ((a as u64) >> c) as i64 };
                regs.insert("rax".to_string(), v);
            }
            "je" => {
                if flags.0 == flags.1 {
                    pc = labels[args[0]];
                }
            }
            "jmp" => pc = labels[args[0]],
            "call" => {
                aligned &= reg(&regs, "rsp") % 16 == 0;
                let sp = reg(&regs, "rsp");
                let v = match args[0] {
                    "foo" => reg(&regs, "rdi") + mem[&sp],
                    "h" => 0,
                    _ => reg(&regs, "rdi"),
                };
                regs.insert("rax".to_string(), v);
            }
            "ret" => return (reg(&regs, "rax") & 0xff, aligned),
            _ => panic!("unknown instruction {}", line),
        }
    }
    panic!("no return")
}

#[test]
fn scenario_return_literal() {
    assert_eq!(run(&compile("return 42;")).0, 42);
}

#[test]
fn scenario_variable_arithmetic() {
    assert_eq!(run(&compile("a = 3; return a + 4;")).0, 7);
}

#[test]
fn scenario_for_loop_sum() {
    assert_eq!(run(&compile("s=0; for (i=0;i<5;i++) s=s+i; return s;")).0, 10);
}

#[test]
fn scenario_logical_operators() {
    assert_eq!(run(&compile("return 1 && 0;")).0, 0);
    assert_eq!(run(&compile("return 1 || 0;")).0, 1);
    assert_eq!(run(&compile("return 0 || 3 > 2;")).0, 1);
}

#[test]
fn scenario_postfix_increment() {
    assert_eq!(run(&compile("x=5; return x++ + x;")).0, 11);
    assert_eq!(run(&compile("x=5; return ++x + x;")).0, 12);
}

#[test]
fn scenario_short_circuit_skips_side_effect() {
    assert_eq!(run(&compile("a = 0; b = 1; 0 && (b = 7); return b;")).0, 1);
    assert_eq!(run(&compile("a = 0; b = 1; 1 || (b = 7); return b;")).0, 1);
    assert_eq!(run(&compile("a = 0; b = 1; 1 && (b = 7); return b;")).0, 7);
}

#[test]
fn scenario_operators() {
    assert_eq!(run(&compile("return 17 % 5 * 3 - 20 / 4;")).0, 1);
    assert_eq!(run(&compile("return (1 << 4) >> 2 | 1 ^ 3 & 6;")).0, 7);
    assert_eq!(run(&compile("a = 10; a -= 3; a *= 2; a /= 7; a <<= 3; return a;")).0, 16);
    assert_eq!(run(&compile("return 3 >= 3 == 1 != 0;")).0, 1);
    assert_eq!(run(&compile("return (2, 9);")).0, 9);
    assert_eq!(run(&compile("return 0 ? 4 : 1 ? 5 : 6;")).0, 5);
}

#[test]
fn scenario_while_and_if() {
    let code = "n = 10; f = 0; while (n) { if (n % 2) f = f + n; else ; n--; } return f;";
    assert_eq!(run(&compile(code)).0, 25);
}

#[test]
fn scenario_calls_are_aligned() {
    let (code, aligned) = run(&compile("return foo(1,2,3,4,5,6,7);"));
    assert_eq!(code, 8);
    assert!(aligned);
    let (code, aligned) = run(&compile("x = 1; return x + f(1, g(2, 3)) + h();"));
    assert_eq!(code, 2);
    assert!(aligned);
    let (_, aligned) = run(&compile("a = 1; b = a ? f(a, 2, 3, 4, 5, 6, 7, 8) : 0; return b;"));
    assert!(aligned);
}
