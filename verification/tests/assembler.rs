use rvfm::assembler::numbers::{parse_number, NumberParse};
use rvfm::assembler::operands::{expect_read_register, expect_token, expect_token_with, expect_write_register, handle_alias, RegisterAliases};
use rvfm::assembler::instructions::{
    write_binary_op, write_cmp, write_none, write_offset_u32, write_pop, write_push, write_register, write_unary_op,
};
use rvfm::assembler::lexer::{
    AssemblyMode, Comparison, InstructionType, OpDataType, RegisterName, ScalarBuiltin, Token, TokenType, VectorBuiltin,
};
use rvfm::gpu::shader::{RegisterAddress, ShaderInstruction, ShaderModule, ShaderType, CORE_COUNT};
use rvfm::gpu::shader_parser::parse_shader_bytecode;
use rvfm::gpu::shading_unit::{ShadingUnitConstantArray, ShadingUnitContext, ShadingUnitIOArray, ShadingUnitRunContext};
use std::marker::PhantomData;

use rvfm::assembler::tokens::{try_expect_token, try_expect_token_with};
use rvfm::gpu::shader::ResourceMap;

fn no_buffers() -> Vec<Vec<u8>> {
    vec![Vec::new(); 256]
}

fn token(line: usize, column: usize) -> Token {
    Token { t: TokenType::Name, line, column, value: None }
}

#[test]
fn register_encodings() {
    let mut b = Vec::new();
    write_register(&mut b, RegisterName::LocalS(3), AssemblyMode::Vertex);
    write_register(&mut b, RegisterName::InputV(2), AssemblyMode::Fragment);
    write_register(&mut b, RegisterName::OutputS(0), AssemblyMode::Vertex);
    write_register(&mut b, RegisterName::ConstantV(9), AssemblyMode::Compute);
    write_register(&mut b, RegisterName::BuiltinS(ScalarBuiltin::Depth), AssemblyMode::Fragment);
    write_register(&mut b, RegisterName::BuiltinV(VectorBuiltin::Linear), AssemblyMode::Fragment);
    write_none(&mut b);
    write_offset_u32(&mut b, 0x0102_0304);
    assert_eq!(b, vec![0, 3, 1, 0x12, 2, 0x10, 3, 9, 2, 1, 1, 2, 0xFF, 0, 4, 3, 2, 1]);
}

#[test]
fn push_and_pop() {
    let mut b = Vec::new();
    assert!(write_push(&mut b, RegisterName::LocalV(1), &token(1, 1), AssemblyMode::Vertex).is_ok());
    assert!(write_pop(&mut b, RegisterName::OutputS(2), &token(2, 1), AssemblyMode::Vertex).is_ok());
    assert_eq!(b, vec![0x00, 0, 1, 0x03, 2, 0x12]);
}

#[test]
fn binary_operations() {
    let mut b = Vec::new();
    let add = InstructionType::Add(OpDataType::I32);
    assert!(write_binary_op(&mut b, &token(1, 1), add, RegisterName::LocalS(0), RegisterName::LocalS(1), RegisterName::LocalS(2), AssemblyMode::Vertex).is_ok());
    assert_eq!(b, vec![0x22, 0, 0, 0, 1, 0, 2]);
    b.clear();
    assert!(write_binary_op(&mut b, &token(1, 1), add, RegisterName::LocalV(0), RegisterName::LocalV(1), RegisterName::LocalV(2), AssemblyMode::Vertex).is_ok());
    assert_eq!(b, vec![0x18, 0, 0, 0, 1, 0, 2]);
    b.clear();
    let e = write_binary_op(&mut b, &token(4, 7), add, RegisterName::LocalV(0), RegisterName::LocalS(1), RegisterName::LocalV(2), AssemblyMode::Vertex)
        .unwrap_err();
    assert_eq!((e.line, e.column), (4, 7));
    assert_eq!(e.message, "Invalid operand types for instruction: Add(I32): vector, scalar, vector");
    assert!(b.is_empty());
}

#[test]
fn unary_operation_of_mixed_kinds_is_an_error() {
    let mut b = Vec::new();
    let e = write_unary_op(&mut b, &token(2, 3), InstructionType::Neg(OpDataType::I32), RegisterName::LocalV(0), RegisterName::LocalS(1), AssemblyMode::Vertex)
        .unwrap_err();
    assert_eq!((e.line, e.column), (2, 3));
    assert!(b.is_empty());
    assert!(write_unary_op(&mut b, &token(2, 3), InstructionType::Neg(OpDataType::I32), RegisterName::LocalS(0), RegisterName::LocalS(1), AssemblyMode::Vertex).is_ok());
    assert_eq!(b, vec![0x2C, 0, 0, 0, 1]);
}

#[test]
fn compare_assembles_parses_and_runs() {
    let mut code = Vec::new();
    assert!(write_cmp(&mut code, &token(1, 1), RegisterName::OutputS(0), RegisterName::InputS(0), RegisterName::InputS(1), Comparison::Eq, AssemblyMode::Vertex).is_ok());
    assert_eq!(code, vec![0x0E, 2, 0x10, 1, 0x10, 1, 0x11, 0x00]);
    let mut module = ShaderModule::new();
    assert_eq!(parse_shader_bytecode(ShaderType::Vertex, &code, &mut module), Ok(()));
    assert_eq!(module.instruction_count, 1);
    let ins = module.instruction_buffer[0];
    assert!(matches!(ins, ShaderInstruction::ScalarBinaryOp { dst: RegisterAddress::Output(0x10, PhantomData), .. }));

    let mut unit = ShadingUnitContext::new();
    let mut rc = ShadingUnitRunContext::new(ShadingUnitConstantArray::new(), ShadingUnitIOArray::new(), ShadingUnitIOArray::new());
    rc.input.scalar_array[0x10 * CORE_COUNT] = 5;
    rc.input.scalar_array[0x11 * CORE_COUNT] = 5;
    rc.input.scalar_array[0x10 * CORE_COUNT + 1] = 5;
    rc.input.scalar_array[0x11 * CORE_COUNT + 1] = 6;
    assert_eq!(unit.run_instruction(2, &ins, &mut rc, &mut no_buffers(), &Vec::new(), &ResourceMap::identity()), Some(()));
    assert_eq!(rc.output.scalar_array[0x10 * CORE_COUNT], 1);
    assert_eq!(rc.output.scalar_array[0x10 * CORE_COUNT + 1], 0);
}

#[test]
fn compare_of_mixed_kinds_is_an_error() {
    let mut code = Vec::new();
    let e = write_cmp(&mut code, &token(9, 2), RegisterName::OutputS(0), RegisterName::InputV(0), RegisterName::InputS(1), Comparison::Lt, AssemblyMode::Vertex)
        .unwrap_err();
    assert_eq!((e.line, e.column), (9, 2));
    assert!(code.is_empty());
}

#[test]
fn taking_tokens() {
    let tokens = vec![
        Token { t: TokenType::Comma, line: 1, column: 1, value: None },
        Token { t: TokenType::Register(RegisterName::LocalS(2)), line: 1, column: 3, value: None },
    ];
    let mut pos = 0usize;
    assert!(try_expect_token(TokenType::Dot, &tokens, &mut pos).is_none());
    assert_eq!(pos, 0);
    assert_eq!(try_expect_token(TokenType::Comma, &tokens, &mut pos).map(|t| t.column), Some(1));
    assert_eq!(pos, 1);
    assert!(try_expect_token_with(|t| matches!(t, TokenType::Number), &tokens, &mut pos).is_none());
    assert_eq!(pos, 1);
    let reg = try_expect_token_with(|t| matches!(t, TokenType::Register(_)), &tokens, &mut pos);
    assert_eq!(reg.map(|t| t.column), Some(3));
    assert_eq!(pos, 2);
    assert!(try_expect_token(TokenType::Comma, &tokens, &mut pos).is_none());
    assert!(try_expect_token_with(|_| true, &tokens, &mut pos).is_none());
    assert_eq!(pos, 2);
}

#[test]
fn assembled_instructions_parse_back() {
    let mut code = Vec::new();
    assert!(write_push(&mut code, RegisterName::LocalV(1), &token(1, 1), AssemblyMode::Vertex).is_ok());
    assert!(write_pop(&mut code, RegisterName::OutputS(2), &token(2, 1), AssemblyMode::Vertex).is_ok());
    assert!(write_binary_op(&mut code, &token(3, 1), InstructionType::Xor, RegisterName::LocalS(0), RegisterName::LocalS(1), RegisterName::ConstantS(2), AssemblyMode::Vertex).is_ok());
    let mut module = ShaderModule::new();
    assert_eq!(parse_shader_bytecode(ShaderType::Vertex, &code, &mut module), Ok(()));
    assert_eq!(module.instruction_count, 3);
    assert_eq!(module.instruction_buffer[0], ShaderInstruction::PushVector(RegisterAddress::Local(1, PhantomData)));
    assert_eq!(module.instruction_buffer[1], ShaderInstruction::PopScalar(RegisterAddress::Output(0x12, PhantomData)));
    // Scalar operands are written with the componentwise opcode, and read back as such.
    assert!(matches!(
        module.instruction_buffer[2],
        ShaderInstruction::VectorComponentwiseScalarBinaryOp { dst: RegisterAddress::Local(0, PhantomData), .. }
    ));
}

fn number(text: &str) -> NumberParse {
    parse_number(&Token { t: TokenType::Number, line: 1, column: 1, value: Some(text.to_string()) })
}

#[test]
fn number_literals() {
    assert_eq!(number("0"), NumberParse::Integer(0));
    assert_eq!(number("7"), NumberParse::Integer(7));
    assert_eq!(number("0x1F"), NumberParse::Integer(31));
    assert_eq!(number("0XfF"), NumberParse::Integer(255));
    assert_eq!(number("0o17"), NumberParse::Integer(15));
    assert_eq!(number("0xFFFFFFFFFFFFFFFF"), NumberParse::Integer(-1));
    assert_eq!(number("0x10000000000000001"), NumberParse::Integer(1));
}

#[test]
fn number_literal_quirks() {
    // A decimal digit replaces the value read so far.
    assert_eq!(number("12"), NumberParse::Integer(2));
    assert_eq!(number("007"), NumberParse::Integer(7));
    // A binary literal goes on in octal after its first digit.
    assert_eq!(number("0b1"), NumberParse::Integer(1));
    assert_eq!(number("0b101"), NumberParse::Integer(65));
}

fn tok(t: TokenType, line: usize, column: usize, value: Option<&str>) -> Token {
    Token { t, line, column, value: value.map(|v| v.to_string()) }
}

#[test]
fn expected_tokens() {
    let tokens = vec![tok(TokenType::Comma, 1, 4, None), tok(TokenType::Dot, 1, 5, None)];
    let mut pos = 0;
    assert!(expect_token(TokenType::Comma, &tokens, &mut pos).is_ok());
    assert_eq!(pos, 1);
    let e = expect_token(TokenType::Comma, &tokens, &mut pos).unwrap_err();
    assert_eq!((e.line, e.column, pos), (1, 5, 1));
    assert_eq!(e.message, "Expected token with type: Comma, but found Dot");
    pos = 2;
    let e = expect_token(TokenType::Dot, &tokens, &mut pos).unwrap_err();
    assert_eq!((e.line, e.column), (0, 0));
    assert_eq!(e.message, "Expected token with type: Dot, but found end of file");
    pos = 1;
    assert!(expect_token_with("a dot", |t| *t == TokenType::Dot, &tokens, &mut pos).is_ok());
    pos = 0;
    let e = expect_token_with("a dot", |t| *t == TokenType::Dot, &tokens, &mut pos).unwrap_err();
    assert_eq!(e.message, "Expected a dot, but found Comma");
}

#[test]
fn aliases_replace_and_read_back() {
    let mut aliases = RegisterAliases::new();
    assert_eq!(aliases.get(AssemblyMode::Vertex, "pos"), None);
    aliases.insert(AssemblyMode::Vertex, "pos".to_string(), RegisterName::LocalV(1));
    aliases.insert(AssemblyMode::Fragment, "pos".to_string(), RegisterName::InputV(2));
    aliases.insert(AssemblyMode::Vertex, "pos".to_string(), RegisterName::LocalV(3));
    assert_eq!(aliases.get(AssemblyMode::Vertex, "pos"), Some(RegisterName::LocalV(3)));
    assert_eq!(aliases.get(AssemblyMode::Fragment, "pos"), Some(RegisterName::InputV(2)));
    assert_eq!(aliases.get(AssemblyMode::Compute, "pos"), None);
}

#[test]
fn alias_declarations() {
    let alias = tok(TokenType::Command(rvfm::assembler::lexer::CommandType::Alias), 2, 1, None);
    let tokens = vec![
        tok(TokenType::Name, 2, 8, Some("colour")),
        tok(TokenType::Colon, 2, 14, None),
        tok(TokenType::Register(RegisterName::OutputV(0)), 2, 16, None),
    ];
    let mut aliases = RegisterAliases::new();
    let mut bytes = vec![1u8];
    let mut pos = 0;
    assert!(handle_alias(&mut bytes, &mut aliases, &alias, &tokens, &mut pos, AssemblyMode::Fragment).is_ok());
    assert_eq!(pos, 3);
    assert_eq!(bytes, vec![1u8]);
    // The alias now reads back as an operand.
    let operand = vec![tok(TokenType::Name, 3, 5, Some("colour"))];
    let mut p = 0;
    let (r, _) = expect_write_register(&operand, &mut p, Some(&aliases), AssemblyMode::Fragment).unwrap();
    assert_eq!(r, RegisterName::OutputV(0));
    // Out of place: an error at the colon that is missing, or at the alias at the end.
    let mut pos = 0;
    let e = handle_alias(&mut bytes, &mut aliases, &alias, &tokens[..2], &mut pos, AssemblyMode::Fragment).unwrap_err();
    assert_eq!((e.line, e.column, pos), (2, 1, 2));
    assert_eq!(e.message, "Unexpected end of file");
    let bad = vec![tok(TokenType::Name, 4, 8, Some("x")), tok(TokenType::Colon, 4, 9, None), tok(TokenType::Number, 4, 11, Some("3"))];
    let mut pos = 0;
    let e = handle_alias(&mut bytes, &mut aliases, &alias, &bad, &mut pos, AssemblyMode::Fragment).unwrap_err();
    assert_eq!((e.line, e.column, pos), (4, 11, 3));
    assert_eq!(aliases.get(AssemblyMode::Fragment, "x"), None);
}

#[test]
fn register_operands_by_mode() {
    let depth = vec![tok(TokenType::Register(RegisterName::BuiltinS(ScalarBuiltin::Depth)), 1, 1, None)];
    let mut p = 0;
    assert!(expect_write_register(&depth, &mut p, None, AssemblyMode::Fragment).is_ok());
    let mut p = 0;
    let e = expect_write_register(&depth, &mut p, None, AssemblyMode::Vertex).unwrap_err();
    assert_eq!(p, 0);
    assert_eq!(e.message, "Expected register writable from shader with Vertex, but found Register(BuiltinS(Depth))");
    let position = vec![tok(TokenType::Register(RegisterName::BuiltinV(VectorBuiltin::VertexPosition)), 1, 1, None)];
    let mut p = 0;
    assert!(expect_read_register(&position, &mut p, None, AssemblyMode::Fragment).is_ok());
    let mut p = 0;
    assert!(expect_read_register(&position, &mut p, None, AssemblyMode::Vertex).is_err());
    let constant = vec![tok(TokenType::Register(RegisterName::ConstantS(4)), 1, 1, None)];
    let mut p = 0;
    assert!(expect_write_register(&constant, &mut p, None, AssemblyMode::Compute).is_err());
    let mut p = 0;
    assert_eq!(expect_read_register(&constant, &mut p, None, AssemblyMode::Compute).unwrap().0, RegisterName::ConstantS(4));
    let unknown = vec![tok(TokenType::Name, 7, 3, Some("nothing"))];
    let aliases = RegisterAliases::new();
    let mut p = 0;
    let e = expect_read_register(&unknown, &mut p, Some(&aliases), AssemblyMode::Compute).unwrap_err();
    assert_eq!((e.line, e.column, p), (7, 3, 1));
    assert_eq!(e.message, "No variable or constant with the name nothing");
    let mut p = 0;
    let e = expect_read_register(&unknown, &mut p, None, AssemblyMode::Compute).unwrap_err();
    assert_eq!(p, 0);
    assert_eq!(e.message, "Expected register readable from Compute shader, but found Name");
}

use rvfm::assembler::lexer::{run_lexer, CommandType};
use rvfm::assembler::driver::{handle_instruction, run_assembler};

#[test]
fn lexer_reads_an_instruction_line() {
    let tokens = run_lexer("vertex!\nmov vloc_1.x, sin_2").unwrap();
    assert_eq!(
        tokens,
        vec![
            tok(TokenType::Command(CommandType::SetMode(AssemblyMode::Vertex)), 1, 1, None),
            tok(TokenType::Whitespace, 1, 8, None),
            tok(TokenType::Instruction(InstructionType::Mov), 2, 1, None),
            tok(TokenType::Whitespace, 2, 4, None),
            tok(TokenType::Register(RegisterName::LocalV(1)), 2, 5, None),
            tok(TokenType::Dot, 2, 19, None),
            tok(TokenType::Name, 2, 20, Some("x")),
            tok(TokenType::Comma, 2, 13, None),
            tok(TokenType::Whitespace, 2, 14, None),
            tok(TokenType::Register(RegisterName::InputS(2)), 2, 15, None),
        ]
    );
}

#[test]
fn lexer_names_and_dotted_instructions() {
    let tokens = run_lexer("Foo cmp.f.lt:").unwrap();
    assert_eq!(
        tokens,
        vec![
            tok(TokenType::Name, 1, 1, Some("foo")),
            tok(TokenType::Whitespace, 1, 4, None),
            tok(TokenType::Instruction(InstructionType::FCmp(Comparison::Lt)), 1, 5, None),
            tok(TokenType::Colon, 1, 13, None),
        ]
    );
}

#[test]
fn lexer_comments_and_numbers_after_zero() {
    let tokens = run_lexer("// note\nmov 0.5e-3 0,").unwrap();
    assert_eq!(
        tokens,
        vec![
            tok(TokenType::Comment, 1, 1, None),
            tok(TokenType::Instruction(InstructionType::Mov), 1, 2, None),
            tok(TokenType::Whitespace, 1, 5, None),
            tok(TokenType::Number, 1, 6, Some(".5e-3")),
            tok(TokenType::Whitespace, 1, 12, None),
            tok(TokenType::Number, 1, 13, Some("")),
            tok(TokenType::Comma, 1, 14, None),
        ]
    );
    // A block comment stops before its closing slash, which is then read on its own.
    let block = run_lexer("/* a */,").unwrap_err();
    assert_eq!((block.len(), block[0].line, block[0].column), (1, 1, 2));
    assert_eq!(block[0].message, "Unexpected character '/'");
    // A zero at the very end gives no token.
    assert_eq!(run_lexer(":0").unwrap(), vec![tok(TokenType::Colon, 1, 1, None)]);
}

#[test]
fn lexer_errors() {
    let errors = run_lexer("@ x").unwrap_err();
    assert_eq!(errors.len(), 1);
    assert_eq!((errors[0].line, errors[0].column), (1, 1));
    assert_eq!(errors[0].message, "Unexpected character '@'");

    let errors = run_lexer("0x z").unwrap_err();
    assert_eq!((errors.len(), errors[0].line, errors[0].column), (1, 1, 1));
    assert_eq!(errors[0].message, "Expected value digits after hexadecimal start sequence");

    let errors = run_lexer("--x").unwrap_err();
    assert_eq!((errors.len(), errors[0].line, errors[0].column), (1, 1, 3));
    assert_eq!(errors[0].message, "Unexpected minus sign after minus sign");

    let errors = run_lexer("sloc_1.x").unwrap_err();
    assert_eq!((errors.len(), errors[0].line, errors[0].column), (1, 1, 9));
    assert!(errors[0].message.starts_with("Unexpected channel accessor: "));

    let errors = run_lexer("vloc_2.q").unwrap_err();
    assert_eq!((errors.len(), errors[0].line, errors[0].column), (1, 1, 9));
    assert_eq!(errors[0].message, "Invalid register component access specifier: .q");

    let errors = run_lexer("0.x").unwrap_err();
    assert_eq!((errors.len(), errors[0].line, errors[0].column), (1, 1, 3));
    assert_eq!(errors[0].message, "Expected a numeric digit after dot in float immediate");

    let errors = run_lexer("vloc_").unwrap_err();
    assert_eq!((errors.len(), errors[0].line, errors[0].column), (1, 1, 1));
    assert_eq!(errors[0].message, "Expected index after vloc_");
}

fn code_tokens(text: &str) -> Vec<Token> {
    run_lexer(text)
        .unwrap()
        .into_iter()
        .filter(|t| t.t != TokenType::Whitespace && t.t != TokenType::Comment)
        .collect()
}

#[test]
fn instructions_read_their_operands() {
    let tokens = code_tokens("mov vloc_1, vin_2\nadd.f sloc_0, sin_1, sconst_2");
    let aliases = RegisterAliases::new();
    let mut bytes = vec![0xAAu8];
    let mut pos = 1usize;
    assert!(handle_instruction(&mut bytes, InstructionType::Mov, &tokens[0], &tokens, &mut pos, &aliases, Some(AssemblyMode::Vertex)).is_ok());
    assert_eq!(bytes, vec![0xAA, 0x04, 0, 1, 1, 0x12]);
    assert_eq!(pos, 4);
    pos = 5;
    assert!(handle_instruction(&mut bytes, InstructionType::Add(OpDataType::F32), &tokens[4], &tokens, &mut pos, &aliases, Some(AssemblyMode::Vertex)).is_ok());
    assert_eq!(pos, 10);
    let mut expected = vec![0xAA, 0x04, 0, 1, 1, 0x12];
    assert!(write_binary_op(&mut expected, &tokens[4], InstructionType::Add(OpDataType::F32), RegisterName::LocalS(0), RegisterName::InputS(1), RegisterName::ConstantS(2), AssemblyMode::Vertex).is_ok());
    assert_eq!(bytes, expected);
}

#[test]
fn instruction_errors() {
    let aliases = RegisterAliases::new();
    // A missing comma: the error is at the token found there, which is not taken.
    let tokens = code_tokens("mov vloc_1 vin_2");
    let mut bytes = Vec::new();
    let mut pos = 1usize;
    let e = handle_instruction(&mut bytes, InstructionType::Mov, &tokens[0], &tokens, &mut pos, &aliases, Some(AssemblyMode::Vertex)).unwrap_err();
    assert_eq!((e.line, e.column, pos), (1, 12, 2));
    assert!(bytes.is_empty());
    // An alias that is not defined: the error is at the name, which is taken.
    let tokens = code_tokens("push foo");
    let mut pos = 1usize;
    let e = handle_instruction(&mut bytes, InstructionType::Push, &tokens[0], &tokens, &mut pos, &aliases, Some(AssemblyMode::Vertex)).unwrap_err();
    assert_eq!((e.line, e.column, pos), (1, 6, 2));
    // Before any assembly mode: the error is at the instruction.
    let mut pos = 1usize;
    let e = handle_instruction(&mut bytes, InstructionType::Push, &tokens[0], &tokens, &mut pos, &aliases, None).unwrap_err();
    assert_eq!((e.line, e.column, pos), (1, 1, 1));
    // Operands of kinds the instruction does not take: the error is at the instruction.
    let tokens = code_tokens("add.f vloc_0, sin_1, sconst_2");
    let mut pos = 1usize;
    let e = handle_instruction(&mut bytes, InstructionType::Add(OpDataType::F32), &tokens[0], &tokens, &mut pos, &aliases, Some(AssemblyMode::Vertex)).unwrap_err();
    assert_eq!((e.line, e.column, pos), (1, 1, 6));
    assert!(bytes.is_empty());
}

fn assemble(text: &str, mode: AssemblyMode) -> Result<Vec<u8>, Vec<(usize, usize)>> {
    let tokens = run_lexer(text).unwrap();
    run_assembler(&tokens, mode).map_err(|es| es.iter().map(|e| (e.line, e.column)).collect())
}

#[test]
fn assembling_from_the_entry_point() {
    assert_eq!(assemble("vertex!\nentry!\nmov vloc_1, vin_2", AssemblyMode::Vertex), Ok(vec![0x04, 0, 1, 1, 0x12]));
    // Code before the entry point is dropped.
    assert_eq!(assemble("vertex!\nmov vloc_0, vloc_1\nentry!\nmov vloc_1, vin_2", AssemblyMode::Vertex), Ok(vec![0x04, 0, 1, 1, 0x12]));
    // An entry point for another mode is passed over, and a second one stops the assembly.
    assert_eq!(
        assemble("vertex!\nentry!\npush vloc_0\nfragment!\nentry!\npush vloc_1\nentry!\npush vloc_2", AssemblyMode::Fragment),
        Ok(vec![0x00, 0, 1])
    );
    // An alias stands for its register in the mode it was declared in.
    assert_eq!(assemble("vertex!\nalias! p: vloc_3\nentry!\npush p", AssemblyMode::Vertex), Ok(vec![0x00, 0, 3]));
}

#[test]
fn assembler_errors() {
    // Without an entry point for the mode, the error is at line 0, column 0.
    assert_eq!(assemble("vertex!\nmov vloc_1, vin_2", AssemblyMode::Vertex), Err(vec![(0, 0)]));
    // A token out of place.
    assert_eq!(assemble("vertex!\nentry!\n, push vloc_0", AssemblyMode::Vertex), Err(vec![(3, 1)]));
    // An instruction before any mode, and then each of its operands, are errors.
    assert_eq!(
        assemble("mov vloc_1, vin_2\nvertex!\nentry!", AssemblyMode::Vertex),
        Err(vec![(1, 1), (1, 5), (1, 11), (1, 13)])
    );
    // entry! before any mode stops the assembly.
    assert_eq!(assemble("entry!\nvertex!\nentry!", AssemblyMode::Vertex), Err(vec![(1, 1), (0, 0)]));
    // A buffer declaration always fails, at the token after its colon.
    assert_eq!(assemble("vertex!\nentry!\nbuffer! b: vloc_0", AssemblyMode::Vertex), Err(vec![(3, 12)]));
}

#[test]
fn assembler_error_messages() {
    let tokens = run_lexer("vertex!\nentry!\n, foo 0, .:\nsloc_1").unwrap();
    let errors = run_assembler(&tokens, AssemblyMode::Vertex).unwrap_err();
    let messages: Vec<&str> = errors.iter().map(|e| e.message.as_str()).collect();
    assert_eq!(
        messages,
        vec!["Unexpected comma", "Unexpected token: 'foo'", "Unexpected numer", "Unexpected comma", "Unexpected dot", "Unexpected colon", "Unexpected register name"]
    );
    let tokens = run_lexer("vertex!").unwrap();
    let errors = run_assembler(&tokens, AssemblyMode::Vertex).unwrap_err();
    assert_eq!(errors[0].message, "No matching shader entry point in file");
    let tokens = run_lexer("alias! x: vloc_0").unwrap();
    let errors = run_assembler(&tokens, AssemblyMode::Vertex).unwrap_err();
    assert_eq!(errors[0].message, "alias! used before an assembler mode was set (vertex!, fragment!, or compute!)");
}
