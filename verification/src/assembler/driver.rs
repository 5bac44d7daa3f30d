//! Assembling shader source from its tokens: each instruction's operands are read from the
//! tokens after its mnemonic and encoded; commands set the mode, the entry point and aliases.

use vstd::prelude::*;
use super::lexer::{AssemblyMode, CommandType, InstructionType, RegisterName, Token, TokenType};
use super::src_error::SourceError;
use super::operands::{
    alias_outcome, error_at_token, expect_read_register, expect_token, expect_write_register, handle_alias, name_message,
    name_text, spec_register_operand, RegisterAliases,
};
use super::scanner::error_view;
use super::tokens::try_expect_token;
use super::instructions::{
    spec_binary_op_written, spec_cmov_written, spec_cmp_written, spec_error_at, spec_fcmp_written, spec_is_binary,
    spec_is_unary, spec_mov_written, spec_mul_m44_v4_written, spec_pop_written, spec_push_written, spec_reg_legal,
    spec_ternary_op_written, spec_ucmp_written, spec_unary_op_written, write_binary_op, write_cmov, write_cmp,
    write_fcmp, write_mov, write_mul_m44_v4, write_pop, write_push, write_ternary_op, write_ucmp, write_unary_op,
};

verus! {

/// One piece of an instruction's operand list: a register it reads, one it writes, a comma,
/// or an optional `.` and component name.
#[derive(Copy, Clone, Debug, PartialEq, Eq, Structural)]
pub enum OperandItem {
    Read,
    Write,
    Comma,
    Component,
}

/// Every name token carries its text, as the lexer makes them.
pub open spec fn names_carry_text(tokens: Seq<Token>) -> bool {
    forall|j: int| 0 <= j < tokens.len() && (#[trigger] tokens[j]).t == TokenType::Name ==> tokens[j].value is Some
}

/// Where an error at `pos` is reported: at the token there, or at line 0, column 0 past
/// the end.
pub open spec fn place(tokens: Seq<Token>, pos: int) -> (int, int) {
    if 0 <= pos < tokens.len() { (tokens[pos].line as int, tokens[pos].column as int) } else { (0, 0) }
}

/// What reading `item` at `pos` gives: the register read (for a register), the component
/// token's position if any (for a component), and the position after it; or the place of
/// the error and the position the reading stops at.
pub open spec fn item_step(tokens: Seq<Token>, pos: int, item: OperandItem, aliases: &RegisterAliases, mode: AssemblyMode)
    -> Result<(Option<RegisterName>, Option<Option<int>>, int), ((int, int), int)>
{
    match item {
        OperandItem::Read | OperandItem::Write => {
            if 0 <= pos < tokens.len() {
                match spec_register_operand(tokens[pos], Some(aliases), mode, item == OperandItem::Write) {
                    Some(Some(r)) => Ok((Some(r), None, pos + 1)),
                    Some(None) => Err((place(tokens, pos), pos + 1)),
                    None => Err((place(tokens, pos), pos)),
                }
            } else {
                Err(((0, 0), pos))
            }
        },
        OperandItem::Comma => {
            if 0 <= pos < tokens.len() && tokens[pos].t == TokenType::Comma {
                Ok((None, None, pos + 1))
            } else {
                Err((place(tokens, pos), pos))
            }
        },
        OperandItem::Component => {
            if 0 <= pos < tokens.len() && tokens[pos].t == TokenType::Dot {
                if pos + 1 < tokens.len() && tokens[pos + 1].t == TokenType::Name {
                    Ok((None, Some(Some(pos + 1)), pos + 2))
                } else {
                    Err((place(tokens, pos + 1), pos + 1))
                }
            } else {
                Ok((None, Some(None), pos))
            }
        },
    }
}

/// Reads `items` in order from `pos`: the registers and component positions read, and the
/// position after them; or the first error's place and the position reading stopped at.
pub open spec fn parse_items(tokens: Seq<Token>, pos: int, items: Seq<OperandItem>, aliases: &RegisterAliases, mode: AssemblyMode)
    -> Result<(Seq<RegisterName>, Seq<Option<int>>, int), ((int, int), int)>
    decreases items.len(),
{
    if items.len() == 0 {
        Ok((Seq::empty(), Seq::empty(), pos))
    } else {
        match parse_items(tokens, pos, items.drop_last(), aliases, mode) {
            Err(e) => Err(e),
            Ok((regs, comps, p)) => match item_step(tokens, p, items.last(), aliases, mode) {
                Err(e) => Err(e),
                Ok((reg, comp, q)) => Ok((
                    match reg { Some(x) => regs.push(x), None => regs },
                    match comp { Some(c) => comps.push(c), None => comps },
                    q,
                )),
            },
        }
    }
}

/// How many registers and components `items` reads.
pub open spec fn item_counts(items: Seq<OperandItem>) -> (int, int)
    decreases items.len(),
{
    if items.len() == 0 {
        (0, 0)
    } else {
        let (r, c) = item_counts(items.drop_last());
        match items.last() {
            OperandItem::Read | OperandItem::Write => (r + 1, c),
            OperandItem::Component => (r, c + 1),
            OperandItem::Comma => (r, c),
        }
    }
}

/// Whether the assembler handles `op` (reads, writes, loads and stores it does not).
pub open spec fn instruction_supported(op: InstructionType) -> bool {
    match op {
        InstructionType::Read | InstructionType::Write | InstructionType::CRead | InstructionType::CWrite
        | InstructionType::Load | InstructionType::Store => false,
        _ => true,
    }
}

/// The operands of `op`, in order.
pub open spec fn operand_items(op: InstructionType) -> Seq<OperandItem> {
    match op {
        InstructionType::Push => seq![OperandItem::Read],
        InstructionType::Pop => seq![OperandItem::Write],
        InstructionType::Mov => seq![OperandItem::Write, OperandItem::Component, OperandItem::Comma, OperandItem::Read, OperandItem::Component],
        InstructionType::CMov => seq![
            OperandItem::Read, OperandItem::Comma, OperandItem::Write, OperandItem::Component, OperandItem::Comma,
            OperandItem::Read, OperandItem::Component,
        ],
        InstructionType::Cmp(_) | InstructionType::UCmp(_) | InstructionType::FCmp(_) => seq![
            OperandItem::Read, OperandItem::Comma, OperandItem::Read, OperandItem::Comma, OperandItem::Read,
        ],
        InstructionType::Lerp | InstructionType::Fma(_) => seq![
            OperandItem::Write, OperandItem::Comma, OperandItem::Read, OperandItem::Comma, OperandItem::Read,
            OperandItem::Comma, OperandItem::Read,
        ],
        InstructionType::MatrixMultiply4x4V4 => seq![
            OperandItem::Write, OperandItem::Comma, OperandItem::Read, OperandItem::Comma, OperandItem::Read,
            OperandItem::Comma, OperandItem::Read, OperandItem::Comma, OperandItem::Read, OperandItem::Comma,
            OperandItem::Read,
        ],
        _ => if spec_is_binary(op) {
            seq![OperandItem::Write, OperandItem::Comma, OperandItem::Read, OperandItem::Comma, OperandItem::Read]
        } else {
            seq![OperandItem::Write, OperandItem::Comma, OperandItem::Read]
        },
    }
}

/// How many registers and components `op` reads.
pub open spec fn operand_counts(op: InstructionType) -> (int, int) {
    match op {
        InstructionType::Push | InstructionType::Pop => (1, 0),
        InstructionType::Mov => (2, 2),
        InstructionType::CMov => (3, 2),
        InstructionType::Cmp(_) | InstructionType::UCmp(_) | InstructionType::FCmp(_) => (3, 0),
        InstructionType::Lerp | InstructionType::Fma(_) => (4, 0),
        InstructionType::MatrixMultiply4x4V4 => (6, 0),
        _ => if spec_is_binary(op) { (3, 0) } else { (2, 0) },
    }
}

proof fn lemma_operand_counts(op: InstructionType)
    ensures
        item_counts(operand_items(op)) == operand_counts(op),
{
    reveal_with_fuel(item_counts, 12);
}

/// The component token at a position read, if any.
pub open spec fn component_token(tokens: Seq<Token>, c: Option<int>) -> Option<&'static Token> {
    match c {
        Some(i) => Some(&tokens[i]),
        None => None,
    }
}

/// Whether the encoder of `op` takes registers `regs` in `mode` (elsewhere it stops).
pub open spec fn encodable(op: InstructionType, regs: Seq<RegisterName>, mode: AssemblyMode) -> bool {
    match op {
        InstructionType::Lerp => false,
        InstructionType::Fma(_) => {
            &&& !(regs[0].spec_is_vector() && regs[1].spec_is_vector() && regs[2].spec_is_vector() && regs[3].spec_is_vector())
            &&& !(!regs[0].spec_is_vector() && !regs[1].spec_is_vector() && !regs[2].spec_is_vector() && !regs[3].spec_is_vector())
        },
        _ => forall|j: int| 0 <= j < regs.len() ==> spec_reg_legal(#[trigger] regs[j], mode),
    }
}

/// Whether assembling `op` at `pos` runs to an end: its operands are read, or fail to be,
/// and the encoder takes the registers read.
pub open spec fn instruction_runs(tokens: Seq<Token>, pos: int, op: InstructionType, aliases: &RegisterAliases, mode: Option<AssemblyMode>) -> bool {
    &&& instruction_supported(op)
    &&& mode matches Some(m) ==> match parse_items(tokens, pos, operand_items(op), aliases, m) {
        Ok((regs, _, _)) => encodable(op, regs, m),
        Err(_) => true,
    }
}

/// What encoding `op` with the registers and components read appends to `before`, giving
/// `after`, and returns (see the encoders).
pub open spec fn encoded(
    tokens: Seq<Token>,
    op: InstructionType,
    at: &Token,
    regs: Seq<RegisterName>,
    comps: Seq<Option<int>>,
    mode: AssemblyMode,
    before: Seq<u8>,
    after: Seq<u8>,
    r: Result<(), SourceError>,
) -> bool {
    match op {
        InstructionType::Push => spec_push_written(before, after, r, regs[0], mode),
        InstructionType::Pop => spec_pop_written(before, after, r, regs[0], mode),
        InstructionType::Mov => spec_mov_written(before, after, r, at, regs[0], component_token(tokens, comps[0]), regs[1],
            component_token(tokens, comps[1]), mode),
        InstructionType::CMov => spec_cmov_written(before, after, r, at, regs[0], regs[1], component_token(tokens, comps[0]),
            regs[2], component_token(tokens, comps[1]), mode),
        InstructionType::Cmp(c) => spec_cmp_written(before, after, r, at, regs[0], regs[1], regs[2], c, mode),
        InstructionType::UCmp(c) => spec_ucmp_written(before, after, r, at, regs[0], regs[1], regs[2], c, mode),
        InstructionType::FCmp(c) => spec_fcmp_written(before, after, r, at, regs[0], regs[1], regs[2], c, mode),
        InstructionType::Lerp | InstructionType::Fma(_) => spec_ternary_op_written(before, after, r, at, op, regs[0], regs[1], regs[2], regs[3], mode),
        InstructionType::MatrixMultiply4x4V4 => spec_mul_m44_v4_written(before, after, r, at, regs[0], regs[1], regs[2], regs[3],
            regs[4], regs[5], mode),
        _ => if spec_is_binary(op) {
            spec_binary_op_written(before, after, r, at, op, regs[0], regs[1], regs[2], mode)
        } else {
            spec_unary_op_written(before, after, r, at, op, regs[0], regs[1], mode)
        },
    }
}

/// What assembling `op` (whose token is `at`) with its operands from `pos` does: an error at
/// `at` before any assembly mode is set; the error of the first operand that cannot be read,
/// with nothing appended; otherwise what the encoder does with the operands, the position
/// then after them.
pub open spec fn instruction_outcome(
    tokens: Seq<Token>,
    pos: int,
    new_pos: int,
    op: InstructionType,
    at: &Token,
    mode: Option<AssemblyMode>,
    aliases: &RegisterAliases,
    before: Seq<u8>,
    after: Seq<u8>,
    r: Result<(), SourceError>,
) -> bool {
    match mode {
        None => spec_error_at(r, *at) && after == before && new_pos == pos,
        Some(m) => match parse_items(tokens, pos, operand_items(op), aliases, m) {
            Err((pl, p)) => r is Err && r->Err_0.line == pl.0 && r->Err_0.column == pl.1 && after == before && new_pos == p,
            Ok((regs, comps, p)) => new_pos == p && encoded(tokens, op, at, regs, comps, m, before, after, r),
        },
    }
}

/// A read of `items` that fails at a prefix fails the same way for the whole.
proof fn lemma_error_stays(tokens: Seq<Token>, pos: int, items: Seq<OperandItem>, aliases: &RegisterAliases, mode: AssemblyMode, k: int)
    requires
        0 <= k <= items.len(),
        parse_items(tokens, pos, items.take(k), aliases, mode) is Err,
    ensures
        parse_items(tokens, pos, items, aliases, mode) == parse_items(tokens, pos, items.take(k), aliases, mode),
    decreases items.len() - k,
{
    if k < items.len() {
        assert(items.take(k + 1).drop_last() =~= items.take(k));
        lemma_error_stays(tokens, pos, items, aliases, mode, k + 1);
    } else {
        assert(items.take(k) =~= items);
    }
}

/// A successful read gives as many registers and components as the items name, the
/// components being positions of tokens.
proof fn lemma_counts(tokens: Seq<Token>, pos: int, items: Seq<OperandItem>, aliases: &RegisterAliases, mode: AssemblyMode)
    requires
        0 <= pos,
        parse_items(tokens, pos, items, aliases, mode) is Ok,
    ensures
        ({
            let (regs, comps, p) = parse_items(tokens, pos, items, aliases, mode)->Ok_0;
            &&& regs.len() == item_counts(items).0
            &&& comps.len() == item_counts(items).1
            &&& forall|j: int| 0 <= j < comps.len() ==> (#[trigger] comps[j] matches Some(i) ==> 0 <= i < tokens.len())
            &&& pos <= p
        }),
    decreases items.len(),
{
    if items.len() > 0 {
        lemma_counts(tokens, pos, items.drop_last(), aliases, mode);
    }
}

/// The operand items of `op` (see `operand_items`).
fn operand_items_exec(op: InstructionType) -> (r: Vec<OperandItem>)
    ensures
        r@ == operand_items(op),
{
    let r = match op {
        InstructionType::Push => vec![OperandItem::Read],
        InstructionType::Pop => vec![OperandItem::Write],
        InstructionType::Mov => vec![OperandItem::Write, OperandItem::Component, OperandItem::Comma, OperandItem::Read, OperandItem::Component],
        InstructionType::CMov => vec![
            OperandItem::Read, OperandItem::Comma, OperandItem::Write, OperandItem::Component, OperandItem::Comma,
            OperandItem::Read, OperandItem::Component,
        ],
        InstructionType::Cmp(_) | InstructionType::UCmp(_) | InstructionType::FCmp(_) => vec![
            OperandItem::Read, OperandItem::Comma, OperandItem::Read, OperandItem::Comma, OperandItem::Read,
        ],
        InstructionType::Lerp | InstructionType::Fma(_) => vec![
            OperandItem::Write, OperandItem::Comma, OperandItem::Read, OperandItem::Comma, OperandItem::Read,
            OperandItem::Comma, OperandItem::Read,
        ],
        InstructionType::MatrixMultiply4x4V4 => vec![
            OperandItem::Write, OperandItem::Comma, OperandItem::Read, OperandItem::Comma, OperandItem::Read,
            OperandItem::Comma, OperandItem::Read, OperandItem::Comma, OperandItem::Read, OperandItem::Comma,
            OperandItem::Read,
        ],
        InstructionType::Add(_) | InstructionType::Sub(_) | InstructionType::Mul(_) | InstructionType::Div(_)
        | InstructionType::Mod(_) | InstructionType::Atan2 | InstructionType::And | InstructionType::AndN
        | InstructionType::Or | InstructionType::Xor | InstructionType::Cross => vec![
            OperandItem::Write, OperandItem::Comma, OperandItem::Read, OperandItem::Comma, OperandItem::Read,
        ],
        _ => vec![OperandItem::Write, OperandItem::Comma, OperandItem::Read],
    };
    proof {
        assert(r@ =~= operand_items(op));
    }
    r
}

/// A position as the contract sees it.
pub open spec fn position_view(o: Option<usize>) -> Option<int> {
    match o {
        Some(i) => Some(i as int),
        None => None,
    }
}

/// Reads `items` from `*pos` (see `parse_items`): the registers and the positions of the
/// component tokens read.
fn parse_operands(tokens: &[Token], pos: &mut usize, items: &Vec<OperandItem>, aliases: &RegisterAliases, mode: AssemblyMode)
    -> (r: Result<(Vec<RegisterName>, Vec<Option<usize>>), SourceError>)
    requires
        names_carry_text(tokens@),
    ensures
        match parse_items(tokens@, *old(pos) as int, items@, aliases, mode) {
            Ok((regs, comps, p)) => r matches Ok((rv, cv)) && rv@ == regs
                && cv@.map_values(|o: Option<usize>| position_view(o)) == comps && *final(pos) == p,
            Err((pl, p)) => r is Err && r->Err_0.line == pl.0 && r->Err_0.column == pl.1 && *final(pos) == p,
        },
{
    let ghost start = *pos as int;
    let mut regs: Vec<RegisterName> = Vec::new();
    let mut comps: Vec<Option<usize>> = Vec::new();
    let mut k: usize = 0;
    assert(items@.take(0) =~= Seq::<OperandItem>::empty());
    assert(comps@.map_values(|o: Option<usize>| position_view(o)) =~= Seq::<Option<int>>::empty());
    while k < items.len()
        invariant
            names_carry_text(tokens@),
            k <= items@.len(),
            start <= *pos,
            start == *old(pos) as int,
            parse_items(tokens@, start, items@.take(k as int), aliases, mode)
                == Ok::<(Seq<RegisterName>, Seq<Option<int>>, int), ((int, int), int)>((regs@,
                    comps@.map_values(|o: Option<usize>| position_view(o)), *pos as int)),
        decreases items@.len() - k,
    {
        let ghost p = *pos as int;
        let ghost regs0 = regs@;
        let ghost comps0 = comps@.map_values(|o: Option<usize>| position_view(o));
        assert(items@.take(k + 1).drop_last() =~= items@.take(k as int));
        assert(items@.take(k + 1).last() == items@[k as int]);
        let item = items[k];
        match item {
            OperandItem::Read | OperandItem::Write => {
                let got = if item == OperandItem::Write {
                    expect_write_register(tokens, pos, Some(aliases), mode)
                } else {
                    expect_read_register(tokens, pos, Some(aliases), mode)
                };
                match got {
                    Ok((reg, _)) => {
                        regs.push(reg);
                    },
                    Err(e) => {
                        proof { lemma_error_stays(tokens@, start, items@, aliases, mode, k + 1); }
                        return Err(e);
                    },
                }
            },
            OperandItem::Comma => {
                match expect_token(TokenType::Comma, tokens, pos) {
                    Ok(_) => {},
                    Err(e) => {
                        proof { lemma_error_stays(tokens@, start, items@, aliases, mode, k + 1); }
                        return Err(e);
                    },
                }
            },
            OperandItem::Component => {
                if try_expect_token(TokenType::Dot, tokens, pos).is_some() {
                    match expect_token(TokenType::Name, tokens, pos) {
                        Ok(_) => {
                            comps.push(Some(*pos - 1));
                        },
                        Err(e) => {
                            proof { lemma_error_stays(tokens@, start, items@, aliases, mode, k + 1); }
                            return Err(e);
                        },
                    }
                } else {
                    comps.push(None);
                }
            },
        }
        proof {
            assert(comps@.map_values(|o: Option<usize>| position_view(o)) =~= match item_step(tokens@, p, item, aliases, mode) {
                Ok((_, Some(c), _)) => comps0.push(c),
                _ => comps0,
            });
        }
        k = k + 1;
    }
    assert(items@.take(items@.len() as int) =~= items@);
    Ok((regs, comps))
}

/// The component token at `c`, if any.
fn component_at<'t>(tokens: &'t [Token], c: Option<usize>) -> (r: Option<&'t Token>)
    requires
        c matches Some(i) ==> i < tokens@.len(),
    ensures
        r == component_token(tokens@, position_view(c)),
{
    match c {
        Some(i) => Some(&tokens[i]),
        None => None,
    }
}

/// Encodes `op`, whose token is `at`, with the registers and component positions read.
fn encode_operands(
    bytes: &mut Vec<u8>,
    op: InstructionType,
    at: &Token,
    tokens: &[Token],
    regs: &Vec<RegisterName>,
    comps: &Vec<Option<usize>>,
    mode: AssemblyMode,
) -> (r: Result<(), SourceError>)
    requires
        instruction_supported(op),
        regs@.len() == operand_counts(op).0,
        comps@.len() == operand_counts(op).1,
        forall|j: int| 0 <= j < comps@.len() ==> (#[trigger] comps@[j] matches Some(i) ==> i < tokens@.len()),
        encodable(op, regs@, mode),
    ensures
        encoded(tokens@, op, at, regs@, comps@.map_values(|o: Option<usize>| position_view(o)), mode, old(bytes)@, final(bytes)@, r),
{
    match op {
        InstructionType::Push => write_push(bytes, regs[0], at, mode),
        InstructionType::Pop => write_pop(bytes, regs[0], at, mode),
        InstructionType::Mov => {
            let dc = component_at(tokens, comps[0]);
            let sc = component_at(tokens, comps[1]);
            write_mov(bytes, at, regs[0], dc, regs[1], sc, mode)
        },
        InstructionType::CMov => {
            let dc = component_at(tokens, comps[0]);
            let sc = component_at(tokens, comps[1]);
            write_cmov(bytes, at, regs[0], regs[1], dc, regs[2], sc, mode)
        },
        InstructionType::Cmp(c) => write_cmp(bytes, at, regs[0], regs[1], regs[2], c, mode),
        InstructionType::UCmp(c) => write_ucmp(bytes, at, regs[0], regs[1], regs[2], c, mode),
        InstructionType::FCmp(c) => write_fcmp(bytes, at, regs[0], regs[1], regs[2], c, mode),
        InstructionType::Lerp | InstructionType::Fma(_) => write_ternary_op(bytes, at, op, regs[0], regs[1], regs[2], regs[3], mode),
        InstructionType::MatrixMultiply4x4V4 => write_mul_m44_v4(bytes, at, regs[0], regs[1], regs[2], regs[3], regs[4], regs[5], mode),
        InstructionType::Add(_) | InstructionType::Sub(_) | InstructionType::Mul(_) | InstructionType::Div(_)
        | InstructionType::Mod(_) | InstructionType::Atan2 | InstructionType::And | InstructionType::AndN
        | InstructionType::Or | InstructionType::Xor | InstructionType::Cross => {
            write_binary_op(bytes, at, op, regs[0], regs[1], regs[2], mode)
        },
        _ => write_unary_op(bytes, at, op, regs[0], regs[1], mode),
    }
}

/// Assembles `instruction_t`, whose token is `instruction_token`, reading its operands from
/// `tokens` at `*pos` and appending its encoding to `bytes` (see `instruction_outcome`).
/// Aliases are looked up in `register_aliases` for `assembly_mode`.
pub fn handle_instruction(
    bytes: &mut Vec<u8>,
    instruction_t: InstructionType,
    instruction_token: &Token,
    tokens: &[Token],
    pos: &mut usize,
    register_aliases: &RegisterAliases,
    assembly_mode: Option<AssemblyMode>,
) -> (r: Result<(), SourceError>)
    requires
        names_carry_text(tokens@),
        instruction_runs(tokens@, *old(pos) as int, instruction_t, register_aliases, assembly_mode),
    ensures
        instruction_outcome(tokens@, *old(pos) as int, *final(pos) as int, instruction_t, instruction_token, assembly_mode,
            register_aliases, old(bytes)@, final(bytes)@, r),
{
    let mode = match assembly_mode {
        Some(m) => m,
        None => {
            return Err(SourceError {
                message: String::from_str("instruction before assembly mode command (vertex, fragment, compute)"),
                line: instruction_token.line,
                column: instruction_token.column,
            });
        },
    };
    let items = operand_items_exec(instruction_t);
    let (regs, comps) = match parse_operands(tokens, pos, &items, register_aliases, mode) {
        Ok(x) => x,
        Err(e) => {
            return Err(e);
        },
    };
    proof {
        lemma_counts(tokens@, *old(pos) as int, items@, register_aliases, mode);
        lemma_operand_counts(instruction_t);
        assert forall|j: int| 0 <= j < comps@.len() implies (#[trigger] comps@[j] matches Some(i) ==> i < tokens@.len()) by {
            assert(comps@.map_values(|o: Option<usize>| position_view(o))[j] == position_view(comps@[j]));
        }
    }
    encode_operands(bytes, instruction_t, instruction_token, tokens, &regs, &comps, mode)
}


/// Whether a token is code: neither blank nor a comment.
pub open spec fn is_code(t: Token) -> bool {
    t.t != TokenType::Whitespace && t.t != TokenType::Comment
}

/// The code tokens of `s`, in order.
pub open spec fn code_tokens(s: Seq<Token>) -> Seq<Token>
    decreases s.len(),
{
    if s.len() == 0 {
        Seq::empty()
    } else if is_code(s.last()) {
        code_tokens(s.drop_last()).push(s.last())
    } else {
        code_tokens(s.drop_last())
    }
}

/// The assembler between two tokens: the position in the code tokens, the bytes so far, the
/// places of the errors so far and, beside each, its message where it is stated, the
/// register aliases, the assembly mode, whether the entry
/// point was found, and whether it stopped.
pub struct AsmView {
    pub pos: int,
    pub bytes: Seq<u8>,
    pub errors: Seq<(int, int)>,
    pub messages: Seq<Option<Seq<char>>>,
    pub aliases: RegisterAliases,
    pub mode: Option<AssemblyMode>,
    pub entry_found: bool,
    pub done: bool,
}

/// The assembler before the first token.
pub open spec fn asm_initial(s: AsmView) -> bool {
    &&& s.pos == 0
    &&& s.bytes == Seq::<u8>::empty()
    &&& s.errors == Seq::<(int, int)>::empty()
    &&& s.messages == Seq::<Option<Seq<char>>>::empty()
    &&& forall|m: AssemblyMode, n: Seq<char>| #[trigger] s.aliases.spec_get(m, n) is None
    &&& s.mode is None
    &&& !s.entry_found
    &&& !s.done
}

/// `errors` with the place of `r`'s error after them, if it is one.
pub open spec fn with_error_of(errors: Seq<(int, int)>, r: Result<(), SourceError>) -> Seq<(int, int)> {
    match r {
        Ok(_) => errors,
        Err(e) => errors.push(error_view(e)),
    }
}

/// `messages` with no stated message after them for `r`'s error, if it is one.
pub open spec fn with_message_of(messages: Seq<Option<Seq<char>>>, r: Result<(), SourceError>) -> Seq<Option<Seq<char>>> {
    match r {
        Ok(_) => messages,
        Err(_) => messages.push(None),
    }
}

/// The message of a token out of place.
pub open spec fn out_of_place_message(t: Token) -> Seq<char> {
    match t.t {
        TokenType::Name => "Unexpected token: '"@ + name_text(t) + "'"@,
        TokenType::Number => "Unexpected numer"@,
        TokenType::Comma => "Unexpected comma"@,
        TokenType::Dot => "Unexpected dot"@,
        TokenType::Register(_) => "Unexpected register name"@,
        _ => "Unexpected colon"@,
    }
}

/// What reading a buffer alias declaration from `p` does: a name, a colon and a buffer name
/// are expected, and as no token names a buffer, it always fails: at the token out of
/// place, at line 0, column 0 when the tokens end before the colon, and at the declaration
/// (`decl`) when they end after it; the token after the colon is taken.
pub open spec fn buffer_alias_outcome(ts: Seq<Token>, p: int, new_pos: int, decl: Token, r: Result<(), SourceError>) -> bool {
    let named = p < ts.len() && ts[p].t == TokenType::Name;
    let colon = named && p + 1 < ts.len() && ts[p + 1].t == TokenType::Colon;
    &&& !named ==> error_at_token(ts, p, r) && new_pos == p
    &&& named && !colon ==> error_at_token(ts, p + 1, r) && new_pos == p + 1
    &&& colon && p + 2 >= ts.len() ==> r is Err && new_pos == p + 2 && r->Err_0.line == decl.line && r->Err_0.column == decl.column
    &&& colon && p + 2 < ts.len() ==> error_at_token(ts, p + 2, r) && new_pos == p + 3
}

/// One step of the assembler from `s` on the code tokens `ts`, giving `t`: the token at
/// `s.pos` is taken, then
/// - `entry!` before any mode is an error that stops; the first one in the mode `entry` asks
///   for starts the code anew (what came before is dropped); one after that stops;
/// - `alias!` before any mode is an error that stops; otherwise a declaration is read (see
///   `alias_outcome`); `buffer!` reads a declaration that fails (see `buffer_alias_outcome`);
/// - a mode command sets the mode; an instruction is assembled (see `instruction_outcome`);
/// - any other token is an error at it.
pub open spec fn asm_step(ts: Seq<Token>, entry: AssemblyMode, s: AsmView, t: AsmView) -> bool {
    let tok = ts[s.pos];
    let p = s.pos + 1;
    let at = (tok.line as int, tok.column as int);
    &&& !s.done
    &&& 0 <= s.pos < ts.len()
    &&& match tok.t {
        TokenType::Command(CommandType::Entry) => match s.mode {
            None => t == AsmView {
                pos: p, errors: s.errors.push(at), done: true,
                messages: s.messages.push(Some("entry! used before an assembler mode was set (vertex!, fragment!, or compute!)"@)), ..s
            },
            Some(m) => if !s.entry_found {
                if entry == m {
                    t == AsmView { pos: p, entry_found: true, bytes: Seq::empty(), ..s }
                } else {
                    t == AsmView { pos: p, ..s }
                }
            } else {
                t == AsmView { pos: p, done: true, ..s }
            },
        },
        TokenType::Command(CommandType::Alias) => match s.mode {
            None => t == AsmView {
                pos: p, errors: s.errors.push(at), done: true,
                messages: s.messages.push(Some("alias! used before an assembler mode was set (vertex!, fragment!, or compute!)"@)), ..s
            },
            Some(m) => exists|r: Result<(), SourceError>| #[trigger] alias_outcome(ts, p, t.pos, tok, m, s.aliases, t.aliases, r)
                && t == AsmView {
                    pos: t.pos, aliases: t.aliases, errors: with_error_of(s.errors, r), messages: with_message_of(s.messages, r), ..s
                },
        },
        TokenType::Command(CommandType::BufferDecl) => exists|r: Result<(), SourceError>|
            #[trigger] buffer_alias_outcome(ts, p, t.pos, tok, r)
            && t == AsmView { pos: t.pos, errors: with_error_of(s.errors, r), messages: with_message_of(s.messages, r), ..s },
        TokenType::Command(CommandType::SetMode(m)) => t == AsmView { pos: p, mode: Some(m), ..s },
        TokenType::Command(CommandType::TextureDecl) => false,
        TokenType::Instruction(op) => exists|r: Result<(), SourceError>|
            #[trigger] instruction_outcome(ts, p, t.pos, op, &tok, s.mode, &s.aliases, s.bytes, t.bytes, r)
            && t == AsmView {
                pos: t.pos, bytes: t.bytes, errors: with_error_of(s.errors, r), messages: with_message_of(s.messages, r), ..s
            },
        TokenType::Whitespace | TokenType::Comment => t == AsmView { pos: p, ..s },
        _ => t == AsmView { pos: p, errors: s.errors.push(at), messages: s.messages.push(Some(out_of_place_message(tok))), ..s },
    }
}

/// A run of the assembler on `ts`: from the start, step by step.
pub open spec fn valid_run(ts: Seq<Token>, entry: AssemblyMode, trace: Seq<AsmView>) -> bool {
    &&& trace.len() >= 1
    &&& asm_initial(trace[0])
    &&& forall|i: int| 0 <= i < trace.len() - 1 ==> asm_step(ts, entry, #[trigger] trace[i], trace[i + 1])
}

/// Whether the assembler can go on from `s`: it has stopped or reached the end, or the next
/// token is no texture declaration (which it does not handle) and no instruction it cannot
/// encode (see `instruction_runs`).
pub open spec fn step_safe(ts: Seq<Token>, s: AsmView) -> bool {
    s.done || s.pos < 0 || s.pos >= ts.len() || match ts[s.pos].t {
        TokenType::Command(CommandType::TextureDecl) => false,
        TokenType::Instruction(op) => instruction_runs(ts, s.pos + 1, op, &s.aliases, s.mode),
        _ => true,
    }
}

/// Whether every run of the assembler on `ts` can go on until it ends.
pub open spec fn asm_runs(ts: Seq<Token>, entry: AssemblyMode) -> bool {
    forall|trace: Seq<AsmView>| #[trigger] valid_run(ts, entry, trace) ==> step_safe(ts, trace.last())
}

/// The messages of the errors at the end of a run: that of the missing entry point is added
/// when none was found.
pub open spec fn final_messages(s: AsmView) -> Seq<Option<Seq<char>>> {
    if s.entry_found { s.messages } else { s.messages.push(Some("No matching shader entry point in file"@)) }
}

/// The places of the errors at the end of a run: an error at line 0, column 0 is added when
/// no entry point was found.
pub open spec fn final_errors(s: AsmView) -> Seq<(int, int)> {
    if s.entry_found { s.errors } else { s.errors.push((0, 0)) }
}

/// A copy of `t`.
fn copy_token(t: &Token) -> (r: Token)
    ensures
        r == *t,
{
    let value = match &t.value {
        Some(v) => Some(v.clone()),
        None => None,
    };
    Token { t: t.t, line: t.line, column: t.column, value }
}

/// The code tokens of `tokens` (see `code_tokens`).
fn code_of(tokens: &[Token]) -> (r: Vec<Token>)
    ensures
        r@ == code_tokens(tokens@),
{
    let mut r: Vec<Token> = Vec::new();
    let mut i: usize = 0;
    assert(tokens@.take(0) =~= Seq::<Token>::empty());
    while i < tokens.len()
        invariant
            i <= tokens@.len(),
            r@ == code_tokens(tokens@.take(i as int)),
        decreases tokens@.len() - i,
    {
        assert(tokens@.take(i + 1).drop_last() =~= tokens@.take(i as int));
        let t = &tokens[i];
        if t.t != TokenType::Whitespace && t.t != TokenType::Comment {
            r.push(copy_token(t));
        }
        i = i + 1;
    }
    assert(tokens@.take(tokens@.len() as int) =~= tokens@);
    r
}

/// The code tokens of tokens whose names carry their text carry theirs too.
proof fn lemma_code_names(s: Seq<Token>)
    requires
        names_carry_text(s),
    ensures
        names_carry_text(code_tokens(s)),
    decreases s.len(),
{
    if s.len() > 0 {
        assert(names_carry_text(s.drop_last())) by {
            assert forall|j: int| 0 <= j < s.drop_last().len() && (#[trigger] s.drop_last()[j]).t == TokenType::Name
                implies s.drop_last()[j].value is Some by {
                assert(s.drop_last()[j] == s[j]);
            }
        }
        lemma_code_names(s.drop_last());
        let c = code_tokens(s.drop_last());
        if is_code(s.last()) {
            assert forall|j: int| 0 <= j < c.push(s.last()).len() && (#[trigger] c.push(s.last())[j]).t == TokenType::Name
                implies c.push(s.last())[j].value is Some by {
                if j == c.len() {
                    assert(s[s.len() - 1] == s.last());
                } else {
                    assert(c.push(s.last())[j] == c[j]);
                }
            }
        }
    }
}

/// Reading operands from a position up to the end of the tokens stops between there and
/// the end.
proof fn lemma_parse_bounds(tokens: Seq<Token>, pos: int, items: Seq<OperandItem>, aliases: &RegisterAliases, mode: AssemblyMode)
    requires
        0 <= pos <= tokens.len(),
    ensures
        match parse_items(tokens, pos, items, aliases, mode) {
            Ok((_, _, p)) => pos <= p <= tokens.len(),
            Err((_, p)) => pos <= p <= tokens.len(),
        },
    decreases items.len(),
{
    if items.len() > 0 {
        lemma_parse_bounds(tokens, pos, items.drop_last(), aliases, mode);
    }
}

/// Reads a buffer alias declaration after `buffer!` (`decl`): see `buffer_alias_outcome`.
fn handle_buffer_alias(decl: &Token, tokens: &[Token], pos: &mut usize) -> (r: Result<(), SourceError>)
    ensures
        buffer_alias_outcome(tokens@, *old(pos) as int, *final(pos) as int, *decl, r),
{
    match expect_token(TokenType::Name, tokens, pos) {
        Ok(_) => {},
        Err(e) => return Err(e),
    }
    match expect_token(TokenType::Colon, tokens, pos) {
        Ok(_) => {},
        Err(e) => return Err(e),
    }
    if *pos >= tokens.len() {
        return Err(SourceError { message: String::from_str("Unexpected end of file"), line: decl.line, column: decl.column });
    }
    let k = *pos;
    *pos = k + 1;
    Err(SourceError {
        message: String::from_str("Expected register name after colon in alias declaration"),
        line: tokens[k].line,
        column: tokens[k].column,
    })
}

/// The error of a token out of place, reported at it.
fn error_here(message: &str, t: &Token) -> (r: SourceError)
    ensures
        r.line == t.line,
        r.column == t.column,
        r.message@ == message@,
{
    SourceError { message: String::from_str(message), line: t.line, column: t.column }
}

/// Assembles the code of shader source for the shader mode `entry_mode`: the bytes from its
/// entry point on, or the errors met (each at a token's line and column, or at line 0,
/// column 0). See `asm_step` for each token, and `final_errors` for the missing entry point.
/// The source must hold no texture declaration and no instruction the encoders do not take
/// where the assembler reaches them (see `asm_runs`).
pub fn run_assembler(tokens: &[Token], entry_mode: AssemblyMode) -> (r: Result<Vec<u8>, Vec<SourceError>>)
    requires
        names_carry_text(tokens@),
        asm_runs(code_tokens(tokens@), entry_mode),
    ensures
        exists|trace: Seq<AsmView>| {
            &&& #[trigger] valid_run(code_tokens(tokens@), entry_mode, trace)
            &&& (trace.last().done || trace.last().pos >= code_tokens(tokens@).len())
            &&& match r {
                Ok(bytes) => final_errors(trace.last()).len() == 0 && bytes@ == trace.last().bytes,
                Err(errors) => final_errors(trace.last()).len() > 0
                    && errors@.map_values(|e: SourceError| error_view(e)) == final_errors(trace.last())
                    && forall|j: int| 0 <= j < errors@.len() ==>
                        (#[trigger] final_messages(trace.last())[j] matches Some(m) ==> errors@[j].message@ == m),
            }
        },
{
    let code = code_of(tokens);
    proof { lemma_code_names(tokens@); }
    let mut bytes: Vec<u8> = Vec::new();
    let mut errors: Vec<SourceError> = Vec::new();
    let mut aliases = RegisterAliases::new();
    let mut entry_found = false;
    let mut mode: Option<AssemblyMode> = None;
    let mut done = false;
    let mut pos: usize = 0;
    let ghost mut messages: Seq<Option<Seq<char>>> = Seq::empty();
    let ghost mut trace: Seq<AsmView> = seq![AsmView {
        pos: 0, bytes: bytes@, errors: errors@.map_values(|e: SourceError| error_view(e)), messages: messages, aliases: aliases,
        mode: mode, entry_found: entry_found, done: done,
    }];
    proof {
        assert(bytes@ =~= Seq::<u8>::empty());
        assert(errors@.map_values(|e: SourceError| error_view(e)) =~= Seq::<(int, int)>::empty());
    }
    while !done && pos < code.len()
        invariant
            code@ == code_tokens(tokens@),
            names_carry_text(code@),
            asm_runs(code@, entry_mode),
            pos <= code@.len(),
            valid_run(code@, entry_mode, trace),
            trace.last() == (AsmView {
                pos: pos as int, bytes: bytes@, errors: errors@.map_values(|e: SourceError| error_view(e)), messages: messages,
                aliases: aliases, mode: mode, entry_found: entry_found, done: done,
            }),
            messages.len() == errors@.len(),
            forall|j: int| 0 <= j < errors@.len() ==> (#[trigger] messages[j] matches Some(m) ==> errors@[j].message@ == m),
        decreases code@.len() - pos,
    {
        let ghost s = trace.last();
        let ghost errors0 = errors@.map_values(|e: SourceError| error_view(e));
        let ghost errors_before = errors@;
        let ghost messages0 = messages;
        proof { assert(step_safe(code@, s)); }
        let k = pos;
        pos = pos + 1;
        let tok = &code[k];
        let ghost mut outcome: Result<(), SourceError> = Ok(());
        let ghost aliases0 = aliases;
        let ghost bytes0 = bytes@;
        match tok.t {
            TokenType::Command(CommandType::Entry) => {
                match mode {
                    None => {
                        errors.push(error_here("entry! used before an assembler mode was set (vertex!, fragment!, or compute!)", tok));
                        proof { messages = messages.push(Some("entry! used before an assembler mode was set (vertex!, fragment!, or compute!)"@)); }
                        done = true;
                    },
                    Some(m) => {
                        if !entry_found {
                            if entry_mode == m {
                                entry_found = true;
                                bytes.clear();
                            }
                        } else {
                            done = true;
                        }
                    },
                }
            },
            TokenType::Command(CommandType::Alias) => {
                match mode {
                    None => {
                        errors.push(error_here("alias! used before an assembler mode was set (vertex!, fragment!, or compute!)", tok));
                        proof { messages = messages.push(Some("alias! used before an assembler mode was set (vertex!, fragment!, or compute!)"@)); }
                        done = true;
                    },
                    Some(m) => {
                        let mut unused: Vec<u8> = Vec::new();
                        let res = handle_alias(&mut unused, &mut aliases, tok, code.as_slice(), &mut pos, m);
                        proof { outcome = res; }
                        match res {
                            Ok(()) => {},
                            Err(e) => {
                                errors.push(e);
                                proof { messages = messages.push(None); }
                            },
                        }
                    },
                }
            },
            TokenType::Command(CommandType::BufferDecl) => {
                let res = handle_buffer_alias(tok, code.as_slice(), &mut pos);
                proof { outcome = res; }
                match res {
                    Ok(()) => {},
                    Err(e) => {
                        errors.push(e);
                        proof { messages = messages.push(None); }
                    },
                }
            },
            TokenType::Command(CommandType::SetMode(m)) => {
                mode = Some(m);
            },
            TokenType::Command(CommandType::TextureDecl) => {
                assert(false);
            },
            TokenType::Instruction(op) => {
                proof {
                    lemma_parse_bounds(code@, pos as int, operand_items(op), &aliases, mode->Some_0);
                }
                let res = handle_instruction(&mut bytes, op, tok, code.as_slice(), &mut pos, &aliases, mode);
                proof { outcome = res; }
                match res {
                    Ok(()) => {},
                    Err(e) => {
                        errors.push(e);
                        proof { messages = messages.push(None); }
                    },
                }
            },
            TokenType::Whitespace | TokenType::Comment => {},
            _ => {
                let e = match tok.t {
                    TokenType::Name => {
                        let text: &str = match &tok.value {
                            Some(v) => v.as_str(),
                            None => "",
                        };
                        proof { reveal_strlit(""); }
                        SourceError { message: name_message("Unexpected token: '", text, "'"), line: tok.line, column: tok.column }
                    },
                    TokenType::Number => error_here("Unexpected numer", tok),
                    TokenType::Comma => error_here("Unexpected comma", tok),
                    TokenType::Dot => error_here("Unexpected dot", tok),
                    TokenType::Register(_) => error_here("Unexpected register name", tok),
                    _ => error_here("Unexpected colon", tok),
                };
                errors.push(e);
                proof { messages = messages.push(Some(out_of_place_message(*tok))); }
            },
        }
        let ghost t = AsmView {
            pos: pos as int, bytes: bytes@, errors: errors@.map_values(|e: SourceError| error_view(e)), messages: messages,
            aliases: aliases, mode: mode, entry_found: entry_found, done: done,
        };
        proof {
            match tok.t {
                TokenType::Command(CommandType::Alias) => {
                    if mode is Some {
                        assert(alias_outcome(code@, s.pos + 1, t.pos, *tok, mode->Some_0, s.aliases, t.aliases, outcome));
                        assert(t.errors =~= with_error_of(errors0, outcome));
                        assert(asm_step(code@, entry_mode, s, t));
                    } else {
                        assert(t.errors =~= errors0.push((tok.line as int, tok.column as int)));
                        assert(asm_step(code@, entry_mode, s, t));
                    }
                },
                TokenType::Command(CommandType::BufferDecl) => {
                    assert(buffer_alias_outcome(code@, s.pos + 1, t.pos, *tok, outcome));
                    assert(t.errors =~= with_error_of(errors0, outcome));
                    assert(asm_step(code@, entry_mode, s, t));
                },
                TokenType::Instruction(op) => {
                    assert(instruction_outcome(code@, s.pos + 1, t.pos, op, tok, s.mode, &s.aliases, s.bytes, t.bytes, outcome));
                    assert(t.errors =~= with_error_of(errors0, outcome));
                    assert(asm_step(code@, entry_mode, s, t));
                },
                TokenType::Command(CommandType::Entry) => {
                    if s.mode is None {
                        assert(t.errors =~= errors0.push((tok.line as int, tok.column as int)));
                    } else {
                        assert(t.errors =~= errors0);
                        assert(t.bytes =~= if !s.entry_found && entry_mode == s.mode->Some_0 { Seq::<u8>::empty() } else { bytes0 });
                    }
                    assert(asm_step(code@, entry_mode, s, t));
                },
                TokenType::Command(CommandType::SetMode(_)) => {
                    assert(asm_step(code@, entry_mode, s, t));
                },
                TokenType::Whitespace | TokenType::Comment => {
                    assert(asm_step(code@, entry_mode, s, t));
                },
                _ => {
                    assert(t.errors =~= errors0.push((tok.line as int, tok.column as int)));
                    assert(asm_step(code@, entry_mode, s, t));
                },
            }
            assert(asm_step(code@, entry_mode, s, t));
            let old_trace = trace;
            trace = trace.push(t);
            assert(forall|i: int| 0 <= i < old_trace.len() ==> trace[i] == old_trace[i]);
            assert forall|j: int| 0 <= j < errors@.len() implies (#[trigger] messages[j] matches Some(m) ==> errors@[j].message@ == m) by {
                if j < errors_before.len() {
                    assert(errors@[j] == errors_before[j]);
                    assert(messages[j] == messages0[j]);
                }
            }
        }
    }
    if !entry_found {
        errors.push(SourceError { message: String::from_str("No matching shader entry point in file"), line: 0, column: 0 });
    }
    if errors.len() != 0 {
        Err(errors)
    } else {
        Ok(bytes)
    }
}

} // verus!
