//! Operands of assembly instructions: expected tokens, registers, and register aliases.

use vstd::prelude::*;
use super::lexer::{AssemblyMode, RegisterName, ScalarBuiltin, Token, TokenType, VectorBuiltin};
use super::src_error::SourceError;
use crate::text::{chars_to_string, str_chars};

verus! {

/// `"token with type: "` and the `{:?}` text of `t` (`format!`).
#[verifier::external_body]
fn kind_description(t: TokenType) -> String {
    format!("token with type: {:?}", t)
}

/// `prefix`, the `{:?}` text of `mode`, then `suffix` (`format!`).
#[verifier::external_body]
fn mode_description(prefix: &str, mode: AssemblyMode, suffix: &str) -> String {
    format!("{}{:?}{}", prefix, mode, suffix)
}

/// `"Expected "`, `expected`, `", but found "` and the `{:?}` text of `found` (`format!`).
#[verifier::external_body]
fn found_message(expected: &str, found: TokenType) -> String {
    format!("Expected {}, but found {:?}", expected, found)
}

/// `"Expected "`, `expected`, then `", but found end of file"` (`format!`).
#[verifier::external_body]
fn end_of_file_message(expected: &str) -> String {
    format!("Expected {}, but found end of file", expected)
}

/// `before`, `name` and `after`, one after another.
pub(crate) fn name_message(before: &str, name: &str, after: &str) -> (r: String)
    ensures
        r@ == before@ + name@ + after@,
{
    let mut chars = str_chars(before);
    let rest = str_chars(name);
    let tail = str_chars(after);
    let ghost start = chars@;
    let mut i: usize = 0;
    while i < rest.len()
        invariant
            i <= rest@.len(),
            chars@ == start + rest@.take(i as int),
        decreases rest@.len() - i,
    {
        chars.push(rest[i]);
        i = i + 1;
        assert(chars@ =~= start + rest@.take(i as int));
    }
    assert(rest@.take(rest@.len() as int) =~= rest@);
    let ghost middle = chars@;
    let mut j: usize = 0;
    while j < tail.len()
        invariant
            j <= tail@.len(),
            chars@ == middle + tail@.take(j as int),
        decreases tail@.len() - j,
    {
        chars.push(tail[j]);
        j = j + 1;
        assert(chars@ =~= middle + tail@.take(j as int));
    }
    assert(tail@.take(tail@.len() as int) =~= tail@);
    chars_to_string(chars)
}

/// `r` is an error at `tokens[q]`, or at line 0, column 0 when `q` is past the end.
pub open spec fn error_at_token<T>(tokens: Seq<Token>, q: int, r: Result<T, SourceError>) -> bool {
    &&& r is Err
    &&& q < tokens.len() ==> r->Err_0.line == tokens[q].line && r->Err_0.column == tokens[q].column
    &&& q >= tokens.len() ==> r->Err_0.line == 0 && r->Err_0.column == 0
}

/// The outcome of expecting a token at `pos` that `accepts` takes: the token, taken, or an
/// error at the token found, or at line 0, column 0 at the end of the tokens.
pub open spec fn expect_outcome(tokens: Seq<Token>, pos: int, new_pos: int, accepts: bool, r: Result<&Token, SourceError>) -> bool {
    if pos < tokens.len() && accepts {
        r == Ok::<&Token, SourceError>(&tokens[pos]) && new_pos == pos + 1
    } else {
        &&& r is Err
        &&& new_pos == pos
        &&& pos < tokens.len() ==> r->Err_0.line == tokens[pos].line && r->Err_0.column == tokens[pos].column
        &&& pos >= tokens.len() ==> r->Err_0.line == 0 && r->Err_0.column == 0
    }
}

/// The next token, taken when it is of kind `t`; an error otherwise.
pub fn expect_token<'t>(t: TokenType, tokens: &'t [Token], pos: &mut usize) -> (r: Result<&'t Token, SourceError>)
    ensures
        expect_outcome(tokens@, *old(pos) as int, *final(pos) as int,
            *old(pos) < tokens@.len() && tokens@[*old(pos) as int].t == t, r),
{
    if *pos < tokens.len() {
        let k = *pos;
        if tokens[k].t == t {
            *pos = k + 1;
            Ok(&tokens[k])
        } else {
            let d = kind_description(t);
            Err(SourceError { message: found_message(d.as_str(), tokens[k].t), line: tokens[k].line, column: tokens[k].column })
        }
    } else {
        let d = kind_description(t);
        Err(SourceError { message: end_of_file_message(d.as_str()), line: 0, column: 0 })
    }
}

/// The next token, taken when `test` accepts its kind; an error naming `description`
/// otherwise.
pub fn expect_token_with<'t, F: Fn(&TokenType) -> bool>(
    description: &str,
    test: F,
    tokens: &'t [Token],
    pos: &mut usize,
) -> (r: Result<&'t Token, SourceError>)
    requires
        forall|k: &TokenType| test.requires((k,)),
    ensures
        *old(pos) < tokens@.len() ==> exists|accepted: bool| test.ensures((&tokens@[*old(pos) as int].t,), accepted)
            && expect_outcome(tokens@, *old(pos) as int, *final(pos) as int, accepted, r),
        *old(pos) >= tokens@.len() ==> expect_outcome(tokens@, *old(pos) as int, *final(pos) as int, false, r),
{
    if *pos < tokens.len() {
        let k = *pos;
        let accepted = test(&tokens[k].t);
        let r = if accepted {
            *pos = k + 1;
            Ok(&tokens[k])
        } else {
            Err(SourceError { message: found_message(description, tokens[k].t), line: tokens[k].line, column: tokens[k].column })
        };
        assert(test.ensures((&tokens@[k as int].t,), accepted)
            && expect_outcome(tokens@, k as int, *pos as int, accepted, r));
        r
    } else {
        Err(SourceError { message: end_of_file_message(description), line: 0, column: 0 })
    }
}

/// Register aliases, each an assembly mode, a name and the register it stands for; a later
/// alias of a name in a mode replaces an earlier one.
pub struct RegisterAliases {
    pub entries: Vec<(AssemblyMode, String, RegisterName)>,
}

/// The register that the latest of `entries` naming `name` in `mode` gives, if any.
pub open spec fn alias_lookup(entries: Seq<(AssemblyMode, String, RegisterName)>, mode: AssemblyMode, name: Seq<char>) -> Option<RegisterName>
    decreases entries.len(),
{
    if entries.len() == 0 {
        None
    } else if entries.last().0 == mode && entries.last().1@ == name {
        Some(entries.last().2)
    } else {
        alias_lookup(entries.drop_last(), mode, name)
    }
}

impl RegisterAliases {
    /// The register `name` stands for in `mode`, if it is an alias there.
    pub open spec fn spec_get(&self, mode: AssemblyMode, name: Seq<char>) -> Option<RegisterName> {
        alias_lookup(self.entries@, mode, name)
    }

    /// No aliases.
    pub fn new() -> (r: Self)
        ensures
            forall|mode: AssemblyMode, name: Seq<char>| r.spec_get(mode, name) is None,
    {
        RegisterAliases { entries: Vec::new() }
    }

    /// Makes `name` stand for `register` in `mode`.
    pub fn insert(&mut self, mode: AssemblyMode, name: String, register: RegisterName)
        ensures
            final(self).spec_get(mode, name@) == Some(register),
            forall|m: AssemblyMode, n: Seq<char>| !(m == mode && n == name@) ==> #[trigger] final(self).spec_get(m, n) == old(self).spec_get(m, n),
    {
        self.entries.push((mode, name, register));
        assert(self.entries@.drop_last() =~= old(self).entries@);
        assert(self.entries@.last() == (mode, name, register));
    }

    /// The register `name` stands for in `mode`, if it is an alias there.
    pub fn get(&self, mode: AssemblyMode, name: &str) -> (r: Option<RegisterName>)
        ensures
            r == self.spec_get(mode, name@),
    {
        let wanted = str_chars(name);
        let mut i = self.entries.len();
        assert(self.entries@.take(i as int) =~= self.entries@);
        while i > 0
            invariant
                i <= self.entries@.len(),
                wanted@ == name@,
                alias_lookup(self.entries@.take(i as int), mode, name@) == self.spec_get(mode, name@),
            decreases i,
        {
            let entry = &self.entries[i - 1];
            let entry_chars = str_chars(entry.1.as_str());
            let ghost prefix = self.entries@.take(i as int);
            assert(prefix.last() == self.entries@[i - 1]);
            assert(prefix.drop_last() =~= self.entries@.take(i - 1));
            if entry.0 == mode && same_text(&entry_chars, &wanted) {
                return Some(entry.2);
            }
            i = i - 1;
        }
        assert(self.entries@.take(0) =~= Seq::<(AssemblyMode, String, RegisterName)>::empty());
        None
    }
}

/// Whether `a` and `b` hold the same characters.
fn same_text(a: &Vec<char>, b: &Vec<char>) -> (r: bool)
    ensures
        r == (a@ == b@),
{
    if a.len() != b.len() {
        return false;
    }
    let mut i: usize = 0;
    while i < a.len()
        invariant
            a@.len() == b@.len(),
            i <= a@.len(),
            forall|j: int| 0 <= j < i ==> a@[j] == b@[j],
        decreases a@.len() - i,
    {
        if a[i] != b[i] {
            return false;
        }
        i = i + 1;
    }
    assert(a@ =~= b@);
    true
}

/// Whether a register can be written by a shader of `mode`: local and output registers,
/// the depth in a fragment shader, the vertex position in a vertex shader.
pub open spec fn spec_writable(mode: AssemblyMode, r: RegisterName) -> bool {
    match r {
        RegisterName::LocalS(_) | RegisterName::LocalV(_) | RegisterName::OutputS(_) | RegisterName::OutputV(_) => true,
        RegisterName::BuiltinS(b) => mode == AssemblyMode::Fragment && b == ScalarBuiltin::Depth,
        RegisterName::BuiltinV(b) => mode == AssemblyMode::Vertex && b == VectorBuiltin::VertexPosition,
        _ => false,
    }
}

/// Whether a register can be read by a shader of `mode`: constant, local and input
/// registers, the vertex id and provoking vertex in a vertex shader, the depth, position,
/// barycentric and linear coordinates and vertex ids in a fragment shader.
pub open spec fn spec_readable(mode: AssemblyMode, r: RegisterName) -> bool {
    match r {
        RegisterName::ConstantS(_) | RegisterName::ConstantV(_) | RegisterName::LocalS(_) | RegisterName::LocalV(_)
        | RegisterName::InputS(_) | RegisterName::InputV(_) => true,
        RegisterName::BuiltinS(b) => (mode == AssemblyMode::Vertex && (b == ScalarBuiltin::VertexId || b == ScalarBuiltin::ProvokingVertex))
            || (mode == AssemblyMode::Fragment && b == ScalarBuiltin::Depth),
        RegisterName::BuiltinV(_) => mode == AssemblyMode::Fragment,
        _ => false,
    }
}

/// The text of a name token.
pub open spec fn name_text(t: Token) -> Seq<char> {
    match t.value {
        Some(s) => s@,
        None => Seq::empty(),
    }
}

/// A name token at `pos`, where aliases are looked up, has its text.
pub open spec fn names_have_text(tokens: Seq<Token>, pos: int, aliases: Option<&RegisterAliases>) -> bool {
    0 <= pos < tokens.len() && tokens[pos].t == TokenType::Name && aliases is Some ==> tokens[pos].value is Some
}

/// The register operand that `tokens[pos]` gives a shader of `mode` that may `write` (or
/// read) it: a register it may use, or an alias name. `None` where the token is not one.
pub open spec fn spec_register_operand(t: Token, aliases: Option<&RegisterAliases>, mode: AssemblyMode, write: bool) -> Option<Option<RegisterName>> {
    match t.t {
        TokenType::Register(r) => if (write && spec_writable(mode, r)) || (!write && spec_readable(mode, r)) { Some(Some(r)) } else { None },
        TokenType::Name => match aliases {
            Some(a) => Some(a.spec_get(mode, name_text(t))),
            None => None,
        },
        _ => None,
    }
}

/// What reading a register operand at `pos` gives: the register and its token, taken; an
/// error at the token when it is an alias name that is not defined; and the error of
/// `expect_token_with` when the token is not an operand.
pub open spec fn register_outcome(
    tokens: Seq<Token>,
    pos: int,
    new_pos: int,
    aliases: Option<&RegisterAliases>,
    mode: AssemblyMode,
    write: bool,
    r: Result<(RegisterName, &Token), SourceError>,
) -> bool {
    if pos < tokens.len() && spec_register_operand(tokens[pos], aliases, mode, write) is Some {
        &&& new_pos == pos + 1
        &&& match spec_register_operand(tokens[pos], aliases, mode, write) {
            Some(Some(reg)) => r == Ok::<(RegisterName, &Token), SourceError>((reg, &tokens[pos])),
            _ => r is Err && r->Err_0.line == tokens[pos].line && r->Err_0.column == tokens[pos].column,
        }
    } else {
        &&& new_pos == pos
        &&& r is Err
        &&& pos < tokens.len() ==> r->Err_0.line == tokens[pos].line && r->Err_0.column == tokens[pos].column
        &&& pos >= tokens.len() ==> r->Err_0.line == 0 && r->Err_0.column == 0
    }
}

/// A register that a shader of `mode` may write, or an alias of one, as the next operand.
pub fn expect_write_register<'t>(tokens: &'t [Token], pos: &mut usize, aliases: Option<&RegisterAliases>, mode: AssemblyMode)
    -> (r: Result<(RegisterName, &'t Token), SourceError>)
    requires
        names_have_text(tokens@, *old(pos) as int, aliases),
    ensures
        register_outcome(tokens@, *old(pos) as int, *final(pos) as int, aliases, mode, true, r),
{
    expect_register(tokens, pos, aliases, mode, true)
}

/// A register that a shader of `mode` may read, or an alias of one, as the next operand.
pub fn expect_read_register<'t>(tokens: &'t [Token], pos: &mut usize, aliases: Option<&RegisterAliases>, mode: AssemblyMode)
    -> (r: Result<(RegisterName, &'t Token), SourceError>)
    requires
        names_have_text(tokens@, *old(pos) as int, aliases),
    ensures
        register_outcome(tokens@, *old(pos) as int, *final(pos) as int, aliases, mode, false, r),
{
    expect_register(tokens, pos, aliases, mode, false)
}

/// Whether a shader of `mode` may write (or read) `r`.
fn register_allowed(mode: AssemblyMode, r: RegisterName, write: bool) -> (b: bool)
    ensures
        b == if write { spec_writable(mode, r) } else { spec_readable(mode, r) },
{
    if write {
        match r {
            RegisterName::LocalS(_) | RegisterName::LocalV(_) | RegisterName::OutputS(_) | RegisterName::OutputV(_) => true,
            RegisterName::BuiltinS(b) => match (mode, b) {
                (AssemblyMode::Fragment, ScalarBuiltin::Depth) => true,
                _ => false,
            },
            RegisterName::BuiltinV(b) => match (mode, b) {
                (AssemblyMode::Vertex, VectorBuiltin::VertexPosition) => true,
                _ => false,
            },
            _ => false,
        }
    } else {
        match r {
            RegisterName::ConstantS(_) | RegisterName::ConstantV(_) | RegisterName::LocalS(_) | RegisterName::LocalV(_)
            | RegisterName::InputS(_) | RegisterName::InputV(_) => true,
            RegisterName::BuiltinS(b) => match (mode, b) {
                (AssemblyMode::Vertex, ScalarBuiltin::VertexId)
                | (AssemblyMode::Vertex, ScalarBuiltin::ProvokingVertex)
                | (AssemblyMode::Fragment, ScalarBuiltin::Depth) => true,
                _ => false,
            },
            RegisterName::BuiltinV(b) => match (mode, b) {
                (AssemblyMode::Fragment, VectorBuiltin::VertexPosition)
                | (AssemblyMode::Fragment, VectorBuiltin::Barycentric)
                | (AssemblyMode::Fragment, VectorBuiltin::Linear)
                | (AssemblyMode::Fragment, VectorBuiltin::VertexIds) => true,
                _ => false,
            },
            _ => false,
        }
    }
}

fn expect_register<'t>(tokens: &'t [Token], pos: &mut usize, aliases: Option<&RegisterAliases>, mode: AssemblyMode, write: bool)
    -> (r: Result<(RegisterName, &'t Token), SourceError>)
    requires
        names_have_text(tokens@, *old(pos) as int, aliases),
    ensures
        register_outcome(tokens@, *old(pos) as int, *final(pos) as int, aliases, mode, write, r),
{
    let description = if write {
        mode_description("register writable from shader with ", mode, "")
    } else {
        mode_description("register readable from ", mode, " shader")
    };
    if *pos >= tokens.len() {
        return Err(SourceError { message: end_of_file_message(description.as_str()), line: 0, column: 0 });
    }
    let k = *pos;
    let token = &tokens[k];
    match token.t {
        TokenType::Register(name) => {
            if register_allowed(mode, name, write) {
                *pos = k + 1;
                Ok((name, token))
            } else {
                Err(SourceError { message: found_message(description.as_str(), token.t), line: token.line, column: token.column })
            }
        },
        TokenType::Name => {
            match aliases {
                Some(a) => {
                    *pos = k + 1;
                    let text: &str = match &token.value {
                        Some(v) => v.as_str(),
                        None => "",
                    };
                    match a.get(mode, text) {
                        Some(register) => Ok((register, token)),
                        None => {
                            let before = if write { "No variable with the name " } else { "No variable or constant with the name " };
                            Err(SourceError { message: name_message(before, text, ""), line: token.line, column: token.column })
                        },
                    }
                },
                None => Err(SourceError { message: found_message(description.as_str(), token.t), line: token.line, column: token.column }),
            }
        },
        _ => Err(SourceError { message: found_message(description.as_str(), token.t), line: token.line, column: token.column }),
    }
}

/// An alias, once declared, is the register its name stands for as an operand in the same
/// mode, to read and to write.
pub proof fn law_alias_read_back(aliases: &RegisterAliases, mode: AssemblyMode, t: Token, register: RegisterName, write: bool)
    requires
        t.t == TokenType::Name,
        aliases.spec_get(mode, name_text(t)) == Some(register),
    ensures
        spec_register_operand(t, Some(aliases), mode, write) == Some(Some(register)),
{
}

/// What reading an alias declaration from `p` in `ts` does (see `handle_alias`): the
/// position after it, the aliases after it, and what it returns.
pub open spec fn alias_outcome(
    ts: Seq<Token>,
    p: int,
    new_pos: int,
    alias_token: Token,
    mode: AssemblyMode,
    before: RegisterAliases,
    after: RegisterAliases,
    r: Result<(), SourceError>,
) -> bool {
    let named = p < ts.len() && ts[p].t == TokenType::Name;
    let colon = named && p + 1 < ts.len() && ts[p + 1].t == TokenType::Colon;
    let ok = colon && p + 2 < ts.len() && ts[p + 2].t is Register;
    &&& !named ==> error_at_token(ts, p, r) && new_pos == p
    &&& named && !colon ==> error_at_token(ts, p + 1, r) && new_pos == p + 1
    &&& colon && p + 2 >= ts.len() ==> r is Err && new_pos == p + 2
        && r->Err_0.line == alias_token.line && r->Err_0.column == alias_token.column
    &&& colon && p + 2 < ts.len() && !(ts[p + 2].t is Register) ==> r is Err && new_pos == p + 3
        && r->Err_0.line == ts[p + 2].line && r->Err_0.column == ts[p + 2].column
    &&& !ok ==> after.entries@ == before.entries@
    &&& ok ==> r is Ok && new_pos == p + 3
        && after.spec_get(mode, name_text(ts[p])) == Some(ts[p + 2].t->Register_0)
        && forall|m: AssemblyMode, n: Seq<char>| !(m == mode && n == name_text(ts[p])) ==>
            #[trigger] after.spec_get(m, n) == before.spec_get(m, n)
}

/// Reads an alias declaration after `alias!` (`alias_token`): a name, a colon and a register,
/// which the name then stands for in `mode`. An error comes at the token that is out of
/// place, at line 0, column 0 when the tokens end before the colon, and at `alias_token`
/// when they end before the register; the register's token is taken even when it is not
/// a register.
pub fn handle_alias(
    _bytes: &mut Vec<u8>,
    aliases: &mut RegisterAliases,
    alias_token: &Token,
    tokens: &[Token],
    pos: &mut usize,
    mode: AssemblyMode,
) -> (r: Result<(), SourceError>)
    requires
        *old(pos) < tokens@.len() && tokens@[*old(pos) as int].t == TokenType::Name ==> tokens@[*old(pos) as int].value is Some,
    ensures
        final(_bytes)@ == old(_bytes)@,
        alias_outcome(tokens@, *old(pos) as int, *final(pos) as int, *alias_token, mode, *old(aliases), *final(aliases), r),
{
    let name_token = match expect_token(TokenType::Name, tokens, pos) {
        Ok(t) => t,
        Err(e) => return Err(e),
    };
    let alias_name: String = match &name_token.value {
        Some(v) => v.clone(),
        None => {
            assert(false);
            String::new()
        },
    };
    match expect_token(TokenType::Colon, tokens, pos) {
        Ok(_) => {},
        Err(e) => return Err(e),
    }
    if *pos >= tokens.len() {
        return Err(SourceError { message: String::from_str("Unexpected end of file"), line: alias_token.line, column: alias_token.column });
    }
    let k = *pos;
    *pos = k + 1;
    let register_token = &tokens[k];
    match register_token.t {
        TokenType::Register(register_name) => {
            aliases.insert(mode, alias_name, register_name);
            Ok(())
        },
        _ => Err(SourceError {
            message: String::from_str("Expected register name after colon in alias declaration"),
            line: register_token.line,
            column: register_token.column,
        }),
    }
}

} // verus!
