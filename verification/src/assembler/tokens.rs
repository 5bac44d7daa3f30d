//! Taking tokens one at a time from the token stream of a source, read from position `pos`.

use vstd::prelude::*;
use super::lexer::{Token, TokenType};

verus! {

/// The next token, taken when it is of kind `t`; nothing is taken otherwise.
pub fn try_expect_token<'t>(t: TokenType, tokens: &'t [Token], pos: &mut usize) -> (r: Option<&'t Token>)
    ensures
        ({
            let p = *old(pos) as int;
            if p < tokens@.len() && tokens@[p].t == t {
                r == Some(&tokens@[p]) && *final(pos) == *old(pos) + 1
            } else {
                r is None && *final(pos) == *old(pos)
            }
        }),
{
    if *pos < tokens.len() && tokens[*pos].t == t {
        let k = *pos;
        *pos = k + 1;
        Some(&tokens[k])
    } else {
        None
    }
}

/// The next token, taken when `test` accepts its kind; nothing is taken otherwise.
pub fn try_expect_token_with<'t, F: Fn(&TokenType) -> bool>(test: F, tokens: &'t [Token], pos: &mut usize) -> (r: Option<&'t Token>)
    requires
        forall|k: &TokenType| test.requires((k,)),
    ensures
        ({
            let p = *old(pos) as int;
            match r {
                Some(tok) => p < tokens@.len() && tok == &tokens@[p] && *final(pos) == *old(pos) + 1
                    && test.ensures((&tokens@[p].t,), true),
                None => *final(pos) == *old(pos) && (p < tokens@.len() ==> test.ensures((&tokens@[p].t,), false)),
            }
        }),
{
    if *pos < tokens.len() {
        let k = *pos;
        if test(&tokens[k].t) {
            *pos = k + 1;
            Some(&tokens[k])
        } else {
            None
        }
    } else {
        None
    }
}

} // verus!
