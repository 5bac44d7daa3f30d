//! Commands of the machine's debugger console.

use vstd::prelude::*;
use crate::text::{chars_to_string, str_chars, views};

verus! {

/// Lists the debugger can show.
#[derive(Copy, Clone, Debug, PartialEq, Eq, Structural)]
pub enum ListType {
    Breakpoints,
    Symbols,
}

/// Width of a memory access: a blob of bytes, or one word.
#[derive(Copy, Clone, Debug, PartialEq, Eq, Structural)]
pub enum DataType {
    Blob(u32),
    U32,
    U16,
    U8,
}

/// How a breakpoint is named: by symbol, by address (`@ <hex>`), or by number.
#[derive(Clone, Debug)]
pub enum BreakpointName {
    Symbol(String),
    Address(u32),
    Id(usize),
}

/// A breakpoint name, its symbol as characters.
pub enum BreakpointNameView {
    Symbol(Seq<char>),
    Address(u32),
    Id(usize),
}

impl View for BreakpointName {
    type V = BreakpointNameView;

    open spec fn view(&self) -> BreakpointNameView {
        match self {
            BreakpointName::Symbol(s) => BreakpointNameView::Symbol(s@),
            BreakpointName::Address(a) => BreakpointNameView::Address(*a),
            BreakpointName::Id(i) => BreakpointNameView::Id(*i),
        }
    }
}

/// A debugger command.
#[derive(Clone, Debug)]
pub enum Command {
    Help(Option<String>),
    Kill,
    Quit,
    List(Vec<ListType>),
    SetBreakpoint(BreakpointName),
    ClearBreakpoint(BreakpointName),
    Stop([bool; 4]),
    Continue([bool; 4]),
    Hart(usize),
    Regs,
    SingleStep,
    Read(DataType, u32),
    Write(DataType, u32, u32),
}

/// A debugger command, its texts as characters and its lists as sequences.
pub enum CommandView {
    Help(Option<Seq<char>>),
    Kill,
    Quit,
    List(Seq<ListType>),
    SetBreakpoint(BreakpointNameView),
    ClearBreakpoint(BreakpointNameView),
    Stop(Seq<bool>),
    Continue(Seq<bool>),
    Hart(usize),
    Regs,
    SingleStep,
    Read(DataType, u32),
    Write(DataType, u32, u32),
}

impl View for Command {
    type V = CommandView;

    open spec fn view(&self) -> CommandView {
        match self {
            Command::Help(h) => CommandView::Help(match h { Some(s) => Some(s@), None => None }),
            Command::Kill => CommandView::Kill,
            Command::Quit => CommandView::Quit,
            Command::List(l) => CommandView::List(l@),
            Command::SetBreakpoint(b) => CommandView::SetBreakpoint(b@),
            Command::ClearBreakpoint(b) => CommandView::ClearBreakpoint(b@),
            Command::Stop(h) => CommandView::Stop(h@),
            Command::Continue(h) => CommandView::Continue(h@),
            Command::Hart(n) => CommandView::Hart(*n),
            Command::Regs => CommandView::Regs,
            Command::SingleStep => CommandView::SingleStep,
            Command::Read(t, a) => CommandView::Read(*t, *a),
            Command::Write(t, a, v) => CommandView::Write(*t, *a, *v),
        }
    }
}

/// Whether `c` is a Unicode white space character.
pub open spec fn spec_is_whitespace(c: char) -> bool {
    let x = c as u32;
    x == 0x09 || x == 0x0A || x == 0x0B || x == 0x0C || x == 0x0D || x == 0x20 || x == 0x85 || x == 0xA0 || x == 0x1680 || x == 0x2000 || x == 0x2001 || x == 0x2002 || x == 0x2003 || x == 0x2004 || x == 0x2005 || x == 0x2006 || x == 0x2007 || x == 0x2008 || x == 0x2009 || x == 0x200a || x == 0x2028 || x == 0x2029 || x == 0x202F || x == 0x205F || x == 0x3000
}

/// Whether `c` is a Unicode white space character.
pub fn is_whitespace(c: char) -> (r: bool)
    ensures
        r == spec_is_whitespace(c),
{
    let x = c as u32;
    x == 0x09 || x == 0x0A || x == 0x0B || x == 0x0C || x == 0x0D || x == 0x20 || x == 0x85 || x == 0xA0 || x == 0x1680 || x == 0x2000 || x == 0x2001 || x == 0x2002 || x == 0x2003 || x == 0x2004 || x == 0x2005 || x == 0x2006 || x == 0x2007 || x == 0x2008 || x == 0x2009 || x == 0x200a || x == 0x2028 || x == 0x2029 || x == 0x202F || x == 0x205F || x == 0x3000
}

/// Position of the first character at or after `i` that is not white space.
pub open spec fn spec_lead(s: Seq<char>, i: int) -> int
    decreases s.len() - i,
{
    if 0 <= i < s.len() && spec_is_whitespace(s[i]) { spec_lead(s, i + 1) } else { i }
}

/// End of the text before `j` without its trailing white space, not going below `lo`.
pub open spec fn spec_trail(s: Seq<char>, j: int, lo: int) -> int
    decreases j - lo,
{
    if lo < j && j <= s.len() && spec_is_whitespace(s[j - 1]) { spec_trail(s, j - 1, lo) } else { j }
}

/// `s` without leading and trailing white space.
pub open spec fn spec_trim(s: Seq<char>) -> Seq<char> {
    let a = spec_lead(s, 0);
    s.subrange(a, spec_trail(s, s.len() as int, a))
}

/// `s` cut at every white space character; consecutive ones leave empty words between them.
pub open spec fn spec_split(s: Seq<char>) -> Seq<Seq<char>>
    decreases s.len(),
{
    if s.len() == 0 {
        seq![Seq::empty()]
    } else {
        let rest = spec_split(s.drop_last());
        if spec_is_whitespace(s.last()) {
            rest.push(Seq::empty())
        } else {
            rest.update(rest.len() - 1, rest.last().push(s.last()))
        }
    }
}

/// The words of a command line.
pub open spec fn spec_words(s: Seq<char>) -> Seq<Seq<char>> {
    spec_split(spec_trim(s))
}

/// The value of a hexadecimal digit, if `c` is one.
pub open spec fn spec_hex_digit(c: char) -> Option<u32> {
    if '0' <= c <= '9' {
        Some((c as u32 - '0' as u32) as u32)
    } else if 'a' <= c <= 'f' {
        Some((c as u32 - 'a' as u32 + 10) as u32)
    } else if 'A' <= c <= 'F' {
        Some((c as u32 - 'A' as u32 + 10) as u32)
    } else {
        None
    }
}

/// The hexadecimal number the digits of `s` spell, other characters skipped, modulo 2^32.
pub open spec fn spec_decode_hex(s: Seq<char>) -> u32
    decreases s.len(),
{
    if s.len() == 0 {
        0
    } else {
        let v = spec_decode_hex(s.drop_last());
        match spec_hex_digit(s.last()) {
            Some(d) => ((v as int * 16 + d) % 0x1_0000_0000) as u32,
            None => v,
        }
    }
}

/// Whether every character of `s` is a decimal digit.
pub open spec fn spec_all_digits(s: Seq<char>) -> bool {
    forall|k: int| 0 <= k < s.len() ==> '0' <= #[trigger] s[k] <= '9'
}

/// The decimal number the digits of `s` spell.
pub open spec fn spec_decimal(s: Seq<char>) -> nat
    decreases s.len(),
{
    if s.len() == 0 { 0 } else { spec_decimal(s.drop_last()) * 10 + (s.last() as u32 - '0' as u32) as nat }
}

/// The lists named by `words[k..]`: each `breakpoints` adds the breakpoint list once, each
/// `symbols` adds the symbol list; other words are skipped.
pub open spec fn spec_list_types(words: Seq<Seq<char>>, k: int) -> Seq<ListType>
    decreases k,
{
    if k <= 1 {
        Seq::empty()
    } else {
        let before = spec_list_types(words, k - 1);
        let w = words[k - 1];
        if w == seq!['b', 'r', 'e', 'a', 'k', 'p', 'o', 'i', 'n', 't', 's'] {
            if before.contains(ListType::Breakpoints) { before } else { before.push(ListType::Breakpoints) }
        } else if w == seq!['s', 'y', 'm', 'b', 'o', 'l', 's'] {
            before.push(ListType::Symbols)
        } else {
            before
        }
    }
}

/// The harts named by `words[1..k]`: 0 to 3, or `all`; any other word makes the list invalid.
pub open spec fn spec_harts(words: Seq<Seq<char>>, k: int) -> Option<Seq<bool>>
    decreases k,
{
    if k <= 1 {
        Some(seq![false, false, false, false])
    } else {
        match spec_harts(words, k - 1) {
            None => None,
            Some(h) => {
                let w = words[k - 1];
                if w == seq!['0'] { Some(h.update(0, true)) }
                else if w == seq!['1'] { Some(h.update(1, true)) }
                else if w == seq!['2'] { Some(h.update(2, true)) }
                else if w == seq!['3'] { Some(h.update(3, true)) }
                else if w == seq!['a', 'l', 'l'] { Some(seq![true, true, true, true]) }
                else { None }
            },
        }
    }
}

/// A breakpoint operand: `@` and a hexadecimal address, a number (when the word starts with a
/// digit, and only if all of it is digits; numbers only when `numbers`), or a symbol.
pub open spec fn spec_breakpoint(words: Seq<Seq<char>>, numbers: bool) -> Option<BreakpointNameView> {
    if words.len() < 2 {
        None
    } else if words[1] == seq!['@'] {
        if words.len() < 3 { None } else { Some(BreakpointNameView::Address(spec_decode_hex(words[2]))) }
    } else if numbers && words[1].len() > 0 && '0' <= words[1][0] <= '9' {
        if spec_all_digits(words[1]) { Some(BreakpointNameView::Id(spec_decimal(words[1]) as usize)) } else { None }
    } else {
        Some(BreakpointNameView::Symbol(words[1]))
    }
}

/// A read of `t` at the hexadecimal address in the second word.
pub open spec fn spec_read(words: Seq<Seq<char>>, t: DataType) -> Option<CommandView> {
    if words.len() < 2 { None } else { Some(CommandView::Read(t, spec_decode_hex(words[1]))) }
}

/// A write of `t` of the hexadecimal value in the third word at the address in the second.
pub open spec fn spec_write(words: Seq<Seq<char>>, t: DataType) -> Option<CommandView> {
    if words.len() < 3 { None } else { Some(CommandView::Write(t, spec_decode_hex(words[1]), spec_decode_hex(words[2]))) }
}

/// The command a line of text names, if any.
pub open spec fn spec_parse(s: Seq<char>) -> Option<CommandView> {
    let words = spec_words(s);
    let w0 = words[0];
    if s.len() == 0 {
        None
    } else if w0 == seq!['h', 'e', 'l', 'p'] || w0 == seq!['h'] {
        Some(CommandView::Help(if words.len() > 1 { Some(words[1]) } else { None }))
    } else if w0 == seq!['k', 'i', 'l', 'l'] || w0 == seq!['k'] {
        Some(CommandView::Kill)
    } else if w0 == seq!['q', 'u', 'i', 't'] || w0 == seq!['q'] {
        Some(CommandView::Quit)
    } else if w0 == seq!['l', 'i', 's', 't'] || w0 == seq!['l'] {
        Some(CommandView::List(spec_list_types(words, words.len() as int)))
    } else if w0 == seq!['s', 't', 'e', 'p'] || w0 == seq!['s'] {
        Some(CommandView::SingleStep)
    } else if w0 == seq!['c', 'o', 'n', 't', 'i', 'n', 'u', 'e'] || w0 == seq!['c'] {
        match spec_harts(words, words.len() as int) { Some(h) => Some(CommandView::Continue(h)), None => None }
    } else if w0 == seq!['s', 't', 'o', 'p'] || w0 == seq!['S'] {
        match spec_harts(words, words.len() as int) { Some(h) => Some(CommandView::Stop(h)), None => None }
    } else if w0 == seq!['h', 'a', 'r', 't'] || w0 == seq!['H'] {
        if words.len() < 2 { None }
        else if words[1] == seq!['0'] { Some(CommandView::Hart(0)) }
        else if words[1] == seq!['1'] { Some(CommandView::Hart(1)) }
        else if words[1] == seq!['2'] { Some(CommandView::Hart(2)) }
        else if words[1] == seq!['3'] { Some(CommandView::Hart(3)) }
        else { None }
    } else if w0 == seq!['r', 'e', 'g', 's'] || w0 == seq!['r'] {
        Some(CommandView::Regs)
    } else if w0 == seq!['s', 'e', 't', '_', 'b', 'p'] || w0 == seq!['b'] {
        match spec_breakpoint(words, false) { Some(b) => Some(CommandView::SetBreakpoint(b)), None => None }
    } else if w0 == seq!['c', 'l', 'e', 'a', 'r', '_', 'b', 'p'] || w0 == seq!['!', 'b'] {
        match spec_breakpoint(words, true) { Some(b) => Some(CommandView::ClearBreakpoint(b)), None => None }
    } else if w0 == seq!['r', 'e', 'a', 'd', '8'] || w0 == seq!['r', '8'] {
        spec_read(words, DataType::U8)
    } else if w0 == seq!['r', 'e', 'a', 'd', '1', '6'] || w0 == seq!['r', '1', '6'] {
        spec_read(words, DataType::U16)
    } else if w0 == seq!['r', 'e', 'a', 'd'] || w0 == seq!['r', 'e', 'a', 'd', '3', '2'] || w0 == seq!['r', '3', '2'] {
        spec_read(words, DataType::U32)
    } else if w0 == seq!['w', 'r', 'i', 't', 'e', '8'] || w0 == seq!['w', '8'] {
        spec_write(words, DataType::U8)
    } else if w0 == seq!['w', 'r', 'i', 't', 'e', '1', '6'] || w0 == seq!['w', '1', '6'] {
        spec_write(words, DataType::U16)
    } else if w0 == seq!['w', 'r', 'i', 't', 'e'] || w0 == seq!['w'] {
        spec_write(words, DataType::U32)
    } else {
        None
    }
}

/// Whether a breakpoint number in the line fits in a `usize` as its digits are read.
pub open spec fn spec_numbers_fit(s: Seq<char>) -> bool {
    let words = spec_words(s);
    (words[0] == seq!['c', 'l', 'e', 'a', 'r', '_', 'b', 'p'] || words[0] == seq!['!', 'b']) && words.len() >= 2
        ==> spec_digits_fit(words[1])
}

/// Where the text of `s` starts and ends once leading and trailing white space is left out.
pub fn trim_bounds(s: &Vec<char>) -> (r: (usize, usize))
    ensures
        r.0 == spec_lead(s@, 0),
        r.1 == spec_trail(s@, s@.len() as int, r.0 as int),
        r.0 <= r.1 <= s@.len(),
{
    let mut a: usize = 0;
    while a < s.len() && is_whitespace(s[a])
        invariant
            a <= s@.len(),
            spec_lead(s@, 0) == spec_lead(s@, a as int),
        decreases s@.len() - a,
    {
        a = a + 1;
    }
    let mut b: usize = s.len();
    while a < b && is_whitespace(s[b - 1])
        invariant
            a <= b <= s@.len(),
            spec_trail(s@, s@.len() as int, a as int) == spec_trail(s@, b as int, a as int),
        decreases b - a,
    {
        b = b - 1;
    }
    (a, b)
}

/// The words of `s[a..b]`, cut at every white space character.
pub fn split_words(s: &Vec<char>, a: usize, b: usize) -> (r: Vec<Vec<char>>)
    requires
        a <= b <= s@.len(),
    ensures
        views(r@) == spec_split(s@.subrange(a as int, b as int)),
{
    let mut words: Vec<Vec<char>> = Vec::new();
    words.push(Vec::new());
    proof {
        assert(s@.subrange(a as int, a as int) =~= Seq::<char>::empty());
        assert(views(words@) =~= seq![Seq::<char>::empty()]);
    }
    let mut k: usize = a;
    while k < b
        invariant
            a <= k <= b <= s@.len(),
            views(words@) == spec_split(s@.subrange(a as int, k as int)),
            words@.len() >= 1,
        decreases b - k,
    {
        let c = s[k];
        let ghost before = views(words@);
        proof {
            assert(s@.subrange(a as int, k + 1).drop_last() =~= s@.subrange(a as int, k as int));
            assert(s@.subrange(a as int, k + 1).last() == c);
        }
        if is_whitespace(c) {
            words.push(Vec::new());
            proof { assert(views(words@) =~= before.push(Seq::empty())); }
        } else {
            let mut last = words.pop().unwrap();
            last.push(c);
            words.push(last);
            proof {
                assert(views(words@) =~= before.update(before.len() - 1, before.last().push(c)));
            }
        }
        k = k + 1;
    }
    words
}

/// Whether `w` is the word `lit`.
pub fn word_is(w: &Vec<char>, lit: &Vec<char>) -> (r: bool)
    ensures
        r == (w@ == lit@),
{
    if w.len() != lit.len() {
        return false;
    }
    let mut k: usize = 0;
    while k < w.len()
        invariant
            k <= w@.len(),
            w@.len() == lit@.len(),
            forall|j: int| 0 <= j < k ==> w@[j] == lit@[j],
        decreases w@.len() - k,
    {
        if w[k] != lit[k] {
            return false;
        }
        k = k + 1;
    }
    proof { assert(w@ =~= lit@); }
    true
}

/// The value of a hexadecimal digit, if `c` is one.
pub fn hex_digit(c: char) -> (r: Option<u32>)
    ensures
        r == spec_hex_digit(c),
{
    if '0' <= c && c <= '9' {
        Some(c as u32 - '0' as u32)
    } else if 'a' <= c && c <= 'f' {
        Some(c as u32 - 'a' as u32 + 10)
    } else if 'A' <= c && c <= 'F' {
        Some(c as u32 - 'A' as u32 + 10)
    } else {
        None
    }
}

/// The hexadecimal number the digits of `hex` spell, other characters skipped, modulo 2^32.
pub fn decode_hex(hex: &Vec<char>) -> (r: u32)
    ensures
        r == spec_decode_hex(hex@),
{
    let mut value_out: u32 = 0;
    let mut k: usize = 0;
    while k < hex.len()
        invariant
            k <= hex@.len(),
            value_out == spec_decode_hex(hex@.take(k as int)),
        decreases hex@.len() - k,
    {
        proof { assert(hex@.take(k + 1).drop_last() =~= hex@.take(k as int)); }
        if let Some(value) = hex_digit(hex[k]) {
            let v = value_out;
            assert(((v << 4u32) | value) == ((v as int * 16 + value) % 0x1_0000_0000) as u32) by (bit_vector)
                requires value < 16;
            value_out = (value_out << 4) | value;
        }
        k = k + 1;
    }
    proof { assert(hex@.take(k as int) =~= hex@); }
    value_out
}

/// Whether every run of leading digits of `s` spells a number that fits in a `usize`.
pub open spec fn spec_digits_fit(s: Seq<char>) -> bool {
    forall|k: int| 0 <= k <= s.len() && #[trigger] spec_all_digits(s.take(k)) ==> spec_decimal(s.take(k)) <= usize::MAX
}

/// The number the digits of `w` spell, or `None` at the first character that is not a digit.
pub fn decimal(w: &Vec<char>) -> (r: Option<usize>)
    requires
        spec_digits_fit(w@),
    ensures
        spec_all_digits(w@) ==> r == Some(spec_decimal(w@) as usize),
        !spec_all_digits(w@) ==> r is None,
{
    let mut id: usize = 0;
    let mut k: usize = 0;
    while k < w.len()
        invariant
            k <= w@.len(),
            spec_digits_fit(w@),
            spec_all_digits(w@.take(k as int)),
            id == spec_decimal(w@.take(k as int)),
        decreases w@.len() - k,
    {
        let c = w[k];
        if !('0' <= c && c <= '9') {
            proof {
                assert(w@[k as int] == c);
                assert(!spec_all_digits(w@));
            }
            return None;
        }
        proof {
            assert(w@.take(k + 1).drop_last() =~= w@.take(k as int));
            assert(spec_all_digits(w@.take(k + 1))) by {
                assert forall|j: int| 0 <= j < k + 1 implies '0' <= #[trigger] w@.take(k + 1)[j] <= '9' by {
                    if j < k { assert(w@.take(k + 1)[j] == w@.take(k as int)[j]); }
                }
            }
            assert(spec_decimal(w@.take(k + 1)) <= usize::MAX);
        }
        id = id * 10 + (c as u32 - '0' as u32) as usize;
        k = k + 1;
    }
    proof { assert(w@.take(k as int) =~= w@); }
    Some(id)
}

/// The lists named by the words after the first.
#[verifier::loop_isolation(false)]
fn list_types(words: &Vec<Vec<char>>) -> (r: Vec<ListType>)
    requires
        words@.len() >= 1,
    ensures
        r@ == spec_list_types(views(words@), words@.len() as int),
{
    let kw_breakpoints = vec!['b', 'r', 'e', 'a', 'k', 'p', 'o', 'i', 'n', 't', 's'];
    proof { assert(kw_breakpoints@ == seq!['b', 'r', 'e', 'a', 'k', 'p', 'o', 'i', 'n', 't', 's']); }
    let kw_symbols = vec!['s', 'y', 'm', 'b', 'o', 'l', 's'];
    proof { assert(kw_symbols@ == seq!['s', 'y', 'm', 'b', 'o', 'l', 's']); }
    let ghost ws = views(words@);
    let mut list_types: Vec<ListType> = Vec::new();
    let mut k: usize = 1;
    while k < words.len()
        invariant
            1 <= k <= words@.len(),
            ws == views(words@),
            list_types@ == spec_list_types(ws, k as int),
        decreases words@.len() - k,
    {
        let w = &words[k];
        proof { assert(ws[k as int] == w@); }
        if word_is(w, &kw_breakpoints) {
            if !contains_breakpoints(&list_types) {
                list_types.push(ListType::Breakpoints);
            }
        } else if word_is(w, &kw_symbols) {
            list_types.push(ListType::Symbols);
        }
        k = k + 1;
    }
    list_types
}

/// Whether the breakpoint list is named already.
fn contains_breakpoints(l: &Vec<ListType>) -> (r: bool)
    ensures
        r == l@.contains(ListType::Breakpoints),
{
    let mut k: usize = 0;
    while k < l.len()
        invariant
            k <= l@.len(),
            forall|j: int| 0 <= j < k ==> l@[j] != ListType::Breakpoints,
        decreases l@.len() - k,
    {
        match l[k] {
            ListType::Breakpoints => {
                return true;
            },
            ListType::Symbols => {},
        }
        k = k + 1;
    }
    false
}

/// The harts named by the words after the first, or `None` for a word naming none.
#[verifier::loop_isolation(false)]
fn harts(words: &Vec<Vec<char>>) -> (r: Option<[bool; 4]>)
    requires
        words@.len() >= 1,
    ensures
        match spec_harts(views(words@), words@.len() as int) {
            Some(h) => r is Some && r->Some_0@ == h,
            None => r is None,
        },
{
    let kw_0 = vec!['0'];
    proof { assert(kw_0@ == seq!['0']); }
    let kw_1 = vec!['1'];
    proof { assert(kw_1@ == seq!['1']); }
    let kw_2 = vec!['2'];
    proof { assert(kw_2@ == seq!['2']); }
    let kw_3 = vec!['3'];
    proof { assert(kw_3@ == seq!['3']); }
    let kw_all = vec!['a', 'l', 'l'];
    proof { assert(kw_all@ == seq!['a', 'l', 'l']); }
    let ghost ws = views(words@);
    let mut harts = [false; 4];
    let mut k: usize = 1;
    proof { assert(harts@ =~= seq![false, false, false, false]); }
    while k < words.len()
        invariant
            1 <= k <= words@.len(),
            ws == views(words@),
            spec_harts(ws, k as int) == Some(harts@),
        decreases words@.len() - k,
    {
        let w = &words[k];
        proof { assert(ws[k as int] == w@); }
        let ghost h0 = harts@;
        if word_is(w, &kw_0) {
            harts[0] = true;
            assert(harts@ == h0.update(0, true));
        } else if word_is(w, &kw_1) {
            harts[1] = true;
            assert(harts@ == h0.update(1, true));
        } else if word_is(w, &kw_2) {
            harts[2] = true;
            assert(harts@ == h0.update(2, true));
        } else if word_is(w, &kw_3) {
            harts[3] = true;
            assert(harts@ == h0.update(3, true));
        } else if word_is(w, &kw_all) {
            harts = [true, true, true, true];
            proof { assert(harts@ =~= seq![true, true, true, true]); }
        } else {
            proof { lemma_harts_stay_invalid(ws, k + 1, words@.len() as int); }
            return None;
        }
        k = k + 1;
    }
    Some(harts)
}

/// Cutting text always gives at least one word.
proof fn lemma_split_nonempty(s: Seq<char>)
    ensures
        spec_split(s).len() >= 1,
    decreases s.len(),
{
    if s.len() > 0 {
        lemma_split_nonempty(s.drop_last());
    }
}

/// Once a word names no hart, the list stays invalid.
proof fn lemma_harts_stay_invalid(ws: Seq<Seq<char>>, k: int, n: int)
    requires
        1 <= k <= n,
        spec_harts(ws, k) is None,
    ensures
        spec_harts(ws, n) is None,
    decreases n - k,
{
    if k < n {
        lemma_harts_stay_invalid(ws, k, n - 1);
    }
}

/// Reads a breakpoint operand (see `spec_breakpoint`).
fn breakpoint(words: &Vec<Vec<char>>, numbers: bool) -> (r: Option<BreakpointName>)
    requires
        words@.len() >= 1,
        numbers && words@.len() >= 2 ==> spec_digits_fit(words@[1]@),
    ensures
        match spec_breakpoint(views(words@), numbers) {
            Some(b) => r is Some && r->Some_0@ == b,
            None => r is None,
        },
{
    let kw_at = vec!['@'];
    proof { assert(kw_at@ == seq!['@']); }
    let ghost ws = views(words@);
    if words.len() < 2 {
        return None;
    }
    let w1 = &words[1];
    proof {
        assert(ws[1] == w1@);
        if words@.len() >= 3 {
            assert(ws[2] == words@[2]@);
        }
    }
    if word_is(w1, &kw_at) {
        if words.len() < 3 {
            None
        } else {
            Some(BreakpointName::Address(decode_hex(&words[2])))
        }
    } else if numbers && w1.len() > 0 && '0' <= w1[0] && w1[0] <= '9' {
        match decimal(w1) {
            Some(id) => Some(BreakpointName::Id(id)),
            None => None,
        }
    } else {
        let mut symbol: Vec<char> = Vec::new();
        push_chars(&mut symbol, w1);
        Some(BreakpointName::Symbol(chars_to_string(symbol)))
    }
}

/// Appends the characters of `w`.
fn push_chars(out: &mut Vec<char>, w: &Vec<char>)
    ensures
        final(out)@ == old(out)@ + w@,
{
    let ghost orig = out@;
    let mut k: usize = 0;
    while k < w.len()
        invariant
            k <= w@.len(),
            out@ == orig + w@.take(k as int),
        decreases w@.len() - k,
    {
        out.push(w[k]);
        proof { assert(w@.take(k + 1) =~= w@.take(k as int).push(w@[k as int])); }
        k = k + 1;
    }
    proof { assert(w@.take(k as int) =~= w@); }
}

/// A copy of word `k` as a `String`.
fn word_string(words: &Vec<Vec<char>>, k: usize) -> (r: String)
    requires
        k < words@.len(),
    ensures
        r@ == words@[k as int]@,
{
    let mut v: Vec<char> = Vec::new();
    push_chars(&mut v, &words[k]);
    proof { assert(v@ =~= words@[k as int]@); }
    chars_to_string(v)
}

impl Command {
    /// Parses a line typed at the debugger console (see `spec_parse`).
    pub fn parse(command_string: &str) -> (r: Option<Command>)
        requires
            spec_numbers_fit(command_string@),
        ensures
            match spec_parse(command_string@) {
                Some(c) => r is Some && r->Some_0@ == c,
                None => r is None,
            },
    {
        let kw_help = vec!['h', 'e', 'l', 'p'];
        proof { assert(kw_help@ == seq!['h', 'e', 'l', 'p']); }
        let kw_h = vec!['h'];
        proof { assert(kw_h@ == seq!['h']); }
        let kw_kill = vec!['k', 'i', 'l', 'l'];
        proof { assert(kw_kill@ == seq!['k', 'i', 'l', 'l']); }
        let kw_k = vec!['k'];
        proof { assert(kw_k@ == seq!['k']); }
        let kw_quit = vec!['q', 'u', 'i', 't'];
        proof { assert(kw_quit@ == seq!['q', 'u', 'i', 't']); }
        let kw_q = vec!['q'];
        proof { assert(kw_q@ == seq!['q']); }
        let kw_list = vec!['l', 'i', 's', 't'];
        proof { assert(kw_list@ == seq!['l', 'i', 's', 't']); }
        let kw_l = vec!['l'];
        proof { assert(kw_l@ == seq!['l']); }
        let kw_step = vec!['s', 't', 'e', 'p'];
        proof { assert(kw_step@ == seq!['s', 't', 'e', 'p']); }
        let kw_s = vec!['s'];
        proof { assert(kw_s@ == seq!['s']); }
        let kw_continue = vec!['c', 'o', 'n', 't', 'i', 'n', 'u', 'e'];
        proof { assert(kw_continue@ == seq!['c', 'o', 'n', 't', 'i', 'n', 'u', 'e']); }
        let kw_c = vec!['c'];
        proof { assert(kw_c@ == seq!['c']); }
        let kw_stop = vec!['s', 't', 'o', 'p'];
        proof { assert(kw_stop@ == seq!['s', 't', 'o', 'p']); }
        let kw_S = vec!['S'];
        proof { assert(kw_S@ == seq!['S']); }
        let kw_hart = vec!['h', 'a', 'r', 't'];
        proof { assert(kw_hart@ == seq!['h', 'a', 'r', 't']); }
        let kw_H = vec!['H'];
        proof { assert(kw_H@ == seq!['H']); }
        let kw_0 = vec!['0'];
        proof { assert(kw_0@ == seq!['0']); }
        let kw_1 = vec!['1'];
        proof { assert(kw_1@ == seq!['1']); }
        let kw_2 = vec!['2'];
        proof { assert(kw_2@ == seq!['2']); }
        let kw_3 = vec!['3'];
        proof { assert(kw_3@ == seq!['3']); }
        let kw_regs = vec!['r', 'e', 'g', 's'];
        proof { assert(kw_regs@ == seq!['r', 'e', 'g', 's']); }
        let kw_r = vec!['r'];
        proof { assert(kw_r@ == seq!['r']); }
        let kw_set_bp = vec!['s', 'e', 't', '_', 'b', 'p'];
        proof { assert(kw_set_bp@ == seq!['s', 'e', 't', '_', 'b', 'p']); }
        let kw_b = vec!['b'];
        proof { assert(kw_b@ == seq!['b']); }
        let kw_clear_bp = vec!['c', 'l', 'e', 'a', 'r', '_', 'b', 'p'];
        proof { assert(kw_clear_bp@ == seq!['c', 'l', 'e', 'a', 'r', '_', 'b', 'p']); }
        let kw_bangb = vec!['!', 'b'];
        proof { assert(kw_bangb@ == seq!['!', 'b']); }
        let kw_read8 = vec!['r', 'e', 'a', 'd', '8'];
        proof { assert(kw_read8@ == seq!['r', 'e', 'a', 'd', '8']); }
        let kw_r8 = vec!['r', '8'];
        proof { assert(kw_r8@ == seq!['r', '8']); }
        let kw_read16 = vec!['r', 'e', 'a', 'd', '1', '6'];
        proof { assert(kw_read16@ == seq!['r', 'e', 'a', 'd', '1', '6']); }
        let kw_r16 = vec!['r', '1', '6'];
        proof { assert(kw_r16@ == seq!['r', '1', '6']); }
        let kw_read = vec!['r', 'e', 'a', 'd'];
        proof { assert(kw_read@ == seq!['r', 'e', 'a', 'd']); }
        let kw_read32 = vec!['r', 'e', 'a', 'd', '3', '2'];
        proof { assert(kw_read32@ == seq!['r', 'e', 'a', 'd', '3', '2']); }
        let kw_r32 = vec!['r', '3', '2'];
        proof { assert(kw_r32@ == seq!['r', '3', '2']); }
        let kw_write8 = vec!['w', 'r', 'i', 't', 'e', '8'];
        proof { assert(kw_write8@ == seq!['w', 'r', 'i', 't', 'e', '8']); }
        let kw_w8 = vec!['w', '8'];
        proof { assert(kw_w8@ == seq!['w', '8']); }
        let kw_write16 = vec!['w', 'r', 'i', 't', 'e', '1', '6'];
        proof { assert(kw_write16@ == seq!['w', 'r', 'i', 't', 'e', '1', '6']); }
        let kw_w16 = vec!['w', '1', '6'];
        proof { assert(kw_w16@ == seq!['w', '1', '6']); }
        let kw_write = vec!['w', 'r', 'i', 't', 'e'];
        proof { assert(kw_write@ == seq!['w', 'r', 'i', 't', 'e']); }
        let kw_w = vec!['w'];
        proof { assert(kw_w@ == seq!['w']); }
        let chars = str_chars(command_string);
        if chars.len() == 0 {
            return None;
        }
        let bounds = trim_bounds(&chars);
        let a = bounds.0;
        let b = bounds.1;
        let words = split_words(&chars, a, b);
        let ghost ws = views(words@);
        proof {
            assert(spec_lead(chars@, 0) == a);
            assert(spec_trail(chars@, chars@.len() as int, a as int) == b);
            assert(spec_trim(chars@) == chars@.subrange(a as int, b as int));
            assert(ws == spec_words(command_string@));
            lemma_split_nonempty(chars@.subrange(a as int, b as int));
            assert(ws.len() >= 1);
            assert(ws[0] == words@[0]@);
            if ws.len() >= 2 {
                assert(ws[1] == words@[1]@);
            }
            if ws.len() >= 3 {
                assert(ws[2] == words@[2]@);
            }
        }
        let w0 = &words[0];
        if word_is(w0, &kw_help) || word_is(w0, &kw_h) {
            if words.len() > 1 {
                Some(Command::Help(Some(word_string(&words, 1))))
            } else {
                Some(Command::Help(None))
            }
        } else if word_is(w0, &kw_kill) || word_is(w0, &kw_k) {
            Some(Command::Kill)
        } else if word_is(w0, &kw_quit) || word_is(w0, &kw_q) {
            Some(Command::Quit)
        } else if word_is(w0, &kw_list) || word_is(w0, &kw_l) {
            Some(Command::List(list_types(&words)))
        } else if word_is(w0, &kw_step) || word_is(w0, &kw_s) {
            Some(Command::SingleStep)
        } else if word_is(w0, &kw_continue) || word_is(w0, &kw_c) {
            match harts(&words) {
                Some(h) => Some(Command::Continue(h)),
                None => None,
            }
        } else if word_is(w0, &kw_stop) || word_is(w0, &kw_S) {
            match harts(&words) {
                Some(h) => Some(Command::Stop(h)),
                None => None,
            }
        } else if word_is(w0, &kw_hart) || word_is(w0, &kw_H) {
            if words.len() < 2 {
                None
            } else if word_is(&words[1], &kw_0) {
                Some(Command::Hart(0))
            } else if word_is(&words[1], &kw_1) {
                Some(Command::Hart(1))
            } else if word_is(&words[1], &kw_2) {
                Some(Command::Hart(2))
            } else if word_is(&words[1], &kw_3) {
                Some(Command::Hart(3))
            } else {
                None
            }
        } else if word_is(w0, &kw_regs) || word_is(w0, &kw_r) {
            Some(Command::Regs)
        } else if word_is(w0, &kw_set_bp) || word_is(w0, &kw_b) {
            match breakpoint(&words, false) {
                Some(bp) => Some(Command::SetBreakpoint(bp)),
                None => None,
            }
        } else if word_is(w0, &kw_clear_bp) || word_is(w0, &kw_bangb) {
            match breakpoint(&words, true) {
                Some(bp) => Some(Command::ClearBreakpoint(bp)),
                None => None,
            }
        } else if word_is(w0, &kw_read8) || word_is(w0, &kw_r8) {
            if words.len() < 2 { None } else { Some(Command::Read(DataType::U8, decode_hex(&words[1]))) }
        } else if word_is(w0, &kw_read16) || word_is(w0, &kw_r16) {
            if words.len() < 2 { None } else { Some(Command::Read(DataType::U16, decode_hex(&words[1]))) }
        } else if word_is(w0, &kw_read) || word_is(w0, &kw_read32) || word_is(w0, &kw_r32) {
            if words.len() < 2 { None } else { Some(Command::Read(DataType::U32, decode_hex(&words[1]))) }
        } else if word_is(w0, &kw_write8) || word_is(w0, &kw_w8) {
            if words.len() < 3 { None } else { Some(Command::Write(DataType::U8, decode_hex(&words[1]), decode_hex(&words[2]))) }
        } else if word_is(w0, &kw_write16) || word_is(w0, &kw_w16) {
            if words.len() < 3 { None } else { Some(Command::Write(DataType::U16, decode_hex(&words[1]), decode_hex(&words[2]))) }
        } else if word_is(w0, &kw_write) || word_is(w0, &kw_w) {
            if words.len() < 3 { None } else { Some(Command::Write(DataType::U32, decode_hex(&words[1]), decode_hex(&words[2]))) }
        } else {
            None
        }
    }
}

/// The word that names hart `i`: its decimal digit.
pub open spec fn hart_word(i: int) -> Seq<char> {
    seq![(48 + i) as char]
}

/// Whether `w` names harts in a stop or continue command: a hart's digit (0 to 3) or `all`.
pub open spec fn names_harts(w: Seq<char>) -> bool {
    w == seq!['a', 'l', 'l'] || exists|i: int| 0 <= i < 4 && w == #[trigger] hart_word(i)
}

/// `h` selects hart `i` exactly when one of `words[1..k]` is that hart's digit or `all`.
pub open spec fn harts_selected(words: Seq<Seq<char>>, k: int, h: Seq<bool>) -> bool {
    &&& h.len() == 4
    &&& forall|i: int| 0 <= i < 4 ==> #[trigger] h[i] == exists|j: int| 1 <= j < k
        && (words[j] == hart_word(i) || words[j] == seq!['a', 'l', 'l'])
}

/// The digits of the harts, spelled out.
proof fn lemma_hart_words()
    ensures
        hart_word(0) == seq!['0'],
        hart_word(1) == seq!['1'],
        hart_word(2) == seq!['2'],
        hart_word(3) == seq!['3'],
{
    assert((48int) as char == '0');
    assert((49int) as char == '1');
    assert((50int) as char == '2');
    assert((51int) as char == '3');
    assert(hart_word(0) =~= seq!['0']);
    assert(hart_word(1) =~= seq!['1']);
    assert(hart_word(2) =~= seq!['2']);
    assert(hart_word(3) =~= seq!['3']);
}

/// Different harts have different digits.
proof fn lemma_hart_words_differ(i: int, d: int)
    requires
        0 <= i < 4,
        0 <= d < 4,
    ensures
        i != d ==> hart_word(i) != hart_word(d),
{
    lemma_hart_words();
    if i != d {
        assert(hart_word(i)[0] != hart_word(d)[0]) by {
            assert(i == 0 || i == 1 || i == 2 || i == 3);
            assert(d == 0 || d == 1 || d == 2 || d == 3);
            assert(seq!['0'][0] == '0' && seq!['1'][0] == '1' && seq!['2'][0] == '2' && seq!['3'][0] == '3');
        }
    }
}

/// A hart list is read when every word after the first names harts, and then it selects hart
/// `i` exactly when some word is `i`'s digit or `all`.
pub proof fn law_hart_list(words: Seq<Seq<char>>, k: int)
    requires
        1 <= k <= words.len(),
    ensures
        (spec_harts(words, k) is Some) == (forall|j: int| 1 <= j < k ==> names_harts(#[trigger] words[j])),
        spec_harts(words, k) matches Some(h) ==> harts_selected(words, k, h),
    decreases k,
{
    lemma_hart_words();
    let all = seq!['a', 'l', 'l'];
    if k == 1 {
        let h = seq![false, false, false, false];
        assert(spec_harts(words, 1) == Some(h));
        assert forall|i: int| 0 <= i < 4 implies #[trigger] h[i] == exists|j: int| 1 <= j < k
            && (words[j] == hart_word(i) || words[j] == all) by {}
    } else {
        law_hart_list(words, k - 1);
        let w = words[k - 1];
        let named = w == all || exists|i: int| 0 <= i < 4 && w == #[trigger] hart_word(i);
        if named {
            assert(names_harts(w));
        } else {
            assert(!names_harts(w));
        }
        assert((forall|j: int| 1 <= j < k ==> names_harts(#[trigger] words[j]))
            == ((forall|j: int| 1 <= j < k - 1 ==> names_harts(#[trigger] words[j])) && names_harts(w))) by {
            if forall|j: int| 1 <= j < k - 1 ==> names_harts(#[trigger] words[j]) {
                if names_harts(w) {
                    assert forall|j: int| 1 <= j < k implies names_harts(#[trigger] words[j]) by {
                        if j == k - 1 {} else {}
                    }
                }
            }
        }
        if !names_harts(w) {
            assert(w != all);
            assert(w != hart_word(0) && w != hart_word(1) && w != hart_word(2) && w != hart_word(3));
        }
        match spec_harts(words, k - 1) {
            None => {},
            Some(h0) => {
                if names_harts(w) {
                    let h = spec_harts(words, k).unwrap();
                    assert forall|i: int| 0 <= i < 4 implies #[trigger] h[i] == exists|j: int| 1 <= j < k
                        && (words[j] == hart_word(i) || words[j] == all) by {
                        let here = w == hart_word(i) || w == all;
                        if 0 <= i < 4 {
                            lemma_hart_words_differ(i, 0);
                            lemma_hart_words_differ(i, 1);
                            lemma_hart_words_differ(i, 2);
                            lemma_hart_words_differ(i, 3);
                        }
                        let before = exists|j: int| 1 <= j < k - 1 && (words[j] == hart_word(i) || words[j] == all);
                        assert(h0[i] == before);
                        if w == all {
                            assert(h[i]);
                        } else if w == hart_word(0) {
                            assert(h =~= h0.update(0, true));
                        } else if w == hart_word(1) {
                            assert(h =~= h0.update(1, true));
                        } else if w == hart_word(2) {
                            assert(h =~= h0.update(2, true));
                        } else {
                            assert(w == hart_word(3));
                            assert(h =~= h0.update(3, true));
                        }
                        assert(h[i] == (before || here));
                        if h[i] {
                            if before {
                                let j = choose|j: int| 1 <= j < k - 1 && (words[j] == hart_word(i) || words[j] == all);
                                assert(1 <= j < k && (words[j] == hart_word(i) || words[j] == all));
                            } else {
                                assert(1 <= k - 1 < k && (words[k - 1] == hart_word(i) || words[k - 1] == all));
                            }
                        } else {
                            assert forall|j: int| 1 <= j < k implies !(words[j] == hart_word(i) || words[j] == all) by {
                                if j == k - 1 {} else {}
                            }
                        }
                    }
                }
            },
        }
    }
}

/// A continue or stop command selects hart `i` exactly when one of its words after the
/// first is `i`'s digit or `all`.
pub proof fn law_continue_and_stop_name_harts(s: Seq<char>)
    ensures
        spec_parse(s) matches Some(CommandView::Continue(h)) ==> harts_selected(spec_words(s), spec_words(s).len() as int, h),
        spec_parse(s) matches Some(CommandView::Stop(h)) ==> harts_selected(spec_words(s), spec_words(s).len() as int, h),
{
    let words = spec_words(s);
    if words.len() >= 1 {
        law_hart_list(words, words.len() as int);
    } else if s.len() > 0 {
        assert(spec_harts(words, words.len() as int) == Some(seq![false, false, false, false]));
    }
}

/// A hart command selects the hart whose digit is its second word.
pub proof fn law_hart_command_names_hart(s: Seq<char>)
    ensures
        spec_parse(s) matches Some(CommandView::Hart(n)) ==> n < 4 && spec_words(s)[1] == hart_word(n as int),
{
    lemma_hart_words();
}

/// White space in front of a command line does not change the command it names.
pub proof fn law_leading_whitespace_ignored(c: char, s: Seq<char>)
    requires
        spec_is_whitespace(c),
    ensures
        spec_parse(seq![c] + s) == spec_parse(s),
{
    let t = seq![c] + s;
    lemma_lead_bounds(s, 0);
    lemma_lead_shift(c, s, 0);
    let a = spec_lead(s, 0);
    lemma_trail_shift(c, s, s.len() as int, a);
    lemma_trail_bounds(s, s.len() as int, a);
    assert(spec_lead(t, 0) == a + 1);
    assert(spec_trim(t) =~= spec_trim(s));
}

/// The first character after white space from `i` lies between `i` and the end.
proof fn lemma_lead_bounds(s: Seq<char>, i: int)
    requires
        0 <= i <= s.len(),
    ensures
        i <= spec_lead(s, i) <= s.len(),
    decreases s.len() - i,
{
    if i < s.len() && spec_is_whitespace(s[i]) {
        lemma_lead_bounds(s, i + 1);
    }
}

/// The end of the text before `j` without trailing white space lies between `lo` and `j`.
proof fn lemma_trail_bounds(s: Seq<char>, j: int, lo: int)
    requires
        lo <= j <= s.len(),
    ensures
        lo <= spec_trail(s, j, lo) <= j,
    decreases j - lo,
{
    if lo < j && spec_is_whitespace(s[j - 1]) {
        lemma_trail_bounds(s, j - 1, lo);
    }
}

/// Putting a character in front moves every position of the leading white space by one.
proof fn lemma_lead_shift(c: char, s: Seq<char>, i: int)
    requires
        spec_is_whitespace(c),
        0 <= i <= s.len(),
    ensures
        spec_lead(seq![c] + s, i + 1) == spec_lead(s, i) + 1,
        spec_lead(seq![c] + s, 0) == spec_lead(seq![c] + s, 1),
    decreases s.len() - i,
{
    let t = seq![c] + s;
    assert(t[0] == c);
    if i < s.len() {
        assert(t[i + 1] == s[i]);
        if spec_is_whitespace(s[i]) {
            lemma_lead_shift(c, s, i + 1);
        }
    }
}

/// Putting a character in front moves every position of the trailing white space by one.
proof fn lemma_trail_shift(c: char, s: Seq<char>, j: int, lo: int)
    requires
        0 <= lo <= j <= s.len(),
    ensures
        spec_trail(seq![c] + s, j + 1, lo + 1) == spec_trail(s, j, lo) + 1,
    decreases j - lo,
{
    let t = seq![c] + s;
    if lo < j {
        assert(t[j] == s[j - 1]);
        if spec_is_whitespace(s[j - 1]) {
            lemma_trail_shift(c, s, j - 1, lo);
        }
    }
}

} // verus!
