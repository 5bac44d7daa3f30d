use rvfm::debugger::{decode_hex, BreakpointName, Command, DataType, ListType};

fn parse(s: &str) -> Option<Command> {
    Command::parse(s)
}

#[test]
fn help_with_and_without_topic() {
    assert!(matches!(parse("help"), Some(Command::Help(None))));
    match parse("h regs extra") {
        Some(Command::Help(Some(topic))) => assert_eq!(topic, "regs"),
        other => panic!("unexpected {:?}", other),
    }
}

#[test]
fn single_word_commands() {
    assert!(matches!(parse("  q  "), Some(Command::Quit)));
    assert!(matches!(parse("quit"), Some(Command::Quit)));
    assert!(matches!(parse("k"), Some(Command::Kill)));
    assert!(matches!(parse("step"), Some(Command::SingleStep)));
    assert!(matches!(parse("regs"), Some(Command::Regs)));
    // "r" names the registers before it names a read.
    assert!(matches!(parse("r 100"), Some(Command::Regs)));
}

#[test]
fn empty_and_unknown_lines() {
    assert!(parse("").is_none());
    assert!(parse("   ").is_none());
    assert!(parse("frobnicate").is_none());
}

#[test]
fn lists_skip_repeated_breakpoints() {
    match parse("list breakpoints breakpoints symbols symbols other") {
        Some(Command::List(l)) => assert_eq!(l, vec![ListType::Breakpoints, ListType::Symbols, ListType::Symbols]),
        other => panic!("unexpected {:?}", other),
    }
    match parse("l") {
        Some(Command::List(l)) => assert!(l.is_empty()),
        other => panic!("unexpected {:?}", other),
    }
}

#[test]
fn hart_selections() {
    assert!(matches!(parse("c 1 3"), Some(Command::Continue([false, true, false, true]))));
    assert!(matches!(parse("continue all"), Some(Command::Continue([true, true, true, true]))));
    assert!(matches!(parse("S"), Some(Command::Stop([false, false, false, false]))));
    assert!(matches!(parse("stop 0 all"), Some(Command::Stop([true, true, true, true]))));
    assert!(parse("c 5").is_none());
    // Two spaces leave an empty word, which names no hart.
    assert!(parse("c  1").is_none());
}

#[test]
fn hart_switch() {
    assert!(matches!(parse("hart 2"), Some(Command::Hart(2))));
    assert!(matches!(parse("H 0"), Some(Command::Hart(0))));
    assert!(parse("hart").is_none());
    assert!(parse("H 4").is_none());
}

#[test]
fn breakpoints() {
    assert!(matches!(parse("b @ 1A2b"), Some(Command::SetBreakpoint(BreakpointName::Address(0x1A2B)))));
    match parse("set_bp main") {
        Some(Command::SetBreakpoint(BreakpointName::Symbol(s))) => assert_eq!(s, "main"),
        other => panic!("unexpected {:?}", other),
    }
    assert!(parse("b").is_none());
    assert!(parse("b @").is_none());
    assert!(matches!(parse("!b 12"), Some(Command::ClearBreakpoint(BreakpointName::Id(12)))));
    assert!(parse("!b 1x").is_none());
    assert!(matches!(parse("clear_bp @ ff"), Some(Command::ClearBreakpoint(BreakpointName::Address(0xFF)))));
    match parse("!b foo") {
        Some(Command::ClearBreakpoint(BreakpointName::Symbol(s))) => assert_eq!(s, "foo"),
        other => panic!("unexpected {:?}", other),
    }
}

#[test]
fn reads_and_writes() {
    assert!(matches!(parse("r8 10"), Some(Command::Read(DataType::U8, 0x10))));
    assert!(matches!(parse("read16 8000"), Some(Command::Read(DataType::U16, 0x8000))));
    assert!(matches!(parse("read 1000"), Some(Command::Read(DataType::U32, 0x1000))));
    assert!(parse("r32").is_none());
    assert!(matches!(parse("w16 10 ffff"), Some(Command::Write(DataType::U16, 0x10, 0xFFFF))));
    assert!(matches!(parse("write8 20 7 9"), Some(Command::Write(DataType::U8, 0x20, 7))));
    assert!(matches!(parse("w 4 5"), Some(Command::Write(DataType::U32, 4, 5))));
    assert!(parse("w 10").is_none());
}

#[test]
fn hex_skips_other_characters() {
    let hex = |s: &str| decode_hex(&s.chars().collect());
    assert_eq!(hex("80x0"), 0x800);
    assert_eq!(hex("DEADbeef"), 0xDEAD_BEEF);
    assert_eq!(hex("123456789"), 0x2345_6789);
    assert_eq!(hex(""), 0);
}

#[test]
fn leading_white_space_is_ignored() {
    for line in ["help regs", "c 1 3", "w16 10 ffff", "nonsense", "!b 12", ""] {
        assert_eq!(format!("{:?}", parse(&format!(" \t{}", line))), format!("{:?}", parse(line)));
    }
}
