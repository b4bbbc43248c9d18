use star_trader::keys::{Command, Key, KeyBindings};

#[test]
fn default_bindings() {
    let kb = KeyBindings::default();
    assert_eq!(kb.key(Command::Quit), Key::Char('q'));
    assert_eq!(kb.key(Command::Reset), Key::Char('r'));
    assert_eq!(kb.key(Command::FocusShips), Key::Char('3'));
    assert_eq!(kb.key(Command::PrevGood), Key::Char('['));
    assert_eq!(kb.key(Command::StarMap), Key::Char('m'));
    assert_eq!(kb.key(Command::HelpAlt), Key::Char('h'));
    assert_eq!(kb.key(Command::Load), Key::Char('o'));
}

#[test]
fn key_names() {
    assert_eq!(KeyBindings::parse_key("up"), Ok(Key::Up));
    assert_eq!(KeyBindings::parse_key("  DOWN "), Ok(Key::Down));
    assert_eq!(KeyBindings::parse_key("Left"), Ok(Key::Left));
    assert_eq!(KeyBindings::parse_key("right"), Ok(Key::Right));
    assert_eq!(KeyBindings::parse_key("Escape"), Ok(Key::Esc));
    assert_eq!(KeyBindings::parse_key("esc"), Ok(Key::Esc));
    assert_eq!(KeyBindings::parse_key("tab"), Ok(Key::Tab));
    assert_eq!(KeyBindings::parse_key("shift-tab"), Ok(Key::BackTab));
    assert_eq!(KeyBindings::parse_key("backtab"), Ok(Key::BackTab));
    assert_eq!(KeyBindings::parse_key("x"), Ok(Key::Char('x')));
    assert_eq!(KeyBindings::parse_key("X"), Ok(Key::Char('x')));
    assert_eq!(KeyBindings::parse_key(" ? "), Ok(Key::Char('?')));
}

#[test]
fn unknown_key_names() {
    assert_eq!(KeyBindings::parse_key("foo"), Err(String::from("Unrecognized key 'foo'")));
    assert_eq!(KeyBindings::parse_key("é"), Err(String::from("Unrecognized key 'é'")));
    assert_eq!(KeyBindings::parse_key(""), Err(String::from("Unrecognized key ''")));
}

#[test]
fn binding_entries_override_defaults() {
    let mut cfg: [Option<String>; 21] = Default::default();
    let kb = KeyBindings::from_config(&cfg).unwrap();
    for c in [Command::Quit, Command::Buy, Command::Save, Command::Help] {
        assert_eq!(kb.key(c), KeyBindings::default().key(c));
    }
    cfg[0] = Some(String::from("esc"));
    cfg[15] = Some(String::from("M"));
    let kb = KeyBindings::from_config(&cfg).unwrap();
    assert_eq!(kb.key(Command::Quit), Key::Esc);
    assert_eq!(kb.key(Command::StarMap), Key::Char('m'));
    assert_eq!(kb.key(Command::Reset), Key::Char('r'));
    cfg[3] = Some(String::from("nope"));
    cfg[4] = Some(String::from("also bad"));
    assert_eq!(KeyBindings::from_config(&cfg).unwrap_err(), "Unrecognized key 'nope'");
}

#[test]
fn key_labels() {
    let kb = KeyBindings::default();
    assert_eq!(kb.label(Key::Char('g')), "g");
    assert_eq!(kb.label(Key::BackTab), "Shift+Tab");
    assert_eq!(kb.label(Key::Esc), "Esc");
    assert_eq!(kb.pair_label(Key::Char('b'), Key::Char('s')), "b/s");
    assert_eq!(kb.triple_label(Key::Char('1'), Key::Up, Key::Tab), "1/Up/Tab");
}

#[test]
fn commands_for_keys() {
    let kb = KeyBindings::default();
    assert_eq!(kb.command_for(Key::Char('b')), Some(Command::Buy));
    assert_eq!(kb.command_for(Key::Char('n')), Some(Command::NextArrival));
    assert_eq!(kb.command_for(Key::Char('z')), None);
    assert!(kb.matches_help(Key::Char('?')));
    assert!(kb.matches_help(Key::Char('h')));
    assert!(!kb.matches_help(Key::Char('x')));
}

#[test]
fn footer_follows_the_bindings() {
    let mut cfg: [Option<String>; 21] = Default::default();
    cfg[7] = Some(String::from("right"));
    let kb = KeyBindings::from_config(&cfg).unwrap();
    let hints = kb.footer_hints();
    assert_eq!(hints.len(), 16);
    assert_eq!(hints[3], (String::from("Right"), String::from("set course")));
    assert_eq!(hints[11], (String::from("?/h"), String::from("help")));
}

#[test]
fn key_names_ignore_any_unicode_white_space() {
    assert_eq!(KeyBindings::parse_key("\u{3000}Up\t\n"), Ok(Key::Up));
    assert_eq!(KeyBindings::parse_key("\u{a0}q\u{2028}"), Ok(Key::Char('q')));
    assert_eq!(KeyBindings::parse_key(" \u{85} "), Err(String::from("Unrecognized key ' \u{85} '")));
    assert_eq!("\u{3000}Up\t\n".trim(), "Up");
}
