use grill::io::{Command, IoHandler, Key, KeyAction, KeyPress, Modifiers};

fn plain(c: char) -> KeyPress {
    KeyPress { code: Key::Char(c), modifiers: Modifiers::none() }
}

fn key(code: Key) -> KeyPress {
    KeyPress { code, modifiers: Modifiers::none() }
}

fn ctrl(c: char) -> KeyPress {
    KeyPress { code: Key::Char(c), modifiers: Modifiers::control() }
}

fn type_line(handler: &mut IoHandler, line: &str) -> Vec<KeyAction> {
    line.chars().map(|c| handler.handle_key(plain(c))).collect()
}

#[test]
fn grammar_of_the_command_line() {
    let parse = IoHandler::process_command_buffer;
    assert_eq!(parse("/task"), Some(Command::CurrentTask));
    assert_eq!(parse("/task list"), Some(Command::ListTasks));
    assert_eq!(parse("/task init demo"), Some(Command::CreateTask("demo".to_string())));
    assert_eq!(parse("/task delete demo"), Some(Command::DeleteTask("demo".to_string())));
    assert_eq!(parse("/task demo"), Some(Command::SwitchTask("demo".to_string())));
    assert_eq!(parse("/quit"), Some(Command::Quit));
    assert_eq!(parse("/help"), Some(Command::Help));
    assert_eq!(parse("/unknown"), None);
    assert_eq!(parse("task list"), None);
    assert_eq!(parse(""), None);
    assert_eq!(parse("   "), None);
    assert_eq!(parse("/"), None);
}

#[test]
fn grammar_edge_cases() {
    let parse = IoHandler::process_command_buffer;
    assert_eq!(parse("  /task   list  "), Some(Command::ListTasks));
    assert_eq!(parse("/task list extra"), Some(Command::ListTasks));
    assert_eq!(parse("/task init"), Some(Command::SwitchTask("init".to_string())));
    assert_eq!(parse("/task delete"), Some(Command::SwitchTask("delete".to_string())));
    assert_eq!(parse("/task init a b"), Some(Command::CreateTask("a".to_string())));
    assert_eq!(parse("/task demo other"), Some(Command::SwitchTask("demo".to_string())));
    assert_eq!(parse("/quit now"), Some(Command::Quit));
    assert_eq!(parse("/help me"), Some(Command::Help));
    assert_eq!(parse("/Task"), None);
    assert_eq!(parse("/tasks"), None);
    assert_eq!(parse("/task\tlist"), Some(Command::ListTasks));
}

#[test]
fn typed_line_is_read_like_the_line() {
    let mut handler = IoHandler::new();
    let actions = type_line(&mut handler, "/task list");
    let expected: Vec<KeyAction> =
        "/task list".chars().map(|c| KeyAction::Echo(c.to_string())).collect();
    assert_eq!(actions, expected);
    assert!(handler.in_command_mode());
    assert_eq!(handler.command_buffer(), "/task list");
    let submitted = handler.handle_key(key(Key::Enter));
    assert_eq!(submitted, KeyAction::Submit(IoHandler::process_command_buffer("/task list")));
    assert_eq!(submitted, KeyAction::Submit(Some(Command::ListTasks)));
    assert!(!handler.in_command_mode());
    assert_eq!(handler.command_buffer(), "");
    assert!(handler.is_running());
}

#[test]
fn typed_lines_agree_with_the_grammar() {
    for line in ["/task", "/task init demo", "/task delete demo", "/task demo", "/quit", "/help", "/nothing", "/ task"] {
        let mut handler = IoHandler::new();
        type_line(&mut handler, line);
        assert_eq!(
            handler.handle_key(key(Key::Enter)),
            KeyAction::Submit(IoHandler::process_command_buffer(line)),
            "{:?}",
            line
        );
    }
}

#[test]
fn keys_outside_a_command_line_go_to_the_child() {
    let mut handler = IoHandler::new();
    assert_eq!(handler.handle_key(plain('a')), KeyAction::Forward("a".to_string()));
    assert_eq!(handler.handle_key(plain(' ')), KeyAction::Forward(" ".to_string()));
    assert_eq!(handler.handle_key(plain('c')), KeyAction::Forward("c".to_string()));
    assert_eq!(handler.handle_key(key(Key::Enter)), KeyAction::Forward("\r".to_string()));
    assert_eq!(handler.handle_key(key(Key::Backspace)), KeyAction::Forward("\x08".to_string()));
    assert_eq!(handler.handle_key(key(Key::Tab)), KeyAction::Forward("\t".to_string()));
    assert_eq!(handler.handle_key(key(Key::Other)), KeyAction::Ignore);
    assert!(!handler.in_command_mode());
    assert_eq!(handler.command_buffer(), "");
}

#[test]
fn slash_starts_a_command_line() {
    let mut handler = IoHandler::new();
    assert_eq!(handler.handle_key(plain('/')), KeyAction::Echo("/".to_string()));
    assert!(handler.in_command_mode());
    assert_eq!(handler.command_buffer(), "/");
    assert_eq!(handler.handle_key(plain('/')), KeyAction::Echo("/".to_string()));
    assert_eq!(handler.command_buffer(), "//");
    assert_eq!(handler.handle_key(key(Key::Tab)), KeyAction::Ignore);
    assert_eq!(handler.command_buffer(), "//");
}

#[test]
fn backspace_erases_and_leaves_command_mode_when_empty() {
    let mut handler = IoHandler::new();
    type_line(&mut handler, "/q");
    assert_eq!(handler.handle_key(key(Key::Backspace)), KeyAction::Echo("\x08 \x08".to_string()));
    assert!(handler.in_command_mode());
    assert_eq!(handler.command_buffer(), "/");
    assert_eq!(handler.handle_key(key(Key::Backspace)), KeyAction::Echo("\x08 \x08".to_string()));
    assert!(!handler.in_command_mode());
    assert_eq!(handler.command_buffer(), "");
    assert_eq!(handler.handle_key(key(Key::Backspace)), KeyAction::Forward("\x08".to_string()));
    assert_eq!(handler.handle_key(plain('x')), KeyAction::Forward("x".to_string()));
}

#[test]
fn buffer_is_non_empty_exactly_in_command_mode() {
    let mut handler = IoHandler::new();
    let keys = [
        plain('a'), plain('/'), plain('t'), key(Key::Backspace), key(Key::Backspace),
        key(Key::Backspace), plain('/'), key(Key::Tab), key(Key::Enter), key(Key::Enter),
        plain('/'), plain('x'), key(Key::Other), ctrl('x'), key(Key::Enter),
    ];
    for k in keys {
        handler.handle_key(k);
        assert_eq!(handler.in_command_mode(), !handler.command_buffer().is_empty());
    }
}

#[test]
fn control_c_quits_in_either_mode() {
    let mut handler = IoHandler::new();
    assert_eq!(handler.handle_key(ctrl('c')), KeyAction::Quit);
    assert!(!handler.is_running());
    assert_eq!(handler.handle_key(plain('a')), KeyAction::Ignore);
    assert_eq!(handler.handle_key(ctrl('c')), KeyAction::Ignore);

    let mut handler = IoHandler::new();
    type_line(&mut handler, "/he");
    assert_eq!(handler.handle_key(ctrl('c')), KeyAction::Quit);
    assert!(!handler.is_running());
    assert_eq!(handler.command_buffer(), "/he");
    assert_eq!(handler.handle_key(key(Key::Enter)), KeyAction::Ignore);
}

fn shift(c: char) -> KeyPress {
    KeyPress { code: Key::Char(c), modifiers: Modifiers { shift: true, ..Modifiers::none() } }
}

#[test]
fn characters_typed_with_shift_are_characters() {
    let mut handler = IoHandler::new();
    assert_eq!(handler.handle_key(shift('A')), KeyAction::Forward("A".to_string()));
    assert_eq!(handler.handle_key(shift('?')), KeyAction::Forward("?".to_string()));
    assert_eq!(handler.handle_key(shift('C')), KeyAction::Forward("C".to_string()));
    assert_eq!(handler.handle_key(shift('c')), KeyAction::Forward("c".to_string()));
    assert!(handler.is_running());
    assert!(!handler.in_command_mode());

    assert_eq!(handler.handle_key(shift('/')), KeyAction::Echo("/".to_string()));
    assert!(handler.in_command_mode());
    for c in "task ".chars() {
        handler.handle_key(plain(c));
    }
    assert_eq!(handler.handle_key(shift('D')), KeyAction::Echo("D".to_string()));
    for c in "emo".chars() {
        handler.handle_key(plain(c));
    }
    assert_eq!(handler.command_buffer(), "/task Demo");
    assert_eq!(
        handler.handle_key(key(Key::Enter)),
        KeyAction::Submit(Some(Command::SwitchTask("Demo".to_string())))
    );
}

#[test]
fn keys_with_other_modifiers_are_ignored() {
    let mut handler = IoHandler::new();
    assert_eq!(handler.handle_key(ctrl('d')), KeyAction::Ignore);
    let control_shift_c = KeyPress {
        code: Key::Char('c'),
        modifiers: Modifiers { shift: true, ..Modifiers::control() },
    };
    assert_eq!(handler.handle_key(control_shift_c), KeyAction::Ignore);
    let alt_x = KeyPress { code: Key::Char('x'), modifiers: Modifiers { alt: true, ..Modifiers::none() } };
    assert_eq!(handler.handle_key(alt_x), KeyAction::Ignore);
    let alt_shift_x = KeyPress {
        code: Key::Char('X'),
        modifiers: Modifiers { alt: true, shift: true, ..Modifiers::none() },
    };
    assert_eq!(handler.handle_key(alt_shift_x), KeyAction::Ignore);
    let meta_slash = KeyPress { code: Key::Char('/'), modifiers: Modifiers { meta: true, ..Modifiers::none() } };
    assert_eq!(handler.handle_key(meta_slash), KeyAction::Ignore);
    assert!(!handler.in_command_mode());
    assert!(handler.is_running());
    let alt_enter = KeyPress {
        code: Key::Enter,
        modifiers: Modifiers { alt: true, ..Modifiers::none() },
    };
    assert_eq!(handler.handle_key(alt_enter), KeyAction::Forward("\r".to_string()));
}

#[test]
fn empty_command_line_submits_nothing() {
    let mut handler = IoHandler::new();
    type_line(&mut handler, "/nothing here");
    assert_eq!(handler.handle_key(key(Key::Enter)), KeyAction::Submit(None));
    assert!(!handler.in_command_mode());
}

#[test]
fn output_is_formatted_for_a_raw_terminal() {
    assert_eq!(IoHandler::format_output("one\ntwo\n"), "one\r\ntwo\r\n");
    assert_eq!(IoHandler::format_output("prompt> "), "prompt> ");
    assert_eq!(IoHandler::format_output(""), "");
}
