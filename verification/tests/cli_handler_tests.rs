use grill::cli_handler::{CliHandler, CliHandlerFactory, QCliHandler};
use grill::context_switch::{SwitchAction, SwitchEvent};
use grill::io::Command;

#[test]
fn handler_keeps_its_command() {
    let handler = CliHandlerFactory::create_handler("q chat --trust-all".to_string());
    assert_eq!(handler.get_command(), "q chat --trust-all");
    let other = CliHandlerFactory::create_handler("cat".to_string());
    assert_eq!(other.get_command(), "cat");
    let direct = CliHandler::Q(QCliHandler::new("q chat".to_string()));
    assert_eq!(direct.get_command(), "q chat");
}

#[test]
fn handler_claims_no_command() {
    let handler = CliHandlerFactory::create_handler("q chat".to_string());
    let commands = [
        Command::SwitchTask("demo".to_string()),
        Command::ListTasks,
        Command::CurrentTask,
        Command::CreateTask("demo".to_string()),
        Command::DeleteTask("demo".to_string()),
        Command::Help,
        Command::Quit,
    ];
    for command in commands {
        assert_eq!(handler.process_command(&command, "default"), Ok(false));
    }
}

#[test]
fn handler_help_fragment() {
    let handler = CliHandlerFactory::create_handler("q chat".to_string());
    assert_eq!(handler.get_help_text(), "\nQ CLI Help (below):\n");
}

#[test]
fn handler_banner() {
    let handler = CliHandlerFactory::create_handler("q chat".to_string());
    assert_eq!(
        handler.on_start("demo"),
        vec![
            "\nStarting grill with task: demo\n".to_string(),
            "Type /help for available commands\n\n".to_string(),
        ]
    );
}

#[test]
fn handler_keeps_input_and_output_unchanged() {
    let handler = CliHandlerFactory::create_handler("q chat".to_string());
    assert_eq!(handler.intercept_input("ls -la\r".to_string()), Ok(Some("ls -la\r".to_string())));
    assert_eq!(handler.intercept_input(String::new()), Ok(Some(String::new())));
    assert_eq!(
        handler.intercept_output("\u{1b}[1mbold\u{1b}[0m\n".to_string()),
        Ok(Some("\u{1b}[1mbold\u{1b}[0m\n".to_string()))
    );
}

#[test]
fn handler_serves_commands_that_mention_q_and_chat() {
    let handler = CliHandlerFactory::create_handler("q chat".to_string());
    assert!(handler.can_handle_command("q chat"));
    assert!(handler.can_handle_command("/usr/local/bin/q chat --resume"));
    assert!(handler.can_handle_command("chat with q"));
    assert!(handler.can_handle_command("qchat"));
    assert!(!handler.can_handle_command("aider"));
    assert!(!handler.can_handle_command("q"));
    assert!(!handler.can_handle_command("chat"));
    assert!(!handler.can_handle_command(""));
    assert!(!handler.can_handle_command("Q CHAT"));
    let cat = CliHandlerFactory::create_handler("cat".to_string());
    assert!(cat.can_handle_command("q chat"));
    assert!(!cat.can_handle_command("cat"));
}

#[test]
fn handler_begins_a_context_switch() {
    let handler = CliHandlerFactory::create_handler("q chat".to_string());
    let mut switch = handler.clear_context_and_switch_task("demo");
    assert!(!switch.is_finished());
    assert!(switch.accepts(&SwitchEvent::Ack));
    assert!(!switch.accepts(&SwitchEvent::Sent(true)));
    assert_eq!(
        switch.next(SwitchEvent::Ack),
        SwitchAction::Notify("\nSwitching to task: demo\n".to_string())
    );
}
