use grill::cli_handler::HandlerError;
use grill::config::{Config, TaskConfig};
use grill::context_switch::{FileRead, SwitchAction, TaskFile};
use grill::environment::{EnvError, Environment};
use grill::io::{Command, IoHandler};
use grill::session::{
    after_input_intercept, format_task_list, forward_input, get_help_text, Flow, Session,
    SessionAction, SessionEvent,
};

/// A stand-in for what is on disk.
struct Fake {
    tasks: Vec<(String, Option<String>)>,
    current: Option<String>,
    default_cli: String,
    sends_fail: bool,
    persist_fails: bool,
}

impl Fake {
    fn new() -> Fake {
        Fake {
            tasks: vec![
                ("default".to_string(), Some("q chat".to_string())),
                ("demo".to_string(), None),
                ("other".to_string(), Some("aider".to_string())),
            ],
            current: Some("default".to_string()),
            default_cli: "q chat".to_string(),
            sends_fail: false,
            persist_fails: false,
        }
    }

    fn has(&self, name: &str) -> bool {
        self.tasks.iter().any(|(n, _)| n == name)
    }

    fn missing(name: &str) -> EnvError {
        EnvError::NotFound(name.to_string())
    }

    fn answer(&mut self, action: &SessionAction) -> SessionEvent {
        match action {
            SessionAction::CurrentTask => {
                SessionEvent::Text(self.current.clone().ok_or(EnvError::NotSet))
            }
            SessionAction::FindTask(name) => SessionEvent::Text(if self.has(name) {
                Ok(format!("/work/.grill/tasks/{}", name))
            } else {
                Err(Fake::missing(name))
            }),
            SessionAction::LoadTaskConfig(name) => {
                let cli = self.tasks.iter().find(|(n, _)| n == name).map(|(_, c)| c.clone());
                SessionEvent::TaskConfig(match cli {
                    Some(cli) => Ok(Some(TaskConfig { cli, hooks: Vec::new() })),
                    None => Err(Fake::missing(name)),
                })
            }
            SessionAction::LoadGlobalConfig => SessionEvent::GlobalConfig(Ok(Config {
                default_cli: self.default_cli.clone(),
                clis: Vec::new(),
                hooks: Vec::new(),
            })),
            SessionAction::ListTasks => {
                SessionEvent::Tasks(Ok(self.tasks.iter().map(|(n, _)| n.clone()).collect()))
            }
            SessionAction::SetCurrentTask(name) => SessionEvent::Changed(if self.persist_fails {
                Err(EnvError::Io(format!("Failed to set current task to '{}'", name)))
            } else if self.has(name) {
                self.current = Some(name.clone());
                Ok(())
            } else {
                Err(Fake::missing(name))
            }),
            SessionAction::CreateTask(name) => SessionEvent::Changed(if self.has(name) {
                Err(EnvError::AlreadyExists(name.clone()))
            } else {
                self.tasks.push((name.clone(), Some("q chat".to_string())));
                Ok(())
            }),
            SessionAction::DeleteTask(name) => SessionEvent::Changed(if !self.has(name) {
                Err(Fake::missing(name))
            } else if self.current.as_deref() == Some(name.as_str()) {
                Err(EnvError::IsCurrent)
            } else {
                self.tasks.retain(|(n, _)| n != name);
                Ok(())
            }),
            SessionAction::Switch(SwitchAction::Send(_)) => SessionEvent::Sent(!self.sends_fail),
            SessionAction::Switch(SwitchAction::Load(TaskFile::Instructions)) => {
                SessionEvent::Loaded(FileRead::Text("Be brief.\n".to_string()))
            }
            SessionAction::Switch(SwitchAction::Load(TaskFile::State)) => {
                SessionEvent::Loaded(FileRead::Missing)
            }
            _ => SessionEvent::Ack,
        }
    }
}

/// Performs steps from `first` on, up to the step that closes the reply.
fn drive(session: &mut Session, fake: &mut Fake, first: SessionAction) -> Vec<SessionAction> {
    let mut steps = Vec::new();
    let mut action = first;
    loop {
        let closing = matches!(
            action,
            SessionAction::Next | SessionAction::Stop | SessionAction::Fail(_)
        );
        let event = fake.answer(&action);
        steps.push(action);
        if closing {
            return steps;
        }
        assert!(session.is_valid(), "{:?}", steps);
        assert!(session.accepts(&event), "{:?} after {:?}", event, steps);
        action = session.step(event);
    }
}

fn started(fake: &mut Fake) -> Session {
    let mut session = Session::new(Environment::new("/work"));
    let first = session.start(None);
    let steps = drive(&mut session, fake, first);
    assert_eq!(steps.last(), Some(&SessionAction::Next));
    assert_eq!(session.flow(), Flow::Idle);
    session
}

fn dispatch(session: &mut Session, fake: &mut Fake, command: Command) -> Vec<SessionAction> {
    let first = session.dispatch(command);
    drive(session, fake, first)
}

fn output(text: &str) -> SessionAction {
    SessionAction::Output(text.to_string())
}

fn restore() -> SessionAction {
    SessionAction::Input("\r".to_string())
}

#[test]
fn new_session_is_not_running() {
    let session = Session::new(Environment::new("/work"));
    assert!(!session.is_running());
    assert_eq!(session.flow(), Flow::NotStarted);
    assert_eq!(session.current_task(), "");
    assert!(session.cli_handler().is_none());
    assert!(!session.accepts(&SessionEvent::Ack));
    assert!(session.is_valid());
    assert_eq!(session.environment().get_config_path(), "/work/.grill/config.toml");
}

#[test]
fn start_on_the_current_task() {
    let mut fake = Fake::new();
    let mut session = Session::new(Environment::new("/work"));
    let first = session.start(None);
    assert!(session.is_running());
    let steps = drive(&mut session, &mut fake, first);
    assert_eq!(
        steps,
        vec![
            SessionAction::CurrentTask,
            SessionAction::FindTask("default".to_string()),
            SessionAction::LoadTaskConfig("default".to_string()),
            SessionAction::Launch("q chat".to_string()),
            SessionAction::Notify("\nStarting grill with task: default\n".to_string()),
            SessionAction::Notify("Type /help for available commands\n\n".to_string()),
            SessionAction::Next,
        ]
    );
    assert!(session.is_running());
    assert_eq!(session.current_task(), "default");
    assert_eq!(session.cli_handler().map(|h| h.get_command().to_string()), Some("q chat".to_string()));
}

#[test]
fn start_on_a_named_task_falls_back_to_the_global_configuration() {
    let mut fake = Fake::new();
    fake.default_cli = "q chat --global".to_string();
    let mut session = Session::new(Environment::new("/work"));
    let first = session.start(Some("demo".to_string()));
    let steps = drive(&mut session, &mut fake, first);
    assert_eq!(
        steps,
        vec![
            SessionAction::FindTask("demo".to_string()),
            SessionAction::LoadTaskConfig("demo".to_string()),
            SessionAction::LoadGlobalConfig,
            SessionAction::Launch("q chat --global".to_string()),
            SessionAction::Notify("\nStarting grill with task: demo\n".to_string()),
            SessionAction::Notify("Type /help for available commands\n\n".to_string()),
            SessionAction::Next,
        ]
    );
    assert_eq!(session.current_task(), "demo");
}

#[test]
fn start_fails_without_a_current_task() {
    let mut fake = Fake::new();
    fake.current = None;
    let mut session = Session::new(Environment::new("/work"));
    let first = session.start(None);
    let steps = drive(&mut session, &mut fake, first);
    assert_eq!(steps, vec![SessionAction::CurrentTask, SessionAction::Fail(EnvError::NotSet)]);
    assert_eq!(session.flow(), Flow::Failed);
    assert!(session.cli_handler().is_none());
}

#[test]
fn start_fails_on_a_task_that_is_not_there() {
    let mut fake = Fake::new();
    let mut session = Session::new(Environment::new("/work"));
    let first = session.start(Some("ghost".to_string()));
    let steps = drive(&mut session, &mut fake, first);
    assert_eq!(
        steps,
        vec![
            SessionAction::FindTask("ghost".to_string()),
            SessionAction::Fail(EnvError::NotFound("ghost".to_string())),
        ]
    );
    assert_eq!(session.flow(), Flow::Failed);
}

#[test]
fn start_fails_where_a_configuration_cannot_be_loaded() {
    let mut session = Session::new(Environment::new("/work"));
    assert_eq!(session.start(Some("demo".to_string())), SessionAction::FindTask("demo".to_string()));
    assert_eq!(
        session.step(SessionEvent::Text(Ok("/work/.grill/tasks/demo".to_string()))),
        SessionAction::LoadTaskConfig("demo".to_string())
    );
    assert_eq!(session.step(SessionEvent::TaskConfig(Ok(None))), SessionAction::LoadGlobalConfig);
    let broken = EnvError::Io("Failed to parse config file".to_string());
    assert_eq!(
        session.step(SessionEvent::GlobalConfig(Err(broken.clone()))),
        SessionAction::Fail(broken)
    );

    let mut session = Session::new(Environment::new("/work"));
    session.start(Some("demo".to_string()));
    session.step(SessionEvent::Text(Ok("/work/.grill/tasks/demo".to_string())));
    let broken = EnvError::Io("Failed to parse task config file".to_string());
    assert_eq!(
        session.step(SessionEvent::TaskConfig(Err(broken.clone()))),
        SessionAction::Fail(broken)
    );
}

#[test]
fn quit_ends_the_session() {
    let mut fake = Fake::new();
    let mut session = started(&mut fake);
    let steps = dispatch(&mut session, &mut fake, Command::Quit);
    assert_eq!(steps, vec![output("\nExiting grill...\n"), SessionAction::Stop]);
    assert!(!session.is_running());
    assert_eq!(session.flow(), Flow::Stopped);
    assert!(!session.accepts(&SessionEvent::Ack));
}

#[test]
fn current_task_is_shown() {
    let mut fake = Fake::new();
    let mut session = started(&mut fake);
    let steps = dispatch(&mut session, &mut fake, Command::CurrentTask);
    assert_eq!(steps, vec![output("\nCurrent task: default\n\n"), restore(), SessionAction::Next]);
    assert!(session.is_running());
    assert_eq!(session.flow(), Flow::Idle);
}

#[test]
fn tasks_are_listed_with_the_current_one_marked() {
    let mut fake = Fake::new();
    let mut session = started(&mut fake);
    let steps = dispatch(&mut session, &mut fake, Command::ListTasks);
    assert_eq!(
        steps,
        vec![
            SessionAction::ListTasks,
            output("\nAvailable tasks:\n* default (current)\n  demo\n  other\n\n"),
            restore(),
            SessionAction::Next,
        ]
    );
}

#[test]
fn task_list_format() {
    let tasks = vec!["a".to_string(), "b".to_string(), "a".to_string()];
    assert_eq!(format_task_list(&tasks, "a"), "\nAvailable tasks:\n* a (current)\n  b\n* a (current)\n\n");
    assert_eq!(format_task_list(&tasks, "c"), "\nAvailable tasks:\n  a\n  b\n  a\n\n");
    assert_eq!(format_task_list(&Vec::new(), "a"), "\nAvailable tasks:\n\n");
}

#[test]
fn listing_failure_is_shown() {
    let mut fake = Fake::new();
    let mut session = started(&mut fake);
    assert_eq!(session.dispatch(Command::ListTasks), SessionAction::ListTasks);
    assert_eq!(session.flow(), Flow::Listing);
    let failure = EnvError::Io("Permission denied (os error 13)".to_string());
    assert_eq!(
        session.step(SessionEvent::Tasks(Err(failure))),
        output("\nError listing tasks: Permission denied (os error 13)\n")
    );
    assert_eq!(session.step(SessionEvent::Ack), restore());
    assert_eq!(session.step(SessionEvent::Ack), SessionAction::Next);
}

#[test]
fn task_is_created() {
    let mut fake = Fake::new();
    let mut session = started(&mut fake);
    let steps = dispatch(&mut session, &mut fake, Command::CreateTask("test-task".to_string()));
    assert_eq!(
        steps,
        vec![
            SessionAction::CreateTask("test-task".to_string()),
            output("\nCreated task: test-task\n\n"),
            restore(),
            SessionAction::Next,
        ]
    );
    let steps = dispatch(&mut session, &mut fake, Command::CreateTask("test-task".to_string()));
    assert_eq!(
        steps,
        vec![
            SessionAction::CreateTask("test-task".to_string()),
            output("\nError creating task 'test-task': Task 'test-task' already exists\n\n"),
            restore(),
            SessionAction::Next,
        ]
    );
}

#[test]
fn task_is_deleted() {
    let mut fake = Fake::new();
    let mut session = started(&mut fake);
    let steps = dispatch(&mut session, &mut fake, Command::DeleteTask("demo".to_string()));
    assert_eq!(
        steps,
        vec![
            SessionAction::DeleteTask("demo".to_string()),
            output("\nDeleted task: demo\n\n"),
            restore(),
            SessionAction::Next,
        ]
    );
    let steps = dispatch(&mut session, &mut fake, Command::DeleteTask("default".to_string()));
    assert_eq!(
        steps,
        vec![
            SessionAction::DeleteTask("default".to_string()),
            output("\nError deleting task 'default': Cannot delete the current task\n\n"),
            restore(),
            SessionAction::Next,
        ]
    );
    let steps = dispatch(&mut session, &mut fake, Command::DeleteTask("demo".to_string()));
    assert_eq!(
        steps,
        vec![
            SessionAction::DeleteTask("demo".to_string()),
            output("\nError deleting task 'demo': Task 'demo' does not exist\n\n"),
            restore(),
            SessionAction::Next,
        ]
    );
}

#[test]
fn help_names_every_command_and_the_adapter() {
    let mut fake = Fake::new();
    let mut session = started(&mut fake);
    let steps = dispatch(&mut session, &mut fake, Command::Help);
    assert_eq!(steps.len(), 3);
    assert_eq!(steps[1], SessionAction::Input("/help\r".to_string()));
    assert_eq!(steps[2], SessionAction::Next);
    let text = match &steps[0] {
        SessionAction::Output(text) => text.clone(),
        other => panic!("{:?}", other),
    };
    assert_eq!(text, format!("{}{}", get_help_text(), "\nQ CLI Help (below):\n"));
    for summary in [
        "  /task                 Show the current task\n",
        "  /task list            List all available tasks\n",
        "  /task <n>          Switch to the specified task\n",
        "  /task init <n>     Create a new task\n",
        "  /task delete <n>   Delete a task\n",
        "  /help                 Show this help message\n",
        "  /quit                 Exit grill\n",
    ] {
        assert!(text.contains(summary), "{:?}", summary);
    }
    assert!(text.starts_with("\nGrill Commands:\n"));
    assert!(text.ends_with("\nQ CLI Help (below):\n"));
}

#[test]
fn switch_in_place() {
    let mut fake = Fake::new();
    let mut session = started(&mut fake);
    let steps = dispatch(&mut session, &mut fake, Command::SwitchTask("demo".to_string()));
    let switch = |a: SwitchAction| SessionAction::Switch(a);
    assert_eq!(
        steps,
        vec![
            SessionAction::FindTask("demo".to_string()),
            SessionAction::LoadTaskConfig("demo".to_string()),
            SessionAction::LoadGlobalConfig,
            output("\nSwitching to task: demo (seamless switch)\n"),
            switch(SwitchAction::Notify("\nSwitching to task: demo\n".to_string())),
            switch(SwitchAction::Notify("Clearing current context...\n".to_string())),
            switch(SwitchAction::Send("/clear\r".to_string())),
            switch(SwitchAction::Send("y\r".to_string())),
            switch(SwitchAction::Settle(500)),
            switch(SwitchAction::Load(TaskFile::Instructions)),
            switch(SwitchAction::Notify("Loading task instructions...\n".to_string())),
            switch(SwitchAction::Send(
                "Here are the instructions for task 'demo': \n\nBe brief.\n\n\r".to_string()
            )),
            switch(SwitchAction::Settle(1000)),
            switch(SwitchAction::Load(TaskFile::State)),
            switch(SwitchAction::Notify("Successfully switched to task: demo\n\n".to_string())),
            SessionAction::SetCurrentTask("demo".to_string()),
            restore(),
            SessionAction::Next,
        ]
    );
    assert_eq!(session.current_task(), "demo");
    assert_eq!(fake.current.as_deref(), Some("demo"));
    let steps = dispatch(&mut session, &mut fake, Command::CurrentTask);
    assert_eq!(steps[0], output("\nCurrent task: demo\n\n"));
}

#[test]
fn switch_in_place_warns_where_the_record_cannot_be_written() {
    let mut fake = Fake::new();
    let mut session = started(&mut fake);
    fake.persist_fails = true;
    let steps = dispatch(&mut session, &mut fake, Command::SwitchTask("demo".to_string()));
    let n = steps.len();
    assert_eq!(
        steps[n - 4..],
        [
            SessionAction::SetCurrentTask("demo".to_string()),
            output("Warning: Failed to update current task file: Failed to set current task to 'demo'\n"),
            restore(),
            SessionAction::Next,
        ]
    );
    assert_eq!(session.current_task(), "demo");
}

#[test]
fn switch_in_place_stops_at_a_failed_send() {
    let mut fake = Fake::new();
    let mut session = started(&mut fake);
    fake.sends_fail = true;
    let steps = dispatch(&mut session, &mut fake, Command::SwitchTask("demo".to_string()));
    let switch = |a: SwitchAction| SessionAction::Switch(a);
    assert_eq!(
        steps,
        vec![
            SessionAction::FindTask("demo".to_string()),
            SessionAction::LoadTaskConfig("demo".to_string()),
            SessionAction::LoadGlobalConfig,
            output("\nSwitching to task: demo (seamless switch)\n"),
            switch(SwitchAction::Notify("\nSwitching to task: demo\n".to_string())),
            switch(SwitchAction::Notify("Clearing current context...\n".to_string())),
            switch(SwitchAction::Send("/clear\r".to_string())),
            output("Error switching task context: Failed to send clear command to Q CLI\n\n"),
            restore(),
            SessionAction::Next,
        ]
    );
    assert_eq!(session.current_task(), "default");
    assert_eq!(fake.current.as_deref(), Some("default"));
    assert!(session.is_running());
}

#[test]
fn switch_to_another_cli_needs_a_restart() {
    let mut fake = Fake::new();
    let mut session = started(&mut fake);
    let steps = dispatch(&mut session, &mut fake, Command::SwitchTask("other".to_string()));
    assert_eq!(
        steps,
        vec![
            SessionAction::FindTask("other".to_string()),
            SessionAction::LoadTaskConfig("other".to_string()),
            SessionAction::SetCurrentTask("other".to_string()),
            output("\nSwitched to task: other\n"),
            output("Task uses a different CLI. Please restart grill to apply the change.\n\n"),
            restore(),
            SessionAction::Next,
        ]
    );
    assert!(!steps.iter().any(|s| matches!(s, SessionAction::Switch(_))));
    assert_eq!(fake.current.as_deref(), Some("other"));
    assert_eq!(session.current_task(), "default");
}

#[test]
fn switch_to_another_cli_tells_where_the_record_cannot_be_written() {
    let mut fake = Fake::new();
    let mut session = started(&mut fake);
    fake.persist_fails = true;
    let steps = dispatch(&mut session, &mut fake, Command::SwitchTask("other".to_string()));
    assert_eq!(
        steps,
        vec![
            SessionAction::FindTask("other".to_string()),
            SessionAction::LoadTaskConfig("other".to_string()),
            SessionAction::SetCurrentTask("other".to_string()),
            output("\nError switching to task 'other': Failed to set current task to 'other'\n\n"),
            restore(),
            SessionAction::Next,
        ]
    );
}

#[test]
fn switch_to_a_task_that_is_not_there() {
    let mut fake = Fake::new();
    let mut session = started(&mut fake);
    let steps = dispatch(&mut session, &mut fake, Command::SwitchTask("ghost".to_string()));
    assert_eq!(
        steps,
        vec![
            SessionAction::FindTask("ghost".to_string()),
            output("\nError switching to task 'ghost': Task 'ghost' does not exist\n\n"),
            restore(),
            SessionAction::Next,
        ]
    );
    assert_eq!(session.current_task(), "default");
}

#[test]
fn switch_tells_where_the_command_cannot_be_found_out() {
    let mut fake = Fake::new();
    let mut session = started(&mut fake);
    assert_eq!(
        session.dispatch(Command::SwitchTask("demo".to_string())),
        SessionAction::FindTask("demo".to_string())
    );
    session.step(SessionEvent::Text(Ok("/work/.grill/tasks/demo".to_string())));
    let broken = EnvError::Io("Failed to parse task config file".to_string());
    let first = session.step(SessionEvent::TaskConfig(Err(broken)));
    let steps = drive(&mut session, &mut fake, first);
    assert_eq!(
        steps,
        vec![
            output("\nError getting CLI command for task 'demo': Failed to parse task config file\n\n"),
            restore(),
            SessionAction::Next,
        ]
    );
}

#[test]
fn command_that_the_adapter_handles_is_done_with() {
    let mut fake = Fake::new();
    let mut session = started(&mut fake);
    assert_eq!(session.dispatch_offered(Command::Quit, Ok(true)), SessionAction::Next);
    assert!(session.is_running());
    assert_eq!(session.flow(), Flow::Idle);
    let failure = HandlerError { message: "adapter broke".to_string() };
    assert_eq!(
        session.dispatch_offered(Command::ListTasks, Err(failure)),
        output("\nError processing command: adapter broke\n\n")
    );
    assert_eq!(session.step(SessionEvent::Ack), SessionAction::Next);
    assert_eq!(session.dispatch_offered(Command::Quit, Ok(false)), output("\nExiting grill...\n"));
}

#[test]
fn typed_commands_reach_the_dispatcher() {
    let mut fake = Fake::new();
    let mut session = started(&mut fake);

    let command = IoHandler::process_command_buffer("/task init demo2").unwrap();
    assert_eq!(command, Command::CreateTask("demo2".to_string()));
    let steps = dispatch(&mut session, &mut fake, command);
    assert_eq!(steps[1], output("\nCreated task: demo2\n\n"));

    let command = IoHandler::process_command_buffer("/task demo2").unwrap();
    assert_eq!(command, Command::SwitchTask("demo2".to_string()));
    let steps = dispatch(&mut session, &mut fake, command);
    assert_eq!(steps.last(), Some(&SessionAction::Next));
    assert_eq!(session.current_task(), "demo2");

    let command = IoHandler::process_command_buffer("/quit").unwrap();
    assert_eq!(command, Command::Quit);
    let steps = dispatch(&mut session, &mut fake, command);
    assert_eq!(steps.last(), Some(&SessionAction::Stop));
    assert!(!session.is_running());
}

#[test]
fn session_takes_only_the_report_it_waits_for() {
    let mut fake = Fake::new();
    let mut session = started(&mut fake);
    assert!(!session.accepts(&SessionEvent::Ack));
    session.dispatch(Command::ListTasks);
    assert!(session.accepts(&SessionEvent::Tasks(Ok(Vec::new()))));
    assert!(!session.accepts(&SessionEvent::Ack));
    assert!(!session.accepts(&SessionEvent::Changed(Ok(()))));
    session.step(SessionEvent::Tasks(Ok(Vec::new())));
    assert_eq!(session.flow(), Flow::Replying);
    assert!(session.accepts(&SessionEvent::Ack));
    assert!(!session.accepts(&SessionEvent::Sent(true)));
}

#[test]
fn input_goes_to_the_child_unless_dropped() {
    let handler = grill::cli_handler::CliHandlerFactory::create_handler("q chat".to_string());
    assert_eq!(forward_input("a".to_string(), &handler), Some("a".to_string()));
    assert_eq!(forward_input("\r".to_string(), &handler), Some("\r".to_string()));
    assert_eq!(
        after_input_intercept("typed".to_string(), Ok(Some("changed".to_string()))),
        Some("changed".to_string())
    );
    assert_eq!(after_input_intercept("typed".to_string(), Ok(None)), None);
    assert_eq!(
        after_input_intercept("typed".to_string(), Err(HandlerError { message: "x".to_string() })),
        Some("typed".to_string())
    );
}
