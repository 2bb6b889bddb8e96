//! The adapter of the child: what is particular to the CLI that runs as the
//! child of a session.

use crate::context_switch::{ContextSwitch, SwitchEventView, SwitchState};
use crate::io::Command;
use crate::text::{contains, contains_spec, occurs_at};
use vstd::prelude::*;
use vstd::string::StringExecFns;

verus! {

/// The failure of an adapter to handle what it was given.
#[derive(Debug, Clone, PartialEq, Eq)]
pub struct HandlerError {
    pub message: String,
}

/// Concrete CLI handler type
#[derive(Clone)]
pub enum CliHandler {
    Q(QCliHandler),
}

/// Handler for Amazon Q CLI
#[derive(Clone)]
pub struct QCliHandler {
    command: String,
}

/// Factory for creating CLI handlers
pub struct CliHandlerFactory;

/// Whether the Q adapter can serve a child started by `command`: the command
/// mentions both `q` and `chat`.
pub open spec fn q_can_handle(command: Seq<char>) -> bool {
    contains_spec(command, "q"@) && contains_spec(command, "chat"@)
}

/// The two messages that greet the user of task `task_name`.
pub open spec fn q_banner(task_name: Seq<char>) -> Seq<Seq<char>> {
    seq![
        "\nStarting grill with task: "@ + task_name + "\n"@,
        "Type /help for available commands\n\n"@,
    ]
}

impl QCliHandler {
    /// Create a new Amazon Q CLI handler
    pub fn new(command: String) -> (handler: QCliHandler)
        ensures
            handler.command_spec() == command@,
    {
        Self { command }
    }

    /// The command line that started the child.
    pub closed spec fn command_spec(&self) -> Seq<char> {
        self.command@
    }

    fn get_command(&self) -> (command: &str)
        ensures
            command@ == self.command_spec(),
    {
        self.command.as_str()
    }

    fn process_command(&self, _command: &Command, _current_task: &str) -> (claimed: Result<
        bool,
        HandlerError,
    >)
        ensures
            claimed == Ok::<bool, HandlerError>(false),
    {
        Ok(false)
    }

    fn get_help_text(&self) -> (help: String)
        ensures
            help@ == "\nQ CLI Help (below):\n"@,
    {
        "\nQ CLI Help (below):\n".to_owned()
    }

    fn on_start(&self, task_name: &str) -> (banner: Vec<String>)
        ensures
            crate::text::views(banner@) == q_banner(task_name@),
    {
        let mut first = String::from_str("\nStarting grill with task: ");
        first.append(task_name);
        first.append("\n");
        let mut banner: Vec<String> = Vec::new();
        banner.push(first);
        banner.push("Type /help for available commands\n\n".to_owned());
        assert(crate::text::views(banner@) =~= q_banner(task_name@));
        banner
    }

    fn intercept_input(&self, input: String) -> (kept: Result<Option<String>, HandlerError>)
        ensures
            kept == Ok::<Option<String>, HandlerError>(Some(input)),
    {
        Ok(Some(input))
    }

    fn intercept_output(&self, output: String) -> (kept: Result<Option<String>, HandlerError>)
        ensures
            kept == Ok::<Option<String>, HandlerError>(Some(output)),
    {
        Ok(Some(output))
    }

    fn can_handle_command(&self, command: &str) -> (able: bool)
        ensures
            able == q_can_handle(command@),
    {
        contains(command, "q") && contains(command, "chat")
    }
}

/// What a [`CliHandler`] stands for: the kind of child, and the command line
/// that started it.
pub enum HandlerView {
    Q { command: Seq<char> },
}

impl HandlerView {
    /// The adapter for a child started by `command`. Every child is served by the
    /// Q adapter so far.
    pub open spec fn of_command(command: Seq<char>) -> HandlerView {
        HandlerView::Q { command }
    }

    /// The command line that started the child.
    pub open spec fn command(self) -> Seq<char> {
        match self {
            HandlerView::Q { command } => command,
        }
    }

    /// Whether this adapter can serve a child started by `command`.
    pub open spec fn can_handle(self, command: Seq<char>) -> bool {
        match self {
            HandlerView::Q { .. } => q_can_handle(command),
        }
    }

    /// The help text of this adapter.
    pub open spec fn help(self) -> Seq<char> {
        match self {
            HandlerView::Q { .. } => "\nQ CLI Help (below):\n"@,
        }
    }

    /// The messages that greet the user of task `task_name`.
    pub open spec fn banner(self, task_name: Seq<char>) -> Seq<Seq<char>> {
        match self {
            HandlerView::Q { .. } => q_banner(task_name),
        }
    }
}

impl View for CliHandler {
    type V = HandlerView;

    open spec fn view(&self) -> HandlerView {
        match self {
            CliHandler::Q(handler) => HandlerView::Q { command: handler.command_spec() },
        }
    }
}

impl CliHandler {
    pub fn get_command(&self) -> (command: &str)
        ensures
            command@ == self@.command(),
    {
        match self {
            CliHandler::Q(handler) => handler.get_command(),
        }
    }

    /// Offers a command to the adapter, which says whether it has handled it.
    /// No adapter handles a command so far.
    pub fn process_command(&self, command: &Command, current_task: &str) -> (claimed: Result<
        bool,
        HandlerError,
    >)
        ensures
            claimed == Ok::<bool, HandlerError>(false),
    {
        match self {
            CliHandler::Q(handler) => handler.process_command(command, current_task),
        }
    }

    pub fn get_help_text(&self) -> (help: String)
        ensures
            help@ == self@.help(),
    {
        match self {
            CliHandler::Q(handler) => handler.get_help_text(),
        }
    }

    /// The messages to offer to the output queue when a session starts.
    pub fn on_start(&self, task_name: &str) -> (banner: Vec<String>)
        ensures
            crate::text::views(banner@) == self@.banner(task_name@),
    {
        match self {
            CliHandler::Q(handler) => handler.on_start(task_name),
        }
    }

    /// What of the user's input goes to the child: all of it, unchanged.
    pub fn intercept_input(&self, input: String) -> (kept: Result<Option<String>, HandlerError>)
        ensures
            kept == Ok::<Option<String>, HandlerError>(Some(input)),
    {
        match self {
            CliHandler::Q(handler) => handler.intercept_input(input),
        }
    }

    /// What of the child's output goes to the user: all of it, unchanged.
    pub fn intercept_output(&self, output: String) -> (kept: Result<Option<String>, HandlerError>)
        ensures
            kept == Ok::<Option<String>, HandlerError>(Some(output)),
    {
        match self {
            CliHandler::Q(handler) => handler.intercept_output(output),
        }
    }

    /// Clear the CLI's context and prepare for new task: begins the protocol that
    /// does so, for a driver to perform step by step.
    pub fn clear_context_and_switch_task(&self, new_task_name: &str) -> (switch: ContextSwitch)
        ensures
            switch@ == SwitchState::begin(new_task_name@),
            switch@.wf(),
            switch@.accepts(SwitchEventView::Ack),
    {
        match self {
            CliHandler::Q(_) => ContextSwitch::new(new_task_name),
        }
    }

    /// Check if this CLI handler can handle the given command
    pub fn can_handle_command(&self, command: &str) -> (able: bool)
        ensures
            able == self@.can_handle(command@),
    {
        match self {
            CliHandler::Q(handler) => handler.can_handle_command(command),
        }
    }
}

impl CliHandlerFactory {
    /// Create a CLI handler based on the command
    pub fn create_handler(command: String) -> (handler: CliHandler)
        ensures
            handler@ == HandlerView::of_command(command@),
    {
        CliHandler::Q(QCliHandler::new(command))
    }
}

/// A command that mentions `q chat` can be served by the Q adapter.
pub proof fn law_q_chat_is_handled(command: Seq<char>)
    requires
        contains_spec(command, "q chat"@),
    ensures
        q_can_handle(command),
{
    reveal_strlit("q chat");
    reveal_strlit("q");
    reveal_strlit("chat");
    let at = choose|at: int| occurs_at(command, "q chat"@, at);
    let found = command.subrange(at, at + 6);
    assert(found == "q chat"@);
    assert(command.subrange(at, at + 1) =~= found.subrange(0, 1));
    assert(found.subrange(0, 1) =~= "q"@);
    assert(occurs_at(command, "q"@, at));
    assert(command.subrange(at + 2, at + 6) =~= found.subrange(2, 6));
    assert(found.subrange(2, 6) =~= "chat"@);
    assert(occurs_at(command, "chat"@, at + 2));
}

} // verus!
