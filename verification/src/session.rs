//! The session: what happens at its start and on each command, as a state
//! machine that hands out one step at a time. What each step is, and what holds
//! of all of them, stands in [`crate::session_model`].

use crate::cli_handler::{CliHandler, CliHandlerFactory, HandlerError};
use crate::config::{Config, ConfigView, TaskConfig, TaskConfigView};
use crate::context_switch::{
    ContextSwitch, FileRead, FileReadView, SwitchAction, SwitchActionView, SwitchEvent,
};
use crate::environment::{text_view, EnvError, EnvErrorView, Environment};
use crate::io::Command;
use crate::session_model::{
    claim_view, command_error_notice, exit_notice, is_reply, law_dispatch_keeps_wf,
    law_step_keeps_wf, lemma_resolved, lemma_restoring, lemma_switching, lemma_unresolved,
    native_help, persist_notices, persist_warning, restart_notice, restoring,
    switch_error_notice, switched_notice, SessionState,
};
use crate::text::{str_eq, views};
use vstd::prelude::*;
use vstd::string::StringExecFns;

verus! {

/// One step of a session, for the driver to perform.
#[derive(Debug, Clone, PartialEq, Eq)]
pub enum SessionAction {
    /// Offer the text to the output queue without waiting; it may be lost.
    Notify(String),
    /// Send the text to the output queue, waiting for room there.
    Output(String),
    /// Send the text to the child's input queue, waiting for room there.
    Input(String),
    /// Start the child with this command line, and the loops that serve it.
    Launch(String),
    /// Perform a step of the context switch.
    Switch(SwitchAction),
    /// Read the name of the current task.
    CurrentTask,
    /// Look for the directory of the task.
    FindTask(String),
    /// Load the configuration of the task, if it has one.
    LoadTaskConfig(String),
    /// Load the global configuration.
    LoadGlobalConfig,
    /// List the tasks.
    ListTasks,
    /// Record the task as the current one.
    SetCurrentTask(String),
    /// Create the task.
    CreateTask(String),
    /// Delete the task.
    DeleteTask(String),
    /// Wait for the next command and dispatch it.
    Next,
    /// The session has ended: no further command is served.
    Stop,
    /// The session could not start.
    Fail(EnvError),
}

/// What a [`SessionAction`] stands for.
pub enum SessionActionView {
    Notify(Seq<char>),
    Output(Seq<char>),
    Input(Seq<char>),
    Launch(Seq<char>),
    Switch(SwitchActionView),
    CurrentTask,
    FindTask(Seq<char>),
    LoadTaskConfig(Seq<char>),
    LoadGlobalConfig,
    ListTasks,
    SetCurrentTask(Seq<char>),
    CreateTask(Seq<char>),
    DeleteTask(Seq<char>),
    Next,
    Stop,
    Fail(EnvErrorView),
}

impl View for SessionAction {
    type V = SessionActionView;

    open spec fn view(&self) -> SessionActionView {
        match self {
            SessionAction::Notify(text) => SessionActionView::Notify(text@),
            SessionAction::Output(text) => SessionActionView::Output(text@),
            SessionAction::Input(text) => SessionActionView::Input(text@),
            SessionAction::Launch(command) => SessionActionView::Launch(command@),
            SessionAction::Switch(action) => SessionActionView::Switch(action@),
            SessionAction::CurrentTask => SessionActionView::CurrentTask,
            SessionAction::FindTask(name) => SessionActionView::FindTask(name@),
            SessionAction::LoadTaskConfig(name) => SessionActionView::LoadTaskConfig(name@),
            SessionAction::LoadGlobalConfig => SessionActionView::LoadGlobalConfig,
            SessionAction::ListTasks => SessionActionView::ListTasks,
            SessionAction::SetCurrentTask(name) => SessionActionView::SetCurrentTask(name@),
            SessionAction::CreateTask(name) => SessionActionView::CreateTask(name@),
            SessionAction::DeleteTask(name) => SessionActionView::DeleteTask(name@),
            SessionAction::Next => SessionActionView::Next,
            SessionAction::Stop => SessionActionView::Stop,
            SessionAction::Fail(e) => SessionActionView::Fail(e@),
        }
    }
}

impl SessionActionView {
    /// Whether the step ends the handling of a command, or the session.
    pub open spec fn is_closing(self) -> bool {
        self is Next || self is Stop || self is Fail
    }

    /// Whether the step is done without a report other than that it is done.
    pub open spec fn is_plain(self) -> bool {
        self is Notify || self is Output || self is Input || self is Launch || self.is_closing()
    }
}

/// The views of the steps of `v`, in order.
pub open spec fn step_views(v: Seq<SessionAction>) -> Seq<SessionActionView> {
    v.map_values(|a: SessionAction| a@)
}

/// What the driver reports after a step.
#[derive(Debug, PartialEq, Eq)]
pub enum SessionEvent {
    /// The step is done, and there is nothing to report.
    Ack,
    /// Whether the text was sent to the child, in a context switch.
    Sent(bool),
    /// What came of reading the file, in a context switch.
    Loaded(FileRead),
    /// The name of the current task, or the directory of the task looked for.
    Text(Result<String, EnvError>),
    /// The configuration of the task; `None` where it has no configuration file.
    TaskConfig(Result<Option<TaskConfig>, EnvError>),
    /// The global configuration.
    GlobalConfig(Result<Config, EnvError>),
    /// The names of the tasks.
    Tasks(Result<Vec<String>, EnvError>),
    /// Whether the change to the environment was made.
    Changed(Result<(), EnvError>),
}

/// What a [`SessionEvent`] stands for.
pub enum SessionEventView {
    Ack,
    Sent(bool),
    Loaded(FileReadView),
    Text(Result<Seq<char>, EnvErrorView>),
    TaskConfig(Result<Option<TaskConfigView>, EnvErrorView>),
    GlobalConfig(Result<ConfigView, EnvErrorView>),
    Tasks(Result<Seq<Seq<char>>, EnvErrorView>),
    Changed(Result<(), EnvErrorView>),
}

impl View for SessionEvent {
    type V = SessionEventView;

    open spec fn view(&self) -> SessionEventView {
        match self {
            SessionEvent::Ack => SessionEventView::Ack,
            SessionEvent::Sent(ok) => SessionEventView::Sent(*ok),
            SessionEvent::Loaded(read) => SessionEventView::Loaded(read@),
            SessionEvent::Text(text) => SessionEventView::Text(text_view(*text)),
            SessionEvent::TaskConfig(config) => SessionEventView::TaskConfig(
                match config {
                    Ok(Some(config)) => Ok(Some(config@)),
                    Ok(None) => Ok(None),
                    Err(e) => Err(e@),
                },
            ),
            SessionEvent::GlobalConfig(config) => SessionEventView::GlobalConfig(
                match config {
                    Ok(config) => Ok(config@),
                    Err(e) => Err(e@),
                },
            ),
            SessionEvent::Tasks(tasks) => SessionEventView::Tasks(
                match tasks {
                    Ok(tasks) => Ok(views(tasks@)),
                    Err(e) => Err(e@),
                },
            ),
            SessionEvent::Changed(done) => SessionEventView::Changed(
                match done {
                    Ok(_) => Ok(()),
                    Err(e) => Err(e@),
                },
            ),
        }
    }
}

/// Where a session stands: what it waits for.
#[derive(Debug, Clone, Copy, PartialEq, Eq)]
pub enum Flow {
    /// The session has not been started.
    NotStarted,
    /// For the next command.
    Idle,
    /// For the steps of a reply to be done, one by one.
    Replying,
    /// For the name of the current task, at the start.
    CurrentTask,
    /// For the directory of the task, at the start or for a switch.
    TaskDir { starting: bool },
    /// For the configuration of the task.
    TaskConfig { starting: bool },
    /// For the global configuration.
    GlobalConfig { starting: bool },
    /// For the steps of a context switch to be done, one by one.
    Switching,
    /// For the current task to be recorded, after a context switch in place or
    /// without one.
    Persisting { seamless: bool },
    /// For the names of the tasks.
    Listing,
    /// For the task to be created.
    Creating,
    /// For the task to be deleted.
    Deleting,
    /// The session has ended.
    Stopped,
    /// The session could not start.
    Failed,
}

/// The help on the commands of the session.
pub open spec fn help_text() -> Seq<char> {
    "\nGrill Commands:\n  /task                 Show the current task\n  /task list            List all available tasks\n  /task <n>          Switch to the specified task\n  /task init <n>     Create a new task\n  /task delete <n>   Delete a task\n  /help                 Show this help message\n  /quit                 Exit grill\n\n"@
}

/// Get help text
pub fn get_help_text() -> (help: String)
    ensures
        help@ == help_text(),
{
    "\nGrill Commands:\n  /task                 Show the current task\n  /task list            List all available tasks\n  /task <n>          Switch to the specified task\n  /task init <n>     Create a new task\n  /task delete <n>   Delete a task\n  /help                 Show this help message\n  /quit                 Exit grill\n\n".to_owned()
}

/// The lines that list `tasks`, one line each, the task `current` marked.
pub open spec fn task_lines(tasks: Seq<Seq<char>>, current: Seq<char>) -> Seq<char>
    decreases tasks.len(),
{
    if tasks.len() == 0 {
        Seq::empty()
    } else {
        let task = tasks.last();
        task_lines(tasks.drop_last(), current) + (if task == current {
            "* "@ + task + " (current)\n"@
        } else {
            "  "@ + task + "\n"@
        })
    }
}

/// The listing of `tasks`, the task `current` marked.
pub open spec fn task_listing(tasks: Seq<Seq<char>>, current: Seq<char>) -> Seq<char> {
    "\nAvailable tasks:\n"@ + task_lines(tasks, current) + "\n"@
}

/// Formats the listing of `tasks`, the task `current` marked.
pub fn format_task_list(tasks: &Vec<String>, current: &str) -> (listing: String)
    ensures
        listing@ == task_listing(views(tasks@), current@),
{
    let mut listing = String::from_str("\nAvailable tasks:\n");
    let ghost head = listing@;
    let mut i: usize = 0;
    assert(views(tasks@).take(0) =~= Seq::<Seq<char>>::empty());
    assert(listing@ =~= head + task_lines(views(tasks@).take(0), current@));
    while i < tasks.len()
        invariant
            i <= tasks.len(),
            head == "\nAvailable tasks:\n"@,
            listing@ == head + task_lines(views(tasks@).take(i as int), current@),
        decreases tasks.len() - i,
    {
        let ghost all = views(tasks@);
        let ghost before = task_lines(all.take(i as int), current@);
        assert(all.take(i + 1).drop_last() =~= all.take(i as int));
        assert(all.take(i + 1).last() == tasks@[i as int]@);
        if str_eq(tasks[i].as_str(), current) {
            listing.append("* ");
            listing.append(tasks[i].as_str());
            listing.append(" (current)\n");
            assert(listing@ =~= head + (before + ("* "@ + tasks@[i as int]@ + " (current)\n"@)));
        } else {
            listing.append("  ");
            listing.append(tasks[i].as_str());
            listing.append("\n");
            assert(listing@ =~= head + (before + ("  "@ + tasks@[i as int]@ + "\n"@)));
        }
        i += 1;
    }
    assert(views(tasks@).take(i as int) =~= views(tasks@));
    listing.append("\n");
    listing
}

fn text3(a: &str, b: &str, c: &str) -> (text: String)
    ensures
        text@ == a@ + b@ + c@,
{
    let mut text = String::from_str(a);
    text.append(b);
    text.append(c);
    text
}

fn text5(a: &str, b: &str, c: &str, d: &str, e: &str) -> (text: String)
    ensures
        text@ == a@ + b@ + c@ + d@ + e@,
{
    let mut text = text3(a, b, c);
    text.append(d);
    text.append(e);
    text
}

fn one(notice: String) -> (notices: Vec<String>)
    ensures
        views(notices@) == seq![notice@],
{
    let mut notices: Vec<String> = Vec::new();
    notices.push(notice);
    assert(views(notices@) =~= seq![notice@]);
    notices
}

fn restoring_steps(notices: Vec<String>) -> (steps: Vec<SessionAction>)
    ensures
        step_views(steps@) == restoring(views(notices@)),
{
    let mut steps: Vec<SessionAction> = Vec::new();
    let mut i: usize = 0;
    while i < notices.len()
        invariant
            i <= notices.len(),
            steps.len() == i,
            forall|k: int|
                0 <= k < i ==> (#[trigger] steps@[k])@ == SessionActionView::Output(notices@[k]@),
        decreases notices.len() - i,
    {
        steps.push(SessionAction::Output(notices[i].clone()));
        i += 1;
    }
    steps.push(SessionAction::Input("\r".to_owned()));
    steps.push(SessionAction::Next);
    assert(step_views(steps@) =~= restoring(views(notices@)));
    steps
}

fn is_closing_step(step: &SessionAction) -> (closing: bool)
    ensures
        closing == step@.is_closing(),
{
    match step {
        SessionAction::Next | SessionAction::Stop | SessionAction::Fail(_) => true,
        _ => false,
    }
}

fn is_plain_step(step: &SessionAction) -> (plain: bool)
    ensures
        plain == step@.is_plain(),
{
    match step {
        SessionAction::Notify(_) | SessionAction::Output(_) | SessionAction::Input(_)
        | SessionAction::Launch(_) => true,
        other => is_closing_step(other),
    }
}

fn steps_make_reply(steps: &Vec<SessionAction>) -> (reply: bool)
    ensures
        reply == is_reply(step_views(steps@)),
{
    let n = steps.len();
    if n == 0 {
        return false;
    }
    assert(step_views(steps@).last() == steps@[n - 1]@);
    if !is_closing_step(&steps[n - 1]) {
        return false;
    }
    let mut i: usize = 0;
    while i < n - 1
        invariant
            i <= n - 1,
            n == steps.len(),
            forall|k: int|
                0 <= k < i ==> (#[trigger] step_views(steps@)[k]).is_plain() && !step_views(
                    steps@,
                )[k].is_closing(),
        decreases n - 1 - i,
    {
        assert(step_views(steps@)[i as int] == steps@[i as int]@);
        if !is_plain_step(&steps[i]) || is_closing_step(&steps[i]) {
            return false;
        }
        i += 1;
    }
    true
}

/// Manages a grill session: what the driver of the session does next, step by
/// step.
pub struct Session {
    environment: Environment,
    current_task: String,
    target: String,
    flow: Flow,
    pending: Vec<SessionAction>,
    switch: ContextSwitch,
    running: bool,
    cli_handler: Option<CliHandler>,
}

impl View for Session {
    type V = SessionState;

    closed spec fn view(&self) -> SessionState {
        SessionState {
            current_task: self.current_task@,
            target: self.target@,
            flow: self.flow,
            pending: step_views(self.pending@),
            switch: self.switch@,
            running: self.running,
            handler: match self.cli_handler {
                Some(handler) => Some(handler@),
                None => None,
            },
        }
    }
}

impl Session {
    /// Create a new session
    pub fn new(environment: Environment) -> (session: Session)
        ensures
            session@ == SessionState::initial(),
            session@.wf(),
            session.environment_spec() == environment,
    {
        let session = Session {
            environment,
            current_task: String::new(),
            target: String::new(),
            flow: Flow::NotStarted,
            pending: Vec::new(),
            switch: ContextSwitch::ended(),
            running: false,
            cli_handler: None,
        };
        assert(step_views(session.pending@) =~= Seq::empty());
        session
    }

    /// The environment of the session.
    pub closed spec fn environment_spec(&self) -> Environment {
        self.environment
    }

    /// The environment of the session.
    pub fn environment(&self) -> (environment: &Environment)
        ensures
            *environment == self.environment_spec(),
    {
        &self.environment
    }

    /// Check if the session is running
    pub fn is_running(&self) -> (running: bool)
        ensures
            running == self@.running,
    {
        self.running
    }

    /// Where the session stands.
    pub fn flow(&self) -> (flow: Flow)
        ensures
            flow == self@.flow,
    {
        self.flow
    }

    /// The task that the child works on.
    pub fn current_task(&self) -> (task: &str)
        ensures
            task@ == self@.current_task,
    {
        self.current_task.as_str()
    }

    /// The task that the command under way is about.
    pub fn target(&self) -> (task: &str)
        ensures
            task@ == self@.target,
    {
        self.target.as_str()
    }

    /// The adapter of the child, once the command that starts it is known.
    pub fn cli_handler(&self) -> (handler: Option<&CliHandler>)
        ensures
            match handler {
                Some(handler) => self@.handler == Some(handler@),
                None => self@.handler is None,
            },
    {
        match &self.cli_handler {
            Some(handler) => Some(handler),
            None => None,
        }
    }

    /// Whether the parts of the session fit together.
    pub fn is_valid(&self) -> (valid: bool)
        ensures
            valid == self@.wf(),
    {
        let replying = match self.flow {
            Flow::Replying => true,
            _ => false,
        };
        if replying {
            if !steps_make_reply(&self.pending) {
                return false;
            }
        } else if self.pending.len() != 0 {
            return false;
        }
        let serves = match self.flow {
            Flow::Idle | Flow::Switching | Flow::Persisting { .. } | Flow::Listing
            | Flow::Creating | Flow::Deleting => true,
            Flow::TaskDir { starting } | Flow::TaskConfig { starting } | Flow::GlobalConfig {
                starting,
            } => !starting,
            Flow::Replying => {
                assert(step_views(self.pending@).last() == self.pending@[self.pending.len() - 1]@);
                match &self.pending[self.pending.len() - 1] {
                    SessionAction::Next => true,
                    _ => false,
                }
            },
            _ => false,
        };
        if serves && self.cli_handler.is_none() {
            return false;
        }
        match self.flow {
            Flow::Switching => self.switch.is_valid() && !self.switch.is_finished(),
            _ => true,
        }
    }

    /// Whether `event` is a report of the kind that the session waits for.
    pub fn accepts(&self, event: &SessionEvent) -> (accepted: bool)
        ensures
            accepted == self@.accepts(event@),
    {
        match self.flow {
            Flow::Replying => match event {
                SessionEvent::Ack => true,
                _ => false,
            },
            Flow::CurrentTask | Flow::TaskDir { .. } => match event {
                SessionEvent::Text(_) => true,
                _ => false,
            },
            Flow::TaskConfig { .. } => match event {
                SessionEvent::TaskConfig(_) => true,
                _ => false,
            },
            Flow::GlobalConfig { .. } => match event {
                SessionEvent::GlobalConfig(_) => true,
                _ => false,
            },
            Flow::Switching => match event {
                SessionEvent::Ack => self.switch.accepts(&SwitchEvent::Ack),
                SessionEvent::Sent(ok) => self.switch.accepts(&SwitchEvent::Sent(*ok)),
                SessionEvent::Loaded(_) => self.switch.awaits_file(),
                _ => false,
            },
            Flow::Persisting { .. } | Flow::Creating | Flow::Deleting => match event {
                SessionEvent::Changed(_) => true,
                _ => false,
            },
            Flow::Listing => match event {
                SessionEvent::Tasks(_) => true,
                _ => false,
            },
            _ => false,
        }
    }

    fn reply(&mut self, steps: Vec<SessionAction>) -> (action: SessionAction)
        requires
            steps.len() > 0,
        ensures
            (final(self)@, action@) == old(self)@.reply(step_views(steps@)),
            final(self).environment_spec() == old(self).environment_spec(),
    {
        let mut steps = steps;
        let ghost all = step_views(steps@);
        let action = steps.remove(0);
        assert(step_views(steps@) =~= all.skip(1));
        match action {
            SessionAction::Next => {
                self.flow = Flow::Idle;
            },
            SessionAction::Stop => {
                self.flow = Flow::Stopped;
                self.running = false;
            },
            SessionAction::Fail(_) => {
                self.flow = Flow::Failed;
            },
            _ => {
                self.flow = Flow::Replying;
            },
        }
        self.pending = steps;
        action
    }

    fn find(&mut self, name: String, starting: bool) -> (action: SessionAction)
        ensures
            (final(self)@, action@) == old(self)@.find(name@, starting),
            final(self).environment_spec() == old(self).environment_spec(),
    {
        let action = SessionAction::FindTask(name.clone());
        self.target = name;
        self.flow = Flow::TaskDir { starting };
        action
    }

    /// Start the session on the task `task_name`, or on the current task where
    /// none is named.
    pub fn start(&mut self, task_name: Option<String>) -> (action: SessionAction)
        requires
            old(self)@.wf(),
            old(self)@.flow is NotStarted,
        ensures
            final(self)@.wf(),
            (final(self)@, action@) == old(self)@.start(
                match task_name {
                    Some(name) => Some(name@),
                    None => None,
                },
            ),
            final(self).environment_spec() == old(self).environment_spec(),
    {
        self.running = true;
        match task_name {
            Some(name) => {
                self.current_task = name.clone();
                self.find(name, true)
            },
            None => {
                self.flow = Flow::CurrentTask;
                SessionAction::CurrentTask
            },
        }
    }

    fn unresolved(&mut self, starting: bool, e: EnvError, notice: String) -> (action: SessionAction)
        requires
            old(self)@.wf(),
            !starting ==> old(self)@.handler is Some,
        ensures
            final(self)@.wf(),
            (final(self)@, action@) == old(self)@.unresolved(starting, e@, notice@),
            final(self).environment_spec() == old(self).environment_spec(),
    {
        proof {
            lemma_unresolved(self@, starting, e@, notice@);
        }
        if starting {
            let mut steps: Vec<SessionAction> = Vec::new();
            steps.push(SessionAction::Fail(e));
            assert(step_views(steps@) =~= seq![SessionActionView::Fail(e@)]);
            self.reply(steps)
        } else {
            self.reply(restoring_steps(one(notice)))
        }
    }

    fn resolved(&mut self, starting: bool, cli: String) -> (action: SessionAction)
        requires
            old(self)@.wf(),
            old(self)@.pending.len() == 0,
            !starting ==> old(self)@.handler is Some,
        ensures
            final(self)@.wf(),
            (final(self)@, action@) == old(self)@.resolved(starting, cli@),
            final(self).environment_spec() == old(self).environment_spec(),
    {
        proof {
            lemma_resolved(self@, starting, cli@);
        }
        if starting {
            let handler = CliHandlerFactory::create_handler(cli);
            let mut steps: Vec<SessionAction> = Vec::new();
            steps.push(SessionAction::Launch(handler.get_command().to_owned()));
            let banner = handler.on_start(self.current_task.as_str());
            let mut i: usize = 0;
            while i < banner.len()
                invariant
                    i <= banner.len(),
                    steps.len() == i + 1,
                    steps@[0]@ == SessionActionView::Launch(handler@.command()),
                    forall|k: int|
                        0 <= k < i ==> (#[trigger] steps@[k + 1])@ == SessionActionView::Notify(
                            banner@[k]@,
                        ),
                decreases banner.len() - i,
            {
                steps.push(SessionAction::Notify(banner[i].clone()));
                i += 1;
            }
            steps.push(SessionAction::Next);
            proof {
                let greeting = handler@.banner(self@.current_task);
                assert(views(banner@) == greeting);
                assert forall|k: int| 0 <= k < banner.len() implies (#[trigger] steps@[k + 1])@
                    == SessionActionView::Notify(greeting[k]) by {
                    assert(views(banner@)[k] == banner@[k]@);
                }
                let notes = greeting.map_values(|text: Seq<char>| SessionActionView::Notify(text));
                let all = seq![SessionActionView::Launch(handler@.command())] + notes + seq![
                    SessionActionView::Next,
                ];
                assert(all.len() == steps.len());
                assert(step_views(steps@)[0] == all[0]);
                assert(step_views(steps@)[steps.len() - 1] == all[steps.len() - 1]);
                assert forall|k: int| 0 <= k < steps.len() implies step_views(steps@)[k]
                    == all[k] by {
                    if 1 <= k < steps.len() - 1 {
                        assert(steps@[(k - 1) + 1]@ == SessionActionView::Notify(greeting[k - 1]));
                        assert(all[k] == notes[k - 1]);
                    }
                }
            }
            assert(step_views(steps@) =~= seq![SessionActionView::Launch(handler@.command())]
                + handler@.banner(self@.current_task).map_values(
                |text: Seq<char>| SessionActionView::Notify(text),
            ) + seq![SessionActionView::Next]);
            self.cli_handler = Some(handler);
            self.reply(steps)
        } else {
            let able = match &self.cli_handler {
                Some(handler) => handler.can_handle_command(cli.as_str()),
                None => false,
            };
            if able {
                self.switch = ContextSwitch::new(self.target.as_str());
                self.flow = Flow::Switching;
                SessionAction::Output(
                    text3("\nSwitching to task: ", self.target.as_str(), " (seamless switch)\n"),
                )
            } else {
                self.flow = Flow::Persisting { seamless: false };
                SessionAction::SetCurrentTask(self.target.clone())
            }
        }
    }

    /// Dispatches a command: offers it to the child's adapter first, and handles
    /// it here where the adapter does not.
    pub fn dispatch(&mut self, command: Command) -> (action: SessionAction)
        requires
            old(self)@.wf(),
            old(self)@.flow is Idle,
        ensures
            final(self)@.wf(),
            (final(self)@, action@) == old(self)@.dispatch(command@, Ok(false)),
            final(self).environment_spec() == old(self).environment_spec(),
    {
        let claimed = match &self.cli_handler {
            Some(handler) => handler.process_command(&command, self.current_task.as_str()),
            None => Ok(false),
        };
        self.dispatch_offered(command, claimed)
    }

    /// Dispatches a command that the child's adapter was offered; `claimed` is
    /// the adapter's answer.
    pub fn dispatch_offered(&mut self, command: Command, claimed: Result<bool, HandlerError>) -> (action:
        SessionAction)
        requires
            old(self)@.wf(),
            old(self)@.flow is Idle,
        ensures
            final(self)@.wf(),
            (final(self)@, action@) == old(self)@.dispatch(command@, claim_view(claimed)),
            final(self).environment_spec() == old(self).environment_spec(),
    {
        proof {
            law_dispatch_keeps_wf(self@, command@, claim_view(claimed));
        }
        match claimed {
            Ok(true) => {
                let mut steps: Vec<SessionAction> = Vec::new();
                steps.push(SessionAction::Next);
                assert(step_views(steps@) =~= seq![SessionActionView::Next]);
                self.reply(steps)
            },
            Err(e) => {
                let mut steps: Vec<SessionAction> = Vec::new();
                steps.push(
                    SessionAction::Output(
                        text3("\nError processing command: ", e.message.as_str(), "\n\n"),
                    ),
                );
                steps.push(SessionAction::Next);
                assert(step_views(steps@) =~= seq![
                    SessionActionView::Output(command_error_notice(e.message@)),
                    SessionActionView::Next,
                ]);
                self.reply(steps)
            },
            Ok(false) => match command {
                Command::Quit => {
                    let mut steps: Vec<SessionAction> = Vec::new();
                    steps.push(SessionAction::Output("\nExiting grill...\n".to_owned()));
                    steps.push(SessionAction::Stop);
                    assert(step_views(steps@) =~= seq![
                        SessionActionView::Output(exit_notice()),
                        SessionActionView::Stop,
                    ]);
                    self.reply(steps)
                },
                Command::ListTasks => {
                    self.flow = Flow::Listing;
                    SessionAction::ListTasks
                },
                Command::CurrentTask => {
                    let notice = text3("\nCurrent task: ", self.current_task.as_str(), "\n\n");
                    self.reply(restoring_steps(one(notice)))
                },
                Command::SwitchTask(name) => self.find(name, false),
                Command::CreateTask(name) => {
                    let action = SessionAction::CreateTask(name.clone());
                    self.target = name;
                    self.flow = Flow::Creating;
                    action
                },
                Command::DeleteTask(name) => {
                    let action = SessionAction::DeleteTask(name.clone());
                    self.target = name;
                    self.flow = Flow::Deleting;
                    action
                },
                Command::Help => {
                    let mut help = get_help_text();
                    match &self.cli_handler {
                        Some(handler) => {
                            let more = handler.get_help_text();
                            help.append(more.as_str());
                        },
                        None => {},
                    }
                    let mut steps: Vec<SessionAction> = Vec::new();
                    steps.push(SessionAction::Output(help));
                    steps.push(SessionAction::Input("/help\r".to_owned()));
                    steps.push(SessionAction::Next);
                    assert(step_views(steps@) =~= seq![
                        SessionActionView::Output(help_text() + self@.handler->0.help()),
                        SessionActionView::Input(native_help()),
                        SessionActionView::Next,
                    ]);
                    self.reply(steps)
                },
            },
        }
    }

    fn switching(&mut self, event: SessionEvent) -> (action: SessionAction)
        requires
            old(self)@.wf(),
            old(self)@.flow is Switching,
            old(self)@.accepts(event@),
        ensures
            final(self)@.wf(),
            (final(self)@, action@) == old(self)@.switching(event@),
            final(self).environment_spec() == old(self).environment_spec(),
    {
        proof {
            lemma_switching(self@, event@);
        }
        let report = match event {
            SessionEvent::Sent(ok) => SwitchEvent::Sent(ok),
            SessionEvent::Loaded(read) => SwitchEvent::Loaded(read),
            _ => SwitchEvent::Ack,
        };
        match self.switch.next(report) {
            SwitchAction::Done => {
                self.current_task = self.target.clone();
                self.flow = Flow::Persisting { seamless: true };
                SessionAction::SetCurrentTask(self.target.clone())
            },
            SwitchAction::Abort(why) => {
                let notice = text3("Error switching task context: ", why.as_str(), "\n\n");
                self.reply(restoring_steps(one(notice)))
            },
            other => SessionAction::Switch(other),
        }
    }

    fn persisted(&mut self, seamless: bool, done: Result<(), EnvError>) -> (action: SessionAction)
        requires
            old(self)@.wf(),
            old(self)@.handler is Some,
        ensures
            final(self)@.wf(),
            final(self).environment_spec() == old(self).environment_spec(),
            (final(self)@, action@) == old(self)@.reply(
                restoring(
                    persist_notices(
                        old(self)@.target,
                        seamless,
                        match done {
                            Ok(_) => Ok(()),
                            Err(e) => Err(e@),
                        },
                    ),
                ),
            ),
    {
        let mut notices: Vec<String> = Vec::new();
        match done {
            Ok(_) => {
                if !seamless {
                    notices.push(text3("\nSwitched to task: ", self.target.as_str(), "\n"));
                    notices.push(
                        "Task uses a different CLI. Please restart grill to apply the change.\n\n".to_owned(),
                    );
                    assert(views(notices@) =~= seq![switched_notice(self@.target), restart_notice()]);
                } else {
                    assert(views(notices@) =~= Seq::<Seq<char>>::empty());
                }
            },
            Err(e) => {
                let why = e.message();
                if seamless {
                    notices.push(
                        text3("Warning: Failed to update current task file: ", why.as_str(), "\n"),
                    );
                    assert(views(notices@) =~= seq![persist_warning(e@.message())]);
                } else {
                    notices.push(
                        text5(
                            "\nError switching to task '",
                            self.target.as_str(),
                            "': ",
                            why.as_str(),
                            "\n\n",
                        ),
                    );
                    assert(views(notices@) =~= seq![
                        switch_error_notice(self@.target, e@.message()),
                    ]);
                }
            },
        }
        proof {
            lemma_restoring(self@, views(notices@));
        }
        self.reply(restoring_steps(notices))
    }

    fn restore_after(&mut self, notice: String) -> (action: SessionAction)
        requires
            old(self)@.wf(),
            old(self)@.handler is Some,
        ensures
            final(self)@.wf(),
            final(self).environment_spec() == old(self).environment_spec(),
            (final(self)@, action@) == old(self)@.reply(restoring(seq![notice@])),
    {
        proof {
            lemma_restoring(self@, seq![notice@]);
        }
        self.reply(restoring_steps(one(notice)))
    }

    /// Takes the driver's report on the last step and hands out the next one.
    pub fn step(&mut self, event: SessionEvent) -> (action: SessionAction)
        requires
            old(self)@.wf(),
            old(self)@.accepts(event@),
        ensures
            final(self)@.wf(),
            (final(self)@, action@) == old(self)@.step(event@),
            final(self).environment_spec() == old(self).environment_spec(),
    {
        proof {
            law_step_keeps_wf(self@, event@);
        }
        match self.flow {
            Flow::Replying => {
                let mut steps: Vec<SessionAction> = Vec::new();
                let ghost before = step_views(self.pending@);
                steps.append(&mut self.pending);
                assert(step_views(steps@) =~= before);
                self.reply(steps)
            },
            Flow::CurrentTask => match event {
                SessionEvent::Text(Ok(name)) => {
                    self.current_task = name.clone();
                    self.find(name, true)
                },
                SessionEvent::Text(Err(e)) => {
                    let mut steps: Vec<SessionAction> = Vec::new();
                    steps.push(SessionAction::Fail(e));
                    assert(step_views(steps@) =~= seq![SessionActionView::Fail(e@)]);
                    self.reply(steps)
                },
                _ => SessionAction::Next,
            },
            Flow::TaskDir { starting } => match event {
                SessionEvent::Text(Ok(_)) => {
                    self.flow = Flow::TaskConfig { starting };
                    SessionAction::LoadTaskConfig(self.target.clone())
                },
                SessionEvent::Text(Err(e)) => {
                    let why = e.message();
                    let notice = text5(
                        "\nError switching to task '",
                        self.target.as_str(),
                        "': ",
                        why.as_str(),
                        "\n\n",
                    );
                    self.unresolved(starting, e, notice)
                },
                _ => SessionAction::Next,
            },
            Flow::TaskConfig { starting } => match event {
                SessionEvent::TaskConfig(Ok(Some(TaskConfig { cli: Some(cli), .. }))) => {
                    self.resolved(starting, cli)
                },
                SessionEvent::TaskConfig(Ok(_)) => {
                    self.flow = Flow::GlobalConfig { starting };
                    SessionAction::LoadGlobalConfig
                },
                SessionEvent::TaskConfig(Err(e)) => {
                    let why = e.message();
                    let notice = text5(
                        "\nError getting CLI command for task '",
                        self.target.as_str(),
                        "': ",
                        why.as_str(),
                        "\n\n",
                    );
                    self.unresolved(starting, e, notice)
                },
                _ => SessionAction::Next,
            },
            Flow::GlobalConfig { starting } => match event {
                SessionEvent::GlobalConfig(Ok(config)) => {
                    self.resolved(starting, config.default_cli)
                },
                SessionEvent::GlobalConfig(Err(e)) => {
                    let why = e.message();
                    let notice = text5(
                        "\nError getting CLI command for task '",
                        self.target.as_str(),
                        "': ",
                        why.as_str(),
                        "\n\n",
                    );
                    self.unresolved(starting, e, notice)
                },
                _ => SessionAction::Next,
            },
            Flow::Switching => self.switching(event),
            Flow::Persisting { seamless } => match event {
                SessionEvent::Changed(done) => self.persisted(seamless, done),
                _ => SessionAction::Next,
            },
            Flow::Listing => match event {
                SessionEvent::Tasks(Ok(tasks)) => {
                    let listing = format_task_list(&tasks, self.current_task.as_str());
                    self.restore_after(listing)
                },
                SessionEvent::Tasks(Err(e)) => {
                    let why = e.message();
                    self.restore_after(text3("\nError listing tasks: ", why.as_str(), "\n"))
                },
                _ => SessionAction::Next,
            },
            Flow::Creating => match event {
                SessionEvent::Changed(Ok(_)) => {
                    let notice = text3("\nCreated task: ", self.target.as_str(), "\n\n");
                    self.restore_after(notice)
                },
                SessionEvent::Changed(Err(e)) => {
                    let why = e.message();
                    let notice = text5(
                        "\nError creating task '",
                        self.target.as_str(),
                        "': ",
                        why.as_str(),
                        "\n\n",
                    );
                    self.restore_after(notice)
                },
                _ => SessionAction::Next,
            },
            Flow::Deleting => match event {
                SessionEvent::Changed(Ok(_)) => {
                    let notice = text3("\nDeleted task: ", self.target.as_str(), "\n\n");
                    self.restore_after(notice)
                },
                SessionEvent::Changed(Err(e)) => {
                    let why = e.message();
                    let notice = text5(
                        "\nError deleting task '",
                        self.target.as_str(),
                        "': ",
                        why.as_str(),
                        "\n\n",
                    );
                    self.restore_after(notice)
                },
                _ => SessionAction::Next,
            },
            _ => SessionAction::Next,
        }
    }
}

/// What of the user's input goes to the child once the adapter has seen it:
/// what the adapter keeps; nothing where it drops the input; and the input as
/// it came where the adapter fails.
pub open spec fn after_input_intercept_spec(
    input: String,
    kept: Result<Option<String>, HandlerError>,
) -> Option<String> {
    match kept {
        Ok(kept) => kept,
        Err(_) => Some(input),
    }
}

/// What of the user's input goes to the child once the adapter has seen it.
pub fn after_input_intercept(input: String, kept: Result<Option<String>, HandlerError>) -> (sent:
    Option<String>)
    ensures
        sent == after_input_intercept_spec(input, kept),
{
    match kept {
        Ok(kept) => kept,
        Err(_) => Some(input),
    }
}

/// What of the user's input goes to the child: the adapter sees it, and keeps
/// all of it.
pub fn forward_input(input: String, handler: &CliHandler) -> (sent: Option<String>)
    ensures
        sent == Some(input),
{
    let kept = handler.intercept_input(input.clone());
    after_input_intercept(input, kept)
}

} // verus!
