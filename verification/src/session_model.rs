//! The session as a state machine: its states, the step that each report
//! leads to, and what holds of every step.

use crate::cli_handler::{HandlerError, HandlerView};
use crate::config::{resolved_cli, ConfigView, TaskConfigView};
use crate::context_switch::{
    law_switch_step_keeps_wf, lemma_begin_wf, SwitchActionView, SwitchEventView, SwitchState,
};
use crate::environment::EnvErrorView;
use crate::io::CommandView;
use crate::session::{help_text, task_listing, Flow, SessionActionView, SessionEventView};
use vstd::prelude::*;

verus! {

/// The notice that the session ends.
pub open spec fn exit_notice() -> Seq<char> {
    "\nExiting grill...\n"@
}

/// The keystroke that makes the child draw its prompt again.
pub open spec fn prompt_restore() -> Seq<char> {
    "\r"@
}

/// The request for the child's own help.
pub open spec fn native_help() -> Seq<char> {
    "/help\r"@
}

/// The notice that names the task that the child works on.
pub open spec fn current_task_notice(task: Seq<char>) -> Seq<char> {
    "\nCurrent task: "@ + task + "\n\n"@
}

/// The notice that the child's adapter failed on a command.
pub open spec fn command_error_notice(why: Seq<char>) -> Seq<char> {
    "\nError processing command: "@ + why + "\n\n"@
}

/// The notice that the tasks could not be listed.
pub open spec fn list_error_notice(why: Seq<char>) -> Seq<char> {
    "\nError listing tasks: "@ + why + "\n"@
}

/// The notice that a task was created.
pub open spec fn created_notice(task: Seq<char>) -> Seq<char> {
    "\nCreated task: "@ + task + "\n\n"@
}

/// The notice that a task could not be created.
pub open spec fn create_error_notice(task: Seq<char>, why: Seq<char>) -> Seq<char> {
    "\nError creating task '"@ + task + "': "@ + why + "\n\n"@
}

/// The notice that a task was deleted.
pub open spec fn deleted_notice(task: Seq<char>) -> Seq<char> {
    "\nDeleted task: "@ + task + "\n\n"@
}

/// The notice that a task could not be deleted.
pub open spec fn delete_error_notice(task: Seq<char>, why: Seq<char>) -> Seq<char> {
    "\nError deleting task '"@ + task + "': "@ + why + "\n\n"@
}

/// The notice that the session could not switch to a task.
pub open spec fn switch_error_notice(task: Seq<char>, why: Seq<char>) -> Seq<char> {
    "\nError switching to task '"@ + task + "': "@ + why + "\n\n"@
}

/// The notice that the command that starts the child of a task could not be
/// found out.
pub open spec fn cli_error_notice(task: Seq<char>, why: Seq<char>) -> Seq<char> {
    "\nError getting CLI command for task '"@ + task + "': "@ + why + "\n\n"@
}

/// The notice that the running child is kept for the new task.
pub open spec fn seamless_notice(task: Seq<char>) -> Seq<char> {
    "\nSwitching to task: "@ + task + " (seamless switch)\n"@
}

/// The notice that the context switch failed.
pub open spec fn context_error_notice(why: Seq<char>) -> Seq<char> {
    "Error switching task context: "@ + why + "\n\n"@
}

/// The warning that the new current task could not be recorded.
pub open spec fn persist_warning(why: Seq<char>) -> Seq<char> {
    "Warning: Failed to update current task file: "@ + why + "\n"@
}

/// The notice that a task was recorded as the current one.
pub open spec fn switched_notice(task: Seq<char>) -> Seq<char> {
    "\nSwitched to task: "@ + task + "\n"@
}

/// The notice that the new task needs another child.
pub open spec fn restart_notice() -> Seq<char> {
    "Task uses a different CLI. Please restart grill to apply the change.\n\n"@
}

/// The steps that end the handling of a command after `notices`: each notice
/// goes to the output, then the child is made to draw its prompt again.
pub open spec fn restoring(notices: Seq<Seq<char>>) -> Seq<SessionActionView> {
    notices.map_values(|text: Seq<char>| SessionActionView::Output(text)) + seq![
        SessionActionView::Input(prompt_restore()),
        SessionActionView::Next,
    ]
}

/// `steps` is not empty, its last step is closing and no other is, and each is
/// done without a report.
pub open spec fn is_reply(steps: Seq<SessionActionView>) -> bool {
    &&& steps.len() > 0
    &&& steps.last().is_closing()
    &&& forall|i: int| 0 <= i < steps.len() ==> (#[trigger] steps[i]).is_plain()
    &&& forall|i: int| 0 <= i < steps.len() - 1 ==> !(#[trigger] steps[i]).is_closing()
}

/// The notices that tell what came of recording the task `target` as the
/// current one: after a switch in place, nothing, or a warning where it failed;
/// without one, that the task is recorded and a restart is needed, or why it
/// could not be recorded.
pub open spec fn persist_notices(
    target: Seq<char>,
    seamless: bool,
    done: Result<(), EnvErrorView>,
) -> Seq<Seq<char>> {
    match done {
        Ok(_) => if seamless {
            Seq::empty()
        } else {
            seq![switched_notice(target), restart_notice()]
        },
        Err(e) => if seamless {
            seq![persist_warning(e.message())]
        } else {
            seq![switch_error_notice(target, e.message())]
        },
    }
}

/// The state of a session.
pub struct SessionState {
    /// The task that the child works on.
    pub current_task: Seq<char>,
    /// The task that the command under way is about.
    pub target: Seq<char>,
    pub flow: Flow,
    /// The steps of the reply that are still to be done.
    pub pending: Seq<SessionActionView>,
    /// The context switch under way, if any.
    pub switch: SwitchState,
    /// Whether the session runs.
    pub running: bool,
    /// The adapter of the child, once the command that starts it is known.
    pub handler: Option<HandlerView>,
}

impl SessionState {
    /// The state of a session that has not been started.
    pub open spec fn initial() -> SessionState {
        SessionState {
            current_task: Seq::empty(),
            target: Seq::empty(),
            flow: Flow::NotStarted,
            pending: Seq::empty(),
            switch: SwitchState::ended(),
            running: false,
            handler: None,
        }
    }

    /// Whether the session waits for something that comes only after the child
    /// was started.
    pub open spec fn serves(self) -> bool {
        match self.flow {
            Flow::Idle | Flow::Switching | Flow::Persisting { .. } | Flow::Listing
            | Flow::Creating | Flow::Deleting => true,
            Flow::TaskDir { starting } | Flow::TaskConfig { starting } | Flow::GlobalConfig {
                starting,
            } => !starting,
            Flow::Replying => self.pending.last() is Next,
            _ => false,
        }
    }

    /// The parts of the state fit together: steps are pending only in a reply,
    /// and they make one; a context switch under way is in order and has not
    /// ended; and the child's adapter is known wherever the child was started.
    pub open spec fn wf(self) -> bool {
        &&& self.flow is Replying ==> is_reply(self.pending)
        &&& !(self.flow is Replying) ==> self.pending.len() == 0
        &&& self.flow is Switching ==> self.switch.wf() && !(self.switch.stage is Finished)
        &&& self.serves() ==> self.handler is Some
    }

    /// Whether `event` is a report of the kind that the session waits for.
    pub open spec fn accepts(self, event: SessionEventView) -> bool {
        match self.flow {
            Flow::Replying => event is Ack,
            Flow::CurrentTask | Flow::TaskDir { .. } => event is Text,
            Flow::TaskConfig { .. } => event is TaskConfig,
            Flow::GlobalConfig { .. } => event is GlobalConfig,
            Flow::Switching => (event is Ack || event is Sent || event is Loaded)
                && self.switch.accepts(switch_event(event)),
            Flow::Persisting { .. } | Flow::Creating | Flow::Deleting => event is Changed,
            Flow::Listing => event is Tasks,
            _ => false,
        }
    }

    /// Hands out the first of `steps` and keeps the rest pending. A closing step
    /// ends the reply: the session then waits for the next command, has ended,
    /// or has failed to start.
    pub open spec fn reply(self, steps: Seq<SessionActionView>) -> (
        SessionState,
        SessionActionView,
    ) {
        let action = steps.first();
        (
            SessionState {
                flow: match action {
                    SessionActionView::Next => Flow::Idle,
                    SessionActionView::Stop => Flow::Stopped,
                    SessionActionView::Fail(_) => Flow::Failed,
                    _ => Flow::Replying,
                },
                pending: steps.skip(1),
                running: self.running && !(action is Stop),
                ..self
            },
            action,
        )
    }

    /// Looks for the directory of the task `name`.
    pub open spec fn find(self, name: Seq<char>, starting: bool) -> (
        SessionState,
        SessionActionView,
    ) {
        (
            SessionState { target: name, flow: Flow::TaskDir { starting }, ..self },
            SessionActionView::FindTask(name),
        )
    }

    /// Starts the session on the task `task_name`, or on the current task where
    /// none is named.
    pub open spec fn start(self, task_name: Option<Seq<char>>) -> (
        SessionState,
        SessionActionView,
    ) {
        let s = SessionState { running: true, ..self };
        match task_name {
            Some(name) => (SessionState { current_task: name, ..s }).find(name, true),
            None => (SessionState { flow: Flow::CurrentTask, ..s }, SessionActionView::CurrentTask),
        }
    }

    /// What follows a failure to find out the command that starts the child of
    /// the task: at the start the session fails; for a switch the user is told,
    /// with `notice` as the text.
    pub open spec fn unresolved(self, starting: bool, e: EnvErrorView, notice: Seq<char>) -> (
        SessionState,
        SessionActionView,
    ) {
        if starting {
            self.reply(seq![SessionActionView::Fail(e)])
        } else {
            self.reply(restoring(seq![notice]))
        }
    }

    /// What follows once the command that starts the child of the task is known.
    ///
    /// At the start the child is launched and the user is greeted. For a switch,
    /// the running child is kept where its adapter can serve that command, and
    /// its context is switched; otherwise the task is recorded as the current
    /// one, with no step of a context switch.
    pub open spec fn resolved(self, starting: bool, cli: Seq<char>) -> (
        SessionState,
        SessionActionView,
    ) {
        if starting {
            let handler = HandlerView::of_command(cli);
            (SessionState { handler: Some(handler), ..self }).reply(
                seq![SessionActionView::Launch(handler.command())] + handler.banner(
                    self.current_task,
                ).map_values(|text: Seq<char>| SessionActionView::Notify(text)) + seq![
                    SessionActionView::Next,
                ],
            )
        } else if self.handler->0.can_handle(cli) {
            (
                SessionState {
                    flow: Flow::Switching,
                    switch: SwitchState::begin(self.target),
                    ..self
                },
                SessionActionView::Output(seamless_notice(self.target)),
            )
        } else {
            (
                SessionState { flow: Flow::Persisting { seamless: false }, ..self },
                SessionActionView::SetCurrentTask(self.target),
            )
        }
    }

    /// What follows a command that the child's adapter was offered. `claimed` is
    /// the adapter's answer: whether it has handled the command, or why it
    /// failed.
    ///
    /// A command that the adapter has handled, or failed on, is done with. Any
    /// other is handled here.
    pub open spec fn dispatch(self, command: CommandView, claimed: Result<bool, Seq<char>>) -> (
        SessionState,
        SessionActionView,
    ) {
        match claimed {
            Ok(true) => self.reply(seq![SessionActionView::Next]),
            Err(why) => self.reply(
                seq![SessionActionView::Output(command_error_notice(why)), SessionActionView::Next],
            ),
            Ok(false) => match command {
                CommandView::Quit => self.reply(
                    seq![SessionActionView::Output(exit_notice()), SessionActionView::Stop],
                ),
                CommandView::ListTasks => (
                    SessionState { flow: Flow::Listing, ..self },
                    SessionActionView::ListTasks,
                ),
                CommandView::CurrentTask => self.reply(
                    restoring(seq![current_task_notice(self.current_task)]),
                ),
                CommandView::SwitchTask(name) => self.find(name, false),
                CommandView::CreateTask(name) => (
                    SessionState { target: name, flow: Flow::Creating, ..self },
                    SessionActionView::CreateTask(name),
                ),
                CommandView::DeleteTask(name) => (
                    SessionState { target: name, flow: Flow::Deleting, ..self },
                    SessionActionView::DeleteTask(name),
                ),
                CommandView::Help => self.reply(
                    seq![
                        SessionActionView::Output(help_text() + self.handler->0.help()),
                        SessionActionView::Input(native_help()),
                        SessionActionView::Next,
                    ],
                ),
            },
        }
    }

    /// What follows a step of the context switch under way, from the report on
    /// the step before.
    ///
    /// When the switch has succeeded, the task becomes the one that the child
    /// works on and is recorded as the current one. When it has failed, the user
    /// is told why.
    pub open spec fn switching(self, event: SessionEventView) -> (
        SessionState,
        SessionActionView,
    ) {
        let (switch, action) = self.switch.step(switch_event(event));
        let s = SessionState { switch, ..self };
        match action {
            SwitchActionView::Done => (
                SessionState {
                    current_task: self.target,
                    flow: Flow::Persisting { seamless: true },
                    ..s
                },
                SessionActionView::SetCurrentTask(self.target),
            ),
            SwitchActionView::Abort(why) => s.reply(restoring(seq![context_error_notice(why)])),
            _ => (s, SessionActionView::Switch(action)),
        }
    }

    /// The notices that tell what came of a request to the environment, where
    /// `event` reports on one that the session waits for: on the recording of
    /// the current task, on the list of the tasks, on the creation or the
    /// deletion of a task.
    pub open spec fn outcome(self, event: SessionEventView) -> Option<Seq<Seq<char>>> {
        match (self.flow, event) {
            (Flow::Persisting { seamless }, SessionEventView::Changed(done)) => Some(
                persist_notices(self.target, seamless, done),
            ),
            (Flow::Listing, SessionEventView::Tasks(Ok(tasks))) => Some(
                seq![task_listing(tasks, self.current_task)],
            ),
            (Flow::Listing, SessionEventView::Tasks(Err(e))) => Some(
                seq![list_error_notice(e.message())],
            ),
            (Flow::Creating, SessionEventView::Changed(Ok(_))) => Some(
                seq![created_notice(self.target)],
            ),
            (Flow::Creating, SessionEventView::Changed(Err(e))) => Some(
                seq![create_error_notice(self.target, e.message())],
            ),
            (Flow::Deleting, SessionEventView::Changed(Ok(_))) => Some(
                seq![deleted_notice(self.target)],
            ),
            (Flow::Deleting, SessionEventView::Changed(Err(e))) => Some(
                seq![delete_error_notice(self.target, e.message())],
            ),
            _ => None,
        }
    }

    /// The state after the driver's report, and the next step.
    ///
    /// What came of a request to the environment is told to the user, and the
    /// child is made to draw its prompt again. A report that the session does
    /// not wait for changes nothing.
    pub open spec fn step(self, event: SessionEventView) -> (SessionState, SessionActionView) {
        match self.outcome(event) {
            Some(notices) => self.reply(restoring(notices)),
            None => match (self.flow, event) {
                (Flow::Replying, _) => self.reply(self.pending),
                (Flow::CurrentTask, SessionEventView::Text(Ok(name))) => (SessionState {
                    current_task: name,
                    ..self
                }).find(name, true),
                (Flow::CurrentTask, SessionEventView::Text(Err(e))) => self.reply(
                    seq![SessionActionView::Fail(e)],
                ),
                (Flow::TaskDir { starting }, SessionEventView::Text(Ok(_))) => (
                    SessionState { flow: Flow::TaskConfig { starting }, ..self },
                    SessionActionView::LoadTaskConfig(self.target),
                ),
                (Flow::TaskDir { starting }, SessionEventView::Text(Err(e))) => self.unresolved(
                    starting,
                    e,
                    switch_error_notice(self.target, e.message()),
                ),
                (Flow::TaskConfig { starting }, SessionEventView::TaskConfig(Ok(config))) => {
                    match config {
                        Some(TaskConfigView { cli: Some(cli), .. }) => self.resolved(
                            starting,
                            cli,
                        ),
                        _ => (
                            SessionState { flow: Flow::GlobalConfig { starting }, ..self },
                            SessionActionView::LoadGlobalConfig,
                        ),
                    }
                },
                (Flow::TaskConfig { starting }, SessionEventView::TaskConfig(Err(e))) => {
                    self.unresolved(starting, e, cli_error_notice(self.target, e.message()))
                },
                (Flow::GlobalConfig { starting }, SessionEventView::GlobalConfig(Ok(config))) => {
                    self.resolved(starting, config.default_cli)
                },
                (Flow::GlobalConfig { starting }, SessionEventView::GlobalConfig(Err(e))) => {
                    self.unresolved(starting, e, cli_error_notice(self.target, e.message()))
                },
                (Flow::Switching, _) => self.switching(event),
                _ => (self, SessionActionView::Next),
            },
        }
    }

    /// Whether the reply under way ends the session.
    pub open spec fn will_stop(self) -> bool {
        self.flow is Replying && self.pending.last() is Stop
    }

    /// What a step leaves as it should be: the parts of the new state fit
    /// together, no reply that ends the session has begun, no stop is handed out,
    /// and the running flag is as it was.
    pub open spec fn goes_on(self, next: (SessionState, SessionActionView)) -> bool {
        &&& next.0.wf()
        &&& !next.0.will_stop()
        &&& !(next.1 is Stop)
        &&& next.0.running == self.running
    }

    /// The command that starts the child of the task to switch to, where the
    /// report `event` makes it known: the task's own CLI, or the default CLI of
    /// the global configuration once the task is known to have none.
    pub open spec fn found_out(self, event: SessionEventView) -> Option<Seq<char>> {
        match (self.flow, event) {
            (
                Flow::TaskConfig { starting: false },
                SessionEventView::TaskConfig(Ok(Some(TaskConfigView { cli: Some(cli), .. }))),
            ) => Some(cli),
            (
                Flow::GlobalConfig { starting: false },
                SessionEventView::GlobalConfig(Ok(config)),
            ) => Some(config.default_cli),
            _ => None,
        }
    }
}

/// The adapter's answer to a command that it was offered: whether it has
/// handled the command, or why it failed.
pub open spec fn claim_view(claimed: Result<bool, HandlerError>) -> Result<bool, Seq<char>> {
    match claimed {
        Ok(handled) => Ok(handled),
        Err(e) => Err(e.message@),
    }
}

/// The report on a step of a context switch that a report to the session holds.
pub open spec fn switch_event(event: SessionEventView) -> SwitchEventView {
    match event {
        SessionEventView::Sent(ok) => SwitchEventView::Sent(ok),
        SessionEventView::Loaded(read) => SwitchEventView::Loaded(read),
        _ => SwitchEventView::Ack,
    }
}

/// What handing out the first step of a reply comes to: the parts of the new
/// state fit together; the session will stop exactly where the reply ends with
/// a stop that is still to come; and the running flag is cleared by the stop
/// alone.
pub(crate) proof fn lemma_reply(s: SessionState, steps: Seq<SessionActionView>)
    requires
        is_reply(steps),
        steps.last() is Next ==> s.handler is Some,
    ensures
        s.reply(steps).0.wf(),
        s.reply(steps).1 == steps[0],
        s.reply(steps).0.will_stop() <==> steps.last() is Stop && steps.len() > 1,
        s.reply(steps).1 is Stop <==> steps.last() is Stop && steps.len() == 1,
        s.reply(steps).0.running == (s.running && !(s.reply(steps).1 is Stop)),
{
    let rest = steps.skip(1);
    if rest.len() > 0 {
        assert(rest.last() == steps.last());
        assert(!steps[0].is_closing());
        assert forall|i: int| 0 <= i < rest.len() implies (#[trigger] rest[i]).is_plain() by {
            assert(rest[i] == steps[i + 1]);
        }
        assert forall|i: int| 0 <= i < rest.len() - 1 implies !(#[trigger] rest[i]).is_closing() by {
            assert(rest[i] == steps[i + 1]);
        }
    } else {
        assert(steps[0] == steps.last());
    }
}

/// The steps that end the handling of a command after some notices make a
/// reply, which ends with the wait for the next command.
pub(crate) proof fn lemma_restoring_is_reply(notices: Seq<Seq<char>>)
    ensures
        is_reply(restoring(notices)),
        restoring(notices).last() is Next,
{
    let steps = restoring(notices);
    let outputs = notices.map_values(|text: Seq<char>| SessionActionView::Output(text));
    assert forall|i: int| 0 <= i < steps.len() implies (#[trigger] steps[i]).is_plain() by {
        if i < outputs.len() {
            assert(steps[i] == outputs[i]);
        }
    }
    assert forall|i: int| 0 <= i < steps.len() - 1 implies !(#[trigger] steps[i]).is_closing() by {
        if i < outputs.len() {
            assert(steps[i] == outputs[i]);
        }
    }
}

/// Telling the user something and making the child draw its prompt again goes
/// on.
pub(crate) proof fn lemma_restoring(s: SessionState, notices: Seq<Seq<char>>)
    requires
        s.handler is Some,
    ensures
        s.goes_on(s.reply(restoring(notices))),
{
    lemma_restoring_is_reply(notices);
    lemma_reply(s, restoring(notices));
}

proof fn lemma_launch_is_reply(handler: HandlerView, task: Seq<char>)
    ensures
        is_reply(
            seq![SessionActionView::Launch(handler.command())] + handler.banner(task).map_values(
                |text: Seq<char>| SessionActionView::Notify(text),
            ) + seq![SessionActionView::Next],
        ),
{
    let notes = handler.banner(task).map_values(|text: Seq<char>| SessionActionView::Notify(text));
    let steps = seq![SessionActionView::Launch(handler.command())] + notes + seq![
        SessionActionView::Next,
    ];
    assert forall|i: int| 0 <= i < steps.len() implies (#[trigger] steps[i]).is_plain() by {
        if 1 <= i < 1 + notes.len() {
            assert(steps[i] == notes[i - 1]);
        }
    }
    assert forall|i: int| 0 <= i < steps.len() - 1 implies !(#[trigger] steps[i]).is_closing() by {
        if 1 <= i < 1 + notes.len() {
            assert(steps[i] == notes[i - 1]);
        }
    }
}

/// What follows a failure to find out the command that starts the child goes
/// on.
pub(crate) proof fn lemma_unresolved(
    s: SessionState,
    starting: bool,
    e: EnvErrorView,
    notice: Seq<char>,
)
    requires
        !starting ==> s.handler is Some,
    ensures
        s.goes_on(s.unresolved(starting, e, notice)),
{
    if starting {
        lemma_reply(s, seq![SessionActionView::Fail(e)]);
    } else {
        lemma_restoring(s, seq![notice]);
    }
}

/// What follows once the command that starts the child is known goes on.
pub(crate) proof fn lemma_resolved(s: SessionState, starting: bool, cli: Seq<char>)
    requires
        s.pending.len() == 0,
        !starting ==> s.handler is Some,
    ensures
        s.goes_on(s.resolved(starting, cli)),
{
    if starting {
        let handler = HandlerView::of_command(cli);
        lemma_launch_is_reply(handler, s.current_task);
        lemma_reply(
            SessionState { handler: Some(handler), ..s },
            seq![SessionActionView::Launch(handler.command())] + handler.banner(
                s.current_task,
            ).map_values(|text: Seq<char>| SessionActionView::Notify(text)) + seq![
                SessionActionView::Next,
            ],
        );
    } else if s.handler->0.can_handle(cli) {
        lemma_begin_wf(s.target);
    }
}

/// A step of the context switch under way goes on.
pub(crate) proof fn lemma_switching(s: SessionState, event: SessionEventView)
    requires
        s.wf(),
        s.flow is Switching,
        s.accepts(event),
    ensures
        s.goes_on(s.switching(event)),
{
    law_switch_step_keeps_wf(s.switch, switch_event(event));
    let (switch, action) = s.switch.step(switch_event(event));
    match action {
        SwitchActionView::Abort(why) => {
            lemma_restoring(SessionState { switch, ..s }, seq![context_error_notice(why)]);
        },
        _ => {},
    }
}

/// Every step but one of a reply goes on.
proof fn lemma_step(s: SessionState, event: SessionEventView)
    requires
        s.wf(),
        s.accepts(event),
    ensures
        s.flow is Replying || s.goes_on(s.step(event)),
        s.flow is Replying ==> s.step(event) == s.reply(s.pending),
{
    match s.outcome(event) {
        Some(notices) => {
            lemma_restoring(s, notices);
        },
        None => match (s.flow, event) {
            (Flow::CurrentTask, SessionEventView::Text(Err(e))) => {
                lemma_reply(s, seq![SessionActionView::Fail(e)]);
            },
            (Flow::TaskDir { starting }, SessionEventView::Text(Err(e))) => {
                lemma_unresolved(s, starting, e, switch_error_notice(s.target, e.message()));
            },
            (Flow::TaskConfig { starting }, SessionEventView::TaskConfig(Ok(config))) => {
                match config {
                    Some(TaskConfigView { cli: Some(cli), .. }) => {
                        lemma_resolved(s, starting, cli);
                    },
                    _ => {},
                }
            },
            (Flow::TaskConfig { starting }, SessionEventView::TaskConfig(Err(e))) => {
                lemma_unresolved(s, starting, e, cli_error_notice(s.target, e.message()));
            },
            (Flow::GlobalConfig { starting }, SessionEventView::GlobalConfig(Ok(config))) => {
                lemma_resolved(s, starting, config.default_cli);
            },
            (Flow::GlobalConfig { starting }, SessionEventView::GlobalConfig(Err(e))) => {
                lemma_unresolved(s, starting, e, cli_error_notice(s.target, e.message()));
            },
            (Flow::Switching, _) => {
                lemma_switching(s, event);
            },
            _ => {},
        },
    }
}

/// A report of the kind that the session waits for leaves the parts of its
/// state fitting together.
pub proof fn law_step_keeps_wf(s: SessionState, event: SessionEventView)
    requires
        s.wf(),
        s.accepts(event),
    ensures
        s.step(event).0.wf(),
{
    lemma_step(s, event);
    if s.flow is Replying {
        lemma_reply(s, s.pending);
    }
}

/// The session stops only at the end of a reply to the command to quit: a stop
/// is handed out only from such a reply, no report begins one, and the running
/// flag is cleared by the stop alone.
pub proof fn law_stop_ends_a_quit(s: SessionState, event: SessionEventView)
    requires
        s.wf(),
        s.accepts(event),
    ensures
        ({
            let (next, action) = s.step(event);
            &&& action is Stop ==> s.will_stop()
            &&& next.will_stop() ==> s.will_stop()
            &&& next.running == (s.running && !(action is Stop))
        }),
{
    lemma_step(s, event);
    if s.flow is Replying {
        lemma_reply(s, s.pending);
    }
}

/// What dispatching a command comes to: the parts of the new state fit
/// together, and a reply that ends the session begins exactly for the command
/// to quit that the adapter has left alone.
proof fn lemma_dispatch(s: SessionState, command: CommandView, claimed: Result<bool, Seq<char>>)
    requires
        s.wf(),
        s.flow is Idle,
    ensures
        ({
            let (next, action) = s.dispatch(command, claimed);
            &&& next.wf()
            &&& next.will_stop() <==> claimed == Ok::<bool, Seq<char>>(false) && command is Quit
            &&& !(action is Stop)
            &&& next.running == s.running
        }),
{
    match claimed {
        Ok(true) => {
            lemma_reply(s, seq![SessionActionView::Next]);
        },
        Err(why) => {
            lemma_reply(
                s,
                seq![SessionActionView::Output(command_error_notice(why)), SessionActionView::Next],
            );
        },
        Ok(false) => match command {
            CommandView::Quit => {
                lemma_reply(
                    s,
                    seq![SessionActionView::Output(exit_notice()), SessionActionView::Stop],
                );
            },
            CommandView::CurrentTask => {
                lemma_restoring(s, seq![current_task_notice(s.current_task)]);
            },
            CommandView::Help => {
                lemma_reply(
                    s,
                    seq![
                        SessionActionView::Output(help_text() + s.handler->0.help()),
                        SessionActionView::Input(native_help()),
                        SessionActionView::Next,
                    ],
                );
            },
            _ => {},
        },
    }
}

/// A command dispatched while the session waits for one leaves the parts of
/// its state fitting together.
pub proof fn law_dispatch_keeps_wf(
    s: SessionState,
    command: CommandView,
    claimed: Result<bool, Seq<char>>,
)
    requires
        s.wf(),
        s.flow is Idle,
    ensures
        s.dispatch(command, claimed).0.wf(),
{
    lemma_dispatch(s, command, claimed);
}

/// Only the command to quit ends the session: no other dispatch clears the
/// running flag or begins a reply that ends with a stop.
pub proof fn law_only_quit_stops(
    s: SessionState,
    command: CommandView,
    claimed: Result<bool, Seq<char>>,
)
    requires
        s.wf(),
        s.flow is Idle,
    ensures
        ({
            let (next, action) = s.dispatch(command, claimed);
            &&& next.will_stop() <==> claimed == Ok::<bool, Seq<char>>(false) && command is Quit
            &&& !(action is Stop)
            &&& next.running == s.running
        }),
{
    lemma_dispatch(s, command, claimed);
}

/// The command that starts the child of a task is the task's own CLI where its
/// configuration names one, and the default CLI of the global configuration
/// otherwise, which is loaded only then.
pub proof fn law_task_cli_overrides_default(
    s: SessionState,
    starting: bool,
    task: Option<TaskConfigView>,
    global: ConfigView,
)
    requires
        s.flow == (Flow::TaskConfig { starting }),
    ensures
        ({
            let cli = resolved_cli(
                match task {
                    Some(task) => task,
                    None => TaskConfigView::initial(),
                },
                global,
            );
            let (next, action) = s.step(SessionEventView::TaskConfig(Ok(task)));
            if task is Some && task->0.cli is Some {
                (next, action) == s.resolved(starting, cli)
            } else {
                &&& action == SessionActionView::LoadGlobalConfig
                &&& next.accepts(SessionEventView::GlobalConfig(Ok(global)))
                &&& next.step(SessionEventView::GlobalConfig(Ok(global))) == s.resolved(
                    starting,
                    cli,
                )
            }
        }),
{
}

/// Steps of a context switch are handed out only while one is under way, and
/// one begins only where the adapter of the running child can serve the command
/// that starts the child of the new task.
pub proof fn law_switch_needs_service(s: SessionState, event: SessionEventView)
    requires
        s.wf(),
        s.accepts(event),
    ensures
        ({
            let (next, action) = s.step(event);
            &&& action is Switch ==> s.flow is Switching
            &&& next.flow is Switching && !(s.flow is Switching) ==> s.found_out(event) is Some
                && s.handler->0.can_handle(s.found_out(event)->0)
        }),
{
    if s.flow is Replying {
        assert(s.pending[0].is_plain());
    }
}

/// A switch to a task whose child the adapter of the running child cannot serve
/// performs no step of a context switch: the task is recorded as the current
/// one, and once it is, the user is told that a restart is needed.
pub proof fn law_restart_required(s: SessionState, event: SessionEventView)
    requires
        s.wf(),
        s.accepts(event),
        s.found_out(event) is Some,
        !s.handler->0.can_handle(s.found_out(event)->0),
    ensures
        ({
            let recording = SessionState { flow: Flow::Persisting { seamless: false }, ..s };
            &&& s.step(event) == (recording, SessionActionView::SetCurrentTask(s.target))
            &&& recording.accepts(SessionEventView::Changed(Ok(())))
            &&& recording.step(SessionEventView::Changed(Ok(()))) == recording.reply(
                seq![
                    SessionActionView::Output(switched_notice(s.target)),
                    SessionActionView::Output(restart_notice()),
                    SessionActionView::Input(prompt_restore()),
                    SessionActionView::Next,
                ],
            )
        }),
{
    assert(restoring(seq![switched_notice(s.target), restart_notice()]) =~= seq![
        SessionActionView::Output(switched_notice(s.target)),
        SessionActionView::Output(restart_notice()),
        SessionActionView::Input(prompt_restore()),
        SessionActionView::Next,
    ]);
}

} // verus!
