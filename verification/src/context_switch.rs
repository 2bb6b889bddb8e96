//! The protocol that replaces the context of the running child with that of
//! another task, as a state machine that hands out one step at a time.

use crate::environment::default_state;
use crate::text::{str_eq, trim, trim_spec};
use vstd::prelude::*;
use vstd::string::StringExecFns;

verus! {

/// A file of a task directory that holds context for the child.
#[derive(Debug, Clone, Copy, PartialEq, Eq)]
pub enum TaskFile {
    /// `instructions.md`
    Instructions,
    /// `state.md`
    State,
}

impl TaskFile {
    /// The name of the file inside the task directory.
    pub open spec fn name_spec(self) -> Seq<char> {
        match self {
            TaskFile::Instructions => "instructions.md"@,
            TaskFile::State => "state.md"@,
        }
    }

    /// The name of the file inside the task directory.
    pub fn file_name(&self) -> (name: &'static str)
        ensures
            name@ == self.name_spec(),
    {
        match self {
            TaskFile::Instructions => "instructions.md",
            TaskFile::State => "state.md",
        }
    }
}

/// What came of reading a file.
#[derive(Debug, Clone, PartialEq, Eq)]
pub enum FileRead {
    /// There is no such file.
    Missing,
    /// The file exists and could not be read; the text says why.
    Unreadable(String),
    /// The content of the file.
    Text(String),
}

/// What a [`FileRead`] stands for.
pub enum FileReadView {
    Missing,
    Unreadable(Seq<char>),
    Text(Seq<char>),
}

impl View for FileRead {
    type V = FileReadView;

    open spec fn view(&self) -> FileReadView {
        match self {
            FileRead::Missing => FileReadView::Missing,
            FileRead::Unreadable(why) => FileReadView::Unreadable(why@),
            FileRead::Text(text) => FileReadView::Text(text@),
        }
    }
}

/// One step of a context switch, for the driver to perform.
#[derive(Debug, Clone, PartialEq, Eq)]
pub enum SwitchAction {
    /// Offer the text to the output queue without waiting; it may be lost.
    Notify(String),
    /// Send the text to the child's input queue, and report whether that worked.
    Send(String),
    /// Wait that many milliseconds.
    Settle(u64),
    /// Read the file of the new task's directory, and report what came of it.
    Load(TaskFile),
    /// Log the text as a warning.
    Warn(String),
    /// The switch has succeeded.
    Done,
    /// The switch has failed; the text says why.
    Abort(String),
}

/// What a [`SwitchAction`] stands for.
pub enum SwitchActionView {
    Notify(Seq<char>),
    Send(Seq<char>),
    Settle(u64),
    Load(TaskFile),
    Warn(Seq<char>),
    Done,
    Abort(Seq<char>),
}

impl View for SwitchAction {
    type V = SwitchActionView;

    open spec fn view(&self) -> SwitchActionView {
        match self {
            SwitchAction::Notify(text) => SwitchActionView::Notify(text@),
            SwitchAction::Send(text) => SwitchActionView::Send(text@),
            SwitchAction::Settle(millis) => SwitchActionView::Settle(*millis),
            SwitchAction::Load(file) => SwitchActionView::Load(*file),
            SwitchAction::Warn(text) => SwitchActionView::Warn(text@),
            SwitchAction::Done => SwitchActionView::Done,
            SwitchAction::Abort(why) => SwitchActionView::Abort(why@),
        }
    }
}

/// The views of the actions of `v`, in order.
pub open spec fn action_views(v: Seq<SwitchAction>) -> Seq<SwitchActionView> {
    v.map_values(|a: SwitchAction| a@)
}

/// What the driver reports after a step.
#[derive(Debug, Clone, PartialEq, Eq)]
pub enum SwitchEvent {
    /// The step is done, and there is nothing to report.
    Ack,
    /// Whether the text was sent to the child.
    Sent(bool),
    /// What came of reading the file.
    Loaded(FileRead),
}

/// What a [`SwitchEvent`] stands for.
pub enum SwitchEventView {
    Ack,
    Sent(bool),
    Loaded(FileReadView),
}

impl View for SwitchEvent {
    type V = SwitchEventView;

    open spec fn view(&self) -> SwitchEventView {
        match self {
            SwitchEvent::Ack => SwitchEventView::Ack,
            SwitchEvent::Sent(ok) => SwitchEventView::Sent(*ok),
            SwitchEvent::Loaded(read) => SwitchEventView::Loaded(read@),
        }
    }
}

/// The part of a context switch that is under way.
#[derive(Debug, Clone, Copy, PartialEq, Eq)]
pub enum SwitchStage {
    /// The child is told to clear its context.
    Clearing,
    /// The child is primed with the task's instructions.
    Instructions,
    /// The child is primed with the task's state.
    State,
    /// The switch has ended, well or not.
    Finished,
}

/// The kind of report that the last step calls for.
#[derive(Debug, Clone, Copy, PartialEq, Eq)]
pub enum Awaiting {
    Ack,
    Sent,
    Loaded,
}

/// The settle delay after the clear directive, in milliseconds.
pub const CLEAR_SETTLE_MILLIS: u64 = 500;

/// The settle delay after a priming message, in milliseconds.
pub const PRIME_SETTLE_MILLIS: u64 = 1000;

/// Whether `state` is a state file as it is first written: it is the template,
/// but for whitespace before and after.
pub open spec fn is_default_state(state: Seq<char>) -> bool {
    trim_spec(state) == trim_spec(default_state())
}

/// The steps that clear the child's context, up to the reading of the
/// instructions.
pub open spec fn q_clear_steps(task_name: Seq<char>) -> Seq<SwitchActionView> {
    seq![
        SwitchActionView::Notify("\nSwitching to task: "@ + task_name + "\n"@),
        SwitchActionView::Notify("Clearing current context...\n"@),
        SwitchActionView::Send("/clear\r"@),
        SwitchActionView::Send("y\r"@),
        SwitchActionView::Settle(CLEAR_SETTLE_MILLIS),
        SwitchActionView::Load(TaskFile::Instructions),
    ]
}

/// The steps that follow the reading of the instructions, up to the reading of
/// the state: instructions that were read are sent to the child as a priming
/// message; a failure to read them is a warning; missing ones are passed over.
pub open spec fn q_instructions_steps(task_name: Seq<char>, read: FileReadView) -> Seq<
    SwitchActionView,
> {
    (match read {
        FileReadView::Text(text) => seq![
            SwitchActionView::Notify("Loading task instructions...\n"@),
            SwitchActionView::Send(
                "Here are the instructions for task '"@ + task_name + "': \n\n"@ + text + "\n\r"@,
            ),
            SwitchActionView::Settle(PRIME_SETTLE_MILLIS),
        ],
        FileReadView::Unreadable(why) => seq![
            SwitchActionView::Warn("Warning: Could not read instructions.md: "@ + why),
        ],
        FileReadView::Missing => Seq::empty(),
    }) + seq![SwitchActionView::Load(TaskFile::State)]
}

/// The steps that follow the reading of the state, up to the end: a state that
/// was read and is not the template is sent to the child as a priming message; a
/// failure to read it is a warning; a missing one or the template is passed over.
pub open spec fn q_state_steps(task_name: Seq<char>, read: FileReadView) -> Seq<SwitchActionView> {
    (match read {
        FileReadView::Text(text) => if is_default_state(text) {
            Seq::empty()
        } else {
            seq![
                SwitchActionView::Notify("Loading task state...\n"@),
                SwitchActionView::Send(
                    "Here is the current state for task '"@ + task_name + "': \n\n"@ + text
                        + "\n\r"@,
                ),
                SwitchActionView::Settle(PRIME_SETTLE_MILLIS),
            ]
        },
        FileReadView::Unreadable(why) => seq![
            SwitchActionView::Warn("Warning: Could not read state.md: "@ + why),
        ],
        FileReadView::Missing => Seq::empty(),
    }) + seq![
        SwitchActionView::Notify("Successfully switched to task: "@ + task_name + "\n\n"@),
        SwitchActionView::Done,
    ]
}

/// Why the switch fails when a send fails during `stage`.
pub open spec fn failure_message(stage: SwitchStage) -> Seq<char> {
    match stage {
        SwitchStage::Instructions => "Failed to send instructions to Q CLI"@,
        SwitchStage::State => "Failed to send state to Q CLI"@,
        _ => "Failed to send clear command to Q CLI"@,
    }
}

/// The kind of report that `action` calls for.
pub open spec fn awaited(action: SwitchActionView) -> Awaiting {
    match action {
        SwitchActionView::Send(_) => Awaiting::Sent,
        SwitchActionView::Load(_) => Awaiting::Loaded,
        _ => Awaiting::Ack,
    }
}

/// The step that closes the steps of `stage`.
pub open spec fn closing(stage: SwitchStage) -> SwitchActionView {
    match stage {
        SwitchStage::Clearing => SwitchActionView::Load(TaskFile::Instructions),
        SwitchStage::Instructions => SwitchActionView::Load(TaskFile::State),
        _ => SwitchActionView::Done,
    }
}

/// `steps` is not empty, closes with the closing step of `stage`, and holds no
/// other step that reads a file or ends the switch.
pub open spec fn ends_well(steps: Seq<SwitchActionView>, stage: SwitchStage) -> bool {
    &&& steps.len() > 0
    &&& steps.last() == closing(stage)
    &&& forall|i: int|
        0 <= i < steps.len() - 1 ==> !((#[trigger] steps[i]) is Load || steps[i] is Done
            || steps[i] is Abort)
}

/// The state of a context switch.
pub struct SwitchState {
    /// The task to switch to.
    pub task_name: Seq<char>,
    pub stage: SwitchStage,
    /// The steps of the stage that are still to be performed.
    pub pending: Seq<SwitchActionView>,
    /// The kind of report that the last step calls for.
    pub awaiting: Awaiting,
}

impl SwitchState {
    /// The state in which a switch to `task_name` begins.
    pub open spec fn begin(task_name: Seq<char>) -> SwitchState {
        SwitchState {
            task_name,
            stage: SwitchStage::Clearing,
            pending: q_clear_steps(task_name),
            awaiting: Awaiting::Ack,
        }
    }

    /// The state of a switch that has ended, for where none is under way.
    pub open spec fn ended() -> SwitchState {
        SwitchState {
            task_name: Seq::empty(),
            stage: SwitchStage::Finished,
            pending: Seq::empty(),
            awaiting: Awaiting::Ack,
        }
    }

    /// The switch has ended, or waits for a file with no step pending, or has
    /// steps pending that end well.
    pub open spec fn wf(self) -> bool {
        match self.stage {
            SwitchStage::Finished => self.pending.len() == 0,
            stage => if self.awaiting is Loaded {
                self.pending.len() == 0 && !(stage is State)
            } else {
                ends_well(self.pending, stage)
            },
        }
    }

    /// Whether `event` is a report of the kind that the last step calls for.
    pub open spec fn accepts(self, event: SwitchEventView) -> bool {
        &&& !(self.stage is Finished)
        &&& match event {
            SwitchEventView::Ack => self.awaiting is Ack,
            SwitchEventView::Sent(_) => self.awaiting is Sent,
            SwitchEventView::Loaded(_) => self.awaiting is Loaded,
        }
    }

    /// The state after the driver's report, and the next step.
    ///
    /// A failed send ends the switch. A file that was read opens the next stage
    /// with the steps that the file calls for. Otherwise the next pending step is
    /// taken.
    pub open spec fn step(self, event: SwitchEventView) -> (SwitchState, SwitchActionView) {
        if event == SwitchEventView::Sent(false) {
            (
                SwitchState {
                    stage: SwitchStage::Finished,
                    pending: Seq::empty(),
                    awaiting: Awaiting::Ack,
                    ..self
                },
                SwitchActionView::Abort(failure_message(self.stage)),
            )
        } else {
            let (stage, pending) = match event {
                SwitchEventView::Loaded(read) => if self.stage is Clearing {
                    (SwitchStage::Instructions, q_instructions_steps(self.task_name, read))
                } else {
                    (SwitchStage::State, q_state_steps(self.task_name, read))
                },
                _ => (self.stage, self.pending),
            };
            let action = pending.first();
            (
                SwitchState {
                    stage: if action is Done {
                        SwitchStage::Finished
                    } else {
                        stage
                    },
                    pending: pending.skip(1),
                    awaiting: awaited(action),
                    ..self
                },
                action,
            )
        }
    }
}

/// Tests whether `state` is a state file as it is first written.
pub fn is_default_state_text(state: &str) -> (default: bool)
    ensures
        default == is_default_state(state@),
{
    let trimmed = trim(state);
    let template = trim("# Task State\n\nTask state will be tracked here.\n");
    str_eq(trimmed.as_str(), template.as_str())
}

fn clear_steps(task_name: &str) -> (steps: Vec<SwitchAction>)
    ensures
        action_views(steps@) == q_clear_steps(task_name@),
{
    let mut notice = String::from_str("\nSwitching to task: ");
    notice.append(task_name);
    notice.append("\n");
    let mut steps: Vec<SwitchAction> = Vec::new();
    steps.push(SwitchAction::Notify(notice));
    steps.push(SwitchAction::Notify("Clearing current context...\n".to_owned()));
    steps.push(SwitchAction::Send("/clear\r".to_owned()));
    steps.push(SwitchAction::Send("y\r".to_owned()));
    steps.push(SwitchAction::Settle(CLEAR_SETTLE_MILLIS));
    steps.push(SwitchAction::Load(TaskFile::Instructions));
    assert(action_views(steps@) =~= q_clear_steps(task_name@));
    steps
}

fn instructions_steps(task_name: &str, read: FileRead) -> (steps: Vec<SwitchAction>)
    ensures
        action_views(steps@) == q_instructions_steps(task_name@, read@),
{
    let mut steps: Vec<SwitchAction> = Vec::new();
    match read {
        FileRead::Text(text) => {
            let mut message = String::from_str("Here are the instructions for task '");
            message.append(task_name);
            message.append("': \n\n");
            message.append(text.as_str());
            message.append("\n\r");
            steps.push(SwitchAction::Notify("Loading task instructions...\n".to_owned()));
            steps.push(SwitchAction::Send(message));
            steps.push(SwitchAction::Settle(PRIME_SETTLE_MILLIS));
        },
        FileRead::Unreadable(why) => {
            let mut warning = String::from_str("Warning: Could not read instructions.md: ");
            warning.append(why.as_str());
            steps.push(SwitchAction::Warn(warning));
        },
        FileRead::Missing => {},
    }
    steps.push(SwitchAction::Load(TaskFile::State));
    assert(action_views(steps@) =~= q_instructions_steps(task_name@, read@));
    steps
}

fn state_steps(task_name: &str, read: FileRead) -> (steps: Vec<SwitchAction>)
    ensures
        action_views(steps@) == q_state_steps(task_name@, read@),
{
    let mut steps: Vec<SwitchAction> = Vec::new();
    match read {
        FileRead::Text(text) => {
            if !is_default_state_text(text.as_str()) {
                let mut message = String::from_str("Here is the current state for task '");
                message.append(task_name);
                message.append("': \n\n");
                message.append(text.as_str());
                message.append("\n\r");
                steps.push(SwitchAction::Notify("Loading task state...\n".to_owned()));
                steps.push(SwitchAction::Send(message));
                steps.push(SwitchAction::Settle(PRIME_SETTLE_MILLIS));
            }
        },
        FileRead::Unreadable(why) => {
            let mut warning = String::from_str("Warning: Could not read state.md: ");
            warning.append(why.as_str());
            steps.push(SwitchAction::Warn(warning));
        },
        FileRead::Missing => {},
    }
    let mut notice = String::from_str("Successfully switched to task: ");
    notice.append(task_name);
    notice.append("\n\n");
    steps.push(SwitchAction::Notify(notice));
    steps.push(SwitchAction::Done);
    assert(action_views(steps@) =~= q_state_steps(task_name@, read@));
    steps
}

fn steps_end_well(steps: &Vec<SwitchAction>, stage: SwitchStage) -> (well: bool)
    ensures
        well == ends_well(action_views(steps@), stage),
{
    let n = steps.len();
    if n == 0 {
        return false;
    }
    let closes = match (&steps[n - 1], stage) {
        (SwitchAction::Load(TaskFile::Instructions), SwitchStage::Clearing) => true,
        (SwitchAction::Load(TaskFile::State), SwitchStage::Instructions) => true,
        (SwitchAction::Done, SwitchStage::State) => true,
        (SwitchAction::Done, SwitchStage::Finished) => true,
        _ => false,
    };
    assert(action_views(steps@).last() == steps@[n - 1]@);
    if !closes {
        return false;
    }
    let mut i: usize = 0;
    while i < n - 1
        invariant
            i <= n - 1,
            n == steps.len(),
            forall|k: int|
                0 <= k < i ==> !((#[trigger] action_views(steps@)[k]) is Load || action_views(
                    steps@,
                )[k] is Done || action_views(steps@)[k] is Abort),
        decreases n - 1 - i,
    {
        assert(action_views(steps@)[i as int] == steps@[i as int]@);
        match &steps[i] {
            SwitchAction::Load(_) | SwitchAction::Done | SwitchAction::Abort(_) => {
                return false;
            },
            _ => {},
        }
        i += 1;
    }
    true
}

/// A context switch under way: it hands out the steps of the protocol one by
/// one, each in answer to the driver's report on the step before.
pub struct ContextSwitch {
    task_name: String,
    stage: SwitchStage,
    pending: Vec<SwitchAction>,
    awaiting: Awaiting,
}

impl View for ContextSwitch {
    type V = SwitchState;

    closed spec fn view(&self) -> SwitchState {
        SwitchState {
            task_name: self.task_name@,
            stage: self.stage,
            pending: action_views(self.pending@),
            awaiting: self.awaiting,
        }
    }
}

impl ContextSwitch {
    /// Begins a switch to the task `task_name`. The first step is had by
    /// reporting [`SwitchEvent::Ack`].
    pub fn new(task_name: &str) -> (switch: ContextSwitch)
        ensures
            switch@ == SwitchState::begin(task_name@),
            switch@.wf(),
            switch@.accepts(SwitchEventView::Ack),
    {
        ContextSwitch {
            task_name: task_name.to_owned(),
            stage: SwitchStage::Clearing,
            pending: clear_steps(task_name),
            awaiting: Awaiting::Ack,
        }
    }

    /// A switch that has ended, for where none is under way.
    pub fn ended() -> (switch: ContextSwitch)
        ensures
            switch@ == SwitchState::ended(),
            switch@.wf(),
    {
        let switch = ContextSwitch {
            task_name: String::new(),
            stage: SwitchStage::Finished,
            pending: Vec::new(),
            awaiting: Awaiting::Ack,
        };
        assert(action_views(switch.pending@) =~= Seq::empty());
        switch
    }

    /// Whether the switch is in order.
    pub fn is_valid(&self) -> (valid: bool)
        ensures
            valid == self@.wf(),
    {
        match self.stage {
            SwitchStage::Finished => self.pending.len() == 0,
            stage => match self.awaiting {
                Awaiting::Loaded => self.pending.len() == 0 && match stage {
                    SwitchStage::State => false,
                    _ => true,
                },
                _ => steps_end_well(&self.pending, stage),
            },
        }
    }

    /// Whether the switch has ended.
    pub fn is_finished(&self) -> (finished: bool)
        ensures
            finished == (self@.stage is Finished),
    {
        match self.stage {
            SwitchStage::Finished => true,
            _ => false,
        }
    }

    /// Whether `event` is a report of the kind that the last step calls for.
    pub fn accepts(&self, event: &SwitchEvent) -> (accepted: bool)
        ensures
            accepted == self@.accepts(event@),
    {
        match self.stage {
            SwitchStage::Finished => false,
            _ => match (event, self.awaiting) {
                (SwitchEvent::Ack, Awaiting::Ack) => true,
                (SwitchEvent::Sent(_), Awaiting::Sent) => true,
                (SwitchEvent::Loaded(_), Awaiting::Loaded) => true,
                _ => false,
            },
        }
    }

    /// Whether the last step calls for what came of reading a file.
    pub fn awaits_file(&self) -> (awaited: bool)
        ensures
            awaited == (!(self@.stage is Finished) && self@.awaiting is Loaded),
    {
        match (self.stage, self.awaiting) {
            (SwitchStage::Finished, _) => false,
            (_, Awaiting::Loaded) => true,
            _ => false,
        }
    }

    /// Takes the driver's report on the last step and hands out the next one.
    pub fn next(&mut self, event: SwitchEvent) -> (action: SwitchAction)
        requires
            old(self)@.wf(),
            old(self)@.accepts(event@),
        ensures
            final(self)@.wf(),
            (final(self)@, action@) == old(self)@.step(event@),
    {
        match event {
            SwitchEvent::Sent(false) => {
                let why = match self.stage {
                    SwitchStage::Instructions => "Failed to send instructions to Q CLI",
                    SwitchStage::State => "Failed to send state to Q CLI",
                    _ => "Failed to send clear command to Q CLI",
                };
                self.stage = SwitchStage::Finished;
                self.pending.clear();
                self.awaiting = Awaiting::Ack;
                assert(action_views(self.pending@) =~= Seq::empty());
                return SwitchAction::Abort(why.to_owned());
            },
            SwitchEvent::Loaded(read) => {
                match self.stage {
                    SwitchStage::Clearing => {
                        self.stage = SwitchStage::Instructions;
                        self.pending = instructions_steps(self.task_name.as_str(), read);
                    },
                    _ => {
                        self.stage = SwitchStage::State;
                        self.pending = state_steps(self.task_name.as_str(), read);
                    },
                }
            },
            _ => {},
        }
        let ghost before = action_views(self.pending@);
        assert(ends_well(before, self.stage));
        let action = self.pending.remove(0);
        assert(action@ == before[0]);
        assert(action_views(self.pending@) =~= before.skip(1));
        self.awaiting = match action {
            SwitchAction::Send(_) => Awaiting::Sent,
            SwitchAction::Load(_) => Awaiting::Loaded,
            _ => Awaiting::Ack,
        };
        if let SwitchAction::Done = action {
            self.stage = SwitchStage::Finished;
        }
        proof {
            let rest = before.skip(1);
            if rest.len() > 0 {
                assert(rest.last() == before.last());
                assert forall|i: int| 0 <= i < rest.len() - 1 implies !((#[trigger] rest[i]) is Load
                    || rest[i] is Done || rest[i] is Abort) by {
                    assert(rest[i] == before[i + 1]);
                }
            }
        }
        action
    }
}

/// The report of a driver whose sends all succeed and whose reading of the two
/// files gives `instructions` and `state`.
pub open spec fn answer(
    action: SwitchActionView,
    instructions: FileReadView,
    state: FileReadView,
) -> SwitchEventView {
    match action {
        SwitchActionView::Send(_) => SwitchEventView::Sent(true),
        SwitchActionView::Load(TaskFile::Instructions) => SwitchEventView::Loaded(instructions),
        SwitchActionView::Load(TaskFile::State) => SwitchEventView::Loaded(state),
        _ => SwitchEventView::Ack,
    }
}

/// The steps, at most `n` of them, that the switch hands out from the state `s`
/// on the report `event`, to a driver that answers as [`answer`] says.
pub open spec fn run(
    s: SwitchState,
    event: SwitchEventView,
    instructions: FileReadView,
    state: FileReadView,
    n: nat,
) -> Seq<SwitchActionView>
    decreases n,
{
    if n == 0 || s.stage is Finished {
        Seq::empty()
    } else {
        let (next, action) = s.step(event);
        seq![action] + run(next, answer(action, instructions, state), instructions, state, (n - 1) as nat)
    }
}

/// All the steps of a switch that meets no failed send.
pub open spec fn script(
    task_name: Seq<char>,
    instructions: FileReadView,
    state: FileReadView,
) -> Seq<SwitchActionView> {
    q_clear_steps(task_name) + q_instructions_steps(task_name, instructions) + q_state_steps(
        task_name,
        state,
    )
}

proof fn lemma_run_pending(
    s: SwitchState,
    event: SwitchEventView,
    instructions: FileReadView,
    state: FileReadView,
    n: nat,
)
    requires
        !(s.stage is Finished),
        ends_well(s.pending, s.stage),
        event is Ack || event == SwitchEventView::Sent(true),
        n >= s.pending.len(),
    ensures
        run(s, event, instructions, state, n) == s.pending + run(
            SwitchState {
                stage: if s.stage is State {
                    SwitchStage::Finished
                } else {
                    s.stage
                },
                pending: Seq::empty(),
                awaiting: awaited(s.pending.last()),
                ..s
            },
            answer(s.pending.last(), instructions, state),
            instructions,
            state,
            (n - s.pending.len()) as nat,
        ),
    decreases s.pending.len(),
{
    let p = s.pending;
    let (next, action) = s.step(event);
    assert(action == p[0]);
    if p.len() == 1 {
        assert(next.pending =~= Seq::empty());
        assert(seq![action] =~= p);
    } else {
        let rest = p.skip(1);
        assert(rest.last() == p.last());
        assert forall|i: int| 0 <= i < rest.len() - 1 implies !((#[trigger] rest[i]) is Load
            || rest[i] is Done || rest[i] is Abort) by {
            assert(rest[i] == p[i + 1]);
        }
        lemma_run_pending(next, answer(action, instructions, state), instructions, state, (n - 1) as nat);
        assert(seq![action] + rest =~= p);
    }
}

/// A switch that meets no failed send performs the steps that clear the context,
/// then those that the instructions call for, then those that the state calls
/// for, and ends there.
pub proof fn law_switch_script(
    task_name: Seq<char>,
    instructions: FileReadView,
    state: FileReadView,
    n: nat,
)
    requires
        n >= script(task_name, instructions, state).len(),
    ensures
        run(SwitchState::begin(task_name), SwitchEventView::Ack, instructions, state, n) == script(
            task_name,
            instructions,
            state,
        ),
{
    let clear = q_clear_steps(task_name);
    let prime = q_instructions_steps(task_name, instructions);
    let last = q_state_steps(task_name, state);
    let s0 = SwitchState::begin(task_name);
    lemma_run_pending(s0, SwitchEventView::Ack, instructions, state, n);
    let s1 = SwitchState { pending: Seq::empty(), awaiting: Awaiting::Loaded, ..s0 };
    let n1 = (n - clear.len()) as nat;
    let t1 = SwitchState { stage: SwitchStage::Instructions, pending: prime, ..s1 };
    assert(s1.step(SwitchEventView::Loaded(instructions)) == t1.step(SwitchEventView::Ack));
    assert(run(s1, SwitchEventView::Loaded(instructions), instructions, state, n1) == run(
        t1,
        SwitchEventView::Ack,
        instructions,
        state,
        n1,
    ));
    lemma_run_pending(t1, SwitchEventView::Ack, instructions, state, n1);
    let s2 = SwitchState { pending: Seq::empty(), awaiting: Awaiting::Loaded, ..t1 };
    let n2 = (n1 - prime.len()) as nat;
    let t2 = SwitchState { stage: SwitchStage::State, pending: last, ..s2 };
    assert(s2.step(SwitchEventView::Loaded(state)) == t2.step(SwitchEventView::Ack));
    assert(run(s2, SwitchEventView::Loaded(state), instructions, state, n2) == run(
        t2,
        SwitchEventView::Ack,
        instructions,
        state,
        n2,
    ));
    lemma_run_pending(t2, SwitchEventView::Ack, instructions, state, n2);
    assert(clear + (prime + (last + Seq::<SwitchActionView>::empty())) =~= clear + prime + last);
}

/// A switch begins in order.
pub(crate) proof fn lemma_begin_wf(task_name: Seq<char>)
    ensures
        SwitchState::begin(task_name).wf(),
        SwitchState::begin(task_name).accepts(SwitchEventView::Ack),
{
}

/// A report of the kind that the last step calls for leaves the switch in
/// order, and ended exactly when the step handed out ends it.
pub proof fn law_switch_step_keeps_wf(s: SwitchState, event: SwitchEventView)
    requires
        s.wf(),
        s.accepts(event),
    ensures
        s.step(event).0.wf(),
        s.step(event).0.stage is Finished <==> (s.step(event).1 is Done || s.step(event).1 is Abort),
        s.step(event).0.awaiting == awaited(s.step(event).1),
{
    if event != SwitchEventView::Sent(false) {
        let pending = match event {
            SwitchEventView::Loaded(read) => if s.stage is Clearing {
                q_instructions_steps(s.task_name, read)
            } else {
                q_state_steps(s.task_name, read)
            },
            _ => s.pending,
        };
        let stage = match event {
            SwitchEventView::Loaded(_) => if s.stage is Clearing {
                SwitchStage::Instructions
            } else {
                SwitchStage::State
            },
            _ => s.stage,
        };
        assert(ends_well(pending, stage));
        let rest = pending.skip(1);
        if rest.len() > 0 {
            assert(rest.last() == pending.last());
            assert forall|i: int| 0 <= i < rest.len() - 1 implies !((#[trigger] rest[i]) is Load
                || rest[i] is Done || rest[i] is Abort) by {
                assert(rest[i] == pending[i + 1]);
            }
        }
    }
}

/// A failed send ends the switch at once, whatever is pending, with the failure
/// of the stage as the reason.
pub proof fn law_failed_send_aborts(s: SwitchState)
    ensures
        s.step(SwitchEventView::Sent(false)).1 == SwitchActionView::Abort(failure_message(s.stage)),
        s.step(SwitchEventView::Sent(false)).0.stage is Finished,
{
}

} // verus!
