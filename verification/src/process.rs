//! The supervisor of the child: its command line, what the reader does with
//! what it reads, and how the child is stopped.

use crate::cli_handler::{CliHandler, HandlerError};
use crate::text::{split_whitespace, views, words};
use vstd::prelude::*;
use vstd::string::StringExecFns;
use vstd::utf8::{
    decode_first_scalar, decode_utf8, encode_utf8, encode_utf8_decode_utf8,
    encode_utf8_valid_utf8, pop_first_scalar, valid_utf8, valid_utf8_concat,
};

verus! {

/// The size of a pseudo-terminal.
#[derive(Debug, Clone, Copy, PartialEq, Eq)]
pub struct PtyGeometry {
    pub rows: u16,
    pub cols: u16,
    pub pixel_width: u16,
    pub pixel_height: u16,
}

/// The rows of the child's pseudo-terminal.
pub const PTY_ROWS: u16 = 24;

/// The columns of the child's pseudo-terminal.
pub const PTY_COLS: u16 = 80;

/// The most bytes that the reader takes from the pseudo-terminal at once.
pub const READ_CHUNK_BYTES: usize = 1024;

/// How long the reader waits before its first read, in milliseconds.
pub const READER_STARTUP_MILLIS: u64 = 500;

/// How long the reader waits after a read that would block, in milliseconds.
pub const READER_BACKOFF_MILLIS: u64 = 10;

/// The text that `String::from_utf8_lossy` makes of `bytes`.
pub uninterp spec fn utf8_lossy(bytes: Seq<u8>) -> Seq<char>;

/// Decodes `bytes` as UTF-8 with `String::from_utf8_lossy`, which puts U+FFFD in
/// the place of what is not valid. The result is named [`utf8_lossy`]; of bytes
/// that are valid UTF-8 it is the text that they encode.
#[verifier::external_body]
fn decode_lossy(bytes: &[u8]) -> (text: String)
    ensures
        text@ == utf8_lossy(bytes@),
        valid_utf8(bytes@) ==> text@ == decode_utf8(bytes@),
{
    String::from_utf8_lossy(bytes).into_owned()
}

/// What a read from the pseudo-terminal gave.
#[derive(Debug, Clone, PartialEq, Eq)]
pub enum ReadOutcome {
    /// The bytes that were read; none at the end of the child's output.
    Read(Vec<u8>),
    /// Nothing is there to read yet.
    WouldBlock,
    /// The read failed; the text says why.
    Failed(String),
}

/// What the reader does after a read.
#[derive(Debug, Clone, PartialEq, Eq)]
pub enum ReaderStep {
    /// Send the text to the output queue, and end the loop if that fails.
    Forward(String),
    /// Go on with the next read.
    Skip,
    /// Wait that many milliseconds, then go on with the next read.
    Backoff(u64),
    /// End the loop.
    Stop,
}

/// What a [`ReaderStep`] stands for.
pub enum ReaderStepView {
    Forward(Seq<char>),
    Skip,
    Backoff(u64),
    Stop,
}

impl View for ReaderStep {
    type V = ReaderStepView;

    open spec fn view(&self) -> ReaderStepView {
        match self {
            ReaderStep::Forward(text) => ReaderStepView::Forward(text@),
            ReaderStep::Skip => ReaderStepView::Skip,
            ReaderStep::Backoff(millis) => ReaderStepView::Backoff(*millis),
            ReaderStep::Stop => ReaderStepView::Stop,
        }
    }
}

/// What the reader does with a chunk of output once the adapter has seen it:
/// what the adapter keeps is forwarded; what it drops, or fails on, is passed
/// over.
pub open spec fn after_intercept_spec(kept: Result<Option<String>, HandlerError>) -> ReaderStepView {
    match kept {
        Ok(Some(text)) => ReaderStepView::Forward(text@),
        _ => ReaderStepView::Skip,
    }
}

/// What the reader does with a chunk of output once the adapter has seen it.
pub fn after_intercept(kept: Result<Option<String>, HandlerError>) -> (step: ReaderStep)
    ensures
        step@ == after_intercept_spec(kept),
{
    match kept {
        Ok(Some(text)) => ReaderStep::Forward(text),
        _ => ReaderStep::Skip,
    }
}

/// What the reader does with a decoded chunk of output: the adapter sees it, and
/// keeps all of it.
pub fn on_chunk(text: String, handler: &CliHandler) -> (step: ReaderStep)
    ensures
        step@ == ReaderStepView::Forward(text@),
{
    after_intercept(handler.intercept_output(text))
}

/// What the reader does after a read: an empty read ends the loop, and so does a
/// failed one; a read that would block is tried again after a pause; bytes that
/// were read are decoded and go through the adapter.
pub open spec fn on_read_spec(outcome: ReadOutcome) -> ReaderStepView {
    match outcome {
        ReadOutcome::Read(bytes) => if bytes@.len() == 0 {
            ReaderStepView::Stop
        } else {
            ReaderStepView::Forward(utf8_lossy(bytes@))
        },
        ReadOutcome::WouldBlock => ReaderStepView::Backoff(READER_BACKOFF_MILLIS),
        ReadOutcome::Failed(_) => ReaderStepView::Stop,
    }
}

/// What the reader does after a read. Of bytes that are valid UTF-8, the text
/// that they encode is forwarded: a text that comes back from the child in one
/// read, as the bytes that it was written as, is forwarded unchanged.
pub fn on_read(outcome: ReadOutcome, handler: &CliHandler) -> (step: ReaderStep)
    ensures
        step@ == on_read_spec(outcome),
        match outcome {
            ReadOutcome::Read(bytes) => {
                &&& bytes@.len() > 0 && valid_utf8(bytes@) ==> step@ == ReaderStepView::Forward(
                    decode_utf8(bytes@),
                )
                &&& forall|text: Seq<char>|
                    bytes@.len() > 0 && bytes@ == encode_utf8(text) ==> step@
                        == ReaderStepView::Forward(text)
            },
            _ => true,
        },
{
    broadcast use {encode_utf8_valid_utf8, encode_utf8_decode_utf8};

    match outcome {
        ReadOutcome::Read(bytes) => {
            if bytes.len() == 0 {
                ReaderStep::Stop
            } else {
                on_chunk(decode_lossy(bytes.as_slice()), handler)
            }
        },
        ReadOutcome::WouldBlock => ReaderStep::Backoff(READER_BACKOFF_MILLIS),
        ReadOutcome::Failed(_) => ReaderStep::Stop,
    }
}

/// The text that reaches the output queue from the reads `reads`, in order: what
/// each read decodes to, one after the other, up to the read that is empty.
pub open spec fn output_text(reads: Seq<Seq<u8>>) -> Seq<char>
    decreases reads.len(),
{
    if reads.len() == 0 || reads[0].len() == 0 {
        Seq::empty()
    } else {
        utf8_lossy(reads[0]) + output_text(reads.skip(1))
    }
}

/// The bytes of `reads`, one read after the other.
pub open spec fn joined(reads: Seq<Seq<u8>>) -> Seq<u8>
    decreases reads.len(),
{
    if reads.len() == 0 {
        Seq::empty()
    } else {
        joined(reads.drop_last()) + reads.last()
    }
}

/// Every read of `reads` holds bytes, and holds whole characters only: it is
/// valid UTF-8 by itself.
pub open spec fn whole_characters(reads: Seq<Seq<u8>>) -> bool {
    forall|i: int| 0 <= i < reads.len() ==> (#[trigger] reads[i]).len() > 0 && valid_utf8(reads[i])
}

/// The views of the reads of `v`, in order.
pub open spec fn read_views(v: Seq<Vec<u8>>) -> Seq<Seq<u8>> {
    v.map_values(|read: Vec<u8>| read@)
}

/// Valid UTF-8 after valid UTF-8 is valid, and decodes to the one text after
/// the other.
proof fn lemma_decode_concat(a: Seq<u8>, b: Seq<u8>)
    requires
        valid_utf8(a),
        valid_utf8(b),
    ensures
        valid_utf8(a + b),
        decode_utf8(a + b) == decode_utf8(a) + decode_utf8(b),
    decreases a.len(),
{
    valid_utf8_concat(a, b);
    if a.len() == 0 {
        assert(a + b =~= b);
        assert(decode_utf8(a) + decode_utf8(b) =~= decode_utf8(b));
    } else {
        let rest = pop_first_scalar(a);
        lemma_decode_concat(rest, b);
        assert(pop_first_scalar(a + b) =~= rest + b);
        assert(decode_first_scalar(a + b) == decode_first_scalar(a));
        assert(decode_utf8(a + b) =~= seq![decode_first_scalar(a) as char] + (decode_utf8(rest)
            + decode_utf8(b)));
    }
}

/// What reaches the output queue from a run of reads: the text that the reader
/// forwards of each read, one after the other, up to a read that is empty.
///
/// Where every read holds whole characters, that is the text that the bytes of
/// all the reads encode: a text that comes back from the child over several
/// reads, as the bytes that it was written as, reaches the output unchanged.
pub fn forward_reads(reads: &Vec<Vec<u8>>, handler: &CliHandler) -> (text: String)
    ensures
        text@ == output_text(read_views(reads@)),
        whole_characters(read_views(reads@)) ==> text@ == decode_utf8(joined(read_views(reads@))),
        forall|sent: Seq<char>|
            whole_characters(read_views(reads@)) && joined(read_views(reads@)) == encode_utf8(
                sent,
            ) ==> text@ == sent,
{
    broadcast use {encode_utf8_valid_utf8, encode_utf8_decode_utf8};

    let ghost all = read_views(reads@);
    let mut text = String::new();
    let mut i: usize = 0;
    assert(all.skip(0) =~= all);
    assert(all.take(0) =~= Seq::<Seq<u8>>::empty());
    assert(joined(all.take(0)) =~= Seq::<u8>::empty());
    while i < reads.len()
        invariant
            i <= reads.len(),
            all == read_views(reads@),
            output_text(all) == text@ + output_text(all.skip(i as int)),
            whole_characters(all) ==> valid_utf8(joined(all.take(i as int))) && text@
                == decode_utf8(joined(all.take(i as int))),
        decreases reads.len() - i,
    {
        let ghost rest = all.skip(i as int);
        let ghost before = text@;
        assert(rest[0] == reads@[i as int]@);
        assert(all[i as int] == reads@[i as int]@);
        match on_read(ReadOutcome::Read(copy_bytes(&reads[i])), handler) {
            ReaderStep::Forward(chunk) => {
                text.append(chunk.as_str());
                proof {
                    assert(rest.skip(1) =~= all.skip(i + 1));
                    assert(all.take(i + 1).drop_last() =~= all.take(i as int));
                    assert(all.take(i + 1).last() == all[i as int]);
                    if whole_characters(all) {
                        lemma_decode_concat(joined(all.take(i as int)), all[i as int]);
                    }
                    assert(text@ + output_text(all.skip(i + 1)) =~= before + (chunk@ + output_text(
                        all.skip(i + 1),
                    )));
                }
            },
            _ => {
                // the read is empty: the loop ends here
                assert(all[i as int].len() == 0);
                assert(!whole_characters(all));
                assert(output_text(rest) =~= Seq::<char>::empty());
                i = reads.len() - 1;
                assert(output_text(all.skip(i + 1)) =~= Seq::<char>::empty());
            },
        }
        i += 1;
    }
    proof {
        assert(all.take(i as int) =~= all);
        assert(output_text(all.skip(i as int)) =~= Seq::<char>::empty());
        assert(text@ + Seq::<char>::empty() =~= text@);
    }
    text
}

fn copy_bytes(bytes: &Vec<u8>) -> (copy: Vec<u8>)
    ensures
        copy@ == bytes@,
{
    let mut copy: Vec<u8> = Vec::new();
    let mut i: usize = 0;
    while i < bytes.len()
        invariant
            i <= bytes.len(),
            copy@ == bytes@.take(i as int),
        decreases bytes.len() - i,
    {
        copy.push(bytes[i]);
        i += 1;
        assert(bytes@.take(i as int) =~= bytes@.take(i - 1).push(bytes@[i - 1]));
    }
    assert(bytes@.take(i as int) =~= bytes@);
    copy
}

/// Whether the child has exited.
#[derive(Debug, Clone, Copy, PartialEq, Eq)]
pub enum ChildStatus {
    Exited,
    Alive,
}

/// What stopping the child does next.
#[derive(Debug, Clone, Copy, PartialEq, Eq)]
pub enum StopStep {
    /// Kill the child, and go on from whether that worked.
    Kill,
    /// Let go of the pseudo-terminal and of both queues.
    Release,
    /// Stopping has failed: what is held stays held.
    Fail,
}

/// What stopping does once the child was asked whether it has exited; `None`
/// where asking failed. Only a child that is alive is killed.
pub open spec fn after_child_check_spec(status: Option<ChildStatus>) -> StopStep {
    match status {
        Some(ChildStatus::Alive) => StopStep::Kill,
        Some(ChildStatus::Exited) => StopStep::Release,
        None => StopStep::Fail,
    }
}

/// What stopping does once the child was asked whether it has exited; `None`
/// where asking failed.
pub fn after_child_check(status: Option<ChildStatus>) -> (step: StopStep)
    ensures
        step == after_child_check_spec(status),
{
    match status {
        Some(ChildStatus::Alive) => StopStep::Kill,
        Some(ChildStatus::Exited) => StopStep::Release,
        None => StopStep::Fail,
    }
}

/// What stopping does once the child was killed, or could not be.
pub fn after_kill(killed: bool) -> (step: StopStep)
    ensures
        step == (if killed {
            StopStep::Release
        } else {
            StopStep::Fail
        }),
{
    if killed {
        StopStep::Release
    } else {
        StopStep::Fail
    }
}

/// The state of the supervisor of the child.
pub struct ProcessState {
    /// The program to run.
    pub command: Seq<char>,
    /// The arguments of the program.
    pub args: Seq<Seq<char>>,
    /// Whether the reader is to run.
    pub running: bool,
    /// Whether the writer is to run.
    pub writer_running: bool,
    /// Whether a child is held.
    pub has_child: bool,
    /// Whether the pseudo-terminal and the two queues are held.
    pub attached: bool,
}

impl ProcessState {
    /// The supervisor for the command line `command`, with nothing started: the
    /// first word of the line is the program, and the other words are its
    /// arguments. Quotes and escapes mean nothing.
    pub open spec fn of_command(command: Seq<char>) -> ProcessState {
        let parts = words(command);
        ProcessState {
            command: if parts.len() > 0 {
                parts[0]
            } else {
                Seq::empty()
            },
            args: if parts.len() > 0 {
                parts.skip(1)
            } else {
                Seq::empty()
            },
            running: false,
            writer_running: false,
            has_child: false,
            attached: false,
        }
    }

    /// The state once the child was spawned: all is held, and both loops are to
    /// run.
    pub open spec fn started(self) -> ProcessState {
        ProcessState {
            running: true,
            writer_running: true,
            has_child: true,
            attached: true,
            ..self
        }
    }

    /// The state once stopping begins: neither loop is to run, and the child is
    /// taken out to be looked at. Where no child is held, the rest is let go
    /// of at once.
    pub open spec fn stopping(self) -> ProcessState {
        ProcessState {
            running: false,
            writer_running: false,
            has_child: false,
            attached: self.attached && self.has_child,
            ..self
        }
    }

    /// The state once the pseudo-terminal and the queues are let go of.
    pub open spec fn released(self) -> ProcessState {
        ProcessState { attached: false, ..self }
    }

    /// The state once stopping has run its course on a child that could be
    /// looked at, and killed where it was alive.
    pub open spec fn stopped(self) -> ProcessState {
        self.stopping().released()
    }
}

/// Manages the child process for the CLI
pub struct ProcessManager {
    command: String,
    args: Vec<String>,
    running: bool,
    writer_running: bool,
    has_child: bool,
    attached: bool,
}

impl View for ProcessManager {
    type V = ProcessState;

    closed spec fn view(&self) -> ProcessState {
        ProcessState {
            command: self.command@,
            args: views(self.args@),
            running: self.running,
            writer_running: self.writer_running,
            has_child: self.has_child,
            attached: self.attached,
        }
    }
}

impl ProcessManager {
    /// Create a new process manager
    pub fn new(command: &str) -> (manager: ProcessManager)
        ensures
            manager@ == ProcessState::of_command(command@),
    {
        let mut parts = split_whitespace(command);
        let ghost all = views(parts@);
        let program = if parts.len() > 0 {
            let first = parts.remove(0);
            assert(views(parts@) =~= all.skip(1));
            first
        } else {
            assert(views(parts@) =~= Seq::<Seq<char>>::empty());
            String::new()
        };
        ProcessManager {
            command: program,
            args: parts,
            running: false,
            writer_running: false,
            has_child: false,
            attached: false,
        }
    }

    /// The program to run.
    pub fn command(&self) -> (command: &str)
        ensures
            command@ == self@.command,
    {
        self.command.as_str()
    }

    /// The arguments of the program.
    pub fn args(&self) -> (args: &Vec<String>)
        ensures
            views(args@) == self@.args,
    {
        &self.args
    }

    /// The size of the pseudo-terminal that the child gets.
    pub fn pty_size() -> (size: PtyGeometry)
        ensures
            size == (PtyGeometry { rows: 24, cols: 80, pixel_width: 0, pixel_height: 0 }),
    {
        PtyGeometry { rows: PTY_ROWS, cols: PTY_COLS, pixel_width: 0, pixel_height: 0 }
    }

    /// Whether the reader is to run.
    pub fn is_running(&self) -> (running: bool)
        ensures
            running == self@.running,
    {
        self.running
    }

    /// Whether the writer is to run.
    pub fn is_writer_running(&self) -> (running: bool)
        ensures
            running == self@.writer_running,
    {
        self.writer_running
    }

    /// Whether the pseudo-terminal and the two queues are held.
    pub fn is_attached(&self) -> (attached: bool)
        ensures
            attached == self@.attached,
    {
        self.attached
    }

    /// Start the child process: records that the child was spawned on its
    /// pseudo-terminal and that both loops are to run.
    pub fn start(&mut self)
        ensures
            final(self)@ == old(self)@.started(),
    {
        self.running = true;
        self.writer_running = true;
        self.has_child = true;
        self.attached = true;
    }

    /// Records that the reader has ended.
    pub fn reader_ended(&mut self)
        ensures
            final(self)@ == (ProcessState { running: false, ..old(self)@ }),
    {
        self.running = false;
    }

    /// Stop the child process: neither loop is to run any more. Says whether a
    /// child was held, which is then to be asked whether it has exited; where
    /// none was, the pseudo-terminal and the queues are let go of.
    pub fn stop(&mut self) -> (had_child: bool)
        ensures
            had_child == old(self)@.has_child,
            final(self)@ == old(self)@.stopping(),
    {
        self.writer_running = false;
        self.running = false;
        let had_child = self.has_child;
        self.has_child = false;
        if !had_child {
            self.attached = false;
        }
        had_child
    }

    /// Records that the pseudo-terminal and the queues were let go of.
    pub fn release(&mut self)
        ensures
            final(self)@ == old(self)@.released(),
    {
        self.attached = false;
    }
}

/// Stopping what is stopped changes nothing, and finds no child to look at.
pub proof fn law_stop_is_idempotent(s: ProcessState)
    ensures
        !s.stopped().has_child,
        s.stopped().stopping() == s.stopped(),
        s.stopped().stopped() == s.stopped(),
{
}

} // verus!
