use grill::cli_handler::{CliHandlerFactory, HandlerError};
use grill::process::{
    after_child_check, after_intercept, after_kill, forward_reads, on_chunk, on_read, ChildStatus,
    ProcessManager,
    PtyGeometry, ReadOutcome, ReaderStep, StopStep, PTY_COLS, PTY_ROWS, READER_BACKOFF_MILLIS,
    READER_STARTUP_MILLIS, READ_CHUNK_BYTES,
};

#[test]
fn command_line_is_split_at_whitespace() {
    let manager = ProcessManager::new("q chat --trust-all-tools");
    assert_eq!(manager.command(), "q");
    assert_eq!(manager.args(), &vec!["chat".to_string(), "--trust-all-tools".to_string()]);

    let manager = ProcessManager::new("cat");
    assert_eq!(manager.command(), "cat");
    assert!(manager.args().is_empty());

    let manager = ProcessManager::new("  echo   hello\tworld ");
    assert_eq!(manager.command(), "echo");
    assert_eq!(manager.args(), &vec!["hello".to_string(), "world".to_string()]);
}

#[test]
fn empty_command_line_has_an_empty_program() {
    let manager = ProcessManager::new("");
    assert_eq!(manager.command(), "");
    assert!(manager.args().is_empty());
    let manager = ProcessManager::new("   ");
    assert_eq!(manager.command(), "");
    assert!(manager.args().is_empty());
}

#[test]
fn quotes_do_not_group_words() {
    let manager = ProcessManager::new("sh -c \"echo hi\"");
    assert_eq!(manager.command(), "sh");
    assert_eq!(
        manager.args(),
        &vec!["-c".to_string(), "\"echo".to_string(), "hi\"".to_string()]
    );
}

#[test]
fn terminal_geometry_and_timing() {
    assert_eq!(
        ProcessManager::pty_size(),
        PtyGeometry { rows: 24, cols: 80, pixel_width: 0, pixel_height: 0 }
    );
    assert_eq!(PTY_ROWS, 24);
    assert_eq!(PTY_COLS, 80);
    assert_eq!(READ_CHUNK_BYTES, 1024);
    assert_eq!(READER_STARTUP_MILLIS, 500);
    assert_eq!(READER_BACKOFF_MILLIS, 10);
}

#[test]
fn echoed_text_is_forwarded() {
    let handler = CliHandlerFactory::create_handler("cat".to_string());
    let step = on_read(ReadOutcome::Read("Hello, world!".as_bytes().to_vec()), &handler);
    assert_eq!(step, ReaderStep::Forward("Hello, world!".to_string()));
}

#[test]
fn valid_chunks_are_forwarded_as_they_are() {
    let handler = CliHandlerFactory::create_handler("cat".to_string());
    for text in [
        "Line 1",
        "Special chars: !@#$%^&*()_+-=[]{}|;':\",./<>?",
        "Unicode: 你好, こんにちは, 안녕하세요, Привет, مرحبا, שלום",
        "\r\n",
    ] {
        assert_eq!(
            on_read(ReadOutcome::Read(text.as_bytes().to_vec()), &handler),
            ReaderStep::Forward(text.to_string())
        );
    }
}

#[test]
fn invalid_bytes_are_replaced() {
    let handler = CliHandlerFactory::create_handler("cat".to_string());
    assert_eq!(
        on_read(ReadOutcome::Read(vec![b'a', 0xFF, b'b']), &handler),
        ReaderStep::Forward("a\u{FFFD}b".to_string())
    );
    assert_eq!(
        on_read(ReadOutcome::Read(vec![0xE4, 0xBD]), &handler),
        ReaderStep::Forward("\u{FFFD}".to_string())
    );
}

#[test]
fn empty_read_ends_the_reader() {
    let handler = CliHandlerFactory::create_handler("cat".to_string());
    assert_eq!(on_read(ReadOutcome::Read(Vec::new()), &handler), ReaderStep::Stop);
}

#[test]
fn blocked_read_backs_off() {
    let handler = CliHandlerFactory::create_handler("cat".to_string());
    assert_eq!(on_read(ReadOutcome::WouldBlock, &handler), ReaderStep::Backoff(10));
}

#[test]
fn failed_read_ends_the_reader() {
    let handler = CliHandlerFactory::create_handler("cat".to_string());
    assert_eq!(
        on_read(ReadOutcome::Failed("Input/output error".to_string()), &handler),
        ReaderStep::Stop
    );
}

#[test]
fn chunk_goes_through_the_adapter() {
    let handler = CliHandlerFactory::create_handler("q chat".to_string());
    assert_eq!(on_chunk("> ".to_string(), &handler), ReaderStep::Forward("> ".to_string()));
    assert_eq!(after_intercept(Ok(Some("kept".to_string()))), ReaderStep::Forward("kept".to_string()));
    assert_eq!(after_intercept(Ok(None)), ReaderStep::Skip);
    assert_eq!(
        after_intercept(Err(HandlerError { message: "broken".to_string() })),
        ReaderStep::Skip
    );
}

#[test]
fn new_manager_holds_nothing() {
    let manager = ProcessManager::new("cat");
    assert!(!manager.is_running());
    assert!(!manager.is_writer_running());
    assert!(!manager.is_attached());
}

#[test]
fn start_then_stop() {
    let mut manager = ProcessManager::new("cat");
    manager.start();
    assert!(manager.is_running());
    assert!(manager.is_writer_running());
    assert!(manager.is_attached());
    assert!(manager.stop());
    assert!(!manager.is_running());
    assert!(!manager.is_writer_running());
    assert!(manager.is_attached());
    assert_eq!(after_child_check(Some(ChildStatus::Alive)), StopStep::Kill);
    assert_eq!(after_kill(true), StopStep::Release);
    manager.release();
    assert!(!manager.is_attached());
}

#[test]
fn stop_twice_finds_no_child() {
    let mut manager = ProcessManager::new("cat");
    manager.start();
    assert!(manager.stop());
    manager.release();
    assert!(!manager.stop());
    assert!(!manager.is_running());
    assert!(!manager.is_writer_running());
    assert!(!manager.is_attached());
    assert!(!manager.stop());
}

#[test]
fn stop_before_start_finds_no_child() {
    let mut manager = ProcessManager::new("cat");
    assert!(!manager.stop());
    assert!(!manager.is_attached());
}

#[test]
fn stop_after_the_child_has_exited_kills_nothing() {
    let mut manager = ProcessManager::new("echo");
    manager.start();
    manager.reader_ended();
    assert!(!manager.is_running());
    assert!(manager.is_writer_running());
    assert!(manager.stop());
    assert_eq!(after_child_check(Some(ChildStatus::Exited)), StopStep::Release);
    manager.release();
    assert!(!manager.is_attached());
}

#[test]
fn stop_fails_where_the_child_cannot_be_reached() {
    assert_eq!(after_child_check(None), StopStep::Fail);
    assert_eq!(after_kill(false), StopStep::Fail);
    let mut manager = ProcessManager::new("cat");
    manager.start();
    assert!(manager.stop());
    assert!(manager.is_attached());
    assert!(!manager.stop());
    assert!(!manager.is_attached());
}

#[test]
fn test_process_echo() {
    let mut process = ProcessManager::new("echo");
    let cli_handler = CliHandlerFactory::create_handler("echo".to_string());
    process.start();

    // What `echo` writes to its terminal.
    let step = on_read(ReadOutcome::Read(b"\r\n".to_vec()), &cli_handler);
    let output = match step {
        ReaderStep::Forward(output) => output,
        other => panic!("{:?}", other),
    };

    assert!(!output.is_empty());
}

#[test]
fn process_tests_test_process_stop() {
    let mut process = ProcessManager::new("cat");
    let _cli_handler = CliHandlerFactory::create_handler("cat".to_string());
    process.start();

    assert!(process.stop());
    assert_eq!(after_child_check(Some(ChildStatus::Alive)), StopStep::Kill);
    assert_eq!(after_kill(true), StopStep::Release);
    process.release();

    assert!(!process.is_running());
    assert!(!process.is_writer_running());
    assert!(!process.is_attached());
}

#[test]
fn test_process_drop() {
    let mut process = ProcessManager::new("cat");
    let _cli_handler = CliHandlerFactory::create_handler("cat".to_string());
    process.start();

    drop(process);
}

fn cut(text: &str, at: &[usize]) -> Vec<Vec<u8>> {
    let bytes = text.as_bytes();
    let mut reads = Vec::new();
    let mut from = 0;
    for &to in at {
        reads.push(bytes[from..to].to_vec());
        from = to;
    }
    reads.push(bytes[from..].to_vec());
    reads
}

#[test]
fn text_echoed_over_several_reads_comes_back_unchanged() {
    let handler = CliHandlerFactory::create_handler("cat".to_string());
    let text = "Hello, world!";
    assert_eq!(forward_reads(&cut(text, &[]), &handler), text);
    assert_eq!(forward_reads(&cut(text, &[5]), &handler), text);
    assert_eq!(forward_reads(&cut(text, &[1, 2, 7, 12]), &handler), text);

    let text = "Unicode: 你好, Привет";
    let boundaries: Vec<usize> = text.char_indices().map(|(at, _)| at).skip(1).collect();
    assert_eq!(forward_reads(&cut(text, &boundaries), &handler), text);
    assert_eq!(forward_reads(&cut(text, &[9, 12, 15]), &handler), text);
}

#[test]
fn large_text_comes_back_unchanged() {
    let handler = CliHandlerFactory::create_handler("cat".to_string());
    let text = "x".repeat(1024 * 3 + 17);
    let reads = cut(&text, &[1024, 2048, 3072]);
    assert_eq!(forward_reads(&reads, &handler), text);
}

#[test]
fn read_that_cuts_a_character_loses_it() {
    let handler = CliHandlerFactory::create_handler("cat".to_string());
    let text = "é";
    assert_eq!(forward_reads(&cut(text, &[1]), &handler), "\u{FFFD}\u{FFFD}");
    assert_eq!(forward_reads(&cut(text, &[]), &handler), "é");
}

#[test]
fn empty_read_ends_the_output() {
    let handler = CliHandlerFactory::create_handler("cat".to_string());
    let reads = vec![b"one ".to_vec(), b"two".to_vec(), Vec::new(), b" three".to_vec()];
    assert_eq!(forward_reads(&reads, &handler), "one two");
    assert_eq!(forward_reads(&Vec::new(), &handler), "");
    assert_eq!(forward_reads(&vec![Vec::new()], &handler), "");
}
