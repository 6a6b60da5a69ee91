use rari_tty::console::console_size_from_query;
use rari_tty::console::fill_console_size;
use rari_tty::console::first_probe;
use rari_tty::console::next_probe;
use rari_tty::console::ConsoleSize;
use rari_tty::console::ProbeStep;
use rari_tty::error::TtyError;
use rari_tty::mode::TerminalMode;
use rari_tty::prompt::fault_class;
use rari_tty::prompt::prompt_reply;
use rari_tty::prompt::prompt_setup;
use rari_tty::prompt::FaultClass;
use rari_tty::prompt::PromptReply;
use rari_tty::prompt::ReadEvent;
use rari_tty::prompt::ReadFault;
use rari_tty::stdin_guard::OriginalStdin;

fn run(outcomes: [Result<ConsoleSize, TtyError>; 3]) -> (Result<ConsoleSize, TtyError>, Vec<u32>) {
    let mut asked = Vec::new();
    let mut step = first_probe();
    loop {
        match step {
            ProbeStep::Query(rid) => {
                asked.push(rid);
                step = next_probe(rid, outcomes[rid as usize].clone());
            }
            ProbeStep::Finished(r) => return (r, asked),
        }
    }
}

fn size(cols: u32, rows: u32) -> ConsoleSize {
    ConsoleSize { cols, rows }
}

fn mode(tag: u64) -> TerminalMode {
    TerminalMode {
        input_flags: tag,
        output_flags: 0,
        control_flags: 0,
        local_flags: 0,
        line_discipline: 0,
        control_chars: [0u8; 32],
        input_speed: 0,
        output_speed: 0,
    }
}

#[test]
fn window_query_is_widened() {
    assert_eq!(console_size_from_query(0, 80, 24, 0), Ok(size(80, 24)));
    assert_eq!(console_size_from_query(0, 65535, 65535, 11), Ok(size(65535, 65535)));
    assert_eq!(console_size_from_query(-1, 80, 24, 25), Err(TtyError::Io(25)));
    assert_eq!(console_size_from_query(1, 0, 0, 9), Err(TtyError::Io(9)));
}

#[test]
fn probing_starts_at_standard_input() {
    assert_eq!(first_probe(), ProbeStep::Query(0));
}

#[test]
fn only_standard_input_is_a_terminal() {
    let (r, asked) = run([Ok(size(80, 24)), Err(TtyError::Io(25)), Err(TtyError::Io(9))]);
    assert_eq!(r, Ok(size(80, 24)));
    assert_eq!(asked, vec![0]);
}

#[test]
fn only_standard_output_is_a_terminal() {
    let (r, asked) = run([Err(TtyError::Io(25)), Ok(size(120, 40)), Err(TtyError::Io(9))]);
    assert_eq!(r, Ok(size(120, 40)));
    assert_eq!(asked, vec![0, 1]);
}

#[test]
fn only_standard_error_is_a_terminal() {
    let (r, asked) = run([Err(TtyError::Io(25)), Err(TtyError::Resource), Ok(size(132, 50))]);
    assert_eq!(r, Ok(size(132, 50)));
    assert_eq!(asked, vec![0, 1, 2]);
}

#[test]
fn no_terminal_gives_last_failure() {
    let (r, asked) = run([Err(TtyError::Io(25)), Err(TtyError::Io(9)), Err(TtyError::Io(6))]);
    assert_eq!(r, Err(TtyError::Io(6)));
    assert_eq!(asked, vec![0, 1, 2]);
}

#[test]
fn first_of_several_terminals_wins() {
    let (r, _) = run([Err(TtyError::Io(25)), Ok(size(1, 2)), Ok(size(3, 4))]);
    assert_eq!(r, Ok(size(1, 2)));
}

#[test]
fn probing_stops_after_the_last_candidate() {
    assert_eq!(next_probe(2, Err(TtyError::Io(1))), ProbeStep::Finished(Err(TtyError::Io(1))));
    assert_eq!(next_probe(7, Err(TtyError::Io(1))), ProbeStep::Finished(Err(TtyError::Io(1))));
    assert_eq!(
        next_probe(u32::MAX, Err(TtyError::Io(1))),
        ProbeStep::Finished(Err(TtyError::Io(1)))
    );
    assert_eq!(next_probe(0, Err(TtyError::Io(1))), ProbeStep::Query(1));
    assert_eq!(next_probe(1, Err(TtyError::Io(1))), ProbeStep::Query(2));
}

#[test]
fn console_size_fills_first_two_cells() {
    let mut buffer = vec![7u32, 8, 9];
    fill_console_size(&mut buffer, size(80, 24));
    assert_eq!(buffer, vec![80, 24, 9]);
}

#[test]
fn prompt_setup_places_default_before_cursor() {
    let setup = prompt_setup("Name: ", "Bob");
    assert_eq!(setup.prompt, "Name: ");
    assert_eq!(setup.before_cursor, "Bob");
    assert_eq!(setup.after_cursor, "");
    assert_eq!(setup.keyseq_timeout_ms, 1);
    assert!(setup.escape_interrupts);
    assert!(!setup.keep_history);
}

#[test]
fn submitted_line_is_returned() {
    let reply = prompt_reply(ReadEvent::Line(String::from("Alice")));
    assert_eq!(
        reply,
        Ok(PromptReply { line: Some(String::from("Alice")), raise_interrupt: false })
    );
}

#[test]
fn end_of_input_gives_no_line() {
    assert_eq!(prompt_reply(ReadEvent::Eof), Ok(PromptReply { line: None, raise_interrupt: false }));
}

#[test]
fn interrupt_gives_no_line_and_one_raise() {
    let events = vec![ReadEvent::Interrupted];
    let mut raised: u32 = 0;
    for event in events {
        let reply = prompt_reply(event).unwrap();
        assert_eq!(reply.line, None);
        if reply.raise_interrupt {
            raised += 1;
        }
    }
    assert_eq!(raised, 1);
}

#[test]
fn failed_read_is_an_error() {
    assert_eq!(prompt_reply(ReadEvent::Failed(ReadFault::Io(Some(5)))), Err(ReadFault::Io(Some(5))));
    assert_eq!(prompt_reply(ReadEvent::Failed(ReadFault::Errno(4))), Err(ReadFault::Errno(4)));
    assert_eq!(prompt_reply(ReadEvent::Failed(ReadFault::Signal)), Err(ReadFault::Signal));
    assert_eq!(prompt_reply(ReadEvent::Failed(ReadFault::Other)), Err(ReadFault::Other));
}

#[test]
fn faults_are_classified() {
    assert_eq!(fault_class(ReadFault::Io(None)), FaultClass::FromIo);
    assert_eq!(fault_class(ReadFault::Errno(22)), FaultClass::FromErrno);
    assert_eq!(fault_class(ReadFault::Signal), FaultClass::Generic);
    assert_eq!(fault_class(ReadFault::Other), FaultClass::Generic);
}

#[test]
fn original_stdin_is_captured_once() {
    let mut guard = OriginalStdin::new();
    assert!(guard.needs_capture());
    assert_eq!(guard.restore_target(), None);
    assert!(guard.capture(Some(mode(1))));
    assert!(!guard.needs_capture());
    for tag in 2u64..50u64 {
        assert!(!guard.capture(Some(mode(tag))));
        assert!(!guard.capture(None));
        assert_eq!(guard.restore_target(), Some(mode(1)));
    }
}

#[test]
fn unreadable_stdin_is_not_retried() {
    let mut guard = OriginalStdin::new();
    assert!(!guard.capture(None));
    assert!(!guard.needs_capture());
    assert!(!guard.capture(Some(mode(3))));
    assert_eq!(guard.restore_target(), None);
}
