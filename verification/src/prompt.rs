use vstd::prelude::*;

verus! {

/// How the line editor of one prompt is set up.
#[derive(Debug, Clone, PartialEq, Eq)]
pub struct PromptSetup {
    /// Text shown in front of the editable line.
    pub prompt: String,
    /// Text pre-inserted before the cursor.
    pub before_cursor: String,
    /// Text pre-inserted after the cursor.
    pub after_cursor: String,
    /// Milliseconds to wait for the rest of a multi-byte key sequence.
    pub keyseq_timeout_ms: u16,
    /// Whether the standalone escape key interrupts the line.
    pub escape_interrupts: bool,
    /// Whether submitted lines are kept in a history.
    pub keep_history: bool,
}

/// The nature of a failed interactive read.
#[derive(Debug, Clone, Copy, PartialEq, Eq)]
pub enum ReadFault {
    /// An input/output failure; carries the operating system's error code
    /// where there is one.
    Io(Option<i32>),
    /// A failed system call; carries the errno value.
    Errno(i32),
    /// A signal arrived during the read.
    Signal,
    /// Any other failure of the editor.
    Other,
}

/// How a failure is classified for the caller.
#[derive(Debug, Clone, Copy, PartialEq, Eq)]
pub enum FaultClass {
    /// The class follows from the input/output failure.
    FromIo,
    /// The class follows from the errno value.
    FromErrno,
    /// A generic error.
    Generic,
}

/// What an interactive read came back with.
#[derive(Debug, Clone, PartialEq, Eq)]
pub enum ReadEvent {
    /// The user submitted this line.
    Line(String),
    /// The user pressed the interrupt key.
    Interrupted,
    /// End of input was reached.
    Eof,
    /// The read failed.
    Failed(ReadFault),
}

/// What the prompt hands back: the submitted line, if any, and whether the
/// process's interrupt signal has to be raised.
#[derive(Debug, Clone, PartialEq, Eq)]
pub struct PromptReply {
    pub line: Option<String>,
    pub raise_interrupt: bool,
}

/// The reply to each event: a line is returned as it is; an interrupt gives
/// no line and asks for the interrupt signal; end of input gives no line; a
/// failure is an error.
pub open spec fn reply_of(event: ReadEvent) -> Result<PromptReply, ReadFault> {
    match event {
        ReadEvent::Line(line) => Ok(PromptReply { line: Some(line), raise_interrupt: false }),
        ReadEvent::Interrupted => Ok(PromptReply { line: None, raise_interrupt: true }),
        ReadEvent::Eof => Ok(PromptReply { line: None, raise_interrupt: false }),
        ReadEvent::Failed(fault) => Err(fault),
    }
}

/// Sets up the editor for one prompt: no history, a timeout of one
/// millisecond for key sequences, escape bound to interrupt, and the default
/// value pre-inserted with the cursor behind it.
pub fn prompt_setup(prompt_text: &str, default_value: &str) -> (setup: PromptSetup)
    ensures
        setup.prompt@ == prompt_text@,
        setup.before_cursor@ == default_value@,
        setup.after_cursor@ == Seq::<char>::empty(),
        setup.keyseq_timeout_ms == 1,
        setup.escape_interrupts,
        !setup.keep_history,
{
    PromptSetup {
        prompt: prompt_text.to_owned(),
        before_cursor: default_value.to_owned(),
        after_cursor: String::new(),
        keyseq_timeout_ms: 1,
        escape_interrupts: true,
        keep_history: false,
    }
}

/// Decides what the prompt returns for what the read came back with.
pub fn prompt_reply(event: ReadEvent) -> (r: Result<PromptReply, ReadFault>)
    ensures
        r == reply_of(event),
        r is Err <==> event is Failed,
{
    match event {
        ReadEvent::Line(line) => Ok(PromptReply { line: Some(line), raise_interrupt: false }),
        ReadEvent::Interrupted => Ok(PromptReply { line: None, raise_interrupt: true }),
        ReadEvent::Eof => Ok(PromptReply { line: None, raise_interrupt: false }),
        ReadEvent::Failed(fault) => Err(fault),
    }
}

/// Classifies a failed read: input/output and errno failures by their own
/// nature, everything else as a generic error.
pub fn fault_class(fault: ReadFault) -> (class: FaultClass)
    ensures
        class == match fault {
            ReadFault::Io(_) => FaultClass::FromIo,
            ReadFault::Errno(_) => FaultClass::FromErrno,
            ReadFault::Signal => FaultClass::Generic,
            ReadFault::Other => FaultClass::Generic,
        },
{
    match fault {
        ReadFault::Io(_) => FaultClass::FromIo,
        ReadFault::Errno(_) => FaultClass::FromErrno,
        ReadFault::Signal => FaultClass::Generic,
        ReadFault::Other => FaultClass::Generic,
    }
}

} // verus!
