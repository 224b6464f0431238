//! Carrying out a parsed command, one step at a time.
//!
//! The library starts no process and opens no file. It says what has to be
//! done next, as a [`Step`]; the caller does it and reports what came of it, as
//! an [`Event`]; [`Step::advance`] then gives the step that follows. The first
//! failure ends the run.

use vstd::prelude::*;
use crate::command::{CommandType, RedirOp, Shape};
use crate::heredoc::{ends_heredoc, is_substring};

verus! {

/// The prompt that is shown before a line of a here-document is read.
pub const HEREDOC_PROMPT: &'static str = "> ";

/// How a redirection target is opened.
#[derive(Clone, Copy, Debug, PartialEq, Eq, Structural)]
pub enum OpenMode {
    /// For reading; the file has to exist.
    Read,
    /// For writing; the file is created, or emptied if it exists.
    Create,
    /// For writing at its end; the file has to exist.
    Append,
}

impl OpenMode {
    /// The mode to try after an open in this mode has failed: a file that
    /// cannot be opened for appending is created instead. The other modes
    /// have nothing to fall back on.
    pub open spec fn fallback(self) -> Option<OpenMode> {
        match self {
            OpenMode::Append => Some(OpenMode::Create),
            OpenMode::Read | OpenMode::Create => None,
        }
    }

    /// Tells whether a file opened in this mode feeds the standard input of
    /// the command, not its standard output.
    pub open spec fn is_input(self) -> bool {
        self == OpenMode::Read
    }
}

/// Where the standard input of a process comes from.
#[derive(Clone, Copy, Debug, PartialEq, Eq, Structural)]
pub enum Source {
    /// The standard input of the caller.
    Inherited,
    /// The file that the preceding step opened.
    File,
    /// The captured standard output of the process started just before.
    Producer,
}

/// Where the standard output of a process goes.
#[derive(Clone, Copy, Debug, PartialEq, Eq, Structural)]
pub enum Sink {
    /// The standard output of the caller.
    Inherited,
    /// The file that the preceding step opened.
    File,
}

/// What a command lacks that cannot be run.
#[derive(Clone, Copy, Debug, PartialEq, Eq, Structural)]
pub enum Defect {
    /// There is no word before the operator, so no program to start.
    MissingCommand,
    /// There is no word after the operator: no second program, no file name,
    /// no terminator.
    MissingOperand,
}

/// The step at which a run failed.
#[derive(Clone, Copy, Debug, PartialEq, Eq, Structural)]
pub enum Failure {
    /// The redirection target could not be opened in the given mode.
    Open(OpenMode),
    /// A process could not be started.
    Spawn,
    /// A line of a here-document could not be read.
    ReadLine,
    /// The here-document could not be written to the process.
    Feed,
    /// Waiting for the process failed.
    Wait,
}

impl Failure {
    /// A failure to read or to write the text of a here-document ends the
    /// session. The others end the current line only.
    pub open spec fn is_fatal(self) -> bool {
        self == Failure::ReadLine || self == Failure::Feed
    }
}

/// How a run ended.
#[derive(Clone, Copy, Debug, PartialEq, Eq, Structural)]
pub enum Outcome {
    /// Every step succeeded, or there was nothing to do.
    Completed,
    /// The command was malformed; nothing was started.
    Refused(Defect),
    /// A step failed; the steps after it were not taken.
    Failed(Failure),
}

impl Outcome {
    /// Tells whether the session has to end after this outcome.
    pub open spec fn is_fatal(self) -> bool {
        self matches Outcome::Failed(failure) && failure.is_fatal()
    }

    /// Tells whether the session has to end after this outcome.
    pub fn ends_session(&self) -> (b: bool)
        ensures
            b == self.is_fatal(),
    {
        match self {
            Outcome::Failed(Failure::ReadLine) => true,
            Outcome::Failed(Failure::Feed) => true,
            _ => false,
        }
    }
}

/// What came of the step that the caller took.
#[derive(Debug, PartialEq, Eq)]
pub enum Event {
    /// The step succeeded.
    Succeeded,
    /// The step failed.
    Failed,
    /// The line that was read, with its line terminator.
    Line(String),
}

/// An [`Event`] as a mathematical value: the line is a sequence of
/// characters.
pub enum EventView {
    Succeeded,
    Failed,
    Line(Seq<char>),
}

impl EventView {
    /// The line that the event carries. An event without a line counts as one
    /// that carries the empty line.
    pub open spec fn line(self) -> Seq<char> {
        match self {
            EventView::Line(l) => l,
            _ => Seq::empty(),
        }
    }
}

impl View for Event {
    type V = EventView;

    open spec fn view(&self) -> EventView {
        match *self {
            Event::Succeeded => EventView::Succeeded,
            Event::Failed => EventView::Failed,
            Event::Line(l) => EventView::Line(l@),
        }
    }
}

/// A program and the arguments to start it with.
#[derive(Debug, PartialEq, Eq)]
pub struct Invocation {
    /// The name of the executable.
    pub program: String,
    /// The arguments, passed on as they are.
    pub args: Vec<String>,
}

impl View for Invocation {
    type V = Seq<Seq<char>>;

    /// The program name followed by the arguments.
    open spec fn view(&self) -> Seq<Seq<char>> {
        seq![self.program@] + self.args.deep_view()
    }
}

impl Invocation {
    /// Takes the first word as the program and the others as its arguments.
    /// Without a first word there is no invocation.
    pub fn from_words(words: Vec<String>) -> (r: Option<Invocation>)
        ensures
            r is Some <==> words.len() > 0,
            r is Some ==> r.unwrap()@ == words.deep_view(),
    {
        let mut words = words;
        if words.len() == 0 {
            None
        } else {
            let ghost all = words.deep_view();
            let program = words.remove(0);
            let command = Invocation { program, args: words };
            assert(command@ =~= all);
            Some(command)
        }
    }
}

/// What the caller has to do next, and what is kept for the steps after it.
/// Every process inherits the standard error of the caller.
#[derive(Debug, PartialEq, Eq)]
pub enum Step {
    /// Open the file `path` in mode `mode`. `command` is started once the
    /// file is open.
    Open { command: Invocation, path: String, mode: OpenMode },
    /// Show the secondary prompt and read one line of the here-document.
    /// `text` holds the lines read so far; `command` is started once a line
    /// holds `terminator`.
    Ask { command: Invocation, terminator: String, text: String },
    /// Start `producer` with the standard input of the caller and with its
    /// standard output captured. `consumer` is started next; nobody waits for
    /// `producer`.
    StartProducer { producer: Invocation, consumer: Invocation },
    /// Start `command`, wired as given.
    Start { command: Invocation, stdin: Source, stdout: Sink },
    /// Start `command` with the standard output of the caller and with a pipe
    /// to write its standard input to. `text` is written next.
    StartReader { command: Invocation, text: String },
    /// Write `text` to the standard input of the process and close it.
    Feed { text: String },
    /// Wait until the process started last has ended.
    Wait,
    /// Nothing is left to do.
    Finished(Outcome),
}

/// A [`Step`] as a mathematical value: a word is a sequence of characters, a
/// command the sequence of its words, the program first. Each variant stands
/// for the variant of [`Step`] of the same name.
pub enum StepView {
    Open { command: Seq<Seq<char>>, path: Seq<char>, mode: OpenMode },
    Ask { command: Seq<Seq<char>>, terminator: Seq<char>, text: Seq<char> },
    StartProducer { producer: Seq<Seq<char>>, consumer: Seq<Seq<char>> },
    Start { command: Seq<Seq<char>>, stdin: Source, stdout: Sink },
    StartReader { command: Seq<Seq<char>>, text: Seq<char> },
    Feed { text: Seq<char> },
    Wait,
    Finished(Outcome),
}

impl View for Step {
    type V = StepView;

    open spec fn view(&self) -> StepView {
        match *self {
            Step::Open { command, path, mode } => StepView::Open {
                command: command@,
                path: path@,
                mode,
            },
            Step::Ask { command, terminator, text } => StepView::Ask {
                command: command@,
                terminator: terminator@,
                text: text@,
            },
            Step::StartProducer { producer, consumer } => StepView::StartProducer {
                producer: producer@,
                consumer: consumer@,
            },
            Step::Start { command, stdin, stdout } => StepView::Start {
                command: command@,
                stdin,
                stdout,
            },
            Step::StartReader { command, text } => StepView::StartReader {
                command: command@,
                text: text@,
            },
            Step::Feed { text } => StepView::Feed { text: text@ },
            Step::Wait => StepView::Wait,
            Step::Finished(outcome) => StepView::Finished(outcome),
        }
    }
}

/// The step that a redirected command begins with. `target` is the first
/// word after the operator.
pub open spec fn first_redirected_step(
    command: Seq<Seq<char>>,
    target: Seq<char>,
    op: RedirOp,
) -> StepView {
    match op {
        RedirOp::Write => StepView::Open { command, path: target, mode: OpenMode::Create },
        RedirOp::Append => StepView::Open { command, path: target, mode: OpenMode::Append },
        RedirOp::Read => StepView::Open { command, path: target, mode: OpenMode::Read },
        RedirOp::HereDoc => StepView::Ask { command, terminator: target, text: Seq::empty() },
    }
}

/// The step that the run of a command begins with. A command that lacks a
/// program or the word after its operator is refused before anything is done.
pub open spec fn first_step(shape: Shape) -> StepView {
    match shape {
        Shape::Empty => StepView::Finished(Outcome::Completed),
        Shape::Simple(argv) => if argv.len() == 0 {
            StepView::Finished(Outcome::Refused(Defect::MissingCommand))
        } else {
            StepView::Start { command: argv, stdin: Source::Inherited, stdout: Sink::Inherited }
        },
        Shape::Piped(first, second) => if first.len() == 0 {
            StepView::Finished(Outcome::Refused(Defect::MissingCommand))
        } else if second.len() == 0 {
            StepView::Finished(Outcome::Refused(Defect::MissingOperand))
        } else {
            StepView::StartProducer { producer: first, consumer: second }
        },
        Shape::Redirected(argv, target, op) => if argv.len() == 0 {
            StepView::Finished(Outcome::Refused(Defect::MissingCommand))
        } else if target.len() == 0 {
            StepView::Finished(Outcome::Refused(Defect::MissingOperand))
        } else {
            first_redirected_step(argv, target[0], op)
        },
    }
}

/// The step that follows `step` once the caller has reported `event`.
///
/// A failure ends the run, with one exception: a file that could not be
/// opened for appending is created instead. While a here-document is being
/// read, a line that holds the terminator ends it and is dropped; any other
/// line is added to the text.
pub open spec fn next_step(step: StepView, event: EventView) -> StepView {
    let failed = event is Failed;
    match step {
        StepView::Open { command, path, mode } => if failed {
            match mode.fallback() {
                Some(other) => StepView::Open { command, path, mode: other },
                None => StepView::Finished(Outcome::Failed(Failure::Open(mode))),
            }
        } else if mode.is_input() {
            StepView::Start { command, stdin: Source::File, stdout: Sink::Inherited }
        } else {
            StepView::Start { command, stdin: Source::Inherited, stdout: Sink::File }
        },
        StepView::Ask { command, terminator, text } => if failed {
            StepView::Finished(Outcome::Failed(Failure::ReadLine))
        } else if is_substring(terminator, event.line()) {
            StepView::StartReader { command, text }
        } else {
            StepView::Ask { command, terminator, text: text + event.line() }
        },
        StepView::StartProducer { producer, consumer } => if failed {
            StepView::Finished(Outcome::Failed(Failure::Spawn))
        } else {
            StepView::Start { command: consumer, stdin: Source::Producer, stdout: Sink::Inherited }
        },
        StepView::Start { command, stdin, stdout } => if failed {
            StepView::Finished(Outcome::Failed(Failure::Spawn))
        } else {
            StepView::Wait
        },
        StepView::StartReader { command, text } => if failed {
            StepView::Finished(Outcome::Failed(Failure::Spawn))
        } else {
            StepView::Feed { text }
        },
        StepView::Feed { text } => if failed {
            StepView::Finished(Outcome::Failed(Failure::Feed))
        } else {
            StepView::Wait
        },
        StepView::Wait => if failed {
            StepView::Finished(Outcome::Failed(Failure::Wait))
        } else {
            StepView::Finished(Outcome::Completed)
        },
        StepView::Finished(outcome) => StepView::Finished(outcome),
    }
}

/// How many reports a run in this step takes at most before it is finished,
/// not counting the lines of a here-document that do not end it.
pub open spec fn reports_left(step: StepView) -> nat {
    match step {
        StepView::Open { mode, .. } => if mode.fallback() is Some {
            4
        } else {
            3
        },
        StepView::Ask { .. } => 4,
        StepView::StartProducer { .. } => 3,
        StepView::StartReader { .. } => 3,
        StepView::Start { .. } => 2,
        StepView::Feed { .. } => 2,
        StepView::Wait => 1,
        StepView::Finished(_) => 0,
    }
}

/// The step reached from `step` once the lines `lines` have been read and
/// reported, one after the other.
pub open spec fn after_lines(step: StepView, lines: Seq<Seq<char>>) -> StepView
    decreases lines.len(),
{
    if lines.len() == 0 {
        step
    } else {
        next_step(after_lines(step, lines.drop_last()), EventView::Line(lines.last()))
    }
}

impl Step {
    /// The step that the run of `command` begins with.
    pub fn first(command: CommandType) -> (step: Step)
        ensures
            step@ == first_step(command@),
    {
        match command {
            CommandType::Empty => Step::Finished(Outcome::Completed),
            CommandType::ShellCommand(argv) => match Invocation::from_words(argv) {
                Some(command) => Step::Start {
                    command,
                    stdin: Source::Inherited,
                    stdout: Sink::Inherited,
                },
                None => Step::Finished(Outcome::Refused(Defect::MissingCommand)),
            },
            CommandType::PipeCommand(first, second) => match Invocation::from_words(first) {
                Some(producer) => match Invocation::from_words(second) {
                    Some(consumer) => Step::StartProducer { producer, consumer },
                    None => Step::Finished(Outcome::Refused(Defect::MissingOperand)),
                },
                None => Step::Finished(Outcome::Refused(Defect::MissingCommand)),
            },
            CommandType::RedirCommand(argv, target, op) => match Invocation::from_words(argv) {
                Some(command) => {
                    let mut target = target;
                    if target.len() == 0 {
                        Step::Finished(Outcome::Refused(Defect::MissingOperand))
                    } else {
                        let word = target.remove(0);
                        match op {
                            RedirOp::Write => Step::Open {
                                command,
                                path: word,
                                mode: OpenMode::Create,
                            },
                            RedirOp::Append => Step::Open {
                                command,
                                path: word,
                                mode: OpenMode::Append,
                            },
                            RedirOp::Read => Step::Open { command, path: word, mode: OpenMode::Read },
                            RedirOp::HereDoc => Step::Ask {
                                command,
                                terminator: word,
                                text: String::new(),
                            },
                        }
                    }
                },
                None => Step::Finished(Outcome::Refused(Defect::MissingCommand)),
            },
        }
    }

    /// The step that follows this one once the caller has reported `event`.
    pub fn advance(self, event: Event) -> (next: Step)
        ensures
            next@ == next_step(self@, event@),
    {
        let failed = matches!(event, Event::Failed);
        match self {
            Step::Open { command, path, mode } => {
                if failed {
                    match mode {
                        OpenMode::Append => Step::Open { command, path, mode: OpenMode::Create },
                        _ => Step::Finished(Outcome::Failed(Failure::Open(mode))),
                    }
                } else {
                    match mode {
                        OpenMode::Read => Step::Start {
                            command,
                            stdin: Source::File,
                            stdout: Sink::Inherited,
                        },
                        _ => Step::Start { command, stdin: Source::Inherited, stdout: Sink::File },
                    }
                }
            },
            Step::Ask { command, terminator, text } => {
                match event {
                    Event::Failed => Step::Finished(Outcome::Failed(Failure::ReadLine)),
                    Event::Succeeded => {
                        proof {
                            reveal_strlit("");
                            assert(""@ =~= Seq::<char>::empty());
                        }
                        Step::absorb(command, terminator, text, "")
                    },
                    Event::Line(line) => Step::absorb(command, terminator, text, line.as_str()),
                }
            },
            Step::StartProducer { producer, consumer } => {
                if failed {
                    Step::Finished(Outcome::Failed(Failure::Spawn))
                } else {
                    Step::Start { command: consumer, stdin: Source::Producer, stdout: Sink::Inherited }
                }
            },
            Step::Start { command, stdin, stdout } => {
                if failed {
                    Step::Finished(Outcome::Failed(Failure::Spawn))
                } else {
                    Step::Wait
                }
            },
            Step::StartReader { command, text } => {
                if failed {
                    Step::Finished(Outcome::Failed(Failure::Spawn))
                } else {
                    Step::Feed { text }
                }
            },
            Step::Feed { text } => {
                if failed {
                    Step::Finished(Outcome::Failed(Failure::Feed))
                } else {
                    Step::Wait
                }
            },
            Step::Wait => {
                if failed {
                    Step::Finished(Outcome::Failed(Failure::Wait))
                } else {
                    Step::Finished(Outcome::Completed)
                }
            },
            Step::Finished(outcome) => Step::Finished(outcome),
        }
    }

    /// Takes one line of a here-document: the line that holds the terminator
    /// ends it, any other line is added to the text.
    fn absorb(command: Invocation, terminator: String, text: String, line: &str) -> (next: Step)
        ensures
            next@ == (if is_substring(terminator@, line@) {
                StepView::StartReader { command: command@, text: text@ }
            } else {
                StepView::Ask { command: command@, terminator: terminator@, text: text@ + line@ }
            }),
    {
        if ends_heredoc(line, terminator.as_str()) {
            Step::StartReader { command, text }
        } else {
            let mut text = text;
            text.append(line);
            Step::Ask { command, terminator, text }
        }
    }
}

} // verus!
