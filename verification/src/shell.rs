//! The interpreter: it holds the command parsed last, tells whether the line
//! asked to quit, and hands the command out to be run.

use vstd::prelude::*;
use crate::command::{
    classify, is_pipe_command, is_redir_command, leading_word, lemma_segments_count,
    split_segments, CommandType, Shape,
};
use crate::execution::{first_step, Step};
use crate::words::{tokenize, tokens_of};

verus! {

/// What the interpreter holds after a line was parsed.
pub struct Command {
    /// The first word of the line, or the empty word where the line starts
    /// with an operator or holds no word.
    pub leading_word: Seq<char>,
    /// What the line asks for.
    pub shape: Shape,
}

impl Command {
    /// The state in which no command is held.
    pub open spec fn empty() -> Command {
        Command { leading_word: Seq::empty(), shape: Shape::Empty }
    }
}

/// The command that a line stands for.
pub open spec fn parse_line(line: Seq<char>) -> Command {
    let tokens = tokens_of(line);
    Command { leading_word: leading_word(tokens), shape: classify(tokens) }
}

/// The word that ends the session when it leads a line.
pub open spec fn quit_word() -> Seq<char> {
    seq!['q', 'u', 'i', 't']
}

/// The line that holds a line feed and nothing else.
pub open spec fn blank_line() -> Seq<char> {
    seq!['\n']
}

/// The prompt that is shown before a command line is read.
pub const PROMPT: &'static str = "tsh> ";

/// What the read loop has to do with a line.
#[derive(Debug, PartialEq, Eq)]
pub enum Directive {
    /// Nothing: show the prompt again.
    Prompt,
    /// End the session; nothing is run.
    Quit,
    /// Run the command, beginning with this step.
    Execute(Step),
}

/// The interpreter. It holds at most one parsed command.
pub struct SimpleShell {
    firstcmd: String,
    cmd: CommandType,
}

impl View for SimpleShell {
    type V = Command;

    closed spec fn view(&self) -> Command {
        Command { leading_word: self.firstcmd@, shape: self.cmd@ }
    }
}

impl SimpleShell {
    /// An interpreter that holds no command.
    pub fn new() -> (shell: SimpleShell)
        ensures
            shell@ == Command::empty(),
    {
        SimpleShell { firstcmd: String::new(), cmd: CommandType::Empty }
    }

    /// Drops the command that is held.
    pub fn reset_command(&mut self)
        ensures
            final(self)@ == Command::empty(),
    {
        self.firstcmd = String::new();
        self.cmd = CommandType::Empty;
    }

    /// Parses `cmd` and holds the result in place of what was held before.
    pub fn parse_command(&mut self, cmd: String)
        ensures
            final(self)@ == parse_line(cmd@),
    {
        self.reset_command();
        let tokens = tokenize(cmd.as_str());
        let mut segments = split_segments(&tokens);
        proof {
            lemma_segments_count(tokens.deep_view());
        }
        if segments[0].len() > 0 {
            self.firstcmd = segments[0][0].clone();
        }
        if tokens.len() == 0 {
            return;
        }
        let piped = is_pipe_command(&tokens);
        let redirected = is_redir_command(&tokens);
        if piped {
            let second = segments.remove(1);
            let first = segments.remove(0);
            self.cmd = CommandType::PipeCommand(first, second);
        } else if let Some(op) = redirected {
            let second = segments.remove(1);
            let first = segments.remove(0);
            self.cmd = CommandType::RedirCommand(first, second, op);
        } else {
            self.cmd = CommandType::ShellCommand(tokens);
        }
    }

    /// Takes the command that is held and gives the step that its run begins
    /// with. Nothing is held afterwards, however the run ends.
    pub fn exec_command(&mut self) -> (step: Step)
        ensures
            step@ == first_step(old(self)@.shape),
            final(self)@ == Command::empty(),
    {
        let mut command = CommandType::Empty;
        std::mem::swap(&mut self.cmd, &mut command);
        self.firstcmd = String::new();
        Step::first(command)
    }

    /// Tells whether the line parsed last asks to end the session: whether
    /// its leading word is `quit`.
    pub fn is_quit(&self) -> (b: bool)
        ensures
            b == (self@.leading_word == quit_word()),
    {
        proof {
            reveal_strlit("quit");
            assert("quit"@ =~= quit_word());
        }
        let quit = "quit".to_owned();
        self.firstcmd == quit
    }

    /// The leading word of the line parsed last.
    pub fn leading_word(&self) -> (word: &String)
        ensures
            word@ == self@.leading_word,
    {
        &self.firstcmd
    }

    /// The command that is held.
    pub fn command(&self) -> (cmd: &CommandType)
        ensures
            cmd@ == self@.shape,
    {
        &self.cmd
    }

    /// Decides what the read loop does with `line`. A line that is a line feed
    /// alone is not parsed, and what is held stays. A line led by `quit` is
    /// parsed and ends the session. Any other line is parsed and handed out
    /// to be run.
    pub fn handle_line(&mut self, line: String) -> (directive: Directive)
        ensures
            match directive {
                Directive::Prompt => line@ == blank_line() && final(self)@ == old(self)@,
                Directive::Quit => {
                    &&& line@ != blank_line()
                    &&& parse_line(line@).leading_word == quit_word()
                    &&& final(self)@ == parse_line(line@)
                },
                Directive::Execute(step) => {
                    &&& line@ != blank_line()
                    &&& parse_line(line@).leading_word != quit_word()
                    &&& step@ == first_step(parse_line(line@).shape)
                    &&& final(self)@ == Command::empty()
                },
            },
    {
        proof {
            reveal_strlit("\n");
            assert("\n"@ =~= blank_line());
        }
        let blank = "\n".to_owned();
        if line == blank {
            Directive::Prompt
        } else {
            self.parse_command(line);
            if self.is_quit() {
                Directive::Quit
            } else {
                Directive::Execute(self.exec_command())
            }
        }
    }
}

} // verus!
