//! The shapes a command line can take, and how a sequence of words is
//! classified as one of them.

use vstd::prelude::*;
use crate::words::{lemma_split_len, lemma_split_twice, split_by};

verus! {

/// The four redirection operators.
#[derive(Clone, Copy, Debug, PartialEq, Eq, Structural)]
pub enum RedirOp {
    /// `>`: standard output goes to a file that is created or truncated.
    Write,
    /// `>>`: standard output is appended to a file.
    Append,
    /// `<`: standard input comes from a file.
    Read,
    /// `<<`: standard input is text typed after the command, up to a
    /// terminator word.
    HereDoc,
}

impl RedirOp {
    /// The word that stands for this operator on a command line.
    pub open spec fn word(self) -> Seq<char> {
        match self {
            RedirOp::Write => seq!['>'],
            RedirOp::Append => seq!['>', '>'],
            RedirOp::Read => seq!['<'],
            RedirOp::HereDoc => seq!['<', '<'],
        }
    }

    /// The operator as it is written on a command line.
    pub fn symbol(&self) -> (s: &'static str)
        ensures
            s@ == self.word(),
    {
        proof {
            reveal_strlit(">");
            reveal_strlit(">>");
            reveal_strlit("<");
            reveal_strlit("<<");
        }
        match self {
            RedirOp::Write => ">",
            RedirOp::Append => ">>",
            RedirOp::Read => "<",
            RedirOp::HereDoc => "<<",
        }
    }
}

/// The word `|`, which joins two commands by a pipe.
pub open spec fn pipe_word() -> Seq<char> {
    seq!['|']
}

/// The redirection operator that `w` stands for, if it stands for one.
pub open spec fn redirection_of(w: Seq<char>) -> Option<RedirOp> {
    if w == RedirOp::Write.word() {
        Some(RedirOp::Write)
    } else if w == RedirOp::Append.word() {
        Some(RedirOp::Append)
    } else if w == RedirOp::Read.word() {
        Some(RedirOp::Read)
    } else if w == RedirOp::HereDoc.word() {
        Some(RedirOp::HereDoc)
    } else {
        None
    }
}

/// A word is an operator when it is the pipe or one of the four redirections.
pub open spec fn is_operator(w: Seq<char>) -> bool {
    w == pipe_word() || redirection_of(w) is Some
}

/// The first redirection operator, in the order `>`, `>>`, `<`, `<<`, that
/// occurs anywhere among `tokens`. The order is that of the operators, not of
/// the positions in the line.
pub open spec fn first_redirection(tokens: Seq<Seq<char>>) -> Option<RedirOp> {
    if tokens.contains(RedirOp::Write.word()) {
        Some(RedirOp::Write)
    } else if tokens.contains(RedirOp::Append.word()) {
        Some(RedirOp::Append)
    } else if tokens.contains(RedirOp::Read.word()) {
        Some(RedirOp::Read)
    } else if tokens.contains(RedirOp::HereDoc.word()) {
        Some(RedirOp::HereDoc)
    } else {
        None
    }
}

/// The runs of words between operators. The operators themselves are dropped.
pub open spec fn segments_of(tokens: Seq<Seq<char>>) -> Seq<Seq<Seq<char>>> {
    split_by(tokens, |w: Seq<char>| is_operator(w))
}

/// What one command line asks for.
pub enum Shape {
    /// Nothing: the line held no word.
    Empty,
    /// One program with its arguments.
    Simple(Seq<Seq<char>>),
    /// Two programs; the output of the first feeds the input of the second.
    Piped(Seq<Seq<char>>, Seq<Seq<char>>),
    /// One program, the words after the operator, and the operator.
    Redirected(Seq<Seq<char>>, Seq<Seq<char>>, RedirOp),
}

/// The first word of the first segment, or the empty word where that segment
/// is empty.
pub open spec fn leading_word(tokens: Seq<Seq<char>>) -> Seq<char> {
    let first = segments_of(tokens)[0];
    if first.len() > 0 {
        first[0]
    } else {
        Seq::empty()
    }
}

/// The shape of a line with the given words. A pipe anywhere in the line
/// makes it a piped command, whatever else the line holds; otherwise a
/// redirection operator anywhere makes it a redirected command. Only the
/// first two segments are kept.
pub open spec fn classify(tokens: Seq<Seq<char>>) -> Shape {
    let segments = segments_of(tokens);
    if tokens.len() == 0 {
        Shape::Empty
    } else if tokens.contains(pipe_word()) {
        Shape::Piped(segments[0], segments[1])
    } else if let Some(op) = first_redirection(tokens) {
        Shape::Redirected(segments[0], segments[1], op)
    } else {
        Shape::Simple(tokens)
    }
}

/// One parsed command line.
#[derive(Debug, PartialEq, Eq)]
pub enum CommandType {
    /// No command.
    Empty,
    /// A program name followed by its arguments.
    ShellCommand(Vec<String>),
    /// Two commands joined by a pipe.
    PipeCommand(Vec<String>, Vec<String>),
    /// A command, the words after the redirection operator, and the operator.
    RedirCommand(Vec<String>, Vec<String>, RedirOp),
}

impl View for CommandType {
    type V = Shape;

    open spec fn view(&self) -> Shape {
        match *self {
            CommandType::Empty => Shape::Empty,
            CommandType::ShellCommand(argv) => Shape::Simple(argv.deep_view()),
            CommandType::PipeCommand(first, second) => Shape::Piped(
                first.deep_view(),
                second.deep_view(),
            ),
            CommandType::RedirCommand(argv, target, op) => Shape::Redirected(
                argv.deep_view(),
                target.deep_view(),
                op,
            ),
        }
    }
}

/// Tells whether `word` is spelled `text`.
fn spells(word: &String, text: &str) -> (b: bool)
    ensures
        b == (word@ == text@),
{
    let other = text.to_owned();
    *word == other
}

/// Tells whether `tokens` holds the word `text`.
fn holds_word(tokens: &Vec<String>, text: &str) -> (b: bool)
    ensures
        b == tokens.deep_view().contains(text@),
{
    let word = text.to_owned();
    let mut i: usize = 0;
    while i < tokens.len()
        invariant
            i <= tokens.len(),
            word@ == text@,
            forall|k: int| 0 <= k < i ==> tokens.deep_view()[k] != text@,
        decreases tokens.len() - i,
    {
        if tokens[i] == word {
            assert(tokens.deep_view()[i as int] == text@);
            return true;
        }
        i = i + 1;
    }
    false
}

/// Tells whether the line holds a pipe.
pub fn is_pipe_command(tokens: &Vec<String>) -> (b: bool)
    ensures
        b == tokens.deep_view().contains(pipe_word()),
{
    proof {
        reveal_strlit("|");
        assert("|"@ =~= pipe_word());
    }
    holds_word(tokens, "|")
}

/// The redirection operator of the line, if it holds one: the first of `>`,
/// `>>`, `<`, `<<` that occurs among `tokens`.
pub fn is_redir_command(tokens: &Vec<String>) -> (op: Option<RedirOp>)
    ensures
        op == first_redirection(tokens.deep_view()),
{
    if holds_word(tokens, RedirOp::Write.symbol()) {
        Some(RedirOp::Write)
    } else if holds_word(tokens, RedirOp::Append.symbol()) {
        Some(RedirOp::Append)
    } else if holds_word(tokens, RedirOp::Read.symbol()) {
        Some(RedirOp::Read)
    } else if holds_word(tokens, RedirOp::HereDoc.symbol()) {
        Some(RedirOp::HereDoc)
    } else {
        None
    }
}

/// Tells whether `c` is one of the four redirection operators.
pub fn is_redir_character(c: &String) -> (b: bool)
    ensures
        b == (redirection_of(c@) is Some),
{
    spells(c, RedirOp::Write.symbol()) || spells(c, RedirOp::Append.symbol()) || spells(
        c,
        RedirOp::Read.symbol(),
    ) || spells(c, RedirOp::HereDoc.symbol())
}

/// Tells whether `word` is the pipe or a redirection operator.
pub fn is_operator_word(word: &String) -> (b: bool)
    ensures
        b == is_operator(word@),
{
    proof {
        reveal_strlit("|");
        assert("|"@ =~= pipe_word());
    }
    spells(word, "|") || is_redir_character(word)
}

/// Cuts the words of a line at its operators.
pub fn split_segments(tokens: &Vec<String>) -> (segments: Vec<Vec<String>>)
    ensures
        segments.deep_view() == segments_of(tokens.deep_view()),
{
    let mut segments: Vec<Vec<String>> = Vec::new();
    let mut current: Vec<String> = Vec::new();
    let mut i: usize = 0;
    let ghost words = tokens.deep_view();
    let ghost sep = |w: Seq<char>| is_operator(w);
    proof {
        assert(split_by(words.take(0), sep) =~~= segments.deep_view().push(current.deep_view()));
    }
    while i < tokens.len()
        invariant
            i <= tokens.len(),
            words == tokens.deep_view(),
            sep == |w: Seq<char>| is_operator(w),
            split_by(words.take(i as int), sep) == segments.deep_view().push(current.deep_view()),
        decreases tokens.len() - i,
    {
        let ghost run = current.deep_view();
        proof {
            assert(words.take(i + 1).drop_last() =~= words.take(i as int));
        }
        if is_operator_word(&tokens[i]) {
            segments.push(current);
            current = Vec::new();
            proof {
                assert(current.deep_view() =~= Seq::<Seq<char>>::empty());
            }
        } else {
            current.push(tokens[i].clone());
            proof {
                assert(current.deep_view() =~= run.push(tokens[i as int]@));
            }
        }
        i = i + 1;
    }
    proof {
        assert(words.take(i as int) =~= words);
    }
    segments.push(current);
    segments
}

/// A line always has a first segment, and a line that holds an operator has a
/// second one.
pub proof fn lemma_segments_count(tokens: Seq<Seq<char>>)
    ensures
        segments_of(tokens).len() >= 1,
        tokens.contains(pipe_word()) || first_redirection(tokens) is Some ==> segments_of(
            tokens,
        ).len() >= 2,
{
    let sep = |w: Seq<char>| is_operator(w);
    lemma_split_len(tokens, sep);
    if tokens.contains(pipe_word()) {
        lemma_split_twice(tokens, sep, tokens.index_of(pipe_word()));
    } else if let Some(op) = first_redirection(tokens) {
        lemma_split_twice(tokens, sep, tokens.index_of(op.word()));
    }
}

} // verus!
