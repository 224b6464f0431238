//! What holds of every line and of every run: what the words of a line are,
//! how lines without an operator, with one pipe and with one redirection are
//! classified, which word leads a line, that a line led by `quit` is told as
//! such whatever follows the word, what text a here-document gathers, and
//! that a run comes to an end.

use vstd::prelude::*;
use crate::command::{
    classify, is_operator, leading_word, pipe_word, redirection_of, segments_of, RedirOp, Shape,
};
use crate::execution::{
    after_lines, next_step, reports_left, EventView, StepView, HEREDOC_PROMPT,
};
use crate::heredoc::is_substring;
use crate::shell::{blank_line, parse_line, quit_word, SimpleShell, PROMPT};
use crate::words::{
    is_separator, is_word, lemma_filter_one, lemma_pieces_are_clean, lemma_split_concat,
    lemma_split_head, lemma_split_none, lemma_split_once, pieces, tokens_of,
};

verus! {

/// The words of a line are words: none is empty, none holds a separator.
pub proof fn law_tokens_are_words(line: Seq<char>)
    ensures
        forall|i: int| 0 <= i < tokens_of(line).len() ==> is_word(#[trigger] tokens_of(line)[i]),
{
    let all = pieces(line);
    let nonempty = |w: Seq<char>| w.len() > 0;
    lemma_pieces_are_clean(line);
    assert forall|i: int| 0 <= i < tokens_of(line).len() implies is_word(
        #[trigger] tokens_of(line)[i],
    ) by {
        all.lemma_filter_pred(nonempty, i);
        all.lemma_filter_contains_rev(nonempty, all.filter(nonempty)[i]);
    }
}

/// A line without characters has no words.
pub proof fn law_empty_line_has_no_words()
    ensures
        tokens_of(Seq::empty()) == Seq::<Seq<char>>::empty(),
{
    lemma_filter_one(Seq::empty());
    assert(pieces(Seq::empty()) =~~= seq![Seq::<char>::empty()]);
}

/// A line that is one word gives that word.
pub proof fn law_word_alone(word: Seq<char>)
    requires
        is_word(word),
    ensures
        tokens_of(word) == seq![word],
{
    lemma_split_none(word, |c: char| is_separator(c));
    lemma_filter_one(word);
}

/// A word that is followed by a separator is the first word of the line, and
/// the other words are those of the rest of the line.
pub proof fn law_word_then_separator(word: Seq<char>, c: char, rest: Seq<char>)
    requires
        is_word(word),
        is_separator(c),
    ensures
        tokens_of(word.push(c) + rest) == seq![word] + tokens_of(rest),
{
    let sep = |c: char| is_separator(c);
    lemma_split_none(word, sep);
    lemma_split_concat(word, c, rest, sep);
    Seq::filter_distributes_over_add(seq![word], pieces(rest), |w: Seq<char>| w.len() > 0);
    lemma_filter_one(word);
}

/// A separator at the start of a line adds no word, so runs of separators
/// count as one.
pub proof fn law_leading_separator(c: char, rest: Seq<char>)
    requires
        is_separator(c),
    ensures
        tokens_of(seq![c] + rest) == tokens_of(rest),
{
    let none = Seq::<char>::empty();
    lemma_split_concat(none, c, rest, |c: char| is_separator(c));
    Seq::filter_distributes_over_add(seq![none], pieces(rest), |w: Seq<char>| w.len() > 0);
    lemma_filter_one(none);
}

/// The operator words differ from each other, and each of them is an
/// operator.
proof fn lemma_operator_words()
    ensures
        redirection_of(RedirOp::Write.word()) == Some(RedirOp::Write),
        redirection_of(RedirOp::Append.word()) == Some(RedirOp::Append),
        redirection_of(RedirOp::Read.word()) == Some(RedirOp::Read),
        redirection_of(RedirOp::HereDoc.word()) == Some(RedirOp::HereDoc),
        redirection_of(pipe_word()) is None,
        is_operator(pipe_word()),
{
    assert(RedirOp::Write.word().len() == 1 && RedirOp::Write.word()[0] == '>');
    assert(RedirOp::Append.word().len() == 2);
    assert(RedirOp::Read.word().len() == 1 && RedirOp::Read.word()[0] == '<');
    assert(RedirOp::HereDoc.word().len() == 2);
    assert(pipe_word().len() == 1 && pipe_word()[0] == '|');
}

/// A line without an operator is a simple command: its words, all of them
/// and in order, are the program and its arguments, and the first of them
/// leads the line. The line has to hold a word: a line without words is
/// empty, not simple.
pub proof fn law_plain_line_is_simple(tokens: Seq<Seq<char>>)
    requires
        tokens.len() > 0,
        forall|i: int| 0 <= i < tokens.len() ==> !is_operator(tokens[i]),
    ensures
        classify(tokens) == Shape::Simple(tokens),
        leading_word(tokens) == tokens[0],
{
    lemma_operator_words();
    lemma_split_none(tokens, |w: Seq<char>| is_operator(w));
}

/// A line whose only operator is one pipe is a piped command: the words
/// before the pipe are the first command, the words after it the second.
/// Either side may be empty.
pub proof fn law_single_pipe_splits_at_pipe(tokens: Seq<Seq<char>>, at: int)
    requires
        0 <= at < tokens.len(),
        tokens[at] == pipe_word(),
        forall|i: int| 0 <= i < tokens.len() && i != at ==> !is_operator(tokens[i]),
    ensures
        classify(tokens) == Shape::Piped(tokens.take(at), tokens.skip(at + 1)),
{
    lemma_operator_words();
    lemma_split_once(tokens, |w: Seq<char>| is_operator(w), at);
}

/// A line whose only operator is one redirection is a redirected command
/// with that operator: the words before it are the command, the words after
/// it the target. Either side may be empty.
pub proof fn law_single_redirection_splits_at_operator(
    tokens: Seq<Seq<char>>,
    at: int,
    op: RedirOp,
)
    requires
        0 <= at < tokens.len(),
        tokens[at] == op.word(),
        forall|i: int| 0 <= i < tokens.len() && i != at ==> !is_operator(tokens[i]),
    ensures
        classify(tokens) == Shape::Redirected(tokens.take(at), tokens.skip(at + 1), op),
{
    lemma_operator_words();
    lemma_split_once(tokens, |w: Seq<char>| is_operator(w), at);
}

/// A pipe anywhere in a line makes it a piped command, whatever redirection
/// operators the line holds besides.
pub proof fn law_pipe_takes_priority(tokens: Seq<Seq<char>>)
    requires
        tokens.contains(pipe_word()),
    ensures
        classify(tokens) == Shape::Piped(segments_of(tokens)[0], segments_of(tokens)[1]),
{
}

/// The leading word of a line is its first word, unless the line begins
/// with an operator or holds no word: then the leading word is empty.
pub proof fn law_leading_word(tokens: Seq<Seq<char>>)
    ensures
        leading_word(tokens) == if tokens.len() > 0 && !is_operator(tokens[0]) {
            tokens[0]
        } else {
            Seq::<char>::empty()
        },
{
    if tokens.len() > 0 {
        lemma_split_head(tokens, |w: Seq<char>| is_operator(w));
    }
}

/// Parsing a line gives the same command whatever was held before, so two
/// interpreters that parsed the same line hold equal commands.
pub proof fn law_parsing_twice_gives_equal_commands(
    first: SimpleShell,
    second: SimpleShell,
    line: Seq<char>,
)
    requires
        first@ == parse_line(line),
        second@ == parse_line(line),
    ensures
        first@ == second@,
{
}

/// The word `quit` followed by a separator leads its line, whatever stands
/// after the separator; so does the word alone. Neither line is the blank
/// line, so both end the session.
pub proof fn law_quit_leads_whatever_follows(c: char, rest: Seq<char>)
    requires
        is_separator(c),
    ensures
        parse_line(quit_word().push(c) + rest).leading_word == quit_word(),
        parse_line(quit_word()).leading_word == quit_word(),
        quit_word().push(c) + rest != blank_line(),
        quit_word() != blank_line(),
{
    let quit = quit_word();
    assert((quit.push(c) + rest)[0] == 'q');
    assert(quit[0] == 'q');
    assert(is_word(quit));
    assert(!is_operator(quit)) by {
        lemma_operator_words();
        assert(quit.len() == 4);
    }
    law_word_then_separator(quit, c, rest);
    law_word_alone(quit);
    law_leading_word(tokens_of(quit.push(c) + rest));
    law_leading_word(tokens_of(quit));
}

/// While no line holds the terminator, the text of a here-document is the
/// lines read so far, joined in order as they were read, and another line is
/// asked for.
pub proof fn law_heredoc_keeps_every_line(
    command: Seq<Seq<char>>,
    terminator: Seq<char>,
    lines: Seq<Seq<char>>,
)
    requires
        forall|i: int| 0 <= i < lines.len() ==> !is_substring(terminator, lines[i]),
    ensures
        after_lines(StepView::Ask { command, terminator, text: Seq::empty() }, lines)
            == (StepView::Ask { command, terminator, text: lines.flatten() }),
    decreases lines.len(),
{
    if lines.len() > 0 {
        law_heredoc_keeps_every_line(command, terminator, lines.drop_last());
        lines.drop_last().lemma_flatten_push(lines.last());
        assert(lines.drop_last().push(lines.last()) =~= lines);
    }
}

/// The first line that holds the terminator ends a here-document: the
/// process is started next, and its input will be the lines read before that
/// line, joined in order. The line itself is dropped.
pub proof fn law_heredoc_ends_at_terminator(
    command: Seq<Seq<char>>,
    terminator: Seq<char>,
    lines: Seq<Seq<char>>,
    last: Seq<char>,
)
    requires
        forall|i: int| 0 <= i < lines.len() ==> !is_substring(terminator, lines[i]),
        is_substring(terminator, last),
    ensures
        after_lines(StepView::Ask { command, terminator, text: Seq::empty() }, lines.push(last))
            == (StepView::StartReader { command, text: lines.flatten() }),
{
    law_heredoc_keeps_every_line(command, terminator, lines);
    assert(lines.push(last).drop_last() =~= lines);
}

/// The prompt for a line of a here-document differs from the prompt for a
/// command line.
pub proof fn law_prompts_differ()
    ensures
        HEREDOC_PROMPT@ != PROMPT@,
{
    reveal_strlit("tsh> ");
    reveal_strlit("> ");
    assert(PROMPT@.len() == 5);
    assert(HEREDOC_PROMPT@.len() == 2);
}

/// Every report brings a run closer to its end. The one exception is a line
/// of a here-document that does not hold the terminator: after it another
/// line is asked for.
pub proof fn law_run_comes_to_an_end(step: StepView, event: EventView)
    requires
        !(step is Finished),
    ensures
        reports_left(next_step(step, event)) < reports_left(step) || (step is Ask && next_step(
            step,
            event,
        ) is Ask),
{
}

} // verus!
