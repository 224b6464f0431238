use tsh::command::{
    is_operator_word, is_pipe_command, is_redir_character, is_redir_command, split_segments,
    CommandType, RedirOp,
};
use tsh::shell::SimpleShell;
use tsh::words::{chars_of, separates, tokenize};

fn words(list: &[&str]) -> Vec<String> {
    list.iter().map(|w| w.to_string()).collect()
}

fn parsed(line: &str) -> SimpleShell {
    let mut shell = SimpleShell::new();
    shell.parse_command(line.to_string());
    shell
}

#[test]
fn separators_are_space_cr_and_lf() {
    assert!(separates(' '));
    assert!(separates('\r'));
    assert!(separates('\n'));
    assert!(!separates('\t'));
    assert!(!separates('a'));
    assert!(!separates('|'));
}

#[test]
fn chars_of_keeps_every_character_in_order() {
    assert_eq!(chars_of("ab c"), vec!['a', 'b', ' ', 'c']);
    assert_eq!(chars_of(""), Vec::<char>::new());
    assert_eq!(chars_of("é|"), vec!['é', '|']);
}

#[test]
fn tokenize_splits_on_single_spaces() {
    assert_eq!(tokenize("ls -l /tmp\n"), words(&["ls", "-l", "/tmp"]));
}

#[test]
fn tokenize_drops_empty_tokens() {
    assert_eq!(tokenize("  echo   a \r\n b  "), words(&["echo", "a", "b"]));
}

#[test]
fn tokenize_of_blank_input_is_empty() {
    assert_eq!(tokenize(""), Vec::<String>::new());
    assert_eq!(tokenize("\n"), Vec::<String>::new());
    assert_eq!(tokenize(" \r\n  "), Vec::<String>::new());
}

#[test]
fn tokenize_keeps_the_last_word_without_line_end() {
    assert_eq!(tokenize("cat file"), words(&["cat", "file"]));
}

#[test]
fn tokenize_does_not_split_on_tabs_or_quotes() {
    assert_eq!(tokenize("echo\t'a b'\n"), words(&["echo\t'a", "b'"]));
}

#[test]
fn tokenize_keeps_characters_outside_ascii() {
    assert_eq!(tokenize("écho naïve ∑\n"), words(&["écho", "naïve", "∑"]));
}

#[test]
fn operators_are_recognised_as_whole_words_only() {
    assert!(is_operator_word(&"|".to_string()));
    assert!(is_operator_word(&">".to_string()));
    assert!(is_operator_word(&">>".to_string()));
    assert!(is_operator_word(&"<".to_string()));
    assert!(is_operator_word(&"<<".to_string()));
    assert!(!is_operator_word(&"||".to_string()));
    assert!(!is_operator_word(&">>>".to_string()));
    assert!(!is_operator_word(&"a>b".to_string()));
    assert!(!is_operator_word(&"".to_string()));
}

#[test]
fn redirection_characters_exclude_the_pipe() {
    assert!(is_redir_character(&">".to_string()));
    assert!(is_redir_character(&">>".to_string()));
    assert!(is_redir_character(&"<".to_string()));
    assert!(is_redir_character(&"<<".to_string()));
    assert!(!is_redir_character(&"|".to_string()));
    assert!(!is_redir_character(&"<>".to_string()));
    assert!(!is_redir_character(&"ls".to_string()));
}

#[test]
fn symbols_spell_the_operators() {
    assert_eq!(RedirOp::Write.symbol(), ">");
    assert_eq!(RedirOp::Append.symbol(), ">>");
    assert_eq!(RedirOp::Read.symbol(), "<");
    assert_eq!(RedirOp::HereDoc.symbol(), "<<");
}

#[test]
fn pipe_is_found_anywhere_in_the_line() {
    assert!(is_pipe_command(&words(&["a", "|", "b"])));
    assert!(is_pipe_command(&words(&["|"])));
    assert!(is_pipe_command(&words(&["a", ">", "f", "|"])));
    assert!(!is_pipe_command(&words(&["a", "||", "b"])));
    assert!(!is_pipe_command(&words(&[])));
}

#[test]
fn redirection_is_searched_in_operator_order() {
    assert_eq!(is_redir_command(&words(&["a", ">", "f"])), Some(RedirOp::Write));
    assert_eq!(is_redir_command(&words(&["a", ">>", "f"])), Some(RedirOp::Append));
    assert_eq!(is_redir_command(&words(&["a", "<", "f"])), Some(RedirOp::Read));
    assert_eq!(is_redir_command(&words(&["a", "<<", "f"])), Some(RedirOp::HereDoc));
    assert_eq!(is_redir_command(&words(&["a", "<<", "E", ">", "f"])), Some(RedirOp::Write));
    assert_eq!(is_redir_command(&words(&["a", "<", "f", ">>", "g"])), Some(RedirOp::Append));
    assert_eq!(is_redir_command(&words(&["a", "<<", "E", "<", "f"])), Some(RedirOp::Read));
    assert_eq!(is_redir_command(&words(&["a", "|", "b"])), None);
    assert_eq!(is_redir_command(&words(&[])), None);
}

#[test]
fn segments_of_no_words_is_one_empty_segment() {
    assert_eq!(split_segments(&words(&[])), vec![Vec::<String>::new()]);
}

#[test]
fn segments_are_cut_at_every_operator() {
    assert_eq!(
        split_segments(&words(&["a", "b", "|", "c", ">", "d", "e"])),
        vec![words(&["a", "b"]), words(&["c"]), words(&["d", "e"])]
    );
}

#[test]
fn segments_next_to_operators_may_be_empty() {
    assert_eq!(
        split_segments(&words(&["|", "<", "x", ">>"])),
        vec![words(&[]), words(&[]), words(&["x"]), words(&[])]
    );
}

#[test]
fn new_shell_holds_nothing() {
    let shell = SimpleShell::new();
    assert_eq!(shell.command(), &CommandType::Empty);
    assert_eq!(shell.leading_word(), "");
    assert!(!shell.is_quit());
}

#[test]
fn line_without_operator_is_a_shell_command() {
    let shell = parsed("ls  -l   /tmp\n");
    assert_eq!(shell.command(), &CommandType::ShellCommand(words(&["ls", "-l", "/tmp"])));
    assert_eq!(shell.leading_word(), "ls");
}

#[test]
fn line_without_words_is_empty() {
    for line in ["", " ", "\r\n", "   \n"] {
        let shell = parsed(line);
        assert_eq!(shell.command(), &CommandType::Empty);
        assert_eq!(shell.leading_word(), "");
    }
}

#[test]
fn line_with_one_pipe_splits_at_the_pipe() {
    let shell = parsed("cat a b | wc -l\n");
    assert_eq!(
        shell.command(),
        &CommandType::PipeCommand(words(&["cat", "a", "b"]), words(&["wc", "-l"]))
    );
    assert_eq!(shell.leading_word(), "cat");
}

#[test]
fn pipe_with_nothing_on_a_side_keeps_the_empty_side() {
    let left = parsed("| wc\n");
    assert_eq!(left.command(), &CommandType::PipeCommand(words(&[]), words(&["wc"])));
    assert_eq!(left.leading_word(), "");

    let right = parsed("ls |\n");
    assert_eq!(right.command(), &CommandType::PipeCommand(words(&["ls"]), words(&[])));
    assert_eq!(right.leading_word(), "ls");

    let both = parsed("|\n");
    assert_eq!(both.command(), &CommandType::PipeCommand(words(&[]), words(&[])));
    assert_eq!(both.leading_word(), "");
}

#[test]
fn each_redirection_operator_is_kept_with_its_two_sides() {
    let cases = [
        ("sort -r > out.txt\n", RedirOp::Write),
        ("sort -r >> out.txt\n", RedirOp::Append),
        ("sort -r < out.txt\n", RedirOp::Read),
        ("sort -r << out.txt\n", RedirOp::HereDoc),
    ];
    for (line, op) in cases {
        let shell = parsed(line);
        assert_eq!(
            shell.command(),
            &CommandType::RedirCommand(words(&["sort", "-r"]), words(&["out.txt"]), op)
        );
        assert_eq!(shell.leading_word(), "sort");
    }
}

#[test]
fn redirection_with_nothing_on_a_side_keeps_the_empty_side() {
    let shell = parsed("> f\n");
    assert_eq!(
        shell.command(),
        &CommandType::RedirCommand(words(&[]), words(&["f"]), RedirOp::Write)
    );
    assert_eq!(shell.leading_word(), "");

    let shell = parsed("cat <\n");
    assert_eq!(
        shell.command(),
        &CommandType::RedirCommand(words(&["cat"]), words(&[]), RedirOp::Read)
    );
}

#[test]
fn pipe_takes_priority_over_redirection() {
    let shell = parsed("a > f | b\n");
    assert_eq!(shell.command(), &CommandType::PipeCommand(words(&["a"]), words(&["f"])));

    let shell = parsed("a | b > f\n");
    assert_eq!(shell.command(), &CommandType::PipeCommand(words(&["a"]), words(&["b"])));
}

#[test]
fn segments_after_the_second_are_ignored() {
    let shell = parsed("a | b | c\n");
    assert_eq!(shell.command(), &CommandType::PipeCommand(words(&["a"]), words(&["b"])));

    let shell = parsed("a < in > out\n");
    assert_eq!(
        shell.command(),
        &CommandType::RedirCommand(words(&["a"]), words(&["in"]), RedirOp::Write)
    );
}

#[test]
fn operator_glued_to_a_word_is_no_operator() {
    let shell = parsed("echo a>b c|d\n");
    assert_eq!(shell.command(), &CommandType::ShellCommand(words(&["echo", "a>b", "c|d"])));
}

#[test]
fn parsing_replaces_what_was_held() {
    let mut shell = parsed("a | b\n");
    shell.parse_command("ls\n".to_string());
    assert_eq!(shell.command(), &CommandType::ShellCommand(words(&["ls"])));
    assert_eq!(shell.leading_word(), "ls");
    shell.parse_command("\n".to_string());
    assert_eq!(shell.command(), &CommandType::Empty);
    assert_eq!(shell.leading_word(), "");
}

#[test]
fn parsing_the_same_line_twice_gives_equal_commands() {
    for line in ["ls -l\n", "a | b\n", "a >> f\n", "| |\n", "", "quit now\n"] {
        let first = parsed(line);
        let mut second = parsed("something | else\n");
        second.parse_command(line.to_string());
        second.parse_command(line.to_string());
        assert_eq!(first.command(), second.command());
        assert_eq!(first.leading_word(), second.leading_word());
    }
}

#[test]
fn reset_drops_the_command() {
    let mut shell = parsed("quit | b\n");
    assert!(shell.is_quit());
    shell.reset_command();
    assert_eq!(shell.command(), &CommandType::Empty);
    assert_eq!(shell.leading_word(), "");
    assert!(!shell.is_quit());
}

#[test]
fn quit_is_told_by_the_leading_word_alone() {
    assert!(parsed("quit\n").is_quit());
    assert!(parsed("quit").is_quit());
    assert!(parsed("  quit  \r\n").is_quit());
    assert!(parsed("quit now please\n").is_quit());
    assert!(parsed("quit | wc\n").is_quit());
    assert!(parsed("quit > f\n").is_quit());
    assert!(!parsed("quits\n").is_quit());
    assert!(!parsed("QUIT\n").is_quit());
    assert!(!parsed("echo quit\n").is_quit());
    assert!(!parsed("| quit\n").is_quit());
    assert!(!parsed("\n").is_quit());
}
