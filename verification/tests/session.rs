use tsh::command::CommandType;
use tsh::execution::{Invocation, Outcome, Sink, Source, Step, HEREDOC_PROMPT};
use tsh::shell::{Directive, SimpleShell, PROMPT};

fn words(list: &[&str]) -> Vec<String> {
    list.iter().map(|w| w.to_string()).collect()
}

#[test]
fn line_feed_alone_only_prompts_again() {
    let mut shell = SimpleShell::new();
    assert_eq!(shell.handle_line("\n".to_string()), Directive::Prompt);
    assert_eq!(shell.command(), &CommandType::Empty);
}

#[test]
fn line_feed_alone_leaves_what_is_held() {
    let mut shell = SimpleShell::new();
    shell.parse_command("cat a | wc\n".to_string());
    assert_eq!(shell.handle_line("\n".to_string()), Directive::Prompt);
    assert_eq!(
        shell.command(),
        &CommandType::PipeCommand(words(&["cat", "a"]), words(&["wc"]))
    );
    assert_eq!(shell.leading_word(), "cat");
}

#[test]
fn other_blank_lines_are_parsed_and_run_as_nothing() {
    for line in ["", " \n", "\r\n", "\n\n"] {
        let mut shell = SimpleShell::new();
        shell.parse_command("ls\n".to_string());
        assert_eq!(
            shell.handle_line(line.to_string()),
            Directive::Execute(Step::Finished(Outcome::Completed))
        );
        assert_eq!(shell.command(), &CommandType::Empty);
    }
}

#[test]
fn quit_ends_the_session_without_a_step() {
    let mut shell = SimpleShell::new();
    assert_eq!(shell.handle_line("quit\n".to_string()), Directive::Quit);
    assert!(shell.is_quit());
}

#[test]
fn quit_ends_the_session_whatever_follows() {
    for line in ["quit now\n", "quit | wc\n", "quit > f\n", "  quit\r\n", "quit << EOF\n", "quit"] {
        let mut shell = SimpleShell::new();
        assert_eq!(shell.handle_line(line.to_string()), Directive::Quit);
    }
}

#[test]
fn quit_that_does_not_lead_the_line_is_run() {
    let mut shell = SimpleShell::new();
    assert_eq!(
        shell.handle_line("echo quit\n".to_string()),
        Directive::Execute(Step::Start {
            command: Invocation { program: "echo".to_string(), args: words(&["quit"]) },
            stdin: Source::Inherited,
            stdout: Sink::Inherited,
        })
    );
}

#[test]
fn command_line_is_handed_out_and_the_shell_left_empty() {
    let mut shell = SimpleShell::new();
    assert_eq!(
        shell.handle_line("ls -a\n".to_string()),
        Directive::Execute(Step::Start {
            command: Invocation { program: "ls".to_string(), args: words(&["-a"]) },
            stdin: Source::Inherited,
            stdout: Sink::Inherited,
        })
    );
    assert_eq!(shell.command(), &CommandType::Empty);
    assert_eq!(shell.leading_word(), "");
}

#[test]
fn the_two_prompts_differ() {
    assert_eq!(PROMPT, "tsh> ");
    assert_eq!(HEREDOC_PROMPT, "> ");
    assert_ne!(PROMPT, HEREDOC_PROMPT);
}
