use reach::InputMode;
use reach::Runner;
use reach::StdinRunner;
use reach::FilenameRunner;
use reach::TaskError;

#[test]
fn stdin_invocation_uses_command_verbatim() {
    let runner = StdinRunner::new(String::from("/bin/sh"), String::from("cat"));
    let inv = runner.get_command();
    assert_eq!(inv.program, "/bin/sh");
    assert_eq!(inv.args, vec![String::from("-c"), String::from("cat")]);
    assert!(inv.reads_stdin);
}

#[test]
fn stdin_invocation_does_not_substitute() {
    // Stdin delivery uses the text verbatim: a `{}` in it stays as it is.
    let runner = StdinRunner::new(String::from("/bin/sh"), String::from("echo {}"));
    let inv = runner.get_command();
    assert_eq!(inv.args[1], "echo {}");
}

#[test]
fn filename_invocation_substitutes_every_token() {
    let runner = FilenameRunner::new(String::from("/bin/sh"), String::from("echo -n {}"));
    let inv = runner
        .get_command(Some("/src/file1.txt"))
        .expect("text path must be accepted");
    assert_eq!(inv.program, "/bin/sh");
    assert_eq!(
        inv.args,
        vec![String::from("-c"), String::from("echo -n /src/file1.txt")]
    );
    assert!(!inv.reads_stdin);

    let runner = FilenameRunner::new(String::from("/bin/sh"), String::from("cp {} {}.bak"));
    let inv = runner.get_command(Some("/a/b")).unwrap();
    assert_eq!(inv.args[1], "cp /a/b /a/b.bak");
}

#[test]
fn filename_invocation_leaves_other_text_alone() {
    let runner = FilenameRunner::new(String::from("/bin/sh"), String::from("wc -l"));
    let inv = runner.get_command(Some("/src/file1.txt")).unwrap();
    // No token, no change; the path appears nowhere.
    assert_eq!(inv.args[1], "wc -l");
    // Lone braces are not the token.
    let runner = FilenameRunner::new(String::from("/bin/sh"), String::from("awk '{ print }' { }"));
    let inv = runner.get_command(Some("/x")).unwrap();
    assert_eq!(inv.args[1], "awk '{ print }' { }");
}

#[test]
fn filename_invocation_rejects_non_text_path() {
    let runner = FilenameRunner::new(String::from("/bin/sh"), String::from("echo {}"));
    let r = runner.get_command(None);
    assert!(matches!(r, Err(TaskError::UnsupportedPath)));
}

#[test]
fn runner_dispatches_on_mode() {
    let runner = Runner::for_mode(
        InputMode::Stdin,
        String::from("/bin/sh"),
        String::from("cat"),
    );
    let inv = runner.get_command(None).unwrap();
    assert!(inv.reads_stdin);
    assert_eq!(inv.args[1], "cat");

    let runner = Runner::for_mode(
        InputMode::Filename,
        String::from("/bin/sh"),
        String::from("echo -n {}"),
    );
    let inv = runner.get_command(Some("/src/f")).unwrap();
    assert!(!inv.reads_stdin);
    assert_eq!(inv.args[1], "echo -n /src/f");
}
