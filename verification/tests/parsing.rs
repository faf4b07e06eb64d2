use reach::InputMode;

#[test]
fn test_input_mode_parse() {
    assert_eq!(Ok(InputMode::Stdin), "stdin".parse());
    assert_eq!(Ok(InputMode::Filename), "filename".parse());
}

#[test]
fn test_input_mode_parse_ignores_ascii_case() {
    assert_eq!(Ok(InputMode::Stdin), "STDIN".parse());
    assert_eq!(Ok(InputMode::Stdin), "Stdin".parse());
    assert_eq!(Ok(InputMode::Filename), "FileName".parse());
}

#[test]
fn test_input_mode_parse_rejects_unknown() {
    let r: Result<InputMode, String> = "lines".parse();
    assert_eq!(Err(String::from("No such InputMode: lines")), r);
    let r: Result<InputMode, String> = "".parse();
    assert_eq!(Err(String::from("No such InputMode: ")), r);
    // A keyword with trailing text is not a keyword.
    let r: Result<InputMode, String> = "stdin ".parse();
    assert_eq!(Err(String::from("No such InputMode: stdin ")), r);
}
