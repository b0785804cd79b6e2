use chat_launch::file_input::{does_input_reference_file, file_reference, is_path_like};
use chat_launch::text::trim;
use chat_launch::ChatState;

fn handled(state: Option<ChatState>) -> Option<String> {
    match state {
        Some(ChatState::HandleInput { input }) => Some(input),
        _ => None,
    }
}

fn words(list: &[&str]) -> Option<Vec<String>> {
    Some(list.iter().map(|s| s.to_string()).collect())
}

#[test]
fn test_does_input_reference_file() {
    let tests = &[
        (
            "/Users/user/Desktop/Screenshot\\ 2025-06-30\\ at\\ 2.13.34\u{202f}PM.png read this image for me",
            true,
        ),
        ("/path/to/file.json", true),
        ("/save output.json", false),
        ("~/does/not/start/with/slash", false),
    ];
    for (input, expected) in tests {
        let actual = does_input_reference_file(input).is_some();
        assert_eq!(actual, *expected, "expected {} for input {}", expected, input);
    }
}

#[test]
fn test_editor_content_processing() {
    let cases = vec![
        ("My content", "My content"),
        ("My content with newline\n", "My content with newline"),
        ("", ""),
    ];

    for (input, expected) in cases {
        let processed = trim(input);
        assert_eq!(processed, expected.trim().to_string(), "Failed for input: {}", input);
    }
}

#[test]
fn only_the_first_slash_is_taken_off() {
    assert_eq!(
        handled(does_input_reference_file("/path/to/file.json and more")),
        Some("path/to/file.json and more".to_string())
    );
    assert_eq!(handled(does_input_reference_file("//x")), Some("/x".to_string()));
}

#[test]
fn words_follow_the_rules_of_the_shell() {
    // The quotes make one word of what the blank would part.
    assert!(does_input_reference_file("/'my file.txt' please").is_some());
    assert!(does_input_reference_file("/my 'file.txt'").is_none());
    // An escaped blank does not end the word.
    assert!(does_input_reference_file(r"/my\ file.txt").is_some());
    // A backslash that escapes something is not part of the word.
    assert!(does_input_reference_file(r"/a\bc").is_none());
    assert!(does_input_reference_file(r"/a\\bc").is_some());
    // A comment holds no word.
    assert!(does_input_reference_file("/#a.b").is_none());
}

#[test]
fn erroneous_commands_reference_no_file() {
    assert!(does_input_reference_file("/a.b 'unclosed").is_none());
    assert!(does_input_reference_file("/a.b\\").is_none());
}

#[test]
fn empty_and_blank_input_references_no_file() {
    assert!(does_input_reference_file("").is_none());
    assert!(does_input_reference_file("/").is_none());
    assert!(does_input_reference_file("/ \t\n").is_none());
    assert!(does_input_reference_file("/''").is_none());
}

#[test]
fn plain_commands_go_by_their_first_run() {
    assert!(does_input_reference_file("/  a.b c").is_some());
    assert!(does_input_reference_file("/  a b.c").is_none());
    assert!(does_input_reference_file("/h\u{e9}lp").is_none());
    assert!(does_input_reference_file("/h\u{e9}.lp").is_some());
}

#[test]
fn later_words_do_not_matter() {
    for word in ["save", "a.b", "path/to", "x-1_y"] {
        let alone = does_input_reference_file(&format!("/{}", word)).is_some();
        for tail in ["", "x", "a.b/c", "'quo ted' \"x\"", "back\\ slash", "# comment 'open", "x#y"] {
            for blank in [" ", "\t", "\n"] {
                let input = format!("/{}{}{}", word, blank, tail);
                assert_eq!(does_input_reference_file(&input).is_some(), alone, "{:?}", input);
            }
        }
        for tail in ["'open", "\"open", "end\\"] {
            let input = format!("/{} {}", word, tail);
            assert!(does_input_reference_file(&input).is_none(), "{:?}", input);
        }
    }
}

#[test]
fn given_words_decide() {
    assert_eq!(handled(file_reference("x", words(&["a/b"]), '/')), Some("x".to_string()));
    assert_eq!(handled(file_reference("x", words(&["a\\b"]), '/')), Some("x".to_string()));
    assert_eq!(handled(file_reference("x", words(&["a.b"]), '/')), Some("x".to_string()));
    assert_eq!(handled(file_reference("x", words(&["a:b"]), ':')), Some("x".to_string()));
    assert!(file_reference("x", words(&["a:b"]), '/').is_none());
    assert!(file_reference("a.b", words(&["ab", "a.b"]), '/').is_none());
    assert!(file_reference("a.b", words(&[]), '/').is_none());
    assert!(file_reference("a.b", None, '/').is_none());
}

#[test]
fn either_separator_gives_the_same_answer() {
    for word in ["", "a", "a/b", "a\\b", "a.b"] {
        assert_eq!(is_path_like(word, '/'), is_path_like(word, '\\'));
    }
}

#[test]
fn a_chat_starts_by_prompting_with_tools() {
    assert!(matches!(
        ChatState::default(),
        ChatState::PromptUser { skip_printing_tools: false }
    ));
}
