use chat_websockets::words::rustlatin;

#[test]
fn correct_splitting() {
    assert_eq!(
        vec!["This", "sentence", "needs", "to", "be", "split"],
        rustlatin("This sentence needs to be split")
    )
}

#[test]
fn splitting_single_word() {
    assert_eq!(vec!["word"], rustlatin("word"));
}

#[test]
fn splitting_on_runs_of_whitespace() {
    assert_eq!(vec!["a", "b"], rustlatin(" a  b "));
    assert_eq!(vec!["x", "y"], rustlatin("\tx\n\u{3000}y "));
    assert!(rustlatin("").is_empty());
    assert!(rustlatin(" \t ").is_empty());
}
