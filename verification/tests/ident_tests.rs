use tmux_project::ident::valid_tmux_identifier;

#[test]
fn identifier_accepts_ordinary_names() {
    assert!(valid_tmux_identifier("work"));
    assert!(valid_tmux_identifier("my-project_1"));
    assert!(valid_tmux_identifier("with space"));
}

#[test]
fn identifier_rejects_empty() {
    assert!(!valid_tmux_identifier(""));
}

#[test]
fn identifier_rejects_separators() {
    assert!(!valid_tmux_identifier("a.b"));
    assert!(!valid_tmux_identifier("a:b"));
}

#[test]
fn identifier_rejects_control_characters() {
    assert!(!valid_tmux_identifier("a\nb"));
    assert!(!valid_tmux_identifier("a\tb"));
    assert!(!valid_tmux_identifier("a\x7fb"));
}
