use baker::conflict::{apply_conflict_markers, apply_git_style, ConflictStyle};

#[test]
fn identical_content_produces_no_markers() {
    let content = "line1\nline2\nline3\n";
    let result = apply_conflict_markers(content, content, ConflictStyle::Git);
    assert_eq!(result, content);
    assert!(!result.contains("<<<<<<<"));
}

#[test]
fn fully_different_content_wrapped_in_markers() {
    let existing = "old content\n";
    let updated = "new content\n";
    let result = apply_conflict_markers(existing, updated, ConflictStyle::Git);
    assert!(result.contains("<<<<<<< current\n"));
    assert!(result.contains("=======\n"));
    assert!(result.contains(">>>>>>> updated\n"));
    assert!(result.contains("old content\n"));
    assert!(result.contains("new content\n"));
}

#[test]
fn common_prefix_and_suffix_preserved() {
    let existing = "header\nold line\nfooter\n";
    let updated = "header\nnew line\nfooter\n";
    let result = apply_conflict_markers(existing, updated, ConflictStyle::Git);
    let marker_start = result.find("<<<<<<<").unwrap();
    let marker_end = result.find(">>>>>>>").unwrap();
    let before = &result[..marker_start];
    let after = &result[marker_end + ">>>>>>> updated\n".len()..];
    assert!(before.contains("header"));
    assert!(after.contains("footer"));
}

#[test]
fn conflict_style_default_is_git() {
    assert_eq!(ConflictStyle::default(), ConflictStyle::Git);
}

#[test]
fn conflict_style_name_is_git() {
    assert_eq!(ConflictStyle::Git.to_string(), "git");
}

#[test]
fn merge_layout_is_exact() {
    let result = apply_git_style("a\nb\nc\n", "a\nx\nc\n");
    assert_eq!(result, "a\n<<<<<<< current\nb\n=======\nx\n>>>>>>> updated\nc\n");
}

#[test]
fn merge_keeps_missing_final_newline() {
    let result = apply_git_style("same\nold", "same\nnew");
    assert_eq!(result, "same\n<<<<<<< current\nold\n=======\nnew\n>>>>>>> updated");
}

#[test]
fn identical_without_final_newline_is_unchanged() {
    let text = "one\ntwo";
    assert_eq!(apply_git_style(text, text), text);
}

#[test]
fn appended_lines_form_a_conflict_with_empty_current_side() {
    let result = apply_git_style("a\n", "a\nb\n");
    assert_eq!(result, "a\n<<<<<<< current\n=======\nb\n>>>>>>> updated\n");
}
