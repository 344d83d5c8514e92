use riji::api::fs::{lines, split, which_candidates};
use riji::api::git::{line_color, origin_text, push_line, tag_ref, LineTone};
use riji::api::util::{machine_id, random_machine_id};

fn owned(items: &[&str]) -> Vec<String> {
    items.iter().map(|s| s.to_string()).collect()
}

#[test]
fn lines_end_each_item() {
    assert_eq!(lines(owned(&["a", "bc", ""])), "a\nbc\n\n");
}

#[test]
fn lines_of_nothing_is_empty() {
    assert_eq!(lines(Vec::new()), "");
}

#[test]
fn split_keeps_empty_pieces() {
    assert_eq!(split("/usr/bin::/bin:", ':'), owned(&["/usr/bin", "", "/bin", ""]));
}

#[test]
fn split_of_empty_text_is_one_empty_piece() {
    assert_eq!(split("", ':'), owned(&[""]));
}

#[test]
fn split_without_separator_is_the_text() {
    assert_eq!(split("no separator", ':'), owned(&["no separator"]));
}

#[test]
fn split_agrees_with_std() {
    let texts = ["a:b", ":", "::", "ä:ö:ü", "x", ":lead", "trail:"];
    for text in texts {
        let expected: Vec<String> = text.split(':').map(|s| s.to_string()).collect();
        assert_eq!(split(text, ':'), expected);
    }
}

#[test]
fn candidates_start_in_the_current_directory() {
    assert_eq!(
        which_candidates("tool", Some("/usr/bin:/bin")),
        owned(&["./tool", "/usr/bin/tool", "/bin/tool"])
    );
}

#[test]
fn candidates_without_a_search_path() {
    assert_eq!(which_candidates("tool", None), owned(&["./tool"]));
}

#[test]
fn candidates_with_an_empty_search_path() {
    assert_eq!(which_candidates("tool", Some("")), owned(&["./tool", "/tool"]));
}

#[test]
fn tag_ref_has_the_prefix() {
    assert_eq!(tag_ref("v1.2.0"), "refs/tags/v1.2.0");
    assert_eq!(tag_ref(""), "refs/tags/");
}

#[test]
fn tones_follow_the_origin() {
    assert_eq!(line_color('+'), LineTone::Added);
    assert_eq!(line_color('-'), LineTone::Removed);
    assert_eq!(line_color('F'), LineTone::FileHeader);
    assert_eq!(line_color('H'), LineTone::HunkHeader);
    assert_eq!(line_color(' '), LineTone::Plain);
    assert_eq!(line_color('>'), LineTone::Plain);
}

#[test]
fn origin_is_shown_for_changes_and_context() {
    assert_eq!(origin_text('+'), "+");
    assert_eq!(origin_text('-'), "-");
    assert_eq!(origin_text(' '), " ");
    assert_eq!(origin_text('F'), "");
    assert_eq!(origin_text('H'), "");
}

#[test]
fn patch_text_is_built_line_by_line() {
    let mut text = String::new();
    push_line(&mut text, 'F', "diff --git a/x b/x\n");
    push_line(&mut text, 'H', "@@ -1 +1 @@\n");
    push_line(&mut text, '-', "old\n");
    push_line(&mut text, '+', "new\n");
    push_line(&mut text, ' ', "same\n");
    assert_eq!(text, "diff --git a/x b/x\n@@ -1 +1 @@\n-old\n+new\n same\n");
}

#[test]
fn machine_id_is_hex_of_the_bytes() {
    let bytes = [
        0x00, 0x01, 0x0f, 0x10, 0x7f, 0x80, 0x9a, 0xab, 0xbc, 0xcd, 0xde, 0xef, 0xf0, 0xfe, 0xff,
        0x42,
    ];
    assert_eq!(machine_id(&bytes), "00010f107f809aabbccddeeff0feff42");
}

#[test]
fn machine_id_agrees_with_formatting() {
    let mut bytes = [0u8; 16];
    let mut seed = 7u8;
    for _ in 0..20 {
        for b in bytes.iter_mut() {
            seed = seed.wrapping_mul(31).wrapping_add(17);
            *b = seed;
        }
        let expected: String = bytes.iter().map(|b| format!("{:02x}", b)).collect();
        assert_eq!(machine_id(&bytes), expected);
    }
}

#[test]
fn random_machine_id_has_the_shape() {
    let id = random_machine_id();
    assert_eq!(id.chars().count(), 32);
    assert!(id.chars().all(|c| matches!(c, '0'..='9' | 'a'..='f')));
}

#[test]
fn random_machine_ids_differ() {
    let first = random_machine_id();
    let second = random_machine_id();
    let third = random_machine_id();
    assert!(first != second || second != third);
}
