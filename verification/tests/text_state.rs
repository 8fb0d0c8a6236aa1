use e2b_dash::state::{boxes_dir, is_record_file, join_path, load_boxes, sh, state_dir, BoxRecord};
use e2b_dash::app::files_text;
use e2b_dash::text::{chars_of, lex_le_chars, trim};

fn rec(key: &str, label: &str) -> BoxRecord {
    BoxRecord {
        key: key.to_string(),
        label: label.to_string(),
        status: String::new(),
        step: String::new(),
        sandbox_id: String::new(),
        files: 0,
        worktree_path: String::new(),
    }
}

/// What a POSIX shell makes of a word built from single-quoted runs and
/// backslash escapes; `None` for anything else.
fn shell_value(w: &str) -> Option<String> {
    let cs: Vec<char> = w.chars().collect();
    let mut out = String::new();
    let mut i = 0;
    let mut quoted = false;
    while i < cs.len() {
        let c = cs[i];
        if quoted {
            if c == '\'' {
                quoted = false;
            } else {
                out.push(c);
            }
            i += 1;
        } else if c == '\'' {
            quoted = true;
            i += 1;
        } else if c == '\\' && i + 1 < cs.len() && cs[i + 1] != '\n' {
            out.push(cs[i + 1]);
            i += 2;
        } else {
            return None;
        }
    }
    if quoted {
        None
    } else {
        Some(out)
    }
}

#[test]
fn sh_wraps_plain_value_in_quotes() {
    assert_eq!(sh("abc"), "'abc'");
    assert_eq!(sh(""), "''");
}

#[test]
fn sh_escapes_single_quotes() {
    assert_eq!(sh("it's"), "'it'\\''s'");
    assert_eq!(sh("'"), "''\\'''");
}

#[test]
fn sh_keeps_spaces_dollars_and_backticks_inside_quotes() {
    assert_eq!(sh("a b $HOME `x` \"q\""), "'a b $HOME `x` \"q\"'");
}

#[test]
fn sh_output_reads_back_as_one_word() {
    for s in ["", "plain", "with space", "it's", "''", "$(rm -rf /)", "a\\b", "tab\there", "é→ü", "new\nline"] {
        assert_eq!(shell_value(&sh(s)).as_deref(), Some(s));
    }
}

#[test]
fn trim_removes_unicode_white_space_at_both_ends() {
    assert_eq!(trim("  dracula\n"), "dracula");
    assert_eq!(trim("\u{3000}\tnord \u{a0}"), "nord");
    assert_eq!(trim("a b"), "a b");
    assert_eq!(trim("   "), "");
    assert_eq!(trim(""), "");
}

#[test]
fn trim_matches_std() {
    for s in ["  x  ", "\n\r\tx y\u{2028}", "\u{85}z\u{200a}", "no", " \u{1680} "] {
        assert_eq!(trim(s), s.trim());
    }
}

#[test]
fn decimal_matches_to_string() {
    for n in [1u32, 7, 10, 42, 99, 100, 12345, 1_000_000, u32::MAX] {
        assert_eq!(files_text(n), n.to_string());
    }
}

#[test]
fn lexicographic_order_matches_str_cmp() {
    let words = ["", "a", "ab", "b", "B", "é", "z", "aa", "ä"];
    for x in words {
        for y in words {
            assert_eq!(lex_le_chars(&chars_of(x), &chars_of(y)), x <= y, "{x} {y}");
        }
    }
}

#[test]
fn join_inserts_one_separator() {
    assert_eq!(join_path("/a/b", "c"), "/a/b/c");
    assert_eq!(join_path("/a/b/", "c"), "/a/b/c");
    assert_eq!(join_path("", "c"), "c");
}

#[test]
fn state_dir_prefers_herdr_plugin_dir() {
    let r = state_dir(Some("/p".into()), Some("/e".into()), Some("/x".into()), Some("/h".into()));
    assert_eq!(r, "/p");
}

#[test]
fn state_dir_then_plugin_override() {
    let r = state_dir(None, Some("/e".into()), Some("/x".into()), Some("/h".into()));
    assert_eq!(r, "/e");
}

#[test]
fn state_dir_then_xdg() {
    let r = state_dir(None, None, Some("/x".into()), Some("/h".into()));
    assert_eq!(r, "/x/herdr/plugins/herdr-e2b");
}

#[test]
fn state_dir_then_home() {
    assert_eq!(state_dir(None, None, None, Some("/h".into())), "/h/.local/state/herdr/plugins/herdr-e2b");
    assert_eq!(state_dir(None, None, None, None), ".local/state/herdr/plugins/herdr-e2b");
}

#[test]
fn boxes_dir_argument_wins() {
    assert_eq!(boxes_dir(Some("/tmp/b".into()), "/s"), "/tmp/b");
    assert_eq!(boxes_dir(None, "/s"), "/s/boxes");
}

#[test]
fn record_files_are_json_by_extension() {
    assert!(is_record_file("a.json"));
    assert!(is_record_file("a.b.json"));
    assert!(is_record_file("..json"));
    assert!(!is_record_file(".json"));
    assert!(!is_record_file("a.json.bak"));
    assert!(!is_record_file("a.JSON"));
    assert!(!is_record_file("json"));
    assert!(!is_record_file("a.log"));
    assert!(!is_record_file(""));
    assert!(!is_record_file(".."));
}

#[test]
fn record_file_matches_path_extension() {
    for n in ["a.json", ".json", "x.", "a.b", "..json", "a..json", "json.", "...", "a.jsonx"] {
        let std_says = std::path::Path::new(n).extension().and_then(|s| s.to_str()) == Some("json");
        assert_eq!(is_record_file(n), std_says, "{n}");
    }
}

#[test]
fn load_boxes_labels_and_sorts() {
    let out = load_boxes(vec![rec("zeta", ""), rec("k1", "beta"), rec("alpha", "")]);
    let labels: Vec<&str> = out.iter().map(|b| b.label.as_str()).collect();
    assert_eq!(labels, ["alpha", "beta", "zeta"]);
    assert_eq!(out[1].key, "k1");
}

#[test]
fn load_boxes_is_stable_for_equal_labels() {
    let out = load_boxes(vec![rec("k3", "same"), rec("k1", "a"), rec("k2", "same"), rec("same", "")]);
    let keys: Vec<&str> = out.iter().map(|b| b.key.as_str()).collect();
    assert_eq!(keys, ["k1", "k3", "k2", "same"]);
}

#[test]
fn load_boxes_empty() {
    assert!(load_boxes(Vec::new()).is_empty());
}
