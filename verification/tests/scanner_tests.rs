use std::io::Write;

use codex_core::is_remote_eligible;
use codex_core::scanner::{
    detect_local_file_paths, prompt_for_file_path_handling, resolve_matches, scan_path_candidates,
    select_existing, should_process_remotely, strip_urls, FilePathHandlingOption, GrammarKind,
    PathMatch,
};
use codex_core::subst::substitute_file_paths_with_urls;

#[test]
fn strip_removes_url_substrings() {
    assert_eq!(strip_urls("see https://example.com/a/b.txt"), "see ");
    assert_eq!(strip_urls("x http://host/p y"), "x  y");
    assert_eq!(strip_urls("no urls here"), "no urls here");
}

#[test]
fn url_paths_are_not_detected() {
    let refs = detect_local_file_paths("see https://example.com/a/b.txt");
    assert!(refs.is_empty());
}

#[test]
fn scan_finds_unix_candidates() {
    let ms = scan_path_candidates("check /tmp/demo/report.csv now");
    assert_eq!(ms.len(), 1);
    assert_eq!(ms[0].text, "/tmp/demo/report.csv");
    assert_eq!(ms[0].kind, GrammarKind::UnixAbsolute);
}

#[test]
fn scan_runs_grammars_independently() {
    // a home-relative mention also contains a unix-style tail, and the
    // grammars are not deduplicated against each other
    let ms = scan_path_candidates("open ~/notes/todo.txt");
    assert_eq!(ms.len(), 2);
    assert_eq!(ms[0].text, "/notes/todo.txt");
    assert_eq!(ms[0].kind, GrammarKind::UnixAbsolute);
    assert_eq!(ms[1].text, "~/notes/todo.txt");
    assert_eq!(ms[1].kind, GrammarKind::HomeRelative);
}

#[test]
fn scan_finds_relative_and_windows_candidates() {
    let ms = scan_path_candidates("use ./local/a.txt or C:\\Users\\x.doc");
    let texts: Vec<&str> = ms.iter().map(|m| m.text.as_str()).collect();
    assert!(texts.contains(&"./local/a.txt"));
    assert!(texts.contains(&"C:\\Users\\x.doc"));
    assert!(ms.iter().any(|m| m.kind == GrammarKind::Relative));
    assert!(ms.iter().any(|m| m.kind == GrammarKind::WindowsDrive));
}

#[test]
fn quotes_do_not_join_candidates() {
    let ms = scan_path_candidates("see '/tmp/a.txt' and \"/tmp/b.txt\"");
    let texts: Vec<&str> = ms.iter().map(|m| m.text.as_str()).collect();
    assert_eq!(texts, vec!["/tmp/a.txt", "/tmp/b.txt"]);
}

#[test]
fn resolve_expands_home_and_drops_when_homeless() {
    let ms = vec![
        PathMatch { text: "~/f.txt".to_string(), kind: GrammarKind::HomeRelative },
        PathMatch { text: "/abs.txt".to_string(), kind: GrammarKind::UnixAbsolute },
    ];
    let with_home = resolve_matches(&ms, &Some("/home/u".to_string()));
    assert_eq!(with_home.len(), 2);
    assert_eq!(with_home[0].resolved_path, "/home/u/f.txt");
    assert_eq!(with_home[0].matched_text, "~/f.txt");
    assert_eq!(with_home[1].resolved_path, "/abs.txt");

    let without_home = resolve_matches(&ms, &None);
    assert_eq!(without_home.len(), 1);
    assert_eq!(without_home[0].resolved_path, "/abs.txt");
}

#[test]
fn select_keeps_flagged_references_in_order() {
    let ms = vec![
        PathMatch { text: "/a".to_string(), kind: GrammarKind::UnixAbsolute },
        PathMatch { text: "/b".to_string(), kind: GrammarKind::UnixAbsolute },
        PathMatch { text: "/c".to_string(), kind: GrammarKind::UnixAbsolute },
    ];
    let rs = resolve_matches(&ms, &None);
    let kept = select_existing(&rs, &vec![true, false, true]);
    assert_eq!(kept.len(), 2);
    assert_eq!(kept[0].resolved_path, "/a");
    assert_eq!(kept[1].resolved_path, "/c");
}

#[test]
fn detect_confirms_against_the_filesystem() {
    let file = tempfile::Builder::new().prefix("detect").suffix(".csv").tempfile_in(
        "/tmp",
    ).unwrap();
    let path = file.path().to_str().unwrap().to_string();
    let text = format!("data sits in {} today", path);
    let refs = detect_local_file_paths(&text);
    assert_eq!(refs.len(), 1, "no reference found for {}", path);
    assert_eq!(refs[0].resolved_path, path);
    assert_eq!(refs[0].kind, GrammarKind::UnixAbsolute);

    let gone = detect_local_file_paths("data sits in /tmp/no/such/file.csv today");
    assert!(gone.is_empty());
}

#[test]
fn url_stripping_spares_local_paths() {
    let ms = scan_path_candidates(&strip_urls("see https://x.org/a.txt and /tmp/y.txt"));
    assert_eq!(ms.len(), 1);
    assert_eq!(ms[0].text, "/tmp/y.txt");
}

#[test]
fn overlapping_spans_stay_deterministic() {
    // both overlapping occurrences are still replaced, clamped to the
    // shrinking text
    let map = vec![("aa".to_string(), "X".to_string())];
    assert_eq!(substitute_file_paths_with_urls("aaa", &map), "X");
}

#[test]
fn substitution_replaces_both_occurrences() {
    let text = "a /x/y.txt b /x/y.txt c";
    let map = vec![("/x/y.txt".to_string(), "https://u/1".to_string())];
    assert_eq!(
        substitute_file_paths_with_urls(text, &map),
        "a https://u/1 b https://u/1 c"
    );
}

#[test]
fn substitution_on_longer_text() {
    let filler = "lorem ipsum ".repeat(50);
    let text = format!("{}/p/q.bin{} end /p/q.bin", filler, filler);
    let map = vec![("/p/q.bin".to_string(), "U".to_string())];
    let out = substitute_file_paths_with_urls(&text, &map);
    assert_eq!(out, format!("{}U{} end U", filler, filler));
}

#[test]
fn substitution_leaves_unmatched_text_alone() {
    let map = vec![("/absent".to_string(), "U".to_string())];
    assert_eq!(substitute_file_paths_with_urls("plain text", &map), "plain text");
    let empty: Vec<(String, String)> = Vec::new();
    assert_eq!(substitute_file_paths_with_urls("plain text", &empty), "plain text");
}

#[test]
fn substitution_handles_several_pairs() {
    let map = vec![
        ("/a.txt".to_string(), "ONE".to_string()),
        ("/b.txt".to_string(), "TWO".to_string()),
    ];
    assert_eq!(
        substitute_file_paths_with_urls("get /a.txt and /b.txt", &map),
        "get ONE and TWO"
    );
}

#[test]
fn eligibility_gate_is_exclusive_at_ten_mib() {
    assert!(!is_remote_eligible(true, Some(10 * 1024 * 1024)));
    assert!(!is_remote_eligible(true, Some(10 * 1024 * 1024 + 1)));
    assert!(is_remote_eligible(true, Some(10 * 1024 * 1024 - 1)));
    assert!(is_remote_eligible(true, Some(1)));
    assert!(!is_remote_eligible(false, Some(1)));
    assert!(!is_remote_eligible(true, None));
}

#[test]
fn size_gate_on_real_files() {
    let mut file = tempfile::NamedTempFile::new().unwrap();
    let big = vec![0u8; 10 * 1024 * 1024];
    file.write_all(&big).unwrap();
    file.flush().unwrap();
    let path = file.path().to_str().unwrap().to_string();
    assert!(!should_process_remotely(&path));

    // truncate down to a single byte at the same path
    file.as_file().set_len(1).unwrap();
    assert!(should_process_remotely(&path));

    assert!(!should_process_remotely("/tmp/no/such/file.bin"));
}

#[test]
fn default_policy_is_upload() {
    let refs = Vec::new();
    assert_eq!(prompt_for_file_path_handling(&refs), FilePathHandlingOption::Upload);
}
