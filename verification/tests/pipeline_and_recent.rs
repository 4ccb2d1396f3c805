use grafica_ide::canvas::{dsl_parse_report, hash_str, DslPipeline, LogLevel, EVAL_DEBOUNCE_MS};
use grafica_ide::project::{opened_message, RecentFiles, RECENT_LIMIT};

#[test]
fn hash_is_deterministic_and_tells_contents_apart() {
    assert_eq!(hash_str("canvas A {}"), hash_str("canvas A {}"));
    assert_ne!(hash_str("canvas A {}"), hash_str("canvas B {}"));
    assert_ne!(hash_str(""), hash_str("x"));
    assert_ne!(hash_str("ab"), hash_str("ba"));
}

#[test]
fn debounce_waits_then_parses_once() {
    let mut p = DslPipeline::new();
    assert_eq!(EVAL_DEBOUNCE_MS, 300);
    let h = hash_str("canvas A {}");
    // The edit is seen at t = 1000 and not parsed yet.
    assert!(!p.poll(h, 1000));
    assert_eq!(p.next_eval_at, Some(1300));
    assert_eq!(p.last_seen_hash, h);
    assert!(!p.poll(h, 1299));
    // The deadline has passed: parse once.
    assert!(p.poll(h, 1300));
    assert_eq!(p.next_eval_at, None);
    assert_eq!(p.last_evaled_hash, h);
    // Unchanged content is never parsed again.
    assert!(!p.poll(h, 5000));
    assert!(!p.poll(h, 50_000));
}

#[test]
fn debounce_restarts_on_each_edit() {
    let mut p = DslPipeline::new();
    let a = hash_str("a");
    let ab = hash_str("ab");
    assert!(!p.poll(a, 0));
    assert!(!p.poll(ab, 200));
    assert_eq!(p.next_eval_at, Some(500));
    assert!(!p.poll(ab, 400));
    assert!(p.poll(ab, 500));
    assert_eq!(p.last_evaled_hash, ab);
}

#[test]
fn debounce_skips_content_equal_to_last_evaluated() {
    let mut p = DslPipeline::new();
    let a = hash_str("a");
    let b = hash_str("b");
    assert!(!p.poll(a, 0));
    assert!(p.poll(a, 300));
    // Typed and then undone before the deadline: back to the evaluated content.
    assert!(!p.poll(b, 400));
    assert!(!p.poll(a, 500));
    assert!(!p.poll(a, 900));
    // The deadline stays pending until the content changes again.
    assert_eq!(p.next_eval_at, Some(800));
}

#[test]
fn parse_reports() {
    let ok = dsl_parse_report(None);
    assert_eq!(ok.level, LogLevel::Info);
    assert_eq!(ok.message, "Canvas: DSL parsed; scene updated.");
    let err = dsl_parse_report(Some("unexpected token at 3:7"));
    assert_eq!(err.level, LogLevel::Warning);
    assert_eq!(err.message, "Canvas DSL parse error: unexpected token at 3:7");
}

fn names(r: &RecentFiles) -> Vec<String> {
    (0..r.len()).map(|i| r.get(i).to_string()).collect()
}

#[test]
fn recent_files_newest_first_without_duplicates() {
    let mut r = RecentFiles::new();
    assert!(r.is_empty());
    r.record("a.gnx".to_string());
    r.record("b.gnx".to_string());
    assert_eq!(names(&r), vec!["b.gnx", "a.gnx"]);
    r.record("a.gnx".to_string());
    assert_eq!(names(&r), vec!["b.gnx", "a.gnx"]);
    assert!(r.contains("a.gnx"));
    assert!(!r.contains("c.gnx"));
}

#[test]
fn recent_files_keep_at_most_ten() {
    let mut r = RecentFiles::new();
    assert_eq!(RECENT_LIMIT, 10);
    for i in 0..12 {
        r.record(format!("f{i}.gnx"));
    }
    assert_eq!(r.len(), 10);
    let expected: Vec<String> = (2..12).rev().map(|i| format!("f{i}.gnx")).collect();
    assert_eq!(names(&r), expected);
    assert!(!r.contains("f0.gnx"));
}

#[test]
fn opened_log_line() {
    assert_eq!(opened_message("demo.gnx"), "Opened demo.gnx");
}
