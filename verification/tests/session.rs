use git_blame::{scan_exhausted, Error, GitBlame, RevisionId};

const REV_A: &str = "abababababababababababababababababababab";
const REV_B: &str = "86d242301830075e93ff039a4d1e88673a4a3020";

fn record(rev: &str, lineno: usize) -> String {
    format!("{} {} {} 1\n", rev, lineno, lineno)
}

#[test]
fn resolves_fed_record() {
    let mut session = GitBlame::new();
    assert!(session.get_line(1).is_none());
    let found = session.feed_line(&record(REV_A, 1), 1);
    let expected = RevisionId::from_hex(REV_A).unwrap();
    assert!(found.unwrap() == expected);
    assert!(session.get_line(1).unwrap() == expected);
}

#[test]
fn ignores_interspersed_metadata() {
    let mut session = GitBlame::new();
    assert!(session.feed_line("author Jane Doe\n", 3).is_none());
    assert!(session.feed_line("author-time 1528313929\n", 3).is_none());
    assert!(session.feed_line(&record(REV_A, 2), 3).is_none());
    let found = session.feed_line(&record(REV_B, 3), 3);
    assert!(found.unwrap() == RevisionId::from_hex(REV_B).unwrap());
    // The earlier record was cached on the way.
    assert!(session.get_line(2).unwrap() == RevisionId::from_hex(REV_A).unwrap());
}

#[test]
fn cache_is_monotonic() {
    let mut session = GitBlame::new();
    session.feed_line(&record(REV_A, 7), 7);
    let first = session.get_line(7).unwrap();
    assert!(first == RevisionId::from_hex(REV_A).unwrap());
    // A later record for the same line never reassigns it: the first
    // writer wins, and the answer handed back is the cached one.
    let fed_again = session.feed_line(&record(REV_B, 7), 7).unwrap();
    assert!(fed_again == RevisionId::from_hex(REV_A).unwrap());
    // Repeated lookups keep returning the same revision, with no
    // further output consumed: lookups never touch the stream.
    for _ in 0..3 {
        assert!(session.get_line(7).unwrap() == RevisionId::from_hex(REV_A).unwrap());
    }
}

#[test]
fn early_line_resolves_without_later_output() {
    // The queried line's record comes first; the lines after it are
    // ones that would never parse. The scan stops at the hit, so the
    // garbage is never fed.
    let lines = vec![
        record(REV_A, 1),
        "this trailing output would never parse\n".to_string(),
        "nor would this\n".to_string(),
    ];
    let mut session = GitBlame::new();
    let mut consumed = 0;
    let mut found = None;
    for line in &lines {
        consumed += 1;
        if let Some(rev) = session.feed_line(line, 1) {
            found = Some(rev);
            break;
        }
    }
    assert_eq!(consumed, 1);
    assert!(found.unwrap() == RevisionId::from_hex(REV_A).unwrap());
}

#[test]
fn exhausted_with_empty_stderr_is_no_result() {
    match scan_exhausted(String::new()) {
        Ok(found) => assert!(found.is_none()),
        Err(_) => panic!("an empty error stream is not a failure"),
    }
}

#[test]
fn exhausted_with_diagnostic_is_blame_error() {
    let diagnostic = "fatal: no such path 'bad_path.rs' in 86d2423\n";
    match scan_exhausted(diagnostic.to_string()) {
        Ok(_) => panic!("diagnostic text must fail the scan"),
        Err(Error::BlameError(text)) => assert_eq!(text, diagnostic),
        Err(_) => panic!("the failure carries the diagnostic text"),
    }
}

#[test]
fn sessions_fed_identical_output_agree() {
    let lines = vec![
        record(REV_A, 1),
        "author Jane Doe\n".to_string(),
        record(REV_B, 2),
        record(REV_A, 5),
    ];
    let mut one = GitBlame::new();
    let mut two = GitBlame::new();
    for line in &lines {
        one.feed_line(line, 9);
        two.feed_line(line, 9);
    }
    for lineno in 0..8 {
        match (one.get_line(lineno), two.get_line(lineno)) {
            (Some(a), Some(b)) => assert!(a == b),
            (None, None) => {}
            _ => panic!("sessions disagree on line {}", lineno),
        }
    }
    assert!(one.get_line(2).unwrap() == RevisionId::from_hex(REV_B).unwrap());
    assert!(one.get_line(5).unwrap() == RevisionId::from_hex(REV_A).unwrap());
    assert!(one.get_line(3).is_none());
}

#[test]
fn error_variants_carry_their_text() {
    let errors = vec![
        Error::ProcessSpawnError("tool missing".to_string()),
        Error::StreamCaptureError("no stdout".to_string()),
        Error::BlameError("fatal: bad revision".to_string()),
        Error::IoError("broken pipe".to_string()),
    ];
    for e in errors {
        match e {
            Error::ProcessSpawnError(t) => assert_eq!(t, "tool missing"),
            Error::StreamCaptureError(t) => assert_eq!(t, "no stdout"),
            Error::BlameError(t) => assert_eq!(t, "fatal: bad revision"),
            Error::IoError(t) => assert_eq!(t, "broken pipe"),
        }
    }
}
