use word_guess::order::{compare_words, Reply};
use word_guess::pool::WordPool;
use word_guess::session::{Action, Event, Session, PACING_MILLIS};
use word_guess::text::{
    begin_message, elapsed_micros, format_millis, handshake_prompt, outcome_label, report_line,
    u64_to_decimal, word_line,
};

fn pool_of(words: &[&str]) -> WordPool {
    let owned: Vec<String> = words.iter().map(|w| w.to_string()).collect();
    WordPool::new(owned).expect("non-empty source must yield a pool")
}

fn sent_text(a: &Action) -> &str {
    match a {
        Action::Send(m) => m.as_str(),
        _ => panic!("expected a Send action"),
    }
}

fn logged_text(a: &Action) -> &str {
    match a {
        Action::Log(m) => m.as_str(),
        _ => panic!("expected a Log action"),
    }
}

#[test]
fn empty_source_is_rejected() {
    let r = WordPool::new(Vec::new());
    assert!(r.is_err());
    let e = r.err().unwrap();
    assert_eq!(e.message(), "cannot build a word pool from an empty source");
}

#[test]
fn non_empty_source_yields_pool() {
    let pool = pool_of(&["apple", "mango", "zebra"]);
    assert_eq!(pool.word_count(), 3);
}

#[test]
fn sample_draws_from_contents() {
    let words = ["apple", "banana", "cherry", "mango", "zebra"];
    let pool = pool_of(&words);
    for _ in 0..100 {
        let w = pool.sample();
        assert!(words.contains(&w.as_str()));
    }
}

#[test]
fn sample_from_single_word_pool() {
    let pool = pool_of(&["mango"]);
    for _ in 0..10 {
        assert_eq!(pool.sample().as_str(), "mango");
    }
}

#[test]
fn comparison_is_codepoint_lexicographic() {
    assert_eq!(compare_words("apple", "mango"), Reply::Less);
    assert_eq!(compare_words("zebra", "mango"), Reply::Greater);
    assert_eq!(compare_words("mango", "mango"), Reply::Equal);
    assert_eq!(compare_words("", "mango"), Reply::Less);
    assert_eq!(compare_words("mango", ""), Reply::Greater);
    assert_eq!(compare_words("", ""), Reply::Equal);
    assert_eq!(compare_words("man", "mango"), Reply::Less);
    assert_eq!(compare_words("mangos", "mango"), Reply::Greater);
    // Case matters: capital letters sort before lowercase ones.
    assert_eq!(compare_words("Apple", "apple"), Reply::Less);
    assert_eq!(compare_words("apple", "Apple"), Reply::Greater);
}

#[test]
fn handshake_prompt_is_literal() {
    assert_eq!(handshake_prompt(), "TWITTER HANDLE PLZ");
}

#[test]
fn begin_message_greets_identity() {
    assert_eq!(
        begin_message("@guesser").as_str(),
        "HELLO @guesser; BEGIN GUESSING THE WORD"
    );
    assert_eq!(begin_message("").as_str(), "HELLO ; BEGIN GUESSING THE WORD");
}

#[test]
fn telemetry_lines_are_exact() {
    assert_eq!(
        word_line("127.0.0.1:9999", "@guesser", "mango").as_str(),
        "[127.0.0.1:9999 | @guesser] WORD mango"
    );
    assert_eq!(
        report_line("127.0.0.1:9999", "@guesser", true, 1_234_567).as_str(),
        "[127.0.0.1:9999 | @guesser] SUCCESS TIME 1234.567"
    );
    assert_eq!(
        report_line("127.0.0.1:9999", "@guesser", false, 80).as_str(),
        "[127.0.0.1:9999 | @guesser] FAIL TIME 0.080"
    );
}

#[test]
fn outcome_labels() {
    assert_eq!(outcome_label(true), "SUCCESS");
    assert_eq!(outcome_label(false), "FAIL");
}

#[test]
fn decimal_rendering_is_exact() {
    assert_eq!(u64_to_decimal(0).as_str(), "0");
    assert_eq!(u64_to_decimal(7).as_str(), "7");
    assert_eq!(u64_to_decimal(10).as_str(), "10");
    assert_eq!(u64_to_decimal(1234).as_str(), "1234");
    assert_eq!(
        u64_to_decimal(u64::MAX).as_str(),
        "18446744073709551615"
    );
}

#[test]
fn millis_rendering_is_exact() {
    assert_eq!(format_millis(0).as_str(), "0.000");
    assert_eq!(format_millis(999).as_str(), "0.999");
    assert_eq!(format_millis(1_000).as_str(), "1.000");
    assert_eq!(format_millis(100_050).as_str(), "100.050");
    assert_eq!(format_millis(2_000_001).as_str(), "2000.001");
}

#[test]
fn elapsed_is_distance_and_monotone() {
    assert_eq!(elapsed_micros(0, 0), 0);
    assert_eq!(elapsed_micros(3, 10), 7);
    let early = elapsed_micros(100, 250);
    let late = elapsed_micros(100, 400);
    assert!(early <= late);
}

#[test]
fn session_opens_with_prompt() {
    let (s, acts) = Session::new("peer:1".to_string());
    assert!(!s.is_done());
    assert!(!s.succeeded());
    assert_eq!(acts.len(), 1);
    assert_eq!(sent_text(&acts[0]), "TWITTER HANDLE PLZ");
}

#[test]
fn announce_logs_word_and_greets() {
    let pool = pool_of(&["mango"]);
    let (mut s, _) = Session::new("peer:1".to_string());
    let acts = s.step(&pool, 50, Event::Line("@guesser\r\n".to_string()));
    assert_eq!(s.identity_str().as_str(), "@guesser");
    assert_eq!(s.secret_word().as_str(), "mango");
    assert_eq!(s.start_micros(), 50);
    assert_eq!(acts.len(), 2);
    assert_eq!(logged_text(&acts[0]), "[peer:1 | @guesser] WORD mango");
    assert_eq!(sent_text(&acts[1]), "HELLO @guesser; BEGIN GUESSING THE WORD");
}

#[test]
fn eof_at_identity_is_empty_identity() {
    let pool = pool_of(&["mango"]);
    let (mut s, _) = Session::new("peer:1".to_string());
    let acts = s.step(&pool, 0, Event::Eof);
    assert_eq!(s.identity_str().as_str(), "");
    assert!(!s.is_done());
    assert_eq!(acts.len(), 2);
    assert_eq!(sent_text(&acts[1]), "HELLO ; BEGIN GUESSING THE WORD");
}

#[test]
fn guessing_toward_mango_succeeds() {
    let pool = pool_of(&["mango"]);
    let (mut s, _) = Session::new("peer:1".to_string());
    s.step(&pool, 0, Event::Line("@guesser\n".to_string()));

    let acts = s.step(&pool, 10, Event::Line("apple\n".to_string()));
    assert_eq!(acts.len(), 2);
    assert_eq!(sent_text(&acts[0]), "<");
    assert!(matches!(acts[1], Action::Pace));
    assert!(!s.is_done());

    let acts = s.step(&pool, 20, Event::Line("zebra\n".to_string()));
    assert_eq!(acts.len(), 2);
    assert_eq!(sent_text(&acts[0]), ">");
    assert!(matches!(acts[1], Action::Pace));
    assert!(!s.is_done());

    let acts = s.step(&pool, 30, Event::Line("mango\n".to_string()));
    assert_eq!(acts.len(), 1);
    assert_eq!(sent_text(&acts[0]), "=");
    assert!(s.is_done());
    assert!(s.succeeded());

    let line = s.report(1_500);
    assert_eq!(line.as_str(), "[peer:1 | @guesser] SUCCESS TIME 1.500");
}

#[test]
fn winning_guess_is_not_paced() {
    let pool = pool_of(&["mango"]);
    let (mut s, _) = Session::new("peer:1".to_string());
    s.step(&pool, 0, Event::Line("@guesser\n".to_string()));
    let acts = s.step(&pool, 10, Event::Line("mango\n".to_string()));
    assert!(!acts.iter().any(|a| matches!(a, Action::Pace)));
    assert_eq!(PACING_MILLIS, 100);
}

#[test]
fn disconnect_without_guesses_is_fail_with_no_reply() {
    let pool = pool_of(&["mango"]);
    let (mut s, _) = Session::new("peer:1".to_string());
    s.step(&pool, 0, Event::Line("@guesser\n".to_string()));
    let acts = s.step(&pool, 40, Event::Eof);
    assert_eq!(acts.len(), 0);
    assert!(s.is_done());
    assert!(!s.succeeded());
    let line = s.report(2_250);
    assert_eq!(line.as_str(), "[peer:1 | @guesser] FAIL TIME 2.250");
}

#[test]
fn guesses_are_trimmed_before_comparison() {
    let pool = pool_of(&["mango"]);
    let (mut s, _) = Session::new("peer:1".to_string());
    s.step(&pool, 0, Event::Line("  @guesser  \r\n".to_string()));
    assert_eq!(s.identity_str().as_str(), "@guesser");
    let acts = s.step(&pool, 10, Event::Line("   mango \t\r\n".to_string()));
    assert_eq!(sent_text(&acts[0]), "=");
    assert!(s.succeeded());
}

#[test]
fn interleaved_sessions_stay_independent() {
    let pool = pool_of(&["mango"]);
    let (mut a, _) = Session::new("peer:a".to_string());
    let (mut b, _) = Session::new("peer:b".to_string());
    a.step(&pool, 0, Event::Line("alice\n".to_string()));
    b.step(&pool, 5, Event::Line("bob\n".to_string()));
    a.step(&pool, 10, Event::Line("apple\n".to_string()));
    b.step(&pool, 15, Event::Line("mango\n".to_string()));
    assert!(!a.is_done());
    assert!(b.is_done() && b.succeeded());
    let acts = a.step(&pool, 20, Event::Eof);
    assert_eq!(acts.len(), 0);
    assert!(a.is_done() && !a.succeeded());
    assert_eq!(
        a.report(1_000).as_str(),
        "[peer:a | alice] FAIL TIME 1.000"
    );
    assert_eq!(
        b.report(1_000).as_str(),
        "[peer:b | bob] SUCCESS TIME 0.995"
    );
}
