use powgate::client::{next_client_step, ClientStep};
use powgate::load::{LoadWindow, SLOTS};
use powgate::miner::{check_solution, find_solution};
use powgate::server::{ApiServer, ChallengeResponse, Phase, Rejection, Reply};
use powgate::target::{calculate_target_work_count, target_work, Config, DEFAULT_BASE, DIFFICULTY};

fn solve(challenge: u64, difficulty: u64) -> u64 {
    find_solution(challenge, difficulty).expect("a solution exists")
}

fn failing(challenge: u64, difficulty: u64) -> u64 {
    let mut s: u64 = 0;
    while check_solution(s, difficulty, challenge) {
        s += 1;
    }
    s
}

#[test]
fn check_solution_matches_known_digest() {
    // SHA-256 of sixteen zero bytes begins with 374708fff7719dd5.
    let h: u64 = 0x374708fff7719dd5;
    assert!(check_solution(0, h + 1, 0));
    assert!(!check_solution(0, h, 0));
}

#[test]
fn check_solution_hashes_solution_then_challenge() {
    // SHA-256 of 5 then 9, each as eight big-endian bytes, begins with c7e153f08898b8a1.
    let h: u64 = 0xc7e153f08898b8a1;
    assert!(check_solution(5, h + 1, 9));
    assert!(!check_solution(5, h, 9));
    // swapped, the digest begins with 3c8251c820efaa5f
    assert!(check_solution(9, 0x3c8251c820efaa60, 5));
    assert!(!check_solution(9, 0x3c8251c820efaa5f, 5));
}

#[test]
fn check_solution_is_deterministic() {
    for s in 0..50u64 {
        let a = check_solution(s, DIFFICULTY, 12345);
        let b = check_solution(s, DIFFICULTY, 12345);
        assert_eq!(a, b);
    }
}

#[test]
fn check_solution_depends_on_the_challenge() {
    let s = solve(1, DIFFICULTY);
    let differs = (2..200u64).any(|c| !check_solution(s, DIFFICULTY, c));
    assert!(differs);
}

#[test]
fn zero_difficulty_has_no_solution() {
    assert_eq!(find_solution(42, 0), None);
    assert!(!check_solution(0, 0, 42));
}

#[test]
fn full_difficulty_accepts_zero() {
    assert_eq!(find_solution(42, u64::MAX), Some(0));
}

#[test]
fn find_solution_returns_the_smallest() {
    for c in [0u64, 7, 99, u64::MAX] {
        let s = solve(c, DIFFICULTY);
        assert!(check_solution(s, DIFFICULTY, c));
        for t in 0..s {
            assert!(!check_solution(t, DIFFICULTY, c));
        }
    }
}

#[test]
fn target_under_load() {
    assert_eq!(calculate_target_work_count(500), 1005);
    assert_eq!(target_work(500, 1000), 1005);
}

#[test]
fn target_without_load() {
    assert_eq!(calculate_target_work_count(0), DEFAULT_BASE);
    assert_eq!(target_work(0, 1), 1);
    assert_eq!(target_work(99, 1), 1);
    assert_eq!(target_work(100, 1), 2);
}

#[test]
fn target_saturates() {
    assert_eq!(target_work(u64::MAX, u64::MAX), u64::MAX);
    assert_eq!(target_work(u64::MAX, 1), u64::MAX / 100 + 1);
}

#[test]
fn target_is_monotone_and_positive() {
    let mut last = 0u64;
    for r in (0..5000u64).step_by(37) {
        let t = calculate_target_work_count(r);
        assert!(t >= 1);
        assert!(t >= last);
        last = t;
    }
}

#[test]
fn config_rejects_zero_base() {
    assert!(Config::new(DIFFICULTY, 0).is_none());
    let c = Config::new(5, 2).unwrap();
    assert_eq!(c.difficulty(), 5);
    assert_eq!(c.base(), 2);
    assert_eq!(c.target(300), 5);
    let s = Config::standard();
    assert_eq!(s.difficulty(), u64::MAX / 1000);
    assert_eq!(s.base(), 1000);
}

#[test]
fn fresh_window_is_empty() {
    let w = LoadWindow::new();
    assert_eq!(w.total(), 0);
    for i in 0..SLOTS {
        assert_eq!(w.slot(i), 0);
    }
}

#[test]
fn records_within_one_second_are_counted() {
    let mut w = LoadWindow::new();
    for k in 1..=25u64 {
        assert_eq!(w.record_and_total(1_700_000_003), k);
    }
    assert_eq!(w.total(), 25);
    assert_eq!(w.slot(3), 25);
    assert_eq!(w.slot(4), 0);
}

#[test]
fn record_clears_the_slot_ahead() {
    let mut w = LoadWindow::new();
    for t in 0..10u64 {
        w.record_and_total(100 + t);
    }
    // the tenth record, at second 109, cleared the slot of second 100
    assert_eq!(w.slot(0), 0);
    assert_eq!(w.total(), 9);
    assert_eq!(w.record_and_total(119), 10);
    assert_eq!(w.slot(9), 2);
    assert_eq!(w.slot(0), 0);
}

#[test]
fn idle_window_keeps_stale_counts() {
    // eviction happens only on a record: with no records the total stays
    let mut w = LoadWindow::new();
    w.record_and_total(50);
    w.record_and_total(55);
    assert_eq!(w.total(), 2);
    assert_eq!(w.total(), 2);
    // a record at second 60 bumps slot 0 and clears slot 1; slot 5 still counts
    assert_eq!(w.record_and_total(60), 3);
}

#[test]
fn happy_path_grants_token() {
    let config = Config::new(DIFFICULTY, 1).unwrap();
    let mut server = ApiServer::new(config);
    let (mut session, first) = server.open_session_with(2024);
    assert_eq!(session.target(), 1);
    assert_eq!(session.done(), 0);
    assert_eq!(first.left, 1);
    assert_eq!(first.challenge, 2024);
    assert_eq!(first.difficulty, DIFFICULTY);
    assert_eq!(first.token, "");
    let s = match next_client_step(&first) {
        ClientStep::Submit(s) => s,
        other => panic!("unexpected step {:?}", other),
    };
    match server.on_solution_with(&mut session, s, 77, 1_000) {
        Reply::Grant(c) => {
            assert_eq!(c, 77);
            let last = server.grant_response(c, "tok-1".to_string());
            assert_eq!(last.left, 0);
            assert_eq!(last.token, "tok-1");
            assert_eq!(next_client_step(&last), ClientStep::Finished("tok-1".to_string()));
        }
        _ => panic!("expected a grant"),
    }
    assert_eq!(session.phase(), Phase::Done);
    assert!(!session.is_open());
    assert_eq!(server.window().total(), 1);
    assert!(server.authorize_quote(true).is_ok());
}

#[test]
fn several_rounds_count_down() {
    let config = Config::new(DIFFICULTY, 3).unwrap();
    let mut server = ApiServer::new(config);
    let (mut session, first) = server.open_session_with(5);
    assert_eq!(first.left, 3);
    let mut msg = first;
    let mut rounds = 0;
    loop {
        let s = solve(msg.challenge, msg.difficulty);
        rounds += 1;
        match server.on_solution_with(&mut session, s, 1000 + rounds, 500) {
            Reply::Next(m) => {
                assert_eq!(m.left, 3 - rounds);
                assert_eq!(m.challenge, 1000 + rounds);
                assert_eq!(m.token, "");
                msg = m;
            }
            Reply::Grant(c) => {
                assert_eq!(c, 1000 + rounds);
                break;
            }
            Reply::Reject(_) => panic!("rejected a valid solution"),
        }
    }
    assert_eq!(rounds, 3);
    assert_eq!(session.done(), 3);
    assert_eq!(server.window().slot(0), 3);
}

#[test]
fn wrong_solution_is_rejected() {
    let config = Config::new(DIFFICULTY, 1).unwrap();
    let mut server = ApiServer::new(config);
    let (mut session, first) = server.open_session_with(31337);
    let bad = failing(first.challenge, first.difficulty);
    let reply = server.on_solution_with(&mut session, bad, 9, 10);
    assert!(matches!(reply, Reply::Reject(Rejection::InvalidSolution)));
    assert_eq!(session.phase(), Phase::Failed);
    assert_eq!(session.done(), 0);
    assert_eq!(session.challenge(), 31337);
    assert_eq!(server.window().total(), 0);
    assert_eq!(Rejection::InvalidSolution.message(), "Invalid solution");
}

#[test]
fn invalid_token_is_rejected() {
    let server = ApiServer::new(Config::standard());
    assert_eq!(server.authorize_quote(false), Err(Rejection::InvalidToken));
    assert_eq!(Rejection::InvalidToken.message(), "Invalid token");
}

#[test]
fn load_raises_the_target() {
    let mut w = LoadWindow::new();
    for _ in 0..500 {
        w.record_and_total(7);
    }
    assert_eq!(w.total(), 500);
    let server = ApiServer::with_window(Config::standard(), w);
    let (session, first) = server.open_session_with(1);
    assert_eq!(session.target(), 1005);
    assert_eq!(first.left, 1005);
}

#[test]
fn random_session_is_consistent() {
    let mut server = ApiServer::new(Config::new(DIFFICULTY, 2).unwrap());
    let (mut session, first) = server.open_session();
    assert_eq!(first.challenge, session.challenge());
    assert_eq!(first.left, 2);
    let s = solve(first.challenge, first.difficulty);
    match server.on_solution(&mut session, s, 3) {
        Reply::Next(m) => {
            assert_eq!(m.left, 1);
            assert_eq!(m.challenge, session.challenge());
        }
        _ => panic!("expected another round"),
    }
}

#[test]
fn client_takes_the_token() {
    let msg = ChallengeResponse { challenge: 1, left: 0, difficulty: 0, token: "abc".to_string() };
    assert_eq!(next_client_step(&msg), ClientStep::Finished("abc".to_string()));
}

#[test]
fn client_gives_up_on_zero_difficulty() {
    let msg = ChallengeResponse { challenge: 1, left: 4, difficulty: 0, token: String::new() };
    assert_eq!(next_client_step(&msg), ClientStep::Unsolvable);
}
