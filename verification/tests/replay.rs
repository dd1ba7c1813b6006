use rustream::replay::{session_lines, ReplayAction, ReplaySession};

fn plan(text: &str) -> Vec<(usize, String)> {
    session_lines(text).into_iter().map(|l| (l.number, l.text)).collect()
}

#[test]
fn records_skip_blank_lines_and_keep_line_numbers() {
    let text = "{\"seq\":1}\n\n  {\"seq\":2}  \r\n\t\n{\"seq\":3}\n";
    assert_eq!(
        plan(text),
        vec![(1, "{\"seq\":1}".to_string()), (3, "{\"seq\":2}".to_string()), (5, "{\"seq\":3}".to_string())]
    );
}

#[test]
fn records_agree_with_lines_and_trim() {
    for text in ["", "\n", "a", "a\nb", "a\r\n\r\nb\n\n", " x \n\u{3000}\n y", "\n\n\nlast"] {
        let expected: Vec<(usize, String)> = text
            .lines()
            .enumerate()
            .filter(|(_, l)| !l.trim().is_empty())
            .map(|(i, l)| (i + 1, l.trim().to_string()))
            .collect();
        assert_eq!(plan(text), expected, "{:?}", text);
    }
}

#[test]
fn replay_steps_each_record_then_finishes_at_the_last_time() {
    let mut session = ReplaySession::new("r1\n\nr2\n");
    match session.next_action() {
        ReplayAction::Step { number, text } => {
            assert_eq!(number, 1);
            assert_eq!(text, "r1");
        },
        _ => panic!("expected a step"),
    }
    session.stepped(100);
    match session.next_action() {
        ReplayAction::Step { number, text } => {
            assert_eq!(number, 3);
            assert_eq!(text, "r2");
        },
        _ => panic!("expected a step"),
    }
    session.stepped(233);
    assert!(matches!(session.next_action(), ReplayAction::Finish { t_ms: 233 }));
    assert!(matches!(session.next_action(), ReplayAction::Done));
    assert!(matches!(session.next_action(), ReplayAction::Done));
}

#[test]
fn empty_replay_finishes_at_zero() {
    let mut session = ReplaySession::new("\n  \n");
    assert!(matches!(session.next_action(), ReplayAction::Finish { t_ms: 0 }));
    assert!(matches!(session.next_action(), ReplayAction::Done));
}
