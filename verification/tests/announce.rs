use rust_actions_toolkit::announcement_lines;
use rust_actions_toolkit::transcript_lines;

#[test]
fn test_github_actions_toolkit() {
    announcement_lines();
}

#[test]
fn one_invocation_emits_the_two_lines() {
    let lines = announcement_lines();
    assert_eq!(lines.len(), 2);
    assert_eq!(
        lines[0],
        "This is a GitHub Actions toolkit, not a Rust library."
    );
    assert_eq!(
        lines[1],
        "Please visit: https://github.com/loonghao/rust-actions-toolkit"
    );
}

#[test]
fn zero_invocations_emit_nothing() {
    assert!(transcript_lines(0).is_empty());
}

#[test]
fn one_invocation_matches_the_transcript() {
    assert_eq!(transcript_lines(1), announcement_lines());
}

#[test]
fn two_invocations_repeat_the_pair_back_to_back() {
    let once = announcement_lines();
    let twice = transcript_lines(2);
    assert_eq!(twice.len(), 4);
    assert_eq!(&twice[..2], &once[..]);
    assert_eq!(&twice[2..], &once[..]);
}

#[test]
fn five_invocations_emit_five_identical_pairs() {
    let n = 5;
    let lines = transcript_lines(n);
    assert_eq!(lines.len(), 2 * n);
    for k in 0..n {
        assert_eq!(
            lines[2 * k],
            "This is a GitHub Actions toolkit, not a Rust library."
        );
        assert_eq!(
            lines[2 * k + 1],
            "Please visit: https://github.com/loonghao/rust-actions-toolkit"
        );
    }
}
