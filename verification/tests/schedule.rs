use hmc::leapfrog::{kick_after_drift, Kick};
use hmc::progress::{is_progress_point, progress_interval};

#[test]
fn interval_is_a_twentieth_and_at_least_one() {
    assert_eq!(progress_interval(0), 1);
    assert_eq!(progress_interval(19), 1);
    assert_eq!(progress_interval(20), 1);
    assert_eq!(progress_interval(39), 1);
    assert_eq!(progress_interval(40), 2);
    assert_eq!(progress_interval(1000), 50);
}

#[test]
fn progress_points_are_multiples_of_the_interval() {
    assert!(is_progress_point(49, 50));
    assert!(!is_progress_point(50, 50));
    assert!(is_progress_point(99, 50));
    assert!(is_progress_point(0, 1));
}

fn reports(n: usize) -> usize {
    let interval = progress_interval(n);
    (0..n).filter(|&i| is_progress_point(i, interval)).count()
}

#[test]
fn about_twenty_reports_per_run() {
    assert_eq!(reports(0), 0);
    assert_eq!(reports(7), 7);
    assert_eq!(reports(19), 19);
    assert_eq!(reports(20), 20);
    assert_eq!(reports(39), 39);
    assert_eq!(reports(41), 20);
    assert_eq!(reports(1000), 20);
    assert_eq!(reports(1019), 20);
    for n in 20..2000 {
        let r = reports(n);
        assert!(r >= 20 && r < 40, "n = {}, reports = {}", n, r);
        assert_eq!(r, n / progress_interval(n));
    }
}

#[test]
fn last_kick_is_half() {
    assert_eq!(kick_after_drift(0, 1), Kick::Half);
    assert_eq!(kick_after_drift(0, 3), Kick::Full);
    assert_eq!(kick_after_drift(1, 3), Kick::Full);
    assert_eq!(kick_after_drift(2, 3), Kick::Half);
}

#[test]
fn kicks_cover_every_step() {
    for n_steps in 1..50usize {
        let mut halves = 1usize;
        for n_step in 0..n_steps {
            halves += match kick_after_drift(n_step, n_steps) {
                Kick::Half => 1,
                Kick::Full => 2,
            };
        }
        assert_eq!(halves, 2 * n_steps);
    }
}
