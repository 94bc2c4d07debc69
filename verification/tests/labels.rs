use hmc::decimal::push_decimal;
use hmc::stage::{stage_label, Progress, Stage};

#[test]
fn hmc_label_counts_chains_from_one() {
    let stage = Stage::Hmc { chain: 0, total_chains: 4, done: 250, total: 1000 };
    assert_eq!(stage_label(&stage), "HMC chain 1/4: 250/1000");
}

#[test]
fn mh_label_shows_progress() {
    let stage = Stage::Mh { chain: 2, total_chains: 3, done: 0, total: 50 };
    assert_eq!(stage_label(&stage), "MH chain 3/3: 0/50");
}

#[test]
fn fixed_stage_labels() {
    assert_eq!(stage_label(&Stage::MomentumScanHmc), "scanning masses (HMC)");
    assert_eq!(stage_label(&Stage::MomentumScanMh), "scanning masses (MH)");
    assert_eq!(stage_label(&Stage::Histogram), "building histograms");
    assert_eq!(stage_label(&Stage::Done), "rendering");
}

#[test]
fn label_of_large_counts() {
    let stage = Stage::Hmc {
        chain: usize::MAX - 1,
        total_chains: usize::MAX,
        done: 1_234_567,
        total: 10,
    };
    let expected = format!("HMC chain {}/{}: 1234567/10", usize::MAX, usize::MAX);
    assert_eq!(stage_label(&stage), expected);
}

#[test]
fn progress_wraps_a_stage() {
    let progress = Progress::Stage(Stage::Done);
    match progress {
        Progress::Stage(stage) => assert_eq!(stage_label(&stage), "rendering"),
        Progress::Started => panic!("expected a stage"),
    }
}

#[test]
fn decimal_matches_display() {
    for n in [0usize, 1, 9, 10, 11, 99, 100, 101, 12345, 1_000_000, usize::MAX] {
        let mut out = String::from("n=");
        push_decimal(&mut out, n);
        assert_eq!(out, format!("n={}", n));
    }
}
