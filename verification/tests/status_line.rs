use hmc::export::ExportPaths;
use hmc::stage::{Progress, Stage};
use hmc::status::{exported_status, running_status, JobStatus};

#[test]
fn default_export_paths() {
    let paths = ExportPaths::default();
    assert_eq!(paths.position_histogram, "hmc_histogram.pdf");
    assert_eq!(paths.mh_position_histogram, "mh_histogram.pdf");
    assert_eq!(paths.momentum_histogram, "momentum_histogram.pdf");
    assert_eq!(paths.momentum_scan, "momentum_std_vs_mass.pdf");
    assert_eq!(paths.momentum_mass_index, None);
}

#[test]
fn running_status_of_reports() {
    match running_status(&Progress::Started) {
        JobStatus::Running(text) => assert_eq!(text, "starting"),
        _ => panic!("expected a running status"),
    }
    let report = Progress::Stage(Stage::Mh { chain: 0, total_chains: 1, done: 5, total: 100 });
    match running_status(&report) {
        JobStatus::Running(text) => assert_eq!(text, "MH chain 1/1: 5/100"),
        _ => panic!("expected a running status"),
    }
}

#[test]
fn exported_status_lists_files() {
    let paths = ExportPaths::default();
    match exported_status(&paths) {
        JobStatus::Exported(text) => assert_eq!(
            text,
            "wrote hmc_histogram.pdf, mh_histogram.pdf, momentum_histogram.pdf, momentum_std_vs_mass.pdf"
        ),
        _ => panic!("expected an exported status"),
    }
    let mut custom = ExportPaths::default();
    custom.position_histogram = String::from("a.pdf");
    custom.momentum_scan = String::from("d.pdf");
    match exported_status(&custom) {
        JobStatus::Exported(text) => assert_eq!(
            text,
            "wrote a.pdf, mh_histogram.pdf, momentum_histogram.pdf, d.pdf"
        ),
        _ => panic!("expected an exported status"),
    }
}
