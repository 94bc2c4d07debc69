//! The status line of the interactive front end.

use vstd::prelude::*;

use crate::export::ExportPaths;
use crate::stage::{stage_label, stage_label_defined, stage_text, Progress};

verus! {

/// What the status line shows.
pub enum JobStatus {
    Idle,
    Running(String),
    Done { elapsed_ms: u128 },
    Exported(String),
    Error(String),
}

/// A progress report whose label can be written.
pub open spec fn progress_label_defined(progress: Progress) -> bool {
    match progress {
        Progress::Started => true,
        Progress::Stage(stage) => stage_label_defined(stage),
    }
}

/// The text of the running status for a progress report.
pub open spec fn progress_text(progress: Progress) -> Seq<char> {
    match progress {
        Progress::Started => "starting"@,
        Progress::Stage(stage) => stage_text(stage),
    }
}

/// The status line while a job runs, after the worker's latest report.
pub fn running_status(progress: &Progress) -> (status: JobStatus)
    requires
        progress_label_defined(*progress),
    ensures
        status matches JobStatus::Running(text) && text@ == progress_text(*progress),
        *progress is Started ==> (status matches JobStatus::Running(text) && text@ == "starting"@),
        progress matches Progress::Stage(stage) ==> (status matches JobStatus::Running(text)
            && text@ == stage_text(*stage)),
{
    match progress {
        Progress::Started => JobStatus::Running(String::from_str("starting")),
        Progress::Stage(stage) => JobStatus::Running(stage_label(stage)),
    }
}

/// The text reporting the files a successful export wrote.
pub open spec fn exported_text(paths: ExportPaths) -> Seq<char> {
    "wrote "@ + paths.position_histogram@ + ", "@ + paths.mh_position_histogram@ + ", "@
        + paths.momentum_histogram@ + ", "@ + paths.momentum_scan@
}

/// The export report names the four files in the order they are written,
/// separated by `", "` after `"wrote "`, and depends on nothing else: two sets
/// of paths that name the same files give the same report, whatever mass
/// index they ask for.
pub proof fn lemma_exported_text_names_the_files(paths: ExportPaths, other: ExportPaths)
    ensures
        exported_text(paths) == "wrote "@ + paths.position_histogram@ + ", "@
            + paths.mh_position_histogram@ + ", "@ + paths.momentum_histogram@ + ", "@
            + paths.momentum_scan@,
        paths.position_histogram@ == other.position_histogram@
            && paths.mh_position_histogram@ == other.mh_position_histogram@
            && paths.momentum_histogram@ == other.momentum_histogram@
            && paths.momentum_scan@ == other.momentum_scan@ ==> exported_text(paths)
            == exported_text(other),
{
}

/// The status line after the plots were written to `paths`.
pub fn exported_status(paths: &ExportPaths) -> (status: JobStatus)
    ensures
        status matches JobStatus::Exported(text) && text@ == exported_text(*paths),
        status matches JobStatus::Exported(text) && text@ == "wrote "@ + paths.position_histogram@
            + ", "@ + paths.mh_position_histogram@ + ", "@ + paths.momentum_histogram@ + ", "@
            + paths.momentum_scan@,
{
    let mut text = String::from_str("wrote ");
    text.append(paths.position_histogram.as_str());
    text.append(", ");
    text.append(paths.mh_position_histogram.as_str());
    text.append(", ");
    text.append(paths.momentum_histogram.as_str());
    text.append(", ");
    text.append(paths.momentum_scan.as_str());
    JobStatus::Exported(text)
}

} // verus!
