//! The bodies of the service's answers.
use vstd::prelude::*;

use crate::data::{Experiment, FileInfo, Metric, Run, RunInfo};

verus! {

/// The id of a newly created experiment.
#[derive(Debug)]
pub struct CreateExperimentResponse {
    pub experiment_id: String,
}

/// One page of an experiment search.
#[derive(Debug)]
pub struct SearchExperimentsResponse {
    pub experiments: Vec<Experiment>,
    pub next_page_token: Option<String>,
}

/// One experiment.
#[derive(Debug)]
pub struct GetExperimentResponse {
    pub experiment: Experiment,
}

/// One run.
#[derive(Debug)]
pub struct GetRunResponse {
    pub run: Run,
}

/// One page of a metric's history.
#[derive(Debug)]
pub struct GetMetricHistoryResponse {
    pub metrics: Vec<Metric>,
    pub next_page_token: Option<String>,
}

/// One page of a run search.
#[derive(Debug)]
pub struct SearchRunsResponse {
    pub runs: Vec<Run>,
    pub next_page_token: Option<String>,
}

/// One page of a run's artifact listing.
#[derive(Debug)]
pub struct ListArtifactsResponse {
    pub root_uri: String,
    pub files: Vec<FileInfo>,
    pub page_token: Option<String>,
}

/// A run's metadata after an update.
#[derive(Debug)]
pub struct UpdateRunResponse {
    pub run_info: RunInfo,
}

/// The service's description of a failed request.
#[derive(Debug)]
pub struct ErrorResponse {
    pub error_code: String,
    pub message: String,
}

/// An answer without content.
#[derive(Debug)]
pub struct UnitResponse {}

} // verus!
