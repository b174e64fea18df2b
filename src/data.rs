//! The service's data model, as plain values.
use vstd::prelude::*;

verus! {

/// A file or directory among a run's artifacts.
#[derive(Debug, Clone, PartialEq, Eq, PartialOrd, Ord)]
pub struct FileInfo {
    pub path: String,
    pub is_dir: bool,
    pub file_size: Option<i64>,
}

/// A run: its metadata, its logged data and its inputs.
#[derive(Debug, Clone)]
pub struct Run {
    pub info: RunInfo,
    pub data: RunData,
    pub inputs: RunInputs,
}

/// The metadata of a run.
#[derive(Debug, Clone, PartialEq, Eq, PartialOrd, Ord)]
pub struct RunInfo {
    pub run_id: String,
    pub run_name: String,
    pub experiment_id: String,
    pub status: RunStatus,
    pub start_time: Timestamp,
    pub end_time: Option<Timestamp>,
    pub artifact_uri: String,
    pub lifecycle_stage: String,
}

/// What has been logged to a run.
#[derive(Debug, Clone)]
pub struct RunData {
    pub metrics: Vec<Metric>,
    pub params: Vec<Param>,
    pub tags: Vec<RunTag>,
}

/// The datasets a run used.
#[derive(Debug, Clone, PartialEq, Eq, PartialOrd, Ord)]
pub struct RunInputs {
    pub dataset_inputs: Vec<DatasetInput>,
}

/// One dataset a run used, with tags about its use.
#[derive(Debug, Clone, PartialEq, Eq, PartialOrd, Ord)]
pub struct DatasetInput {
    pub tags: Vec<InputTag>,
    pub dataset: Dataset,
}

/// A tag on a dataset input.
#[derive(Debug, Clone, PartialEq, Eq, PartialOrd, Ord)]
pub struct InputTag {
    pub key: String,
    pub value: String,
}

/// A dataset's description.
#[derive(Debug, Clone, PartialEq, Eq, PartialOrd, Ord)]
pub struct Dataset {
    pub name: String,
    pub digest: String,
    pub source_type: String,
    pub source: String,
    pub schema: Option<String>,
    pub profile: Option<String>,
}

/// A named grouping of runs.
#[derive(Debug, Clone, PartialEq, Eq, PartialOrd, Ord)]
pub struct Experiment {
    pub experiment_id: String,
    pub name: String,
    pub artifact_location: String,
    pub lifecycle_stage: String,
    pub last_update_time: Timestamp,
    pub creation_time: Timestamp,
    pub tags: Vec<ExperimentTag>,
}

/// Which experiments or runs a search returns.
#[derive(Debug, Clone, Copy, Default, PartialEq, Eq, Structural, PartialOrd, Ord)]
pub enum ViewType {
    #[default]
    ActiveOnly,
    DeletedOnly,
    All,
}

/// A tag on an experiment.
#[derive(Debug, Clone, PartialEq, Eq, PartialOrd, Ord)]
pub struct ExperimentTag {
    pub key: String,
    pub value: String,
}

/// A tag on a run.
#[derive(Debug, Clone, PartialEq, Eq, PartialOrd, Ord)]
pub struct RunTag {
    pub key: String,
    pub value: String,
}

/// Options of experiment creation.
#[derive(Debug, Clone, Copy, Default)]
pub struct CreateExperimentOptions<'a> {
    pub artifact_location: Option<&'a str>,
    pub tags: &'a [ExperimentTag],
}

/// Options of an experiment search.
#[derive(Debug, Clone, Copy, Default)]
pub struct SearchExperimentsOptions<'a> {
    pub filter: &'a str,
    pub order_by: &'a [&'a str],
    pub view_type: ViewType,
}

/// Options of run creation.
#[derive(Debug, Clone, Copy, Default)]
pub struct CreateRunOptions<'a> {
    pub start_time: Option<Timestamp>,
    pub tags: &'a [RunTag],
}

/// Options of a run search.
#[derive(Debug, Clone, Copy, Default)]
pub struct SearchRunsOptions<'a> {
    pub filter: &'a str,
    pub run_view_type: ViewType,
    pub order_by: &'a [&'a str],
}

/// Changes to a run; `None` leaves a field as it is.
#[derive(Debug, Clone, Copy, Default)]
pub struct UpdateRunOptions<'a> {
    pub status: Option<RunStatus>,
    pub end_time: Option<Timestamp>,
    pub run_name: Option<&'a str>,
}

/// Lifecycle status of a run.
#[derive(Debug, Clone, Copy, PartialEq, Eq, Structural, PartialOrd, Ord)]
pub enum RunStatus {
    Running,
    Scheduled,
    Finished,
    Failed,
    Killed,
}

/// Unix timestamp in milliseconds.
#[derive(Debug, Clone, Copy, PartialEq, Eq, Structural, PartialOrd, Ord)]
pub struct Timestamp(pub i64);

/// One timestamped, optionally step-indexed observation of a run.
///
/// The observed number is carried as its IEEE-754 binary64 bit pattern, so
/// the record holds plain integers only.
#[derive(Debug, Clone)]
pub struct Metric {
    pub key: String,
    pub value_bits: u64,
    pub timestamp: Timestamp,
    pub step: Option<i64>,
}

/// A run parameter.
#[derive(Debug, Clone)]
pub struct Param {
    pub key: String,
    pub value: String,
}

/// Why a point in time could not become a [`Timestamp`].
#[derive(Debug)]
pub enum TimestampError {
    SystemTimeError(std::time::SystemTimeError),
    TryFromIntError(std::num::TryFromIntError),
}

impl From<i64> for Timestamp {
    fn from(i: i64) -> (r: Timestamp)
        ensures
            r.0 == i,
    {
        Timestamp(i)
    }
}

impl vstd::std_specs::convert::FromSpecImpl<i64> for Timestamp {
    open spec fn obeys_from_spec() -> bool {
        true
    }

    open spec fn from_spec(i: i64) -> Timestamp {
        Timestamp(i)
    }
}

impl From<Timestamp> for i64 {
    fn from(ts: Timestamp) -> (r: i64)
        ensures
            r == ts.0,
    {
        ts.0
    }
}

impl vstd::std_specs::convert::FromSpecImpl<Timestamp> for i64 {
    open spec fn obeys_from_spec() -> bool {
        true
    }

    open spec fn from_spec(ts: Timestamp) -> i64 {
        ts.0
    }
}

} // verus!
