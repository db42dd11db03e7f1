//! Cloud-init monitoring: what the fields of `cloud-init status --format=json` mean.

use crate::text::{concat2, contains, has_infix, join, join_strings, owned, str_eq, str_lowercase, to_lowercase, views};
use vstd::prelude::*;

verus! {

/// Cloud-init execution status.
#[derive(Debug, Clone, PartialEq, Eq)]
pub enum CloudInitStatus {
    /// Cloud-init is running.
    Running {
        /// Stage parsed from the status detail.
        stage: CloudInitStage,
    },
    /// Cloud-init completed successfully.
    Done,
    /// Cloud-init encountered an error.
    Error {
        /// Error summary.
        message: String,
    },
}

impl CloudInitStatus {
    /// Whether cloud-init is complete.
    pub fn is_done(&self) -> (r: bool)
        ensures
            r == (*self is Done),
    {
        match self {
            CloudInitStatus::Done => true,
            _ => false,
        }
    }

    /// Whether cloud-init has an error.
    pub fn is_error(&self) -> (r: bool)
        ensures
            r == (*self is Error),
    {
        match self {
            CloudInitStatus::Error { .. } => true,
            _ => false,
        }
    }

    /// Whether cloud-init is still running.
    pub fn is_running(&self) -> (r: bool)
        ensures
            r == (*self is Running),
    {
        match self {
            CloudInitStatus::Running { .. } => true,
            _ => false,
        }
    }
}

/// Cloud-init execution stages.
#[derive(Debug, Clone, PartialEq, Eq)]
pub enum CloudInitStage {
    /// Local stage (early boot).
    Init,
    /// Config stage.
    Config,
    /// Final stage.
    Final,
    /// Modules config stage.
    ModulesConfig,
    /// Modules final stage.
    ModulesFinal,
    /// Unknown/other stage.
    Unknown(String),
}

/// The stage named in a lowercased status detail: the first of `init`,
/// `config`, `final`, `modules-config`, `modules-final` that it contains.
/// (Any detail mentioning `modules-config` also mentions `config`, so the
/// last two are never reached.)
pub open spec fn stage_lower_reading(lower: Seq<char>, r: Option<CloudInitStage>) -> bool {
    if has_infix(lower, "init"@) {
        r matches Some(CloudInitStage::Init)
    } else if has_infix(lower, "config"@) {
        r matches Some(CloudInitStage::Config)
    } else if has_infix(lower, "final"@) {
        r matches Some(CloudInitStage::Final)
    } else if has_infix(lower, "modules-config"@) {
        r matches Some(CloudInitStage::ModulesConfig)
    } else if has_infix(lower, "modules-final"@) {
        r matches Some(CloudInitStage::ModulesFinal)
    } else {
        r is None
    }
}

/// The stage named in a status detail, read from its lowercased text.
pub open spec fn stage_reading(detail: Seq<char>, r: Option<CloudInitStage>) -> bool {
    stage_lower_reading(str_lowercase(detail), r)
}

/// The stage named in an already lowercased status detail.
pub fn stage_from_lowercase(lower: &str) -> (r: Option<CloudInitStage>)
    ensures
        stage_lower_reading(lower@, r),
{
    if contains(lower, "init") {
        Some(CloudInitStage::Init)
    } else if contains(lower, "config") {
        Some(CloudInitStage::Config)
    } else if contains(lower, "final") {
        Some(CloudInitStage::Final)
    } else if contains(lower, "modules-config") {
        Some(CloudInitStage::ModulesConfig)
    } else if contains(lower, "modules-final") {
        Some(CloudInitStage::ModulesFinal)
    } else {
        None
    }
}

/// Parses the cloud-init stage from a status detail.
pub fn parse_stage_from_detail(detail: &str) -> (r: Option<CloudInitStage>)
    ensures
        stage_reading(detail@, r),
{
    let lower = to_lowercase(detail);
    stage_from_lowercase(lower.as_str())
}

/// What the `status`, `detail` and `errors` fields of the JSON status mean.
pub open spec fn status_reading(
    status: Seq<char>,
    detail: Option<Seq<char>>,
    errors: Seq<Seq<char>>,
    r: CloudInitStatus,
) -> bool {
    if status == "done"@ {
        r is Done
    } else if status == "running"@ {
        r matches CloudInitStatus::Running { stage } && match detail {
            Some(d) => if has_infix(str_lowercase(d), "init"@) || has_infix(str_lowercase(d), "config"@)
                || has_infix(str_lowercase(d), "final"@) || has_infix(str_lowercase(d), "modules-config"@)
                || has_infix(str_lowercase(d), "modules-final"@) {
                stage_reading(d, Some(stage))
            } else {
                stage matches CloudInitStage::Unknown(s) && s@ == "running"@
            },
            None => stage matches CloudInitStage::Unknown(s) && s@ == "running"@,
        }
    } else if status == "error"@ {
        r matches CloudInitStatus::Error { message } && message@ == if errors.len() == 0 {
            match detail {
                Some(d) => d,
                None => "Unknown error"@,
            }
        } else {
            join(errors, "; "@)
        }
    } else if status == "disabled"@ {
        r matches CloudInitStatus::Error { message } && message@ == "Cloud-init is disabled"@
    } else {
        r matches CloudInitStatus::Error { message } && message@ == "Unknown cloud-init status: "@
            + status
    }
}

impl CloudInitStatus {
    /// The status described by the fields of `cloud-init status --format=json`.
    pub fn from_status_fields(status: &str, detail: Option<String>, errors: Vec<String>) -> (r:
        Self)
        ensures
            status_reading(
                status@,
                match detail {
                    Some(d) => Some(d@),
                    None => None,
                },
                views(errors@),
                r,
            ),
    {
        if str_eq(status, "done") {
            CloudInitStatus::Done
        } else if str_eq(status, "running") {
            let parsed = match &detail {
                Some(d) => parse_stage_from_detail(d.as_str()),
                None => None,
            };
            let stage = match parsed {
                Some(s) => s,
                None => CloudInitStage::Unknown(owned("running")),
            };
            CloudInitStatus::Running { stage }
        } else if str_eq(status, "error") {
            let message = if errors.len() == 0 {
                match detail {
                    Some(d) => d,
                    None => owned("Unknown error"),
                }
            } else {
                join_strings(&errors, "; ")
            };
            CloudInitStatus::Error { message }
        } else if str_eq(status, "disabled") {
            CloudInitStatus::Error { message: owned("Cloud-init is disabled") }
        } else {
            CloudInitStatus::Error { message: concat2("Unknown cloud-init status: ", status) }
        }
    }
}

} // verus!
