//! The feature flags of a repository, and what one entry of a policy
//! document becomes.

use crate::process::info::ProcessInfo;
use crate::process::info::ProcessInfoView;
use vstd::prelude::*;

verus! {

/// Which optional behaviours are switched on for a repository.
#[derive(Clone, Copy, Debug, PartialEq, Eq)]
pub struct ProcessFeatures {
    pub auto_merge: bool,
    pub compare_release: bool,
    pub issue_project: bool,
    pub issue_addressed: bool,
    pub issue_assigned: bool,
    pub review_requests: bool,
    pub status_notifications: bool,
}

impl ProcessFeatures {
    /// The flags of a repository that sets none: merging on request and
    /// comparing releases are on, everything else is off.
    pub open spec fn defaults() -> ProcessFeatures {
        ProcessFeatures {
            auto_merge: true,
            compare_release: true,
            issue_project: false,
            issue_addressed: false,
            issue_assigned: false,
            review_requests: false,
            status_notifications: false,
        }
    }
}

impl Default for ProcessFeatures {
    fn default() -> (flags: Self)
        ensures
            flags == ProcessFeatures::defaults(),
    {
        ProcessFeatures {
            auto_merge: true,
            compare_release: true,
            issue_project: false,
            issue_addressed: false,
            issue_assigned: false,
            review_requests: false,
            status_notifications: false,
        }
    }
}

/// One entry of a policy document: the feature flags or a project's record.
#[derive(Debug)]
pub enum ProcessWrapper {
    Features(ProcessFeatures),
    Project(ProcessInfo),
}

/// An entry as plain data.
pub enum ProcessWrapperView {
    Features(ProcessFeatures),
    Project(ProcessInfoView),
}

impl View for ProcessWrapper {
    type V = ProcessWrapperView;

    open spec fn view(&self) -> ProcessWrapperView {
        match self {
            ProcessWrapper::Features(flags) => ProcessWrapperView::Features(*flags),
            ProcessWrapper::Project(info) => ProcessWrapperView::Project(info@),
        }
    }
}

impl Clone for ProcessWrapper {
    fn clone(&self) -> (copy: Self)
        ensures
            copy@ == self@,
    {
        match self {
            ProcessWrapper::Features(flags) => ProcessWrapper::Features(*flags),
            ProcessWrapper::Project(info) => ProcessWrapper::Project(info.clone()),
        }
    }
}

/// The plain data of a list of entries.
pub open spec fn wrappers_view(entries: Seq<ProcessWrapper>) -> Seq<ProcessWrapperView> {
    entries.map_values(|w: ProcessWrapper| w@)
}

} // verus!
