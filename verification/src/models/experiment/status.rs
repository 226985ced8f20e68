use vstd::prelude::*;

verus! {

/// Where an experiment is in its lifecycle.
#[derive(Clone, Copy, Debug, PartialEq, Eq, Structural)]
pub enum ExperimentStatus {
    Draft,
    Running,
    Stopped,
    Deleted,
}

impl ExperimentStatus {
    /// The lower-case name under which the status is stored and sent.
    pub open spec fn name(self) -> Seq<char> {
        match self {
            ExperimentStatus::Draft => "draft"@,
            ExperimentStatus::Running => "running"@,
            ExperimentStatus::Stopped => "stopped"@,
            ExperimentStatus::Deleted => "deleted"@,
        }
    }

    /// What `Display` writes for the status.
    pub fn as_str(&self) -> (r: &'static str)
        ensures
            r@ == self.name(),
    {
        match self {
            ExperimentStatus::Draft => "draft",
            ExperimentStatus::Running => "running",
            ExperimentStatus::Stopped => "stopped",
            ExperimentStatus::Deleted => "deleted",
        }
    }
}

} // verus!
