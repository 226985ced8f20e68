use vstd::prelude::*;

verus! {

/// The status names of the earlier experiment model.
#[derive(Clone, Copy, Debug, PartialEq, Eq, Structural)]
pub enum ExperimentStatus {
    Draft,
    Active,
    Paused,
    Completed,
}

/// What `str::to_lowercase` returns: the string lower-cased by the Unicode
/// `Lowercase` mapping.
pub uninterp spec fn lowercase(s: Seq<char>) -> Seq<char>;

/// `str::to_lowercase`. Its result is named by `lowercase`; the Unicode
/// case tables it applies are not restated here.
#[verifier::external_body]
fn to_lowercase(s: &str) -> (r: String)
    ensures
        r@ == lowercase(s@),
{
    s.to_lowercase()
}

impl ExperimentStatus {
    /// The lower-case name of the status.
    pub open spec fn name(self) -> Seq<char> {
        match self {
            ExperimentStatus::Draft => "draft"@,
            ExperimentStatus::Active => "active"@,
            ExperimentStatus::Paused => "paused"@,
            ExperimentStatus::Completed => "completed"@,
        }
    }

    /// The status a lower-cased name stands for; unknown names read as
    /// `Draft`.
    pub open spec fn from_name(s: Seq<char>) -> ExperimentStatus {
        if s == "active"@ {
            ExperimentStatus::Active
        } else if s == "paused"@ {
            ExperimentStatus::Paused
        } else if s == "completed"@ {
            ExperimentStatus::Completed
        } else {
            ExperimentStatus::Draft
        }
    }

    /// What `Display` writes for the status.
    pub fn as_str(&self) -> (r: &'static str)
        ensures
            r@ == self.name(),
    {
        match self {
            ExperimentStatus::Draft => "draft",
            ExperimentStatus::Active => "active",
            ExperimentStatus::Paused => "paused",
            ExperimentStatus::Completed => "completed",
        }
    }

    /// The status for an already lower-cased name.
    pub fn from_lowercase(s: &str) -> (r: ExperimentStatus)
        ensures
            r == Self::from_name(s@),
    {
        if crate::text::str_equals(s, "active") {
            ExperimentStatus::Active
        } else if crate::text::str_equals(s, "paused") {
            ExperimentStatus::Paused
        } else if crate::text::str_equals(s, "completed") {
            ExperimentStatus::Completed
        } else {
            ExperimentStatus::Draft
        }
    }

    /// Reading a stored status name: lower-case it, then look it up.
    pub fn from_string(s: String) -> (r: ExperimentStatus)
        ensures
            r == Self::from_name(lowercase(s@)),
    {
        let lower = to_lowercase(s.as_str());
        Self::from_lowercase(lower.as_str())
    }
}

/// Printing a status and reading the printed name back gives the status.
pub proof fn law_name_round_trip(status: ExperimentStatus)
    ensures
        ExperimentStatus::from_name(status.name()) == status,
{
    reveal_strlit("draft");
    reveal_strlit("active");
    reveal_strlit("paused");
    reveal_strlit("completed");
    assert("draft"@[0] != "active"@[0]);
    assert("draft"@[0] != "paused"@[0]);
    assert("draft"@[0] != "completed"@[0]);
    assert("paused"@[0] != "active"@[0]);
    assert("completed"@[0] != "active"@[0]);
    assert("completed"@[0] != "paused"@[0]);
}

} // verus!
