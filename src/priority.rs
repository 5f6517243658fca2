use vstd::prelude::*;
use vstd::string::StringExecFns;

verus! {

/// The urgency assigned to an item.
#[derive(Debug, Clone, Copy, PartialEq, Eq, Structural)]
pub enum Priority {
    /// Low urgency.
    Low,
    /// Medium urgency.
    Medium,
    /// High urgency.
    High,
    /// Assigned when the label was none of the known ones.
    Invalid,
}

/// The lowercase mapping of a text, as `str::to_lowercase` computes it.
pub uninterp spec fn lower_of(s: Seq<char>) -> Seq<char>;

/// Relies on `str::to_lowercase`: the result depends on the characters alone.
#[verifier::external_body]
fn lowercase(s: &str) -> (r: String)
    ensures
        r@ == lower_of(s@),
{
    s.to_lowercase()
}

impl Priority {
    /// The priority that an already lowercased label names.
    pub open spec fn from_lower_spec(s: Seq<char>) -> Priority {
        if s == "low"@ {
            Priority::Low
        } else if s == "medium"@ {
            Priority::Medium
        } else if s == "high"@ {
            Priority::High
        } else {
            Priority::Invalid
        }
    }

    /// The priority that a label names, ignoring case.
    pub open spec fn parse_spec(s: Seq<char>) -> Priority {
        Self::from_lower_spec(lower_of(s))
    }

    /// Maps an already lowercased label to its priority; any other text is `Invalid`.
    pub fn from_lowercase(s: &str) -> (r: Priority)
        ensures
            r == Self::from_lower_spec(s@),
    {
        let owned = String::from_str(s);
        if owned == String::from_str("low") {
            Priority::Low
        } else if owned == String::from_str("medium") {
            Priority::Medium
        } else if owned == String::from_str("high") {
            Priority::High
        } else {
            Priority::Invalid
        }
    }

    /// Parses a label case-insensitively: "low", "medium" and "high" name
    /// their priority, anything else (the empty text too) gives `Invalid`.
    pub fn from_str(input: &str) -> (r: Priority)
        ensures
            r == Self::parse_spec(input@),
    {
        let lowered = lowercase(input);
        Self::from_lowercase(lowered.as_str())
    }

    /// The name of the variant as it is stored and shown.
    pub open spec fn label_spec(self) -> Seq<char> {
        match self {
            Priority::Low => "Low"@,
            Priority::Medium => "Medium"@,
            Priority::High => "High"@,
            Priority::Invalid => "Invalid"@,
        }
    }

    /// The name of the variant as it is stored and shown.
    pub fn label(&self) -> (r: String)
        ensures
            r@ == self.label_spec(),
    {
        match self {
            Priority::Low => String::from_str("Low"),
            Priority::Medium => String::from_str("Medium"),
            Priority::High => String::from_str("High"),
            Priority::Invalid => String::from_str("Invalid"),
        }
    }
}

} // verus!
