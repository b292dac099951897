use vstd::prelude::*;

verus! {

/// The one way an operation fails: the external tool could not be run, it
/// exited with a failure status, or its output could not be read.
#[derive(Debug)]
pub enum SvnError {
    /// Carries the spawn error's description, the tool's standard-error
    /// text, or a fixed message for output that could not be parsed.
    CommandFailed(String),
}

/// Says that `e` is a command failure whose text is `m`.
pub open spec fn fails_with(e: SvnError, m: Seq<char>) -> bool {
    match e {
        SvnError::CommandFailed(s) => s@ == m,
    }
}

/// What an error reads as, after its fixed lead-in.
pub const FAILURE_LEAD: &'static str = "Failed to run svn command: ";

impl SvnError {
    /// The text that the failure carries.
    pub fn detail(&self) -> (r: &String)
        ensures
            fails_with(*self, r@),
    {
        match self {
            SvnError::CommandFailed(s) => s,
        }
    }

    /// The full message: the lead-in followed by the carried text.
    pub fn message(&self) -> (r: String)
        ensures
            r@ == FAILURE_LEAD@ + self.detail_spec(),
    {
        let mut r = String::from_str(FAILURE_LEAD);
        r.append(self.detail().as_str());
        r
    }

    /// The text that the failure carries.
    pub open spec fn detail_spec(&self) -> Seq<char> {
        match self {
            SvnError::CommandFailed(s) => s@,
        }
    }
}

} // verus!
