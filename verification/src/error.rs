use vstd::prelude::*;

verus! {

/// A tagged failure: the kind of fault plus a message for the operator.
///
/// Configuration and transport failures abort the pattern they occur in;
/// data-load failures are recovered locally by substituting an empty
/// collection (see [`crate::dataset::Dataset::from_loaded`]).
#[derive(Debug, PartialEq, Eq)]
pub enum BenchmarkError {
    /// Missing or malformed configuration: a mixture whose weights do not sum
    /// to the whole scale, a zero batch size, a zero fan-out.
    Config(String),
    /// A store operation failed: connection loss, encoding mismatch,
    /// constraint violation.
    Transport(String),
    /// A fixture was unreadable or malformed; the affected collection is
    /// replaced by an empty one and the run continues.
    DataLoad(String),
}

impl Clone for BenchmarkError {
    fn clone(&self) -> (r: Self)
        ensures
            r == *self,
    {
        match self {
            BenchmarkError::Config(m) => BenchmarkError::Config(m.clone()),
            BenchmarkError::Transport(m) => BenchmarkError::Transport(m.clone()),
            BenchmarkError::DataLoad(m) => BenchmarkError::DataLoad(m.clone()),
        }
    }
}

impl BenchmarkError {
    /// The message carried by any of the three kinds.
    pub open spec fn message_spec(&self) -> Seq<char> {
        match self {
            BenchmarkError::Config(m) => m@,
            BenchmarkError::Transport(m) => m@,
            BenchmarkError::DataLoad(m) => m@,
        }
    }

    pub fn message(&self) -> (m: &String)
        ensures
            m@ == self.message_spec(),
    {
        match self {
            BenchmarkError::Config(m) => m,
            BenchmarkError::Transport(m) => m,
            BenchmarkError::DataLoad(m) => m,
        }
    }
}

} // verus!
