//! Critical-path backend selection.
//!
//! The build-signals layer the engine is embedded in computes a critical path
//! with one of a fixed set of backends. The backend is chosen by name: the
//! names `"longest-path-graph"` and `"default"` are accepted, anything else
//! is rejected at the boundary and never reaches the engine.

use vstd::prelude::*;

verus! {

/// The known critical-path backends.
#[derive(Clone, Copy, PartialEq, Eq, Structural, Debug)]
pub enum CriticalPathBackendName {
    LongestPathGraph,
    Default,
}

/// A backend name that names no known backend; it carries the offending name.
#[derive(Debug)]
pub struct InvalidBackendName {
    pub name: String,
}

impl CriticalPathBackendName {
    /// The name of the backend, as configuration spells it.
    pub fn as_str(&self) -> (r: &'static str)
        ensures
            *self is LongestPathGraph ==> r@ == "longest-path-graph"@,
            *self is Default ==> r@ == "default"@,
    {
        match self {
            CriticalPathBackendName::LongestPathGraph => "longest-path-graph",
            CriticalPathBackendName::Default => "default",
        }
    }

    /// Parse a backend name: exactly `"longest-path-graph"` and `"default"`
    /// are accepted; any other string is rejected and handed back.
    pub fn from_str(s: &str) -> (r: Result<Self, InvalidBackendName>)
        ensures
            s@ == "longest-path-graph"@ ==> (r matches Ok(b) && b is LongestPathGraph),
            s@ == "default"@ ==> (r matches Ok(b) && b is Default),
            (s@ != "longest-path-graph"@ && s@ != "default"@) ==> (r matches Err(e) && e.name@
                == s@),
    {
        proof {
            reveal_strlit("longest-path-graph");
            reveal_strlit("default");
            assert("longest-path-graph"@.len() == 18);
            assert("default"@.len() == 7);
            assert("longest-path-graph"@ != "default"@);
        }
        let owned = s.to_owned();
        if owned.eq(&String::from_str("longest-path-graph")) {
            return Ok(CriticalPathBackendName::LongestPathGraph);
        }
        if owned.eq(&String::from_str("default")) {
            return Ok(CriticalPathBackendName::Default);
        }
        Err(InvalidBackendName { name: owned })
    }
}

} // verus!
