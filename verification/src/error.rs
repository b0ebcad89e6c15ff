//! Generic errors that can occur anywhere.

use vstd::prelude::*;
use vstd::string::StringExecFns;
use crate::util::SimpleToString;

verus! {

/// Generic error that has no other home: a fallback that carries a
/// description.
#[derive(Debug)]
pub enum HermitError {
    /// This should not be used, but is a fallback.
    Unspecified(String),
}

impl HermitError {
    /// The description the error carries.
    pub closed spec fn spec_message(self) -> Seq<char> {
        match self {
            HermitError::Unspecified(s) => s@,
        }
    }
}

impl SimpleToString for HermitError {
    fn sstr(&self) -> (r: String)
        ensures
            r@ == "[Unspecified Error] "@ + self.spec_message(),
    {
        match self {
            HermitError::Unspecified(s) => "[Unspecified Error] ".to_owned().concat(s.as_str()),
        }
    }
}

/// Random generation errors.
#[derive(Debug)]
pub enum WheelOfFortuneError {
    /// A generic error, passed through.
    HermitError(HermitError),
}

/// Alias because `WheelOfFortuneError` is very long.
pub type WOFError = WheelOfFortuneError;

impl WheelOfFortuneError {
    /// The description of the wrapped error.
    pub open spec fn spec_message(self) -> Seq<char> {
        match self {
            WheelOfFortuneError::HermitError(e) => e.spec_message(),
        }
    }
}

impl SimpleToString for WheelOfFortuneError {
    fn sstr(&self) -> (r: String)
        ensures
            r@ == "<Hermit Error> [Unspecified Error] "@ + self.spec_message(),
    {
        match self {
            WheelOfFortuneError::HermitError(e) => {
                let inner = e.sstr();
                let r = "<Hermit Error> ".to_owned().concat(inner.as_str());
                proof {
                    assert("<Hermit Error> "@ + ("[Unspecified Error] "@ + e.spec_message())
                        =~= "<Hermit Error> [Unspecified Error] "@ + e.spec_message()) by {
                        reveal_strlit("<Hermit Error> ");
                        reveal_strlit("[Unspecified Error] ");
                        reveal_strlit("<Hermit Error> [Unspecified Error] ");
                    }
                }
                r
            },
        }
    }
}

} // verus!
