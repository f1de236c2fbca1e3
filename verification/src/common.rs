//! Identification of CPU architectures by their canonical short names.

use vstd::prelude::*;

use crate::errors::Error;

verus! {

/// A closed set of known CPU architecture tags.
#[derive(Clone, Copy, Debug, Eq, PartialEq, Ord, PartialOrd, Hash, Structural)]
pub enum Architecture {
    X86,
    X86_64,
    Arm64,
    ArmV7,
    ArmV7f,
}

/// The tag that a canonical architecture name denotes, if any.
/// The mapping is case-sensitive and total over the five known names.
pub open spec fn arch_of(name: Seq<char>) -> Option<Architecture> {
    if name == "x86"@ {
        Some(Architecture::X86)
    } else if name == "x86_64"@ {
        Some(Architecture::X86_64)
    } else if name == "arm64"@ {
        Some(Architecture::Arm64)
    } else if name == "armv7"@ {
        Some(Architecture::ArmV7)
    } else if name == "armv7f"@ {
        Some(Architecture::ArmV7f)
    } else {
        None
    }
}

impl Architecture {
    /// Parses a canonical architecture name into its tag; any other string,
    /// the empty one included, is rejected.
    pub fn parse(string: &str) -> (r: Result<Architecture, Error>)
        ensures
            r matches Ok(a) ==> arch_of(string@) == Some(a),
            r matches Err(e) ==> arch_of(string@) is None && e == Error::UnrecognizedArchitecture,
    {
        let s = string.to_owned();
        if s == "x86".to_owned() {
            Ok(Architecture::X86)
        } else if s == "x86_64".to_owned() {
            Ok(Architecture::X86_64)
        } else if s == "arm64".to_owned() {
            Ok(Architecture::Arm64)
        } else if s == "armv7".to_owned() {
            Ok(Architecture::ArmV7)
        } else if s == "armv7f".to_owned() {
            Ok(Architecture::ArmV7f)
        } else {
            Err(Error::UnrecognizedArchitecture)
        }
    }
}

} // verus!
