//! Reading the values of command-line options.

use vstd::prelude::*;
use crate::casing::{lowercase, to_lowercase};
use crate::text::{push_str, str_eq};

verus! {

/// The command-line options.
#[derive(Debug, Clone)]
pub struct Args {
    /// Path to the configuration file.
    pub config: Option<String>,
    /// Address of the server, overriding the configuration.
    pub address: Option<String>,
    /// Bit-perfect mode asked for on the command line.
    pub bit_perfect: Option<bool>,
}

impl Args {
    /// Whether bit-perfect mode starts on: as the command line says, else
    /// as it was saved (`saved`).
    pub fn bit_perfect_or(&self, saved: bool) -> (r: bool)
        ensures
            r == match self.bit_perfect {
                Some(v) => v,
                None => saved,
            },
    {
        match self.bit_perfect {
            Some(v) => v,
            None => saved,
        }
    }
}

/// The message for a value that is neither `on` nor `off`.
pub open spec fn on_off_error(s: Seq<char>) -> Seq<char> {
    "Invalid value '"@ + s + "': expected 'on' or 'off'"@
}

/// Reads `on` or `off`, in any case, as a switch setting.
pub fn parse_on_off(s: &str) -> (r: Result<bool, String>)
    ensures
        lowercase(s@) == "on"@ ==> r == Ok::<bool, String>(true),
        lowercase(s@) == "off"@ ==> r == Ok::<bool, String>(false),
        lowercase(s@) != "on"@ && lowercase(s@) != "off"@ ==> (r matches Err(m) && m@
            == on_off_error(s@)),
{
    proof {
        reveal_strlit("on");
        reveal_strlit("off");
        assert("on"@.len() == 2);
        assert("off"@.len() == 3);
    }
    let lower = to_lowercase(s);
    if str_eq(lower.as_str(), "on") {
        Ok(true)
    } else if str_eq(lower.as_str(), "off") {
        Ok(false)
    } else {
        let mut m = String::new();
        push_str(&mut m, "Invalid value '");
        push_str(&mut m, s);
        push_str(&mut m, "': expected 'on' or 'off'");
        Err(m)
    }
}

} // verus!
