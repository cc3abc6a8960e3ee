use vstd::prelude::*;

verus! {

/// What the process environment decides once at startup.
#[derive(Clone, Debug, PartialEq, Eq)]
pub struct Environment {
    pub truecolor: bool,
}

impl Environment {
    /// Judge the `COLORTERM` variable: only the exact value `truecolor`
    /// enables 24-bit color output.
    pub fn init(colorterm: Option<String>) -> (r: Environment)
        ensures
            r.truecolor == match colorterm {
                Option::Some(v) => v@ == "truecolor"@,
                Option::None => false,
            },
    {
        Environment {
            truecolor: match colorterm {
                Option::Some(v) => {
                    let t = String::from_str("truecolor");
                    v == t
                },
                Option::None => false,
            },
        }
    }
}

} // verus!
