//! Why a startup was given up, and how that is told to the user.

use vstd::prelude::*;
use vstd::string::StringExecFns;

verus! {

/// The reasons for which starting the backend fails.
#[derive(Debug, PartialEq, Eq)]
pub enum StartupError {
    /// The resource directory could not be resolved.
    ResourceDir { reason: String },
    /// No file stands where the backend executable is expected.
    NotFound { path: String },
    /// The executable is there, but the process could not be spawned.
    Spawn { reason: String },
    /// Every one of `attempts` probes failed, the last one with `reason`.
    Timeout { attempts: u32, reason: String },
}

/// The character that writes the digit `d`.
pub open spec fn digit(d: nat) -> char
    recommends
        d < 10,
{
    if d == 0 {
        '0'
    } else if d == 1 {
        '1'
    } else if d == 2 {
        '2'
    } else if d == 3 {
        '3'
    } else if d == 4 {
        '4'
    } else if d == 5 {
        '5'
    } else if d == 6 {
        '6'
    } else if d == 7 {
        '7'
    } else if d == 8 {
        '8'
    } else {
        '9'
    }
}

/// The decimal numeral of `n`, most significant digit first, without
/// leading zeros.
pub open spec fn decimal(n: nat) -> Seq<char>
    decreases n,
{
    if n < 10 {
        seq![digit(n)]
    } else {
        decimal(n / 10).push(digit(n % 10))
    }
}

/// The numeral of a single digit.
fn digit_str(d: u32) -> (s: &'static str)
    requires
        d < 10,
    ensures
        s@ == seq![digit(d as nat)],
{
    proof {
        reveal_strlit("0");
        reveal_strlit("1");
        reveal_strlit("2");
        reveal_strlit("3");
        reveal_strlit("4");
        reveal_strlit("5");
        reveal_strlit("6");
        reveal_strlit("7");
        reveal_strlit("8");
        reveal_strlit("9");
    }
    let s = if d == 0 {
        "0"
    } else if d == 1 {
        "1"
    } else if d == 2 {
        "2"
    } else if d == 3 {
        "3"
    } else if d == 4 {
        "4"
    } else if d == 5 {
        "5"
    } else if d == 6 {
        "6"
    } else if d == 7 {
        "7"
    } else if d == 8 {
        "8"
    } else {
        "9"
    };
    assert(s@ =~= seq![digit(d as nat)]);
    s
}

/// Appends the decimal numeral of `n` to `out`.
fn push_decimal(out: &mut String, n: u32)
    ensures
        final(out)@ == old(out)@ + decimal(n as nat),
    decreases n,
{
    if n < 10 {
        out.append(digit_str(n));
    } else {
        push_decimal(out, n / 10);
        out.append(digit_str(n % 10));
        assert(out@ =~= old(out)@ + decimal(n as nat));
    }
}

impl StartupError {
    /// The text shown for this error.
    pub open spec fn spec_message(self) -> Seq<char> {
        match self {
            StartupError::ResourceDir { reason } => {
                "Failed to get resource directory: "@ + reason@
            },
            StartupError::NotFound { path } => "Backend executable not found at: "@ + path@,
            StartupError::Spawn { reason } => "Failed to spawn backend process: "@ + reason@,
            StartupError::Timeout { attempts, reason } => {
                "Backend failed to start after "@ + decimal(attempts as nat) + " attempts: "@
                    + reason@
            },
        }
    }

    /// The text shown for this error: a fixed lead that names the step that
    /// failed, followed by what the caller reported.
    pub fn message(&self) -> (text: String)
        ensures
            text@ == self.spec_message(),
    {
        match self {
            StartupError::ResourceDir { reason } => {
                String::from_str("Failed to get resource directory: ").concat(reason.as_str())
            },
            StartupError::NotFound { path } => {
                String::from_str("Backend executable not found at: ").concat(path.as_str())
            },
            StartupError::Spawn { reason } => {
                String::from_str("Failed to spawn backend process: ").concat(reason.as_str())
            },
            StartupError::Timeout { attempts, reason } => {
                let mut text = String::from_str("Backend failed to start after ");
                push_decimal(&mut text, *attempts);
                text.append(" attempts: ");
                text.append(reason.as_str());
                text
            },
        }
    }
}

} // verus!
