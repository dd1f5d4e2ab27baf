//! Log levels, log level filters and stream capture modes.

use vstd::prelude::*;
use vstd::string::*;
use crate::error::{Error, ErrorKind};

verus! {

/// Importance of a log message, from most to least important.
#[derive(Clone, Copy, Debug, PartialEq, Eq, Structural)]
pub enum Loglevel {
    Fatal,
    Error,
    Warn,
    Note,
    Info,
    Debug,
    Trace,
}

/// The least important level a sink or source lets through; `Off` lets
/// nothing through.
#[derive(Clone, Copy, Debug, PartialEq, Eq, Structural)]
pub enum LoglevelFilter {
    Off,
    Fatal,
    Error,
    Warn,
    Note,
    Info,
    Debug,
    Trace,
}

impl LoglevelFilter {
    /// How verbose the filter is: `Off` is 0, `Trace` is 7.
    pub open spec fn spec_verbosity(self) -> u8 {
        match self {
            LoglevelFilter::Off => 0,
            LoglevelFilter::Fatal => 1,
            LoglevelFilter::Error => 2,
            LoglevelFilter::Warn => 3,
            LoglevelFilter::Note => 4,
            LoglevelFilter::Info => 5,
            LoglevelFilter::Debug => 6,
            LoglevelFilter::Trace => 7,
        }
    }

    /// How verbose the filter is: `Off` is 0, `Trace` is 7.
    #[verifier::when_used_as_spec(spec_verbosity)]
    pub fn verbosity(self) -> (r: u8)
        ensures
            r == self.spec_verbosity(),
    {
        match self {
            LoglevelFilter::Off => 0,
            LoglevelFilter::Fatal => 1,
            LoglevelFilter::Error => 2,
            LoglevelFilter::Warn => 3,
            LoglevelFilter::Note => 4,
            LoglevelFilter::Info => 5,
            LoglevelFilter::Debug => 6,
            LoglevelFilter::Trace => 7,
        }
    }
}

/// The filter that lets exactly the messages of `level` and above through.
pub open spec fn filter_of(level: Loglevel) -> LoglevelFilter {
    match level {
        Loglevel::Fatal => LoglevelFilter::Fatal,
        Loglevel::Error => LoglevelFilter::Error,
        Loglevel::Warn => LoglevelFilter::Warn,
        Loglevel::Note => LoglevelFilter::Note,
        Loglevel::Info => LoglevelFilter::Info,
        Loglevel::Debug => LoglevelFilter::Debug,
        Loglevel::Trace => LoglevelFilter::Trace,
    }
}

impl From<Loglevel> for LoglevelFilter {
    fn from(level: Loglevel) -> (r: LoglevelFilter) {
        match level {
            Loglevel::Fatal => LoglevelFilter::Fatal,
            Loglevel::Error => LoglevelFilter::Error,
            Loglevel::Warn => LoglevelFilter::Warn,
            Loglevel::Note => LoglevelFilter::Note,
            Loglevel::Info => LoglevelFilter::Info,
            Loglevel::Debug => LoglevelFilter::Debug,
            Loglevel::Trace => LoglevelFilter::Trace,
        }
    }
}

impl vstd::std_specs::convert::FromSpecImpl<Loglevel> for LoglevelFilter {
    open spec fn obeys_from_spec() -> bool {
        true
    }

    open spec fn from_spec(level: Loglevel) -> LoglevelFilter {
        filter_of(level)
    }
}

/// How a plugin's stdout or stderr stream is handled.
#[derive(Clone, Copy, Debug, PartialEq, Eq, Structural)]
pub enum StreamCaptureMode {
    /// Passed through to the simulator's own stream unchecked.
    Pass,
    /// Discarded.
    Null,
    /// Each line becomes a log message with the given level.
    Capture(Loglevel),
}

/// Number of spellings of a stream capture mode.
pub const CAPTURE_OPTION_COUNT: usize = 9;

/// The lower-case name of each stream capture option.
pub open spec fn capture_option_name(i: int) -> Seq<char> {
    if i == 0 {
        seq!['p', 'a', 's', 's']
    } else if i == 1 {
        seq!['n', 'u', 'l', 'l']
    } else if i == 2 {
        seq!['f', 'a', 't', 'a', 'l']
    } else if i == 3 {
        seq!['e', 'r', 'r', 'o', 'r']
    } else if i == 4 {
        seq!['w', 'a', 'r', 'n']
    } else if i == 5 {
        seq!['n', 'o', 't', 'e']
    } else if i == 6 {
        seq!['i', 'n', 'f', 'o']
    } else if i == 7 {
        seq!['d', 'e', 'b', 'u', 'g']
    } else {
        seq!['t', 'r', 'a', 'c', 'e']
    }
}

/// The mode each stream capture option stands for.
pub open spec fn capture_option_mode(i: int) -> StreamCaptureMode {
    if i == 0 {
        StreamCaptureMode::Pass
    } else if i == 1 {
        StreamCaptureMode::Null
    } else if i == 2 {
        StreamCaptureMode::Capture(Loglevel::Fatal)
    } else if i == 3 {
        StreamCaptureMode::Capture(Loglevel::Error)
    } else if i == 4 {
        StreamCaptureMode::Capture(Loglevel::Warn)
    } else if i == 5 {
        StreamCaptureMode::Capture(Loglevel::Note)
    } else if i == 6 {
        StreamCaptureMode::Capture(Loglevel::Info)
    } else if i == 7 {
        StreamCaptureMode::Capture(Loglevel::Debug)
    } else {
        StreamCaptureMode::Capture(Loglevel::Trace)
    }
}

/// `c` equals the lower-case character `l`, ignoring ASCII case.
pub open spec fn same_letter(c: char, l: char) -> bool {
    c == l || (97 <= l as u32 <= 122 && c as u32 + 32 == l as u32)
}

/// `s` is a prefix of `name`, ignoring ASCII case.
pub open spec fn prefix_of(s: Seq<char>, name: Seq<char>) -> bool {
    s.len() <= name.len() && forall|j: int| 0 <= j < s.len() ==> same_letter(s[j], name[j])
}

/// Option `i` is one that `s` may stand for.
pub open spec fn option_matches(s: Seq<char>, i: int) -> bool {
    0 <= i < CAPTURE_OPTION_COUNT && prefix_of(s, capture_option_name(i))
}

fn capture_option_name_exec(i: usize) -> (r: Vec<char>)
    requires
        i < CAPTURE_OPTION_COUNT,
    ensures
        r@ == capture_option_name(i as int),
{
    if i == 0 {
        vec!['p', 'a', 's', 's']
    } else if i == 1 {
        vec!['n', 'u', 'l', 'l']
    } else if i == 2 {
        vec!['f', 'a', 't', 'a', 'l']
    } else if i == 3 {
        vec!['e', 'r', 'r', 'o', 'r']
    } else if i == 4 {
        vec!['w', 'a', 'r', 'n']
    } else if i == 5 {
        vec!['n', 'o', 't', 'e']
    } else if i == 6 {
        vec!['i', 'n', 'f', 'o']
    } else if i == 7 {
        vec!['d', 'e', 'b', 'u', 'g']
    } else {
        vec!['t', 'r', 'a', 'c', 'e']
    }
}

fn capture_option_mode_exec(i: usize) -> (r: StreamCaptureMode)
    requires
        i < CAPTURE_OPTION_COUNT,
    ensures
        r == capture_option_mode(i as int),
{
    if i == 0 {
        StreamCaptureMode::Pass
    } else if i == 1 {
        StreamCaptureMode::Null
    } else if i == 2 {
        StreamCaptureMode::Capture(Loglevel::Fatal)
    } else if i == 3 {
        StreamCaptureMode::Capture(Loglevel::Error)
    } else if i == 4 {
        StreamCaptureMode::Capture(Loglevel::Warn)
    } else if i == 5 {
        StreamCaptureMode::Capture(Loglevel::Note)
    } else if i == 6 {
        StreamCaptureMode::Capture(Loglevel::Info)
    } else if i == 7 {
        StreamCaptureMode::Capture(Loglevel::Debug)
    } else {
        StreamCaptureMode::Capture(Loglevel::Trace)
    }
}

/// Whether the first `n` characters of `s` (all of it) are a prefix of
/// `name`, ignoring ASCII case.
fn is_prefix_of(s: &str, n: usize, name: &Vec<char>) -> (r: bool)
    requires
        n == s@.len(),
    ensures
        r == prefix_of(s@, name@),
{
    if n > name.len() {
        return false;
    }
    let mut j: usize = 0;
    while j < n
        invariant
            n == s@.len(),
            n <= name@.len(),
            j <= n,
            forall|k: int| 0 <= k < j ==> same_letter(s@[k], name@[k]),
        decreases n - j,
    {
        let c = s.get_char(j);
        let l = name[j];
        let lu = l as u32;
        if !(c == l || (97 <= lu && lu <= 122 && (c as u32) + 32 == lu)) {
            return false;
        }
        j = j + 1;
    }
    true
}

/// Reads a stream capture mode from its name: `pass`, `null`, or a log
/// level, ignoring ASCII case, where any prefix that fits exactly one of
/// them stands for it. A string that fits none, or more than one (such as
/// `n` or the empty string), is `InvArg`.
pub fn parse_capture_mode(s: &str) -> (r: Result<StreamCaptureMode, Error>)
    ensures
        r matches Ok(m) ==> exists|i: int|
            #[trigger] option_matches(s@, i) && capture_option_mode(i) == m && forall|j: int|
                j != i ==> !#[trigger] option_matches(s@, j),
        r is Err ==> r->Err_0.kind == ErrorKind::InvArg && forall|i: int|
            #[trigger] option_matches(s@, i) ==> exists|j: int|
                j != i && #[trigger] option_matches(s@, j),
{
    let n = s.unicode_len();
    let mut found: Option<usize> = None;
    let mut i: usize = 0;
    while i < CAPTURE_OPTION_COUNT
        invariant
            i <= CAPTURE_OPTION_COUNT,
            n == s@.len(),
            found matches Some(k) ==> k < i && option_matches(s@, k as int) && forall|j: int|
                0 <= j < i && j != k ==> !#[trigger] option_matches(s@, j),
            found is None ==> forall|j: int| 0 <= j < i ==> !#[trigger] option_matches(s@, j),
        decreases CAPTURE_OPTION_COUNT - i,
    {
        let name = capture_option_name_exec(i);
        if is_prefix_of(s, n, &name) {
            match found {
                Some(_) => {
                    assert(option_matches(s@, i as int));
                    return Err(
                        Error {
                            kind: ErrorKind::InvArg,
                            message: String::from_str(s).concat(
                                " is an ambiguous stream capture mode",
                            ),
                        },
                    );
                },
                None => {
                    found = Some(i);
                },
            }
        }
        i = i + 1;
    }
    match found {
        Some(k) => Ok(capture_option_mode_exec(k)),
        None => Err(
            Error {
                kind: ErrorKind::InvArg,
                message: String::from_str(s).concat(" is not a valid stream capture mode"),
            },
        ),
    }
}

impl core::str::FromStr for StreamCaptureMode {
    type Err = Error;

    fn from_str(s: &str) -> Result<StreamCaptureMode, Error> {
        parse_capture_mode(s)
    }
}

} // verus!
