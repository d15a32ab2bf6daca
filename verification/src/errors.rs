//! The failures that the build helpers report.

use vstd::prelude::*;
use vstd::string::StringExecFns;

verus! {

/// A failure that one of the build helpers reports to its caller.  Every
/// failure is returned as a value; nothing here aborts the process.
#[derive(Debug, Clone, PartialEq, Eq)]
pub enum BuildError {
    /// No output-directory value was supplied: the caller is not running
    /// inside a recognized build invocation.  Raised only at construction.
    ConfigurationError,
    /// A filesystem write under the output directory failed; `cause`
    /// describes the underlying failure.
    IoError { cause: String },
    /// A path cannot be represented as UTF-8 text; `path` holds its raw
    /// bytes.  Raised only when registering a rebuild trigger.
    EncodingError { path: Vec<u8> },
}

/// The byte that stands for `b` in a best-effort rendering of raw path
/// bytes: printable ASCII is kept, every other byte becomes `?`.
pub open spec fn display_byte(b: u8) -> u8 {
    if 0x20 <= b < 0x7f {
        b
    } else {
        0x3f
    }
}

/// Best-effort text form of raw path bytes, one character per byte.
pub open spec fn display_chars(bytes: Seq<u8>) -> Seq<char> {
    bytes.map_values(|b: u8| display_byte(b) as char)
}

/// The text that `BuildError::message` returns for each error.
pub open spec fn message_of(e: BuildError) -> Seq<char> {
    match e {
        BuildError::ConfigurationError => "could not find the output directory, are we running in a build.rs script?"@,
        BuildError::IoError { cause } => "could not write file to `out` directory: "@ + cause@,
        BuildError::EncodingError { path } => "cargo requires that paths are utf8, but \""@
            + display_chars(path@) + "\" is not"@,
    }
}

/// Relies on String::from_utf8_lossy: bytes below 0x80 are ASCII, which
/// decodes to one character per byte with the same value.
#[verifier::external_body]
fn ascii_string(v: &[u8]) -> (r: String)
    requires
        forall|k: int| 0 <= k < v@.len() ==> v@[k] < 0x80,
    ensures
        r@ == v@.map_values(|b: u8| b as char),
{
    String::from_utf8_lossy(v).into_owned()
}

/// Best-effort text for raw path bytes: printable ASCII is kept, every
/// other byte is shown as `?`.
fn render_path_bytes(path: &Vec<u8>) -> (r: String)
    ensures
        r@ == display_chars(path@),
{
    let mut shown: Vec<u8> = Vec::new();
    let n = path.len();
    let mut i: usize = 0;
    while i < n
        invariant
            i <= n,
            n == path@.len(),
            shown@ == path@.subrange(0, i as int).map_values(|b: u8| display_byte(b)),
        decreases n - i,
    {
        let b = path[i];
        let d: u8 = if 0x20 <= b && b < 0x7f {
            b
        } else {
            0x3f
        };
        shown.push(d);
        proof {
            assert(shown@ =~= path@.subrange(0, i as int + 1).map_values(
                |b: u8| display_byte(b),
            ));
        }
        i = i + 1;
    }
    proof {
        assert(path@.subrange(0, n as int) =~= path@);
    }
    let r = ascii_string(shown.as_slice());
    proof {
        assert(r@ =~= display_chars(path@));
    }
    r
}

impl BuildError {
    /// Renders the error as text for the caller to report.
    pub fn message(&self) -> (r: String)
        ensures
            r@ == message_of(*self),
    {
        match self {
            BuildError::ConfigurationError => String::from_str(
                "could not find the output directory, are we running in a build.rs script?",
            ),
            BuildError::IoError { cause } => String::from_str(
                "could not write file to `out` directory: ",
            ).concat(cause.as_str()),
            BuildError::EncodingError { path } => {
                let shown = render_path_bytes(path);
                String::from_str("cargo requires that paths are utf8, but \"").concat(
                    shown.as_str(),
                ).concat("\" is not")
            },
        }
    }
}

} // verus!
