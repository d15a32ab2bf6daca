//! The build session: output-directory handling and rebuild triggers.

use vstd::prelude::*;
use vstd::string::StringExecFns;
use vstd::utf8::valid_utf8;

use crate::encoding::utf8_cargo_path;
use crate::errors::BuildError;

use std::io::Write;

verus! {

/// The fixed text that starts every rebuild-trigger directive.  The build
/// orchestrator recognizes a directive by this exact prefix.
pub open spec fn directive_prefix() -> Seq<char> {
    "cargo:rerun-if-changed="@
}

/// The directive line that registers `path` as a rebuild trigger.
pub open spec fn directive_of(path: Seq<char>) -> Seq<char> {
    directive_prefix() + path
}

/// How a path is placed under the output directory: an absolute path stands
/// alone; otherwise the directory and the path are joined with `/`, without
/// doubling a separator the directory already ends with.
pub open spec fn joined_path(dir: Seq<u8>, rel: Seq<u8>) -> Seq<u8> {
    if rel.len() > 0 && rel[0] == 0x2f {
        rel
    } else if dir.len() == 0 {
        rel
    } else if dir[dir.len() - 1] == 0x2f {
        dir + rel
    } else {
        dir + seq![0x2fu8] + rel
    }
}

/// Relies on the writeln macro over std::io::Stdout: prints the given text
/// followed by a newline on standard output, the channel the enclosing
/// build orchestrator reads directives from.
#[verifier::external_body]
fn emit_line(line: &str) {
    let _ = writeln!(std::io::stdout(), "{}", line);
}

/// The rebuild-trigger directive for `path`: the fixed prefix followed by
/// the path itself.  The line depends on the path alone, so registering the
/// same path again yields the identical line.
pub fn rerun_directive(path: &str) -> (r: String)
    ensures
        r@ == directive_of(path@),
{
    let mut line = String::from_str("cargo:rerun-if-changed=");
    line.append(path);
    line
}

/// Registering the same path text twice emits two identical directive
/// lines: the directive is a function of the path alone, and no record of
/// earlier registrations is kept, so no deduplication takes place here.
pub proof fn lemma_directive_repeatable(first: Seq<char>, second: Seq<char>)
    requires
        first == second,
    ensures
        directive_of(first) == directive_of(second),
{
}

/// One build step's session: the output directory resolved once at
/// construction, and the operations that place generated files under it or
/// register rebuild triggers.
#[derive(Debug)]
pub struct Build {
    out_dir: Vec<u8>,
}

impl View for Build {
    type V = Seq<u8>;

    closed spec fn view(&self) -> Seq<u8> {
        self.out_dir@
    }
}

impl Build {
    /// Starts a build session from the output-directory value the build
    /// orchestrator supplied, or fails when none was supplied.  A
    /// successful start registers the build-definition script itself as a
    /// rebuild trigger, so the build step re-runs when its own definition
    /// changes.
    pub fn new(out_dir: Option<Vec<u8>>) -> (r: Result<Build, BuildError>)
        ensures
            match out_dir {
                Some(dir) => r matches Ok(b) && b@ == dir@,
                None => r matches Err(e) && e is ConfigurationError,
            },
    {
        match out_dir {
            None => Err(BuildError::ConfigurationError),
            Some(dir) => {
                let line = rerun_directive("build.rs");
                emit_line(line.as_str());
                Ok(Build { out_dir: dir })
            },
        }
    }

    /// The output directory this session resolved at construction.
    pub fn output_dir(&self) -> (r: &Vec<u8>)
        ensures
            r@ == self@,
    {
        &self.out_dir
    }

    /// The location of `rel` inside the output directory: the place where a
    /// generated file named `rel` is written.  No directories are created
    /// here; a missing parent surfaces later as a write failure.
    pub fn output_path(&self, rel: &[u8]) -> (r: Vec<u8>)
        ensures
            r@ == joined_path(self@, rel@),
    {
        if rel.len() > 0 && rel[0] == 0x2f {
            vstd::slice::slice_to_vec(rel)
        } else if self.out_dir.len() == 0 {
            vstd::slice::slice_to_vec(rel)
        } else {
            let mut joined = vstd::slice::slice_to_vec(self.out_dir.as_slice());
            if joined[joined.len() - 1] != 0x2f {
                joined.push(0x2f);
            }
            let mut tail = vstd::slice::slice_to_vec(rel);
            joined.append(&mut tail);
            joined
        }
    }

    /// Registers `path` as a rebuild trigger by emitting one directive line
    /// for it, provided the path can be represented as UTF-8 text; bytes
    /// that cannot are rejected before anything is emitted.
    pub fn rerun_if_changed(&self, path: &[u8]) -> (r: Result<(), BuildError>)
        ensures
            r is Ok <==> valid_utf8(path@),
            r matches Err(e) ==> e matches BuildError::EncodingError { path: p } && p@ == path@,
    {
        match utf8_cargo_path(path) {
            Ok(text) => {
                let line = rerun_directive(text);
                emit_line(line.as_str());
                Ok(())
            },
            Err(e) => Err(e),
        }
    }
}

} // verus!
