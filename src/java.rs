use vstd::prelude::*;
use crate::text::{lines_of, remove_all, remove_all_text, split_lines};

verus! {

/// A Java runtime found on the machine.
#[derive(Debug)]
pub struct JavaInstall {
    pub path: String,
    pub version: String,
    pub arch: String,
}

/// The version text of a runtime: the first line that `java -version`
/// printed (or `fallback` when it printed nothing), without double quotes.
pub open spec fn version_text(output: Seq<char>, fallback: Seq<char>) -> Seq<char> {
    let ls = lines_of(output);
    remove_all(if ls.len() > 0 { ls[0] } else { fallback }, "\""@)
}

/// The runtime at `path`, from what `java -version` printed on its error stream.
pub fn java_install(path: String, output: &str, fallback: &str, arch: String) -> (r: JavaInstall)
    ensures
        r.path == path,
        r.arch == arch,
        r.version@ == version_text(output@, fallback@),
{
    proof {
        reveal_strlit("\"");
    }
    let lines = split_lines(output);
    let ghost ls = lines@.map_values(|l: String| l@);
    assert(ls.len() == lines@.len());
    let version = if lines.len() > 0 {
        assert(ls[0] == lines@[0]@);
        remove_all_text(lines[0].as_str(), "\"")
    } else {
        remove_all_text(fallback, "\"")
    };
    JavaInstall { path, version, arch }
}

} // verus!
