use vstd::prelude::*;
use vstd::string::StringExecFns;
use crate::text::{concat, ends_with, has_suffix};

verus! {

/// A plugin archive found in a server's plugins directory.
#[derive(Debug)]
pub struct InstalledPlugin {
    pub name: String,
    pub filename: String,
    pub enabled: bool,
    pub size: u64,
}

/// `s` with every trailing repetition of `suf` removed, as
/// `str::trim_end_matches` does for a non-empty pattern.
pub open spec fn trim_suffix_all(s: Seq<char>, suf: Seq<char>) -> Seq<char>
    decreases s.len(),
{
    if suf.len() > 0 && has_suffix(s, suf) {
        trim_suffix_all(s.take(s.len() - suf.len()), suf)
    } else {
        s
    }
}

/// `s` with every trailing repetition of `suf` removed.
pub fn trim_end_matches(s: &str, suf: &str) -> (r: String)
    requires
        suf@.len() > 0,
    ensures
        r@ == trim_suffix_all(s@, suf@),
{
    let n = s.unicode_len();
    let k = suf.unicode_len();
    let mut end: usize = n;
    assert(s@.take(n as int) =~= s@);
    loop
        invariant
            n == s@.len(),
            k == suf@.len(),
            k > 0,
            end <= n,
            trim_suffix_all(s@, suf@) == trim_suffix_all(s@.take(end as int), suf@),
        decreases end,
    {
        let rest = s.substring_char(0, end);
        assert(rest@ == s@.take(end as int));
        if !ends_with(rest, suf) {
            return String::from_str(rest);
        }
        assert(s@.take(end as int).take(end - k) =~= s@.take(end - k));
        end = end - k;
    }
}

/// The plugin that a file of the plugins directory holds: a `.jar` is an
/// enabled plugin, a `.jar.disabled` a disabled one, anything else none.
pub fn classify_plugin(filename: String, size: u64) -> (r: Option<InstalledPlugin>)
    ensures
        has_suffix(filename@, ".jar"@) ==> r is Some && r->Some_0.enabled && r->Some_0.name@
            == trim_suffix_all(filename@, ".jar"@),
        !has_suffix(filename@, ".jar"@) && has_suffix(filename@, ".jar.disabled"@) ==> r is Some
            && !r->Some_0.enabled && r->Some_0.name@ == trim_suffix_all(filename@, ".jar.disabled"@),
        !has_suffix(filename@, ".jar"@) && !has_suffix(filename@, ".jar.disabled"@) ==> r is None,
        r is Some ==> r->Some_0.filename == filename && r->Some_0.size == size,
{
    proof {
        reveal_strlit(".jar");
        reveal_strlit(".jar.disabled");
    }
    if ends_with(filename.as_str(), ".jar") {
        let name = trim_end_matches(filename.as_str(), ".jar");
        Some(InstalledPlugin { name, filename, enabled: true, size })
    } else if ends_with(filename.as_str(), ".jar.disabled") {
        let name = trim_end_matches(filename.as_str(), ".jar.disabled");
        Some(InstalledPlugin { name, filename, enabled: false, size })
    } else {
        None
    }
}

/// The name a plugin file gets when it is switched: a disabled file loses its
/// `.disabled` ending, any other gains one.
pub fn toggled_plugin_name(filename: &str) -> (r: String)
    ensures
        has_suffix(filename@, ".disabled"@) ==> r@ == trim_suffix_all(filename@, ".disabled"@),
        !has_suffix(filename@, ".disabled"@) ==> r@ == filename@ + ".disabled"@,
{
    proof {
        reveal_strlit(".disabled");
    }
    if ends_with(filename, ".disabled") {
        trim_end_matches(filename, ".disabled")
    } else {
        concat(filename, ".disabled")
    }
}

} // verus!
