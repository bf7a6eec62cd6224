use vstd::prelude::*;
use crate::text::{contains_text, has_prefix, occurs_in, starts_with, trim_text, trimmed};

verus! {

/// The position of the first '/' in `s`.
pub open spec fn first_slash(s: Seq<char>) -> Option<int>
    decreases s.len(),
{
    if s.len() == 0 {
        None
    } else if s[0] == '/' {
        Some(0)
    } else {
        match first_slash(s.drop_first()) {
            Some(i) => Some(i + 1),
            None => None,
        }
    }
}

/// The top folder of an archive entry, with its slash; none for an entry
/// at the top level.
pub open spec fn root_of(name: Seq<char>) -> Option<Seq<char>> {
    match first_slash(name) {
        Some(i) => Some(name.take(i + 1)),
        None => None,
    }
}

/// The folder that every entry of an archive lies in, if there is one.
pub open spec fn common_root_spec(names: Seq<Seq<char>>) -> Option<Seq<char>> {
    if names.len() > 0 && root_of(names[0]) is Some && (forall|i: int|
        0 <= i < names.len() ==> root_of(#[trigger] names[i]) == root_of(names[0])) {
        root_of(names[0])
    } else {
        None
    }
}

/// An entry's path below the common folder.
pub open spec fn below_root(name: Seq<char>, root: Option<Seq<char>>) -> Seq<char> {
    match root {
        Some(p) => if has_prefix(name, p) { name.skip(p.len() as int) } else { name },
        None => name,
    }
}

/// A world name that is safe to create: not blank, and without `..`, `/` or `\`.
pub open spec fn valid_world_name_spec(name: Seq<char>) -> bool {
    trimmed(name).len() > 0 && !occurs_in(name, ".."@) && !occurs_in(name, "/"@) && !occurs_in(name, "\\"@)
}

fn root_of_name(name: &str) -> (r: Option<String>)
    ensures
        match r {
            Some(p) => root_of(name@) == Some(p@),
            None => root_of(name@) is None,
        },
{
    let n = name.unicode_len();
    let mut i: usize = 0;
    assert(name@.skip(0) =~= name@);
    while i < n
        invariant
            n == name@.len(),
            i <= n,
            first_slash(name@) == match first_slash(name@.skip(i as int)) {
                Some(k) => Some(k + i),
                None => None,
            },
        decreases n - i,
    {
        if name.get_char(i) == '/' {
            assert(name@.skip(i as int)[0] == '/');
            let p = name.substring_char(0, i + 1);
            assert(p@ =~= name@.take(i + 1));
            return Some(String::from_str(p));
        }
        assert(name@.skip(i as int).drop_first() =~= name@.skip(i + 1));
        i = i + 1;
    }
    assert(name@.skip(n as int).len() == 0);
    None
}

/// The folder that every entry lies in, if there is one: archives of a world
/// often hold it in a single top folder, which is then left out on extraction.
pub fn common_root(names: &Vec<String>) -> (r: Option<String>)
    ensures
        match r {
            Some(p) => common_root_spec(names@.map_values(|s: String| s@)) == Some(p@),
            None => common_root_spec(names@.map_values(|s: String| s@)) is None,
        },
{
    let ghost ns = names@.map_values(|s: String| s@);
    if names.len() == 0 {
        return None;
    }
    assert(ns[0] == names@[0]@);
    let first = match root_of_name(names[0].as_str()) {
        Some(p) => p,
        None => return None,
    };
    let mut i: usize = 1;
    while i < names.len()
        invariant
            1 <= i <= names@.len(),
            ns == names@.map_values(|s: String| s@),
            root_of(ns[0]) == Some(first@),
            forall|j: int| 0 <= j < i ==> root_of(#[trigger] ns[j]) == Some(first@),
        decreases names@.len() - i,
    {
        assert(ns[i as int] == names@[i as int]@);
        match root_of_name(names[i].as_str()) {
            Some(p) => {
                if p != first {
                    return None;
                }
            },
            None => return None,
        }
        i = i + 1;
    }
    Some(first)
}

/// An entry's path below the common folder (unchanged without one).
pub fn strip_root(name: &str, root: &Option<String>) -> (r: String)
    ensures
        r@ == below_root(name@, match root {
            Some(p) => Some(p@),
            None => None,
        }),
{
    match root {
        Some(p) => {
            if starts_with(name, p.as_str()) {
                let n = name.unicode_len();
                let k = p.as_str().unicode_len();
                let rest = name.substring_char(k, n);
                assert(rest@ =~= name@.skip(k as int));
                String::from_str(rest)
            } else {
                String::from_str(name)
            }
        },
        None => String::from_str(name),
    }
}

/// Whether `name` may name a new world folder.
pub fn valid_world_name(name: &str) -> (r: bool)
    ensures
        r == valid_world_name_spec(name@),
{
    let t = trim_text(name);
    if t.as_str().unicode_len() == 0 {
        return false;
    }
    !contains_text(name, "..") && !contains_text(name, "/") && !contains_text(name, "\\")
}

} // verus!
