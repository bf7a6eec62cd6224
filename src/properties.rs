use vstd::prelude::*;
use vstd::string::StringExecFns;
use crate::table::Table;
use crate::text::{lines_of, pair_views, split_lines, trim_text, trimmed};

verus! {

/// The position of the first '=' in `s`.
pub open spec fn first_eq(s: Seq<char>) -> Option<int>
    decreases s.len(),
{
    if s.len() == 0 {
        None
    } else if s[0] == '=' {
        Some(0)
    } else {
        match first_eq(s.drop_first()) {
            Some(i) => Some(i + 1),
            None => None,
        }
    }
}

/// The key and value of one line of a properties file: blank lines,
/// comments and lines without '=' hold none; key and value are trimmed.
pub open spec fn property_of(line: Seq<char>) -> Option<(Seq<char>, Seq<char>)> {
    let t = trimmed(line);
    if t.len() == 0 || t[0] == '#' {
        None
    } else {
        match first_eq(t) {
            Some(i) => Some((trimmed(t.take(i)), trimmed(t.skip(i + 1)))),
            None => None,
        }
    }
}

/// The properties of a sequence of lines; a later line wins over an earlier
/// one with the same key.
pub open spec fn properties_of(lines: Seq<Seq<char>>) -> Map<Seq<char>, Seq<char>>
    decreases lines.len(),
{
    if lines.len() == 0 {
        Map::empty()
    } else {
        let m = properties_of(lines.drop_last());
        match property_of(lines.last()) {
            Some((k, v)) => m.insert(k, v),
            None => m,
        }
    }
}

/// The position of the first '=' in `s`.
fn find_eq(s: &str) -> (r: Option<usize>)
    ensures
        match r {
            Some(i) => first_eq(s@) == Some(i as int) && i < s@.len(),
            None => first_eq(s@) is None,
        },
{
    let n = s.unicode_len();
    let mut i: usize = 0;
    assert(s@.skip(0) =~= s@);
    while i < n
        invariant
            n == s@.len(),
            i <= n,
            forall|j: int| 0 <= j < i ==> s@[j] != '=',
            first_eq(s@) == match first_eq(s@.skip(i as int)) {
                Some(k) => Some(k + i),
                None => None,
            },
        decreases n - i,
    {
        if s.get_char(i) == '=' {
            assert(s@.skip(i as int)[0] == '=');
            return Some(i);
        }
        assert(s@.skip(i as int).drop_first() =~= s@.skip(i + 1));
        i = i + 1;
    }
    assert(s@.skip(n as int).len() == 0);
    None
}

/// The key and value of one line, if it holds a property.
pub fn parse_property(line: &str) -> (r: Option<(String, String)>)
    ensures
        match r {
            Some((k, v)) => property_of(line@) == Some((k@, v@)),
            None => property_of(line@) is None,
        },
{
    let t = trim_text(line);
    let n = t.as_str().unicode_len();
    if n == 0 || t.as_str().get_char(0) == '#' {
        return None;
    }
    match find_eq(t.as_str()) {
        Some(i) => {
            let k = trim_text(t.as_str().substring_char(0, i));
            let v = trim_text(t.as_str().substring_char(i + 1, n));
            assert(t@.take(i as int) =~= t@.subrange(0, i as int));
            assert(t@.skip(i + 1) =~= t@.subrange(i + 1, n as int));
            Some((k, v))
        },
        None => None,
    }
}

/// The properties of a `server.properties` text, by key.
pub fn parse_properties(content: &str) -> (r: Table<String>)
    ensures
        r.wf(),
        r@.map_values(|v: String| v@) == properties_of(lines_of(content@)),
{
    let lines = split_lines(content);
    let ghost ls = lines@.map_values(|l: String| l@);
    let mut r: Table<String> = Table::new();
    let mut i: usize = 0;
    assert(ls.take(0) =~= Seq::<Seq<char>>::empty());
    assert(r@.map_values(|v: String| v@) =~= Map::<Seq<char>, Seq<char>>::empty());
    while i < lines.len()
        invariant
            i <= lines@.len(),
            ls == lines@.map_values(|l: String| l@),
            ls == lines_of(content@),
            r.wf(),
            r@.map_values(|v: String| v@) == properties_of(ls.take(i as int)),
        decreases lines@.len() - i,
    {
        assert(ls.take(i + 1).drop_last() =~= ls.take(i as int));
        assert(ls.take(i + 1).last() == lines@[i as int]@);
        let ghost before = r@;
        match parse_property(lines[i].as_str()) {
            Some((k, v)) => {
                let ghost kv = k@;
                let ghost vv = v@;
                r.insert(k, v);
                assert(r@.map_values(|v: String| v@) =~= before.map_values(|v: String| v@).insert(
                    kv,
                    vv,
                ));
            },
            None => {},
        }
        i = i + 1;
    }
    assert(ls.take(lines@.len() as int) =~= ls);
    r
}

/// The trimmed key of a line that holds a property.
pub open spec fn line_key(line: Seq<char>) -> Option<Seq<char>> {
    match property_of(line) {
        Some((k, _)) => Some(k),
        None => None,
    }
}

/// The value given for `k` by the first update with that key.
pub open spec fn lookup(u: Seq<(Seq<char>, Seq<char>)>, k: Seq<char>) -> Option<Seq<char>>
    decreases u.len(),
{
    if u.len() == 0 {
        None
    } else if u[0].0 == k {
        Some(u[0].1)
    } else {
        lookup(u.drop_first(), k)
    }
}

/// A line after the updates: a property line whose key is updated becomes
/// `key=value`; every other line stays as it was.
pub open spec fn rewrite_line(line: Seq<char>, u: Seq<(Seq<char>, Seq<char>)>) -> Seq<char> {
    match line_key(line) {
        Some(k) => match lookup(u, k) {
            Some(v) => k + "="@ + v,
            None => line,
        },
        None => line,
    }
}

/// Some line of `ls` holds the key `k` and was rewritten.
pub open spec fn key_rewritten(ls: Seq<Seq<char>>, u: Seq<(Seq<char>, Seq<char>)>, k: Seq<char>) -> bool {
    lookup(u, k) is Some && exists|j: int| 0 <= j < ls.len() && line_key(#[trigger] ls[j]) == Some(k)
}

/// The `key=value` lines of the first `n` updates whose key no line held.
pub open spec fn appended(ls: Seq<Seq<char>>, u: Seq<(Seq<char>, Seq<char>)>, n: int) -> Seq<Seq<char>>
    decreases n,
{
    if n <= 0 {
        Seq::empty()
    } else if key_rewritten(ls, u, u[n - 1].0) {
        appended(ls, u, n - 1)
    } else {
        appended(ls, u, n - 1).push(u[n - 1].0 + "="@ + u[n - 1].1)
    }
}

/// The lines of a properties file after the updates.
pub open spec fn merged_lines(ls: Seq<Seq<char>>, u: Seq<(Seq<char>, Seq<char>)>) -> Seq<Seq<char>> {
    ls.map_values(|l: Seq<char>| rewrite_line(l, u)) + appended(ls, u, u.len() as int)
}

/// Lines joined by newlines, without a final one.
pub open spec fn join_lines(ls: Seq<Seq<char>>) -> Seq<char>
    decreases ls.len(),
{
    if ls.len() == 0 {
        Seq::empty()
    } else if ls.len() == 1 {
        ls[0]
    } else {
        join_lines(ls.drop_last()) + "\n"@ + ls.last()
    }
}

/// The trimmed key of a line, if it holds a property.
pub fn property_key(line: &str) -> (r: Option<String>)
    ensures
        match r {
            Some(k) => line_key(line@) == Some(k@),
            None => line_key(line@) is None,
        },
{
    match parse_property(line) {
        Some((k, _)) => Some(k),
        None => None,
    }
}

/// The value the first update with key `k` gives.
fn find_update(updates: &Vec<(String, String)>, k: &String) -> (r: Option<usize>)
    ensures
        match r {
            Some(i) => i < updates@.len() && lookup(pair_views(updates@), k@) == Some(updates@[i as int].1@),
            None => lookup(pair_views(updates@), k@) is None,
        },
{
    let ghost u = pair_views(updates@);
    let mut i: usize = 0;
    assert(u.skip(0) =~= u);
    while i < updates.len()
        invariant
            i <= updates@.len(),
            u == pair_views(updates@),
            forall|j: int| 0 <= j < i ==> #[trigger] updates@[j].0@ != k@,
            lookup(u, k@) == lookup(u.skip(i as int), k@),
        decreases updates@.len() - i,
    {
        assert(u.skip(i as int)[0] == (updates@[i as int].0@, updates@[i as int].1@));
        if updates[i].0 == *k {
            return Some(i);
        }
        assert(u.skip(i as int).drop_first() =~= u.skip(i + 1));
        i = i + 1;
    }
    None
}

fn contains_key(seen: &Vec<String>, k: &String) -> (r: bool)
    ensures
        r == exists|j: int| 0 <= j < seen@.len() && #[trigger] seen@[j]@ == k@,
{
    let mut i: usize = 0;
    while i < seen.len()
        invariant
            i <= seen@.len(),
            forall|j: int| 0 <= j < i ==> #[trigger] seen@[j]@ != k@,
        decreases seen@.len() - i,
    {
        if seen[i] == *k {
            return true;
        }
        i = i + 1;
    }
    false
}

/// Joins lines with newlines.
pub fn join_text_lines(lines: &Vec<String>) -> (r: String)
    ensures
        r@ == join_lines(lines@.map_values(|l: String| l@)),
{
    let ghost ls = lines@.map_values(|l: String| l@);
    let mut out = String::new();
    let mut i: usize = 0;
    while i < lines.len()
        invariant
            i <= lines@.len(),
            ls == lines@.map_values(|l: String| l@),
            out@ == join_lines(ls.take(i as int)),
        decreases lines@.len() - i,
    {
        assert(ls.take(i + 1).drop_last() =~= ls.take(i as int));
        if i > 0 {
            out.append("\n");
        } else {
            assert(out@ =~= Seq::<char>::empty());
        }
        out.append(lines[i].as_str());
        i = i + 1;
    }
    assert(ls.take(lines@.len() as int) =~= ls);
    out
}

/// The text of a properties file after the updates: each property line whose
/// key is updated becomes `key=value`, every other line is kept, and the
/// updates whose key no line held are added at the end, in order.
pub fn merge_properties(content: &str, updates: &Vec<(String, String)>) -> (r: String)
    ensures
        r@ == join_lines(merged_lines(lines_of(content@), pair_views(updates@))),
{
    let lines = split_lines(content);
    let ghost ls = lines@.map_values(|l: String| l@);
    let ghost u = pair_views(updates@);
    let mut out: Vec<String> = Vec::new();
    let mut seen: Vec<String> = Vec::new();
    let mut i: usize = 0;
    while i < lines.len()
        invariant
            i <= lines@.len(),
            ls == lines@.map_values(|l: String| l@),
            ls == lines_of(content@),
            u == pair_views(updates@),
            out@.map_values(|l: String| l@) == ls.take(i as int).map_values(|l: Seq<char>| rewrite_line(l, u)),
            forall|k: Seq<char>|
                (exists|j: int| 0 <= j < seen@.len() && #[trigger] seen@[j]@ == k) <==> key_rewritten(
                    ls.take(i as int),
                    u,
                    k,
                ),
        decreases lines@.len() - i,
    {
        let ghost before_out = out@.map_values(|l: String| l@);
        let ghost before_seen = seen@;
        let line = &lines[i];
        assert(ls[i as int] == line@);
        let mut replaced = false;
        match property_key(line.as_str()) {
            Some(k) => match find_update(updates, &k) {
                Some(j) => {
                    let mut text = k.clone();
                    text.append("=");
                    text.append(updates[j].1.as_str());
                    out.push(text);
                    seen.push(k);
                    replaced = true;
                },
                None => {},
            },
            None => {},
        }
        if !replaced {
            out.push(line.clone());
        }
        proof {
            let lt = ls.take(i + 1);
            assert(lt.map_values(|l: Seq<char>| rewrite_line(l, u)) =~= ls.take(i as int).map_values(
                |l: Seq<char>| rewrite_line(l, u),
            ).push(rewrite_line(ls[i as int], u)));
            assert(out@.map_values(|l: String| l@) =~= before_out.push(rewrite_line(ls[i as int], u)));
            assert forall|k: Seq<char>|
                (exists|j: int| 0 <= j < seen@.len() && #[trigger] seen@[j]@ == k) <==> key_rewritten(
                    lt,
                    u,
                    k,
                ) by {
                if key_rewritten(lt, u, k) {
                    let j0 = choose|j: int| 0 <= j < lt.len() && line_key(#[trigger] lt[j]) == Some(k);
                    if j0 < i {
                        assert(ls.take(i as int)[j0] == lt[j0]);
                        assert(key_rewritten(ls.take(i as int), u, k));
                        let s0 = choose|s: int| 0 <= s < before_seen.len() && #[trigger] before_seen[s]@ == k;
                        assert(seen@[s0] == before_seen[s0]);
                    } else {
                        assert(seen@[seen@.len() - 1]@ == k);
                    }
                }
                if exists|j: int| 0 <= j < seen@.len() && #[trigger] seen@[j]@ == k {
                    let s0 = choose|s: int| 0 <= s < seen@.len() && #[trigger] seen@[s]@ == k;
                    if s0 < before_seen.len() {
                        assert(seen@[s0] == before_seen[s0]);
                        assert(key_rewritten(ls.take(i as int), u, k));
                        let j0 = choose|j: int|
                            0 <= j < ls.take(i as int).len() && line_key(#[trigger] ls.take(i as int)[j]) == Some(k);
                        assert(lt[j0] == ls.take(i as int)[j0]);
                    } else {
                        assert(lt[i as int] == ls[i as int]);
                    }
                }
            }
        }
        i = i + 1;
    }
    assert(ls.take(lines@.len() as int) =~= ls);
    let ghost head = out@.map_values(|l: String| l@);
    let mut n: usize = 0;
    assert(head + appended(ls, u, 0) =~= head);
    while n < updates.len()
        invariant
            n <= updates@.len(),
            u == pair_views(updates@),
            head == ls.map_values(|l: Seq<char>| rewrite_line(l, u)),
            out@.map_values(|l: String| l@) == head + appended(ls, u, n as int),
            forall|k: Seq<char>|
                (exists|j: int| 0 <= j < seen@.len() && #[trigger] seen@[j]@ == k) <==> key_rewritten(ls, u, k),
        decreases updates@.len() - n,
    {
        let ghost before = out@.map_values(|l: String| l@);
        assert(u[n as int] == (updates@[n as int].0@, updates@[n as int].1@));
        if !contains_key(&seen, &updates[n].0) {
            let mut text = updates[n].0.clone();
            text.append("=");
            text.append(updates[n].1.as_str());
            out.push(text);
            assert(out@.map_values(|l: String| l@) =~= before.push(u[n as int].0 + "="@ + u[n as int].1));
        }
        n = n + 1;
    }
    assert(merged_lines(ls, u) == head + appended(ls, u, updates@.len() as int));
    join_text_lines(&out)
}

} // verus!
