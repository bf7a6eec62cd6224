use vstd::prelude::*;
use vstd::multiset::Multiset;
use vstd::string::StringExecFns;
use crate::text::{contains_text, decimal, decimal_text, occurs_in};

verus! {

broadcast use vstd::seq_lib::group_to_multiset_ensures;

/// One entry of a directory listing.
#[derive(Debug)]
pub struct FileEntry {
    pub name: String,
    pub size: u64,
    pub is_dir: bool,
}

/// `a` comes before or equals `b` in the order of `str`'s `cmp`, which for
/// UTF-8 text is the order of the code points.
pub open spec fn text_le(a: Seq<char>, b: Seq<char>) -> bool
    decreases a.len(),
{
    if a.len() == 0 {
        true
    } else if b.len() == 0 {
        false
    } else if a[0] != b[0] {
        a[0] < b[0]
    } else {
        text_le(a.drop_first(), b.drop_first())
    }
}

/// Whether a server directory may be deleted: its path must lie under a
/// `Servers` (or `servers`) folder.
pub fn deletion_allowed(path: &str) -> (r: bool)
    ensures
        r == (occurs_in(path@, "Servers"@) || occurs_in(path@, "servers"@)),
{
    contains_text(path, "Servers") || contains_text(path, "servers")
}

/// The file name of the `counter`-th copy of a file with this stem and extension.
pub open spec fn copy_name_spec(stem: Seq<char>, extension: Option<Seq<char>>, counter: u32) -> Seq<char> {
    let base = stem + " (copy "@ + decimal(counter as nat) + ")"@;
    match extension {
        Some(e) => base + "."@ + e,
        None => base,
    }
}

/// The file name of the `counter`-th copy of a file with this stem and extension:
/// `stem (copy n).ext`.
pub fn copy_name(stem: &str, extension: &Option<String>, counter: u32) -> (r: String)
    ensures
        r@ == copy_name_spec(stem@, match extension {
            Some(e) => Some(e@),
            None => None,
        }, counter),
{
    let mut s = String::from_str(stem);
    s.append(" (copy ");
    let n = decimal_text(counter);
    s.append(n.as_str());
    s.append(")");
    match extension {
        Some(e) => {
            s.append(".");
            s.append(e.as_str());
        },
        None => {},
    }
    s
}

/// The listing order: directories first, then by name.
pub open spec fn entry_le(a: FileEntry, b: FileEntry) -> bool {
    (a.is_dir && !b.is_dir) || (a.is_dir == b.is_dir && text_le(a.name@, b.name@))
}

/// Every entry comes before or equals the ones after it.
pub open spec fn listing_sorted(s: Seq<FileEntry>) -> bool {
    forall|i: int, j: int| 0 <= i < j < s.len() ==> entry_le(#[trigger] s[i], #[trigger] s[j])
}

proof fn text_le_refl(a: Seq<char>)
    ensures
        text_le(a, a),
    decreases a.len(),
{
    if a.len() > 0 {
        text_le_refl(a.drop_first());
    }
}

proof fn text_le_total(a: Seq<char>, b: Seq<char>)
    ensures
        text_le(a, b) || text_le(b, a),
    decreases a.len(),
{
    if a.len() > 0 && b.len() > 0 && a[0] == b[0] {
        text_le_total(a.drop_first(), b.drop_first());
    }
}

proof fn text_le_trans(a: Seq<char>, b: Seq<char>, c: Seq<char>)
    requires
        text_le(a, b),
        text_le(b, c),
    ensures
        text_le(a, c),
    decreases a.len(),
{
    if a.len() > 0 && b.len() > 0 && c.len() > 0 && a[0] == b[0] && b[0] == c[0] {
        text_le_trans(a.drop_first(), b.drop_first(), c.drop_first());
    }
}

proof fn entry_le_total(a: FileEntry, b: FileEntry)
    ensures
        entry_le(a, b) || entry_le(b, a),
{
    text_le_total(a.name@, b.name@);
}

proof fn entry_le_trans(a: FileEntry, b: FileEntry, c: FileEntry)
    requires
        entry_le(a, b),
        entry_le(b, c),
    ensures
        entry_le(a, c),
{
    if a.is_dir == b.is_dir && b.is_dir == c.is_dir {
        text_le_trans(a.name@, b.name@, c.name@);
    }
}

/// Whether the name `a` comes before or equals `b`.
pub fn name_le(a: &String, b: &String) -> (r: bool)
    ensures
        r == text_le(a@, b@),
{
    let n = a.as_str().unicode_len();
    let m = b.as_str().unicode_len();
    let mut i: usize = 0;
    assert(a@.skip(0) =~= a@);
    assert(b@.skip(0) =~= b@);
    loop
        invariant
            n == a@.len(),
            m == b@.len(),
            i <= n,
            i <= m,
            text_le(a@, b@) == text_le(a@.skip(i as int), b@.skip(i as int)),
        decreases n - i,
    {
        if i == n {
            return true;
        }
        if i == m {
            return false;
        }
        let x = a.as_str().get_char(i);
        let y = b.as_str().get_char(i);
        assert(a@.skip(i as int)[0] == x);
        assert(b@.skip(i as int)[0] == y);
        if x != y {
            return x < y;
        }
        assert(a@.skip(i as int).drop_first() =~= a@.skip(i + 1));
        assert(b@.skip(i as int).drop_first() =~= b@.skip(i + 1));
        i = i + 1;
    }
}

/// Whether `a` comes before or equals `b` in the listing order.
pub fn entry_before(a: &FileEntry, b: &FileEntry) -> (r: bool)
    ensures
        r == entry_le(*a, *b),
{
    (a.is_dir && !b.is_dir) || (a.is_dir == b.is_dir && name_le(&a.name, &b.name))
}

/// The entries in listing order: directories first, then by name.
pub fn sort_listing(entries: Vec<FileEntry>) -> (r: Vec<FileEntry>)
    ensures
        listing_sorted(r@),
        r@.to_multiset() == entries@.to_multiset(),
{
    let ghost orig = entries@;
    let mut rest = entries;
    let mut out: Vec<FileEntry> = Vec::new();
    while rest.len() > 0
        invariant
            out@.to_multiset().add(rest@.to_multiset()) == orig.to_multiset(),
            listing_sorted(out@),
            forall|i: int, j: int|
                0 <= i < out@.len() && 0 <= j < rest@.len() ==> entry_le(
                    #[trigger] out@[i],
                    #[trigger] rest@[j],
                ),
        decreases rest@.len(),
    {
        let mut m: usize = 0;
        let mut k: usize = 1;
        proof {
            text_le_refl(rest@[0].name@);
        }
        while k < rest.len()
            invariant
                0 <= m < rest@.len(),
                1 <= k <= rest@.len(),
                forall|j: int| 0 <= j < k ==> entry_le(rest@[m as int], #[trigger] rest@[j]),
            decreases rest@.len() - k,
        {
            if !entry_before(&rest[m], &rest[k]) {
                proof {
                    entry_le_total(rest@[m as int], rest@[k as int]);
                    text_le_refl(rest@[k as int].name@);
                    assert forall|j: int| 0 <= j < k + 1 implies entry_le(
                        rest@[k as int],
                        #[trigger] rest@[j],
                    ) by {
                        if j < k {
                            entry_le_trans(rest@[k as int], rest@[m as int], rest@[j]);
                        }
                    }
                }
                m = k;
            }
            k = k + 1;
        }
        let ghost before_rest = rest@;
        let ghost before_out = out@;
        let x = rest.remove(m);
        proof {
            assert(before_rest.to_multiset().remove(x) =~= rest@.to_multiset());
            assert(before_rest.to_multiset().contains(x));
        }
        out.push(x);
        proof {
            assert(out@.to_multiset() =~= before_out.to_multiset().insert(x));
            assert(out@.to_multiset().add(rest@.to_multiset()) =~= before_out.to_multiset().add(
                before_rest.to_multiset(),
            ));
            assert forall|i: int, j: int| 0 <= i < j < out@.len() implies entry_le(
                #[trigger] out@[i],
                #[trigger] out@[j],
            ) by {
                if j == out@.len() - 1 {
                    assert(before_rest[m as int] == x);
                } else {
                    assert(out@[i] == before_out[i]);
                    assert(out@[j] == before_out[j]);
                }
            }
            assert forall|i: int, j: int|
                0 <= i < out@.len() && 0 <= j < rest@.len() implies entry_le(
                #[trigger] out@[i],
                #[trigger] rest@[j],
            ) by {
                let j0 = if j < m { j } else { j + 1 };
                assert(rest@[j] == before_rest[j0]);
                if i == out@.len() - 1 {
                    assert(entry_le(before_rest[m as int], before_rest[j0]));
                } else {
                    assert(out@[i] == before_out[i]);
                }
            }
        }
    }
    assert(rest@.to_multiset() =~= Multiset::empty());
    assert(out@.to_multiset().add(Multiset::empty()) =~= out@.to_multiset());
    out
}

} // verus!
