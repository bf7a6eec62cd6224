use vstd::prelude::*;
use vstd::string::StringExecFns;

verus! {

/// One backup archive, as listed in the backup index.
#[derive(Debug)]
pub struct BackupInfo {
    pub id: String,
    pub server_name: String,
    pub server_path: String,
    pub created_at: String,
    pub size_bytes: u64,
    /// "manual", "auto" or "pre-update".
    pub backup_type: String,
    pub file_path: String,
}

impl BackupInfo {
    /// A field-by-field copy.
    pub fn duplicate(&self) -> (r: BackupInfo)
        ensures
            r == *self,
    {
        BackupInfo {
            id: self.id.clone(),
            server_name: self.server_name.clone(),
            server_path: self.server_path.clone(),
            created_at: self.created_at.clone(),
            size_bytes: self.size_bytes,
            backup_type: self.backup_type.clone(),
            file_path: self.file_path.clone(),
        }
    }
}

/// A character that may stand in a file name: spaces and path separators
/// become underscores.
pub open spec fn safe_char(c: char) -> char {
    if c == ' ' || c == '/' || c == '\\' { '_' } else { c }
}

/// The name of the archive of a backup of `server_name` taken at `timestamp`.
pub open spec fn backup_file_name_spec(server_name: Seq<char>, timestamp: Seq<char>) -> Seq<char> {
    server_name.map_values(|c: char| safe_char(c)) + "_"@ + timestamp + ".zip"@
}

/// The name of the archive of a backup of `server_name` taken at `timestamp`
/// (`%Y%m%d_%H%M%S`).
pub fn backup_file_name(server_name: &str, timestamp: &str) -> (r: String)
    ensures
        r@ == backup_file_name_spec(server_name@, timestamp@),
{
    let n = server_name.unicode_len();
    let mut out = String::new();
    let mut i: usize = 0;
    while i < n
        invariant
            n == server_name@.len(),
            i <= n,
            out@ == server_name@.take(i as int).map_values(|c: char| safe_char(c)),
        decreases n - i,
    {
        let c = server_name.get_char(i);
        let ghost before = out@;
        if c == ' ' || c == '/' || c == '\\' {
            proof { reveal_strlit("_"); }
            out.append("_");
        } else {
            let one = server_name.substring_char(i, i + 1);
            assert(one@ =~= seq![c]);
            out.append(one);
        }
        assert(server_name@.take(i + 1).map_values(|c: char| safe_char(c)) =~= before.push(safe_char(c)));
        i = i + 1;
    }
    assert(server_name@.take(n as int) =~= server_name@);
    out.append("_");
    out.append(timestamp);
    out.append(".zip");
    out
}

/// The position of the first backup with this id.
pub fn find_backup(backups: &Vec<BackupInfo>, id: &String) -> (r: Option<usize>)
    ensures
        match r {
            Some(i) => i < backups@.len() && backups@[i as int].id@ == id@ && forall|j: int|
                0 <= j < i ==> #[trigger] backups@[j].id@ != id@,
            None => forall|j: int| 0 <= j < backups@.len() ==> #[trigger] backups@[j].id@ != id@,
        },
{
    let mut i: usize = 0;
    while i < backups.len()
        invariant
            i <= backups@.len(),
            forall|j: int| 0 <= j < i ==> #[trigger] backups@[j].id@ != id@,
        decreases backups@.len() - i,
    {
        if backups[i].id == *id {
            return Some(i);
        }
        i = i + 1;
    }
    None
}

/// The backups whose archive is still present, in index order.
pub open spec fn kept(bs: Seq<BackupInfo>, present: Seq<bool>) -> Seq<BackupInfo>
    decreases bs.len(),
{
    if bs.len() == 0 {
        Seq::empty()
    } else if present[bs.len() - 1] {
        kept(bs.drop_last(), present).push(bs.last())
    } else {
        kept(bs.drop_last(), present)
    }
}

/// Keeps the backups whose archive is still present; `present[i]` says it of
/// the `i`-th backup.
pub fn retain_present(backups: &Vec<BackupInfo>, present: &Vec<bool>) -> (r: Vec<BackupInfo>)
    requires
        present@.len() == backups@.len(),
    ensures
        r@ == kept(backups@, present@),
{
    let mut r: Vec<BackupInfo> = Vec::new();
    let mut i: usize = 0;
    while i < backups.len()
        invariant
            i <= backups@.len(),
            present@.len() == backups@.len(),
            r@ == kept(backups@.take(i as int), present@),
        decreases backups@.len() - i,
    {
        assert(backups@.take(i + 1).drop_last() =~= backups@.take(i as int));
        if present[i] {
            r.push(backups[i].duplicate());
        }
        i = i + 1;
    }
    assert(backups@.take(backups@.len() as int) =~= backups@);
    r
}

/// Puts a new backup at the front of the index, newest first.
pub fn record_backup(backups: &mut Vec<BackupInfo>, info: BackupInfo)
    ensures
        final(backups)@ == seq![info] + old(backups)@,
{
    backups.insert(0, info);
    assert(final(backups)@ =~= seq![info] + old(backups)@);
}

/// Takes the first backup with this id out of the index.
pub fn remove_backup(backups: &mut Vec<BackupInfo>, id: &String) -> (r: Option<BackupInfo>)
    ensures
        match r {
            Some(b) => b.id@ == id@ && exists|i: int|
                0 <= i < old(backups)@.len() && old(backups)@[i] == b && final(backups)@
                    == old(backups)@.remove(i),
            None => final(backups)@ == old(backups)@ && forall|j: int|
                0 <= j < old(backups)@.len() ==> #[trigger] old(backups)@[j].id@ != id@,
        },
{
    match find_backup(backups, id) {
        Some(i) => Some(backups.remove(i)),
        None => None,
    }
}

} // verus!
