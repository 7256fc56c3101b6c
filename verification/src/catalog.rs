//! Model discovery: building a catalog of model records out of a directory
//! listing.
//!
//! The caller lists the models directory (outside the library) and hands in
//! one [`FsEntry`] per directory entry.  A regular file whose extension is on
//! the recognized allow-list becomes a record keyed by its filename without
//! the extension; a subdirectory becomes a record keyed by its name.  Other
//! entries are skipped.  A rescan rebuilds the catalog wholesale, so equal
//! listings always give equal catalogs.

use vstd::prelude::*;

verus! {

/// One entry of a directory listing, as the caller observed it: the entry's
/// bare name, its full path, and whether it is a directory.
pub struct FsEntry {
    pub name: String,
    pub path: String,
    pub is_dir: bool,
}

/// Mathematical image of an [`FsEntry`].
pub struct FsEntryGhost {
    pub name: Seq<char>,
    pub path: Seq<char>,
    pub is_dir: bool,
}

impl View for FsEntry {
    type V = FsEntryGhost;

    open spec fn view(&self) -> FsEntryGhost {
        FsEntryGhost { name: self.name@, path: self.path@, is_dir: self.is_dir }
    }
}

impl DeepView for FsEntry {
    type V = FsEntryGhost;

    open spec fn deep_view(&self) -> FsEntryGhost {
        self@
    }
}

/// One discovered model: its identifier (unique within a catalog), display
/// name, resolved path, and whether it is currently marked as loaded.
#[derive(Debug)]
pub struct ModelRecord {
    pub id: String,
    pub name: String,
    pub path: String,
    pub loaded: bool,
}

/// Mathematical image of a [`ModelRecord`].
pub struct ModelRecordGhost {
    pub id: Seq<char>,
    pub name: Seq<char>,
    pub path: Seq<char>,
    pub loaded: bool,
}

impl View for ModelRecord {
    type V = ModelRecordGhost;

    open spec fn view(&self) -> ModelRecordGhost {
        ModelRecordGhost { id: self.id@, name: self.name@, path: self.path@, loaded: self.loaded }
    }
}

impl DeepView for ModelRecord {
    type V = ModelRecordGhost;

    open spec fn deep_view(&self) -> ModelRecordGhost {
        self@
    }
}

/// Index of the last `'.'` in `s`, or `-1` when `s` has none.
pub open spec fn last_dot(s: Seq<char>) -> int
    decreases s.len(),
{
    if s.len() == 0 {
        -1
    } else if s[s.len() - 1] == '.' {
        s.len() - 1
    } else {
        last_dot(s.drop_last())
    }
}

/// The filename's extension: what follows the last dot, provided that dot is
/// neither absent nor the leading character (a leading dot marks a hidden
/// file, not an extension).
pub open spec fn spec_extension(name: Seq<char>) -> Option<Seq<char>> {
    if last_dot(name) <= 0 {
        None
    } else {
        Some(name.subrange(last_dot(name) + 1, name.len() as int))
    }
}

/// The filename without its extension: what precedes the last dot, or the
/// whole name when there is no extension.
pub open spec fn spec_stem(name: Seq<char>) -> Seq<char> {
    if last_dot(name) <= 0 {
        name
    } else {
        name.subrange(0, last_dot(name))
    }
}

proof fn lemma_last_dot_bounds(s: Seq<char>)
    ensures
        -1 <= last_dot(s) < s.len(),
        last_dot(s) >= 0 ==> s[last_dot(s)] == '.',
        forall|j: int| last_dot(s) < j < s.len() ==> s[j] != '.',
    decreases s.len(),
{
    if s.len() == 0 {
    } else if s[s.len() - 1] == '.' {
    } else {
        lemma_last_dot_bounds(s.drop_last());
        assert forall|j: int| last_dot(s) < j < s.len() implies s[j] != '.' by {
            if j < s.len() - 1 {
                assert(s.drop_last()[j] == s[j]);
            }
        }
    }
}

/// Extending a sequence by one character moves `last_dot` in the obvious way.
proof fn lemma_last_dot_step(s: Seq<char>, i: int)
    requires
        0 < i <= s.len(),
    ensures
        last_dot(s.take(i)) == if s[i - 1] == '.' {
            i - 1
        } else {
            last_dot(s.take(i - 1))
        },
{
    assert(s.take(i).drop_last() =~= s.take(i - 1));
    assert(s.take(i).len() == i);
}

/// Finds the index of the last `'.'` in `name`, scanning from the end.
fn find_last_dot(name: &str) -> (r: Option<usize>)
    ensures
        match r {
            Some(i) => last_dot(name@) == i as int,
            None => last_dot(name@) == -1,
        },
{
    let n = name.unicode_len();
    let mut i: usize = n;
    proof {
        assert(name@.take(n as int) =~= name@);
    }
    while i > 0
        invariant
            i <= n,
            n == name@.len(),
            last_dot(name@) == last_dot(name@.take(i as int)),
        decreases i,
    {
        let c = name.get_char(i - 1);
        proof {
            lemma_last_dot_step(name@, i as int);
        }
        if c == '.' {
            return Some(i - 1);
        }
        i = i - 1;
    }
    proof {
        assert(name@.take(0) =~= Seq::<char>::empty());
    }
    None
}

/// Compares two string slices character by character.
pub fn str_eq(a: &str, b: &str) -> (r: bool)
    ensures
        r == (a@ == b@),
{
    let na = a.unicode_len();
    let nb = b.unicode_len();
    if na != nb {
        return false;
    }
    let mut i: usize = 0;
    while i < na
        invariant
            i <= na,
            na == a@.len(),
            nb == b@.len(),
            na == nb,
            forall|j: int| 0 <= j < i ==> a@[j] == b@[j],
        decreases na - i,
    {
        if a.get_char(i) != b.get_char(i) {
            return false;
        }
        i = i + 1;
    }
    proof {
        assert(a@ =~= b@);
    }
    true
}

/// Splits a filename into its stem and (when present) its extension.
pub fn split_name(name: &str) -> (r: (String, Option<String>))
    ensures
        r.0@ == spec_stem(name@),
        r.1.deep_view() == spec_extension(name@),
{
    match find_last_dot(name) {
        Some(i) if i > 0 => {
            proof {
                lemma_last_dot_bounds(name@);
            }
            let n = name.unicode_len();
            let stem = name.substring_char(0, i);
            let ext = name.substring_char(i + 1, n);
            (String::from_str(stem), Some(String::from_str(ext)))
        },
        _ => (String::from_str(name), None),
    }
}

/// The extension allow-list for model artifact files.
pub open spec fn recognized_extension(e: Seq<char>) -> bool {
    e == "gguf"@ || e == "bin"@ || e == "pt"@
}

/// What a directory entry contributes to the catalog: a record keyed by the
/// directory name for a subdirectory, a record keyed by the filename's stem
/// for a file with a recognized extension, and nothing otherwise.
pub open spec fn spec_classify(e: FsEntryGhost) -> Option<ModelRecordGhost> {
    if e.is_dir {
        Some(ModelRecordGhost { id: e.name, name: e.name, path: e.path, loaded: false })
    } else {
        match spec_extension(e.name) {
            Some(x) => if recognized_extension(x) {
                Some(
                    ModelRecordGhost {
                        id: spec_stem(e.name),
                        name: e.name,
                        path: e.path,
                        loaded: false,
                    },
                )
            } else {
                None
            },
            None => None,
        }
    }
}

/// Builds the record a directory entry contributes, if any.
pub fn classify(e: &FsEntry) -> (r: Option<ModelRecord>)
    ensures
        r.deep_view() == spec_classify(e@),
{
    if e.is_dir {
        Some(
            ModelRecord {
                id: e.name.clone(),
                name: e.name.clone(),
                path: e.path.clone(),
                loaded: false,
            },
        )
    } else {
        let (stem, ext_opt) = split_name(e.name.as_str());
        match ext_opt {
            Some(ext) => {
                let x = ext.as_str();
                if str_eq(x, "gguf") || str_eq(x, "bin") || str_eq(x, "pt") {
                    Some(
                        ModelRecord { id: stem, name: e.name.clone(), path: e.path.clone(), loaded: false },
                    )
                } else {
                    None
                }
            },
            None => None,
        }
    }
}

/// Index of the first record carrying `id`, or `-1` when none does.
pub open spec fn index_of_id(s: Seq<ModelRecordGhost>, id: Seq<char>) -> int
    decreases s.len(),
{
    if s.len() == 0 {
        -1
    } else if index_of_id(s.drop_last(), id) != -1 {
        index_of_id(s.drop_last(), id)
    } else if s.last().id == id {
        s.len() - 1
    } else {
        -1
    }
}

/// Whether some record of `s` carries `id`.
pub open spec fn has_id(s: Seq<ModelRecordGhost>, id: Seq<char>) -> bool {
    index_of_id(s, id) != -1
}

pub proof fn lemma_index_of_id_props(s: Seq<ModelRecordGhost>, id: Seq<char>)
    ensures
        -1 <= index_of_id(s, id) < s.len(),
        index_of_id(s, id) >= 0 ==> s[index_of_id(s, id)].id == id,
        index_of_id(s, id) == -1 ==> forall|j: int| 0 <= j < s.len() ==> s[j].id != id,
    decreases s.len(),
{
    if s.len() > 0 {
        lemma_index_of_id_props(s.drop_last(), id);
        if index_of_id(s, id) == -1 {
            assert forall|j: int| 0 <= j < s.len() implies s[j].id != id by {
                if j < s.len() - 1 {
                    assert(s.drop_last()[j] == s[j]);
                }
            }
        }
    }
}

/// Unfolds `index_of_id` over a one-longer prefix.
proof fn lemma_index_of_id_step(s: Seq<ModelRecordGhost>, id: Seq<char>, i: int)
    requires
        0 < i <= s.len(),
    ensures
        index_of_id(s.take(i), id) == if index_of_id(s.take(i - 1), id) != -1 {
            index_of_id(s.take(i - 1), id)
        } else if s[i - 1].id == id {
            i - 1
        } else {
            -1
        },
{
    assert(s.take(i).drop_last() =~= s.take(i - 1));
    assert(s.take(i).len() == i);
}

/// Once a prefix contains `id`, the first index never changes as the
/// sequence grows.
proof fn lemma_index_of_id_stable(s: Seq<ModelRecordGhost>, id: Seq<char>, i: int)
    requires
        0 <= i <= s.len(),
        index_of_id(s.take(i), id) >= 0,
    ensures
        index_of_id(s, id) == index_of_id(s.take(i), id),
    decreases s.len() - i,
{
    if i == s.len() {
        assert(s.take(i) =~= s);
    } else {
        lemma_index_of_id_step(s, id, i + 1);
        lemma_index_of_id_stable(s, id, i + 1);
    }
}

/// Finds the first record carrying `id` in `records`.
fn find_in(records: &Vec<ModelRecord>, id: &String) -> (r: Option<usize>)
    ensures
        match r {
            Some(i) => i < records@.len() && index_of_id(records.deep_view(), id@) == i as int,
            None => index_of_id(records.deep_view(), id@) == -1,
        },
{
    let ghost dv = records.deep_view();
    let n = records.len();
    proof {
        assert(dv.take(0) =~= Seq::<ModelRecordGhost>::empty());
    }
    let mut k: usize = 0;
    while k < n
        invariant
            k <= n,
            n == records@.len(),
            dv == records.deep_view(),
            dv.len() == n,
            index_of_id(dv.take(k as int), id@) == -1,
        decreases n - k,
    {
        let found = records[k].id == *id;
        proof {
            lemma_index_of_id_step(dv, id@, k + 1);
        }
        if found {
            proof {
                lemma_index_of_id_stable(dv, id@, k + 1);
            }
            return Some(k);
        }
        k = k + 1;
    }
    proof {
        assert(dv.take(n as int) =~= dv);
    }
    None
}

/// Inserting a record: the first record carrying the same identifier is
/// replaced, or the record is appended when none does.
pub open spec fn spec_upsert(s: Seq<ModelRecordGhost>, r: ModelRecordGhost) -> Seq<
    ModelRecordGhost,
> {
    if index_of_id(s, r.id) == -1 {
        s.push(r)
    } else {
        s.update(index_of_id(s, r.id), r)
    }
}

/// The catalog a directory listing yields, one entry at a time, later
/// entries replacing earlier ones with the same identifier.
pub open spec fn spec_scan(entries: Seq<FsEntryGhost>) -> Seq<ModelRecordGhost>
    decreases entries.len(),
{
    if entries.len() == 0 {
        Seq::empty()
    } else {
        let prev = spec_scan(entries.drop_last());
        match spec_classify(entries.last()) {
            Some(r) => spec_upsert(prev, r),
            None => prev,
        }
    }
}

/// Whether the records of `s` carry pairwise distinct identifiers.
pub open spec fn ids_unique(s: Seq<ModelRecordGhost>) -> bool {
    forall|i: int, j: int| 0 <= i < j < s.len() ==> s[i].id != s[j].id
}

proof fn lemma_upsert_preserves_unique(s: Seq<ModelRecordGhost>, r: ModelRecordGhost)
    requires
        ids_unique(s),
    ensures
        ids_unique(spec_upsert(s, r)),
{
    lemma_index_of_id_props(s, r.id);
}

/// Identifiers are unique within every catalog a scan yields: a later entry
/// with an identifier already taken replaces the earlier record instead of
/// standing beside it.
pub proof fn lemma_scan_ids_unique(entries: Seq<FsEntryGhost>)
    ensures
        ids_unique(spec_scan(entries)),
    decreases entries.len(),
{
    if entries.len() > 0 {
        lemma_scan_ids_unique(entries.drop_last());
        match spec_classify(entries.last()) {
            Some(r) => lemma_upsert_preserves_unique(spec_scan(entries.drop_last()), r),
            None => {},
        }
    }
}

/// Scanning is a pure function of the directory listing and rebuilds the
/// snapshot wholesale, so two scans of an unchanged directory — here: two
/// catalogs built from equal listings — are identical, wherever and whenever
/// they were taken.
pub proof fn lemma_scan_idempotent(a: Seq<FsEntryGhost>, b: Seq<FsEntryGhost>)
    requires
        a == b,
    ensures
        spec_scan(a) == spec_scan(b),
{
}

/// The current snapshot of discovered models.
pub struct Catalog {
    records: Vec<ModelRecord>,
}

impl View for Catalog {
    type V = Seq<ModelRecordGhost>;

    closed spec fn view(&self) -> Seq<ModelRecordGhost> {
        self.records.deep_view()
    }
}

impl Clone for ModelRecord {
    fn clone(&self) -> (r: Self)
        ensures
            r@ == self@,
    {
        ModelRecord {
            id: self.id.clone(),
            name: self.name.clone(),
            path: self.path.clone(),
            loaded: self.loaded,
        }
    }
}

impl Catalog {
    /// An empty catalog, holding no records.
    pub fn new() -> (c: Catalog)
        ensures
            c@ == Seq::<ModelRecordGhost>::empty(),
    {
        let c = Catalog { records: Vec::new() };
        proof {
            assert(c@ =~= Seq::<ModelRecordGhost>::empty());
        }
        c
    }

    /// Rebuilds the catalog wholesale from a directory listing.
    pub fn scan(entries: &Vec<FsEntry>) -> (c: Catalog)
        ensures
            c@ == spec_scan(entries.deep_view()),
    {
        let ghost ev = entries.deep_view();
        let mut records: Vec<ModelRecord> = Vec::new();
        let n = entries.len();
        proof {
            assert(ev.take(0) =~= Seq::<FsEntryGhost>::empty());
            assert(records.deep_view() =~= Seq::<ModelRecordGhost>::empty());
        }
        let mut k: usize = 0;
        while k < n
            invariant
                k <= n,
                n == entries@.len(),
                ev == entries.deep_view(),
                ev.len() == n,
                records.deep_view() == spec_scan(ev.take(k as int)),
            decreases n - k,
        {
            let ghost prev = records.deep_view();
            proof {
                assert(ev.take(k + 1).drop_last() =~= ev.take(k as int));
                assert(ev.take(k + 1).last() == entries[k as int]@);
            }
            match classify(&entries[k]) {
                Some(rec) => {
                    let ghost recg = rec@;
                    match find_in(&records, &rec.id) {
                        Some(i) => {
                            records[i] = rec;
                            proof {
                                assert(records.deep_view() =~= prev.update(i as int, recg));
                            }
                        },
                        None => {
                            records.push(rec);
                            proof {
                                assert(records.deep_view() =~= prev.push(recg));
                            }
                        },
                    }
                },
                None => {},
            }
            k = k + 1;
        }
        proof {
            assert(ev.take(n as int) =~= ev);
        }
        Catalog { records }
    }

    /// Hands out a copy of every record in the snapshot.
    pub fn list(&self) -> (r: Vec<ModelRecord>)
        ensures
            r.deep_view() == self@,
    {
        let mut out: Vec<ModelRecord> = Vec::new();
        let n = self.records.len();
        proof {
            assert(out.deep_view() =~= self@.take(0));
        }
        let mut k: usize = 0;
        while k < n
            invariant
                k <= n,
                n == self.records@.len(),
                out.deep_view() == self@.take(k as int),
            decreases n - k,
        {
            let ghost before = out.deep_view();
            out.push(self.records[k].clone());
            proof {
                assert(out.deep_view() =~= before.push(self.records[k as int]@));
                assert(before.push(self.records[k as int]@) =~= self@.take(k + 1));
            }
            k = k + 1;
        }
        proof {
            assert(self@.take(n as int) =~= self@);
        }
        out
    }

    /// Copies out the record carrying `id`, when the catalog has one.
    pub fn get(&self, id: &String) -> (r: Option<ModelRecord>)
        ensures
            match r {
                Some(rec) => has_id(self@, id@) && rec@ == self@[index_of_id(self@, id@)],
                None => !has_id(self@, id@),
            },
    {
        match find_in(&self.records, id) {
            Some(i) => Some(self.records[i].clone()),
            None => None,
        }
    }

    /// Sets or clears the loaded mark on the record carrying `id`; reports
    /// whether such a record exists.  Other records are untouched.
    pub fn set_mark(&mut self, id: &String, mark: bool) -> (found: bool)
        ensures
            !has_id(old(self)@, id@) ==> !found && final(self)@ == old(self)@,
            has_id(old(self)@, id@) ==> found && final(self)@ == old(self)@.update(
                index_of_id(old(self)@, id@),
                ModelRecordGhost { loaded: mark, ..old(self)@[index_of_id(old(self)@, id@)] },
            ),
    {
        let ghost before = self.records.deep_view();
        match find_in(&self.records, id) {
            Some(i) => {
                self.records[i].loaded = mark;
                proof {
                    assert(self.records.deep_view() =~= before.update(
                        i as int,
                        ModelRecordGhost { loaded: mark, ..before[i as int] },
                    ));
                }
                true
            },
            None => false,
        }
    }
}

} // verus!
