//! The values that a library's storage backend hands out.

use vstd::prelude::*;
use vstd::string::*;
use vstd::utf8::encode_utf8;

verus! {

/// The kind of a directory entry.
#[derive(Debug, Clone, Copy, PartialEq, Eq, Structural)]
pub enum FileType {
    File,
    Folder,
    Symlink,
    Other,
}

impl FileType {
    /// The kind named by a file system's type flags, tested in the order file, folder,
    /// symbolic link.
    pub fn from_flags(is_file: bool, is_dir: bool, is_symlink: bool) -> (r: FileType)
        ensures
            is_file ==> r == FileType::File,
            !is_file && is_dir ==> r == FileType::Folder,
            !is_file && !is_dir && is_symlink ==> r == FileType::Symlink,
            !is_file && !is_dir && !is_symlink ==> r == FileType::Other,
    {
        if is_file {
            FileType::File
        } else if is_dir {
            FileType::Folder
        } else if is_symlink {
            FileType::Symlink
        } else {
            FileType::Other
        }
    }
}

/// One entry of a directory listing.
#[derive(Debug, Clone)]
pub struct FileEntry {
    pub path: String,
    pub size: u64,
    pub _type: FileType,
}

/// The field to sort a listing by and its direction.
#[derive(Debug)]
pub struct ListOptions {
    pub sort_field: Option<String>,
    pub sort_descending: Option<bool>,
}

impl Default for ListOptions {
    /// Ascending by name.
    fn default() -> (r: Self)
        ensures
            r.sort_field matches Some(f) && f@ == "name"@,
            r.sort_descending == Some(false),
    {
        ListOptions { sort_field: Some("name".to_owned()), sort_descending: Some(false) }
    }
}

/// A backend that keeps each library in a folder under `folder_root`.
#[derive(Debug, Clone)]
pub struct LocalStorage {
    pub folder_root: String,
}

/// The storage backends a repository can use.
#[derive(Debug, Clone)]
pub enum StorageBackendMap {
    Local(LocalStorage),
}

/// Strict lexicographic order of byte strings, the order std gives `str`.
pub open spec fn text_lt(a: Seq<u8>, b: Seq<u8>) -> bool
    decreases a.len(),
{
    if a.len() == 0 {
        b.len() > 0
    } else if b.len() == 0 {
        false
    } else if a[0] != b[0] {
        a[0] < b[0]
    } else {
        text_lt(a.drop_first(), b.drop_first())
    }
}

/// The UTF-8 bytes of an entry's path.
pub open spec fn path_bytes(e: FileEntry) -> Seq<u8> {
    encode_utf8(e.path@)
}

/// Whether `a` sorts strictly before `b` by their UTF-8 bytes.
fn str_lt(a: &str, b: &str) -> (r: bool)
    ensures
        r == text_lt(a.spec_bytes(), b.spec_bytes()),
{
    let x = a.as_bytes();
    let y = b.as_bytes();
    let mut i: usize = 0;
    assert(x@.subrange(0, x@.len() as int) =~= x@);
    assert(y@.subrange(0, y@.len() as int) =~= y@);
    while i < x.len() && i < y.len() && x[i] == y[i]
        invariant
            x@ == a.spec_bytes(),
            y@ == b.spec_bytes(),
            i <= x@.len(),
            i <= y@.len(),
            text_lt(x@, y@) == text_lt(x@.subrange(i as int, x@.len() as int), y@.subrange(i as int, y@.len() as int)),
        decreases x@.len() - i,
    {
        proof {
            let sx = x@.subrange(i as int, x@.len() as int);
            let sy = y@.subrange(i as int, y@.len() as int);
            assert(sx[0] == sy[0]);
            assert(sx.drop_first() =~= x@.subrange(i as int + 1, x@.len() as int));
            assert(sy.drop_first() =~= y@.subrange(i as int + 1, y@.len() as int));
        }
        i = i + 1;
    }
    let sx = Ghost(x@.subrange(i as int, x@.len() as int));
    let sy = Ghost(y@.subrange(i as int, y@.len() as int));
    if i == x.len() {
        assert(sx@.len() == 0);
        i < y.len()
    } else if i == y.len() {
        assert(sy@.len() == 0);
        false
    } else {
        assert(sx@[0] == x@[i as int] && sy@[0] == y@[i as int]);
        x[i] < y[i]
    }
}

proof fn lemma_text_lt_irreflexive(a: Seq<u8>)
    ensures
        !text_lt(a, a),
    decreases a.len(),
{
    if a.len() > 0 {
        lemma_text_lt_irreflexive(a.drop_first());
    }
}

proof fn lemma_text_lt_transitive(a: Seq<u8>, b: Seq<u8>, c: Seq<u8>)
    requires
        text_lt(a, b),
        text_lt(b, c),
    ensures
        text_lt(a, c),
    decreases a.len(),
{
    if a.len() > 0 && b.len() > 0 && c.len() > 0 && a[0] == b[0] && b[0] == c[0] {
        lemma_text_lt_transitive(a.drop_first(), b.drop_first(), c.drop_first());
    }
}

proof fn lemma_text_lt_total(a: Seq<u8>, b: Seq<u8>)
    ensures
        text_lt(a, b) || text_lt(b, a) || a == b,
    decreases a.len(),
{
    if a.len() > 0 && b.len() > 0 {
        if a[0] == b[0] {
            lemma_text_lt_total(a.drop_first(), b.drop_first());
            if a.drop_first() == b.drop_first() {
                assert(a == seq![a[0]] + a.drop_first());
                assert(b == seq![b[0]] + b.drop_first());
            }
        }
    } else if a.len() == 0 && b.len() == 0 {
        assert(a == b);
    }
}

/// Folders, links and other entries come before files.
pub open spec fn file_rank(t: FileType) -> int {
    if t == FileType::File { 1 } else { 0 }
}

/// Whether `a` sorts strictly before `b`: by kind, then by name or by size.
pub open spec fn entry_before(a: FileEntry, b: FileEntry, by_size: bool) -> bool {
    if file_rank(a._type) != file_rank(b._type) {
        file_rank(a._type) < file_rank(b._type)
    } else if by_size {
        a.size < b.size
    } else {
        text_lt(path_bytes(a), path_bytes(b))
    }
}

proof fn lemma_before_asymmetric(a: FileEntry, b: FileEntry, by_size: bool)
    requires
        entry_before(a, b, by_size),
    ensures
        !entry_before(b, a, by_size),
{
    if file_rank(a._type) == file_rank(b._type) && !by_size && text_lt(path_bytes(b), path_bytes(a)) {
        lemma_text_lt_transitive(path_bytes(a), path_bytes(b), path_bytes(a));
        lemma_text_lt_irreflexive(path_bytes(a));
    }
}

proof fn lemma_not_before_transitive(a: FileEntry, b: FileEntry, c: FileEntry, by_size: bool)
    requires
        !entry_before(a, b, by_size),
        !entry_before(b, c, by_size),
    ensures
        !entry_before(a, c, by_size),
{
    if file_rank(a._type) == file_rank(b._type) && file_rank(b._type) == file_rank(c._type) && !by_size {
        lemma_text_lt_total(path_bytes(a), path_bytes(b));
        lemma_text_lt_total(path_bytes(b), path_bytes(c));
        if text_lt(path_bytes(a), path_bytes(c)) {
            if text_lt(path_bytes(b), path_bytes(a)) {
                lemma_text_lt_transitive(path_bytes(b), path_bytes(a), path_bytes(c));
                if text_lt(path_bytes(c), path_bytes(b)) {
                    lemma_text_lt_transitive(path_bytes(c), path_bytes(b), path_bytes(c));
                    lemma_text_lt_irreflexive(path_bytes(c));
                }
            } else if text_lt(path_bytes(c), path_bytes(b)) {
                lemma_text_lt_transitive(path_bytes(a), path_bytes(c), path_bytes(b));
            }
        }
    }
}

pub open spec fn sorted_by(s: Seq<FileEntry>, by_size: bool) -> bool {
    forall|i: int, j: int| 0 <= i < j < s.len() ==> !entry_before(#[trigger] s[j], #[trigger] s[i], by_size)
}

pub open spec fn sorted_descending_by(s: Seq<FileEntry>, by_size: bool) -> bool {
    forall|i: int, j: int| 0 <= i < j < s.len() ==> !entry_before(#[trigger] s[i], #[trigger] s[j], by_size)
}

/// `p` maps each position of `r` to the position of `list` its entry came from, one to
/// one, and keeps the input order of entries of which neither sorts before the other.
pub open spec fn stable_origin(r: Seq<FileEntry>, list: Seq<FileEntry>, p: Seq<int>, by_size: bool) -> bool {
    &&& p.len() == r.len()
    &&& forall|t: int| 0 <= t < r.len() ==> 0 <= #[trigger] p[t] < list.len() && r[t] == list[p[t]]
    &&& forall|a: int, b: int| 0 <= a < b < r.len() ==> #[trigger] p[a] != #[trigger] p[b]
    &&& forall|a: int, b: int|
        0 <= a < b < r.len() && !entry_before(r[a], r[b], by_size) && !entry_before(r[b], r[a], by_size)
            ==> #[trigger] p[a] < #[trigger] p[b]
}

/// `r` is `list` sorted stably in ascending order.
pub open spec fn is_stable_sort(r: Seq<FileEntry>, list: Seq<FileEntry>, by_size: bool) -> bool {
    &&& r.to_multiset() == list.to_multiset()
    &&& sorted_by(r, by_size)
    &&& exists|p: Seq<int>| #[trigger] stable_origin(r, list, p, by_size)
}

fn before(a: &FileEntry, b: &FileEntry, by_size: bool) -> (r: bool)
    ensures
        r == entry_before(*a, *b, by_size),
{
    let ra: u8 = if a._type == FileType::File { 1 } else { 0 };
    let rb: u8 = if b._type == FileType::File { 1 } else { 0 };
    if ra != rb {
        ra < rb
    } else if by_size {
        a.size < b.size
    } else {
        str_lt(a.path.as_str(), b.path.as_str())
    }
}

fn copy_entry(e: &FileEntry) -> (r: FileEntry)
    ensures
        r == *e,
{
    FileEntry { path: e.path.clone(), size: e.size, _type: e._type }
}

/// `list` sorted stably in ascending order.
fn sort_ascending(list: &Vec<FileEntry>, by_size: bool) -> (r: Vec<FileEntry>)
    ensures
        is_stable_sort(r@, list@, by_size),
{
    broadcast use vstd::seq_lib::group_to_multiset_ensures;
    let mut out: Vec<FileEntry> = Vec::new();
    let mut i: usize = 0;
    let ghost mut p: Seq<int> = Seq::empty();
    while i < list.len()
        invariant
            i <= list@.len(),
            sorted_by(out@, by_size),
            stable_origin(out@, list@, p, by_size),
            forall|t: int| 0 <= t < p.len() ==> #[trigger] p[t] < i,
            out@.to_multiset() == list@.subrange(0, i as int).to_multiset(),
        decreases list@.len() - i,
    {
        let x = copy_entry(&list[i]);
        let mut k: usize = out.len();
        while k > 0 && before(&x, &out[k - 1], by_size)
            invariant
                k <= out@.len(),
                i < list@.len(),
                x == list@[i as int],
                sorted_by(out@, by_size),
                stable_origin(out@, list@, p, by_size),
                forall|t: int| 0 <= t < p.len() ==> #[trigger] p[t] < i,
                out@.to_multiset() == list@.subrange(0, i as int).to_multiset(),
                forall|j: int| k <= j < out@.len() ==> entry_before(x, #[trigger] out@[j], by_size),
            decreases k,
        {
            k = k - 1;
        }
        proof {
            let old_out = out@;
            let n = old_out.insert(k as int, x);
            assert forall|a: int, b: int| 0 <= a < b < n.len() implies !entry_before(#[trigger] n[b], #[trigger] n[a], by_size) by {
                if b < k {
                    assert(n[a] == old_out[a] && n[b] == old_out[b]);
                } else if a < k && b == k {
                    assert(n[a] == old_out[a] && n[b] == x);
                    assert(!entry_before(x, old_out[k - 1], by_size));
                    if a < k - 1 {
                        assert(!entry_before(old_out[k - 1], old_out[a], by_size));
                        lemma_not_before_transitive(x, old_out[k - 1], old_out[a], by_size);
                    }
                } else if a < k && b > k {
                    assert(n[a] == old_out[a] && n[b] == old_out[b - 1]);
                } else if a == k {
                    assert(n[a] == x && n[b] == old_out[b - 1]);
                    assert(entry_before(x, old_out[b - 1], by_size));
                    lemma_before_asymmetric(x, old_out[b - 1], by_size);
                } else {
                    assert(n[a] == old_out[a - 1] && n[b] == old_out[b - 1]);
                }
            }
            assert(list@.subrange(0, i as int + 1) =~= list@.subrange(0, i as int).push(list@[i as int]));
            vstd::seq_lib::to_multiset_insert(old_out, k as int, x);
            list@.subrange(0, i as int).to_multiset_ensures();
            let np = p.insert(k as int, i as int);
            assert forall|t: int| 0 <= t < n.len() implies 0 <= #[trigger] np[t] < list@.len() && n[t] == list@[np[t]] && np[t] < i + 1 by {
                if t < k {
                    assert(np[t] == p[t] && n[t] == old_out[t]);
                } else if t > k {
                    assert(np[t] == p[t - 1] && n[t] == old_out[t - 1]);
                }
            }
            assert forall|a: int, b: int| 0 <= a < b < n.len() implies #[trigger] np[a] != #[trigger] np[b] by {
                if a != k && b != k {
                    let a1 = if a < k { a } else { a - 1 };
                    let b1 = if b < k { b } else { b - 1 };
                    assert(np[a] == p[a1] && np[b] == p[b1]);
                    assert(p[a1] != p[b1]);
                } else if a == k {
                    assert(np[b] == p[b - 1]);
                } else {
                    assert(np[a] == p[a]);
                }
            }
            assert forall|a: int, b: int|
                0 <= a < b < n.len() && !entry_before(n[a], n[b], by_size) && !entry_before(n[b], n[a], by_size)
                implies #[trigger] np[a] < #[trigger] np[b] by {
                if a != k && b != k {
                    let a1 = if a < k { a } else { a - 1 };
                    let b1 = if b < k { b } else { b - 1 };
                    assert(np[a] == p[a1] && np[b] == p[b1]);
                    assert(n[a] == old_out[a1] && n[b] == old_out[b1]);
                    assert(p[a1] < p[b1]);
                } else if a == k {
                    assert(n[b] == old_out[b - 1]);
                    assert(entry_before(x, old_out[b - 1], by_size));
                } else {
                    assert(np[a] == p[a]);
                }
            }
            p = np;
        }
        out.insert(k, x);
        i = i + 1;
    }
    assert(list@.subrange(0, list@.len() as int) =~= list@);
    assert(stable_origin(out@, list@, p, by_size));
    out
}

/// `v` in reverse order.
fn reversed(v: Vec<FileEntry>) -> (r: Vec<FileEntry>)
    ensures
        r@ == v@.reverse(),
{
    let ghost full = v@;
    let mut rest = v;
    let mut out: Vec<FileEntry> = Vec::new();
    while rest.len() > 0
        invariant
            rest@.len() + out@.len() == full.len(),
            rest@ == full.subrange(0, rest@.len() as int),
            forall|t: int| 0 <= t < out@.len() ==> #[trigger] out@[t] == full[full.len() - 1 - t],
        decreases rest@.len(),
    {
        let x = rest.pop().unwrap();
        out.push(x);
    }
    assert(out@ =~= full.reverse());
    out
}

/// Sorts a directory listing: folders, links and other entries first, then files; each
/// group by name or by size as `options` asks. The ascending order is stable; descending
/// order is the ascending result reversed. Other sort fields are refused.
pub fn sort_listing(list: Vec<FileEntry>, options: ListOptions) -> (r: Result<Vec<FileEntry>, String>)
    ensures
        ({
            let field = match options.sort_field { Some(f) => f@, None => "name"@ };
            &&& r is Ok <==> (field == "name"@ || field == "size"@)
            &&& r matches Ok(v) ==> v@.to_multiset() == list@.to_multiset()
            &&& r matches Ok(v) ==> (if options.sort_descending == Some(true) {
                    &&& sorted_descending_by(v@, field == "size"@)
                    &&& exists|asc: Seq<FileEntry>| is_stable_sort(asc, list@, field == "size"@) && v@ == #[trigger] asc.reverse()
                } else {
                    &&& sorted_by(v@, field == "size"@)
                    &&& is_stable_sort(v@, list@, field == "size"@)
                })
        }),
{
    let field = match options.sort_field {
        Some(f) => f,
        None => "name".to_owned(),
    };
    proof {
        reveal_strlit("name");
        reveal_strlit("size");
        assert("name"@[0] != "size"@[0]);
        assert("name"@ != "size"@);
    }
    let by_size = if field.eq(&"name".to_owned()) {
        false
    } else if field.eq(&"size".to_owned()) {
        true
    } else {
        return Err("Unsupported field".to_owned());
    };
    let descending = match options.sort_descending {
        Some(d) => d,
        None => false,
    };
    let sorted = sort_ascending(&list, by_size);
    if !descending {
        return Ok(sorted);
    }
    let out = reversed(sorted);
    proof {
        let s = sorted@;
        assert forall|i: int, j: int| 0 <= i < j < out@.len() implies !entry_before(#[trigger] out@[i], #[trigger] out@[j], by_size) by {
            assert(out@[i] == s[s.len() - 1 - i]);
            assert(out@[j] == s[s.len() - 1 - j]);
        }
        s.lemma_reverse_to_multiset();
        assert(is_stable_sort(s, list@, by_size));
    }
    Ok(out)
}

} // verus!
