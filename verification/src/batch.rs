//! Building the description of a file batch from the paths found on the
//! clipboard: what is announced to the other devices and what is kept to send.

use vstd::prelude::*;
use vstd::string::*;
use crate::state::{FileItemInfo, OutgoingFileItem};
use crate::protocol::several_files_name;
use crate::text::{decimal, push_str, string_of};

verus! {

/// What the file system says of one path found on the clipboard.
pub enum PathKind {
    /// A directory: its name, if the path has one, and every file below it as
    /// (absolute path, path relative to the batch, size).
    Dir { name: Option<String>, entries: Vec<(String, String, u64)> },
    /// A regular file: its name, if the path has one, and its size, if it could be read.
    File { name: Option<String>, size: Option<u64> },
    /// Neither a directory nor a regular file.
    Other,
}

/// A path found on the clipboard, with what the file system says of it.
pub struct ClipboardPath {
    pub path: String,
    pub kind: PathKind,
}

/// An announced file by its view: relative path and size.
pub type ItemView = (Seq<char>, u64);

/// A file to send by its view: absolute path, relative path and size.
pub type OutgoingItemView = (Seq<char>, Seq<char>, u64);

/// The view of a directory entry as announced.
pub open spec fn entry_item(e: (String, String, u64)) -> ItemView {
    (e.1@, e.2)
}

/// The view of a directory entry as kept to send.
pub open spec fn entry_outgoing(e: (String, String, u64)) -> OutgoingItemView {
    (e.0@, e.1@, e.2)
}

/// The name of an optional string, or `default`.
pub open spec fn name_or(name: Option<String>, default: Seq<char>) -> Seq<char> {
    match name {
        Some(n) => n@,
        None => default,
    }
}

/// The announced files that one clipboard path contributes.
pub open spec fn path_items(p: ClipboardPath) -> Seq<ItemView> {
    match p.kind {
        PathKind::Dir { name, entries } => entries@.map_values(|e: (String, String, u64)| entry_item(e)),
        PathKind::File { name, size } => seq![(name_or(name, "unknown"@), match size { Some(s) => s, None => 0u64 })],
        PathKind::Other => Seq::empty(),
    }
}

/// The files to send that one clipboard path contributes.
pub open spec fn path_outgoing(p: ClipboardPath) -> Seq<OutgoingItemView> {
    match p.kind {
        PathKind::Dir { name, entries } => entries@.map_values(|e: (String, String, u64)| entry_outgoing(e)),
        PathKind::File { name, size } => seq![(p.path@, name_or(name, "unknown"@), match size { Some(s) => s, None => 0u64 })],
        PathKind::Other => Seq::empty(),
    }
}

/// The announced files of all clipboard paths, in order.
pub open spec fn batch_items(ps: Seq<ClipboardPath>) -> Seq<ItemView>
    decreases ps.len(),
{
    if ps.len() == 0 {
        Seq::empty()
    } else {
        batch_items(ps.drop_last()) + path_items(ps.last())
    }
}

/// The files to send of all clipboard paths, in order.
pub open spec fn batch_outgoing(ps: Seq<ClipboardPath>) -> Seq<OutgoingItemView>
    decreases ps.len(),
{
    if ps.len() == 0 {
        Seq::empty()
    } else {
        batch_outgoing(ps.drop_last()) + path_outgoing(ps.last())
    }
}

/// The sum of the sizes of announced files.
pub open spec fn sizes_sum(s: Seq<ItemView>) -> nat
    decreases s.len(),
{
    if s.len() == 0 {
        0
    } else {
        sizes_sum(s.drop_last()) + (s.last().1 as nat)
    }
}

/// The name shown for the batch: the single path's name (`folder` or `file` if it
/// has none), or `n个文件` for `n` paths.
pub open spec fn batch_display_name(ps: Seq<ClipboardPath>) -> Seq<char> {
    if ps.len() == 1 {
        match ps[0].kind {
            PathKind::Dir { name, entries } => name_or(name, "folder"@),
            PathKind::File { name, size } => name_or(name, "file"@),
            PathKind::Other => "file"@,
        }
    } else {
        decimal(ps.len()) + "个文件"@
    }
}

/// Whether `shown` is the name a batch of the clipboard paths `ps` is shown under:
/// for one path that has a name, that name; for one without a name, `folder` (a
/// directory) or `file`; for any other number `n` of paths, `n个文件`.
pub open spec fn shown_as(ps: Seq<ClipboardPath>, shown: Seq<char>) -> bool {
    if ps.len() == 1 {
        match ps[0].kind {
            PathKind::Dir { name: Some(n), .. } => shown == n@,
            PathKind::File { name: Some(n), .. } => shown == n@,
            PathKind::Dir { name: None, .. } => shown == "folder"@,
            PathKind::File { name: None, .. } => shown == "file"@,
            PathKind::Other => shown == "file"@,
        }
    } else {
        shown == decimal(ps.len()) + "个文件"@
    }
}

/// A batch of one named file or folder is shown under that name; `file` and
/// `folder` stand only for a path without one.
pub proof fn lemma_single_path_is_shown_by_its_name(ps: Seq<ClipboardPath>)
    ensures
        shown_as(ps, batch_display_name(ps)),
{
}

/// The description of a file batch.
pub struct BatchInfo {
    pub display_name: String,
    pub file_items: Vec<FileItemInfo>,
    pub outgoing_items: Vec<OutgoingFileItem>,
    pub total_size: u64,
}

/// The view of announced files.
pub open spec fn item_views(v: Seq<FileItemInfo>) -> Seq<ItemView> {
    v.map_values(|f: FileItemInfo| (f.relative_path@, f.file_size))
}

/// The view of files to send.
pub open spec fn outgoing_views(v: Seq<OutgoingFileItem>) -> Seq<OutgoingItemView> {
    v.map_values(|f: OutgoingFileItem| (f.absolute_path@, f.relative_path@, f.file_size))
}

proof fn lemma_sizes_sum_concat(a: Seq<ItemView>, b: Seq<ItemView>)
    ensures
        sizes_sum(a + b) == sizes_sum(a) + sizes_sum(b),
    decreases b.len(),
{
    if b.len() == 0 {
        assert(a + b =~= a);
    } else {
        lemma_sizes_sum_concat(a, b.drop_last());
        assert((a + b).drop_last() =~= a + b.drop_last());
    }
}

proof fn lemma_batch_prefix(ps: Seq<ClipboardPath>, j: int)
    requires
        0 <= j <= ps.len(),
    ensures
        sizes_sum(batch_items(ps.take(j))) <= sizes_sum(batch_items(ps)),
    decreases ps.len() - j,
{
    if j < ps.len() {
        lemma_batch_prefix(ps, j + 1);
        assert(ps.take(j + 1).drop_last() =~= ps.take(j));
        lemma_sizes_sum_concat(batch_items(ps.take(j)), path_items(ps.take(j + 1).last()));
    } else {
        assert(ps.take(j) =~= ps);
    }
}

proof fn lemma_sizes_prefix(s: Seq<ItemView>, k: int)
    requires
        0 <= k <= s.len(),
    ensures
        sizes_sum(s.take(k)) <= sizes_sum(s),
    decreases s.len() - k,
{
    if k < s.len() {
        lemma_sizes_prefix(s, k + 1);
        assert(s.take(k + 1).drop_last() =~= s.take(k));
    } else {
        assert(s.take(k) =~= s);
    }
}

/// The path of a file inside a folder of the batch: `prefix/name`.
pub fn child_relative(prefix: &str, name: &str) -> (r: String)
    ensures
        r@ == prefix@ + "/"@ + name@,
{
    let mut out: Vec<char> = Vec::new();
    push_str(&mut out, prefix);
    push_str(&mut out, "/");
    push_str(&mut out, name);
    string_of(&out)
}

fn name_or_default(name: &Option<String>, default: &str) -> (r: String)
    ensures
        r@ == name_or(*name, default@),
{
    match name {
        Some(n) => n.clone(),
        None => String::from_str(default),
    }
}

fn append_entries(
    file_items: &mut Vec<FileItemInfo>,
    outgoing_items: &mut Vec<OutgoingFileItem>,
    total_size: &mut u64,
    entries: &Vec<(String, String, u64)>,
)
    requires
        *old(total_size) + sizes_sum(entries@.map_values(|e: (String, String, u64)| entry_item(e))) <= u64::MAX,
    ensures
        item_views(final(file_items)@) == item_views(old(file_items)@) + entries@.map_values(|e: (String, String, u64)| entry_item(e)),
        outgoing_views(final(outgoing_items)@) == outgoing_views(old(outgoing_items)@) + entries@.map_values(|e: (String, String, u64)| entry_outgoing(e)),
        *final(total_size) == *old(total_size) + sizes_sum(entries@.map_values(|e: (String, String, u64)| entry_item(e))),
{
    let ghost ev = entries@.map_values(|e: (String, String, u64)| entry_item(e));
    let ghost eo = entries@.map_values(|e: (String, String, u64)| entry_outgoing(e));
    let ghost base_items = item_views(file_items@);
    let ghost base_out = outgoing_views(outgoing_items@);
    let ghost base_total = *total_size as nat;
    let mut k: usize = 0;
    while k < entries.len()
        invariant
            k <= entries@.len(),
            ev == entries@.map_values(|e: (String, String, u64)| entry_item(e)),
            eo == entries@.map_values(|e: (String, String, u64)| entry_outgoing(e)),
            base_total + sizes_sum(ev) <= u64::MAX,
            item_views(file_items@) == base_items + ev.take(k as int),
            outgoing_views(outgoing_items@) == base_out + eo.take(k as int),
            *total_size == base_total + sizes_sum(ev.take(k as int)),
        decreases entries@.len() - k,
    {
        let e = &entries[k];
        proof {
            assert(ev.take(k + 1).drop_last() =~= ev.take(k as int));
            lemma_sizes_prefix(ev, k + 1);
        }
        let ghost fi = file_items@;
        let ghost oi = outgoing_items@;
        file_items.push(FileItemInfo { relative_path: e.1.clone(), file_size: e.2 });
        outgoing_items.push(OutgoingFileItem {
            absolute_path: e.0.clone(),
            relative_path: e.1.clone(),
            file_size: e.2,
        });
        *total_size = *total_size + e.2;
        proof {
            assert(ev.take(k + 1) =~= ev.take(k as int).push(ev[k as int]));
            assert(eo.take(k + 1) =~= eo.take(k as int).push(eo[k as int]));
            assert(item_views(file_items@) =~= item_views(fi).push(ev[k as int]));
            assert(outgoing_views(outgoing_items@) =~= outgoing_views(oi).push(eo[k as int]));
        }
        k = k + 1;
        assert(item_views(file_items@) =~= base_items + ev.take(k as int));
        assert(outgoing_views(outgoing_items@) =~= base_out + eo.take(k as int));
    }
    assert(ev.take(entries@.len() as int) =~= ev);
    assert(eo.take(entries@.len() as int) =~= eo);
}

fn append_path(
    file_items: &mut Vec<FileItemInfo>,
    outgoing_items: &mut Vec<OutgoingFileItem>,
    total_size: &mut u64,
    p: &ClipboardPath,
)
    requires
        *old(total_size) + sizes_sum(path_items(*p)) <= u64::MAX,
    ensures
        item_views(final(file_items)@) == item_views(old(file_items)@) + path_items(*p),
        outgoing_views(final(outgoing_items)@) == outgoing_views(old(outgoing_items)@) + path_outgoing(*p),
        *final(total_size) == *old(total_size) + sizes_sum(path_items(*p)),
{
    match &p.kind {
        PathKind::Dir { name, entries } => {
            append_entries(file_items, outgoing_items, total_size, entries);
        },
        PathKind::File { name, size } => {
            let file_name = name_or_default(name, "unknown");
            let sz = match size {
                Some(s) => *s,
                None => 0,
            };
            let ghost fi = file_items@;
            let ghost oi = outgoing_items@;
            assert(path_items(*p) == seq![(file_name@, sz)]);
            assert(sizes_sum(path_items(*p)) == sz) by {
                assert(path_items(*p).drop_last() =~= Seq::<ItemView>::empty());
                reveal_with_fuel(sizes_sum, 2);
            }
            file_items.push(FileItemInfo { relative_path: file_name.clone(), file_size: sz });
            outgoing_items.push(OutgoingFileItem {
                absolute_path: p.path.clone(),
                relative_path: file_name,
                file_size: sz,
            });
            *total_size = *total_size + sz;
            assert(item_views(file_items@) =~= item_views(fi) + path_items(*p));
            assert(outgoing_views(outgoing_items@) =~= outgoing_views(oi) + path_outgoing(*p));
        },
        PathKind::Other => {
            assert(item_views(file_items@) =~= item_views(file_items@) + path_items(*p));
            assert(outgoing_views(outgoing_items@) =~= outgoing_views(outgoing_items@) + path_outgoing(*p));
        },
    }
}

fn add_path_sizes(total: u64, p: &ClipboardPath) -> (r: Option<u64>)
    ensures
        match r {
            Some(t) => t == total + sizes_sum(path_items(*p)),
            None => total + sizes_sum(path_items(*p)) > u64::MAX,
        },
{
    match &p.kind {
        PathKind::Dir { name, entries } => {
            let ghost ev = entries@.map_values(|e: (String, String, u64)| entry_item(e));
            let mut t = total;
            let mut k: usize = 0;
            assert(path_items(*p) =~= ev);
            while k < entries.len()
                invariant
                    k <= entries@.len(),
                    ev == entries@.map_values(|e: (String, String, u64)| entry_item(e)),
                    path_items(*p) == ev,
                    t == total + sizes_sum(ev.take(k as int)),
                decreases entries@.len() - k,
            {
                proof {
                    assert(ev.take(k + 1).drop_last() =~= ev.take(k as int));
                    lemma_sizes_prefix(ev, k + 1);
                }
                assert(ev.take(k + 1).last() == ev[k as int]);
                assert(ev[k as int].1 == entries@[k as int].2);
                match t.checked_add(entries[k].2) {
                    Some(n) => t = n,
                    None => return None,
                }
                k = k + 1;
            }
            assert(ev.take(entries@.len() as int) =~= ev);
            Some(t)
        },
        PathKind::File { name, size } => {
            let sz = match size {
                Some(s) => *s,
                None => 0,
            };
            assert(sizes_sum(path_items(*p)) == sz) by {
                assert(path_items(*p).drop_last() =~= Seq::<ItemView>::empty());
                reveal_with_fuel(sizes_sum, 2);
            }
            total.checked_add(sz)
        },
        PathKind::Other => {
            assert(sizes_sum(path_items(*p)) == 0);
            Some(total)
        },
    }
}

/// The total size of the files of the batch that the clipboard paths form, or
/// `None` where it does not fit in a `u64` (then `build_batch_file_info` cannot
/// be asked for the batch).
pub fn batch_total_size(paths: &Vec<ClipboardPath>) -> (r: Option<u64>)
    ensures
        match r {
            Some(t) => t == sizes_sum(batch_items(paths@)),
            None => sizes_sum(batch_items(paths@)) > u64::MAX,
        },
{
    let mut total: u64 = 0;
    let mut j: usize = 0;
    while j < paths.len()
        invariant
            j <= paths@.len(),
            total == sizes_sum(batch_items(paths@.take(j as int))),
        decreases paths@.len() - j,
    {
        proof {
            assert(paths@.take(j + 1).drop_last() =~= paths@.take(j as int));
            assert(paths@.take(j + 1).last() == paths@[j as int]);
            lemma_batch_prefix(paths@, j + 1);
            lemma_sizes_sum_concat(batch_items(paths@.take(j as int)), path_items(paths@[j as int]));
        }
        match add_path_sizes(total, &paths[j]) {
            Some(t) => total = t,
            None => return None,
        }
        j = j + 1;
    }
    assert(paths@.take(paths@.len() as int) =~= paths@);
    Some(total)
}

/// The description of the batch formed by the clipboard paths: every file of every
/// folder (with the folder's name leading its relative path) and every single file,
/// in order, their total size, and the name shown for the batch.  `None` if there
/// is no file at all.
pub fn build_batch_file_info(paths: &Vec<ClipboardPath>) -> (r: Option<BatchInfo>)
    requires
        sizes_sum(batch_items(paths@)) <= u64::MAX,
    ensures
        batch_items(paths@).len() == 0 <==> r is None,
        r matches Some(b) ==> {
            &&& item_views(b.file_items@) == batch_items(paths@)
            &&& outgoing_views(b.outgoing_items@) == batch_outgoing(paths@)
            &&& b.total_size == sizes_sum(batch_items(paths@))
            &&& b.display_name@ == batch_display_name(paths@)
            &&& shown_as(paths@, b.display_name@)
        },
{
    let mut file_items: Vec<FileItemInfo> = Vec::new();
    let mut outgoing_items: Vec<OutgoingFileItem> = Vec::new();
    let mut total_size: u64 = 0;
    let mut j: usize = 0;
    assert(item_views(file_items@) =~= Seq::<ItemView>::empty());
    assert(outgoing_views(outgoing_items@) =~= Seq::<OutgoingItemView>::empty());
    while j < paths.len()
        invariant
            j <= paths@.len(),
            sizes_sum(batch_items(paths@)) <= u64::MAX,
            item_views(file_items@) == batch_items(paths@.take(j as int)),
            outgoing_views(outgoing_items@) == batch_outgoing(paths@.take(j as int)),
            total_size == sizes_sum(batch_items(paths@.take(j as int))),
        decreases paths@.len() - j,
    {
        proof {
            assert(paths@.take(j + 1).drop_last() =~= paths@.take(j as int));
            assert(paths@.take(j + 1).last() == paths@[j as int]);
            lemma_batch_prefix(paths@, j + 1);
            lemma_sizes_sum_concat(batch_items(paths@.take(j as int)), path_items(paths@[j as int]));
        }
        append_path(&mut file_items, &mut outgoing_items, &mut total_size, &paths[j]);
        j = j + 1;
    }
    assert(paths@.take(paths@.len() as int) =~= paths@);
    if file_items.len() == 0 {
        assert(item_views(file_items@).len() == 0);
        return None;
    }
    assert(item_views(file_items@).len() > 0);
    let display_name = if paths.len() == 1 {
        match &paths[0].kind {
            PathKind::Dir { name, entries } => name_or_default(name, "folder"),
            PathKind::File { name, size } => name_or_default(name, "file"),
            PathKind::Other => String::from_str("file"),
        }
    } else {
        several_files_name(paths.len() as u64)
    };
    proof {
        lemma_single_path_is_shown_by_its_name(paths@);
    }
    Some(BatchInfo { display_name, file_items, outgoing_items, total_size })
}

} // verus!
