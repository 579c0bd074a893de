use vstd::prelude::*;

use crate::error::Error;

verus! {

/// The metadata of one directory entry, as sent to the client.
#[derive(Debug, Clone)]
pub struct File {
    /// The raw entry name, not a constructed path.
    pub name: String,
    /// Size in bytes.
    pub size: u64,
    /// Whether the entry is a directory.
    pub isdir: bool,
    /// Modification time in whole seconds since the epoch.
    pub modified: u64,
}

/// The mathematical value of a `File`.
pub ghost struct FileView {
    pub name: Seq<char>,
    pub size: u64,
    pub isdir: bool,
    pub modified: u64,
}

impl View for File {
    type V = FileView;

    open spec fn view(&self) -> FileView {
        FileView { name: self.name@, size: self.size, isdir: self.isdir, modified: self.modified }
    }
}

impl File {
    /// Builds the record of one entry.
    pub fn new(name: String, size: u64, isdir: bool, modified: u64) -> (r: File)
        ensures
            r@ == (FileView { name: name@, size, isdir, modified }),
    {
        File { name, size, isdir, modified }
    }

    /// A copy with the same value.
    pub fn duplicate(&self) -> (r: File)
        ensures
            r@ == self@,
    {
        File {
            name: String::from_str(self.name.as_str()),
            size: self.size,
            isdir: self.isdir,
            modified: self.modified,
        }
    }
}

/// Why the metadata of a single entry could not be read.
#[derive(Debug, Clone, Copy, PartialEq, Eq, Structural)]
pub enum EntryFault {
    /// The entry could not be read from the directory stream.
    Unreadable,
    /// The entry's name is not valid text.
    NameNotText,
    /// The entry's metadata could not be obtained.
    MetadataUnreadable,
    /// The entry's modification time is unavailable or before the epoch.
    ModifiedUnavailable,
}

/// The target directory could not be opened as a directory.
#[derive(Debug, Clone, Copy, PartialEq, Eq, Structural)]
pub struct DirectoryUnreadable;

/// The outcome of probing one entry: its record, or why it was skipped.
pub type EntryProbe = Result<File, EntryFault>;

/// A listing: the entries that could be read, and the faults of those that
/// could not, each in enumeration order.
#[derive(Debug, Clone)]
pub struct Listing {
    pub entries: Vec<File>,
    pub faults: Vec<EntryFault>,
}

/// The path of the directory that a request names: the root, a separator,
/// and the relative path, with no normalisation.
pub open spec fn target_dir_spec(base_dir: Seq<char>, path: Seq<char>) -> Seq<char> {
    base_dir + "/"@ + path
}

/// The records of the readable entries among the probes, in order.
pub open spec fn readable_entries(probes: Seq<EntryProbe>) -> Seq<FileView>
    decreases probes.len(),
{
    if probes.len() == 0 {
        Seq::empty()
    } else {
        let rest = readable_entries(probes.drop_last());
        match probes.last() {
            Ok(f) => rest.push(f@),
            Err(_) => rest,
        }
    }
}

/// The faults among the probes, in order.
pub open spec fn entry_faults(probes: Seq<EntryProbe>) -> Seq<EntryFault>
    decreases probes.len(),
{
    if probes.len() == 0 {
        Seq::empty()
    } else {
        let rest = entry_faults(probes.drop_last());
        match probes.last() {
            Ok(_) => rest,
            Err(e) => rest.push(e),
        }
    }
}

/// The values of a sequence of records.
pub open spec fn file_views(files: Seq<File>) -> Seq<FileView> {
    files.map_values(|f: File| f@)
}

/// Whether every probe succeeded.
pub open spec fn all_readable(probes: Seq<EntryProbe>) -> bool {
    forall|i: int| 0 <= i < probes.len() ==> (#[trigger] probes[i]) is Ok
}

/// Builds the path of the directory to list from the shared root and the
/// requested relative path.
pub fn target_dir(base_dir: &str, path: &str) -> (r: String)
    ensures
        r@ == target_dir_spec(base_dir@, path@),
{
    let mut r = String::from_str(base_dir);
    r.append("/");
    r.append(path);
    r
}

/// Sorts the probes of a directory's entries into the readable records and
/// the faults of the rest. A fault never aborts the listing.
pub fn collect_listing(probes: &Vec<EntryProbe>) -> (r: Listing)
    ensures
        file_views(r.entries@) == readable_entries(probes@),
        r.faults@ == entry_faults(probes@),
        r.entries.len() + r.faults.len() == probes.len(),
        all_readable(probes@) ==> file_views(r.entries@) == probes@.map_values(
            |p: EntryProbe| p->Ok_0@,
        ),
{
    let mut entries: Vec<File> = Vec::new();
    let mut faults: Vec<EntryFault> = Vec::new();
    let mut i: usize = 0;
    while i < probes.len()
        invariant
            i <= probes.len(),
            file_views(entries@) == readable_entries(probes@.take(i as int)),
            faults@ == entry_faults(probes@.take(i as int)),
        decreases probes.len() - i,
    {
        proof {
            assert(probes@.take(i as int + 1).drop_last() == probes@.take(i as int));
        }
        match &probes[i] {
            Ok(f) => {
                entries.push(f.duplicate());
            },
            Err(e) => {
                faults.push(*e);
            },
        }
        proof {
            assert(file_views(entries@) == readable_entries(probes@.take(i as int + 1)));
        }
        i = i + 1;
    }
    proof {
        assert(probes@.take(probes.len() as int) == probes@);
        lemma_partition(probes@);
        if all_readable(probes@) {
            lemma_all_readable_kept(probes@);
        }
    }
    Listing { entries, faults }
}

/// Turns the outcome of opening and probing a directory into the reply's
/// value: an unopenable directory is the one hard failure; otherwise the
/// listing succeeds with whatever entries could be read.
pub fn resolve_listing(opened: &Result<Vec<EntryProbe>, DirectoryUnreadable>) -> (r: Result<
    Listing,
    Error,
>)
    ensures
        opened is Err <==> r is Err,
        opened is Err ==> r == Err::<Listing, Error>(Error::Fail),
        opened is Ok ==> file_views(r->Ok_0.entries@) == readable_entries(opened->Ok_0@),
        opened is Ok ==> r->Ok_0.faults@ == entry_faults(opened->Ok_0@),
{
    match opened {
        Ok(probes) => Ok(collect_listing(probes)),
        Err(_) => Err(Error::Fail),
    }
}

/// Every probe is either a kept record or a reported fault: with K faults
/// among N probes, N - K records remain.
pub proof fn lemma_partition(probes: Seq<EntryProbe>)
    ensures
        readable_entries(probes).len() + entry_faults(probes).len() == probes.len(),
    decreases probes.len(),
{
    if probes.len() > 0 {
        lemma_partition(probes.drop_last());
    }
}

/// When every entry's metadata is readable, every entry is listed, in order,
/// with the metadata that was read for it.
pub proof fn lemma_all_readable_kept(probes: Seq<EntryProbe>)
    requires
        all_readable(probes),
    ensures
        readable_entries(probes) == probes.map_values(|p: EntryProbe| p->Ok_0@),
        entry_faults(probes).len() == 0,
    decreases probes.len(),
{
    if probes.len() > 0 {
        let rest = probes.drop_last();
        assert forall|i: int| 0 <= i < rest.len() implies (#[trigger] rest[i]) is Ok by {
            assert(rest[i] == probes[i]);
        }
        lemma_all_readable_kept(rest);
        assert(probes[probes.len() - 1] is Ok);
        assert(readable_entries(probes) == probes.map_values(|p: EntryProbe| p->Ok_0@));
    }
}

} // verus!
