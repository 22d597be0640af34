//! The file catalog: which entries of the files directory are on offer.

use crate::message::{files_view, FileInfo, FileInfoView};
use vstd::prelude::*;
use vstd::seq_lib::{to_multiset_build, to_multiset_contains, to_multiset_len, to_multiset_remove};

verus! {

/// What kind of thing a directory entry is.
#[derive(Clone, Copy, Debug, PartialEq, Eq, Structural)]
pub enum FileType {
    File,
    Directory,
    Symlink,
    Other,
}

/// One entry of the files directory, as the filesystem lists it. `size` is
/// the length that the filesystem gives for the entry, if it gives one.
#[derive(Debug, PartialEq, Eq)]
pub struct DirEntry {
    pub path: String,
    pub file_type: FileType,
    pub size: Option<u64>,
}

pub struct DirEntryView {
    pub path: Seq<char>,
    pub file_type: FileType,
    pub size: Option<u64>,
}

impl View for DirEntry {
    type V = DirEntryView;

    open spec fn view(&self) -> DirEntryView {
        DirEntryView { path: self.path@, file_type: self.file_type, size: self.size }
    }
}

/// The views of a list of entries.
pub open spec fn entries_view(entries: Seq<DirEntry>) -> Seq<DirEntryView> {
    entries.map_values(|entry: DirEntry| entry@)
}

impl DirEntryView {
    /// The catalog line of the entry: a regular file whose size is known is
    /// listed under its path. Everything else is left out.
    pub open spec fn listed(self) -> Option<FileInfoView> {
        if self.file_type == FileType::File && self.size.is_some() {
            Some(FileInfoView { name: self.path, size: self.size.unwrap() })
        } else {
            None
        }
    }
}

/// The catalog of a directory: the lines of the entries that are listed, in
/// the order of the entries.
pub open spec fn catalog(entries: Seq<DirEntryView>) -> Seq<FileInfoView>
    decreases entries.len(),
{
    if entries.len() == 0 {
        Seq::empty()
    } else {
        match entries.last().listed() {
            Some(file) => catalog(entries.drop_last()).push(file),
            None => catalog(entries.drop_last()),
        }
    }
}

/// The files on offer among the entries of the files directory.
pub fn ls_files(entries: &Vec<DirEntry>) -> (files: Vec<FileInfo>)
    ensures
        files_view(files@) == catalog(entries_view(entries@)),
{
    let mut files: Vec<FileInfo> = Vec::new();
    let mut index: usize = 0;
    assert(entries_view(entries@).take(0) =~= Seq::<DirEntryView>::empty());
    while index < entries.len()
        invariant
            index <= entries.len(),
            files_view(files@) == catalog(entries_view(entries@).take(index as int)),
        decreases entries.len() - index,
    {
        let entry = &entries[index];
        let ghost seen = entries_view(entries@).take(index as int);
        let ghost before = files@;
        assert(entries_view(entries@).take(index + 1).drop_last() =~= seen);
        assert(entries_view(entries@).take(index + 1).last() == entry@);
        match (entry.file_type, entry.size) {
            (FileType::File, Some(size)) => {
                let file = FileInfo { name: entry.path.clone(), size };
                files.push(file);
                assert(files_view(files@) =~= files_view(before).push(entry@.listed().unwrap()));
            },
            _ => {},
        }
        index = index + 1;
    }
    assert(entries_view(entries@).take(index as int) =~= entries_view(entries@));
    files
}

/// Leaving out one entry takes its line, if it has one, out of the catalog.
proof fn lemma_catalog_remove(entries: Seq<DirEntryView>, index: int)
    requires
        0 <= index < entries.len(),
    ensures
        catalog(entries).to_multiset() == match entries[index].listed() {
            Some(file) => catalog(entries.remove(index)).to_multiset().insert(file),
            None => catalog(entries.remove(index)).to_multiset(),
        },
    decreases entries.len(),
{
    let shorter = entries.remove(index);
    if index == entries.len() - 1 {
        assert(shorter =~= entries.drop_last());
        if let Some(file) = entries[index].listed() {
            to_multiset_build(catalog(entries.drop_last()), file);
        }
    } else {
        lemma_catalog_remove(entries.drop_last(), index);
        assert(shorter.drop_last() =~= entries.drop_last().remove(index));
        assert(shorter.last() == entries.last());
        if let Some(last) = entries.last().listed() {
            to_multiset_build(catalog(entries.drop_last()), last);
            to_multiset_build(catalog(shorter.drop_last()), last);
        }
        if let Some(file) = entries[index].listed() {
            if let Some(last) = entries.last().listed() {
                assert(catalog(shorter.drop_last()).to_multiset().insert(file).insert(last)
                    =~= catalog(shorter.drop_last()).to_multiset().insert(last).insert(file));
            }
        }
    }
}

/// Listing is a function of what the directory holds, not of the order in
/// which the filesystem walks it: two listings of the same entries hold the
/// same files, each as often as the other.
pub proof fn lemma_listing_ignores_order(first: Seq<DirEntryView>, second: Seq<DirEntryView>)
    requires
        first.to_multiset() == second.to_multiset(),
    ensures
        catalog(first).to_multiset() == catalog(second).to_multiset(),
    decreases first.len(),
{
    to_multiset_len(first);
    to_multiset_len(second);
    if first.len() == 0 {
        assert(second.len() == 0);
        assert(first =~= second);
    } else {
        let entry = first.last();
        assert(first =~= first.drop_last().push(entry));
        to_multiset_build(first.drop_last(), entry);
        assert(second.to_multiset().count(entry) > 0);
        to_multiset_contains(second, entry);
        let index = choose|index: int| 0 <= index < second.len() && second[index] == entry;
        to_multiset_remove(second, index);
        assert(second.remove(index).to_multiset() =~= first.drop_last().to_multiset());
        lemma_listing_ignores_order(first.drop_last(), second.remove(index));
        lemma_catalog_remove(second, index);
        if let Some(file) = entry.listed() {
            to_multiset_build(catalog(first.drop_last()), file);
        }
    }
}

/// Only regular files are listed, each under its own path and with the size
/// that the filesystem gave, and the catalog is never longer than the
/// directory.
pub proof fn lemma_catalog_holds_files(entries: Seq<DirEntryView>)
    ensures
        catalog(entries).len() <= entries.len(),
        forall|i: int|
            0 <= i < catalog(entries).len() ==> exists|j: int|
                0 <= j < entries.len() && entries[j].listed() == Some(
                    #[trigger] catalog(entries)[i],
                ),
        forall|j: int|
            0 <= j < entries.len() && (#[trigger] entries[j]).listed().is_some() ==> catalog(
                entries,
            ).contains(entries[j].listed().unwrap()),
    decreases entries.len(),
{
    if entries.len() > 0 {
        let rest = entries.drop_last();
        lemma_catalog_holds_files(rest);
        assert forall|i: int| 0 <= i < catalog(entries).len() implies exists|j: int|
            0 <= j < entries.len() && entries[j].listed() == Some(
                #[trigger] catalog(entries)[i],
            ) by {
            if i < catalog(rest).len() {
                let j = choose|j: int|
                    0 <= j < rest.len() && rest[j].listed() == Some(catalog(rest)[i]);
                assert(entries[j] == rest[j]);
            } else {
                assert(entries[entries.len() - 1].listed() == Some(catalog(entries)[i]));
            }
        }
        assert forall|j: int|
            0 <= j < entries.len() && (#[trigger] entries[j]).listed().is_some() implies catalog(
            entries,
        ).contains(entries[j].listed().unwrap()) by {
            if j < rest.len() {
                assert(entries[j] == rest[j]);
                let file = rest[j].listed().unwrap();
                assert(catalog(rest).contains(file));
                let i = choose|i: int| 0 <= i < catalog(rest).len() && catalog(rest)[i] == file;
                assert(catalog(entries)[i] == file);
            } else {
                let file = entries[j].listed().unwrap();
                assert(catalog(entries)[catalog(entries).len() - 1] == file);
            }
        }
    }
}

} // verus!
