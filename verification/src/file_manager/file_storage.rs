//! The records of the directory on show. A listing is only ever replaced as a whole.

use crate::file::{File, FileView};
use crate::workers::fs_light_service::file_views;
use vstd::prelude::*;

verus! {

/// What can be asked of the storage.
#[derive(Debug, Clone, PartialEq, Eq)]
pub enum StorageAction {
    /// Put these records in the place of the ones held.
    Load(Vec<File>),
}

/// What the storage answers.
#[derive(Debug, Clone, Copy, PartialEq, Eq, Structural)]
pub enum StorageResponse {
    Loaded,
}

/// Holds the records of one directory, in the order of its listing.
#[derive(Debug)]
pub struct FileStorage {
    files: Vec<File>,
}

impl View for FileStorage {
    type V = Seq<FileView>;

    closed spec fn view(&self) -> Seq<FileView> {
        file_views(self.files@)
    }
}

impl FileStorage {
    /// A storage that holds no records.
    pub fn new() -> (storage: Self)
        ensures
            storage@ == Seq::<FileView>::empty(),
    {
        let storage = FileStorage { files: Vec::new() };
        assert(storage@ =~= Seq::<FileView>::empty());
        storage
    }

    /// There are no more records than a machine word can count.
    pub proof fn lemma_bounded(&self)
        ensures
            self@.len() <= usize::MAX,
    {
        assert(self.files@.len() == self.files.len());
    }

    /// The records held.
    pub fn files(&self) -> (files: &Vec<File>)
        ensures
            file_views(files@) == self@,
    {
        &self.files
    }

    /// Carries out `action`: after `Load` the storage holds exactly the records given.
    pub fn dispatch(&mut self, action: StorageAction) -> (response: StorageResponse)
        ensures
            response == StorageResponse::Loaded,
            match action {
                StorageAction::Load(files) => final(self)@ == file_views(files@),
            },
    {
        match action {
            StorageAction::Load(files) => {
                self.files = files;
                StorageResponse::Loaded
            },
        }
    }
}

} // verus!
