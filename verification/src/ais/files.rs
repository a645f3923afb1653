//! The files an assistant holds, by name.

use vstd::prelude::*;
use crate::ais::assistant::FileId;

verus! {

/// One file of the account, as the service lists it.
#[derive(Debug, Clone)]
pub struct RemoteFile {
    pub id: FileId,
    pub filename: String,
}

/// A remote file as plain text: its identifier and its name.
pub struct RemoteFileView {
    pub id: Seq<char>,
    pub filename: Seq<char>,
}

impl View for RemoteFile {
    type V = RemoteFileView;

    open spec fn view(&self) -> RemoteFileView {
        RemoteFileView { id: self.id@, filename: self.filename@ }
    }
}

/// The identifiers in `ids`, as text.
pub open spec fn id_texts(ids: Seq<FileId>) -> Seq<Seq<char>> {
    ids.map_values(|id: FileId| id@)
}

/// The files in `files`, as text.
pub open spec fn file_views(files: Seq<RemoteFile>) -> Seq<RemoteFileView> {
    files.map_values(|file: RemoteFile| file@)
}

/// The identifier on record for each file name: of the account's files, those
/// attached to the assistant, a later file replacing an earlier one of the
/// same name.
pub open spec fn file_id_by_name(attached: Seq<Seq<char>>, account: Seq<RemoteFileView>) -> Map<
    Seq<char>,
    Seq<char>,
>
    decreases account.len(),
{
    if account.len() == 0 {
        Map::empty()
    } else {
        let earlier = file_id_by_name(attached, account.drop_last());
        let file = account.last();
        if attached.contains(file.id) {
            earlier.insert(file.filename, file.id)
        } else {
            earlier
        }
    }
}

/// Whether the account file at `i` is called `name` and attached.
pub open spec fn on_record(attached: Seq<Seq<char>>, account: Seq<RemoteFileView>, i: int, name: Seq<char>) -> bool {
    &&& 0 <= i < account.len()
    &&& account[i].filename == name
    &&& attached.contains(account[i].id)
}

/// A name is on record exactly when an attached file of the account
/// carries it, and its identifier is that of the last such file.
pub proof fn lemma_file_id_by_name(attached: Seq<Seq<char>>, account: Seq<RemoteFileView>, name: Seq<char>)
    ensures
        file_id_by_name(attached, account).contains_key(name) <==> exists|i: int|
            on_record(attached, account, i, name),
        file_id_by_name(attached, account).contains_key(name) ==> exists|i: int|
            #![trigger on_record(attached, account, i, name)]
            on_record(attached, account, i, name) && file_id_by_name(attached, account)[name]
                == account[i].id && forall|j: int| i < j ==> !on_record(attached, account, j, name),
    decreases account.len(),
{
    if account.len() > 0 {
        let earlier = account.drop_last();
        let last = account.len() - 1;
        lemma_file_id_by_name(attached, earlier, name);
        assert forall|i: int| on_record(attached, earlier, i, name) implies on_record(
            attached,
            account,
            i,
            name,
        ) by {}
        if on_record(attached, account, last, name) {
        } else {
            assert forall|i: int| on_record(attached, account, i, name) implies on_record(
                attached,
                earlier,
                i,
                name,
            ) by {}
            if file_id_by_name(attached, account).contains_key(name) {
                let i = choose|i: int|
                    #![trigger on_record(attached, earlier, i, name)]
                    on_record(attached, earlier, i, name) && file_id_by_name(attached, earlier)[name]
                        == earlier[i].id && forall|j: int|
                        i < j ==> !on_record(attached, earlier, j, name);
                assert(on_record(attached, account, i, name));
                assert forall|j: int| i < j implies !on_record(attached, account, j, name) by {
                    if on_record(attached, account, j, name) {
                        assert(on_record(attached, earlier, j, name));
                    }
                }
            }
        }
    }
}

/// File identifiers by file name, for the files of one assistant.
#[derive(Debug, Clone)]
pub struct FileIdByName {
    records: Vec<RemoteFile>,
}

impl View for FileIdByName {
    type V = Map<Seq<char>, Seq<char>>;

    closed spec fn view(&self) -> Map<Seq<char>, Seq<char>> {
        Self::index(file_views(self.records@))
    }
}

impl FileIdByName {
    /// The map that arises from recording `records` one after the other.
    spec fn index(records: Seq<RemoteFileView>) -> Map<Seq<char>, Seq<char>>
        decreases records.len(),
    {
        if records.len() == 0 {
            Map::empty()
        } else {
            Self::index(records.drop_last()).insert(records.last().filename, records.last().id)
        }
    }

    proof fn lemma_index_last(records: Seq<RemoteFileView>, name: Seq<char>, at: int)
        requires
            0 <= at < records.len(),
            records[at].filename == name,
            forall|j: int| at < j < records.len() ==> records[j].filename != name,
        ensures
            Self::index(records).contains_key(name),
            Self::index(records)[name] == records[at].id,
        decreases records.len(),
    {
        if at < records.len() - 1 {
            Self::lemma_index_last(records.drop_last(), name, at);
        }
    }

    proof fn lemma_index_absent(records: Seq<RemoteFileView>, name: Seq<char>)
        requires
            forall|j: int| 0 <= j < records.len() ==> records[j].filename != name,
        ensures
            !Self::index(records).contains_key(name),
        decreases records.len(),
    {
        if records.len() > 0 {
            Self::lemma_index_absent(records.drop_last(), name);
        }
    }

    /// The identifier on record for `name`, if there is one.
    pub fn get(&self, name: &str) -> (found: Option<FileId>)
        ensures
            found is Some <==> self@.contains_key(name@),
            found matches Some(id) ==> id@ == self@[name@],
    {
        let wanted = name.to_owned();
        let ghost records = file_views(self.records@);
        let mut i: usize = self.records.len();
        while i > 0
            invariant
                i <= self.records.len(),
                wanted@ == name@,
                records == file_views(self.records@),
                forall|j: int| i <= j < records.len() ==> records[j].filename != name@,
            decreases i,
        {
            i -= 1;
            if self.records[i].filename == wanted {
                proof {
                    Self::lemma_index_last(records, name@, i as int);
                }
                return Some(FileId(self.records[i].id.0.clone()));
            }
        }
        proof {
            Self::lemma_index_absent(records, name@);
        }
        None
    }
}

/// Whether `id` is among `ids`.
fn holds_id(ids: &Vec<FileId>, id: &FileId) -> (held: bool)
    ensures
        held == id_texts(ids@).contains(id@),
{
    let mut i: usize = 0;
    while i < ids.len()
        invariant
            i <= ids.len(),
            forall|j: int| 0 <= j < i ==> id_texts(ids@)[j] != id@,
        decreases ids.len() - i,
    {
        if ids[i].0 == id.0 {
            assert(id_texts(ids@)[i as int] == id@);
            return true;
        }
        i += 1;
    }
    false
}

/// Resolves file names to identifiers for one assistant.
///
/// `assistant_files` are the identifiers attached to the assistant, which
/// come without names; `account_files` are all files of the account, which
/// have names. A file counts when it is attached, and of two files with one
/// name the later listed wins.
pub fn get_files_hashmap(assistant_files: &Vec<FileId>, account_files: &Vec<RemoteFile>) -> (by_name:
    FileIdByName)
    ensures
        by_name@ == file_id_by_name(id_texts(assistant_files@), file_views(account_files@)),
{
    let ghost attached = id_texts(assistant_files@);
    let ghost account = file_views(account_files@);
    let mut records: Vec<RemoteFile> = Vec::new();
    let mut i: usize = 0;
    while i < account_files.len()
        invariant
            i <= account_files.len(),
            attached == id_texts(assistant_files@),
            account == file_views(account_files@),
            FileIdByName::index(file_views(records@)) == file_id_by_name(attached, account.take(i as int)),
        decreases account_files.len() - i,
    {
        let file = &account_files[i];
        proof {
            assert(account.take(i + 1).drop_last() == account.take(i as int));
            assert(account.take(i + 1).last() == file@);
        }
        if holds_id(assistant_files, &file.id) {
            let ghost before = file_views(records@);
            records.push(RemoteFile { id: FileId(file.id.0.clone()), filename: file.filename.clone() });
            proof {
                assert(file_views(records@).drop_last() == before);
                assert(file_views(records@).last() == file@);
            }
        }
        i += 1;
    }
    proof {
        assert(account.take(i as int) == account);
    }
    FileIdByName { records }
}

} // verus!
