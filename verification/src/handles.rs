//! The handle directory: which external identifier (a phone number, an account
//! name) stands behind each handle row of the message store.

use std::collections::HashMap;
use vstd::prelude::*;

verus! {

broadcast use vstd::std_specs::hash::group_hash_axioms;

/// One row of the handle table: the row's number and the external identifier
/// it stands for.
#[derive(Clone, Debug, PartialEq, Eq)]
pub struct Handle {
    pub rowid: i32,
    pub id: String,
}

/// The content of a `Handle`.
pub struct HandleView {
    pub rowid: i32,
    pub id: Seq<char>,
}

impl View for Handle {
    type V = HandleView;

    open spec fn view(&self) -> HandleView {
        HandleView { rowid: self.rowid, id: self.id@ }
    }
}

/// The text of an optional string.
pub open spec fn text_of(s: Option<String>) -> Option<Seq<char>> {
    match s {
        Some(s) => Some(s@),
        None => None,
    }
}

/// The content of one handle row as it was read: `None` for a row that failed
/// to decode.
pub open spec fn row_view(row: Option<Handle>) -> Option<HandleView> {
    match row {
        Some(handle) => Some(handle@),
        None => None,
    }
}

/// The contents of the handle rows, in the order in which they were read.
pub open spec fn rows_view(rows: Seq<Option<Handle>>) -> Seq<Option<HandleView>> {
    rows.map_values(|row: Option<Handle>| row_view(row))
}

/// The directory that a sequence of handle rows gives, read front to back.
///
/// A row that could not be decoded (`None`) adds nothing.  Of several rows
/// with one number the last is the one found.
pub open spec fn directory_of(rows: Seq<Option<HandleView>>) -> Map<i32, Seq<char>>
    decreases rows.len(),
{
    if rows.len() == 0 {
        Map::empty()
    } else {
        let earlier = directory_of(rows.drop_last());
        match rows.last() {
            Some(handle) => earlier.insert(handle.rowid, handle.id),
            None => earlier,
        }
    }
}

/// The identifier that a handle reference resolves to in `directory`: none for
/// a message without a reference, and none for a reference that the directory
/// does not know.
pub open spec fn resolved(directory: Map<i32, Seq<char>>, handle_id: Option<i32>) -> Option<
    Seq<char>,
> {
    match handle_id {
        Some(rowid) => if directory.contains_key(rowid) {
            Some(directory[rowid])
        } else {
            None
        },
        None => None,
    }
}

/// The handle directory, from row number to external identifier.
pub struct HandleMap {
    ids: HashMap<i32, String>,
}

impl View for HandleMap {
    type V = Map<i32, Seq<char>>;

    closed spec fn view(&self) -> Map<i32, Seq<char>> {
        Map::new(|rowid: i32| self.ids@.contains_key(rowid), |rowid: i32| self.ids@[rowid]@)
    }
}

impl HandleMap {
    /// The directory without entries.
    pub fn new() -> (map: HandleMap)
        ensures
            map@ == Map::<i32, Seq<char>>::empty(),
    {
        let map = HandleMap { ids: HashMap::new() };
        assert(map@ =~= Map::<i32, Seq<char>>::empty());
        map
    }

    /// Enters `id` under `rowid`, in place of what stood there.
    pub fn insert(&mut self, rowid: i32, id: String)
        ensures
            final(self)@ == old(self)@.insert(rowid, id@),
    {
        self.ids.insert(rowid, id);
        assert(self@ =~= old(self)@.insert(rowid, id@));
    }

    /// The identifier entered under `rowid`, if there is one.
    pub fn get(&self, rowid: i32) -> (id: Option<String>)
        ensures
            text_of(id) == resolved(self@, Some(rowid)),
    {
        match self.ids.get(&rowid) {
            Some(id) => Some(id.clone()),
            None => None,
        }
    }

    /// The identifier behind a message's handle reference: none where the
    /// message has no reference or the directory has no such row.
    pub fn resolve(&self, handle_id: Option<i32>) -> (id: Option<String>)
        ensures
            text_of(id) == resolved(self@, handle_id),
    {
        match handle_id {
            Some(rowid) => self.get(rowid),
            None => None,
        }
    }
}

/// Builds the handle directory from all rows of the handle table, in the order
/// in which they were read.  `None` stands for a row that failed to decode: it
/// is passed over.
pub fn build_handle_map(rows: &Vec<Option<Handle>>) -> (map: HandleMap)
    ensures
        map@ == directory_of(rows_view(rows@)),
{
    let mut map = HandleMap::new();
    let mut i: usize = 0;
    while i < rows.len()
        invariant
            i <= rows.len(),
            map@ == directory_of(rows_view(rows@).take(i as int)),
        decreases rows.len() - i,
    {
        assert(rows_view(rows@).take(i + 1).drop_last() =~= rows_view(rows@).take(i as int));
        assert(rows_view(rows@).take(i + 1).last() == row_view(rows@[i as int]));
        match &rows[i] {
            Some(handle) => {
                map.insert(handle.rowid, handle.id.clone());
            },
            None => {},
        }
        i += 1;
    }
    assert(rows_view(rows@).take(rows.len() as int) =~= rows_view(rows@));
    map
}

/// Whether row `i` of `rows` was decoded and has the number `rowid`.
pub open spec fn row_has_id(rows: Seq<Option<HandleView>>, i: int, rowid: i32) -> bool {
    &&& 0 <= i < rows.len()
    &&& rows[i] matches Some(handle)
    &&& handle.rowid == rowid
}

/// The directory knows exactly the numbers of the decoded rows, and gives for
/// each number the identifier of the last row that has it.
pub proof fn lemma_directory_entries(rows: Seq<Option<HandleView>>, rowid: i32)
    ensures
        directory_of(rows).contains_key(rowid) <==> exists|i: int| row_has_id(rows, i, rowid),
        forall|i: int|
            row_has_id(rows, i, rowid) && (forall|j: int| i < j ==> !row_has_id(rows, j, rowid))
                ==> directory_of(rows)[rowid] == rows[i]->0.id,
    decreases rows.len(),
{
    if rows.len() > 0 {
        let earlier = rows.drop_last();
        let n = rows.len() - 1;
        lemma_directory_entries(earlier, rowid);
        assert forall|i: int| row_has_id(earlier, i, rowid) implies row_has_id(rows, i, rowid) by {}
        if row_has_id(rows, n, rowid) {
        } else {
            assert forall|i: int| row_has_id(rows, i, rowid) implies row_has_id(
                earlier,
                i,
                rowid,
            ) by {}
            if directory_of(rows).contains_key(rowid) {
                let i = choose|i: int| row_has_id(earlier, i, rowid);
                assert(row_has_id(rows, i, rowid));
            }
            assert forall|i: int|
                row_has_id(rows, i, rowid) && (forall|j: int|
                    i < j ==> !row_has_id(rows, j, rowid)) implies directory_of(rows)[rowid]
                == rows[i]->0.id by {
                assert(row_has_id(earlier, i, rowid));
                assert forall|j: int| i < j implies !row_has_id(earlier, j, rowid) by {
                    if row_has_id(earlier, j, rowid) {
                        assert(row_has_id(rows, j, rowid));
                    }
                }
            }
        }
    }
}

} // verus!
