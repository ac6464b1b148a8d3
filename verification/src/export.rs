//! The export as a whole: from the rows of the two tables and the window to the
//! text of the output document.

use vstd::prelude::*;
use crate::dates::DateRange;
use crate::handles::{build_handle_map, directory_of, rows_view, Handle, HandleView};
use crate::json::{document_text, json_document, json_records};
use crate::messages::{
    export_of, export_records, is_selected, messages_view, MessageView, RawMessage, RecordView,
};

verus! {

/// The output document for the given rows: the handle directory is built from
/// all handle rows, then the selected message rows are projected in order and
/// written as a JSON array.
pub open spec fn export_document(
    handle_rows: Seq<Option<HandleView>>,
    messages: Seq<MessageView>,
    range: DateRange,
    only_from_me: bool,
) -> Seq<char> {
    json_document(export_of(messages, directory_of(handle_rows), range, only_from_me))
}

/// Produces the text of the output file from the rows read from the store.
///
/// `handle_rows` holds every row of the handle table, `None` for one that
/// failed to decode; `messages` holds the message rows in the order of the
/// store.
pub fn export_json(
    handle_rows: &Vec<Option<Handle>>,
    messages: &Vec<RawMessage>,
    range: &DateRange,
    only_from_me: bool,
) -> (text: String)
    ensures
        text@ == export_document(
            rows_view(handle_rows@),
            messages_view(messages@),
            *range,
            only_from_me,
        ),
{
    let handles = build_handle_map(handle_rows);
    let records = export_records(messages, &handles, range, only_from_me);
    document_text(&records)
}

/// Where no message row is selected, the output document is exactly `[]`.
pub proof fn lemma_nothing_selected_gives_empty_array(
    handle_rows: Seq<Option<HandleView>>,
    messages: Seq<MessageView>,
    range: DateRange,
    only_from_me: bool,
)
    requires
        forall|i: int| 0 <= i < messages.len() ==> !is_selected(messages[i], range, only_from_me),
    ensures
        export_document(handle_rows, messages, range, only_from_me) == "[]"@,
{
    let directory = directory_of(handle_rows);
    lemma_nothing_selected_gives_no_record(messages, directory, range, only_from_me);
    reveal_strlit("[");
    reveal_strlit("]");
    reveal_strlit("[]");
    assert(json_records(Seq::empty()) =~= Seq::<char>::empty());
    assert("["@ + Seq::<char>::empty() + "]"@ =~= "[]"@);
}

/// Where no message row is selected, no record is exported.
proof fn lemma_nothing_selected_gives_no_record(
    messages: Seq<MessageView>,
    directory: Map<i32, Seq<char>>,
    range: DateRange,
    only_from_me: bool,
)
    requires
        forall|i: int| 0 <= i < messages.len() ==> !is_selected(messages[i], range, only_from_me),
    ensures
        export_of(messages, directory, range, only_from_me) == Seq::<RecordView>::empty(),
    decreases messages.len(),
{
    if messages.len() > 0 {
        lemma_nothing_selected_gives_no_record(
            messages.drop_last(),
            directory,
            range,
            only_from_me,
        );
    }
}

} // verus!
