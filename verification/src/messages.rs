//! Message rows, the records exported for them, and the rule that decides
//! which rows are exported.

use vstd::prelude::*;
use crate::dates::{spec_unix_seconds, unix_seconds, DateRange};
use crate::handles::{resolved, text_of, HandleMap};

verus! {

/// One row of the message table, after the attempt to decode its display text.
#[derive(Clone, Debug, PartialEq, Eq)]
pub struct RawMessage {
    /// The row's number.
    pub rowid: i32,
    /// When the message was written, in nanoseconds since the reference epoch.
    pub date: i64,
    /// The display text, where the message has one.
    pub text: Option<String>,
    /// Whether decoding the display text succeeded.
    pub text_is_decodable: bool,
    /// Whether the owner of the account sent the message.
    pub is_from_me: bool,
    /// The handle row of the other party.
    pub handle_id: Option<i32>,
    /// The owner's own identifier on this conversation.
    pub destination_caller_id: Option<String>,
}

/// The content of a `RawMessage`.
pub struct MessageView {
    pub rowid: i32,
    pub date: i64,
    pub text: Option<Seq<char>>,
    pub text_is_decodable: bool,
    pub is_from_me: bool,
    pub handle_id: Option<i32>,
    pub destination_caller_id: Option<Seq<char>>,
}

impl View for RawMessage {
    type V = MessageView;

    open spec fn view(&self) -> MessageView {
        MessageView {
            rowid: self.rowid,
            date: self.date,
            text: text_of(self.text),
            text_is_decodable: self.text_is_decodable,
            is_from_me: self.is_from_me,
            handle_id: self.handle_id,
            destination_caller_id: text_of(self.destination_caller_id),
        }
    }
}

/// The contents of a list of message rows, in order.
pub open spec fn messages_view(messages: Seq<RawMessage>) -> Seq<MessageView> {
    messages.map_values(|message: RawMessage| message@)
}

/// What is exported for one message.
#[derive(Clone, Debug, PartialEq, Eq)]
pub struct OutputRecord {
    /// The number of the message row.
    pub id: i64,
    /// When the message was written, in Unix seconds.
    pub date: i64,
    /// The display text.
    pub text: Option<String>,
    /// The sender's identifier, where it could be resolved.
    pub from: Option<String>,
    /// The recipient's identifier, where it could be resolved.
    pub to: Option<String>,
    /// Whether the owner of the account sent the message.
    pub from_me: bool,
}

/// The content of an `OutputRecord`.
pub struct RecordView {
    pub id: int,
    pub date: int,
    pub text: Option<Seq<char>>,
    pub from: Option<Seq<char>>,
    pub to: Option<Seq<char>>,
    pub from_me: bool,
}

impl View for OutputRecord {
    type V = RecordView;

    open spec fn view(&self) -> RecordView {
        RecordView {
            id: self.id as int,
            date: self.date as int,
            text: text_of(self.text),
            from: text_of(self.from),
            to: text_of(self.to),
            from_me: self.from_me,
        }
    }
}

/// The contents of a list of records, in order.
pub open spec fn records_view(records: Seq<OutputRecord>) -> Seq<RecordView> {
    records.map_values(|record: OutputRecord| record@)
}

/// Whether a message is exported: its text was decoded, it was written within
/// the window, and it was sent by the owner where only such messages are asked
/// for.
pub open spec fn is_selected(message: MessageView, range: DateRange, only_from_me: bool) -> bool {
    &&& message.text_is_decodable
    &&& range.spec_contains(message.date)
    &&& (!only_from_me || message.is_from_me)
}

/// The record exported for a message.
///
/// The owner's identifier is the message's destination caller id; the other
/// party's is what the directory gives for the message's handle.  A message
/// that the owner sent goes from the owner to the other party, a received one
/// from the other party to the owner.
pub open spec fn projection(message: MessageView, directory: Map<i32, Seq<char>>) -> RecordView {
    let owner = message.destination_caller_id;
    let other = resolved(directory, message.handle_id);
    RecordView {
        id: message.rowid as int,
        date: spec_unix_seconds(message.date as int),
        text: message.text,
        from: if message.is_from_me {
            owner
        } else {
            other
        },
        to: if message.is_from_me {
            other
        } else {
            owner
        },
        from_me: message.is_from_me,
    }
}

/// The records exported for a sequence of message rows: the projections of the
/// selected rows, in the order of the rows.
pub open spec fn export_of(
    messages: Seq<MessageView>,
    directory: Map<i32, Seq<char>>,
    range: DateRange,
    only_from_me: bool,
) -> Seq<RecordView>
    decreases messages.len(),
{
    if messages.len() == 0 {
        Seq::empty()
    } else {
        let earlier = export_of(messages.drop_last(), directory, range, only_from_me);
        if is_selected(messages.last(), range, only_from_me) {
            earlier.push(projection(messages.last(), directory))
        } else {
            earlier
        }
    }
}

/// A copy of an optional string.
fn copy_text(text: &Option<String>) -> (copy: Option<String>)
    ensures
        copy == *text,
{
    match text {
        Some(s) => Some(s.clone()),
        None => None,
    }
}

/// Decides whether a message is exported.
pub fn selects(message: &RawMessage, range: &DateRange, only_from_me: bool) -> (selected: bool)
    ensures
        selected == is_selected(message@, *range, only_from_me),
{
    message.text_is_decodable && range.contains(message.date) && (!only_from_me
        || message.is_from_me)
}

/// Builds the record exported for a message, resolving both parties.
pub fn project(message: &RawMessage, handles: &HandleMap) -> (record: OutputRecord)
    ensures
        record@ == projection(message@, handles@),
{
    let owner = copy_text(&message.destination_caller_id);
    let other = handles.resolve(message.handle_id);
    let (from, to) = if message.is_from_me {
        (owner, other)
    } else {
        (other, owner)
    };
    OutputRecord {
        id: message.rowid as i64,
        date: unix_seconds(message.date),
        text: copy_text(&message.text),
        from,
        to,
        from_me: message.is_from_me,
    }
}

/// Goes through the message rows in order and collects the record of each
/// selected row.
pub fn export_records(
    messages: &Vec<RawMessage>,
    handles: &HandleMap,
    range: &DateRange,
    only_from_me: bool,
) -> (records: Vec<OutputRecord>)
    ensures
        records_view(records@) == export_of(
            messages_view(messages@),
            handles@,
            *range,
            only_from_me,
        ),
{
    let mut records: Vec<OutputRecord> = Vec::new();
    let mut i: usize = 0;
    while i < messages.len()
        invariant
            i <= messages.len(),
            records_view(records@) == export_of(
                messages_view(messages@).take(i as int),
                handles@,
                *range,
                only_from_me,
            ),
        decreases messages.len() - i,
    {
        let ghost upto = messages_view(messages@).take(i + 1);
        assert(upto.drop_last() =~= messages_view(messages@).take(i as int));
        assert(upto.last() == messages@[i as int]@);
        if selects(&messages[i], range, only_from_me) {
            let ghost before = records@;
            let record = project(&messages[i], handles);
            records.push(record);
            assert(records_view(records@) =~= records_view(before).push(record@));
        }
        i += 1;
    }
    assert(messages_view(messages@).take(messages.len() as int) =~= messages_view(messages@));
    records
}

/// A message that the owner sent goes from the owner's identifier to the
/// identifier behind its handle; a received message with the same two parties
/// goes the other way.
pub proof fn lemma_direction_swaps_parties(
    sent: MessageView,
    received: MessageView,
    directory: Map<i32, Seq<char>>,
)
    requires
        sent.is_from_me,
        !received.is_from_me,
        sent.handle_id == received.handle_id,
        sent.destination_caller_id == received.destination_caller_id,
    ensures
        projection(sent, directory).from == sent.destination_caller_id,
        projection(sent, directory).to == resolved(directory, sent.handle_id),
        projection(received, directory).from == projection(sent, directory).to,
        projection(received, directory).to == projection(sent, directory).from,
{
}

/// A handle that the directory does not know leaves its side of the record
/// empty: the recipient of a sent message, the sender of a received one.
pub proof fn lemma_unknown_handle_is_left_out(message: MessageView, directory: Map<i32, Seq<char>>)
    requires
        message.handle_id matches Some(rowid) ==> !directory.contains_key(rowid),
    ensures
        message.is_from_me ==> projection(message, directory).to is None,
        !message.is_from_me ==> projection(message, directory).from is None,
{
}

/// Where the record of row `i` stands in the export, if the row is selected:
/// behind the records of the selected rows before it.
pub open spec fn position_of(
    messages: Seq<MessageView>,
    directory: Map<i32, Seq<char>>,
    range: DateRange,
    only_from_me: bool,
    i: int,
) -> int {
    export_of(messages.take(i), directory, range, only_from_me).len() as int
}

/// Whether no two rows have the same number.
pub open spec fn distinct_row_ids(messages: Seq<MessageView>) -> bool {
    forall|a: int, b: int|
        0 <= a < messages.len() && 0 <= b < messages.len() && a != b ==> (
        #[trigger] messages[a]).rowid != (#[trigger] messages[b]).rowid
}

/// The export of the first `i` rows is the beginning of the export of all rows.
proof fn lemma_export_of_prefix(
    messages: Seq<MessageView>,
    directory: Map<i32, Seq<char>>,
    range: DateRange,
    only_from_me: bool,
    i: int,
)
    requires
        0 <= i <= messages.len(),
    ensures
        export_of(messages.take(i), directory, range, only_from_me).is_prefix_of(
            export_of(messages, directory, range, only_from_me),
        ),
    decreases messages.len(),
{
    if i == messages.len() {
        assert(messages.take(i) =~= messages);
    } else {
        assert(messages.drop_last().take(i) =~= messages.take(i));
        lemma_export_of_prefix(messages.drop_last(), directory, range, only_from_me, i);
    }
}

/// Every selected row is exported: its record stands at the row's position.
pub proof fn lemma_selected_row_is_exported(
    messages: Seq<MessageView>,
    directory: Map<i32, Seq<char>>,
    range: DateRange,
    only_from_me: bool,
    i: int,
)
    requires
        0 <= i < messages.len(),
        is_selected(messages[i], range, only_from_me),
    ensures
        0 <= position_of(messages, directory, range, only_from_me, i) < export_of(
            messages,
            directory,
            range,
            only_from_me,
        ).len(),
        export_of(messages, directory, range, only_from_me)[position_of(
            messages,
            directory,
            range,
            only_from_me,
            i,
        )] == projection(messages[i], directory),
{
    assert(messages.take(i + 1).drop_last() =~= messages.take(i));
    assert(messages.take(i + 1).last() == messages[i]);
    lemma_export_of_prefix(messages, directory, range, only_from_me, i + 1);
    let upto = export_of(messages.take(i + 1), directory, range, only_from_me);
    let at = position_of(messages, directory, range, only_from_me, i);
    assert(upto[at] == projection(messages[i], directory));
    assert(upto[at] == export_of(messages, directory, range, only_from_me)[at]);
}

/// Every exported record is the record of a selected row, and stands at that
/// row's position.
pub proof fn lemma_record_has_selected_row(
    messages: Seq<MessageView>,
    directory: Map<i32, Seq<char>>,
    range: DateRange,
    only_from_me: bool,
    j: int,
) -> (i: int)
    requires
        0 <= j < export_of(messages, directory, range, only_from_me).len(),
    ensures
        0 <= i < messages.len(),
        is_selected(messages[i], range, only_from_me),
        position_of(messages, directory, range, only_from_me, i) == j,
        export_of(messages, directory, range, only_from_me)[j] == projection(
            messages[i],
            directory,
        ),
    decreases messages.len(),
{
    let earlier = messages.drop_last();
    if j < export_of(earlier, directory, range, only_from_me).len() {
        let i = lemma_record_has_selected_row(earlier, directory, range, only_from_me, j);
        assert(earlier.take(i) =~= messages.take(i));
        i
    } else {
        assert(messages.take(messages.len() - 1) =~= earlier);
        messages.len() - 1
    }
}

/// The export keeps the order of the rows: of two selected rows the earlier
/// one has the earlier record.
pub proof fn lemma_export_keeps_row_order(
    messages: Seq<MessageView>,
    directory: Map<i32, Seq<char>>,
    range: DateRange,
    only_from_me: bool,
    i: int,
    k: int,
)
    requires
        0 <= i < k < messages.len(),
        is_selected(messages[i], range, only_from_me),
    ensures
        position_of(messages, directory, range, only_from_me, i) < position_of(
            messages,
            directory,
            range,
            only_from_me,
            k,
        ),
{
    let upto = messages.take(k);
    assert(upto.take(i) =~= messages.take(i));
    lemma_selected_row_is_exported(upto, directory, range, only_from_me, i);
}

/// Where no two rows share a number, a row has a record in the export if and
/// only if it is selected: its text was decoded, its date lies in the window,
/// and it was sent by the owner where only such messages are asked for.
pub proof fn lemma_exported_iff_selected(
    messages: Seq<MessageView>,
    directory: Map<i32, Seq<char>>,
    range: DateRange,
    only_from_me: bool,
    i: int,
)
    requires
        0 <= i < messages.len(),
        distinct_row_ids(messages),
    ensures
        is_selected(messages[i], range, only_from_me) <==> exists|j: int|
            0 <= j < export_of(messages, directory, range, only_from_me).len() && (
            #[trigger] export_of(messages, directory, range, only_from_me)[j]).id
                == messages[i].rowid,
{
    let out = export_of(messages, directory, range, only_from_me);
    if is_selected(messages[i], range, only_from_me) {
        lemma_selected_row_is_exported(messages, directory, range, only_from_me, i);
        let j = position_of(messages, directory, range, only_from_me, i);
        assert(out[j].id == messages[i].rowid);
    }
    if exists|j: int| 0 <= j < out.len() && (#[trigger] out[j]).id == messages[i].rowid {
        let j = choose|j: int| 0 <= j < out.len() && (#[trigger] out[j]).id == messages[i].rowid;
        let k = lemma_record_has_selected_row(messages, directory, range, only_from_me, j);
        assert(messages[k].rowid == messages[i].rowid);
        assert(k == i);
    }
}

} // verus!
