use imessage_export::dates::{resolve_date_range, DateRange, Timestamp};
use imessage_export::export::export_json;
use imessage_export::handles::Handle;
use imessage_export::messages::RawMessage;

fn now() -> Timestamp {
    Timestamp { secs: 1_720_000_000, nanos: 0 }
}

fn handle_rows() -> Vec<Option<Handle>> {
    vec![
        Some(Handle { rowid: 1, id: "+15559876543".to_string() }),
        None,
        Some(Handle { rowid: 2, id: "friend@example.com".to_string() }),
    ]
}

fn row(rowid: i32, date: i64, is_from_me: bool, handle_id: Option<i32>) -> RawMessage {
    RawMessage {
        rowid,
        date,
        text: Some(format!("text {}", rowid)),
        text_is_decodable: true,
        is_from_me,
        handle_id,
        destination_caller_id: Some("+15551234567".to_string()),
    }
}

#[test]
fn export_without_rows_is_an_empty_array() {
    let range = DateRange { start_ns: i64::MIN, end_ns: i64::MAX };
    assert_eq!(export_json(&vec![], &vec![], &range, false), "[]");
    assert_eq!(export_json(&handle_rows(), &vec![], &range, true), "[]");
}

#[test]
fn export_with_no_row_in_the_window_is_an_empty_array() {
    let range = resolve_date_range(Some("2024-03-01"), Some("2024-03-15"), now(), now()).unwrap();
    let rows = vec![row(1, range.start_ns - 1, true, Some(1)), row(2, range.end_ns + 1, false, Some(2))];
    assert_eq!(export_json(&handle_rows(), &rows, &range, false), "[]");
}

#[test]
fn export_with_only_undecodable_rows_is_an_empty_array() {
    let range = DateRange { start_ns: i64::MIN, end_ns: i64::MAX };
    let mut first = row(1, 0, true, Some(1));
    first.text_is_decodable = false;
    let mut second = row(2, 5, false, None);
    second.text_is_decodable = false;
    assert_eq!(export_json(&handle_rows(), &vec![first, second], &range, false), "[]");
}

#[test]
fn export_of_a_conversation() {
    let range = resolve_date_range(Some("2024-03-01"), Some("2024-03-15"), now(), now()).unwrap();
    let day = 86_400_000_000_000;
    let rows = vec![
        row(10, range.start_ns, true, Some(1)),
        row(11, range.start_ns + day + 999_999_999, false, Some(2)),
        row(12, range.end_ns + 1, true, Some(1)),
        row(13, range.end_ns, false, Some(3)),
    ];
    let text = export_json(&handle_rows(), &rows, &range, false);
    assert_eq!(
        text,
        "[{\"date\":1709251200,\"from\":\"+15551234567\",\"from_me\":true,\"id\":10,\
         \"text\":\"text 10\",\"to\":\"+15559876543\"},\
         {\"date\":1709337600,\"from\":\"friend@example.com\",\"from_me\":false,\"id\":11,\
         \"text\":\"text 11\",\"to\":\"+15551234567\"},\
         {\"date\":1710460800,\"from\":null,\"from_me\":false,\"id\":13,\
         \"text\":\"text 13\",\"to\":\"+15551234567\"}]"
    );
    let only_mine = export_json(&handle_rows(), &rows, &range, true);
    assert_eq!(
        only_mine,
        "[{\"date\":1709251200,\"from\":\"+15551234567\",\"from_me\":true,\"id\":10,\
         \"text\":\"text 10\",\"to\":\"+15559876543\"}]"
    );
}
