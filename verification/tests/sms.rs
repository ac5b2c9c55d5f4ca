use async_modem::error::{Field, ParseFailure};
use async_modem::sms::{parse_timestamp, SmsMessage, Timestamp};

fn record(index: u32, address: &str, stamp: &str, content: &str) -> String {
    format!("+CMGL: {},\"REC READ\",\"{}\",\"\",\"{}\"\r\n{}\r\n", index, address, stamp, content)
}

#[test]
fn single_record_is_parsed() {
    let reply = String::from(
        "\r\n+CMGR: \"REC READ\",\"2B3135353531323334353637\",\"\",\"25/01/02,03:04:05-20\"\r\n48656C6C6F\r\n\r\nOK\r\n",
    );
    let message = SmsMessage::from_cmgr(reply, 9).unwrap();
    assert_eq!(message.memory_index(), 9);
    assert_eq!(message.address(), "+15551234567");
    assert_eq!(message.content(), "Hello");
    assert_eq!(message.timestamp().offset_seconds, -5 * 3600);
    assert_eq!(message.timestamp().seconds, 1735805045);
    assert_eq!(message.timestamp().nanoseconds, 0);
}

#[test]
fn single_record_with_offset_east_of_utc() {
    let reply = String::from(
        "+CMGR: \"REC UNREAD\",\"\",\"\",\"23/06/15,12:00:00+23\"\r\n\r\n\r\nOK\r\n",
    );
    let message = SmsMessage::from_cmgr(reply, 0).unwrap();
    assert_eq!(message.memory_index(), 0);
    assert_eq!(message.address(), "");
    assert_eq!(message.content(), "");
    assert_eq!(
        message.timestamp(),
        Timestamp { seconds: 1686809700, nanoseconds: 0, offset_seconds: 345 * 60 }
    );
}

#[test]
fn single_record_failures() {
    assert_eq!(
        SmsMessage::from_cmgr(String::from("\r\nOK\r\n"), 1).err(),
        Some(ParseFailure::NoMatch)
    );
    let odd_hex = String::from(
        "+CMGR: \"REC READ\",\"2B3\",\"\",\"25/01/02,03:04:05-20\"\r\n48656C6C6F\r\n\r\nOK\r\n",
    );
    assert_eq!(SmsMessage::from_cmgr(odd_hex, 1).err(), Some(ParseFailure::InvalidHex));
    let odd_content = String::from(
        "+CMGR: \"REC READ\",\"2B\",\"\",\"25/01/02,03:04:05-20\"\r\n486\r\n\r\nOK\r\n",
    );
    assert_eq!(SmsMessage::from_cmgr(odd_content, 1).err(), Some(ParseFailure::InvalidHex));
    let no_zone = String::from(
        "+CMGR: \"REC READ\",\"2B\",\"\",\"25/01/02,03:04:05-\"\r\n48\r\n\r\nOK\r\n",
    );
    assert_eq!(SmsMessage::from_cmgr(no_zone, 1).err(), Some(ParseFailure::InvalidNumber));
    let no_such_day = String::from(
        "+CMGR: \"REC READ\",\"2B\",\"\",\"25/02/30,03:04:05-20\"\r\n48\r\n\r\nOK\r\n",
    );
    assert_eq!(SmsMessage::from_cmgr(no_such_day, 1).err(), Some(ParseFailure::InvalidTimestamp));
    let wide_offset = String::from(
        "+CMGR: \"REC READ\",\"2B\",\"\",\"25/01/02,03:04:05+400\"\r\n48\r\n\r\nOK\r\n",
    );
    assert_eq!(SmsMessage::from_cmgr(wide_offset, 1).err(), Some(ParseFailure::InvalidTimestamp));
}

#[test]
fn listing_of_two_records() {
    let reply = format!(
        "\r\n{}{}\r\nOK\r\n",
        record(3, "2B3135353531323334353637", "25/01/02,03:04:05-20", "48656C6C6F"),
        record(17, "3132", "24/12/31,23:59:59+08", "5365636F6E64206F6E65"),
    );
    let messages = SmsMessage::from_cmgl(reply).unwrap();
    assert_eq!(messages.len(), 2);
    assert_eq!(messages[0].memory_index(), 3);
    assert_eq!(messages[0].address(), "+15551234567");
    assert_eq!(messages[0].content(), "Hello");
    assert_eq!(messages[0].timestamp().seconds, 1735805045);
    assert_eq!(messages[0].timestamp().offset_seconds, -18000);
    assert_eq!(messages[1].memory_index(), 17);
    assert_eq!(messages[1].address(), "12");
    assert_eq!(messages[1].content(), "Second one");
    assert_eq!(messages[1].timestamp().seconds, 1735682399);
    assert_eq!(messages[1].timestamp().offset_seconds, 7200);
}

#[test]
fn listing_without_records_is_empty() {
    let messages = SmsMessage::from_cmgl(String::from("\r\nOK\r\n")).unwrap();
    assert!(messages.is_empty());
    let messages = SmsMessage::from_cmgl(String::new()).unwrap();
    assert!(messages.is_empty());
}

#[test]
fn listing_fails_on_first_bad_record() {
    let reply = format!(
        "{}{}{}",
        record(1, "31", "25/01/02,03:04:05-20", "48"),
        record(2, "313", "25/01/02,03:04:05-20", "48"),
        record(3, "31", "25/13/02,03:04:05-20", "48"),
    );
    assert_eq!(SmsMessage::from_cmgl(reply).err(), Some(ParseFailure::InvalidHex));
    let reply = format!(
        "{}{}",
        record(1, "31", "25/01/02,03:04:05-20", "48"),
        record(3, "31", "25/13/02,03:04:05-20", "48"),
    );
    assert_eq!(SmsMessage::from_cmgl(reply).err(), Some(ParseFailure::InvalidTimestamp));
    let no_index = String::from(
        "+CMGL: ,\"REC READ\",\"31\",\"\",\"25/01/02,03:04:05-20\"\r\n48\r\n",
    );
    assert_eq!(SmsMessage::from_cmgl(no_index).err(), Some(ParseFailure::InvalidNumber));
}

#[test]
fn message_from_groups() {
    let text = |s: &str| Some(String::from(s));
    let mut groups =
        vec![text("whole"), text("12"), text("3132"), text("25/01/02,03:04:05-20"), text("4869")];
    let message = SmsMessage::from_captures(&groups, 4).unwrap();
    assert_eq!(message.memory_index(), 4);
    assert_eq!(message.address(), "12");
    assert_eq!(message.content(), "Hi");
    assert_eq!(message.timestamp().offset_seconds, -18000);
    let message = SmsMessage::from_listing_captures(&groups).unwrap();
    assert_eq!(message.memory_index(), 12);
    groups[1] = text("x");
    assert_eq!(
        SmsMessage::from_listing_captures(&groups).err(),
        Some(ParseFailure::InvalidNumber)
    );
    groups[1] = None;
    assert_eq!(
        SmsMessage::from_listing_captures(&groups).err(),
        Some(ParseFailure::MissingField(Field::MemoryIndex))
    );
    groups[4] = None;
    assert_eq!(
        SmsMessage::from_captures(&groups, 4).err(),
        Some(ParseFailure::MissingField(Field::Content))
    );
    groups[3] = None;
    assert_eq!(
        SmsMessage::from_captures(&groups, 4).err(),
        Some(ParseFailure::MissingField(Field::Timestamp))
    );
    groups[3] = text("no timestamp");
    assert_eq!(SmsMessage::from_captures(&groups, 4).err(), Some(ParseFailure::NoMatch));
    groups[2] = None;
    assert_eq!(
        SmsMessage::from_captures(&groups, 4).err(),
        Some(ParseFailure::MissingField(Field::Address))
    );
}

#[test]
fn message_from_parts() {
    let stamp = Timestamp { seconds: 5, nanoseconds: 6, offset_seconds: -7 };
    let message = SmsMessage::new(8, String::from("a"), String::from("b"), stamp);
    assert_eq!(message.memory_index(), 8);
    assert_eq!(message.address(), "a");
    assert_eq!(message.content(), "b");
    assert_eq!(message.timestamp(), stamp);
}

#[test]
fn timestamp_is_read() {
    assert_eq!(
        parse_timestamp("2025-01-02T03:04:05-05:00"),
        Ok(Timestamp { seconds: 1735805045, nanoseconds: 0, offset_seconds: -18000 })
    );
    assert_eq!(
        parse_timestamp("1970-01-01T00:00:00.5Z"),
        Ok(Timestamp { seconds: 0, nanoseconds: 500_000_000, offset_seconds: 0 })
    );
    assert_eq!(parse_timestamp("2025-01-02T03:04:05"), Err(ParseFailure::InvalidTimestamp));
    assert_eq!(parse_timestamp(""), Err(ParseFailure::InvalidTimestamp));
}
