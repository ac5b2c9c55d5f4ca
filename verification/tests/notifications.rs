use async_modem::constants::UnsolicitedResultCode;
use async_modem::error::{Field, ParseFailure};
use async_modem::urc::{classify, event_from_captures, UnsolicitedEvent};

#[test]
fn every_notification_is_recognised() {
    assert!(matches!(classify("\r\nRDY\r\n"), Ok(Some(UnsolicitedEvent::ModemReady))));
    assert!(matches!(
        classify("\r\n+CMTI: \"SM\",12\r\n"),
        Ok(Some(UnsolicitedEvent::MessageReceived { storage_index: 12 }))
    ));
    assert!(matches!(classify("\r\nRING\r\r\n"), Ok(Some(UnsolicitedEvent::IncomingCall))));
    match classify("\r\nMISSED_CALL: 09:15PM +15551234567\r\n") {
        Ok(Some(UnsolicitedEvent::MissedCall { time, caller })) => {
            assert_eq!(time, "09:15PM");
            assert_eq!(caller, "+15551234567");
        }
        other => panic!("unexpected classification: {:?}", other),
    }
    assert!(matches!(classify("\r\nNO CARRIER\r\r\n"), Ok(Some(UnsolicitedEvent::CarrierLost))));
    assert!(matches!(
        classify("\r\nVOICE CALL: BEGIN\r\n"),
        Ok(Some(UnsolicitedEvent::VoiceCallBegin))
    ));
    match classify("\r\nVOICE CALL: END: 000153\r\n") {
        Ok(Some(UnsolicitedEvent::VoiceCallEnd { duration })) => assert_eq!(duration, "000153"),
        other => panic!("unexpected classification: {:?}", other),
    }
    assert!(matches!(
        classify("\r\n+CTZV: 32,\"25/01/02,03:04:05\"\r\n"),
        Ok(Some(UnsolicitedEvent::TimezoneChanged { quarter_hour_offset: 32 }))
    ));
    assert!(matches!(
        classify("\r\n+CTZV: 8\r\n"),
        Ok(Some(UnsolicitedEvent::TimezoneChanged { quarter_hour_offset: 8 }))
    ));
    assert!(matches!(classify("\r\nSMS FULL\r\n"), Ok(Some(UnsolicitedEvent::StorageFull))));
}

#[test]
fn replies_are_no_notifications() {
    assert!(matches!(classify(""), Ok(None)));
    assert!(matches!(classify("\r\nOK\r\n"), Ok(None)));
    assert!(matches!(classify("\r\n+CSQ: 20,0\r\n\r\nOK\r\n"), Ok(None)));
    assert!(matches!(classify("\r\n+CMTI: \"SM\",12"), Ok(None)));
    assert!(matches!(classify("RING\r\n"), Ok(None)));
}

#[test]
fn first_notification_in_priority_order_wins() {
    assert!(matches!(
        classify("RING\r\r\n+CMTI: \"SM\",1\r\n"),
        Ok(Some(UnsolicitedEvent::MessageReceived { storage_index: 1 }))
    ));
    assert!(matches!(
        classify("\r\n+CMTI: \"SM\",1\r\nRDY\r\n"),
        Ok(Some(UnsolicitedEvent::ModemReady))
    ));
}

#[test]
fn notification_that_cannot_be_read_fails() {
    assert!(matches!(
        classify("\r\n+CTZV: 99999999999\r\n"),
        Err(ParseFailure::InvalidNumber)
    ));
    assert!(matches!(
        classify("\r\n+CTZV: 2147483648\r\n"),
        Err(ParseFailure::InvalidNumber)
    ));
    assert!(matches!(
        classify("+CMTI: \"SM\",\u{0663}\r\n"),
        Err(ParseFailure::InvalidNumber)
    ));
}

#[test]
fn events_from_groups() {
    let text = |s: &str| Some(String::from(s));
    let none: Vec<Option<String>> = Vec::new();
    assert!(matches!(
        event_from_captures(UnsolicitedResultCode::Ready, &none),
        Ok(UnsolicitedEvent::ModemReady)
    ));
    assert!(matches!(
        event_from_captures(UnsolicitedResultCode::SmsFull, &none),
        Ok(UnsolicitedEvent::StorageFull)
    ));
    assert!(matches!(
        event_from_captures(UnsolicitedResultCode::CMTI, &none),
        Err(ParseFailure::MissingField(Field::MemoryIndex))
    ));
    assert!(matches!(
        event_from_captures(UnsolicitedResultCode::CMTI, &vec![text("x"), text("4294967295")]),
        Ok(UnsolicitedEvent::MessageReceived { storage_index: 4294967295 })
    ));
    assert!(matches!(
        event_from_captures(UnsolicitedResultCode::CMTI, &vec![text("x"), text("")]),
        Err(ParseFailure::InvalidNumber)
    ));
    assert!(matches!(
        event_from_captures(UnsolicitedResultCode::MissedCall, &vec![text("x"), text("t")]),
        Err(ParseFailure::MissingField(Field::Address))
    ));
    assert!(matches!(
        event_from_captures(UnsolicitedResultCode::MissedCall, &vec![text("x"), None, text("c")]),
        Err(ParseFailure::MissingField(Field::Timestamp))
    ));
    assert!(matches!(
        event_from_captures(UnsolicitedResultCode::VoiceCallEnd, &vec![text("x")]),
        Err(ParseFailure::MissingField(Field::Value))
    ));
    assert!(matches!(
        event_from_captures(UnsolicitedResultCode::TimeZoneChange, &vec![text("x"), None]),
        Err(ParseFailure::MissingField(Field::TimeZone))
    ));
    assert!(matches!(
        event_from_captures(
            UnsolicitedResultCode::TimeZoneChange,
            &vec![text("x"), text("2147483647")]
        ),
        Ok(UnsolicitedEvent::TimezoneChanged { quarter_hour_offset: 2147483647 })
    ));
}
