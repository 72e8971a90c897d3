use oanda_stream_recorder::endpoint::{authorization, stream_url};
use oanda_stream_recorder::framing::{decode_line, LineFramer};
use oanda_stream_recorder::protocol::{classify, parse, JsonAtom, StreamMessage};
use oanda_stream_recorder::session::Session;
use oanda_stream_recorder::sink::{open_mode, path_for, Instant, OpenMode, RotatingSink};
use oanda_stream_recorder::supervisor::{Command, Event, Phase, Supervisor};

const HEARTBEAT: &str = r#"{"type":"HEARTBEAT","time":"2024-01-01T00:00:00Z"}"#;
const PRICE: &str = r#"{"type":"PRICE","time":"2024-01-01T00:00:01Z","closeoutBid":"1.0800","closeoutAsk":"1.0802","status":"tradeable","tradeable":true,"instrument":"EUR_USD"}"#;
const PRICE_RECORD: &str = r#"{"type":"PRICE","time":"2024-01-01T00:00:01Z","closeout_bid":1.08,"closeout_ask":1.0802,"status":"tradeable","tradeable":true,"instrument":"EUR_USD"}"#;
const TEMPLATE: &str = "oanda_stream_%Y_%m_%d.json";

fn price_at(time: &str, bid: &str) -> String {
    format!(
        r#"{{"type":"PRICE","time":"{}","closeoutBid":"{}","closeoutAsk":"1.5","status":"tradeable","tradeable":false,"instrument":"USD_JPY"}}"#,
        time, bid
    )
}

#[test]
fn parse_heartbeat() {
    match parse(HEARTBEAT) {
        Ok(StreamMessage::Heartbeat { time }) => assert_eq!(time, "2024-01-01T00:00:00Z"),
        _ => panic!("expected a heartbeat"),
    }
}

#[test]
fn parse_price_fields() {
    match parse(PRICE) {
        Ok(StreamMessage::Price(p)) => {
            assert_eq!(p.time, "2024-01-01T00:00:01Z");
            assert_eq!(p.closeout_bid, "1.0800");
            assert_eq!(p.closeout_ask, "1.0802");
            assert_eq!(p.status, "tradeable");
            assert!(p.tradeable);
            assert_eq!(p.instrument, "EUR_USD");
        }
        _ => panic!("expected a price"),
    }
}

#[test]
fn price_round_trips_through_wire_fields() {
    let p = match parse(PRICE) {
        Ok(StreamMessage::Price(p)) => p,
        _ => panic!("expected a price"),
    };
    match classify(&p.wire_fields()) {
        Ok(StreamMessage::Price(q)) => {
            assert_eq!(q.time, p.time);
            assert_eq!(q.closeout_bid, p.closeout_bid);
            assert_eq!(q.closeout_ask, p.closeout_ask);
            assert_eq!(q.status, p.status);
            assert_eq!(q.tradeable, p.tradeable);
            assert_eq!(q.instrument, p.instrument);
        }
        _ => panic!("expected a price"),
    }
}

#[test]
fn missing_type_is_rejected() {
    assert!(parse(r#"{"time":"2024-01-01T00:00:00Z"}"#).is_err());
}

#[test]
fn unknown_type_is_rejected() {
    let e = parse(r#"{"type":"ORDER","time":"2024-01-01T00:00:00Z"}"#);
    assert!(e.is_err());
}

#[test]
fn non_string_type_is_rejected() {
    assert!(parse(r#"{"type":7,"time":"2024-01-01T00:00:00Z"}"#).is_err());
}

#[test]
fn malformed_json_is_rejected() {
    let e = parse("{\"type\":").err().unwrap();
    assert!(!e.message.is_empty());
}

#[test]
fn bad_float_is_rejected() {
    assert!(parse(&price_at("2024-01-01T00:00:01Z", "abc")).is_err());
}

#[test]
fn bad_timestamp_is_rejected() {
    assert!(parse(&price_at("yesterday", "1.0")).is_err());
    assert!(parse(r#"{"type":"HEARTBEAT","time":"2024-13-01T00:00:00Z"}"#).is_err());
}

#[test]
fn missing_price_field_is_rejected() {
    let line = r#"{"type":"PRICE","time":"2024-01-01T00:00:01Z","closeoutBid":"1.0","closeoutAsk":"1.1","status":"tradeable","instrument":"EUR_USD"}"#;
    assert!(parse(line).is_err());
}

#[test]
fn quoted_float_required() {
    let line = r#"{"type":"PRICE","time":"2024-01-01T00:00:01Z","closeoutBid":1.0,"closeoutAsk":"1.1","status":"tradeable","tradeable":true,"instrument":"EUR_USD"}"#;
    assert!(parse(line).is_err());
}

#[test]
fn classify_reads_entries() {
    let fields = vec![
        ("type".to_string(), JsonAtom::Text("HEARTBEAT".to_string())),
        ("time".to_string(), JsonAtom::Text("2024-01-01T00:00:00+02:00".to_string())),
        ("extra".to_string(), JsonAtom::Other),
    ];
    assert!(matches!(classify(&fields), Ok(StreamMessage::Heartbeat { .. })));
}

#[test]
fn record_line_normalises_values() {
    let p = match parse(&price_at("2024-01-01T02:00:00+02:00", "1")) {
        Ok(StreamMessage::Price(p)) => p,
        _ => panic!("expected a price"),
    };
    assert_eq!(
        p.record_line(),
        r#"{"type":"PRICE","time":"2024-01-01T00:00:00Z","closeout_bid":1.0,"closeout_ask":1.5,"status":"tradeable","tradeable":false,"instrument":"USD_JPY"}"#
    );
}

#[test]
fn record_line_escapes_strings() {
    let line = r#"{"type":"PRICE","time":"2024-01-01T00:00:01Z","closeoutBid":"2","closeoutAsk":"3","status":"a\"b","tradeable":true,"instrument":"EUR_USD"}"#;
    let p = match parse(line) {
        Ok(StreamMessage::Price(p)) => p,
        _ => panic!("expected a price"),
    };
    assert!(p.record_line().contains(r#""status":"a\"b""#));
}

#[test]
fn path_for_day_template() {
    let at = Instant { secs: 1704067201, nanos: 0 };
    assert_eq!(path_for("data", TEMPLATE, at).unwrap(), "data/oanda_stream_2024_01_01.json");
}

#[test]
fn path_for_same_day_same_path() {
    let a = path_for("data", TEMPLATE, Instant { secs: 1704067200, nanos: 0 }).unwrap();
    let b = path_for("data", TEMPLATE, Instant { secs: 1704153599, nanos: 999_999_999 }).unwrap();
    assert_eq!(a, b);
}

#[test]
fn path_for_next_day_other_path() {
    let a = path_for("data", TEMPLATE, Instant { secs: 1704153599, nanos: 0 }).unwrap();
    let b = path_for("data", TEMPLATE, Instant { secs: 1704153600, nanos: 0 }).unwrap();
    assert_ne!(a, b);
    assert_eq!(b, "data/oanda_stream_2024_01_02.json");
}

#[test]
fn path_for_invalid_template() {
    assert!(path_for("data", "%Q", Instant { secs: 0, nanos: 0 }).is_none());
}

#[test]
fn sink_rotates_once_on_change() {
    let mut sink = RotatingSink::new("a".to_string());
    assert!(sink.observe("a".to_string()).is_none());
    let r = sink.observe("b".to_string()).unwrap();
    assert_eq!(r.archive, "a");
    assert_eq!(r.open, "b");
    assert_eq!(sink.current, "b");
    assert!(sink.observe("b".to_string()).is_none());
}

#[test]
fn open_mode_never_truncates() {
    assert_eq!(open_mode(true), OpenMode::Append);
    assert_eq!(open_mode(false), OpenMode::Create);
}

#[test]
fn heartbeat_then_price_writes_one_line() {
    let path = "data/oanda_stream_2024_01_01.json".to_string();
    let mut session = Session::new(path.clone());
    let first = session.handle_line(path.clone(), HEARTBEAT);
    assert!(first.rotation.is_none());
    assert!(matches!(first.record, Ok(None)));
    let second = session.handle_line(path, PRICE);
    assert!(second.rotation.is_none());
    match second.record {
        Ok(Some(line)) => assert_eq!(line, PRICE_RECORD),
        _ => panic!("expected a record"),
    }
}

#[test]
fn day_boundary_splits_files() {
    let before = path_for("data", TEMPLATE, Instant { secs: 1704153599, nanos: 0 }).unwrap();
    let after = path_for("data", TEMPLATE, Instant { secs: 1704153600, nanos: 0 }).unwrap();
    let mut session = Session::new(before.clone());
    let first = session.handle_line(before.clone(), &price_at("2024-01-01T23:59:59Z", "1.1"));
    assert!(first.rotation.is_none());
    let first_line = first.record.ok().unwrap().unwrap();
    assert!(first_line.contains("2024-01-01T23:59:59Z"));
    let second = session.handle_line(after.clone(), &price_at("2024-01-02T00:00:00Z", "1.2"));
    let rotation = second.rotation.unwrap();
    assert_eq!(rotation.archive, before);
    assert_eq!(rotation.open, after);
    let second_line = second.record.ok().unwrap().unwrap();
    assert!(second_line.contains("2024-01-02T00:00:00Z"));
    assert!(second_line.contains("\"closeout_bid\":1.2"));
}

#[test]
fn rotation_stands_when_line_fails() {
    let mut session = Session::new("a".to_string());
    let out = session.handle_line("b".to_string(), "not json");
    assert!(out.record.is_err());
    assert_eq!(out.rotation.unwrap().archive, "a");
}

#[test]
fn framer_splits_lines_across_chunks() {
    let mut f = LineFramer::new();
    f.push(b"{\"a\":1}\r\n{\"b\"");
    assert_eq!(f.next_line().unwrap(), b"{\"a\":1}".to_vec());
    assert!(f.next_line().is_none());
    f.push(b":2}\n\n");
    assert_eq!(f.next_line().unwrap(), b"{\"b\":2}".to_vec());
    assert_eq!(f.next_line().unwrap(), Vec::<u8>::new());
    assert!(f.next_line().is_none());
    assert!(f.finish().is_none());
}

#[test]
fn framer_hands_out_partial_line_at_end() {
    let mut f = LineFramer::new();
    f.push(b"abc");
    assert!(f.next_line().is_none());
    assert_eq!(f.finish().unwrap(), b"abc".to_vec());
    assert!(f.finish().is_none());
}

#[test]
fn decode_line_checks_utf8() {
    assert_eq!(decode_line(b"caf\xc3\xa9".to_vec()).unwrap(), "caf\u{e9}");
    assert!(decode_line(vec![0xff, 0xfe]).is_err());
}

#[test]
fn supervisor_sleeps_cooldown_then_reconnects() {
    let mut s = Supervisor::new(5);
    assert_eq!(s.step(Event::Start), Command::Connect);
    assert_eq!(s.step(Event::SessionEnded), Command::Sleep(5));
    assert_eq!(s.phase, Phase::CoolingDown);
    assert_eq!(s.step(Event::CooldownElapsed), Command::Connect);
    assert_eq!(s.phase, Phase::Running);
    let mut framer = LineFramer::new();
    assert!(framer.next_line().is_none());
    assert!(framer.finish().is_none());
}

#[test]
fn url_and_header() {
    let instruments = vec!["EUR_USD".to_string(), "USD_JPY".to_string()];
    assert_eq!(
        stream_url("stream-fxtrade.oanda.com", "123", &instruments),
        "https://stream-fxtrade.oanda.com/v3/accounts/123/pricing/stream?instruments=EUR_USD%2CUSD_JPY"
    );
    assert_eq!(authorization("tok"), "Bearer tok");
}

#[test]
fn url_with_no_instruments() {
    assert_eq!(stream_url("h", "a", &Vec::new()), "https://h/v3/accounts/a/pricing/stream?instruments=");
}
