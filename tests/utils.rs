use lsar::error::{EvalError, HTTPError, HTTPErrorKind, LsarError, RoomStateError};
use lsar::eval::EvalChannel;
use lsar::history::{HistoryItem, PlayTime};
use lsar::http_client::HttpClient;
use lsar::platform::Platform;
use lsar::query::parse_query;
use lsar::text::{chars_of, decimal_string, parse_u128, parse_u64, replace_all};
use lsar::trusted::md5;

#[test]
fn test_md5() {
    let text = "Hello world".to_string();
    let expected_hash = "3e25960a79dbc69b674cd4ec67a72c62";
    assert_eq!(md5(&text), expected_hash);
}

#[test]
fn platform_codes_and_names() {
    assert_eq!(Platform::Douyu.as_i64(), 0);
    assert_eq!(Platform::Huya.as_i64(), 1);
    assert_eq!(Platform::Douyin.as_i64(), 2);
    assert_eq!(Platform::Bilibili.as_i64(), 3);
    assert_eq!(Platform::Bilibili.to_str(), "bilibili");
    assert_eq!(Platform::Huya.to_str(), "huya");
    assert_eq!(Platform::from_code(2), Ok(Platform::Douyin));
    assert!(Platform::from_code(4).is_err());
    assert!(Platform::from_code(-1).is_err());
    assert_eq!(Platform::try_from(1), Ok(Platform::Huya));
    assert_eq!(Platform::try_from(7), Err("Invalid platform value"));
}

#[test]
fn history_item_from_row() {
    let t = PlayTime::new(1_700_000_000, 5, 28_800).unwrap();
    let item = HistoryItem::from_row(
        7,
        3,
        22,
        "anchor".to_string(),
        "cat".to_string(),
        "title".to_string(),
        t,
    )
    .unwrap();
    assert_eq!(item.platform(), &Platform::Bilibili);
    assert_eq!(item.room_id(), 22);
    assert_eq!(item.anchor(), "anchor");
    assert_eq!(item.category(), "cat");
    assert_eq!(item.last_title(), "title");
    assert_eq!(item.last_play_time(), t);
    let bad = HistoryItem::from_row(
        7,
        9,
        22,
        String::new(),
        String::new(),
        String::new(),
        t,
    );
    assert!(bad.is_err());
    assert!(PlayTime::new(0, 1_000_000_000, 0).is_none());
}

#[test]
fn eval_completion_reaches_submitter() {
    let mut slot: EvalChannel<u32> = EvalChannel::new();
    assert_eq!(slot.submit(1), None);
    assert_eq!(slot.complete(), Some(1));
    assert_eq!(slot.complete(), None);
}

#[test]
fn eval_stale_completion_is_noop() {
    let mut slot: EvalChannel<&str> = EvalChannel::new();
    assert_eq!(slot.complete(), None);
    assert_eq!(slot.submit("a"), None);
    assert_eq!(slot.complete(), Some("a"));
}

#[test]
fn eval_second_submission_displaces_first() {
    let mut slot: EvalChannel<u32> = EvalChannel::new();
    slot.submit(1);
    assert_eq!(slot.submit(2), Some(1));
    assert_eq!(slot.complete(), Some(2));
}

#[test]
fn header_values_are_checked() {
    let mut client = HttpClient::new();
    assert!(client.header("user-agent").is_some());
    assert!(client.insert_header("cookie", "__ac_nonce=abc").is_ok());
    assert_eq!(client.header("cookie").unwrap(), "__ac_nonce=abc");
    assert!(client.insert_header("cookie", "a=1; b=2").is_ok());
    assert_eq!(client.header("cookie").unwrap(), "a=1; b=2");
    assert_eq!(client.headers.entries.len(), 2);
    let err = client.insert_header("cookie", "bad\nvalue").unwrap_err();
    assert_eq!(err, LsarError::Other("failed to parse header value".to_string()));
    assert_eq!(client.header("cookie").unwrap(), "a=1; b=2");
    assert!(client.insert_header("x-tab", "a\tb").is_ok());
}

#[test]
fn http_error_classification() {
    assert_eq!(HTTPError::classify(true, true, true).kind, HTTPErrorKind::Connect);
    assert_eq!(HTTPError::classify(false, true, true).kind, HTTPErrorKind::Timeout);
    assert_eq!(HTTPError::classify(false, false, true).kind, HTTPErrorKind::Decode);
    assert_eq!(HTTPError::classify(false, false, false).kind, HTTPErrorKind::Other);
}

#[test]
fn error_messages() {
    assert_eq!(RoomStateError::Offline.message(), "该房间未开播");
    assert_eq!(
        LsarError::RoomState(RoomStateError::IsReplay).message(),
        "该房间正在重播"
    );
    let http = LsarError::Http(HTTPError::classify(false, true, false));
    assert_eq!(http.message(), "http error: Timeout");
    assert_eq!(
        LsarError::Eval(EvalError::ChannelReceiveError).message(),
        "ChannelReceiveError"
    );
    assert_eq!(LsarError::Other("x".to_string()).message(), "x");
}

#[test]
fn numbers_parse_and_print() {
    assert_eq!(parse_u64(&chars_of("12345")), Some(12345));
    assert_eq!(parse_u64(&chars_of("+7")), Some(7));
    assert_eq!(parse_u64(&chars_of("")), None);
    assert_eq!(parse_u64(&chars_of("+")), None);
    assert_eq!(parse_u64(&chars_of("12a")), None);
    assert_eq!(parse_u64(&chars_of("18446744073709551615")), Some(u64::MAX));
    assert_eq!(parse_u64(&chars_of("18446744073709551616")), None);
    assert_eq!(
        parse_u128(&chars_of("340282366920938463463374607431768211456")),
        None
    );
    assert_eq!(decimal_string(0), "0");
    assert_eq!(decimal_string(1_700_000_000_000), "1700000000000");
}

#[test]
fn replace_is_left_to_right_and_non_overlapping() {
    let r = replace_all(&chars_of("aaa-aa"), &chars_of("aa"), &chars_of("b"));
    assert_eq!(r.iter().collect::<String>(), "ba-b");
    let r = replace_all(&chars_of("$0/$1/$0"), &chars_of("$0"), &chars_of("uid"));
    assert_eq!(r.iter().collect::<String>(), "uid/$1/uid");
}

#[test]
fn query_keeps_first_insertion_order() {
    let mut q = parse_query("a=1&b=2&a=3&c=x%20y").unwrap();
    assert_eq!(q.get("a").unwrap(), "3");
    assert_eq!(q.get("c").unwrap(), "x y");
    q.insert("d", "4".to_string());
    q.insert("b", "5".to_string());
    q.remove("a");
    assert_eq!(q.to_query_string(), "b=5&c=x y&d=4");
}
