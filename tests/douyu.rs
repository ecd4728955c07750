use lsar::douyu::{
    check_replay, play_post_url, play_url, replay_url, room_page_url, RoomData, RoomInfo,
    RoomInfoFetcher, SignatureGenerator, StreamInfoParser,
};
use lsar::error::{LsarError, MissKeyFieldError, RequestError, RoomStateError};
use lsar::platform::Platform;

const PAGE: &str = r#"<html><script>var $ROOM.room_id =9999;</script><script>var vdwdae325w_64we = "x";function ub98484234(xx0,xx1,xx2){var strc=xx0+xx1;return eval(strc)(xx0,xx1,xx2);}</script><h3 class="Title-header">Evening show</h3><div class="Title-anchorName" title="Streamer">x</div><span class="Title-categoryArrow"></span><a class="Title-categoryItem" href="/g_x" target="_blank" title="Music"></a></html>"#;

const FIRST_REPLY: &str = r#"(function (a,b,c){var cb=a+b+c+"230119154620";var rb=CryptoJS.MD5(cb).toString();return "v=230119154620&did="+b+"&tt="+c+"&sign="+rb;})"#;

#[test]
fn signature_pipeline_with_canned_replies() {
    let f = SignatureGenerator::extract_signature_function(PAGE).unwrap();
    assert_eq!(
        f,
        r#"var vdwdae325w_64we = "x";function ub98484234(xx0,xx1,xx2){var strc=xx0+xx1;return strc;}"#
    );
    let first = SignatureGenerator::first_eval_source(&f, 9999, 1_700_000_000);
    assert_eq!(
        first,
        r#"var vdwdae325w_64we = "x";function ub98484234(xx0,xx1,xx2){var strc=xx0+xx1;return strc;}ub98484234(9999, 10000000000000000000000000001501, 1700000000)"#
    );
    let second = SignatureGenerator::second_eval_source(FIRST_REPLY, 9999, 1_700_000_000).unwrap();
    assert_eq!(
        second,
        r#"(function (a,b,c){var cb=a+b+c+"230119154620";var rb="b154e08f47741f7db6f0de8685e3cb20";return "v=230119154620&did="+b+"&tt="+c+"&sign="+rb;})(9999, "10000000000000000000000000001501", 1700000000)"#
    );
}

#[test]
fn signature_pipeline_failures() {
    assert_eq!(
        SignatureGenerator::extract_signature_function("<html></html>"),
        Err(LsarError::MissKeyField(MissKeyFieldError::SignatureFunction))
    );
    assert_eq!(
        SignatureGenerator::second_eval_source("no number", 1, 1),
        Err(LsarError::MissKeyField(MissKeyFieldError::RandomNumber))
    );
    assert_eq!(
        SignatureGenerator::second_eval_source_with("123456789012 no paren", "d", 1, 1),
        Err(LsarError::MissKeyField(MissKeyFieldError::SignatureFunction))
    );
    assert_eq!(
        SignatureGenerator::digest_input(1, 2, "333"),
        "1100000000000000000000000000015012333"
    );
}

#[test]
fn final_room_id_from_page() {
    let p = StreamInfoParser::new();
    assert_eq!(p.extract_final_room_id(PAGE), Ok(9999));
    assert_eq!(
        p.extract_final_room_id("<span><p>该房间目前没有开放</p></span>"),
        Err(LsarError::RoomState(RoomStateError::NotExists))
    );
    assert_eq!(
        p.extract_final_room_id("nothing"),
        Err(LsarError::MissKeyField(MissKeyFieldError::RoomId))
    );
    assert_eq!(
        p.extract_final_room_id("$ROOM.room_id = 99999999999999999999;"),
        Err(LsarError::MissKeyField(MissKeyFieldError::RoomId))
    );
}

fn info(error: Option<i32>, msg: &str, live: Option<&str>) -> RoomInfo {
    RoomInfo {
        error,
        msg: msg.to_string(),
        data: RoomData {
            rtmp_url: "https://hw.example/live".to_string(),
            rtmp_live: live.map(|s| s.to_string()),
        },
    }
}

#[test]
fn stream_info_is_assembled() {
    let p = StreamInfoParser::new();
    let r = p.parse(info(Some(0), "ok", Some("9999abc.flv?x=1")), PAGE).unwrap();
    assert_eq!(r.platform, Platform::Douyu);
    assert_eq!(r.title, "Evening show");
    assert_eq!(r.anchor, "Streamer");
    assert_eq!(r.room_id, 9999);
    assert_eq!(r.category, "Music");
    assert_eq!(r.links, vec!["https://hw.example/live/9999abc.flv?x=1".to_string()]);
}

#[test]
fn offline_room_yields_offline() {
    let p = StreamInfoParser::new();
    assert_eq!(
        p.parse(info(Some(0), "", None), PAGE),
        Err(LsarError::RoomState(RoomStateError::Offline))
    );
    assert_eq!(
        RoomInfoFetcher::classify_error_code(-5),
        Err(LsarError::RoomState(RoomStateError::Offline))
    );
    assert_eq!(
        RoomInfoFetcher::validate_room_info(&info(Some(1), "房间未开播", None)),
        Err(LsarError::RoomState(RoomStateError::Offline))
    );
}

#[test]
fn error_codes_and_messages() {
    assert_eq!(
        RoomInfoFetcher::classify_error_code(-15),
        Err(LsarError::Request(RequestError::BadRequest))
    );
    assert_eq!(RoomInfoFetcher::classify_error_code(3), Ok(()));
    assert_eq!(
        RoomInfoFetcher::validate_room_info(&info(Some(2), "非法请求", None)),
        Err(LsarError::Request(RequestError::BadRequest))
    );
    assert_eq!(RoomInfoFetcher::validate_room_info(&info(Some(2), "other", None)), Ok(()));
    assert_eq!(RoomInfoFetcher::validate_room_info(&info(Some(0), "房间未开播", None)), Ok(()));
    assert!(RoomInfoFetcher::needs_retry(r#"{"error":-1,"msg":"非法请求"}"#));
    assert!(!RoomInfoFetcher::needs_retry(r#"{"error":0}"#));
    assert_eq!(
        check_replay(Some(true)),
        Err(LsarError::RoomState(RoomStateError::IsReplay))
    );
    assert_eq!(check_replay(None), Ok(()));
}

#[test]
fn douyu_urls() {
    assert_eq!(room_page_url(9999), "https://www.douyu.com/9999");
    assert_eq!(replay_url(9999), "https://www.douyu.com/betard/9999");
    assert_eq!(
        play_url(9999, "v=1&sign=2"),
        "https://playweb.douyu.com/lapi/live/getH5Play/9999?v=1&sign=2"
    );
    assert_eq!(play_post_url(9999), "https://www.douyu.com/lapi/live/getH5Play/9999");
}
