use lsar::bilibili::{
    BilibiliAction, BilibiliEvent, BilibiliParser, BilibiliStage, CDNItem, CodecItem, FormatItem,
    PlayUrl, PlayUrlInfo, Response, ResponseData, StreamItem,
};
use lsar::bilibili::PlayInfoReply as BilibiliPlayInfo;
use lsar::douyin::{
    DouyinAction, DouyinEvent, DouyinParser, DouyinStage, PartitionRoadMap, Resolution, RoomData,
    RoomInfo as DouyinRoomInfo, StreamData, StreamUrl, UserInfo,
};
use lsar::douyu::{
    DouyuAction, DouyuEvent, DouyuParser, DouyuStage, PlayInfoReply, RoomData as DouyuRoomData,
    RoomInfo as DouyuRoomInfo,
};
use lsar::error::{LsarError, RoomStateError};
use lsar::huya::{HuyaAction, HuyaEvent, HuyaParser, HuyaProfile, HuyaStage, LiveData, ProfileReply};
use lsar::platform::Platform;

const PAGE: &str = r#"<html><script>var $ROOM.room_id =9999;</script><script>var vdwdae325w_64we = "x";function ub98484234(xx0,xx1,xx2){var strc=xx0+xx1;return eval(strc)(xx0,xx1,xx2);}</script><h3 class="Title-header">Evening show</h3><div class="Title-anchorName" title="Streamer">x</div></html>"#;

const FIRST_REPLY: &str = r#"(function (a,b,c){var cb=a+b+c+"230119154620";var rb=CryptoJS.MD5(cb).toString();return "v=230119154620&did="+b+"&tt="+c+"&sign="+rb;})"#;

fn play_info(text: &str, live: Option<&str>) -> PlayInfoReply {
    PlayInfoReply {
        text: text.to_string(),
        error_code: 0,
        info: Ok(DouyuRoomInfo {
            error: Some(0),
            msg: "ok".to_string(),
            data: DouyuRoomData {
                rtmp_url: "https://hw.example/live".to_string(),
                rtmp_live: live.map(|s| s.to_string()),
            },
        }),
    }
}

#[test]
fn douyu_session_with_stubbed_evaluator() {
    let (mut p, a) = DouyuParser::new(100, 1_700_000_000);
    match a {
        DouyuAction::FetchPage(u) => assert_eq!(u, "https://www.douyu.com/100"),
        _ => panic!("expected the page"),
    }
    match p.step(DouyuEvent::Page(PAGE.to_string())) {
        DouyuAction::FetchReplayFlag(u) => assert_eq!(u, "https://www.douyu.com/betard/9999"),
        _ => panic!("expected the replay flag"),
    }
    match p.step(DouyuEvent::ReplayFlag(Some(false))) {
        DouyuAction::Eval(s) => assert!(s.ends_with(
            "return strc;}</script><h3 class=\"Title-header\">Evening show</h3><div class=\"Title-anchorName\" title=\"Streamer\">x</div></html>ub98484234(9999, 10000000000000000000000000001501, 1700000000)"
        ) || s.ends_with("return strc;}ub98484234(9999, 10000000000000000000000000001501, 1700000000)")),
        _ => panic!("expected the first evaluation"),
    }
    match p.step(DouyuEvent::EvalReply(FIRST_REPLY.to_string())) {
        DouyuAction::Eval(s) => assert_eq!(
            s,
            r#"(function (a,b,c){var cb=a+b+c+"230119154620";var rb="b154e08f47741f7db6f0de8685e3cb20";return "v=230119154620&did="+b+"&tt="+c+"&sign="+rb;})(9999, "10000000000000000000000000001501", 1700000000)"#
        ),
        _ => panic!("expected the second evaluation"),
    }
    let params = "v=230119154620&did=1&tt=1700000000&sign=abc";
    match p.step(DouyuEvent::EvalReply(params.to_string())) {
        DouyuAction::GetPlayInfo(u) => assert_eq!(
            u,
            format!("https://playweb.douyu.com/lapi/live/getH5Play/9999?{}", params)
        ),
        _ => panic!("expected the play info"),
    }
    assert_eq!(p.params, params);
    match p.step(DouyuEvent::PlayInfo(play_info(r#"{"msg":"非法请求"}"#, None))) {
        DouyuAction::PostPlayInfo { url, body } => {
            assert_eq!(url, "https://www.douyu.com/lapi/live/getH5Play/9999");
            assert_eq!(body, params);
        }
        _ => panic!("expected the retry"),
    }
    match p.step(DouyuEvent::PlayInfo(play_info("{}", Some("live.flv")))) {
        DouyuAction::Finish(Ok(r)) => {
            assert_eq!(r.platform, Platform::Douyu);
            assert_eq!(r.room_id, 9999);
            assert_eq!(r.title, "Evening show");
            assert_eq!(r.category, "");
            assert_eq!(r.links, vec!["https://hw.example/live/live.flv".to_string()]);
        }
        _ => panic!("expected the result"),
    }
    assert_eq!(p.stage, DouyuStage::Done);
}

#[test]
fn douyu_session_offline_and_replay() {
    let (mut p, _) = DouyuParser::new(100, 1);
    p.step(DouyuEvent::Page(PAGE.to_string()));
    match p.step(DouyuEvent::ReplayFlag(Some(true))) {
        DouyuAction::Finish(r) => assert_eq!(r, Err(LsarError::RoomState(RoomStateError::IsReplay))),
        _ => panic!("expected the end"),
    }
    let (mut q, _) = DouyuParser::new(100, 1);
    q.step(DouyuEvent::Page(PAGE.to_string()));
    q.step(DouyuEvent::ReplayFlag(None));
    q.step(DouyuEvent::EvalReply(FIRST_REPLY.to_string()));
    q.step(DouyuEvent::EvalReply("p".to_string()));
    let mut reply = play_info("{}", None);
    reply.error_code = -5;
    match q.step(DouyuEvent::PlayInfo(reply)) {
        DouyuAction::Finish(r) => assert_eq!(r, Err(LsarError::RoomState(RoomStateError::Offline))),
        _ => panic!("expected the end"),
    }
}

#[test]
fn douyu_session_reports_failures() {
    let (mut p, _) = DouyuParser::new(1, 1);
    match p.step(DouyuEvent::Failed(LsarError::Other("down".to_string()))) {
        DouyuAction::Finish(r) => assert_eq!(r, Err(LsarError::Other("down".to_string()))),
        _ => panic!("expected the end"),
    }
    let (mut q, _) = DouyuParser::new(1, 1);
    match q.step(DouyuEvent::EvalReply("x".to_string())) {
        DouyuAction::Finish(r) => assert!(r.is_err()),
        _ => panic!("expected the end"),
    }
}

fn profile(live_status: &str) -> ProfileReply {
    ProfileReply {
        status: 200,
        message: None,
        live_status: Some(live_status.to_string()),
        profile: Ok(HuyaProfile {
            live_data: LiveData {
                nick: "nick".to_string(),
                game_full_name: "game".to_string(),
                introduction: "intro".to_string(),
            },
            streams: vec![],
        }),
    }
}

#[test]
fn huya_session() {
    let (mut p, a) = HuyaParser::new(Some(520), "");
    match a {
        HuyaAction::FetchPage(u) => assert_eq!(u, "https://m.huya.com/520"),
        _ => panic!("expected the page"),
    }
    match p.step(HuyaEvent::Page("x stream: {\"data\":1,\"iFrameRate\":2}".to_string())) {
        HuyaAction::DecodeStreamInfo(j) => assert_eq!(j, "{\"data\":1}"),
        _ => panic!("expected the stream info"),
    }
    match p.step(HuyaEvent::ProfileRoom(Some(521))) {
        HuyaAction::FetchProfile(u) => assert!(u.ends_with("roomid=521")),
        _ => panic!("expected the profile"),
    }
    match p.step(HuyaEvent::Profile(profile("ON"))) {
        HuyaAction::AnonymousLogin => {}
        _ => panic!("expected the login"),
    }
    match p.step(HuyaEvent::Login { uid: Some("123".to_string()), now_millis: 5 }) {
        HuyaAction::Finish(Ok(r)) => {
            assert_eq!(r.platform, Platform::Huya);
            assert_eq!(r.room_id, 521);
            assert_eq!(r.title, "intro");
            assert_eq!(r.anchor, "nick");
            assert_eq!(r.category, "game");
            assert!(r.links.is_empty());
        }
        _ => panic!("expected the result"),
    }
    assert_eq!(p.stage, HuyaStage::Done);
}

#[test]
fn huya_session_offline() {
    let (mut p, _) = HuyaParser::new(Some(520), "");
    p.step(HuyaEvent::Page("stream: {,\"iFrameRate\"".to_string()));
    p.step(HuyaEvent::ProfileRoom(Some(520)));
    match p.step(HuyaEvent::Profile(profile("OFF"))) {
        HuyaAction::Finish(r) => assert_eq!(r, Err(LsarError::RoomState(RoomStateError::Offline))),
        _ => panic!("expected the end"),
    }
}

fn douyin_room(stream_url: Option<StreamUrl>) -> DouyinRoomInfo {
    DouyinRoomInfo {
        data: RoomData {
            data: vec![StreamData { status: 2, title: "t".to_string(), stream_url }],
            user: UserInfo { nickname: "n".to_string() },
            partition_road_map: PartitionRoadMap { partition: None, sub_partition: None },
        },
    }
}

#[test]
fn douyin_session() {
    let mut p = DouyinParser::new(77);
    match p.start() {
        DouyinAction::FetchCookies(u) => assert_eq!(u, "https://live.douyin.com/77"),
        _ => panic!("expected the first page"),
    }
    assert_eq!(p.client.header("upgrade-insecure-requests").unwrap(), "1");
    match p.step(DouyinEvent::Cookies("__ac_nonce=abc; path=/".to_string())) {
        DouyinAction::FetchCookies(u) => assert_eq!(u, "https://live.douyin.com/77"),
        _ => panic!("expected the second page"),
    }
    assert_eq!(p.client.header("cookie").unwrap(), "__ac_nonce=abc");
    match p.step(DouyinEvent::Cookies("ttwid=1%7Cx; path=/".to_string())) {
        DouyinAction::FetchRoomInfo(u) => assert!(u.ends_with("&web_rid=77")),
        _ => panic!("expected the room info"),
    }
    assert_eq!(p.client.header("cookie").unwrap(), "__ac_nonce=abc; ttwid=1%7Cx");
    let urls = StreamUrl {
        flv_pull_url: vec![(Resolution::Hd1, "f".to_string())],
        hls_pull_url_map: vec![],
    };
    match p.step(DouyinEvent::Info(douyin_room(Some(urls)))) {
        DouyinAction::Finish(Ok(r)) => assert_eq!(r.links, vec!["f".to_string(), String::new()]),
        _ => panic!("expected the result"),
    }
    assert_eq!(p.stage, DouyinStage::Done);
}

#[test]
fn douyin_session_offline() {
    let mut p = DouyinParser::new(77);
    p.start();
    p.step(DouyinEvent::Cookies("__ac_nonce=abc;".to_string()));
    p.step(DouyinEvent::Cookies("ttwid=x;".to_string()));
    match p.step(DouyinEvent::Info(douyin_room(None))) {
        DouyinAction::Finish(r) => assert_eq!(r, Err(LsarError::RoomState(RoomStateError::Offline))),
        _ => panic!("expected the end"),
    }
}

fn bilibili_response(live_status: i32) -> Response {
    Response {
        code: 0,
        message: "0".to_string(),
        data: ResponseData {
            live_status,
            playurl_info: PlayUrlInfo {
                playurl: PlayUrl {
                    stream: vec![StreamItem {
                        format: vec![FormatItem {
                            codec: vec![CodecItem {
                                base_url: "/b".to_string(),
                                url_info: vec![CDNItem { host: "h".to_string(), extra: "?e".to_string() }],
                            }],
                        }],
                    }],
                },
            },
        },
    }
}

#[test]
fn bilibili_session_resolves_room_id_from_page() {
    let mut p = BilibiliParser::new("SESSDATA=1".to_string(), 0, Some("https://live.bilibili.com/x".to_string()));
    match p.step(BilibiliEvent::Verified { code: 0, message: "0".to_string(), uname: Some("u".to_string()) }) {
        BilibiliAction::FetchPage(u) => assert_eq!(u, "https://live.bilibili.com/x"),
        _ => panic!("expected the page"),
    }
    match p.step(BilibiliEvent::Page(r#"{"roomid":33,"x":1}"#.to_string())) {
        BilibiliAction::FetchRoomInfo(u) => assert!(u.ends_with("room_id=33")),
        _ => panic!("expected the room info"),
    }
    match p.step(BilibiliEvent::RoomInfo {
        title: "t".to_string(),
        anchor: "a".to_string(),
        category: "c".to_string(),
    }) {
        BilibiliAction::FetchPlayInfo(u) => assert!(u.ends_with("room_id=33")),
        _ => panic!("expected the play info"),
    }
    match p.step(BilibiliEvent::PlayInfo(BilibiliPlayInfo { live_status: 1, response: Ok(bilibili_response(1)) })) {
        BilibiliAction::Finish(Ok(r)) => {
            assert_eq!(r.room_id, 33);
            assert_eq!(r.title, "t");
            assert_eq!(r.links, vec!["h/b?e".to_string()]);
        }
        _ => panic!("expected the result"),
    }
    assert_eq!(p.stage, BilibiliStage::Done);
}

#[test]
fn bilibili_session_offline() {
    let mut p = BilibiliParser::new("c".to_string(), 5, None);
    match p.step(BilibiliEvent::Verified { code: 0, message: "0".to_string(), uname: Some("u".to_string()) }) {
        BilibiliAction::FetchRoomInfo(u) => assert!(u.ends_with("room_id=5")),
        _ => panic!("expected the room info"),
    }
    p.step(BilibiliEvent::RoomInfo { title: String::new(), anchor: String::new(), category: String::new() });
    match p.step(BilibiliEvent::PlayInfo(BilibiliPlayInfo { live_status: 0, response: Ok(bilibili_response(0)) })) {
        BilibiliAction::Finish(r) => assert_eq!(r, Err(LsarError::RoomState(RoomStateError::Offline))),
        _ => panic!("expected the end"),
    }
}

#[test]
fn bilibili_session_passes_verification_error_on() {
    let mut p = BilibiliParser::new("c".to_string(), 5, None);
    match p.step(BilibiliEvent::Verified { code: -101, message: "账号未登录".to_string(), uname: None }) {
        BilibiliAction::Finish(r) => assert_eq!(
            r,
            Err(LsarError::Other("账号未登录，cookie 未设置或已失效".to_string()))
        ),
        _ => panic!("expected the end"),
    }
    assert_eq!(p.room_id, 5);
    assert_eq!(p.cookie, "c");
}

#[test]
fn bilibili_session_keeps_given_room_id() {
    let mut p = BilibiliParser::new("c".to_string(), 5, None);
    p.step(BilibiliEvent::Verified { code: 0, message: "0".to_string(), uname: Some("u".to_string()) });
    assert_eq!(p.room_id, 5);
    p.step(BilibiliEvent::RoomInfo { title: "t".to_string(), anchor: "a".to_string(), category: "c".to_string() });
    match p.step(BilibiliEvent::PlayInfo(BilibiliPlayInfo { live_status: 1, response: Ok(bilibili_response(1)) })) {
        BilibiliAction::Finish(Ok(r)) => {
            assert_eq!(r.room_id, 5);
            assert_eq!(r.anchor, "a");
            assert_eq!(r.category, "c");
        }
        _ => panic!("expected the result"),
    }
}

#[test]
fn huya_session_reports_exact_errors() {
    let (mut p, _) = HuyaParser::new(Some(1), "");
    match p.step(HuyaEvent::Page("nothing".to_string())) {
        HuyaAction::Finish(r) => assert_eq!(r, Err(LsarError::Other("Failed to extract stream info".to_string()))),
        _ => panic!("expected the end"),
    }
    let (mut q, _) = HuyaParser::new(Some(1), "");
    q.step(HuyaEvent::Page("stream: {,\"iFrameRate\"".to_string()));
    q.step(HuyaEvent::ProfileRoom(Some(1)));
    q.step(HuyaEvent::Profile(profile("ON")));
    match q.step(HuyaEvent::Login { uid: None, now_millis: 1 }) {
        HuyaAction::Finish(r) => assert_eq!(
            r,
            Err(LsarError::Other("Failed to extract UID from response".to_string()))
        ),
        _ => panic!("expected the end"),
    }
}

#[test]
fn douyin_session_reports_missing_nonce() {
    let mut p = DouyinParser::new(77);
    p.start();
    match p.step(DouyinEvent::Cookies("path=/".to_string())) {
        DouyinAction::Finish(r) => assert_eq!(
            r,
            Err(LsarError::Other("__ac_nonce not found in cookies".to_string()))
        ),
        _ => panic!("expected the end"),
    }
}
