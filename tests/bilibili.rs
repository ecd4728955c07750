use lsar::bilibili::{
    verify_cookie, BilibiliParser, CDNItem, CodecItem, FormatItem, LinkParser, PlayUrl,
    PlayUrlInfo, Response, ResponseData, RoomPlayInfoFetcher, StreamItem,
};
use lsar::error::{LsarError, RoomStateError};
use lsar::platform::Platform;

fn response(streams: Vec<StreamItem>) -> Response {
    Response {
        code: 0,
        message: "0".to_string(),
        data: ResponseData {
            live_status: 1,
            playurl_info: PlayUrlInfo {
                playurl: PlayUrl { stream: streams },
            },
        },
    }
}

fn tree() -> Vec<StreamItem> {
    let mut streams = Vec::new();
    for s in 0..2 {
        let mut formats = Vec::new();
        for f in 0..2 {
            let mut codecs = Vec::new();
            for c in 0..2 {
                let hosts = (0..2)
                    .map(|h| CDNItem {
                        host: format!("h{}", h),
                        extra: format!("?e{}", h),
                    })
                    .collect();
                codecs.push(CodecItem {
                    base_url: format!("/s{}f{}c{}", s, f, c),
                    url_info: hosts,
                });
            }
            formats.push(FormatItem { codec: codecs });
        }
        streams.push(StreamItem { format: formats });
    }
    streams
}

#[test]
fn link_count_and_order() {
    let links = LinkParser::new().parse(&response(tree()));
    assert_eq!(links.len(), 16);
    assert_eq!(links[0], "h0/s0f0c0?e0");
    assert_eq!(links[1], "h1/s0f0c0?e1");
    assert_eq!(links[2], "h0/s0f0c1?e0");
    assert_eq!(links[4], "h0/s0f1c0?e0");
    assert_eq!(links[8], "h0/s1f0c0?e0");
    assert_eq!(links[15], "h1/s1f1c1?e1");
}

#[test]
fn uneven_tree_counts_hosts() {
    let streams = vec![
        StreamItem {
            format: vec![FormatItem {
                codec: vec![
                    CodecItem {
                        base_url: "/a".to_string(),
                        url_info: vec![],
                    },
                    CodecItem {
                        base_url: "/b".to_string(),
                        url_info: vec![
                            CDNItem {
                                host: "x".to_string(),
                                extra: "1".to_string(),
                            },
                            CDNItem {
                                host: "x".to_string(),
                                extra: "1".to_string(),
                            },
                        ],
                    },
                ],
            }],
        },
        StreamItem { format: vec![] },
    ];
    let links = LinkParser::new().parse(&response(streams));
    assert_eq!(links, vec!["x/b1".to_string(), "x/b1".to_string()]);
    assert!(LinkParser::new().parse(&response(vec![])).is_empty());
}

#[test]
fn room_id_from_page() {
    let p = BilibiliParser::new("c".to_string(), 0, None);
    assert_eq!(p.page_url, "https://live.bilibili.com/0");
    assert_eq!(
        p.parse_room_id(r#"{"roomid":5,"defaultRoomId":"21452505","x":1}"#),
        Ok(21452505)
    );
    assert_eq!(p.parse_room_id(r#"{"roomid":7,"uid":1}"#), Ok(7));
    assert_eq!(p.parse_room_id(r#"{"roomId":8,"uid":1}"#), Ok(8));
    assert_eq!(
        p.parse_room_id("nothing"),
        Err(LsarError::Other("Failed to parse room ID".to_string()))
    );
    assert_eq!(
        p.parse_room_id(r#"{"roomid":"x","roomId":8}"#),
        Err(LsarError::Other("Failed to parse room ID".to_string()))
    );
    let q = BilibiliParser::new("c".to_string(), 3, Some("https://live.bilibili.com/blanc/3".to_string()));
    assert_eq!(q.page_url, "https://live.bilibili.com/blanc/3");
}

#[test]
fn offline_room_yields_offline_bilibili() {
    assert_eq!(
        RoomPlayInfoFetcher::check_live_status(0),
        Err(LsarError::RoomState(RoomStateError::Offline))
    );
    assert_eq!(RoomPlayInfoFetcher::check_live_status(1), Ok(()));
}

#[test]
fn play_info_response_checks() {
    let mut r = response(vec![]);
    assert_eq!(RoomPlayInfoFetcher::check_response(&r), Ok(()));
    r.code = -400;
    r.message = "bad".to_string();
    assert_eq!(
        RoomPlayInfoFetcher::check_response(&r),
        Err(LsarError::Other("Room play info request unsuccessful: bad".to_string()))
    );
    r.code = 0;
    r.data.live_status = 0;
    assert_eq!(
        RoomPlayInfoFetcher::check_response(&r),
        Err(LsarError::Other("Stream is not live".to_string()))
    );
}

#[test]
fn cookie_verification() {
    assert_eq!(verify_cookie(0, "0", Some("user".to_string())), Ok("user".to_string()));
    assert_eq!(
        verify_cookie(-101, "账号未登录", None),
        Err(LsarError::Other("账号未登录，cookie 未设置或已失效".to_string()))
    );
    assert_eq!(
        verify_cookie(-101, "other", None),
        Err(LsarError::Other("Cookie verification failed: other".to_string()))
    );
    assert_eq!(
        verify_cookie(0, "0", None),
        Err(LsarError::Other("Username not found in verification response".to_string()))
    );
}

#[test]
fn result_is_built() {
    let p = BilibiliParser::new("c".to_string(), 42, None);
    let r = p.build_result("t".to_string(), "a".to_string(), "c".to_string(), &response(tree()));
    assert_eq!(r.platform, Platform::Bilibili);
    assert_eq!(r.room_id, 42);
    assert_eq!(r.links.len(), 16);
    assert_eq!(
        BilibiliParser::room_info_url(42),
        "https://api.live.bilibili.com/xlive/web-room/v1/index/getInfoByRoom?room_id=42"
    );
    assert!(BilibiliParser::play_info_url(42).ends_with("&room_id=42"));
}
