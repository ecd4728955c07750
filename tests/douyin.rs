use lsar::douyin::{
    category, get_ac_nonce, get_ttwid, nonce_cookie, parse_room_id, pick_url, session_cookie,
    DouyinParser, Partition, PartitionRoadMap, Resolution, RoomData, RoomInfo, StreamData,
    StreamUrl, SubPartition, UserInfo,
};
use lsar::error::{LsarError, RoomStateError};
use lsar::platform::Platform;

fn urls(entries: &[(Resolution, &str)]) -> Vec<(Resolution, String)> {
    entries.iter().map(|(r, u)| (*r, u.to_string())).collect()
}

#[test]
fn resolution_order() {
    assert_eq!(pick_url(&urls(&[(Resolution::Hd1, "hd")])), "hd");
    assert_eq!(
        pick_url(&urls(&[(Resolution::Hd1, "hd"), (Resolution::FullHd1, "full")])),
        "full"
    );
    assert_eq!(
        pick_url(&urls(&[(Resolution::FullHd1, "full"), (Resolution::Hd1, "hd")])),
        "full"
    );
    assert_eq!(pick_url(&urls(&[(Resolution::Sd1, "sd")])), "");
    assert_eq!(pick_url(&urls(&[])), "");
}

fn road_map(sub: Option<&str>, top: Option<&str>) -> PartitionRoadMap {
    PartitionRoadMap {
        partition: top.map(|t| Partition { title: t.to_string() }),
        sub_partition: sub.map(|t| SubPartition {
            partition: Partition { title: t.to_string() },
        }),
    }
}

#[test]
fn category_order() {
    assert_eq!(category(&road_map(Some("sub"), Some("top"))), "sub");
    assert_eq!(category(&road_map(None, Some("top"))), "top");
    assert_eq!(category(&road_map(None, None)), "");
}

fn room(stream_url: Option<StreamUrl>) -> RoomInfo {
    RoomInfo {
        data: RoomData {
            data: vec![StreamData {
                status: 2,
                title: "title".to_string(),
                stream_url,
            }],
            user: UserInfo {
                nickname: "nick".to_string(),
            },
            partition_road_map: road_map(None, Some("games")),
        },
    }
}

#[test]
fn room_info_is_parsed() {
    let parser = DouyinParser::new(123);
    assert_eq!(parser.room_url, "https://live.douyin.com/123");
    let r = parser
        .parse_room_info(room(Some(StreamUrl {
            flv_pull_url: urls(&[(Resolution::Hd1, "flv-hd"), (Resolution::FullHd1, "flv-full")]),
            hls_pull_url_map: urls(&[(Resolution::Hd1, "hls-hd")]),
        })))
        .unwrap();
    assert_eq!(r.platform, Platform::Douyin);
    assert_eq!(r.title, "title");
    assert_eq!(r.anchor, "nick");
    assert_eq!(r.room_id, 123);
    assert_eq!(r.category, "games");
    assert_eq!(r.links, vec!["flv-full".to_string(), "hls-hd".to_string()]);
}

#[test]
fn offline_room_yields_offline_douyin() {
    let parser = DouyinParser::new(123);
    assert_eq!(
        parser.parse_room_info(room(None)),
        Err(LsarError::RoomState(RoomStateError::Offline))
    );
}

#[test]
fn cookies_from_headers() {
    let set_cookie = "__ac_nonce=0123456789abcdef; Path=/; ttwid=1%7Cabc; HttpOnly";
    assert_eq!(get_ac_nonce(set_cookie).unwrap(), "0123456789abcdef");
    assert_eq!(get_ttwid(set_cookie).unwrap(), "1%7Cabc");
    assert_eq!(
        get_ttwid("__ac_nonce=x;"),
        Err(LsarError::Other("ttwid not found in cookies".to_string()))
    );
    assert_eq!(nonce_cookie("n"), "__ac_nonce=n");
    assert_eq!(session_cookie("n", "t"), "__ac_nonce=n; ttwid=t");
}

#[test]
fn douyin_room_ids_and_urls() {
    assert_eq!(parse_room_id("646454278948"), Ok(646454278948));
    assert!(parse_room_id("abc").is_err());
    let parser = DouyinParser::new(7);
    assert!(parser.room_info_url().ends_with("&web_rid=7"));
}
