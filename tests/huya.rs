use lsar::error::{LsarError, MissKeyFieldError, RoomStateError};
use lsar::huya::{
    check_profile_status, classify_live_status, final_room_id, page_url, profile_url,
    AnticodeParser, BaseSteamInfo, HtmlParser, HuyaParser, LoginRequest, UuidGenerator,
};

const STREAM_NAME: &str = "1394575534-1394575534-5989656310331736064-2789274524-10057-A-0-1";
const CODE: &str =
    "wsSecret=old&wsTime=6553c9c0&fm=RFdxOEJjSjNoNkRKdDZUWV8kMF8kMV8kMl8kMw==&ctype=huya_live&t=100&txyp=abc";

#[test]
fn anticode_is_deterministic_for_fixed_inputs() {
    let r = HuyaParser::anticode_with(CODE, "123456789012345", STREAM_NAME, 1_700_000_000_000, 0)
        .unwrap();
    assert_eq!(
        r,
        "wsSecret=08dc58b3f28c09be276beaab9d47b389&wsTime=6553c9c0&ctype=huya_live&t=100&ver=1&sv=2110211124&seqid=125156789012345&uid=123456789012345&uuid=0"
    );
    let again =
        HuyaParser::anticode_with(CODE, "123456789012345", STREAM_NAME, 1_700_000_000_000, 0)
            .unwrap();
    assert_eq!(r, again);
}

#[test]
fn anticode_failures() {
    assert_eq!(
        HuyaParser::anticode_with(CODE, "12ab", STREAM_NAME, 1, 0),
        Err(LsarError::Other("Invalid uid".to_string()))
    );
    assert_eq!(
        HuyaParser::anticode_with("wsTime=1&ctype=a&t=1", "1", STREAM_NAME, 1, 0),
        Err(LsarError::Other("Missing anticode field".to_string()))
    );
    assert_eq!(
        HuyaParser::anticode_with("wsTime=1&ctype=a&t=1&fm=@@@", "1", STREAM_NAME, 1, 0),
        Err(LsarError::Other("Failed to decode fm".to_string()))
    );
    assert_eq!(
        HuyaParser::anticode_with(
            CODE,
            "340282366920938463463374607431768211455",
            STREAM_NAME,
            1,
            0
        ),
        Err(LsarError::Other("Sequence id out of range".to_string()))
    );
}

#[test]
fn anticode_with_fresh_random_keeps_fixed_fields() {
    let r = HuyaParser::parse_anticode(CODE, "123456789012345", STREAM_NAME, 1_700_000_000_000)
        .unwrap();
    assert!(r.starts_with("wsSecret="));
    assert!(r.contains("&seqid=125156789012345&uid=123456789012345&uuid="));
    assert!(!r.contains("fm="));
    assert!(!r.contains("txyp="));
}

#[test]
fn uuid_formula() {
    assert_eq!(UuidGenerator::uuid_from(1_700_000_012_345, 7), 12_345_007);
    assert_eq!(UuidGenerator::uuid_from(9_999_999_999, 999), 1_316_137_239);
    assert_eq!(UuidGenerator::uuid_from(0, 1_005), 5);
    assert!(UuidGenerator::new_uuid(1_700_000_012_345) < 4_294_967_295);
}

#[test]
fn fm_placeholders_are_filled() {
    assert_eq!(
        AnticodeParser::substitute_fm("X_$0_$1_$2_$3", "u", "s", "ss", "w"),
        "X_u_s_ss_w"
    );
    assert_eq!(
        AnticodeParser::parse_fm("RFdxOEJjSjNoNkRKdDZUWV8kMF8kMV8kMl8kMw==", "u", "s", "x", "y")
            .unwrap(),
        "DWq8BcJ3h6DJt6TY_u_s_x_y"
    );
}

#[test]
fn stream_info_is_cut_from_page() {
    let html = r#"<script>window.HNF_GLOBAL_INIT = { stream: {"data":[{"gameLiveInfo":{"profileRoom":520}}],"iFrameRate":30}, other: 1 }</script>"#;
    assert_eq!(
        HtmlParser::extract_stream_info(html).unwrap(),
        r#"{"data":[{"gameLiveInfo":{"profileRoom":520}}]}"#
    );
    assert_eq!(
        HtmlParser::extract_stream_info("no marker here"),
        Err(LsarError::Other("Failed to extract stream info".to_string()))
    );
    assert!(HtmlParser::extract_stream_info("stream: {} stream: ,\"iFrameRate\"").is_err());
}

#[test]
fn room_id_and_urls() {
    assert_eq!(final_room_id(Some(520)), Ok(520));
    assert_eq!(
        final_room_id(None),
        Err(LsarError::MissKeyField(MissKeyFieldError::RoomId))
    );
    assert_eq!(page_url(Some(520), "ignored"), "https://m.huya.com/520");
    assert_eq!(page_url(None, "https://www.huya.com/abc"), "https://www.huya.com/abc");
    assert_eq!(
        profile_url(520),
        "https://mp.huya.com/cache.php?m=Live&do=profileRoom&roomid=520"
    );
}

#[test]
fn profile_status_and_live_status() {
    assert_eq!(check_profile_status(200, None), Ok(()));
    assert_eq!(
        check_profile_status(422, Some("x")),
        Err(LsarError::RoomState(RoomStateError::NotExists))
    );
    assert_eq!(
        check_profile_status(500, Some("busy")),
        Err(LsarError::Other("busy".to_string()))
    );
    assert_eq!(
        check_profile_status(500, None),
        Err(LsarError::Other("Unknown error".to_string()))
    );
    assert_eq!(classify_live_status("ON"), Ok(()));
    assert_eq!(
        classify_live_status("OFF"),
        Err(LsarError::RoomState(RoomStateError::Offline))
    );
    assert_eq!(
        classify_live_status("REPLAY"),
        Err(LsarError::RoomState(RoomStateError::IsReplay))
    );
    assert!(classify_live_status("FROZEN").is_err());
}

fn item(flv_code: &str, hls_code: &str) -> BaseSteamInfo {
    BaseSteamInfo {
        s_stream_name: STREAM_NAME.to_string(),
        s_flv_url: "https://flv.example".to_string(),
        s_flv_anti_code: flv_code.to_string(),
        s_flv_url_suffix: "flv".to_string(),
        s_hls_url: "https://hls.example".to_string(),
        s_hls_anti_code: hls_code.to_string(),
        s_hls_url_suffix: "m3u8".to_string(),
    }
}

#[test]
fn stream_links_skip_empty_and_failing_codes() {
    let items = vec![item(CODE, ""), item("", "wsTime=1"), item("", CODE)];
    let links = HuyaParser::get_stream_links(&items, "123456789012345", 1_700_000_000_000);
    assert_eq!(links.len(), 2);
    assert!(links[0].starts_with(&format!("https://flv.example/{}.flv?wsSecret=", STREAM_NAME)));
    assert!(links[1].starts_with(&format!("https://hls.example/{}.m3u8?wsSecret=", STREAM_NAME)));
    assert!(HuyaParser::get_stream_links(&vec![], "1", 1).is_empty());
}

#[test]
fn login_request_fields() {
    let r = LoginRequest::new();
    assert_eq!(r.app_id, 5002);
    assert_eq!(r.by_pass, 3);
    assert_eq!(r.context, "");
    assert_eq!(r.version, "2.4");
    assert!(r.data.is_empty());
}
