//! Huya: the room id from the mobile page, the profile, an anonymous login,
//! and an anti-code computed for each stream.
use vstd::prelude::*;
use vstd::utf8::{decode_utf8, valid_utf8};

use crate::error::{LsarError, LsarResult, MissKeyFieldError, RoomStateError};
use crate::parsed::ParsedResult;
use crate::platform::Platform;
use crate::query::{
    collect_spec, insert_spec, lookup, parse_query, query_string_spec, remove_spec, Pairs,
};
use crate::text::{
    chars_of, decimal_of, decimal_string, find, find_spec, lemma_find_from_bounds, parse_u128,
    parse_u128_spec, push_decimal, push_range, push_str, replace_all, replace_spec, second_piece,
    second_piece_of, str_eq, string_of,
};
use crate::trusted::{
    base64_decoded, decode_base64, md5, md5_hex_of, query_pairs_of, random_u128, utf8_string,
};

verus! {

broadcast use vstd::string::group_string_axioms;

/// The mobile room page, followed by the room id.
pub const BASE_URL: &'static str = "https://m.huya.com/";

/// The profile endpoint, followed by the resolved room id.
pub const PROFILE_URL: &'static str = "https://mp.huya.com/cache.php?m=Live&do=profileRoom&roomid=";

/// The endpoint of the anonymous login.
pub const LOGIN_URL: &'static str = "https://udblgn.huya.com/web/anonymousLogin";

/// What precedes the embedded stream data in the room page.
pub const STREAM_MARKER: &'static str = "stream: ";

/// The key that follows the part of the stream data that is read.
pub const FRAME_RATE_MARKER: &'static str = ",\"iFrameRate\"";

/// The embedded stream data: the piece after the first stream marker, up
/// to the frame-rate key, closed with a brace.
pub open spec fn stream_info_spec(html: Seq<char>) -> Option<Seq<char>> {
    match second_piece(html, STREAM_MARKER@) {
        None => None,
        Some(seg) => match find_spec(seg, FRAME_RATE_MARKER@) {
            None => None,
            Some(c) => Some(seg.subrange(0, c) + "}"@),
        },
    }
}

pub struct HtmlParser;

impl HtmlParser {
    /// The embedded stream data of the room page, as JSON text.
    pub fn extract_stream_info(html: &str) -> (r: LsarResult<String>)
        ensures
            match stream_info_spec(html@) {
                Some(s) => r matches Ok(v) && v@ == s,
                None => r matches Err(LsarError::Other(m)) && m@ == "Failed to extract stream info"@,
            },
    {
        let t = chars_of(html);
        let m1 = chars_of(STREAM_MARKER);
        let m2 = chars_of(FRAME_RATE_MARKER);
        let seg = match second_piece_of(t.as_slice(), m1.as_slice()) {
            Some(s) => s,
            None => return Err(LsarError::other("Failed to extract stream info")),
        };
        let c = match find(seg.as_slice(), m2.as_slice()) {
            Some(c) => c,
            None => return Err(LsarError::other("Failed to extract stream info")),
        };
        proof {
            lemma_find_from_bounds(seg@, m2@, 0);
        }
        let mut out: Vec<char> = Vec::new();
        push_range(&mut out, seg.as_slice(), 0, c);
        push_str(&mut out, "}");
        Ok(string_of(out.as_slice()))
    }
}

/// The room id that the embedded stream data names, if any.
pub fn final_room_id(profile_room: Option<u64>) -> (r: LsarResult<u64>)
    ensures
        match profile_room {
            Some(id) => r == Ok::<u64, LsarError>(id),
            None => r == Err::<u64, LsarError>(LsarError::MissKeyField(MissKeyFieldError::RoomId)),
        },
{
    match profile_room {
        Some(id) => Ok(id),
        None => Err(LsarError::MissKeyField(MissKeyFieldError::RoomId)),
    }
}

/// The page that the room id is resolved from: the mobile page of the
/// given id, or else the given page.
pub fn page_url(room_id: Option<u64>, url: &str) -> (r: String)
    ensures
        match room_id {
            Some(id) => r@ == BASE_URL@ + decimal_of(id as nat),
            None => r@ == url@,
        },
{
    match room_id {
        Some(id) => {
            let mut out: Vec<char> = Vec::new();
            push_str(&mut out, BASE_URL);
            push_decimal(&mut out, id as u128);
            string_of(out.as_slice())
        },
        None => String::from_str(url),
    }
}

/// The profile endpoint of a resolved room.
pub fn profile_url(room_id: u64) -> (r: String)
    ensures
        r@ == PROFILE_URL@ + decimal_of(room_id as nat),
{
    let mut out: Vec<char> = Vec::new();
    push_str(&mut out, PROFILE_URL);
    push_decimal(&mut out, room_id as u128);
    string_of(out.as_slice())
}

/// The verdict on the profile's status: 200 goes on, 422 means the room
/// does not exist, and any other status fails with the server's message.
pub fn check_profile_status(status: i64, message: Option<&str>) -> (r: LsarResult<()>)
    ensures
        status == 200 ==> r is Ok,
        status == 422 ==> r == Err::<(), LsarError>(LsarError::RoomState(RoomStateError::NotExists)),
        status != 200 && status != 422 ==> (r matches Err(LsarError::Other(m)) && m@ == match message {
            Some(s) => s@,
            None => "Unknown error"@,
        }),
{
    if status == 200 {
        Ok(())
    } else if status == 422 {
        Err(LsarError::RoomState(RoomStateError::NotExists))
    } else {
        match message {
            Some(s) => Err(LsarError::other(s)),
            None => Err(LsarError::other("Unknown error")),
        }
    }
}

/// The verdict on the live status: `ON` goes on, `OFF` is offline, `REPLAY`
/// a replay; any other value is an unknown state.
pub fn classify_live_status(live_status: &str) -> (r: LsarResult<()>)
    ensures
        live_status@ == "ON"@ <==> r is Ok,
        live_status@ == "OFF"@ ==> r == Err::<(), LsarError>(
            LsarError::RoomState(RoomStateError::Offline),
        ),
        live_status@ == "REPLAY"@ ==> r == Err::<(), LsarError>(
            LsarError::RoomState(RoomStateError::IsReplay),
        ),
        live_status@ != "ON"@ && live_status@ != "OFF"@ && live_status@ != "REPLAY"@
            ==> (r matches Err(LsarError::Other(m)) && m@ == "Unknown live status"@),
{
    proof {
        reveal_strlit("ON");
        reveal_strlit("OFF");
        reveal_strlit("REPLAY");
        assert("ON"@.len() == 2);
        assert("OFF"@.len() == 3);
        assert("REPLAY"@.len() == 6);
    }
    if str_eq(live_status, "OFF") {
        Err(LsarError::RoomState(RoomStateError::Offline))
    } else if str_eq(live_status, "REPLAY") {
        Err(LsarError::RoomState(RoomStateError::IsReplay))
    } else if str_eq(live_status, "ON") {
        Ok(())
    } else {
        Err(LsarError::other("Unknown live status"))
    }
}

/// The session uid of the anonymous login reply, if it holds one.
pub fn anonymous_uid(uid: Option<String>) -> (r: LsarResult<String>)
    ensures
        match uid {
            Some(u) => r == Ok::<String, LsarError>(u),
            None => r matches Err(LsarError::Other(m)) && m@
                == "Failed to extract UID from response"@,
        },
{
    match uid {
        Some(u) => Ok(u),
        None => Err(LsarError::other("Failed to extract UID from response")),
    }
}

/// The body of the anonymous login request.
pub struct LoginRequest {
    pub app_id: i32,
    pub by_pass: i32,
    pub context: String,
    pub version: String,
    pub data: Vec<(String, String)>,
}

impl LoginRequest {
    pub fn new() -> (r: LoginRequest)
        ensures
            r.app_id == 5002,
            r.by_pass == 3,
            r.context@ == ""@,
            r.version@ == "2.4"@,
            r.data@.len() == 0,
    {
        LoginRequest {
            app_id: 5002,
            by_pass: 3,
            context: String::from_str(""),
            version: String::from_str("2.4"),
            data: Vec::new(),
        }
    }
}

/// One stream of the profile, with its FLV and HLS endpoints.
pub struct BaseSteamInfo {
    pub s_stream_name: String,
    pub s_flv_url: String,
    pub s_flv_anti_code: String,
    pub s_flv_url_suffix: String,
    pub s_hls_url: String,
    pub s_hls_anti_code: String,
    pub s_hls_url_suffix: String,
}

/// The metadata of the profile.
pub struct LiveData {
    pub nick: String,
    pub game_full_name: String,
    pub introduction: String,
}

/// The result of a room whose streams gave `links`.
pub fn build_result(room_id: u64, live_data: LiveData, links: Vec<String>) -> (r: ParsedResult)
    ensures
        r.platform == Platform::Huya,
        r.title == live_data.introduction,
        r.anchor == live_data.nick,
        r.room_id == room_id,
        r.category == live_data.game_full_name,
        r.links == links,
{
    ParsedResult {
        platform: Platform::Huya,
        title: live_data.introduction,
        anchor: live_data.nick,
        room_id,
        category: live_data.game_full_name,
        links,
    }
}

/// The decoded `fm` template with its four placeholders filled in.
pub open spec fn substitute_fm_spec(
    decoded: Seq<char>,
    uid: Seq<char>,
    stream_name: Seq<char>,
    ss: Seq<char>,
    ws_time: Seq<char>,
) -> Seq<char> {
    replace_spec(
        replace_spec(
            replace_spec(replace_spec(decoded, "$0"@, uid), "$1"@, stream_name),
            "$2"@,
            ss,
        ),
        "$3"@,
        ws_time,
    )
}

/// The `fm` template decoded from Base64 and UTF-8, with its placeholders
/// filled in; `None` where it does not decode.
pub open spec fn fm_spec(
    fm: Seq<char>,
    uid: Seq<char>,
    stream_name: Seq<char>,
    ss: Seq<char>,
    ws_time: Seq<char>,
) -> Option<Seq<char>> {
    match base64_decoded(fm) {
        Some(b) => if valid_utf8(b) {
            Some(substitute_fm_spec(decode_utf8(b), uid, stream_name, ss, ws_time))
        } else {
            None
        },
        None => None,
    }
}

pub struct AnticodeParser;

impl AnticodeParser {
    /// Fills the placeholders `$0`..`$3` of a decoded template with the uid,
    /// the stream name, `ss` and `wsTime`.
    pub fn substitute_fm(
        decoded: &str,
        uid: &str,
        stream_name: &str,
        ss: &str,
        ws_time: &str,
    ) -> (r: String)
        ensures
            r@ == substitute_fm_spec(decoded@, uid@, stream_name@, ss@, ws_time@),
    {
        proof {
            reveal_strlit("$0");
            reveal_strlit("$1");
            reveal_strlit("$2");
            reveal_strlit("$3");
        }
        let d = chars_of(decoded);
        let a = replace_all(d.as_slice(), chars_of("$0").as_slice(), chars_of(uid).as_slice());
        let b = replace_all(
            a.as_slice(),
            chars_of("$1").as_slice(),
            chars_of(stream_name).as_slice(),
        );
        let c = replace_all(b.as_slice(), chars_of("$2").as_slice(), chars_of(ss).as_slice());
        let e = replace_all(c.as_slice(), chars_of("$3").as_slice(), chars_of(ws_time).as_slice());
        string_of(e.as_slice())
    }

    /// Decodes the `fm` template and fills in its placeholders.
    pub fn parse_fm(fm: &str, uid: &str, stream_name: &str, ss: &str, ws_time: &str) -> (r:
        LsarResult<String>)
        ensures
            match fm_spec(fm@, uid@, stream_name@, ss@, ws_time@) {
                Some(s) => r matches Ok(v) && v@ == s,
                None => r matches Err(LsarError::Other(m)) && m@ == "Failed to decode fm"@,
            },
    {
        let bytes = match decode_base64(fm) {
            Some(b) => b,
            None => return Err(LsarError::other("Failed to decode fm")),
        };
        let decoded = match utf8_string(bytes) {
            Some(s) => s,
            None => return Err(LsarError::other("Failed to decode fm")),
        };
        Ok(AnticodeParser::substitute_fm(decoded.as_str(), uid, stream_name, ss, ws_time))
    }
}

/// The session uuid drawn from the time in milliseconds and a random number.
pub open spec fn uuid_of(now_millis: nat, random: nat) -> nat {
    ((now_millis % 10_000_000_000) * 1000 + random % 1000) % 4294967295
}

pub struct UuidGenerator;

impl UuidGenerator {
    /// The uuid for the time `now_millis` and the random number `random`.
    pub fn uuid_from(now_millis: u128, random: u128) -> (r: u128)
        ensures
            r == uuid_of(now_millis as nat, random as nat),
    {
        ((now_millis % 10_000_000_000) * 1000 + random % 1000) % 4294967295
    }

    /// A uuid for the time `now_millis`, with a freshly drawn random number.
    pub fn new_uuid(now_millis: u128) -> (r: u128)
        ensures
            exists|random: nat| r == uuid_of(now_millis as nat, random),
    {
        let random = random_u128();
        UuidGenerator::uuid_from(now_millis, random)
    }
}

/// Why an anti-code could not be computed.
#[derive(Debug, Clone, Copy, PartialEq, Eq, Structural)]
pub enum AnticodeFailure {
    Query,
    Uid,
    Overflow,
    MissingField,
    Fm,
}

/// The error that a failure is reported as.
pub open spec fn reports(e: LsarError, f: AnticodeFailure) -> bool {
    match f {
        AnticodeFailure::Query => e == LsarError::UrlParse,
        AnticodeFailure::Uid => e matches LsarError::Other(m) && m@ == "Invalid uid"@,
        AnticodeFailure::Overflow => e matches LsarError::Other(m) && m@ == "Sequence id out of range"@,
        AnticodeFailure::MissingField => e matches LsarError::Other(m) && m@
            == "Missing anticode field"@,
        AnticodeFailure::Fm => e matches LsarError::Other(m) && m@ == "Failed to decode fm"@,
    }
}

/// A result that stands for `spec`.
pub open spec fn anticode_result(r: LsarResult<String>, spec: Result<Seq<char>, AnticodeFailure>) -> bool {
    match spec {
        Ok(s) => r matches Ok(v) && v@ == s,
        Err(f) => r matches Err(e) && reports(e, f),
    }
}

/// The query with the protocol fields, the sequence id, the uid and the
/// uuid set.
pub open spec fn base_query_spec(pairs: Pairs, uid: Seq<char>, seq_id: Seq<char>, uuid: nat) -> Pairs {
    insert_spec(
        insert_spec(
            insert_spec(
                insert_spec(insert_spec(collect_spec(pairs), "ver"@, "1"@), "sv"@, "2110211124"@),
                "seqid"@,
                seq_id,
            ),
            "uid"@,
            uid,
        ),
        "uuid"@,
        decimal_of(uuid),
    )
}

/// The query with the secret set and `fm` and `txyp` dropped.
pub open spec fn finish_query_spec(q: Pairs, ws_secret: Seq<char>) -> Pairs {
    remove_spec(remove_spec(insert_spec(q, "wsSecret"@, ws_secret), "fm"@), "txyp"@)
}

/// The anti-code computed from the stream's own one, for the session `uid`,
/// at `now_millis`, with the random number `random`.
pub open spec fn anticode_spec(
    code: Seq<char>,
    uid: Seq<char>,
    stream_name: Seq<char>,
    now_millis: nat,
    random: nat,
) -> Result<Seq<char>, AnticodeFailure> {
    match query_pairs_of(code) {
        None => Err(AnticodeFailure::Query),
        Some(pairs) => match parse_u128_spec(uid) {
            None => Err(AnticodeFailure::Uid),
            Some(u) => if u + now_millis > u128::MAX {
                Err(AnticodeFailure::Overflow)
            } else {
                let seq_id = decimal_of((u + now_millis) as nat);
                let q = base_query_spec(pairs, uid, seq_id, uuid_of(now_millis, random));
                match (lookup(q, "ctype"@), lookup(q, "t"@), lookup(q, "fm"@), lookup(q, "wsTime"@)) {
                    (Some(ctype), Some(t), Some(fm), Some(ws_time)) => {
                        let ss = md5_hex_of(seq_id + "|"@ + ctype + "|"@ + t);
                        match fm_spec(fm, uid, stream_name, ss, ws_time) {
                            None => Err(AnticodeFailure::Fm),
                            Some(f) => Ok(query_string_spec(finish_query_spec(q, md5_hex_of(f)))),
                        }
                    },
                    _ => Err(AnticodeFailure::MissingField),
                }
            },
        },
    }
}

/// One link of a stream: `url/stream.suffix?anticode`.
pub open spec fn link_spec(url: Seq<char>, stream_name: Seq<char>, suffix: Seq<char>, anticode: Seq<
    char,
>) -> Seq<char> {
    url + "/"@ + stream_name + "."@ + suffix + "?"@ + anticode
}

/// The link of one endpoint of a stream: none where it has no anti-code or
/// its anti-code fails.
pub open spec fn endpoint_links(
    code: Seq<char>,
    url: Seq<char>,
    suffix: Seq<char>,
    stream_name: Seq<char>,
    uid: Seq<char>,
    now_millis: nat,
    random: nat,
) -> Seq<Seq<char>> {
    if code.len() == 0 {
        Seq::empty()
    } else {
        match anticode_spec(code, uid, stream_name, now_millis, random) {
            Ok(a) => seq![link_spec(url, stream_name, suffix, a)],
            Err(_) => Seq::empty(),
        }
    }
}

/// The FLV link, then the HLS link, of one stream.
pub open spec fn item_links(
    item: BaseSteamInfo,
    uid: Seq<char>,
    now_millis: nat,
    flv_random: nat,
    hls_random: nat,
) -> Seq<Seq<char>> {
    endpoint_links(
        item.s_flv_anti_code@,
        item.s_flv_url@,
        item.s_flv_url_suffix@,
        item.s_stream_name@,
        uid,
        now_millis,
        flv_random,
    ) + endpoint_links(
        item.s_hls_anti_code@,
        item.s_hls_url@,
        item.s_hls_url_suffix@,
        item.s_stream_name@,
        uid,
        now_millis,
        hls_random,
    )
}

/// The links of all streams in order, the streams drawing two random
/// numbers each from `randoms`.
pub open spec fn links_spec(items: Seq<BaseSteamInfo>, uid: Seq<char>, now_millis: nat, randoms: Seq<
    nat,
>) -> Seq<Seq<char>>
    decreases items.len(),
{
    if items.len() == 0 {
        Seq::empty()
    } else {
        let n = randoms.len();
        links_spec(items.drop_last(), uid, now_millis, randoms.subrange(0, n - 2)) + item_links(
            items.last(),
            uid,
            now_millis,
            randoms[n - 2],
            randoms[n - 1],
        )
    }
}

impl HuyaParser {
    /// The anti-code for the session `uid` at `now_millis`, with the random
    /// number `random`.
    pub fn anticode_with(
        code: &str,
        uid: &str,
        stream_name: &str,
        now_millis: u128,
        random: u128,
    ) -> (r: LsarResult<String>)
        ensures
            anticode_result(r, anticode_spec(code@, uid@, stream_name@, now_millis as nat, random as nat)),
    {
        proof {
            reveal_strlit("|");
        }
        let mut query = parse_query(code)?;
        let uid_chars = chars_of(uid);
        let uid_value = match parse_u128(uid_chars.as_slice()) {
            Some(u) => u,
            None => return Err(LsarError::other("Invalid uid")),
        };
        if uid_value > u128::MAX - now_millis {
            return Err(LsarError::other("Sequence id out of range"));
        }
        let seq_id = decimal_string(uid_value + now_millis);
        query.insert("ver", String::from_str("1"));
        query.insert("sv", String::from_str("2110211124"));
        query.insert("seqid", seq_id.clone());
        query.insert("uid", String::from_str(uid));
        let uuid = UuidGenerator::uuid_from(now_millis, random);
        query.insert("uuid", decimal_string(uuid));
        let ctype = query.get("ctype");
        let t = query.get("t");
        let fm = query.get("fm");
        let ws_time = query.get("wsTime");
        if ctype.is_none() || t.is_none() || fm.is_none() || ws_time.is_none() {
            return Err(LsarError::other("Missing anticode field"));
        }
        let ctype = ctype.unwrap();
        let t = t.unwrap();
        let fm = fm.unwrap();
        let ws_time = ws_time.unwrap();
        let mut ss_input: Vec<char> = Vec::new();
        push_str(&mut ss_input, seq_id.as_str());
        push_str(&mut ss_input, "|");
        push_str(&mut ss_input, ctype.as_str());
        push_str(&mut ss_input, "|");
        push_str(&mut ss_input, t.as_str());
        let ss = md5(string_of(ss_input.as_slice()).as_str());
        let f = AnticodeParser::parse_fm(fm.as_str(), uid, stream_name, ss.as_str(), ws_time.as_str())?;
        let ws_secret = md5(f.as_str());
        query.insert("wsSecret", ws_secret);
        query.remove("fm");
        query.remove("txyp");
        Ok(query.to_query_string())
    }

    /// The anti-code for the session `uid` at `now_millis`, with a freshly
    /// drawn random number.
    pub fn parse_anticode(code: &str, uid: &str, stream_name: &str, now_millis: u128) -> (r:
        LsarResult<String>)
        ensures
            exists|random: nat|
                anticode_result(r, #[trigger] anticode_spec(code@, uid@, stream_name@, now_millis as nat, random)),
    {
        let random = random_u128();
        HuyaParser::anticode_with(code, uid, stream_name, now_millis, random)
    }

    fn endpoint_link(
        code: &String,
        url: &String,
        suffix: &String,
        stream_name: &String,
        uid: &str,
        now_millis: u128,
        random: u128,
    ) -> (r: Option<String>)
        ensures
            match r {
                Some(l) => endpoint_links(code@, url@, suffix@, stream_name@, uid@, now_millis as nat, random as nat) == seq![l@],
                None => endpoint_links(code@, url@, suffix@, stream_name@, uid@, now_millis as nat, random as nat) == Seq::<Seq<char>>::empty(),
            },
    {
        if code.as_str().unicode_len() == 0 {
            return None;
        }
        match HuyaParser::anticode_with(code.as_str(), uid, stream_name.as_str(), now_millis, random) {
            Ok(a) => {
                let mut out: Vec<char> = Vec::new();
                push_str(&mut out, url.as_str());
                push_str(&mut out, "/");
                push_str(&mut out, stream_name.as_str());
                push_str(&mut out, ".");
                push_str(&mut out, suffix.as_str());
                push_str(&mut out, "?");
                push_str(&mut out, a.as_str());
                let l = string_of(out.as_slice());
                assert(l@ =~= link_spec(url@, stream_name@, suffix@, a@));
                Some(l)
            },
            Err(_) => None,
        }
    }

    /// The links of every stream whose anti-codes can be computed, FLV before
    /// HLS, in the order of the streams; failures are skipped.
    pub fn get_stream_links(items: &Vec<BaseSteamInfo>, uid: &str, now_millis: u128) -> (r: Vec<
        String,
    >)
        ensures
            exists|randoms: Seq<nat>|
                randoms.len() == 2 * items@.len() && r@.map_values(|s: String| s@)
                    == #[trigger] links_spec(items@, uid@, now_millis as nat, randoms),
    {
        let mut links: Vec<String> = Vec::new();
        let ghost mut randoms: Seq<nat> = Seq::empty();
        let mut i: usize = 0;
        while i < items.len()
            invariant
                i <= items@.len(),
                randoms.len() == 2 * i,
                links@.map_values(|s: String| s@) == links_spec(
                    items@.subrange(0, i as int),
                    uid@,
                    now_millis as nat,
                    randoms,
                ),
            decreases items@.len() - i,
        {
            let item = &items[i];
            let flv_random = random_u128();
            let hls_random = random_u128();
            let ghost before = links@.map_values(|s: String| s@);
            let ghost old_randoms = randoms;
            proof {
                randoms = randoms.push(flv_random as nat).push(hls_random as nat);
            }
            match HuyaParser::endpoint_link(
                &item.s_flv_anti_code,
                &item.s_flv_url,
                &item.s_flv_url_suffix,
                &item.s_stream_name,
                uid,
                now_millis,
                flv_random,
            ) {
                Some(l) => links.push(l),
                None => {},
            }
            match HuyaParser::endpoint_link(
                &item.s_hls_anti_code,
                &item.s_hls_url,
                &item.s_hls_url_suffix,
                &item.s_stream_name,
                uid,
                now_millis,
                hls_random,
            ) {
                Some(l) => links.push(l),
                None => {},
            }
            proof {
                let s = items@.subrange(0, i + 1);
                assert(s.drop_last() =~= items@.subrange(0, i as int));
                assert(randoms.subrange(0, randoms.len() - 2) =~= old_randoms);
                assert(links@.map_values(|s: String| s@) =~= before + item_links(
                    *item,
                    uid@,
                    now_millis as nat,
                    flv_random as nat,
                    hls_random as nat,
                ));
            }
            i = i + 1;
        }
        assert(items@.subrange(0, i as int) =~= items@);
        links
    }
}

/// The profile of a room, decoded.
pub struct HuyaProfile {
    pub live_data: LiveData,
    pub streams: Vec<BaseSteamInfo>,
}

/// The profile response: its status and message, its live status, and the
/// profile decoded, or why it could not be.
pub struct ProfileReply {
    pub status: i64,
    pub message: Option<String>,
    pub live_status: Option<String>,
    pub profile: Result<HuyaProfile, String>,
}

/// Where a Huya resolution stands: what it waits for next.
#[derive(Debug, Clone, Copy, PartialEq, Eq, Structural)]
pub enum HuyaStage {
    FetchPage,
    DecodeStreamInfo,
    FetchProfile,
    Login,
    Done,
}

/// What the caller is to do next.
pub enum HuyaAction {
    /// Fetch the page at this url, as text.
    FetchPage(String),
    /// Decode this JSON text and report its `data[0].gameLiveInfo.profileRoom`.
    DecodeStreamInfo(String),
    /// Fetch the profile at this url.
    FetchProfile(String),
    /// Post a `LoginRequest` to `LOGIN_URL` and report the `data.uid` of the
    /// reply, with the time in milliseconds.
    AnonymousLogin,
    /// The resolution is over.
    Finish(LsarResult<ParsedResult>),
}

/// What the caller reports back.
pub enum HuyaEvent {
    Page(String),
    ProfileRoom(Option<u64>),
    Profile(ProfileReply),
    Login { uid: Option<String>, now_millis: u128 },
    /// The last action failed.
    Failed(LsarError),
}

/// The verdict on a profile reply: its status, then its live status, then
/// its shape.
pub open spec fn profile_ok(reply: ProfileReply) -> bool {
    reply.status == 200 && (reply.live_status is Some && reply.live_status->0@ == "ON"@) && reply.profile is Ok
}

/// Whether a resolution at `stage` waits for an event of the kind of `event`.
pub open spec fn huya_awaits(stage: HuyaStage, event: HuyaEvent) -> bool {
    (stage == HuyaStage::FetchPage && event is Page) || (stage == HuyaStage::DecodeStreamInfo && event is ProfileRoom) || (stage == HuyaStage::FetchProfile && event is Profile) || (stage == HuyaStage::Login && event is Login)
}

/// One Huya resolution, driven by the caller one event at a time.
pub struct HuyaParser {
    pub room_id: u64,
    pub profile: Option<HuyaProfile>,
    pub stage: HuyaStage,
}

impl HuyaParser {
    /// A resolution of the room `room_id`, or else of the page `url`, and
    /// the action that starts it.
    pub fn new(room_id: Option<u64>, url: &str) -> (r: (HuyaParser, HuyaAction))
        ensures
            r.0.stage == HuyaStage::FetchPage,
            r.1 matches HuyaAction::FetchPage(u) && u@ == match room_id {
                Some(id) => BASE_URL@ + decimal_of(id as nat),
                None => url@,
            },
    {
        let p = HuyaParser { room_id: 0, profile: None, stage: HuyaStage::FetchPage };
        (p, HuyaAction::FetchPage(page_url(room_id, url)))
    }

    fn finish(&mut self, r: LsarResult<ParsedResult>) -> (a: HuyaAction)
        ensures
            final(self).stage == HuyaStage::Done,
            final(self).room_id == old(self).room_id,
            final(self).profile == old(self).profile,
            a == HuyaAction::Finish(r),
    {
        self.stage = HuyaStage::Done;
        HuyaAction::Finish(r)
    }

    /// The next action after `event`. A failed action ends the resolution
    /// with its error; an event that the stage does not wait for ends it as
    /// well.
    pub fn step(&mut self, event: HuyaEvent) -> (a: HuyaAction)
        ensures
            !(old(self).stage == HuyaStage::DecodeStreamInfo && event is ProfileRoom) ==> final(self).room_id
                == old(self).room_id,
            !(old(self).stage == HuyaStage::FetchProfile && event is Profile) && !(old(self).stage
                == HuyaStage::Login && event is Login) ==> final(self).profile == old(self).profile,
            !(event is Failed) && !huya_awaits(old(self).stage, event) ==> final(self).stage
                == HuyaStage::Done && (a matches HuyaAction::Finish(r) && r is Err),
            event matches HuyaEvent::Failed(e) ==> final(self).stage == HuyaStage::Done && a
                == HuyaAction::Finish(Err(e)),
            old(self).stage == HuyaStage::Done ==> final(self).stage == HuyaStage::Done && (a matches HuyaAction::Finish(r) && r is Err),
            old(self).stage == HuyaStage::FetchPage ==> match event {
                HuyaEvent::Page(html) => match stream_info_spec(html@) {
                    Some(j) => final(self).stage == HuyaStage::DecodeStreamInfo && (a matches HuyaAction::DecodeStreamInfo(v) && v@ == j),
                    None => final(self).stage == HuyaStage::Done && (a matches HuyaAction::Finish(Err(LsarError::Other(m)))
                        && m@ == "Failed to extract stream info"@),
                },
                _ => true,
            },
            old(self).stage == HuyaStage::DecodeStreamInfo ==> match event {
                HuyaEvent::ProfileRoom(Some(id)) => final(self).stage == HuyaStage::FetchProfile
                    && final(self).room_id == id && (a matches HuyaAction::FetchProfile(u) && u@
                    == PROFILE_URL@ + decimal_of(id as nat)),
                HuyaEvent::ProfileRoom(None) => final(self).stage == HuyaStage::Done && a
                    == HuyaAction::Finish(
                    Err(LsarError::MissKeyField(MissKeyFieldError::RoomId)),
                ),
                _ => true,
            },
            old(self).stage == HuyaStage::FetchProfile ==> match event {
                HuyaEvent::Profile(reply) => {
                    &&& reply.status == 422 ==> final(self).stage == HuyaStage::Done && a
                        == HuyaAction::Finish(Err(LsarError::RoomState(RoomStateError::NotExists)))
                    &&& reply.status != 200 && reply.status != 422 ==> final(self).stage == HuyaStage::Done
                        && (a matches HuyaAction::Finish(Err(LsarError::Other(m))) && m@ == match reply.message {
                            Some(s) => s@,
                            None => "Unknown error"@,
                        })
                    &&& reply.status == 200 && !(reply.live_status is Some && (reply.live_status->0@ == "ON"@
                        || reply.live_status->0@ == "OFF"@ || reply.live_status->0@ == "REPLAY"@))
                        ==> final(self).stage == HuyaStage::Done && (a matches HuyaAction::Finish(Err(LsarError::Other(m)))
                        && m@ == "Unknown live status"@)
                    &&& (reply.status == 200 && reply.live_status is Some && reply.live_status->0@ == "OFF"@)
                        ==> final(self).stage == HuyaStage::Done && a == HuyaAction::Finish(Err(LsarError::RoomState(RoomStateError::Offline)))
                    &&& (reply.status == 200 && reply.live_status is Some && reply.live_status->0@ == "REPLAY"@)
                        ==> final(self).stage == HuyaStage::Done && a == HuyaAction::Finish(Err(LsarError::RoomState(RoomStateError::IsReplay)))
                    &&& (reply.status == 200 && reply.live_status is Some && reply.live_status->0@ == "ON"@
                        && reply.profile is Err) ==> final(self).stage == HuyaStage::Done && a
                        == HuyaAction::Finish(Err(LsarError::SerdeJSON(reply.profile->Err_0)))
                    &&& profile_ok(reply) ==> final(self).stage == HuyaStage::Login && a
                        == HuyaAction::AnonymousLogin && final(self).room_id == old(self).room_id
                        && final(self).profile == Some(reply.profile->Ok_0)
                    &&& !profile_ok(reply) ==> final(self).stage == HuyaStage::Done && final(self).profile == old(self).profile
                        && (a matches HuyaAction::Finish(r) && r is Err)
                },
                _ => true,
            },
            old(self).stage == HuyaStage::Login ==> match event {
                HuyaEvent::Login { uid: None, now_millis: _ } => final(self).stage == HuyaStage::Done
                    && (a matches HuyaAction::Finish(Err(LsarError::Other(m))) && m@
                    == "Failed to extract UID from response"@),
                HuyaEvent::Login { uid: Some(uid), now_millis } => final(self).stage == HuyaStage::Done
                    && match old(self).profile {
                    Some(p) => a matches HuyaAction::Finish(Ok(res)) && res.platform == Platform::Huya
                        && res.room_id == old(self).room_id && res.title == p.live_data.introduction
                        && res.anchor == p.live_data.nick && res.category
                        == p.live_data.game_full_name && exists|randoms: Seq<nat>|
                        randoms.len() == 2 * p.streams@.len() && res.links@.map_values(
                        |s: String| s@,
                    ) == #[trigger] links_spec(p.streams@, uid@, now_millis as nat, randoms),
                    None => a matches HuyaAction::Finish(r) && r is Err,
                },
                _ => true,
            },
    {
        let stage = self.stage;
        match event {
            HuyaEvent::Failed(e) => self.finish(Err(e)),
            HuyaEvent::Page(html) => {
                if stage != HuyaStage::FetchPage {
                    return self.finish(Err(LsarError::other("Unexpected event")));
                }
                match HtmlParser::extract_stream_info(html.as_str()) {
                    Ok(j) => {
                        self.stage = HuyaStage::DecodeStreamInfo;
                        HuyaAction::DecodeStreamInfo(j)
                    },
                    Err(e) => self.finish(Err(e)),
                }
            },
            HuyaEvent::ProfileRoom(v) => {
                if stage != HuyaStage::DecodeStreamInfo {
                    return self.finish(Err(LsarError::other("Unexpected event")));
                }
                match final_room_id(v) {
                    Ok(id) => {
                        self.room_id = id;
                        self.stage = HuyaStage::FetchProfile;
                        HuyaAction::FetchProfile(profile_url(id))
                    },
                    Err(e) => self.finish(Err(e)),
                }
            },
            HuyaEvent::Profile(reply) => {
                if stage != HuyaStage::FetchProfile {
                    return self.finish(Err(LsarError::other("Unexpected event")));
                }
                let message = match &reply.message {
                    Some(m) => Some(m.as_str()),
                    None => None,
                };
                if let Err(e) = check_profile_status(reply.status, message) {
                    return self.finish(Err(e));
                }
                let live = match &reply.live_status {
                    Some(s) => s,
                    None => return self.finish(Err(LsarError::other("Unknown live status"))),
                };
                if let Err(e) = classify_live_status(live.as_str()) {
                    return self.finish(Err(e));
                }
                match reply.profile {
                    Ok(p) => {
                        self.profile = Some(p);
                        self.stage = HuyaStage::Login;
                        HuyaAction::AnonymousLogin
                    },
                    Err(m) => self.finish(Err(LsarError::SerdeJSON(m))),
                }
            },
            HuyaEvent::Login { uid, now_millis } => {
                if stage != HuyaStage::Login {
                    return self.finish(Err(LsarError::other("Unexpected event")));
                }
                let uid = match anonymous_uid(uid) {
                    Ok(u) => u,
                    Err(e) => return self.finish(Err(e)),
                };
                match self.profile.take() {
                    Some(p) => {
                        let links = HuyaParser::get_stream_links(&p.streams, uid.as_str(), now_millis);
                        let r = build_result(self.room_id, p.live_data, links);
                        self.finish(Ok(r))
                    },
                    None => self.finish(Err(LsarError::other("Unexpected event"))),
                }
            },
        }
    }
}

/// The anti-code depends on nothing but its inputs: two computations with
/// the same code, uid, stream name, time and random number agree, on
/// failure as on success.
pub proof fn lemma_anticode_deterministic(
    code: Seq<char>,
    uid: Seq<char>,
    stream_name: Seq<char>,
    now_millis: nat,
    random: nat,
    r1: LsarResult<String>,
    r2: LsarResult<String>,
)
    requires
        anticode_result(r1, anticode_spec(code, uid, stream_name, now_millis, random)),
        anticode_result(r2, anticode_spec(code, uid, stream_name, now_millis, random)),
    ensures
        r1 is Ok <==> r2 is Ok,
        r1 is Ok ==> r1->Ok_0@ == r2->Ok_0@,
{
}

} // verus!
