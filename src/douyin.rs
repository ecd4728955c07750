//! Douyin: a two-step cookie handshake, then the room info, from which the
//! best FLV and HLS urls are picked.
use vstd::prelude::*;

use crate::error::{LsarError, LsarResult, RoomStateError};
use crate::http_client::{HttpClient, COOKIE, UPGRADE_INSECURE_REQUESTS};
use crate::query::insert_spec;
use crate::trusted::header_value_ok;
use crate::parsed::ParsedResult;
use crate::platform::Platform;
use crate::text::{chars_of, decimal_of, parse_u64, parse_u64_spec, push_decimal, push_str, string_of};
use crate::trusted::{regex_capture, regex_capture_of};

verus! {

broadcast use vstd::string::group_string_axioms;

/// The room page, followed by the room id.
pub const ROOM_URL: &'static str = "https://live.douyin.com/";

/// The room-info endpoint, followed by the room id.
pub const ROOM_INFO_URL: &'static str = "https://live.douyin.com/webcast/room/web/enter/?aid=6383&app_name=douyin_web&live_id=1&device_platform=web&language=zh-CN&enter_from=web_live&cookie_enabled=true&screen_width=1728&screen_height=1117&browser_language=zh-CN&browser_platform=MacIntel&browser_name=Chrome&browser_version=116.0.0.0&web_rid=";

/// The nonce cookie in a `Set-Cookie` header.
pub const AC_NONCE_PATTERN: &'static str = "__ac_nonce=(.*?);";

/// The `ttwid` cookie in a `Set-Cookie` header.
pub const TTWID_PATTERN: &'static str = "ttwid=(.*?);";

/// A stream quality.
#[derive(Debug, Clone, Copy, PartialEq, Eq, Structural)]
pub enum Resolution {
    FullHd1,
    Hd1,
    Sd1,
    Sd2,
}

/// The urls of a live stream, by quality.
pub struct StreamUrl {
    pub flv_pull_url: Vec<(Resolution, String)>,
    pub hls_pull_url_map: Vec<(Resolution, String)>,
}

pub struct StreamData {
    pub status: u8,
    pub title: String,
    pub stream_url: Option<StreamUrl>,
}

pub struct UserInfo {
    pub nickname: String,
}

pub struct Partition {
    pub title: String,
}

pub struct SubPartition {
    pub partition: Partition,
}

pub struct PartitionRoadMap {
    pub partition: Option<Partition>,
    pub sub_partition: Option<SubPartition>,
}

pub struct RoomData {
    pub data: Vec<StreamData>,
    pub user: UserInfo,
    pub partition_road_map: PartitionRoadMap,
}

/// The room-info response.
pub struct RoomInfo {
    pub data: RoomData,
}

/// The url of the first entry of quality `k`.
pub open spec fn url_of(m: Seq<(Resolution, String)>, k: Resolution) -> Option<Seq<char>>
    decreases m.len(),
{
    if m.len() == 0 {
        None
    } else if m[0].0 == k {
        Some(m[0].1@)
    } else {
        url_of(m.drop_first(), k)
    }
}

/// No quality stands in two entries.
pub open spec fn resolutions_unique(m: Seq<(Resolution, String)>) -> bool {
    forall|i: int, j: int| 0 <= i < j < m.len() ==> m[i].0 != m[j].0
}

impl StreamUrl {
    /// Each map holds a quality at most once, as a JSON object does.
    pub open spec fn wf(&self) -> bool {
        resolutions_unique(self.flv_pull_url@) && resolutions_unique(self.hls_pull_url_map@)
    }
}

/// In a map that holds each quality at most once, the url of a quality is
/// the one of its entry, wherever that entry stands.
pub proof fn lemma_url_of_entry(m: Seq<(Resolution, String)>, i: int)
    requires
        resolutions_unique(m),
        0 <= i < m.len(),
    ensures
        url_of(m, m[i].0) == Some(m[i].1@),
    decreases m.len(),
{
    if i > 0 {
        let t = m.drop_first();
        assert(m[0].0 != m[i].0);
        assert forall|a: int, b: int| 0 <= a < b < t.len() implies t[a].0 != t[b].0 by {
            assert(t[a] == m[a + 1] && t[b] == m[b + 1]);
        }
        assert(t[i - 1] == m[i]);
        lemma_url_of_entry(t, i - 1);
    }
}

/// The full-HD url, else the HD url, else an empty text.
pub open spec fn preferred_url(m: Seq<(Resolution, String)>) -> Seq<char> {
    match url_of(m, Resolution::FullHd1) {
        Some(u) => u,
        None => match url_of(m, Resolution::Hd1) {
            Some(u) => u,
            None => Seq::empty(),
        },
    }
}

/// The sub-partition's title, else the partition's, else an empty text.
pub open spec fn category_spec(p: PartitionRoadMap) -> Seq<char> {
    match p.sub_partition {
        Some(sp) => sp.partition.title@,
        None => match p.partition {
            Some(pt) => pt.title@,
            None => Seq::empty(),
        },
    }
}

fn find_url(m: &Vec<(Resolution, String)>, k: Resolution) -> (r: Option<&String>)
    ensures
        match r {
            Some(u) => url_of(m@, k) == Some(u@),
            None => url_of(m@, k) is None,
        },
{
    let mut i: usize = 0;
    assert(m@.subrange(0, m@.len() as int) =~= m@);
    while i < m.len()
        invariant
            i <= m@.len(),
            url_of(m@, k) == url_of(m@.subrange(i as int, m@.len() as int), k),
        decreases m@.len() - i,
    {
        let ghost rest = m@.subrange(i as int, m@.len() as int);
        assert(rest.drop_first() =~= m@.subrange(i + 1, m@.len() as int));
        if m[i].0 == k {
            return Some(&m[i].1);
        }
        i = i + 1;
    }
    None
}

/// The full-HD url, else the HD url, else an empty text.
pub fn pick_url(m: &Vec<(Resolution, String)>) -> (r: String)
    ensures
        r@ == preferred_url(m@),
{
    match find_url(m, Resolution::FullHd1) {
        Some(u) => u.clone(),
        None => match find_url(m, Resolution::Hd1) {
            Some(u) => u.clone(),
            None => String::new(),
        },
    }
}

/// The category of the room.
pub fn category(p: &PartitionRoadMap) -> (r: String)
    ensures
        r@ == category_spec(*p),
{
    match &p.sub_partition {
        Some(sp) => sp.partition.title.clone(),
        None => match &p.partition {
            Some(pt) => pt.title.clone(),
            None => String::new(),
        },
    }
}

/// `__ac_nonce` in the `Set-Cookie` header of the first page.
pub fn get_ac_nonce(cookies: &str) -> (r: LsarResult<String>)
    ensures
        match regex_capture_of(AC_NONCE_PATTERN@, cookies@, 1) {
            Some(Some(s)) => r matches Ok(v) && v@ == s,
            Some(None) => r matches Err(LsarError::Other(m)) && m@ == "__ac_nonce not found in cookies"@,
            None => r matches Err(LsarError::Regex(_)),
        },
{
    match regex_capture(AC_NONCE_PATTERN, cookies, 1) {
        Ok(Some(s)) => Ok(s),
        Ok(None) => Err(LsarError::other("__ac_nonce not found in cookies")),
        Err(e) => Err(LsarError::Regex(e)),
    }
}

/// `ttwid` in the `Set-Cookie` header of the second page.
pub fn get_ttwid(cookies: &str) -> (r: LsarResult<String>)
    ensures
        match regex_capture_of(TTWID_PATTERN@, cookies@, 1) {
            Some(Some(s)) => r matches Ok(v) && v@ == s,
            Some(None) => r matches Err(LsarError::Other(m)) && m@ == "ttwid not found in cookies"@,
            None => r matches Err(LsarError::Regex(_)),
        },
{
    match regex_capture(TTWID_PATTERN, cookies, 1) {
        Ok(Some(s)) => Ok(s),
        Ok(None) => Err(LsarError::other("ttwid not found in cookies")),
        Err(e) => Err(LsarError::Regex(e)),
    }
}

/// The cookie sent for the second page.
pub fn nonce_cookie(ac_nonce: &str) -> (r: String)
    ensures
        r@ == "__ac_nonce="@ + ac_nonce@,
{
    let mut out: Vec<char> = Vec::new();
    push_str(&mut out, "__ac_nonce=");
    push_str(&mut out, ac_nonce);
    string_of(out.as_slice())
}

/// The cookie sent for the room info.
pub fn session_cookie(ac_nonce: &str, ttwid: &str) -> (r: String)
    ensures
        r@ == "__ac_nonce="@ + ac_nonce@ + "; ttwid="@ + ttwid@,
{
    let mut out: Vec<char> = Vec::new();
    push_str(&mut out, "__ac_nonce=");
    push_str(&mut out, ac_nonce);
    push_str(&mut out, "; ttwid=");
    push_str(&mut out, ttwid);
    string_of(out.as_slice())
}

/// A room id given as text.
pub fn parse_room_id(input: &str) -> (r: LsarResult<u64>)
    ensures
        match parse_u64_spec(input@) {
            Some(v) => r == Ok::<u64, LsarError>(v),
            None => r matches Err(LsarError::Other(m)) && m@ == "Invalid room id"@,
        },
{
    match parse_u64(chars_of(input).as_slice()) {
        Some(v) => Ok(v),
        None => Err(LsarError::other("Invalid room id")),
    }
}

/// Where a Douyin resolution stands: what it waits for next.
#[derive(Debug, Clone, Copy, PartialEq, Eq, Structural)]
pub enum DouyinStage {
    /// Waits for the `Set-Cookie` header of the first page.
    NonceCookie,
    /// Waits for the `Set-Cookie` header of the second page.
    TtwidCookie,
    /// Waits for the room info.
    RoomInfo,
    Done,
}

/// What the caller is to do next, with the session's headers.
pub enum DouyinAction {
    /// GET the page at this url and report its `Set-Cookie` header.
    FetchCookies(String),
    /// GET the room info at this url.
    FetchRoomInfo(String),
    /// The resolution is over.
    Finish(LsarResult<ParsedResult>),
}

/// What the caller reports back.
pub enum DouyinEvent {
    Cookies(String),
    Info(RoomInfo),
    /// The last action failed.
    Failed(LsarError),
}

/// Whether a resolution at `stage` waits for an event of the kind of `event`.
pub open spec fn douyin_awaits(stage: DouyinStage, event: DouyinEvent) -> bool {
    (stage == DouyinStage::NonceCookie && event is Cookies) || (stage == DouyinStage::TtwidCookie && event is Cookies) || (stage == DouyinStage::RoomInfo && event is Info)
}

/// One Douyin resolution, driven by the caller one event at a time.
pub struct DouyinParser {
    pub room_id: u64,
    pub room_url: String,
    pub client: HttpClient,
    pub ac_nonce: String,
    pub stage: DouyinStage,
}

impl DouyinParser {
    pub fn new(room_id: u64) -> (r: DouyinParser)
        ensures
            r.room_id == room_id,
            r.room_url@ == ROOM_URL@ + decimal_of(room_id as nat),
    {
        let mut out: Vec<char> = Vec::new();
        push_str(&mut out, ROOM_URL);
        push_decimal(&mut out, room_id as u128);
        DouyinParser {
            room_id,
            room_url: string_of(out.as_slice()),
            client: HttpClient::new(),
            ac_nonce: String::new(),
            stage: DouyinStage::NonceCookie,
        }
    }

    /// The action that starts the resolution: the first page, asked with
    /// the upgrade header set.
    pub fn start(&mut self) -> (a: DouyinAction)
        ensures
            final(self).room_id == old(self).room_id,
            final(self).room_url == old(self).room_url,
            final(self).stage == DouyinStage::NonceCookie,
            final(self).client@ == insert_spec(old(self).client@, UPGRADE_INSECURE_REQUESTS@, "1"@),
            a matches DouyinAction::FetchCookies(u) && u@ == old(self).room_url@,
    {
        proof {
            reveal_strlit("1");
            assert("1"@.len() == 1);
            assert(header_value_ok("1"@));
        }
        let _ = self.client.insert_header(UPGRADE_INSECURE_REQUESTS, "1");
        self.stage = DouyinStage::NonceCookie;
        DouyinAction::FetchCookies(self.room_url.clone())
    }

    fn finish(&mut self, r: LsarResult<ParsedResult>) -> (a: DouyinAction)
        ensures
            final(self).stage == DouyinStage::Done,
            final(self).room_id == old(self).room_id,
            final(self).room_url == old(self).room_url,
            final(self).ac_nonce == old(self).ac_nonce,
            final(self).client == old(self).client,
            a == DouyinAction::Finish(r),
    {
        self.stage = DouyinStage::Done;
        DouyinAction::Finish(r)
    }

    /// The next action after `event`. A failed action ends the resolution
    /// with its error; an event that the stage does not wait for ends it as
    /// well.
    pub fn step(&mut self, event: DouyinEvent) -> (a: DouyinAction)
        ensures
            !(event is Failed) && !douyin_awaits(old(self).stage, event) ==> final(self).stage
                == DouyinStage::Done && (a matches DouyinAction::Finish(r) && r is Err),
            final(self).room_id == old(self).room_id,
            final(self).room_url == old(self).room_url,
            !(old(self).stage == DouyinStage::NonceCookie && event is Cookies) ==> final(self).ac_nonce
                == old(self).ac_nonce,
            !(event is Cookies) ==> final(self).client == old(self).client,
            event matches DouyinEvent::Failed(e) ==> final(self).stage == DouyinStage::Done && a
                == DouyinAction::Finish(Err(e)),
            old(self).stage == DouyinStage::Done ==> final(self).stage == DouyinStage::Done && (a matches DouyinAction::Finish(r) && r is Err),
            old(self).stage == DouyinStage::NonceCookie ==> match event {
                DouyinEvent::Cookies(c) => match regex_capture_of(AC_NONCE_PATTERN@, c@, 1) {
                    Some(Some(n)) if header_value_ok("__ac_nonce="@ + n) => final(self).stage
                        == DouyinStage::TtwidCookie && final(self).ac_nonce@ == n
                        && final(self).client@ == insert_spec(old(self).client@, COOKIE@, "__ac_nonce="@ + n)
                        && (a matches DouyinAction::FetchCookies(u) && u@ == old(self).room_url@),
                    Some(Some(n)) => final(self).stage == DouyinStage::Done && final(self).client@ == old(self).client@
                        && (a matches DouyinAction::Finish(Err(LsarError::Other(m))) && m@ == "failed to parse header value"@),
                    Some(None) => final(self).stage == DouyinStage::Done && (a matches DouyinAction::Finish(Err(LsarError::Other(m)))
                        && m@ == "__ac_nonce not found in cookies"@),
                    None => final(self).stage == DouyinStage::Done && (a matches DouyinAction::Finish(Err(LsarError::Regex(_)))),
                },
                _ => true,
            },
            old(self).stage == DouyinStage::TtwidCookie ==> match event {
                DouyinEvent::Cookies(c) => match regex_capture_of(TTWID_PATTERN@, c@, 1) {
                    Some(Some(t)) if header_value_ok("__ac_nonce="@ + old(self).ac_nonce@ + "; ttwid="@ + t) => final(self).stage
                        == DouyinStage::RoomInfo
                        && final(self).client@ == insert_spec(old(self).client@, COOKIE@, "__ac_nonce="@ + old(self).ac_nonce@ + "; ttwid="@ + t)
                        && (a matches DouyinAction::FetchRoomInfo(u) && u@ == ROOM_INFO_URL@ + decimal_of(old(self).room_id as nat)),
                    Some(Some(t)) => final(self).stage == DouyinStage::Done && final(self).client@ == old(self).client@
                        && (a matches DouyinAction::Finish(Err(LsarError::Other(m))) && m@ == "failed to parse header value"@),
                    Some(None) => final(self).stage == DouyinStage::Done && (a matches DouyinAction::Finish(Err(LsarError::Other(m)))
                        && m@ == "ttwid not found in cookies"@),
                    None => final(self).stage == DouyinStage::Done && (a matches DouyinAction::Finish(Err(LsarError::Regex(_)))),
                },
                _ => true,
            },
            old(self).stage == DouyinStage::RoomInfo ==> match event {
                DouyinEvent::Info(info) => final(self).stage == DouyinStage::Done && (a matches DouyinAction::Finish(r)
                    && (info.data.data@.len() > 0 && info.data.data@[0].stream_url is None ==> r == Err::<ParsedResult, LsarError>(LsarError::RoomState(RoomStateError::Offline)))
                    && (r is Ok <==> info.data.data@.len() > 0 && info.data.data@[0].stream_url is Some)
                    && (info.data.data@.len() == 0 ==> (r matches Err(LsarError::Other(m)) && m@ == "Room data missing"@))
                    && (r matches Ok(p) ==> p.platform == Platform::Douyin && p.room_id == old(self).room_id
                        && p.title == info.data.data@[0].title
                        && p.anchor == info.data.user.nickname
                        && p.category@ == category_spec(info.data.partition_road_map)
                        && p.links@.len() == 2
                        && p.links@[0]@ == preferred_url(info.data.data@[0].stream_url->0.flv_pull_url@)
                        && p.links@[1]@ == preferred_url(info.data.data@[0].stream_url->0.hls_pull_url_map@))),
                _ => true,
            },
    {
        let stage = self.stage;
        match event {
            DouyinEvent::Failed(e) => self.finish(Err(e)),
            DouyinEvent::Cookies(c) => {
                if stage == DouyinStage::NonceCookie {
                    let nonce = match get_ac_nonce(c.as_str()) {
                        Ok(n) => n,
                        Err(e) => return self.finish(Err(e)),
                    };
                    let cookie = nonce_cookie(nonce.as_str());
                    if let Err(e) = self.client.insert_header(COOKIE, cookie.as_str()) {
                        return self.finish(Err(e));
                    }
                    self.ac_nonce = nonce;
                    self.stage = DouyinStage::TtwidCookie;
                    DouyinAction::FetchCookies(self.room_url.clone())
                } else if stage == DouyinStage::TtwidCookie {
                    let ttwid = match get_ttwid(c.as_str()) {
                        Ok(t) => t,
                        Err(e) => return self.finish(Err(e)),
                    };
                    let cookie = session_cookie(self.ac_nonce.as_str(), ttwid.as_str());
                    if let Err(e) = self.client.insert_header(COOKIE, cookie.as_str()) {
                        return self.finish(Err(e));
                    }
                    self.stage = DouyinStage::RoomInfo;
                    DouyinAction::FetchRoomInfo(self.room_info_url())
                } else {
                    self.finish(Err(LsarError::other("Unexpected event")))
                }
            },
            DouyinEvent::Info(info) => {
                if stage != DouyinStage::RoomInfo {
                    return self.finish(Err(LsarError::other("Unexpected event")));
                }
                let r = self.parse_room_info(info);
                self.finish(r)
            },
        }
    }

    /// The room-info endpoint of the room.
    pub fn room_info_url(&self) -> (r: String)
        ensures
            r@ == ROOM_INFO_URL@ + decimal_of(self.room_id as nat),
    {
        let mut out: Vec<char> = Vec::new();
        push_str(&mut out, ROOM_INFO_URL);
        push_decimal(&mut out, self.room_id as u128);
        string_of(out.as_slice())
    }

    /// The result of the room: offline where the first stream has no urls;
    /// else its FLV and its HLS url, each the best quality it has or empty.
    pub fn parse_room_info(&self, info: RoomInfo) -> (r: LsarResult<ParsedResult>)
        ensures
            info.data.data@.len() == 0 ==> (r matches Err(LsarError::Other(m)) && m@
                == "Room data missing"@),
            info.data.data@.len() > 0 && info.data.data@[0].stream_url is None ==> r == Err::<
                ParsedResult,
                LsarError,
            >(LsarError::RoomState(RoomStateError::Offline)),
            info.data.data@.len() > 0 && info.data.data@[0].stream_url is Some ==> (r matches Ok(p)
                && {
                let s = info.data.data@[0];
                let u = s.stream_url->0;
                &&& p.platform == Platform::Douyin
                &&& p.anchor == info.data.user.nickname
                &&& p.title == s.title
                &&& p.room_id == self.room_id
                &&& p.category@ == category_spec(info.data.partition_road_map)
                &&& p.links@.len() == 2
                &&& p.links@[0]@ == preferred_url(u.flv_pull_url@)
                &&& p.links@[1]@ == preferred_url(u.hls_pull_url_map@)
            }),
    {
        if info.data.data.len() == 0 {
            return Err(LsarError::other("Room data missing"));
        }
        let room_data = &info.data.data[0];
        let stream_url = match &room_data.stream_url {
            Some(u) => u,
            None => return Err(LsarError::RoomState(RoomStateError::Offline)),
        };
        let flv = pick_url(&stream_url.flv_pull_url);
        let hls = pick_url(&stream_url.hls_pull_url_map);
        let category = category(&info.data.partition_road_map);
        let mut links: Vec<String> = Vec::new();
        links.push(flv);
        links.push(hls);
        Ok(ParsedResult {
            platform: Platform::Douyin,
            anchor: info.data.user.nickname.clone(),
            title: room_data.title.clone(),
            links,
            room_id: self.room_id,
            category,
        })
    }
}

/// A full-HD url wins over an HD url; with no full-HD url the HD url is
/// taken; with neither the slot stays empty.
pub proof fn lemma_resolution_order(m: Seq<(Resolution, String)>)
    ensures
        url_of(m, Resolution::FullHd1) matches Some(f) ==> preferred_url(m) == f,
        url_of(m, Resolution::FullHd1) is None && url_of(m, Resolution::Hd1) is Some
            ==> preferred_url(m) == url_of(m, Resolution::Hd1)->0,
        url_of(m, Resolution::FullHd1) is None && url_of(m, Resolution::Hd1) is None
            ==> preferred_url(m) == Seq::<char>::empty(),
{
}

} // verus!
