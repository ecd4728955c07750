//! Bilibili: a cookie check, the room id from the page where none is given,
//! the metadata and the play info, whose url tree is enumerated in full.
use vstd::prelude::*;

use crate::error::{LsarError, LsarResult, RoomStateError};
use crate::parsed::ParsedResult;
use crate::platform::Platform;
use crate::text::{
    chars_of, decimal_of, find, find_spec, lemma_find_from_bounds, parse_u64, parse_u64_spec,
    push_decimal, push_range, push_str, second_piece, second_piece_of, str_eq, string_of,
};

verus! {

broadcast use vstd::string::group_string_axioms;

/// The room page, followed by the room id.
pub const ROOM_PAGE_URL: &'static str = "https://live.bilibili.com/";

/// The endpoint that tells who the cookie belongs to.
pub const VERIFY_URL: &'static str = "https://api.bilibili.com/x/web-interface/nav";

/// The room-info endpoint, followed by the room id.
pub const ROOM_INFO_URL: &'static str = "https://api.live.bilibili.com/xlive/web-room/v1/index/getInfoByRoom?room_id=";

/// The play-info endpoint, followed by the room id.
pub const PLAY_INFO_URL: &'static str = "https://api.live.bilibili.com/xlive/web-room/v2/index/getRoomPlayInfo?protocol=0,1&format=0,1,2&codec=0,1&qn=10000&platform=web&ptype=8&dolby=5&panorama=1&room_id=";

/// The keys under which a page may name its room id, in order of
/// preference; the first ends at a quote, the others at a comma.
pub const DEFAULT_ROOM_ID_KEY: &'static str = "\"defaultRoomId\":\"";

pub const ROOMID_KEY: &'static str = "\"roomid\":";

pub const ROOM_ID_KEY: &'static str = "\"roomId\":";

/// The message of a cookie that belongs to no session.
pub const NOT_LOGGED_IN: &'static str = "账号未登录";

/// One host of a stream path.
pub struct CDNItem {
    pub host: String,
    pub extra: String,
}

/// One codec of a format: a path and the hosts that serve it.
pub struct CodecItem {
    pub base_url: String,
    pub url_info: Vec<CDNItem>,
}

pub struct FormatItem {
    pub codec: Vec<CodecItem>,
}

pub struct StreamItem {
    pub format: Vec<FormatItem>,
}

pub struct PlayUrl {
    pub stream: Vec<StreamItem>,
}

pub struct PlayUrlInfo {
    pub playurl: PlayUrl,
}

pub struct ResponseData {
    pub live_status: i32,
    pub playurl_info: PlayUrlInfo,
}

/// The play-info response.
pub struct Response {
    pub code: i32,
    pub message: String,
    pub data: ResponseData,
}

/// `host + base + extra` for each host, in order.
pub open spec fn cdn_links(hosts: Seq<CDNItem>, base: Seq<char>) -> Seq<Seq<char>>
    decreases hosts.len(),
{
    if hosts.len() == 0 {
        Seq::empty()
    } else {
        cdn_links(hosts.drop_last(), base).push(hosts.last().host@ + base + hosts.last().extra@)
    }
}

pub open spec fn codecs_links(codecs: Seq<CodecItem>) -> Seq<Seq<char>>
    decreases codecs.len(),
{
    if codecs.len() == 0 {
        Seq::empty()
    } else {
        codecs_links(codecs.drop_last()) + cdn_links(
            codecs.last().url_info@,
            codecs.last().base_url@,
        )
    }
}

pub open spec fn formats_links(formats: Seq<FormatItem>) -> Seq<Seq<char>>
    decreases formats.len(),
{
    if formats.len() == 0 {
        Seq::empty()
    } else {
        formats_links(formats.drop_last()) + codecs_links(formats.last().codec@)
    }
}

/// Every link of the tree, in the nesting order of streams, formats, codecs
/// and hosts.
pub open spec fn streams_links(streams: Seq<StreamItem>) -> Seq<Seq<char>>
    decreases streams.len(),
{
    if streams.len() == 0 {
        Seq::empty()
    } else {
        streams_links(streams.drop_last()) + formats_links(streams.last().format@)
    }
}

/// The number of hosts over all codecs.
pub open spec fn codecs_count(codecs: Seq<CodecItem>) -> nat
    decreases codecs.len(),
{
    if codecs.len() == 0 {
        0
    } else {
        codecs_count(codecs.drop_last()) + codecs.last().url_info@.len()
    }
}

pub open spec fn formats_count(formats: Seq<FormatItem>) -> nat
    decreases formats.len(),
{
    if formats.len() == 0 {
        0
    } else {
        formats_count(formats.drop_last()) + codecs_count(formats.last().codec@)
    }
}

/// The number of hosts over all (stream, format, codec) combinations.
pub open spec fn streams_count(streams: Seq<StreamItem>) -> nat
    decreases streams.len(),
{
    if streams.len() == 0 {
        0
    } else {
        streams_count(streams.drop_last()) + formats_count(streams.last().format@)
    }
}

proof fn lemma_cdn_count(hosts: Seq<CDNItem>, base: Seq<char>)
    ensures
        cdn_links(hosts, base).len() == hosts.len(),
    decreases hosts.len(),
{
    if hosts.len() > 0 {
        lemma_cdn_count(hosts.drop_last(), base);
    }
}

proof fn lemma_codecs_count(codecs: Seq<CodecItem>)
    ensures
        codecs_links(codecs).len() == codecs_count(codecs),
    decreases codecs.len(),
{
    if codecs.len() > 0 {
        lemma_codecs_count(codecs.drop_last());
        lemma_cdn_count(codecs.last().url_info@, codecs.last().base_url@);
    }
}

proof fn lemma_formats_count(formats: Seq<FormatItem>)
    ensures
        formats_links(formats).len() == formats_count(formats),
    decreases formats.len(),
{
    if formats.len() > 0 {
        lemma_formats_count(formats.drop_last());
        lemma_codecs_count(formats.last().codec@);
    }
}

/// The enumeration yields one link for each host of each codec of each
/// format of each stream: the sum, over all those combinations, of the
/// number of hosts.
pub proof fn lemma_link_count(streams: Seq<StreamItem>)
    ensures
        streams_links(streams).len() == streams_count(streams),
    decreases streams.len(),
{
    if streams.len() > 0 {
        lemma_link_count(streams.drop_last());
        lemma_formats_count(streams.last().format@);
    }
}

fn push_codec_links(out: &mut Vec<String>, codec: &CodecItem)
    ensures
        final(out)@.map_values(|s: String| s@) == old(out)@.map_values(|s: String| s@) + cdn_links(
            codec.url_info@,
            codec.base_url@,
        ),
{
    let mut i: usize = 0;
    while i < codec.url_info.len()
        invariant
            i <= codec.url_info@.len(),
            out@.map_values(|s: String| s@) == old(out)@.map_values(|s: String| s@) + cdn_links(
                codec.url_info@.subrange(0, i as int),
                codec.base_url@,
            ),
        decreases codec.url_info@.len() - i,
    {
        let u = &codec.url_info[i];
        let mut link: Vec<char> = Vec::new();
        push_str(&mut link, u.host.as_str());
        push_str(&mut link, codec.base_url.as_str());
        push_str(&mut link, u.extra.as_str());
        let ghost before = out@.map_values(|s: String| s@);
        out.push(string_of(link.as_slice()));
        proof {
            let s = codec.url_info@.subrange(0, i + 1);
            assert(s.drop_last() =~= codec.url_info@.subrange(0, i as int));
            assert(out@.map_values(|s: String| s@) =~= before.push(link@));
        }
        i = i + 1;
    }
    assert(codec.url_info@.subrange(0, i as int) =~= codec.url_info@);
}

fn push_format_links(out: &mut Vec<String>, format: &FormatItem)
    ensures
        final(out)@.map_values(|s: String| s@) == old(out)@.map_values(|s: String| s@)
            + codecs_links(format.codec@),
{
    let mut i: usize = 0;
    while i < format.codec.len()
        invariant
            i <= format.codec@.len(),
            out@.map_values(|s: String| s@) == old(out)@.map_values(|s: String| s@)
                + codecs_links(format.codec@.subrange(0, i as int)),
        decreases format.codec@.len() - i,
    {
        push_codec_links(out, &format.codec[i]);
        proof {
            let s = format.codec@.subrange(0, i + 1);
            assert(s.drop_last() =~= format.codec@.subrange(0, i as int));
            assert(out@.map_values(|s: String| s@) =~= old(out)@.map_values(|s: String| s@)
                + codecs_links(s));
        }
        i = i + 1;
    }
    assert(format.codec@.subrange(0, i as int) =~= format.codec@);
}

fn push_stream_links(out: &mut Vec<String>, stream: &StreamItem)
    ensures
        final(out)@.map_values(|s: String| s@) == old(out)@.map_values(|s: String| s@)
            + formats_links(stream.format@),
{
    let mut i: usize = 0;
    while i < stream.format.len()
        invariant
            i <= stream.format@.len(),
            out@.map_values(|s: String| s@) == old(out)@.map_values(|s: String| s@)
                + formats_links(stream.format@.subrange(0, i as int)),
        decreases stream.format@.len() - i,
    {
        push_format_links(out, &stream.format[i]);
        proof {
            let s = stream.format@.subrange(0, i + 1);
            assert(s.drop_last() =~= stream.format@.subrange(0, i as int));
            assert(out@.map_values(|s: String| s@) =~= old(out)@.map_values(|s: String| s@)
                + formats_links(s));
        }
        i = i + 1;
    }
    assert(stream.format@.subrange(0, i as int) =~= stream.format@);
}

pub struct LinkParser;

impl LinkParser {
    pub fn new() -> (r: LinkParser) {
        LinkParser
    }

    /// Every link of the play info, `host + base_url + extra`, in the
    /// nesting order of streams, formats, codecs and hosts, without
    /// removing repeats.
    pub fn parse(&self, info: &Response) -> (r: Vec<String>)
        ensures
            r@.map_values(|s: String| s@) == streams_links(info.data.playurl_info.playurl.stream@),
    {
        let streams = &info.data.playurl_info.playurl.stream;
        let mut links: Vec<String> = Vec::new();
        let mut i: usize = 0;
        assert(links@.map_values(|s: String| s@) =~= Seq::<Seq<char>>::empty());
        while i < streams.len()
            invariant
                i <= streams@.len(),
                links@.map_values(|s: String| s@) == streams_links(streams@.subrange(0, i as int)),
            decreases streams@.len() - i,
        {
            push_stream_links(&mut links, &streams[i]);
            proof {
                let s = streams@.subrange(0, i + 1);
                assert(s.drop_last() =~= streams@.subrange(0, i as int));
            }
            i = i + 1;
        }
        assert(streams@.subrange(0, i as int) =~= streams@);
        links
    }
}

/// `p` up to the first `c`, or all of it.
pub open spec fn prefix_before(p: Seq<char>, c: char) -> Seq<char> {
    match find_spec(p, seq![c]) {
        Some(i) => p.subrange(0, i),
        None => p,
    }
}

/// The text that names the room id in a page: after the first key of the
/// three that occurs, up to its terminator.
pub open spec fn room_id_text(html: Seq<char>) -> Option<Seq<char>> {
    match second_piece(html, DEFAULT_ROOM_ID_KEY@) {
        Some(p) => Some(prefix_before(p, '"')),
        None => match second_piece(html, ROOMID_KEY@) {
            Some(p) => Some(prefix_before(p, ',')),
            None => match second_piece(html, ROOM_ID_KEY@) {
                Some(p) => Some(prefix_before(p, ',')),
                None => None,
            },
        },
    }
}

fn prefix_before_of(p: &[char], c: char) -> (r: Vec<char>)
    ensures
        r@ == prefix_before(p@, c),
{
    let mut pat: Vec<char> = Vec::new();
    pat.push(c);
    assert(pat@ =~= seq![c]);
    let end = match find(p, pat.as_slice()) {
        Some(i) => i,
        None => p.len(),
    };
    proof {
        lemma_find_from_bounds(p@, pat@, 0);
    }
    let mut out: Vec<char> = Vec::new();
    push_range(&mut out, p, 0, end);
    assert(find_spec(p@, seq![c]) is None ==> out@ =~= p@);
    out
}

/// Where a Bilibili resolution stands: what it waits for next.
#[derive(Debug, Clone, Copy, PartialEq, Eq, Structural)]
pub enum BilibiliStage {
    VerifyCookie,
    FetchPage,
    FetchRoomInfo,
    FetchPlayInfo,
    Done,
}

/// What the caller is to do next; every request carries the cookie.
pub enum BilibiliAction {
    /// GET `VERIFY_URL` and report its code, message and user name.
    VerifyCookie,
    /// Fetch the page at this url, as text.
    FetchPage(String),
    /// GET the room info at this url and report its title, anchor and area.
    FetchRoomInfo(String),
    /// GET the play info at this url.
    FetchPlayInfo(String),
    /// The resolution is over.
    Finish(LsarResult<ParsedResult>),
}

/// The play-info response: its `data.live_status` as first read (zero where
/// absent), and the response decoded, or why it could not be.
pub struct PlayInfoReply {
    pub live_status: i64,
    pub response: Result<Response, String>,
}

/// What the caller reports back.
pub enum BilibiliEvent {
    Verified { code: i32, message: String, uname: Option<String> },
    Page(String),
    RoomInfo { title: String, anchor: String, category: String },
    PlayInfo(PlayInfoReply),
    /// The last action failed.
    Failed(LsarError),
}

/// Whether a resolution at `stage` waits for an event of the kind of `event`.
pub open spec fn bilibili_awaits(stage: BilibiliStage, event: BilibiliEvent) -> bool {
    (stage == BilibiliStage::VerifyCookie && event is Verified) || (stage == BilibiliStage::FetchPage && event is Page) || (stage == BilibiliStage::FetchRoomInfo && event is RoomInfo) || (stage == BilibiliStage::FetchPlayInfo && event is PlayInfo)
}

/// One Bilibili resolution, driven by the caller one event at a time.
pub struct BilibiliParser {
    pub room_id: u64,
    pub page_url: String,
    pub cookie: String,
    pub title: String,
    pub anchor: String,
    pub category: String,
    pub stage: BilibiliStage,
}

impl BilibiliParser {
    /// A parser for the room `room_id`, whose page is `url` or else the
    /// room's page.
    pub fn new(cookie: String, room_id: u64, url: Option<String>) -> (r: BilibiliParser)
        ensures
            r.room_id == room_id,
            r.cookie == cookie,
            r.page_url@ == match url {
                Some(u) => u@,
                None => ROOM_PAGE_URL@ + decimal_of(room_id as nat),
            },
    {
        let page_url = match url {
            Some(u) => u,
            None => {
                let mut out: Vec<char> = Vec::new();
                push_str(&mut out, ROOM_PAGE_URL);
                push_decimal(&mut out, room_id as u128);
                string_of(out.as_slice())
            },
        };
        BilibiliParser {
            room_id,
            page_url,
            cookie,
            title: String::new(),
            anchor: String::new(),
            category: String::new(),
            stage: BilibiliStage::VerifyCookie,
        }
    }

    fn finish(&mut self, r: LsarResult<ParsedResult>) -> (a: BilibiliAction)
        ensures
            final(self).stage == BilibiliStage::Done,
            final(self).room_id == old(self).room_id,
            final(self).cookie == old(self).cookie,
            final(self).page_url == old(self).page_url,
            final(self).title == old(self).title,
            final(self).anchor == old(self).anchor,
            final(self).category == old(self).category,
            a == BilibiliAction::Finish(r),
    {
        self.stage = BilibiliStage::Done;
        BilibiliAction::Finish(r)
    }

    /// The next action after `event`. A failed action ends the resolution
    /// with its error; an event that the stage does not wait for ends it as
    /// well.
    pub fn step(&mut self, event: BilibiliEvent) -> (a: BilibiliAction)
        ensures
            final(self).cookie == old(self).cookie,
            final(self).page_url == old(self).page_url,
            !(old(self).stage == BilibiliStage::FetchPage && event is Page) ==> final(self).room_id
                == old(self).room_id,
            !(old(self).stage == BilibiliStage::FetchRoomInfo && event is RoomInfo) ==> {
                &&& final(self).title == old(self).title
                &&& final(self).anchor == old(self).anchor
                &&& final(self).category == old(self).category
            },
            !(event is Failed) && !bilibili_awaits(old(self).stage, event) ==> final(self).stage
                == BilibiliStage::Done && (a matches BilibiliAction::Finish(r) && r is Err),
            event matches BilibiliEvent::Failed(e) ==> final(self).stage == BilibiliStage::Done && a
                == BilibiliAction::Finish(Err(e)),
            old(self).stage == BilibiliStage::Done ==> final(self).stage == BilibiliStage::Done && (a matches BilibiliAction::Finish(r) && r is Err),
            old(self).stage == BilibiliStage::VerifyCookie ==> match event {
                BilibiliEvent::Verified { code, message, uname } => if code == 0 && uname is Some {
                    if old(self).room_id == 0 {
                        final(self).stage == BilibiliStage::FetchPage && (a matches BilibiliAction::FetchPage(u) && u == old(self).page_url)
                    } else {
                        final(self).stage == BilibiliStage::FetchRoomInfo && (a matches BilibiliAction::FetchRoomInfo(u) && u@ == ROOM_INFO_URL@ + decimal_of(old(self).room_id as nat))
                    }
                } else {
                    final(self).stage == BilibiliStage::Done && (a matches BilibiliAction::Finish(Err(LsarError::Other(m))) && m@ == verify_failure(code, message@))
                },
                _ => true,
            },
            old(self).stage == BilibiliStage::FetchPage ==> match event {
                BilibiliEvent::Page(html) => match room_id_text(html@) {
                    Some(t) if parse_u64_spec(t) is Some => final(self).stage == BilibiliStage::FetchRoomInfo
                        && final(self).room_id == parse_u64_spec(t)->0
                        && (a matches BilibiliAction::FetchRoomInfo(u) && u@ == ROOM_INFO_URL@ + decimal_of(final(self).room_id as nat)),
                    _ => final(self).stage == BilibiliStage::Done && final(self).room_id == old(self).room_id
                        && (a matches BilibiliAction::Finish(Err(LsarError::Other(m))) && m@ == "Failed to parse room ID"@),
                },
                _ => true,
            },
            old(self).stage == BilibiliStage::FetchRoomInfo ==> match event {
                BilibiliEvent::RoomInfo { title, anchor, category } => final(self).stage == BilibiliStage::FetchPlayInfo
                    && final(self).title == title && final(self).anchor == anchor && final(self).category == category
                    && (a matches BilibiliAction::FetchPlayInfo(u) && u@ == PLAY_INFO_URL@ + decimal_of(old(self).room_id as nat)),
                _ => true,
            },
            old(self).stage == BilibiliStage::FetchPlayInfo ==> match event {
                BilibiliEvent::PlayInfo(reply) => final(self).stage == BilibiliStage::Done && (a matches BilibiliAction::Finish(r)
                    && (reply.live_status == 0 ==> r == Err::<ParsedResult, LsarError>(LsarError::RoomState(RoomStateError::Offline)))
                    && (reply.live_status != 0 && reply.response is Err ==> r == Err::<ParsedResult, LsarError>(LsarError::SerdeJSON(reply.response->Err_0)))
                    && (reply.live_status != 0 && reply.response is Ok && reply.response->Ok_0.code != 0 ==> (r matches Err(LsarError::Other(m))
                        && m@ == "Room play info request unsuccessful: "@ + reply.response->Ok_0.message@))
                    && (reply.live_status != 0 && reply.response is Ok && reply.response->Ok_0.code == 0
                        && reply.response->Ok_0.data.live_status == 0 ==> (r matches Err(LsarError::Other(m)) && m@ == "Stream is not live"@))
                    && (r is Ok <==> reply.live_status != 0 && (reply.response matches Ok(resp) && resp.code == 0 && resp.data.live_status != 0))
                    && (r matches Ok(p) ==> p.platform == Platform::Bilibili && p.room_id == old(self).room_id
                        && p.title == old(self).title && p.anchor == old(self).anchor && p.category == old(self).category
                        && p.links@.map_values(|s: String| s@) == streams_links(reply.response->Ok_0.data.playurl_info.playurl.stream@))),
                _ => true,
            },
    {
        let stage = self.stage;
        match event {
            BilibiliEvent::Failed(e) => self.finish(Err(e)),
            BilibiliEvent::Verified { code, message, uname } => {
                if stage != BilibiliStage::VerifyCookie {
                    return self.finish(Err(LsarError::other("Unexpected event")));
                }
                if let Err(e) = verify_cookie(code, message.as_str(), uname) {
                    return self.finish(Err(e));
                }
                if self.room_id == 0 {
                    self.stage = BilibiliStage::FetchPage;
                    BilibiliAction::FetchPage(self.page_url.clone())
                } else {
                    self.stage = BilibiliStage::FetchRoomInfo;
                    BilibiliAction::FetchRoomInfo(BilibiliParser::room_info_url(self.room_id))
                }
            },
            BilibiliEvent::Page(html) => {
                if stage != BilibiliStage::FetchPage {
                    return self.finish(Err(LsarError::other("Unexpected event")));
                }
                match self.parse_room_id(html.as_str()) {
                    Ok(id) => {
                        self.room_id = id;
                        self.stage = BilibiliStage::FetchRoomInfo;
                        BilibiliAction::FetchRoomInfo(BilibiliParser::room_info_url(id))
                    },
                    Err(e) => self.finish(Err(e)),
                }
            },
            BilibiliEvent::RoomInfo { title, anchor, category } => {
                if stage != BilibiliStage::FetchRoomInfo {
                    return self.finish(Err(LsarError::other("Unexpected event")));
                }
                self.title = title;
                self.anchor = anchor;
                self.category = category;
                self.stage = BilibiliStage::FetchPlayInfo;
                BilibiliAction::FetchPlayInfo(BilibiliParser::play_info_url(self.room_id))
            },
            BilibiliEvent::PlayInfo(reply) => {
                if stage != BilibiliStage::FetchPlayInfo {
                    return self.finish(Err(LsarError::other("Unexpected event")));
                }
                if let Err(e) = RoomPlayInfoFetcher::check_live_status(reply.live_status) {
                    return self.finish(Err(e));
                }
                let response = match reply.response {
                    Ok(r) => r,
                    Err(m) => return self.finish(Err(LsarError::SerdeJSON(m))),
                };
                if let Err(e) = RoomPlayInfoFetcher::check_response(&response) {
                    return self.finish(Err(e));
                }
                let r = self.build_result(
                    self.title.clone(),
                    self.anchor.clone(),
                    self.category.clone(),
                    &response,
                );
                self.finish(Ok(r))
            },
        }
    }

    /// The room id that the page names.
    pub fn parse_room_id(&self, html: &str) -> (r: LsarResult<u64>)
        ensures
            match room_id_text(html@) {
                Some(t) => match parse_u64_spec(t) {
                    Some(v) => r == Ok::<u64, LsarError>(v),
                    None => r matches Err(LsarError::Other(m)) && m@ == "Failed to parse room ID"@,
                },
                None => r matches Err(LsarError::Other(m)) && m@ == "Failed to parse room ID"@,
            },
    {
        let t = chars_of(html);
        let text = match second_piece_of(t.as_slice(), chars_of(DEFAULT_ROOM_ID_KEY).as_slice()) {
            Some(p) => prefix_before_of(p.as_slice(), '"'),
            None => match second_piece_of(t.as_slice(), chars_of(ROOMID_KEY).as_slice()) {
                Some(p) => prefix_before_of(p.as_slice(), ','),
                None => match second_piece_of(t.as_slice(), chars_of(ROOM_ID_KEY).as_slice()) {
                    Some(p) => prefix_before_of(p.as_slice(), ','),
                    None => return Err(LsarError::other("Failed to parse room ID")),
                },
            },
        };
        match parse_u64(text.as_slice()) {
            Some(v) => Ok(v),
            None => Err(LsarError::other("Failed to parse room ID")),
        }
    }

    /// The room-info endpoint of a room.
    pub fn room_info_url(room_id: u64) -> (r: String)
        ensures
            r@ == ROOM_INFO_URL@ + decimal_of(room_id as nat),
    {
        let mut out: Vec<char> = Vec::new();
        push_str(&mut out, ROOM_INFO_URL);
        push_decimal(&mut out, room_id as u128);
        string_of(out.as_slice())
    }

    /// The play-info endpoint of a room.
    pub fn play_info_url(room_id: u64) -> (r: String)
        ensures
            r@ == PLAY_INFO_URL@ + decimal_of(room_id as nat),
    {
        let mut out: Vec<char> = Vec::new();
        push_str(&mut out, PLAY_INFO_URL);
        push_decimal(&mut out, room_id as u128);
        string_of(out.as_slice())
    }

    /// The result of a room with the metadata `title`, `anchor`, `category`
    /// and the play info `info`.
    pub fn build_result(
        &self,
        title: String,
        anchor: String,
        category: String,
        info: &Response,
    ) -> (r: ParsedResult)
        ensures
            r.platform == Platform::Bilibili,
            r.title == title,
            r.anchor == anchor,
            r.category == category,
            r.room_id == self.room_id,
            r.links@.map_values(|s: String| s@) == streams_links(
                info.data.playurl_info.playurl.stream@,
            ),
    {
        let links = LinkParser::new().parse(info);
        ParsedResult { platform: Platform::Bilibili, title, anchor, category, links, room_id: self.room_id }
    }
}

/// The message that an identity response fails with: the not-logged-in
/// message, another non-zero code with its message, or code 0 without a
/// user name.
pub open spec fn verify_failure(code: i32, message: Seq<char>) -> Seq<char> {
    if code == -101 && message == NOT_LOGGED_IN@ {
        "账号未登录，cookie 未设置或已失效"@
    } else if code != 0 {
        "Cookie verification failed: "@ + message
    } else {
        "Username not found in verification response"@
    }
}

/// The verdict on the identity response: code 0 with a user name gives the
/// name; -101 with the not-logged-in message, and any other non-zero code,
/// fail with their own messages.
pub fn verify_cookie(code: i32, message: &str, uname: Option<String>) -> (r: LsarResult<String>)
    ensures
        code == -101 && message@ == NOT_LOGGED_IN@ ==> (r matches Err(LsarError::Other(m)) && m@
            == "账号未登录，cookie 未设置或已失效"@),
        code != 0 && !(code == -101 && message@ == NOT_LOGGED_IN@) ==> (r matches Err(
            LsarError::Other(m),
        ) && m@ == "Cookie verification failed: "@ + message@),
        code == 0 ==> match uname {
            Some(u) => r == Ok::<String, LsarError>(u),
            None => r matches Err(LsarError::Other(m)) && m@
                == "Username not found in verification response"@,
        },
        !(code == 0 && uname is Some) ==> (r matches Err(LsarError::Other(m)) && m@ == verify_failure(
            code,
            message@,
        )),
{
    if code != 0 {
        if code == -101 && str_eq(message, NOT_LOGGED_IN) {
            return Err(LsarError::other("账号未登录，cookie 未设置或已失效"));
        }
        let mut out: Vec<char> = Vec::new();
        push_str(&mut out, "Cookie verification failed: ");
        push_str(&mut out, message);
        return Err(LsarError::Other(string_of(out.as_slice())));
    }
    match uname {
        Some(u) => Ok(u),
        None => Err(LsarError::other("Username not found in verification response")),
    }
}

pub struct RoomPlayInfoFetcher;

impl RoomPlayInfoFetcher {
    /// The verdict on the live status read before the play info is decoded:
    /// zero, or none, means offline.
    pub fn check_live_status(live_status: i64) -> (r: LsarResult<()>)
        ensures
            live_status == 0 ==> r == Err::<(), LsarError>(
                LsarError::RoomState(RoomStateError::Offline),
            ),
            live_status != 0 ==> r is Ok,
    {
        if live_status == 0 {
            Err(LsarError::RoomState(RoomStateError::Offline))
        } else {
            Ok(())
        }
    }

    /// The verdict on the decoded play info.
    pub fn check_response(response: &Response) -> (r: LsarResult<()>)
        ensures
            response.code != 0 ==> (r matches Err(LsarError::Other(m)) && m@
                == "Room play info request unsuccessful: "@ + response.message@),
            response.code == 0 && response.data.live_status == 0 ==> (r matches Err(
                LsarError::Other(m),
            ) && m@ == "Stream is not live"@),
            response.code == 0 && response.data.live_status != 0 ==> r is Ok,
    {
        if response.code != 0 {
            let mut out: Vec<char> = Vec::new();
            push_str(&mut out, "Room play info request unsuccessful: ");
            push_str(&mut out, response.message.as_str());
            return Err(LsarError::Other(string_of(out.as_slice())));
        }
        if response.data.live_status == 0 {
            return Err(LsarError::other("Stream is not live"));
        }
        Ok(())
    }
}

} // verus!
