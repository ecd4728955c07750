//! Douyu: the canonical room id from the page, a replay check, a signature
//! computed in two rounds by the script evaluator, and the play info.
use vstd::prelude::*;

use crate::error::{LsarError, LsarResult, MissKeyFieldError, RequestError, RoomStateError};
use crate::parsed::ParsedResult;
use crate::platform::Platform;
use crate::text::{
    chars_of, contains, contains_spec, decimal_of, parse_u64, parse_u64_spec, push_decimal,
    push_range, push_str, replace_all, replace_spec, rfind_char, rfind_char_spec, str_eq,
    string_of,
};
use crate::trusted::{md5, md5_hex_of, regex_capture, regex_capture_of, regex_replace, regex_replace_of};

verus! {

broadcast use vstd::string::group_string_axioms;

/// The device id sent with every signature.
pub const DEVICE_ID: &'static str = "10000000000000000000000000001501";

/// The page of a room, followed by its id.
pub const ROOM_PAGE_URL: &'static str = "https://www.douyu.com/";

/// The endpoint that tells whether a room loops a recording.
pub const REPLAY_URL: &'static str = "https://www.douyu.com/betard/";

/// The play-info endpoint asked first, with the parameters as query.
pub const PLAY_URL: &'static str = "https://playweb.douyu.com/lapi/live/getH5Play/";

/// The play-info endpoint asked once more, with the parameters as body.
pub const PLAY_POST_URL: &'static str = "https://www.douyu.com/lapi/live/getH5Play/";

/// The page text of a room that is not open.
pub const NOT_OPEN_MARKER: &'static str = "<span><p>该房间目前没有开放</p></span>";

/// The canonical room id in the page.
pub const ROOM_ID_PATTERN: &'static str = "\\$ROOM\\.room_id = ?(\\d+);";

/// The obfuscated signature function in the page.
pub const SIGNATURE_FUNCTION_PATTERN: &'static str = "var vdwdae325w_64we.*?function ub98484234\\(.*?return eval\\(strc\\)\\(.*?\\);\\}( {4}var .+?=\\[.+?\\];)?";

/// The self-invoking trailer of the signature function.
pub const EVAL_TRAILER_PATTERN: &'static str = "eval\\(strc\\)\\(\\w+,\\w+,.\\w+\\);";

/// What replaces the trailer, so that the function text evaluates to the
/// inner source.
pub const EVAL_TRAILER_REPLACEMENT: &'static str = "strc;";

/// The twelve-digit number in the first evaluator reply.
pub const RANDOM_NUMBER_PATTERN: &'static str = "\\d{12}";

/// The digest call in the first evaluator reply that is replaced by the
/// digest itself.
pub const MD5_CALL: &'static str = "CryptoJS.MD5(cb).toString()";

/// The title in the page.
pub const TITLE_PATTERN: &'static str = "<h3 class=\"Title-header\">(.+?)</h3>";

/// The anchor's name in the page.
pub const ANCHOR_PATTERN: &'static str = "<div class=\"Title-anchorName\" title=\"(.+?)\">";

/// The category in the page.
pub const CATEGORY_PATTERN: &'static str = "<span class=\"Title-categoryArrow\"></span><a class=\"Title-categoryItem\" href=\".+?\" target=\"_blank\" title=\"(.+?)\">";

/// The response text of a request that is answered only on the other host.
pub const ILLEGAL_REQUEST_MARKER: &'static str = "非法请求";

/// The message of a room that is offline.
pub const ROOM_OFFLINE_STATE: &'static str = "房间未开播";

/// The message of a request that was refused.
pub const INVALID_REQUEST: &'static str = "非法请求";

/// The captured text, where the pattern compiled and matched.
pub open spec fn capture_spec(pattern: Seq<char>, text: Seq<char>, group: nat) -> Option<Seq<char>> {
    match regex_capture_of(pattern, text, group) {
        Some(Some(s)) => Some(s),
        _ => None,
    }
}

/// `r` is what a field read with `pattern` gives: the capture, an error of
/// the pattern, or `missing`.
pub open spec fn field_result(
    r: LsarResult<String>,
    pattern: Seq<char>,
    text: Seq<char>,
    group: nat,
    missing: MissKeyFieldError,
) -> bool {
    match regex_capture_of(pattern, text, group) {
        None => r matches Err(LsarError::Regex(_)),
        Some(None) => r == Err::<String, LsarError>(LsarError::MissKeyField(missing)),
        Some(Some(s)) => r matches Ok(v) && v@ == s,
    }
}

/// Reads a field with `pattern`, failing with `missing` where it does not
/// match.
pub fn capture_field(pattern: &str, text: &str, group: usize, missing: MissKeyFieldError) -> (r:
    LsarResult<String>)
    ensures
        field_result(r, pattern@, text@, group as nat, missing),
{
    match regex_capture(pattern, text, group) {
        Err(e) => Err(LsarError::Regex(e)),
        Ok(None) => Err(LsarError::MissKeyField(missing)),
        Ok(Some(s)) => Ok(s),
    }
}

/// The canonical room id of a page, where it has one.
pub open spec fn room_id_spec(html: Seq<char>) -> Option<u64> {
    match capture_spec(ROOM_ID_PATTERN@, html, 1) {
        Some(d) => parse_u64_spec(d),
        None => None,
    }
}

/// `r` is what reading the canonical room id gives.
pub open spec fn room_id_result(r: LsarResult<u64>, html: Seq<char>) -> bool {
    if contains_spec(html, NOT_OPEN_MARKER@) {
        r == Err::<u64, LsarError>(LsarError::RoomState(RoomStateError::NotExists))
    } else {
        match regex_capture_of(ROOM_ID_PATTERN@, html, 1) {
            None => r matches Err(LsarError::Regex(_)),
            Some(None) => r == Err::<u64, LsarError>(LsarError::MissKeyField(MissKeyFieldError::RoomId)),
            Some(Some(d)) => match parse_u64_spec(d) {
                Some(v) => r == Ok::<u64, LsarError>(v),
                None => r == Err::<u64, LsarError>(LsarError::MissKeyField(MissKeyFieldError::RoomId)),
            },
        }
    }
}

/// The play info of a room.
pub struct RoomData {
    pub rtmp_url: String,
    pub rtmp_live: Option<String>,
}

/// The play-info response.
pub struct RoomInfo {
    pub error: Option<i32>,
    pub msg: String,
    pub data: RoomData,
}

/// `r` is what the stream info of `room_info` and the page `html` give: a
/// room without a live path is offline, or a refused request where the
/// response says so; else the title, the anchor and the room id are read
/// from the page, each failing on its own error, and the category where
/// the page names one.
pub open spec fn stream_info_result(r: LsarResult<ParsedResult>, room_info: RoomInfo, html: Seq<char>) -> bool {
    &&& (room_info.data.rtmp_live is None ==> r == Err::<ParsedResult, LsarError>(
                if room_info.error == Some(-15i32) {
                    LsarError::Request(RequestError::BadRequest)
                } else {
                    LsarError::RoomState(RoomStateError::Offline)
                },
            ))
    &&& (room_info.data.rtmp_live is Some ==> {
                let title = regex_capture_of(TITLE_PATTERN@, html, 1);
                let anchor = regex_capture_of(ANCHOR_PATTERN@, html, 1);
                &&& (r is Ok <==> capture_spec(TITLE_PATTERN@, html, 1) is Some && capture_spec(
                    ANCHOR_PATTERN@,
                    html,
                    1,
                ) is Some && room_id_spec(html) is Some && !contains_spec(html, NOT_OPEN_MARKER@))
                &&& title is None ==> (r matches Err(LsarError::Regex(_)))
                &&& title == Some(None::<Seq<char>>) ==> r == Err::<ParsedResult, LsarError>(
                    LsarError::MissKeyField(MissKeyFieldError::Title),
                )
                &&& title is Some && title->0 is Some && anchor is None ==> (r matches Err(
                    LsarError::Regex(_),
                ))
                &&& title is Some && title->0 is Some && anchor == Some(None::<Seq<char>>) ==> r
                    == Err::<ParsedResult, LsarError>(
                    LsarError::MissKeyField(MissKeyFieldError::AnchorName),
                )
                &&& title is Some && title->0 is Some && anchor is Some && anchor->0 is Some
                    ==> (r is Err ==> (r matches Err(e) && room_id_result(Err(e), html)))
                &&& (r matches Ok(p) ==> {
                    &&& p.platform == Platform::Douyu
                    &&& capture_spec(TITLE_PATTERN@, html, 1) == Some(p.title@)
                    &&& capture_spec(ANCHOR_PATTERN@, html, 1) == Some(p.anchor@)
                    &&& room_id_spec(html) == Some(p.room_id)
                    &&& p.category@ == match capture_spec(CATEGORY_PATTERN@, html, 1) {
                        Some(s) => s,
                        None => Seq::empty(),
                    }
                    &&& p.links@.len() == 1
                    &&& p.links@[0]@ == room_info.data.rtmp_url@ + "/"@
                        + room_info.data.rtmp_live->0@
                })
            })
}

pub struct StreamInfoParser {}

impl StreamInfoParser {
    pub fn new() -> (r: StreamInfoParser) {
        StreamInfoParser {  }
    }

    /// The canonical room id that the page names; a page of a room that is
    /// not open fails with `NotExists`.
    pub fn extract_final_room_id(&self, html: &str) -> (r: LsarResult<u64>)
        ensures
            room_id_result(r, html@),
    {
        let t = chars_of(html);
        if contains(t.as_slice(), chars_of(NOT_OPEN_MARKER).as_slice()) {
            return Err(LsarError::RoomState(RoomStateError::NotExists));
        }
        match regex_capture(ROOM_ID_PATTERN, html, 1) {
            Err(e) => Err(LsarError::Regex(e)),
            Ok(None) => Err(LsarError::MissKeyField(MissKeyFieldError::RoomId)),
            Ok(Some(d)) => match parse_u64(chars_of(d.as_str()).as_slice()) {
                Some(v) => Ok(v),
                None => Err(LsarError::MissKeyField(MissKeyFieldError::RoomId)),
            },
        }
    }

    fn parse_stream_title(&self, html: &str) -> (r: LsarResult<String>)
        ensures
            field_result(r, TITLE_PATTERN@, html@, 1, MissKeyFieldError::Title),
    {
        capture_field(TITLE_PATTERN, html, 1, MissKeyFieldError::Title)
    }

    fn parse_anchor_name(&self, html: &str) -> (r: LsarResult<String>)
        ensures
            field_result(r, ANCHOR_PATTERN@, html@, 1, MissKeyFieldError::AnchorName),
    {
        capture_field(ANCHOR_PATTERN, html, 1, MissKeyFieldError::AnchorName)
    }

    /// The category, or an empty text where the page names none.
    fn parse_stream_category(&self, html: &str) -> (r: String)
        ensures
            r@ == match capture_spec(CATEGORY_PATTERN@, html@, 1) {
                Some(s) => s,
                None => Seq::empty(),
            },
    {
        match regex_capture(CATEGORY_PATTERN, html, 1) {
            Ok(Some(s)) => s,
            _ => String::new(),
        }
    }

    /// The result of a room whose play info is `room_info`, with the
    /// metadata read from its page. A room without a live path is offline,
    /// or a refused request where the response says so.
    pub fn parse(&self, room_info: RoomInfo, html: &str) -> (r: LsarResult<ParsedResult>)
        ensures
            stream_info_result(r, room_info, html@),
    {
        let live = match room_info.data.rtmp_live {
            Some(l) => l,
            None => {
                if room_info.error == Some(-15i32) {
                    return Err(LsarError::Request(RequestError::BadRequest));
                }
                return Err(LsarError::RoomState(RoomStateError::Offline));
            },
        };
        let mut link: Vec<char> = Vec::new();
        push_str(&mut link, room_info.data.rtmp_url.as_str());
        push_str(&mut link, "/");
        push_str(&mut link, live.as_str());
        let title = self.parse_stream_title(html)?;
        let anchor = self.parse_anchor_name(html)?;
        let room_id = self.extract_final_room_id(html)?;
        let category = self.parse_stream_category(html);
        let mut links: Vec<String> = Vec::new();
        links.push(string_of(link.as_slice()));
        Ok(ParsedResult { platform: Platform::Douyu, title, anchor, room_id, category, links })
    }
}

/// `prefix` followed by the decimal digits of `n`.
fn url_with_id(prefix: &str, n: u64) -> (r: Vec<char>)
    ensures
        r@ == prefix@ + decimal_of(n as nat),
{
    let mut out: Vec<char> = Vec::new();
    push_str(&mut out, prefix);
    push_decimal(&mut out, n as u128);
    out
}

/// The page of the room `room_id`.
pub fn room_page_url(room_id: u64) -> (r: String)
    ensures
        r@ == ROOM_PAGE_URL@ + decimal_of(room_id as nat),
{
    string_of(url_with_id(ROOM_PAGE_URL, room_id).as_slice())
}

/// The replay endpoint of the room `room_id`.
pub fn replay_url(room_id: u64) -> (r: String)
    ensures
        r@ == REPLAY_URL@ + decimal_of(room_id as nat),
{
    string_of(url_with_id(REPLAY_URL, room_id).as_slice())
}

/// The play-info endpoint asked first, with the parameters as query.
pub fn play_url(room_id: u64, params: &str) -> (r: String)
    ensures
        r@ == PLAY_URL@ + decimal_of(room_id as nat) + "?"@ + params@,
{
    let mut out = url_with_id(PLAY_URL, room_id);
    push_str(&mut out, "?");
    push_str(&mut out, params);
    string_of(out.as_slice())
}

/// The play-info endpoint asked once more, with the parameters as body.
pub fn play_post_url(room_id: u64) -> (r: String)
    ensures
        r@ == PLAY_POST_URL@ + decimal_of(room_id as nat),
{
    string_of(url_with_id(PLAY_POST_URL, room_id).as_slice())
}

/// The verdict on the replay flag: a room that loops a recording ends the
/// resolution; a missing flag counts as no replay.
pub fn check_replay(video_loop: Option<bool>) -> (r: LsarResult<()>)
    ensures
        video_loop == Some(true) ==> r == Err::<(), LsarError>(
            LsarError::RoomState(RoomStateError::IsReplay),
        ),
        video_loop != Some(true) ==> r is Ok,
{
    match video_loop {
        Some(true) => Err(LsarError::RoomState(RoomStateError::IsReplay)),
        _ => Ok(()),
    }
}

pub struct RoomInfoFetcher;

impl RoomInfoFetcher {
    /// Whether the first response must be asked again on the other host.
    pub fn needs_retry(body: &str) -> (r: bool)
        ensures
            r == contains_spec(body@, ILLEGAL_REQUEST_MARKER@),
    {
        contains(chars_of(body).as_slice(), chars_of(ILLEGAL_REQUEST_MARKER).as_slice())
    }

    /// The verdict on the numeric error code of the response: -15 is a
    /// refused request, -5 an offline room, and any other code goes on.
    pub fn classify_error_code(code: i64) -> (r: LsarResult<()>)
        ensures
            code == -15 ==> r == Err::<(), LsarError>(LsarError::Request(RequestError::BadRequest)),
            code == -5 ==> r == Err::<(), LsarError>(LsarError::RoomState(RoomStateError::Offline)),
            code != -15 && code != -5 ==> r is Ok,
    {
        if code == -15 {
            Err(LsarError::Request(RequestError::BadRequest))
        } else if code == -5 {
            Err(LsarError::RoomState(RoomStateError::Offline))
        } else {
            Ok(())
        }
    }

    /// The verdict on the message of a response with a non-zero error: the
    /// offline message and the refusal message end the resolution, any
    /// other goes on.
    pub fn validate_room_info(room_info: &RoomInfo) -> (r: LsarResult<()>)
        ensures
            match room_info.error {
                Some(e) if e != 0 => if room_info.msg@ == ROOM_OFFLINE_STATE@ {
                    r == Err::<(), LsarError>(LsarError::RoomState(RoomStateError::Offline))
                } else if room_info.msg@ == INVALID_REQUEST@ {
                    r == Err::<(), LsarError>(LsarError::Request(RequestError::BadRequest))
                } else {
                    r is Ok
                },
                _ => r is Ok,
            },
    {
        match room_info.error {
            Some(e) => {
                if e != 0 {
                    if str_eq(room_info.msg.as_str(), ROOM_OFFLINE_STATE) {
                        return Err(LsarError::RoomState(RoomStateError::Offline));
                    }
                    if str_eq(room_info.msg.as_str(), INVALID_REQUEST) {
                        return Err(LsarError::Request(RequestError::BadRequest));
                    }
                }
                Ok(())
            },
            None => Ok(()),
        }
    }
}

/// The signature function after the trailer rewrite.
pub open spec fn signature_function_spec(html: Seq<char>) -> Option<Option<Seq<char>>> {
    match regex_capture_of(SIGNATURE_FUNCTION_PATTERN@, html, 0) {
        None => None,
        Some(None) => Some(None),
        Some(Some(f)) => match regex_replace_of(EVAL_TRAILER_PATTERN@, f, EVAL_TRAILER_REPLACEMENT@) {
            None => None,
            Some(g) => Some(Some(g)),
        },
    }
}

/// The text submitted first: the function, then its call with the room, the
/// device and the time.
pub open spec fn first_source_spec(signature_function: Seq<char>, room_id: nat, timestamp: nat) -> Seq<
    char,
> {
    signature_function + "ub98484234("@ + decimal_of(room_id) + ", "@ + DEVICE_ID@ + ", "@
        + decimal_of(timestamp) + ")"@
}

/// The text whose digest replaces the digest call.
pub open spec fn digest_input_spec(room_id: nat, timestamp: nat, random_number: Seq<char>) -> Seq<
    char,
> {
    decimal_of(room_id) + DEVICE_ID@ + decimal_of(timestamp) + random_number
}

/// The first reply with the digest call replaced by the quoted digest, cut
/// after its last closing parenthesis.
pub open spec fn rewritten_spec(reply: Seq<char>, digest: Seq<char>) -> Option<Seq<char>> {
    let replaced = replace_spec(reply, MD5_CALL@, "\""@ + digest + "\""@);
    match rfind_char_spec(replaced, ')') {
        Some(i) => Some(replaced.subrange(0, i + 1)),
        None => None,
    }
}

/// The text submitted second: the rewritten function called with the room,
/// the quoted device and the time.
pub open spec fn call_spec(function: Seq<char>, room_id: nat, timestamp: nat) -> Seq<char> {
    function + "("@ + decimal_of(room_id) + ", \""@ + DEVICE_ID@ + "\", "@ + decimal_of(timestamp)
        + ")"@
}

/// The second source for the first reply `reply` and the digest `digest`.
pub open spec fn second_source_spec(reply: Seq<char>, digest: Seq<char>, room_id: nat, timestamp: nat) -> Option<
    Seq<char>,
> {
    match rewritten_spec(reply, digest) {
        Some(f) => Some(call_spec(f, room_id, timestamp)),
        None => None,
    }
}

pub struct SignatureGenerator;

impl SignatureGenerator {
    /// The signature function of the page, its trailer rewritten so that it
    /// evaluates to its inner source.
    pub fn extract_signature_function(html: &str) -> (r: LsarResult<String>)
        ensures
            match signature_function_spec(html@) {
                None => r matches Err(LsarError::Regex(_)),
                Some(None) => r == Err::<String, LsarError>(
                    LsarError::MissKeyField(MissKeyFieldError::SignatureFunction),
                ),
                Some(Some(g)) => r matches Ok(v) && v@ == g,
            },
    {
        let f = capture_field(
            SIGNATURE_FUNCTION_PATTERN,
            html,
            0,
            MissKeyFieldError::SignatureFunction,
        )?;
        match regex_replace(EVAL_TRAILER_PATTERN, f.as_str(), EVAL_TRAILER_REPLACEMENT) {
            Ok(g) => Ok(g),
            Err(e) => Err(LsarError::Regex(e)),
        }
    }

    /// The text submitted first to the evaluator.
    pub fn first_eval_source(signature_function: &str, room_id: u64, timestamp: u64) -> (r: String)
        ensures
            r@ == first_source_spec(signature_function@, room_id as nat, timestamp as nat),
    {
        let mut out: Vec<char> = Vec::new();
        push_str(&mut out, signature_function);
        push_str(&mut out, "ub98484234(");
        push_decimal(&mut out, room_id as u128);
        push_str(&mut out, ", ");
        push_str(&mut out, DEVICE_ID);
        push_str(&mut out, ", ");
        push_decimal(&mut out, timestamp as u128);
        push_str(&mut out, ")");
        string_of(out.as_slice())
    }

    /// The twelve-digit number in the first reply.
    pub fn extract_random_number(reply: &str) -> (r: LsarResult<String>)
        ensures
            field_result(r, RANDOM_NUMBER_PATTERN@, reply@, 0, MissKeyFieldError::RandomNumber),
    {
        capture_field(RANDOM_NUMBER_PATTERN, reply, 0, MissKeyFieldError::RandomNumber)
    }

    /// The text whose digest replaces the digest call.
    pub fn digest_input(room_id: u64, timestamp: u64, random_number: &str) -> (r: String)
        ensures
            r@ == digest_input_spec(room_id as nat, timestamp as nat, random_number@),
    {
        let mut out: Vec<char> = Vec::new();
        push_decimal(&mut out, room_id as u128);
        push_str(&mut out, DEVICE_ID);
        push_decimal(&mut out, timestamp as u128);
        push_str(&mut out, random_number);
        string_of(out.as_slice())
    }

    /// The second text to submit, given the first reply and the digest that
    /// replaces its digest call. A reply without a closing parenthesis holds
    /// no signature function.
    pub fn second_eval_source_with(reply: &str, digest: &str, room_id: u64, timestamp: u64) -> (r:
        LsarResult<String>)
        ensures
            match second_source_spec(reply@, digest@, room_id as nat, timestamp as nat) {
                Some(s) => r matches Ok(v) && v@ == s,
                None => r == Err::<String, LsarError>(
                    LsarError::MissKeyField(MissKeyFieldError::SignatureFunction),
                ),
            },
    {
        proof {
            reveal_strlit("CryptoJS.MD5(cb).toString()");
        }
        let mut quoted: Vec<char> = Vec::new();
        push_str(&mut quoted, "\"");
        push_str(&mut quoted, digest);
        push_str(&mut quoted, "\"");
        let replaced = replace_all(
            chars_of(reply).as_slice(),
            chars_of(MD5_CALL).as_slice(),
            quoted.as_slice(),
        );
        let _n = replaced.len();
        let end = match rfind_char(replaced.as_slice(), ')') {
            Some(i) => i,
            None => return Err(LsarError::MissKeyField(MissKeyFieldError::SignatureFunction)),
        };
        proof {
            lemma_rfind_char_bound(replaced@, ')');
        }
        let mut out: Vec<char> = Vec::new();
        push_range(&mut out, replaced.as_slice(), 0, end + 1);
        push_str(&mut out, "(");
        push_decimal(&mut out, room_id as u128);
        push_str(&mut out, ", \"");
        push_str(&mut out, DEVICE_ID);
        push_str(&mut out, "\", ");
        push_decimal(&mut out, timestamp as u128);
        push_str(&mut out, ")");
        Ok(string_of(out.as_slice()))
    }

    /// The second text to submit, given the first reply: the twelve-digit
    /// number is read from it, the digest computed, and the reply rewritten.
    pub fn second_eval_source(reply: &str, room_id: u64, timestamp: u64) -> (r: LsarResult<String>)
        ensures
            match regex_capture_of(RANDOM_NUMBER_PATTERN@, reply@, 0) {
                None => r matches Err(LsarError::Regex(_)),
                Some(None) => r == Err::<String, LsarError>(
                    LsarError::MissKeyField(MissKeyFieldError::RandomNumber),
                ),
                Some(Some(n)) => {
                    let digest = md5_hex_of(digest_input_spec(room_id as nat, timestamp as nat, n));
                    match second_source_spec(reply@, digest, room_id as nat, timestamp as nat) {
                        Some(s) => r matches Ok(v) && v@ == s,
                        None => r == Err::<String, LsarError>(
                            LsarError::MissKeyField(MissKeyFieldError::SignatureFunction),
                        ),
                    }
                },
            },
    {
        let random_number = SignatureGenerator::extract_random_number(reply)?;
        let input = SignatureGenerator::digest_input(room_id, timestamp, random_number.as_str());
        let digest = md5(input.as_str());
        SignatureGenerator::second_eval_source_with(reply, digest.as_str(), room_id, timestamp)
    }
}

proof fn lemma_rfind_char_bound(t: Seq<char>, c: char)
    ensures
        match rfind_char_spec(t, c) {
            Some(i) => 0 <= i < t.len(),
            None => true,
        },
    decreases t.len(),
{
    if t.len() > 0 && t.last() != c {
        lemma_rfind_char_bound(t.drop_last(), c);
    }
}

/// Where a Douyu resolution stands: what it waits for next.
#[derive(Debug, Clone, Copy, PartialEq, Eq, Structural)]
pub enum DouyuStage {
    /// Waits for the room page.
    FetchPage,
    /// Waits for the replay flag.
    CheckReplay,
    /// Waits for the evaluator's reply to the signature function.
    FirstEval,
    /// Waits for the evaluator's reply to the rewritten function: the
    /// request parameters.
    SecondEval,
    /// Waits for the play info asked with a GET.
    FetchRoomInfo,
    /// Waits for the play info asked once more with a POST.
    RetryRoomInfo,
    /// Finished.
    Done,
}

/// What the caller is to do next.
pub enum DouyuAction {
    /// Fetch the page at this url, as text.
    FetchPage(String),
    /// Fetch the JSON at this url and report its `room.videoLoop` flag.
    FetchReplayFlag(String),
    /// Hand this text to the script evaluator and report its reply.
    Eval(String),
    /// GET the play info at this url.
    GetPlayInfo(String),
    /// POST the body to this url for the play info.
    PostPlayInfo { url: String, body: String },
    /// The resolution is over.
    Finish(LsarResult<ParsedResult>),
}

/// A play-info response: its text, its numeric `error` field (zero where
/// absent), and the response decoded, or why it could not be.
pub struct PlayInfoReply {
    pub text: String,
    pub error_code: i64,
    pub info: Result<RoomInfo, String>,
}

/// What the caller reports back.
pub enum DouyuEvent {
    Page(String),
    ReplayFlag(Option<bool>),
    EvalReply(String),
    PlayInfo(PlayInfoReply),
    /// The last action failed.
    Failed(LsarError),
}

/// The result of a play-info reply: its error code, then its shape, then
/// its message, then the stream info with the page's metadata.
pub open spec fn play_info_result(r: LsarResult<ParsedResult>, reply: PlayInfoReply, html: Seq<char>) -> bool {
    if reply.error_code == -15 {
        r == Err::<ParsedResult, LsarError>(LsarError::Request(RequestError::BadRequest))
    } else if reply.error_code == -5 {
        r == Err::<ParsedResult, LsarError>(LsarError::RoomState(RoomStateError::Offline))
    } else {
        match reply.info {
            Err(m) => r == Err::<ParsedResult, LsarError>(LsarError::SerdeJSON(m)),
            Ok(info) => match info.error {
                Some(e) if e != 0 && info.msg@ == ROOM_OFFLINE_STATE@ => r == Err::<
                    ParsedResult,
                    LsarError,
                >(LsarError::RoomState(RoomStateError::Offline)),
                Some(e) if e != 0 && info.msg@ == INVALID_REQUEST@ => r == Err::<
                    ParsedResult,
                    LsarError,
                >(LsarError::Request(RequestError::BadRequest)),
                _ => stream_info_result(r, info, html),
            },
        }
    }
}

/// Whether a resolution at `stage` waits for an event of the kind of `event`.
pub open spec fn douyu_awaits(stage: DouyuStage, event: DouyuEvent) -> bool {
    (stage == DouyuStage::FetchPage && event is Page) || (stage == DouyuStage::CheckReplay && event is ReplayFlag) || (stage == DouyuStage::FirstEval && event is EvalReply) || (stage == DouyuStage::SecondEval && event is EvalReply) || (stage == DouyuStage::FetchRoomInfo && event is PlayInfo) || (stage == DouyuStage::RetryRoomInfo && event is PlayInfo)
}

/// One Douyu resolution, driven by the caller one event at a time.
pub struct DouyuParser {
    pub room_id: u64,
    pub final_room_id: u64,
    pub timestamp: u64,
    pub html: String,
    pub params: String,
    pub stage: DouyuStage,
}

impl DouyuParser {
    /// A resolution of the room `room_id` whose signature carries the time
    /// `timestamp`, in seconds, and the action that starts it.
    pub fn new(room_id: u64, timestamp: u64) -> (r: (DouyuParser, DouyuAction))
        ensures
            r.0.room_id == room_id,
            r.0.timestamp == timestamp,
            r.0.stage == DouyuStage::FetchPage,
            r.1 matches DouyuAction::FetchPage(u) && u@ == ROOM_PAGE_URL@ + decimal_of(
                room_id as nat,
            ),
    {
        let p = DouyuParser {
            room_id,
            final_room_id: 0,
            timestamp,
            html: String::new(),
            params: String::new(),
            stage: DouyuStage::FetchPage,
        };
        (p, DouyuAction::FetchPage(room_page_url(room_id)))
    }

    fn finish(&mut self, r: LsarResult<ParsedResult>) -> (a: DouyuAction)
        ensures
            final(self).stage == DouyuStage::Done,
            final(self).room_id == old(self).room_id,
            final(self).final_room_id == old(self).final_room_id,
            final(self).html == old(self).html,
            final(self).timestamp == old(self).timestamp,
            final(self).params == old(self).params,
            a == DouyuAction::Finish(r),
    {
        self.stage = DouyuStage::Done;
        DouyuAction::Finish(r)
    }

    fn on_play_info(&mut self, reply: PlayInfoReply) -> (a: DouyuAction)
        ensures
            final(self).stage == DouyuStage::Done,
            final(self).room_id == old(self).room_id,
            final(self).timestamp == old(self).timestamp,
            final(self).final_room_id == old(self).final_room_id,
            final(self).html == old(self).html,
            final(self).params == old(self).params,
            a matches DouyuAction::Finish(r) && play_info_result(r, reply, old(self).html@),
    {
        if let Err(e) = RoomInfoFetcher::classify_error_code(reply.error_code) {
            return self.finish(Err(e));
        }
        let info = match reply.info {
            Ok(info) => info,
            Err(m) => return self.finish(Err(LsarError::SerdeJSON(m))),
        };
        if let Err(e) = RoomInfoFetcher::validate_room_info(&info) {
            return self.finish(Err(e));
        }
        let parser = StreamInfoParser::new();
        let r = parser.parse(info, self.html.as_str());
        self.finish(r)
    }

    /// The next action after `event`. A failed action ends the resolution
    /// with its error; an event that the stage does not wait for ends it as
    /// well.
    pub fn step(&mut self, event: DouyuEvent) -> (a: DouyuAction)
        ensures
            !(old(self).stage == DouyuStage::FetchPage && event is Page) ==> final(self).final_room_id
                == old(self).final_room_id && final(self).html == old(self).html,
            !(old(self).stage == DouyuStage::SecondEval && event is EvalReply) ==> final(self).params
                == old(self).params,
            !(event is Failed) && !douyu_awaits(old(self).stage, event) ==> final(self).stage
                == DouyuStage::Done && (a matches DouyuAction::Finish(r) && r is Err),
            final(self).room_id == old(self).room_id,
            final(self).timestamp == old(self).timestamp,
            event matches DouyuEvent::Failed(e) ==> final(self).stage == DouyuStage::Done
                && a == DouyuAction::Finish(Err(e)),
            old(self).stage == DouyuStage::Done ==> final(self).stage == DouyuStage::Done && (a matches DouyuAction::Finish(r) && r is Err),
            old(self).stage == DouyuStage::FetchPage ==> match event {
                DouyuEvent::Page(html) => {
                let found = !contains_spec(html@, NOT_OPEN_MARKER@) && room_id_spec(html@) is Some;
                &&& found ==> final(self).stage == DouyuStage::CheckReplay
                    && final(self).final_room_id == room_id_spec(html@)->0
                    && final(self).html == html
                    && (a matches DouyuAction::FetchReplayFlag(u) && u@ == REPLAY_URL@ + decimal_of(
                    final(self).final_room_id as nat,
                ))
                &&& !found ==> final(self).stage == DouyuStage::Done && (a matches DouyuAction::Finish(
                    r,
                ) && (r matches Err(e) && room_id_result(Err::<u64, LsarError>(e), html@)))
            },
                _ => true,
            },
            old(self).stage == DouyuStage::CheckReplay ==> match event {
                DouyuEvent::ReplayFlag(v) => {
                &&& v == Some(true) ==> final(self).stage == DouyuStage::Done && a
                    == DouyuAction::Finish(
                    Err(LsarError::RoomState(RoomStateError::IsReplay)),
                )
                &&& v != Some(true) ==> match signature_function_spec(old(self).html@) {
                    Some(Some(f)) => final(self).stage == DouyuStage::FirstEval && (a matches DouyuAction::Eval(
                        s,
                    ) && s@ == first_source_spec(
                        f,
                        old(self).final_room_id as nat,
                        old(self).timestamp as nat,
                    )),
                    Some(None) => final(self).stage == DouyuStage::Done && a == DouyuAction::Finish(
                        Err(LsarError::MissKeyField(MissKeyFieldError::SignatureFunction)),
                    ),
                    None => final(self).stage == DouyuStage::Done && (a matches DouyuAction::Finish(
                        Err(LsarError::Regex(_)),
                    )),
                }
            },
                _ => true,
            },
            old(self).stage == DouyuStage::FirstEval ==> match event {
                DouyuEvent::EvalReply(reply) => {
                let id = old(self).final_room_id as nat;
                let ts = old(self).timestamp as nat;
                match regex_capture_of(RANDOM_NUMBER_PATTERN@, reply@, 0) {
                    Some(Some(n)) => match second_source_spec(
                        reply@,
                        md5_hex_of(digest_input_spec(id, ts, n)),
                        id,
                        ts,
                    ) {
                        Some(s) => final(self).stage == DouyuStage::SecondEval && (a matches DouyuAction::Eval(
                            v,
                        ) && v@ == s),
                        None => final(self).stage == DouyuStage::Done && a == DouyuAction::Finish(
                            Err(LsarError::MissKeyField(MissKeyFieldError::SignatureFunction)),
                        ),
                    },
                    Some(None) => final(self).stage == DouyuStage::Done && a == DouyuAction::Finish(
                        Err(LsarError::MissKeyField(MissKeyFieldError::RandomNumber)),
                    ),
                    None => final(self).stage == DouyuStage::Done && (a matches DouyuAction::Finish(
                        Err(LsarError::Regex(_)),
                    )),
                }
            },
                _ => true,
            },
            old(self).stage == DouyuStage::SecondEval ==> match event {
                DouyuEvent::EvalReply(params) => final(self).stage == DouyuStage::FetchRoomInfo && final(self).params == params
                && (a matches DouyuAction::GetPlayInfo(u) && u@ == PLAY_URL@ + decimal_of(
                old(self).final_room_id as nat,
            ) + "?"@ + params@),
                _ => true,
            },
            old(self).stage == DouyuStage::FetchRoomInfo ==> match event {
                DouyuEvent::PlayInfo(reply) => {
                &&& contains_spec(reply.text@, ILLEGAL_REQUEST_MARKER@) ==> final(self).stage
                    == DouyuStage::RetryRoomInfo && (a matches DouyuAction::PostPlayInfo { url, body }
                    && url@ == PLAY_POST_URL@ + decimal_of(old(self).final_room_id as nat) && body
                    == old(self).params)
                &&& !contains_spec(reply.text@, ILLEGAL_REQUEST_MARKER@) ==> final(self).stage
                    == DouyuStage::Done && (a matches DouyuAction::Finish(r) && play_info_result(
                    r,
                    reply,
                    old(self).html@,
                ))
            },
                _ => true,
            },
            old(self).stage == DouyuStage::RetryRoomInfo ==> match event {
                DouyuEvent::PlayInfo(reply) => final(self).stage == DouyuStage::Done && (a matches DouyuAction::Finish(r)
                && play_info_result(r, reply, old(self).html@)),
                _ => true,
            },
    {
        let stage = self.stage;
        match event {
            DouyuEvent::Failed(e) => self.finish(Err(e)),
            DouyuEvent::Page(html) => {
                if stage != DouyuStage::FetchPage {
                    return self.finish(Err(LsarError::other("Unexpected event")));
                }
                let parser = StreamInfoParser::new();
                match parser.extract_final_room_id(html.as_str()) {
                    Ok(id) => {
                        self.final_room_id = id;
                        self.html = html;
                        self.stage = DouyuStage::CheckReplay;
                        DouyuAction::FetchReplayFlag(replay_url(id))
                    },
                    Err(e) => self.finish(Err(e)),
                }
            },
            DouyuEvent::ReplayFlag(v) => {
                if stage != DouyuStage::CheckReplay {
                    return self.finish(Err(LsarError::other("Unexpected event")));
                }
                if let Err(e) = check_replay(v) {
                    return self.finish(Err(e));
                }
                match SignatureGenerator::extract_signature_function(self.html.as_str()) {
                    Ok(f) => {
                        self.stage = DouyuStage::FirstEval;
                        DouyuAction::Eval(
                            SignatureGenerator::first_eval_source(
                                f.as_str(),
                                self.final_room_id,
                                self.timestamp,
                            ),
                        )
                    },
                    Err(e) => self.finish(Err(e)),
                }
            },
            DouyuEvent::EvalReply(reply) => {
                if stage == DouyuStage::FirstEval {
                    match SignatureGenerator::second_eval_source(
                        reply.as_str(),
                        self.final_room_id,
                        self.timestamp,
                    ) {
                        Ok(s) => {
                            self.stage = DouyuStage::SecondEval;
                            DouyuAction::Eval(s)
                        },
                        Err(e) => self.finish(Err(e)),
                    }
                } else if stage == DouyuStage::SecondEval {
                    let url = play_url(self.final_room_id, reply.as_str());
                    self.params = reply;
                    self.stage = DouyuStage::FetchRoomInfo;
                    DouyuAction::GetPlayInfo(url)
                } else {
                    self.finish(Err(LsarError::other("Unexpected event")))
                }
            },
            DouyuEvent::PlayInfo(reply) => {
                if stage == DouyuStage::FetchRoomInfo {
                    if RoomInfoFetcher::needs_retry(reply.text.as_str()) {
                        self.stage = DouyuStage::RetryRoomInfo;
                        DouyuAction::PostPlayInfo {
                            url: play_post_url(self.final_room_id),
                            body: self.params.clone(),
                        }
                    } else {
                        self.on_play_info(reply)
                    }
                } else if stage == DouyuStage::RetryRoomInfo {
                    self.on_play_info(reply)
                } else {
                    self.finish(Err(LsarError::other("Unexpected event")))
                }
            },
        }
    }
}

/// A room that the play info shows not live ends as offline and never as a
/// result: by the error code -5, or by a missing live path.
pub proof fn lemma_not_live_is_offline(r: LsarResult<ParsedResult>, reply: PlayInfoReply, html: Seq<char>)
    requires
        play_info_result(r, reply, html),
        reply.error_code == -5 || (reply.error_code != -15 && reply.info is Ok
            && reply.info->Ok_0.data.rtmp_live is None && reply.info->Ok_0.error == Some(0i32)),
    ensures
        r == Err::<ParsedResult, LsarError>(LsarError::RoomState(RoomStateError::Offline)),
{
}

} // verus!
