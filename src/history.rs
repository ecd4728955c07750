//! A record of a room that was played, as the history store keeps it.
use vstd::prelude::*;

use crate::platform::Platform;

verus! {

/// A moment with its UTC offset: seconds since the Unix epoch, the
/// nanoseconds past that second, and the offset from UTC in seconds.
#[derive(Debug, Clone, Copy, PartialEq, Eq, Structural)]
pub struct PlayTime {
    pub unix_seconds: i64,
    pub nanosecond: u32,
    pub offset_seconds: i32,
}

impl PlayTime {
    /// The nanoseconds stay below one second and the offset below a day.
    pub open spec fn wf(self) -> bool {
        self.nanosecond < 1_000_000_000 && -86400 < self.offset_seconds < 86400
    }

    /// The moment, or `None` where a part is out of range.
    pub fn new(unix_seconds: i64, nanosecond: u32, offset_seconds: i32) -> (r: Option<PlayTime>)
        ensures
            match r {
                Some(t) => t.wf() && t.unix_seconds == unix_seconds && t.nanosecond == nanosecond
                    && t.offset_seconds == offset_seconds,
                None => !(nanosecond < 1_000_000_000 && -86400 < offset_seconds < 86400),
            },
    {
        if nanosecond < 1_000_000_000 && -86400 < offset_seconds && offset_seconds < 86400 {
            Some(PlayTime { unix_seconds, nanosecond, offset_seconds })
        } else {
            None
        }
    }
}

/// One entry of the play history.
#[derive(Debug, Clone, PartialEq, Eq)]
pub struct HistoryItem {
    pub id: i64,
    pub platform: Platform,
    pub room_id: i64,
    pub anchor: String,
    pub category: String,
    pub last_title: String,
    pub last_play_time: PlayTime,
}

impl HistoryItem {
    pub fn new(
        id: i64,
        platform: Platform,
        room_id: i64,
        anchor: String,
        category: String,
        last_title: String,
        last_play_time: PlayTime,
    ) -> (r: HistoryItem)
        ensures
            r.id == id,
            r.platform == platform,
            r.room_id == room_id,
            r.anchor == anchor,
            r.category == category,
            r.last_title == last_title,
            r.last_play_time == last_play_time,
    {
        HistoryItem { id, platform, room_id, anchor, category, last_title, last_play_time }
    }

    /// An entry from a stored row, whose platform is held as its code.
    pub fn from_row(
        id: i64,
        platform: i64,
        room_id: i64,
        anchor: String,
        category: String,
        last_title: String,
        last_play_time: PlayTime,
    ) -> (r: Result<HistoryItem, &'static str>)
        ensures
            match Platform::of_code(platform) {
                Some(p) => r matches Ok(h) && h.id == id && h.platform == p && h.room_id == room_id
                    && h.anchor == anchor && h.category == category && h.last_title == last_title
                    && h.last_play_time == last_play_time,
                None => r is Err,
            },
    {
        let p = Platform::from_code(platform)?;
        Ok(HistoryItem::new(id, p, room_id, anchor, category, last_title, last_play_time))
    }

    pub fn platform(&self) -> (r: &Platform)
        ensures
            *r == self.platform,
    {
        &self.platform
    }

    pub fn room_id(&self) -> (r: i64)
        ensures
            r == self.room_id,
    {
        self.room_id
    }

    pub fn anchor(&self) -> (r: &str)
        ensures
            r@ == self.anchor@,
    {
        self.anchor.as_str()
    }

    pub fn category(&self) -> (r: &str)
        ensures
            r@ == self.category@,
    {
        self.category.as_str()
    }

    pub fn last_title(&self) -> (r: &str)
        ensures
            r@ == self.last_title@,
    {
        self.last_title.as_str()
    }

    pub fn last_play_time(&self) -> (r: PlayTime)
        ensures
            r == self.last_play_time,
    {
        self.last_play_time
    }
}

} // verus!
