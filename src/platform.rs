//! The four supported platforms and their stable integer codes.
use vstd::prelude::*;

verus! {

/// A streaming platform. The integer codes are a persisted contract.
#[derive(Debug, Clone, Copy, PartialEq, Eq, Structural)]
pub enum Platform {
    Douyu,
    Huya,
    Douyin,
    Bilibili,
}

impl Platform {
    /// The persisted code of the platform.
    pub open spec fn code(self) -> i64 {
        match self {
            Platform::Douyu => 0,
            Platform::Huya => 1,
            Platform::Douyin => 2,
            Platform::Bilibili => 3,
        }
    }

    /// The platform whose persisted code is `code`.
    pub open spec fn of_code(code: i64) -> Option<Platform> {
        if code == 0 {
            Some(Platform::Douyu)
        } else if code == 1 {
            Some(Platform::Huya)
        } else if code == 2 {
            Some(Platform::Douyin)
        } else if code == 3 {
            Some(Platform::Bilibili)
        } else {
            None
        }
    }

    /// The lower-case name of the platform.
    pub open spec fn name(self) -> Seq<char> {
        match self {
            Platform::Douyu => "douyu"@,
            Platform::Huya => "huya"@,
            Platform::Douyin => "douyin"@,
            Platform::Bilibili => "bilibili"@,
        }
    }

    pub fn as_i64(&self) -> (r: i64)
        ensures
            r == self.code(),
    {
        match self {
            Platform::Douyu => 0,
            Platform::Huya => 1,
            Platform::Douyin => 2,
            Platform::Bilibili => 3,
        }
    }

    pub fn to_str(&self) -> (r: &'static str)
        ensures
            r@ == self.name(),
    {
        match self {
            Platform::Douyu => "douyu",
            Platform::Huya => "huya",
            Platform::Douyin => "douyin",
            Platform::Bilibili => "bilibili",
        }
    }

    /// The platform with the persisted code `value`; codes outside 0..=3 are
    /// rejected.
    pub fn from_code(value: i64) -> (r: Result<Platform, &'static str>)
        ensures
            match Platform::of_code(value) {
                Some(p) => r == Ok::<Platform, &'static str>(p),
                None => r == Err::<Platform, &'static str>("Invalid platform value"),
            },
    {
        match value {
            0 => Ok(Platform::Douyu),
            1 => Ok(Platform::Huya),
            2 => Ok(Platform::Douyin),
            3 => Ok(Platform::Bilibili),
            _ => Err("Invalid platform value"),
        }
    }
}

impl vstd::std_specs::convert::TryFromSpecImpl<i64> for Platform {
    open spec fn obeys_try_from_spec() -> bool {
        true
    }

    open spec fn try_from_spec(v: i64) -> Result<Platform, &'static str> {
        match Platform::of_code(v) {
            Some(p) => Ok(p),
            None => Err("Invalid platform value"),
        }
    }
}

impl TryFrom<i64> for Platform {
    type Error = &'static str;

    fn try_from(value: i64) -> Result<Platform, &'static str> {
        Platform::from_code(value)
    }
}

/// Each platform's code leads back to the platform.
pub proof fn lemma_code_round_trip(p: Platform)
    ensures
        Platform::of_code(p.code()) == Some(p),
{
}

} // verus!
