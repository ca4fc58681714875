use vstd::prelude::*;

verus! {

/// The operating system a node runs on, as carried in its metadata.
#[derive(Debug, Clone, Copy, PartialEq, Eq, Structural)]
pub enum Platform {
    Unknown,
    Windows,
    MacOS,
    Linux,
    IOS,
    Android,
}

/// The integer code of each platform on the wire and in storage.
pub open spec fn platform_code(p: Platform) -> i32 {
    match p {
        Platform::Unknown => 0,
        Platform::Windows => 1,
        Platform::MacOS => 2,
        Platform::Linux => 3,
        Platform::IOS => 4,
        Platform::Android => 5,
    }
}

impl Platform {
    /// The platform whose code is `code`, if there is one.
    pub fn from_int(code: i32) -> (r: Option<Platform>)
        ensures
            r matches Some(p) ==> platform_code(p) == code,
            r is None <==> !(0 <= code <= 5),
    {
        match code {
            0 => Some(Platform::Unknown),
            1 => Some(Platform::Windows),
            2 => Some(Platform::MacOS),
            3 => Some(Platform::Linux),
            4 => Some(Platform::IOS),
            5 => Some(Platform::Android),
            _ => None,
        }
    }

    /// The code of this platform.
    pub fn int_value(&self) -> (r: i32)
        ensures
            r == platform_code(*self),
    {
        match self {
            Platform::Unknown => 0,
            Platform::Windows => 1,
            Platform::MacOS => 2,
            Platform::Linux => 3,
            Platform::IOS => 4,
            Platform::Android => 5,
        }
    }
}

/// Decoding the code of a platform gives that platform back.
pub proof fn lemma_platform_code_round_trip(p: Platform)
    ensures
        0 <= platform_code(p) <= 5,
        forall|q: Platform| platform_code(q) == platform_code(p) ==> q == p,
{
}

} // verus!
