//! Audio quality and codec settings handed to the external fetch tool.

use crate::text::str_eq;
use vstd::prelude::*;
use vstd::string::StringExecFns;

verus! {

/// An ordered audio-quality tier. Concrete tiers carry a fixed kbps target;
/// `Worst` and `Best` are aliases whose meaning the external fetch tool
/// resolves itself. The declaration order is the quality order, worst first.
#[derive(Clone, Copy, Debug, PartialEq, Eq, Structural, PartialOrd, Ord, Hash)]
pub enum Bitrate {
    Worst,
    Worse,
    Poor,
    Low,
    Medium,
    Good,
    High,
    Best,
}

/// The compression format requested for the fetched audio.
#[derive(Clone, Copy, Debug, PartialEq, Eq, Structural, Hash)]
pub enum Codec {
    MP3,
    Flac,
    MPA,
    Opus,
}

/// The quality argument passed to the external fetch tool for each tier.
pub open spec fn spec_bitrate_label(b: Bitrate) -> Seq<char> {
    match b {
        Bitrate::Worst => "worst"@,
        Bitrate::Worse => "32"@,
        Bitrate::Poor => "96"@,
        Bitrate::Low => "128"@,
        Bitrate::Medium => "192"@,
        Bitrate::Good => "256"@,
        Bitrate::High => "320"@,
        Bitrate::Best => "best"@,
    }
}

/// The numeric kbps target of a tier; `None` for the two tool-resolved
/// aliases.
pub open spec fn spec_bitrate_kbps(b: Bitrate) -> Option<u32> {
    match b {
        Bitrate::Worst => None,
        Bitrate::Worse => Some(32u32),
        Bitrate::Poor => Some(96u32),
        Bitrate::Low => Some(128u32),
        Bitrate::Medium => Some(192u32),
        Bitrate::Good => Some(256u32),
        Bitrate::High => Some(320u32),
        Bitrate::Best => None,
    }
}

/// The position of a tier in the quality order, worst first.
pub open spec fn spec_bitrate_rank(b: Bitrate) -> u32 {
    match b {
        Bitrate::Worst => 0u32,
        Bitrate::Worse => 1u32,
        Bitrate::Poor => 2u32,
        Bitrate::Low => 3u32,
        Bitrate::Medium => 4u32,
        Bitrate::Good => 5u32,
        Bitrate::High => 6u32,
        Bitrate::Best => 7u32,
    }
}

/// The tier named by a quality string, if any.
pub open spec fn spec_parse_bitrate(s: Seq<char>) -> Option<Bitrate> {
    if s == "worst"@ {
        Some(Bitrate::Worst)
    } else if s == "32"@ {
        Some(Bitrate::Worse)
    } else if s == "96"@ {
        Some(Bitrate::Poor)
    } else if s == "128"@ {
        Some(Bitrate::Low)
    } else if s == "192"@ {
        Some(Bitrate::Medium)
    } else if s == "256"@ {
        Some(Bitrate::Good)
    } else if s == "320"@ {
        Some(Bitrate::High)
    } else if s == "best"@ {
        Some(Bitrate::Best)
    } else {
        None
    }
}

/// The tier named by its command-line name, if any.
pub open spec fn spec_parse_bitrate_name(s: Seq<char>) -> Option<Bitrate> {
    if s == "worst"@ {
        Some(Bitrate::Worst)
    } else if s == "worse"@ {
        Some(Bitrate::Worse)
    } else if s == "poor"@ {
        Some(Bitrate::Poor)
    } else if s == "low"@ {
        Some(Bitrate::Low)
    } else if s == "medium"@ {
        Some(Bitrate::Medium)
    } else if s == "good"@ {
        Some(Bitrate::Good)
    } else if s == "high"@ {
        Some(Bitrate::High)
    } else if s == "best"@ {
        Some(Bitrate::Best)
    } else {
        None
    }
}

/// The file extension and fetch-tool argument for a codec.
pub open spec fn spec_codec_label(c: Codec) -> Seq<char> {
    match c {
        Codec::MP3 => "mp3"@,
        Codec::Flac => "flac"@,
        Codec::MPA => "mpa"@,
        Codec::Opus => "opus"@,
    }
}

/// The codec named by a string, if any.
pub open spec fn spec_parse_codec(s: Seq<char>) -> Option<Codec> {
    if s == "mp3"@ {
        Some(Codec::MP3)
    } else if s == "flac"@ {
        Some(Codec::Flac)
    } else if s == "mpa"@ {
        Some(Codec::MPA)
    } else if s == "opus"@ {
        Some(Codec::Opus)
    } else {
        None
    }
}

impl Bitrate {
    /// The quality argument handed to the external fetch tool.
    pub fn label(self) -> (r: String)
        ensures
            r@ == spec_bitrate_label(self),
    {
        match self {
            Bitrate::Worst => String::from_str("worst"),
            Bitrate::Worse => String::from_str("32"),
            Bitrate::Poor => String::from_str("96"),
            Bitrate::Low => String::from_str("128"),
            Bitrate::Medium => String::from_str("192"),
            Bitrate::Good => String::from_str("256"),
            Bitrate::High => String::from_str("320"),
            Bitrate::Best => String::from_str("best"),
        }
    }

    /// The numeric kbps target, or `None` for a tool-resolved alias.
    pub fn kbps(self) -> (r: Option<u32>)
        ensures
            r == spec_bitrate_kbps(self),
    {
        match self {
            Bitrate::Worst => None,
            Bitrate::Worse => Some(32),
            Bitrate::Poor => Some(96),
            Bitrate::Low => Some(128),
            Bitrate::Medium => Some(192),
            Bitrate::Good => Some(256),
            Bitrate::High => Some(320),
            Bitrate::Best => None,
        }
    }

    /// The position in the quality order, worst first.
    pub fn rank(self) -> (r: u32)
        ensures
            r == spec_bitrate_rank(self),
    {
        match self {
            Bitrate::Worst => 0,
            Bitrate::Worse => 1,
            Bitrate::Poor => 2,
            Bitrate::Low => 3,
            Bitrate::Medium => 4,
            Bitrate::Good => 5,
            Bitrate::High => 6,
            Bitrate::Best => 7,
        }
    }
}

impl Codec {
    /// The file extension and fetch-tool argument for this codec.
    pub fn label(self) -> (r: String)
        ensures
            r@ == spec_codec_label(self),
    {
        match self {
            Codec::MP3 => String::from_str("mp3"),
            Codec::Flac => String::from_str("flac"),
            Codec::MPA => String::from_str("mpa"),
            Codec::Opus => String::from_str("opus"),
        }
    }
}

/// Parse a quality string (`"worst"`, `"32"`, ..., `"best"`) into a tier.
pub fn parse_bitrate(s: &str) -> (r: Option<Bitrate>)
    ensures
        r == spec_parse_bitrate(s@),
{
    if str_eq(s, "worst") {
        Some(Bitrate::Worst)
    } else if str_eq(s, "32") {
        Some(Bitrate::Worse)
    } else if str_eq(s, "96") {
        Some(Bitrate::Poor)
    } else if str_eq(s, "128") {
        Some(Bitrate::Low)
    } else if str_eq(s, "192") {
        Some(Bitrate::Medium)
    } else if str_eq(s, "256") {
        Some(Bitrate::Good)
    } else if str_eq(s, "320") {
        Some(Bitrate::High)
    } else if str_eq(s, "best") {
        Some(Bitrate::Best)
    } else {
        None
    }
}

/// Parse a tier's command-line name (`"worst"`, `"worse"`, ..., `"best"`).
pub fn parse_bitrate_name(s: &str) -> (r: Option<Bitrate>)
    ensures
        r == spec_parse_bitrate_name(s@),
{
    if str_eq(s, "worst") {
        Some(Bitrate::Worst)
    } else if str_eq(s, "worse") {
        Some(Bitrate::Worse)
    } else if str_eq(s, "poor") {
        Some(Bitrate::Poor)
    } else if str_eq(s, "low") {
        Some(Bitrate::Low)
    } else if str_eq(s, "medium") {
        Some(Bitrate::Medium)
    } else if str_eq(s, "good") {
        Some(Bitrate::Good)
    } else if str_eq(s, "high") {
        Some(Bitrate::High)
    } else if str_eq(s, "best") {
        Some(Bitrate::Best)
    } else {
        None
    }
}

/// Parse a codec name into a codec.
pub fn parse_codec(s: &str) -> (r: Option<Codec>)
    ensures
        r == spec_parse_codec(s@),
{
    if str_eq(s, "mp3") {
        Some(Codec::MP3)
    } else if str_eq(s, "flac") {
        Some(Codec::Flac)
    } else if str_eq(s, "mpa") {
        Some(Codec::MPA)
    } else if str_eq(s, "opus") {
        Some(Codec::Opus)
    } else {
        None
    }
}

/// Every tier's fetch-tool label parses back to that tier.
pub proof fn lemma_bitrate_label_round_trip(b: Bitrate)
    ensures
        spec_parse_bitrate(spec_bitrate_label(b)) == Some(b),
{
    reveal_strlit("worst");
    reveal_strlit("32");
    reveal_strlit("96");
    reveal_strlit("128");
    reveal_strlit("192");
    reveal_strlit("256");
    reveal_strlit("320");
    reveal_strlit("best");
    assert("worst"@.len() == 5);
    assert("32"@.len() == 2);
    assert("96"@.len() == 2);
    assert("128"@.len() == 3);
    assert("192"@.len() == 3);
    assert("256"@.len() == 3);
    assert("320"@.len() == 3);
    assert("best"@.len() == 4);
    assert("96"@[0] != "32"@[0]);
    assert("96"@ != "32"@);
    assert("192"@[1] != "128"@[1]);
    assert("192"@ != "128"@);
    assert("256"@[0] != "128"@[0]);
    assert("256"@ != "128"@);
    assert("256"@[0] != "192"@[0]);
    assert("256"@ != "192"@);
    assert("320"@[0] != "128"@[0]);
    assert("320"@ != "128"@);
    assert("320"@[0] != "192"@[0]);
    assert("320"@ != "192"@);
    assert("320"@[0] != "256"@[0]);
    assert("320"@ != "256"@);
}

/// Every codec's label parses back to that codec.
pub proof fn lemma_codec_label_round_trip(c: Codec)
    ensures
        spec_parse_codec(spec_codec_label(c)) == Some(c),
{
    reveal_strlit("mp3");
    reveal_strlit("flac");
    reveal_strlit("mpa");
    reveal_strlit("opus");
    assert("mpa"@[2] != "mp3"@[2]);
    assert("mpa"@ != "mp3"@);
    assert("opus"@[0] != "flac"@[0]);
    assert("opus"@ != "flac"@);
}

/// Concrete kbps targets grow with the quality order.
pub proof fn lemma_bitrate_kbps_monotone(a: Bitrate, b: Bitrate)
    requires
        spec_bitrate_rank(a) <= spec_bitrate_rank(b),
        spec_bitrate_kbps(a) is Some,
        spec_bitrate_kbps(b) is Some,
    ensures
        spec_bitrate_kbps(a)->0 <= spec_bitrate_kbps(b)->0,
{
}

} // verus!
