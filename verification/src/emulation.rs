//! The browsers whose TLS fingerprint the proxy can take on, and how a user names them.
use vstd::prelude::*;
use vstd::string::*;

use crate::text;

verus! {

broadcast use vstd::string::group_string_axioms;

/// A browser, by family.
#[derive(Clone, Copy, Debug, PartialEq, Eq, Structural)]
pub enum Browser {
    Chrome,
    Firefox,
    Safari,
    Edge,
    Opera,
}

/// A browser in one version.
#[derive(Clone, Copy, Debug, PartialEq, Eq, Structural)]
pub enum Emulation {
    Chrome100,
    Chrome101,
    Chrome104,
    Chrome105,
    Chrome106,
    Chrome107,
    Chrome108,
    Chrome109,
    Chrome110,
    Chrome114,
    Chrome116,
    Chrome117,
    Chrome118,
    Chrome119,
    Chrome120,
    Chrome123,
    Chrome124,
    Chrome126,
    Chrome127,
    Chrome128,
    Chrome129,
    Chrome130,
    Chrome131,
    Chrome132,
    Chrome133,
    Chrome134,
    Chrome135,
    Chrome136,
    Chrome137,
    Chrome138,
    Chrome139,
    Chrome140,
    Chrome141,
    Chrome142,
    Chrome143,
    Chrome144,
    Chrome145,
    Firefox109,
    Firefox117,
    Firefox128,
    Firefox133,
    Firefox135,
    Firefox136,
    Firefox139,
    Firefox142,
    Firefox143,
    Firefox144,
    Firefox145,
    Firefox146,
    Firefox147,
    Safari15_3,
    Safari15_5,
    Safari16,
    Safari16_5,
    Safari17_0,
    Safari17_5,
    Safari18,
    Safari18_2,
    Safari18_3,
    Safari18_5,
    Safari26,
    Safari26_1,
    Safari26_2,
    Edge101,
    Edge122,
    Edge127,
    Edge131,
    Edge134,
    Edge135,
    Edge136,
    Edge137,
    Edge138,
    Edge139,
    Edge140,
    Edge141,
    Edge142,
    Edge143,
    Edge144,
    Edge145,
    Opera116,
    Opera117,
    Opera118,
    Opera119,
}

/// Why a name stands for no emulation. Each holds the name as the user wrote it.
#[derive(Debug)]
pub enum EmulationError {
    UnknownVersion(Browser, String),
    UnknownBrowser(String),
}

/// The lowercase form of a text, after Unicode's rules.
pub uninterp spec fn lowercase(s: Seq<char>) -> Seq<char>;

/// Calls `str::to_lowercase`. The result is taken to depend on the text alone. Of ASCII text it is
/// the text with its capitals made small; of other text nothing more is claimed.
#[verifier::external_body]
pub(crate) fn to_lowercase(s: &str) -> (r: String)
    ensures
        r@ == lowercase(s@),
        text::is_ascii_text(s@) ==> r@ == text::small(s@),
{
    s.to_lowercase()
}

impl Browser {
    /// The word that names the family.
    pub open spec fn word(self) -> Seq<char> {
        match self {
            Browser::Chrome => "chrome"@,
            Browser::Firefox => "firefox"@,
            Browser::Safari => "safari"@,
            Browser::Edge => "edge"@,
            Browser::Opera => "opera"@,
        }
    }

    /// The word that names the family, as error messages write it.
    pub open spec fn title(self) -> Seq<char> {
        match self {
            Browser::Chrome => "Chrome"@,
            Browser::Firefox => "Firefox"@,
            Browser::Safari => "Safari"@,
            Browser::Edge => "Edge"@,
            Browser::Opera => "Opera"@,
        }
    }

    /// The version of the family that a text names.
    pub open spec fn version(self, v: Seq<char>) -> Option<Emulation> {
        match self {
            Browser::Chrome => chrome_version(v),
            Browser::Firefox => firefox_version(v),
            Browser::Safari => safari_version(v),
            Browser::Edge => edge_version(v),
            Browser::Opera => opera_version(v),
        }
    }
}

/// The versions of Chrome.
pub open spec fn chrome_version(v: Seq<char>) -> Option<Emulation> {
    if v == "100"@ {
        Some(Emulation::Chrome100)
    } else if v == "101"@ {
        Some(Emulation::Chrome101)
    } else if v == "104"@ {
        Some(Emulation::Chrome104)
    } else if v == "105"@ {
        Some(Emulation::Chrome105)
    } else if v == "106"@ {
        Some(Emulation::Chrome106)
    } else if v == "107"@ {
        Some(Emulation::Chrome107)
    } else if v == "108"@ {
        Some(Emulation::Chrome108)
    } else if v == "109"@ {
        Some(Emulation::Chrome109)
    } else if v == "110"@ {
        Some(Emulation::Chrome110)
    } else if v == "114"@ {
        Some(Emulation::Chrome114)
    } else if v == "116"@ {
        Some(Emulation::Chrome116)
    } else if v == "117"@ {
        Some(Emulation::Chrome117)
    } else if v == "118"@ {
        Some(Emulation::Chrome118)
    } else if v == "119"@ {
        Some(Emulation::Chrome119)
    } else if v == "120"@ {
        Some(Emulation::Chrome120)
    } else if v == "123"@ {
        Some(Emulation::Chrome123)
    } else if v == "124"@ {
        Some(Emulation::Chrome124)
    } else if v == "126"@ {
        Some(Emulation::Chrome126)
    } else if v == "127"@ {
        Some(Emulation::Chrome127)
    } else if v == "128"@ {
        Some(Emulation::Chrome128)
    } else if v == "129"@ {
        Some(Emulation::Chrome129)
    } else if v == "130"@ {
        Some(Emulation::Chrome130)
    } else if v == "131"@ {
        Some(Emulation::Chrome131)
    } else if v == "132"@ {
        Some(Emulation::Chrome132)
    } else if v == "133"@ {
        Some(Emulation::Chrome133)
    } else if v == "134"@ {
        Some(Emulation::Chrome134)
    } else if v == "135"@ {
        Some(Emulation::Chrome135)
    } else if v == "136"@ {
        Some(Emulation::Chrome136)
    } else if v == "137"@ {
        Some(Emulation::Chrome137)
    } else if v == "138"@ {
        Some(Emulation::Chrome138)
    } else if v == "139"@ {
        Some(Emulation::Chrome139)
    } else if v == "140"@ {
        Some(Emulation::Chrome140)
    } else if v == "141"@ {
        Some(Emulation::Chrome141)
    } else if v == "142"@ {
        Some(Emulation::Chrome142)
    } else if v == "143"@ {
        Some(Emulation::Chrome143)
    } else if v == "144"@ {
        Some(Emulation::Chrome144)
    } else if v == "145"@ {
        Some(Emulation::Chrome145)
    } else {
        None
    }
}

fn find_chrome_version(v: &str) -> (r: Option<Emulation>)
    ensures
        r == chrome_version(v@),
{
    if text::same(v, "100") {
        Some(Emulation::Chrome100)
    } else if text::same(v, "101") {
        Some(Emulation::Chrome101)
    } else if text::same(v, "104") {
        Some(Emulation::Chrome104)
    } else if text::same(v, "105") {
        Some(Emulation::Chrome105)
    } else if text::same(v, "106") {
        Some(Emulation::Chrome106)
    } else if text::same(v, "107") {
        Some(Emulation::Chrome107)
    } else if text::same(v, "108") {
        Some(Emulation::Chrome108)
    } else if text::same(v, "109") {
        Some(Emulation::Chrome109)
    } else if text::same(v, "110") {
        Some(Emulation::Chrome110)
    } else if text::same(v, "114") {
        Some(Emulation::Chrome114)
    } else if text::same(v, "116") {
        Some(Emulation::Chrome116)
    } else if text::same(v, "117") {
        Some(Emulation::Chrome117)
    } else if text::same(v, "118") {
        Some(Emulation::Chrome118)
    } else if text::same(v, "119") {
        Some(Emulation::Chrome119)
    } else if text::same(v, "120") {
        Some(Emulation::Chrome120)
    } else if text::same(v, "123") {
        Some(Emulation::Chrome123)
    } else if text::same(v, "124") {
        Some(Emulation::Chrome124)
    } else if text::same(v, "126") {
        Some(Emulation::Chrome126)
    } else if text::same(v, "127") {
        Some(Emulation::Chrome127)
    } else if text::same(v, "128") {
        Some(Emulation::Chrome128)
    } else if text::same(v, "129") {
        Some(Emulation::Chrome129)
    } else if text::same(v, "130") {
        Some(Emulation::Chrome130)
    } else if text::same(v, "131") {
        Some(Emulation::Chrome131)
    } else if text::same(v, "132") {
        Some(Emulation::Chrome132)
    } else if text::same(v, "133") {
        Some(Emulation::Chrome133)
    } else if text::same(v, "134") {
        Some(Emulation::Chrome134)
    } else if text::same(v, "135") {
        Some(Emulation::Chrome135)
    } else if text::same(v, "136") {
        Some(Emulation::Chrome136)
    } else if text::same(v, "137") {
        Some(Emulation::Chrome137)
    } else if text::same(v, "138") {
        Some(Emulation::Chrome138)
    } else if text::same(v, "139") {
        Some(Emulation::Chrome139)
    } else if text::same(v, "140") {
        Some(Emulation::Chrome140)
    } else if text::same(v, "141") {
        Some(Emulation::Chrome141)
    } else if text::same(v, "142") {
        Some(Emulation::Chrome142)
    } else if text::same(v, "143") {
        Some(Emulation::Chrome143)
    } else if text::same(v, "144") {
        Some(Emulation::Chrome144)
    } else if text::same(v, "145") {
        Some(Emulation::Chrome145)
    } else {
        None
    }
}

/// The versions of Firefox.
pub open spec fn firefox_version(v: Seq<char>) -> Option<Emulation> {
    if v == "109"@ {
        Some(Emulation::Firefox109)
    } else if v == "117"@ {
        Some(Emulation::Firefox117)
    } else if v == "128"@ {
        Some(Emulation::Firefox128)
    } else if v == "133"@ {
        Some(Emulation::Firefox133)
    } else if v == "135"@ {
        Some(Emulation::Firefox135)
    } else if v == "136"@ {
        Some(Emulation::Firefox136)
    } else if v == "139"@ {
        Some(Emulation::Firefox139)
    } else if v == "142"@ {
        Some(Emulation::Firefox142)
    } else if v == "143"@ {
        Some(Emulation::Firefox143)
    } else if v == "144"@ {
        Some(Emulation::Firefox144)
    } else if v == "145"@ {
        Some(Emulation::Firefox145)
    } else if v == "146"@ {
        Some(Emulation::Firefox146)
    } else if v == "147"@ {
        Some(Emulation::Firefox147)
    } else {
        None
    }
}

fn find_firefox_version(v: &str) -> (r: Option<Emulation>)
    ensures
        r == firefox_version(v@),
{
    if text::same(v, "109") {
        Some(Emulation::Firefox109)
    } else if text::same(v, "117") {
        Some(Emulation::Firefox117)
    } else if text::same(v, "128") {
        Some(Emulation::Firefox128)
    } else if text::same(v, "133") {
        Some(Emulation::Firefox133)
    } else if text::same(v, "135") {
        Some(Emulation::Firefox135)
    } else if text::same(v, "136") {
        Some(Emulation::Firefox136)
    } else if text::same(v, "139") {
        Some(Emulation::Firefox139)
    } else if text::same(v, "142") {
        Some(Emulation::Firefox142)
    } else if text::same(v, "143") {
        Some(Emulation::Firefox143)
    } else if text::same(v, "144") {
        Some(Emulation::Firefox144)
    } else if text::same(v, "145") {
        Some(Emulation::Firefox145)
    } else if text::same(v, "146") {
        Some(Emulation::Firefox146)
    } else if text::same(v, "147") {
        Some(Emulation::Firefox147)
    } else {
        None
    }
}

/// The versions of Safari.
pub open spec fn safari_version(v: Seq<char>) -> Option<Emulation> {
    if v == "15.3"@ {
        Some(Emulation::Safari15_3)
    } else if v == "15.5"@ {
        Some(Emulation::Safari15_5)
    } else if v == "16"@ {
        Some(Emulation::Safari16)
    } else if v == "16.5"@ {
        Some(Emulation::Safari16_5)
    } else if v == "17.0"@ {
        Some(Emulation::Safari17_0)
    } else if v == "17.5"@ {
        Some(Emulation::Safari17_5)
    } else if v == "18"@ {
        Some(Emulation::Safari18)
    } else if v == "18.2"@ {
        Some(Emulation::Safari18_2)
    } else if v == "18.3"@ {
        Some(Emulation::Safari18_3)
    } else if v == "18.5"@ {
        Some(Emulation::Safari18_5)
    } else if v == "26"@ {
        Some(Emulation::Safari26)
    } else if v == "26.1"@ {
        Some(Emulation::Safari26_1)
    } else if v == "26.2"@ {
        Some(Emulation::Safari26_2)
    } else {
        None
    }
}

fn find_safari_version(v: &str) -> (r: Option<Emulation>)
    ensures
        r == safari_version(v@),
{
    if text::same(v, "15.3") {
        Some(Emulation::Safari15_3)
    } else if text::same(v, "15.5") {
        Some(Emulation::Safari15_5)
    } else if text::same(v, "16") {
        Some(Emulation::Safari16)
    } else if text::same(v, "16.5") {
        Some(Emulation::Safari16_5)
    } else if text::same(v, "17.0") {
        Some(Emulation::Safari17_0)
    } else if text::same(v, "17.5") {
        Some(Emulation::Safari17_5)
    } else if text::same(v, "18") {
        Some(Emulation::Safari18)
    } else if text::same(v, "18.2") {
        Some(Emulation::Safari18_2)
    } else if text::same(v, "18.3") {
        Some(Emulation::Safari18_3)
    } else if text::same(v, "18.5") {
        Some(Emulation::Safari18_5)
    } else if text::same(v, "26") {
        Some(Emulation::Safari26)
    } else if text::same(v, "26.1") {
        Some(Emulation::Safari26_1)
    } else if text::same(v, "26.2") {
        Some(Emulation::Safari26_2)
    } else {
        None
    }
}

/// The versions of Edge.
pub open spec fn edge_version(v: Seq<char>) -> Option<Emulation> {
    if v == "101"@ {
        Some(Emulation::Edge101)
    } else if v == "122"@ {
        Some(Emulation::Edge122)
    } else if v == "127"@ {
        Some(Emulation::Edge127)
    } else if v == "131"@ {
        Some(Emulation::Edge131)
    } else if v == "134"@ {
        Some(Emulation::Edge134)
    } else if v == "135"@ {
        Some(Emulation::Edge135)
    } else if v == "136"@ {
        Some(Emulation::Edge136)
    } else if v == "137"@ {
        Some(Emulation::Edge137)
    } else if v == "138"@ {
        Some(Emulation::Edge138)
    } else if v == "139"@ {
        Some(Emulation::Edge139)
    } else if v == "140"@ {
        Some(Emulation::Edge140)
    } else if v == "141"@ {
        Some(Emulation::Edge141)
    } else if v == "142"@ {
        Some(Emulation::Edge142)
    } else if v == "143"@ {
        Some(Emulation::Edge143)
    } else if v == "144"@ {
        Some(Emulation::Edge144)
    } else if v == "145"@ {
        Some(Emulation::Edge145)
    } else {
        None
    }
}

fn find_edge_version(v: &str) -> (r: Option<Emulation>)
    ensures
        r == edge_version(v@),
{
    if text::same(v, "101") {
        Some(Emulation::Edge101)
    } else if text::same(v, "122") {
        Some(Emulation::Edge122)
    } else if text::same(v, "127") {
        Some(Emulation::Edge127)
    } else if text::same(v, "131") {
        Some(Emulation::Edge131)
    } else if text::same(v, "134") {
        Some(Emulation::Edge134)
    } else if text::same(v, "135") {
        Some(Emulation::Edge135)
    } else if text::same(v, "136") {
        Some(Emulation::Edge136)
    } else if text::same(v, "137") {
        Some(Emulation::Edge137)
    } else if text::same(v, "138") {
        Some(Emulation::Edge138)
    } else if text::same(v, "139") {
        Some(Emulation::Edge139)
    } else if text::same(v, "140") {
        Some(Emulation::Edge140)
    } else if text::same(v, "141") {
        Some(Emulation::Edge141)
    } else if text::same(v, "142") {
        Some(Emulation::Edge142)
    } else if text::same(v, "143") {
        Some(Emulation::Edge143)
    } else if text::same(v, "144") {
        Some(Emulation::Edge144)
    } else if text::same(v, "145") {
        Some(Emulation::Edge145)
    } else {
        None
    }
}

/// The versions of Opera.
pub open spec fn opera_version(v: Seq<char>) -> Option<Emulation> {
    if v == "116"@ {
        Some(Emulation::Opera116)
    } else if v == "117"@ {
        Some(Emulation::Opera117)
    } else if v == "118"@ {
        Some(Emulation::Opera118)
    } else if v == "119"@ {
        Some(Emulation::Opera119)
    } else {
        None
    }
}

fn find_opera_version(v: &str) -> (r: Option<Emulation>)
    ensures
        r == opera_version(v@),
{
    if text::same(v, "116") {
        Some(Emulation::Opera116)
    } else if text::same(v, "117") {
        Some(Emulation::Opera117)
    } else if text::same(v, "118") {
        Some(Emulation::Opera118)
    } else if text::same(v, "119") {
        Some(Emulation::Opera119)
    } else {
        None
    }
}

/// The emulation that a whole word stands for.
pub open spec fn whole_word(s: Seq<char>) -> Option<Emulation> {
    if s == "firefox"@ || s == "ff"@ {
        Some(Emulation::Firefox147)
    } else if s == "chrome"@ || s == "cr"@ {
        Some(Emulation::Chrome145)
    } else if s == "safari"@ || s == "sf"@ {
        Some(Emulation::Safari26_2)
    } else if s == "edge"@ {
        Some(Emulation::Edge145)
    } else if s == "opera"@ {
        Some(Emulation::Opera119)
    } else {
        None
    }
}

/// The family whose word a text begins with.
pub open spec fn leading_browser(s: Seq<char>) -> Option<Browser> {
    if text::begins_with(s, Browser::Chrome.word()) {
        Some(Browser::Chrome)
    } else if text::begins_with(s, Browser::Firefox.word()) {
        Some(Browser::Firefox)
    } else if text::begins_with(s, Browser::Safari.word()) {
        Some(Browser::Safari)
    } else if text::begins_with(s, Browser::Edge.word()) {
        Some(Browser::Edge)
    } else if text::begins_with(s, Browser::Opera.word()) {
        Some(Browser::Opera)
    } else {
        None
    }
}

/// What a name comes to, given the name lowered once and lowered twice: a whole word, or else a
/// family's word with a version behind it. The family is `None` where no family leads the name.
pub open spec fn emulation_of(once: Seq<char>, twice: Seq<char>) -> Result<
    Emulation,
    Option<Browser>,
> {
    match whole_word(once) {
        Some(e) => Ok(e),
        None => match leading_browser(twice) {
            Some(b) => match b.version(twice.skip(b.word().len() as int)) {
                Some(e) => Ok(e),
                None => Err(Some(b)),
            },
            None => Err(None),
        },
    }
}

/// Whether `error` reports that `name` was refused for the reason `why`.
pub open spec fn refuses(error: EmulationError, name: Seq<char>, why: Option<Browser>) -> bool {
    match error {
        EmulationError::UnknownVersion(b, s) => why == Some(b) && s@ == name,
        EmulationError::UnknownBrowser(s) => why is None && s@ == name,
    }
}

/// Whether a name is read as `once` and `twice`, the name lowered once and lowered twice, say.
pub open spec fn reads(
    r: Result<Emulation, EmulationError>,
    name: Seq<char>,
    once: Seq<char>,
    twice: Seq<char>,
) -> bool {
    match (r, emulation_of(once, twice)) {
        (Ok(e), Ok(named)) => e == named,
        (Err(error), Err(why)) => refuses(error, name, why),
        _ => false,
    }
}

/// Reads the name of an emulation. The case of ASCII letters does not count.
pub fn parse_emulation(s: &str) -> (r: Result<Emulation, EmulationError>)
    ensures
        reads(r, s@, lowercase(s@), lowercase(lowercase(s@))),
        text::is_ascii_text(s@) ==> reads(r, s@, text::small(s@), text::small(s@)),
{
    let once: String = to_lowercase(s);
    let twice: String = to_lowercase(once.as_str());
    proof {
        if text::is_ascii_text(s@) {
            text::lemma_small_is_idempotent(s@);
        }
    }
    parse_lowered(s, once.as_str(), twice.as_str())
}

/// Reads the name of an emulation, given the name lowered once and lowered twice.
pub fn parse_lowered(s: &str, once: &str, twice: &str) -> (r: Result<Emulation, EmulationError>)
    ensures
        reads(r, s@, once@, twice@),
{
    if text::same(once, "firefox") || text::same(once, "ff") {
        return Ok(Emulation::Firefox147);
    }
    if text::same(once, "chrome") || text::same(once, "cr") {
        return Ok(Emulation::Chrome145);
    }
    if text::same(once, "safari") || text::same(once, "sf") {
        return Ok(Emulation::Safari26_2);
    }
    if text::same(once, "edge") {
        return Ok(Emulation::Edge145);
    }
    if text::same(once, "opera") {
        return Ok(Emulation::Opera119);
    }

    if let Some(version) = text::strip(twice, "chrome") {
        return match find_chrome_version(version) {
            Some(e) => Ok(e),
            None => Err(EmulationError::UnknownVersion(Browser::Chrome, s.to_owned())),
        };
    }
    if let Some(version) = text::strip(twice, "firefox") {
        return match find_firefox_version(version) {
            Some(e) => Ok(e),
            None => Err(EmulationError::UnknownVersion(Browser::Firefox, s.to_owned())),
        };
    }
    if let Some(version) = text::strip(twice, "safari") {
        return match find_safari_version(version) {
            Some(e) => Ok(e),
            None => Err(EmulationError::UnknownVersion(Browser::Safari, s.to_owned())),
        };
    }
    if let Some(version) = text::strip(twice, "edge") {
        return match find_edge_version(version) {
            Some(e) => Ok(e),
            None => Err(EmulationError::UnknownVersion(Browser::Edge, s.to_owned())),
        };
    }
    if let Some(version) = text::strip(twice, "opera") {
        return match find_opera_version(version) {
            Some(e) => Ok(e),
            None => Err(EmulationError::UnknownVersion(Browser::Opera, s.to_owned())),
        };
    }
    Err(EmulationError::UnknownBrowser(s.to_owned()))
}

impl EmulationError {
    /// The text of the message.
    pub open spec fn text(self) -> Seq<char> {
        match self {
            EmulationError::UnknownVersion(b, s) => "Unknown "@ + b.title() + " version: "@ + s@,
            EmulationError::UnknownBrowser(s) => "Unknown browser emulation: '"@ + s@
                + "'. Use firefox, chrome, safari, edge, or opera (optionally with version, e.g. firefox136)"@,
        }
    }

    /// The message for the user.
    pub fn message(&self) -> (r: String)
        ensures
            r@ == self.text(),
    {
        match self {
            EmulationError::UnknownVersion(b, s) => {
                let title: &str = match b {
                    Browser::Chrome => "Chrome",
                    Browser::Firefox => "Firefox",
                    Browser::Safari => "Safari",
                    Browser::Edge => "Edge",
                    Browser::Opera => "Opera",
                };
                let mut r: String = text::chain("Unknown ", title);
                r.append(" version: ");
                r.append(s.as_str());
                r
            },
            EmulationError::UnknownBrowser(s) => {
                let mut r: String = text::chain("Unknown browser emulation: '", s.as_str());
                r.append(
                    "'. Use firefox, chrome, safari, edge, or opera (optionally with version, e.g. firefox136)",
                );
                r
            },
        }
    }
}

impl Emulation {
    /// The family of the browser.
    pub open spec fn browser(self) -> Browser {
        match self {
            Emulation::Chrome100
            | Emulation::Chrome101
            | Emulation::Chrome104
            | Emulation::Chrome105
            | Emulation::Chrome106
            | Emulation::Chrome107
            | Emulation::Chrome108
            | Emulation::Chrome109
            | Emulation::Chrome110
            | Emulation::Chrome114
            | Emulation::Chrome116
            | Emulation::Chrome117
            | Emulation::Chrome118
            | Emulation::Chrome119
            | Emulation::Chrome120
            | Emulation::Chrome123
            | Emulation::Chrome124
            | Emulation::Chrome126
            | Emulation::Chrome127
            | Emulation::Chrome128
            | Emulation::Chrome129
            | Emulation::Chrome130
            | Emulation::Chrome131
            | Emulation::Chrome132
            | Emulation::Chrome133
            | Emulation::Chrome134
            | Emulation::Chrome135
            | Emulation::Chrome136
            | Emulation::Chrome137
            | Emulation::Chrome138
            | Emulation::Chrome139
            | Emulation::Chrome140
            | Emulation::Chrome141
            | Emulation::Chrome142
            | Emulation::Chrome143
            | Emulation::Chrome144
            | Emulation::Chrome145 => Browser::Chrome,
            Emulation::Firefox109
            | Emulation::Firefox117
            | Emulation::Firefox128
            | Emulation::Firefox133
            | Emulation::Firefox135
            | Emulation::Firefox136
            | Emulation::Firefox139
            | Emulation::Firefox142
            | Emulation::Firefox143
            | Emulation::Firefox144
            | Emulation::Firefox145
            | Emulation::Firefox146
            | Emulation::Firefox147 => Browser::Firefox,
            Emulation::Safari15_3
            | Emulation::Safari15_5
            | Emulation::Safari16
            | Emulation::Safari16_5
            | Emulation::Safari17_0
            | Emulation::Safari17_5
            | Emulation::Safari18
            | Emulation::Safari18_2
            | Emulation::Safari18_3
            | Emulation::Safari18_5
            | Emulation::Safari26
            | Emulation::Safari26_1
            | Emulation::Safari26_2 => Browser::Safari,
            Emulation::Edge101
            | Emulation::Edge122
            | Emulation::Edge127
            | Emulation::Edge131
            | Emulation::Edge134
            | Emulation::Edge135
            | Emulation::Edge136
            | Emulation::Edge137
            | Emulation::Edge138
            | Emulation::Edge139
            | Emulation::Edge140
            | Emulation::Edge141
            | Emulation::Edge142
            | Emulation::Edge143
            | Emulation::Edge144
            | Emulation::Edge145 => Browser::Edge,
            Emulation::Opera116
            | Emulation::Opera117
            | Emulation::Opera118
            | Emulation::Opera119 => Browser::Opera,
        }
    }

    /// The version, as a user writes it.
    pub open spec fn version_text(self) -> Seq<char> {
        match self {
            Emulation::Chrome100 => "100"@,
            Emulation::Chrome101 => "101"@,
            Emulation::Chrome104 => "104"@,
            Emulation::Chrome105 => "105"@,
            Emulation::Chrome106 => "106"@,
            Emulation::Chrome107 => "107"@,
            Emulation::Chrome108 => "108"@,
            Emulation::Chrome109 => "109"@,
            Emulation::Chrome110 => "110"@,
            Emulation::Chrome114 => "114"@,
            Emulation::Chrome116 => "116"@,
            Emulation::Chrome117 => "117"@,
            Emulation::Chrome118 => "118"@,
            Emulation::Chrome119 => "119"@,
            Emulation::Chrome120 => "120"@,
            Emulation::Chrome123 => "123"@,
            Emulation::Chrome124 => "124"@,
            Emulation::Chrome126 => "126"@,
            Emulation::Chrome127 => "127"@,
            Emulation::Chrome128 => "128"@,
            Emulation::Chrome129 => "129"@,
            Emulation::Chrome130 => "130"@,
            Emulation::Chrome131 => "131"@,
            Emulation::Chrome132 => "132"@,
            Emulation::Chrome133 => "133"@,
            Emulation::Chrome134 => "134"@,
            Emulation::Chrome135 => "135"@,
            Emulation::Chrome136 => "136"@,
            Emulation::Chrome137 => "137"@,
            Emulation::Chrome138 => "138"@,
            Emulation::Chrome139 => "139"@,
            Emulation::Chrome140 => "140"@,
            Emulation::Chrome141 => "141"@,
            Emulation::Chrome142 => "142"@,
            Emulation::Chrome143 => "143"@,
            Emulation::Chrome144 => "144"@,
            Emulation::Chrome145 => "145"@,
            Emulation::Firefox109 => "109"@,
            Emulation::Firefox117 => "117"@,
            Emulation::Firefox128 => "128"@,
            Emulation::Firefox133 => "133"@,
            Emulation::Firefox135 => "135"@,
            Emulation::Firefox136 => "136"@,
            Emulation::Firefox139 => "139"@,
            Emulation::Firefox142 => "142"@,
            Emulation::Firefox143 => "143"@,
            Emulation::Firefox144 => "144"@,
            Emulation::Firefox145 => "145"@,
            Emulation::Firefox146 => "146"@,
            Emulation::Firefox147 => "147"@,
            Emulation::Safari15_3 => "15.3"@,
            Emulation::Safari15_5 => "15.5"@,
            Emulation::Safari16 => "16"@,
            Emulation::Safari16_5 => "16.5"@,
            Emulation::Safari17_0 => "17.0"@,
            Emulation::Safari17_5 => "17.5"@,
            Emulation::Safari18 => "18"@,
            Emulation::Safari18_2 => "18.2"@,
            Emulation::Safari18_3 => "18.3"@,
            Emulation::Safari18_5 => "18.5"@,
            Emulation::Safari26 => "26"@,
            Emulation::Safari26_1 => "26.1"@,
            Emulation::Safari26_2 => "26.2"@,
            Emulation::Edge101 => "101"@,
            Emulation::Edge122 => "122"@,
            Emulation::Edge127 => "127"@,
            Emulation::Edge131 => "131"@,
            Emulation::Edge134 => "134"@,
            Emulation::Edge135 => "135"@,
            Emulation::Edge136 => "136"@,
            Emulation::Edge137 => "137"@,
            Emulation::Edge138 => "138"@,
            Emulation::Edge139 => "139"@,
            Emulation::Edge140 => "140"@,
            Emulation::Edge141 => "141"@,
            Emulation::Edge142 => "142"@,
            Emulation::Edge143 => "143"@,
            Emulation::Edge144 => "144"@,
            Emulation::Edge145 => "145"@,
            Emulation::Opera116 => "116"@,
            Emulation::Opera117 => "117"@,
            Emulation::Opera118 => "118"@,
            Emulation::Opera119 => "119"@,
        }
    }

    /// A name of the emulation: the family's word, and the version right behind it.
    pub open spec fn full_name(self) -> Seq<char> {
        self.browser().word() + self.version_text()
    }
}

/// The first four letters of a text, with blanks where it has fewer.
spec fn letters(v: Seq<char>) -> (char, char, char, char) {
    let at = |i: int| if i < v.len() {
        v[i]
    } else {
        ' '
    };
    (at(0), at(1), at(2), at(3))
}

/// What the versions are, letter by letter: so each differs from the others.
proof fn lemma_version_texts()
    ensures
        letters("16"@) == ('1', '6', ' ', ' '),
        letters("18"@) == ('1', '8', ' ', ' '),
        letters("26"@) == ('2', '6', ' ', ' '),
        letters("100"@) == ('1', '0', '0', ' '),
        letters("101"@) == ('1', '0', '1', ' '),
        letters("104"@) == ('1', '0', '4', ' '),
        letters("105"@) == ('1', '0', '5', ' '),
        letters("106"@) == ('1', '0', '6', ' '),
        letters("107"@) == ('1', '0', '7', ' '),
        letters("108"@) == ('1', '0', '8', ' '),
        letters("109"@) == ('1', '0', '9', ' '),
        letters("110"@) == ('1', '1', '0', ' '),
        letters("114"@) == ('1', '1', '4', ' '),
        letters("116"@) == ('1', '1', '6', ' '),
        letters("117"@) == ('1', '1', '7', ' '),
        letters("118"@) == ('1', '1', '8', ' '),
        letters("119"@) == ('1', '1', '9', ' '),
        letters("120"@) == ('1', '2', '0', ' '),
        letters("122"@) == ('1', '2', '2', ' '),
        letters("123"@) == ('1', '2', '3', ' '),
        letters("124"@) == ('1', '2', '4', ' '),
        letters("126"@) == ('1', '2', '6', ' '),
        letters("127"@) == ('1', '2', '7', ' '),
        letters("128"@) == ('1', '2', '8', ' '),
        letters("129"@) == ('1', '2', '9', ' '),
        letters("130"@) == ('1', '3', '0', ' '),
        letters("131"@) == ('1', '3', '1', ' '),
        letters("132"@) == ('1', '3', '2', ' '),
        letters("133"@) == ('1', '3', '3', ' '),
        letters("134"@) == ('1', '3', '4', ' '),
        letters("135"@) == ('1', '3', '5', ' '),
        letters("136"@) == ('1', '3', '6', ' '),
        letters("137"@) == ('1', '3', '7', ' '),
        letters("138"@) == ('1', '3', '8', ' '),
        letters("139"@) == ('1', '3', '9', ' '),
        letters("140"@) == ('1', '4', '0', ' '),
        letters("141"@) == ('1', '4', '1', ' '),
        letters("142"@) == ('1', '4', '2', ' '),
        letters("143"@) == ('1', '4', '3', ' '),
        letters("144"@) == ('1', '4', '4', ' '),
        letters("145"@) == ('1', '4', '5', ' '),
        letters("146"@) == ('1', '4', '6', ' '),
        letters("147"@) == ('1', '4', '7', ' '),
        letters("15.3"@) == ('1', '5', '.', '3'),
        letters("15.5"@) == ('1', '5', '.', '5'),
        letters("16.5"@) == ('1', '6', '.', '5'),
        letters("17.0"@) == ('1', '7', '.', '0'),
        letters("17.5"@) == ('1', '7', '.', '5'),
        letters("18.2"@) == ('1', '8', '.', '2'),
        letters("18.3"@) == ('1', '8', '.', '3'),
        letters("18.5"@) == ('1', '8', '.', '5'),
        letters("26.1"@) == ('2', '6', '.', '1'),
        letters("26.2"@) == ('2', '6', '.', '2'),
{
    reveal_strlit("16");
    reveal_strlit("18");
    reveal_strlit("26");
    reveal_strlit("100");
    reveal_strlit("101");
    reveal_strlit("104");
    reveal_strlit("105");
    reveal_strlit("106");
    reveal_strlit("107");
    reveal_strlit("108");
    reveal_strlit("109");
    reveal_strlit("110");
    reveal_strlit("114");
    reveal_strlit("116");
    reveal_strlit("117");
    reveal_strlit("118");
    reveal_strlit("119");
    reveal_strlit("120");
    reveal_strlit("122");
    reveal_strlit("123");
    reveal_strlit("124");
    reveal_strlit("126");
    reveal_strlit("127");
    reveal_strlit("128");
    reveal_strlit("129");
    reveal_strlit("130");
    reveal_strlit("131");
    reveal_strlit("132");
    reveal_strlit("133");
    reveal_strlit("134");
    reveal_strlit("135");
    reveal_strlit("136");
    reveal_strlit("137");
    reveal_strlit("138");
    reveal_strlit("139");
    reveal_strlit("140");
    reveal_strlit("141");
    reveal_strlit("142");
    reveal_strlit("143");
    reveal_strlit("144");
    reveal_strlit("145");
    reveal_strlit("146");
    reveal_strlit("147");
    reveal_strlit("15.3");
    reveal_strlit("15.5");
    reveal_strlit("16.5");
    reveal_strlit("17.0");
    reveal_strlit("17.5");
    reveal_strlit("18.2");
    reveal_strlit("18.3");
    reveal_strlit("18.5");
    reveal_strlit("26.1");
    reveal_strlit("26.2");
}

proof fn lemma_version(e: Emulation)
    ensures
        e.browser().version(e.version_text()) == Some(e),
        e.version_text().len() > 0,
{
    lemma_version_texts();
    assert(letters(e.version_text()).0 != ' ');
}

proof fn lemma_full_name(e: Emulation)
    ensures
        whole_word(e.full_name()) is None,
        leading_browser(e.full_name()) == Some(e.browser()),
        e.browser().version(e.full_name().skip(e.browser().word().len() as int)) == Some(e),
{
    let name = e.full_name();
    let b = e.browser();
    reveal_strlit("chrome");
    reveal_strlit("firefox");
    reveal_strlit("safari");
    reveal_strlit("edge");
    reveal_strlit("opera");
    reveal_strlit("cr");
    reveal_strlit("ff");
    reveal_strlit("sf");
    lemma_version(e);
    assert(name.take(b.word().len() as int) =~= b.word());
    assert(name.skip(b.word().len() as int) =~= e.version_text());
    assert(name[0] == b.word()[0]);
    assert(name[1] == b.word()[1]);
    assert(name.len() > b.word().len());
    assert(whole_word(name) is None);
    assert(forall|p: Seq<char>| #[trigger] text::begins_with(name, p) && p.len() > 0 ==> p[0] == name.take(p.len() as int)[0]);
    assert(leading_browser(name) == Some(b));
}

/// Every emulation has a name: its full name, written in small letters, stands for it.
pub proof fn law_every_emulation_has_a_name(e: Emulation)
    ensures
        emulation_of(e.full_name(), e.full_name()) == Ok::<Emulation, Option<Browser>>(e),
{
    lemma_full_name(e);
}

/// A refused name is the full name of no emulation.
pub proof fn law_no_full_name_is_refused(once: Seq<char>, twice: Seq<char>, e: Emulation)
    requires
        emulation_of(once, twice) is Err,
    ensures
        twice != e.full_name(),
{
    lemma_full_name(e);
}

proof fn lemma_version_is_read(b: Browser, v: Seq<char>, e: Emulation)
    requires
        b.version(v) == Some(e),
    ensures
        e.browser() == b,
        e.version_text() == v,
{
}

proof fn lemma_versioned_name(once: Seq<char>, twice: Seq<char>, e: Emulation)
    requires
        whole_word(once) is None,
        emulation_of(once, twice) == Ok::<Emulation, Option<Browser>>(e),
    ensures
        twice == e.full_name(),
{
    let b = leading_browser(twice)->0;
    let n = b.word().len() as int;
    lemma_version_is_read(b, twice.skip(n), e);
    assert(twice =~= twice.take(n) + twice.skip(n));
    assert(twice.take(n) == b.word());
}

/// Two names with versions stand for the same emulation exactly where they are the same once they
/// are lowered as they are read.
pub proof fn law_versioned_names_are_told_apart(
    once: Seq<char>,
    twice: Seq<char>,
    other_once: Seq<char>,
    other_twice: Seq<char>,
)
    requires
        whole_word(once) is None,
        whole_word(other_once) is None,
        emulation_of(once, twice) is Ok,
        emulation_of(other_once, other_twice) is Ok,
    ensures
        emulation_of(once, twice) == emulation_of(other_once, other_twice) <==> twice
            == other_twice,
{
    lemma_versioned_name(once, twice, emulation_of(once, twice)->Ok_0);
    lemma_versioned_name(other_once, other_twice, emulation_of(other_once, other_twice)->Ok_0);
}

/// Two ASCII names with versions stand for the same emulation exactly where they are equal up to
/// the case of their letters.
pub proof fn law_case_never_matters(name: Seq<char>, other: Seq<char>)
    requires
        text::is_ascii_text(name),
        text::is_ascii_text(other),
        whole_word(text::small(name)) is None,
        whole_word(text::small(other)) is None,
        emulation_of(text::small(name), text::small(name)) is Ok,
        emulation_of(text::small(other), text::small(other)) is Ok,
    ensures
        emulation_of(text::small(name), text::small(name)) == emulation_of(
            text::small(other),
            text::small(other),
        ) <==> text::same_ignoring_case(name, other),
{
    law_versioned_names_are_told_apart(
        text::small(name),
        text::small(name),
        text::small(other),
        text::small(other),
    );
    text::lemma_small_is_case_blind(name, other);
}

/// The filters on media types, in the form in which they are compared.
pub fn lower_mime_filters(filters: &Vec<String>) -> (r: Vec<String>)
    ensures
        text::texts(r@) == text::texts(filters@).map_values(|s: Seq<char>| lowercase(s)),
        forall|i: int|
            0 <= i < filters@.len() && text::is_ascii_text(#[trigger] filters@[i]@) ==> r@[i]@
                == text::small(filters@[i]@),
{
    let mut r: Vec<String> = Vec::new();
    let mut i: usize = 0;
    while i < filters.len()
        invariant
            i <= filters@.len(),
            r@.len() == i,
            forall|j: int| 0 <= j < i ==> (#[trigger] r@[j])@ == lowercase(filters@[j]@),
            forall|j: int|
                0 <= j < i && text::is_ascii_text(#[trigger] filters@[j]@) ==> r@[j]@
                    == text::small(filters@[j]@),
        decreases filters@.len() - i,
    {
        r.push(to_lowercase(filters[i].as_str()));
        i = i + 1;
    }
    proof {
        assert(text::texts(r@) =~= text::texts(filters@).map_values(|s: Seq<char>| lowercase(s)));
    }
    r
}

/// The full names of Chrome, each of which tells the version that it stands for.
pub proof fn law_chrome_versions_have_their_names()
    ensures
        Emulation::Chrome100.full_name() == "chrome100"@,
        Emulation::Chrome101.full_name() == "chrome101"@,
        Emulation::Chrome104.full_name() == "chrome104"@,
        Emulation::Chrome105.full_name() == "chrome105"@,
        Emulation::Chrome106.full_name() == "chrome106"@,
        Emulation::Chrome107.full_name() == "chrome107"@,
        Emulation::Chrome108.full_name() == "chrome108"@,
        Emulation::Chrome109.full_name() == "chrome109"@,
        Emulation::Chrome110.full_name() == "chrome110"@,
        Emulation::Chrome114.full_name() == "chrome114"@,
        Emulation::Chrome116.full_name() == "chrome116"@,
        Emulation::Chrome117.full_name() == "chrome117"@,
        Emulation::Chrome118.full_name() == "chrome118"@,
        Emulation::Chrome119.full_name() == "chrome119"@,
        Emulation::Chrome120.full_name() == "chrome120"@,
        Emulation::Chrome123.full_name() == "chrome123"@,
        Emulation::Chrome124.full_name() == "chrome124"@,
        Emulation::Chrome126.full_name() == "chrome126"@,
        Emulation::Chrome127.full_name() == "chrome127"@,
        Emulation::Chrome128.full_name() == "chrome128"@,
        Emulation::Chrome129.full_name() == "chrome129"@,
        Emulation::Chrome130.full_name() == "chrome130"@,
        Emulation::Chrome131.full_name() == "chrome131"@,
        Emulation::Chrome132.full_name() == "chrome132"@,
        Emulation::Chrome133.full_name() == "chrome133"@,
        Emulation::Chrome134.full_name() == "chrome134"@,
        Emulation::Chrome135.full_name() == "chrome135"@,
        Emulation::Chrome136.full_name() == "chrome136"@,
        Emulation::Chrome137.full_name() == "chrome137"@,
        Emulation::Chrome138.full_name() == "chrome138"@,
        Emulation::Chrome139.full_name() == "chrome139"@,
        Emulation::Chrome140.full_name() == "chrome140"@,
        Emulation::Chrome141.full_name() == "chrome141"@,
        Emulation::Chrome142.full_name() == "chrome142"@,
        Emulation::Chrome143.full_name() == "chrome143"@,
        Emulation::Chrome144.full_name() == "chrome144"@,
        Emulation::Chrome145.full_name() == "chrome145"@,
{
    assert(Emulation::Chrome100.full_name() == "chrome100"@) by {
        reveal_strlit("chrome");
        reveal_strlit("100");
        reveal_strlit("chrome100");
        assert(Emulation::Chrome100.full_name() =~= "chrome100"@);
    }
    assert(Emulation::Chrome101.full_name() == "chrome101"@) by {
        reveal_strlit("chrome");
        reveal_strlit("101");
        reveal_strlit("chrome101");
        assert(Emulation::Chrome101.full_name() =~= "chrome101"@);
    }
    assert(Emulation::Chrome104.full_name() == "chrome104"@) by {
        reveal_strlit("chrome");
        reveal_strlit("104");
        reveal_strlit("chrome104");
        assert(Emulation::Chrome104.full_name() =~= "chrome104"@);
    }
    assert(Emulation::Chrome105.full_name() == "chrome105"@) by {
        reveal_strlit("chrome");
        reveal_strlit("105");
        reveal_strlit("chrome105");
        assert(Emulation::Chrome105.full_name() =~= "chrome105"@);
    }
    assert(Emulation::Chrome106.full_name() == "chrome106"@) by {
        reveal_strlit("chrome");
        reveal_strlit("106");
        reveal_strlit("chrome106");
        assert(Emulation::Chrome106.full_name() =~= "chrome106"@);
    }
    assert(Emulation::Chrome107.full_name() == "chrome107"@) by {
        reveal_strlit("chrome");
        reveal_strlit("107");
        reveal_strlit("chrome107");
        assert(Emulation::Chrome107.full_name() =~= "chrome107"@);
    }
    assert(Emulation::Chrome108.full_name() == "chrome108"@) by {
        reveal_strlit("chrome");
        reveal_strlit("108");
        reveal_strlit("chrome108");
        assert(Emulation::Chrome108.full_name() =~= "chrome108"@);
    }
    assert(Emulation::Chrome109.full_name() == "chrome109"@) by {
        reveal_strlit("chrome");
        reveal_strlit("109");
        reveal_strlit("chrome109");
        assert(Emulation::Chrome109.full_name() =~= "chrome109"@);
    }
    assert(Emulation::Chrome110.full_name() == "chrome110"@) by {
        reveal_strlit("chrome");
        reveal_strlit("110");
        reveal_strlit("chrome110");
        assert(Emulation::Chrome110.full_name() =~= "chrome110"@);
    }
    assert(Emulation::Chrome114.full_name() == "chrome114"@) by {
        reveal_strlit("chrome");
        reveal_strlit("114");
        reveal_strlit("chrome114");
        assert(Emulation::Chrome114.full_name() =~= "chrome114"@);
    }
    assert(Emulation::Chrome116.full_name() == "chrome116"@) by {
        reveal_strlit("chrome");
        reveal_strlit("116");
        reveal_strlit("chrome116");
        assert(Emulation::Chrome116.full_name() =~= "chrome116"@);
    }
    assert(Emulation::Chrome117.full_name() == "chrome117"@) by {
        reveal_strlit("chrome");
        reveal_strlit("117");
        reveal_strlit("chrome117");
        assert(Emulation::Chrome117.full_name() =~= "chrome117"@);
    }
    assert(Emulation::Chrome118.full_name() == "chrome118"@) by {
        reveal_strlit("chrome");
        reveal_strlit("118");
        reveal_strlit("chrome118");
        assert(Emulation::Chrome118.full_name() =~= "chrome118"@);
    }
    assert(Emulation::Chrome119.full_name() == "chrome119"@) by {
        reveal_strlit("chrome");
        reveal_strlit("119");
        reveal_strlit("chrome119");
        assert(Emulation::Chrome119.full_name() =~= "chrome119"@);
    }
    assert(Emulation::Chrome120.full_name() == "chrome120"@) by {
        reveal_strlit("chrome");
        reveal_strlit("120");
        reveal_strlit("chrome120");
        assert(Emulation::Chrome120.full_name() =~= "chrome120"@);
    }
    assert(Emulation::Chrome123.full_name() == "chrome123"@) by {
        reveal_strlit("chrome");
        reveal_strlit("123");
        reveal_strlit("chrome123");
        assert(Emulation::Chrome123.full_name() =~= "chrome123"@);
    }
    assert(Emulation::Chrome124.full_name() == "chrome124"@) by {
        reveal_strlit("chrome");
        reveal_strlit("124");
        reveal_strlit("chrome124");
        assert(Emulation::Chrome124.full_name() =~= "chrome124"@);
    }
    assert(Emulation::Chrome126.full_name() == "chrome126"@) by {
        reveal_strlit("chrome");
        reveal_strlit("126");
        reveal_strlit("chrome126");
        assert(Emulation::Chrome126.full_name() =~= "chrome126"@);
    }
    assert(Emulation::Chrome127.full_name() == "chrome127"@) by {
        reveal_strlit("chrome");
        reveal_strlit("127");
        reveal_strlit("chrome127");
        assert(Emulation::Chrome127.full_name() =~= "chrome127"@);
    }
    assert(Emulation::Chrome128.full_name() == "chrome128"@) by {
        reveal_strlit("chrome");
        reveal_strlit("128");
        reveal_strlit("chrome128");
        assert(Emulation::Chrome128.full_name() =~= "chrome128"@);
    }
    assert(Emulation::Chrome129.full_name() == "chrome129"@) by {
        reveal_strlit("chrome");
        reveal_strlit("129");
        reveal_strlit("chrome129");
        assert(Emulation::Chrome129.full_name() =~= "chrome129"@);
    }
    assert(Emulation::Chrome130.full_name() == "chrome130"@) by {
        reveal_strlit("chrome");
        reveal_strlit("130");
        reveal_strlit("chrome130");
        assert(Emulation::Chrome130.full_name() =~= "chrome130"@);
    }
    assert(Emulation::Chrome131.full_name() == "chrome131"@) by {
        reveal_strlit("chrome");
        reveal_strlit("131");
        reveal_strlit("chrome131");
        assert(Emulation::Chrome131.full_name() =~= "chrome131"@);
    }
    assert(Emulation::Chrome132.full_name() == "chrome132"@) by {
        reveal_strlit("chrome");
        reveal_strlit("132");
        reveal_strlit("chrome132");
        assert(Emulation::Chrome132.full_name() =~= "chrome132"@);
    }
    assert(Emulation::Chrome133.full_name() == "chrome133"@) by {
        reveal_strlit("chrome");
        reveal_strlit("133");
        reveal_strlit("chrome133");
        assert(Emulation::Chrome133.full_name() =~= "chrome133"@);
    }
    assert(Emulation::Chrome134.full_name() == "chrome134"@) by {
        reveal_strlit("chrome");
        reveal_strlit("134");
        reveal_strlit("chrome134");
        assert(Emulation::Chrome134.full_name() =~= "chrome134"@);
    }
    assert(Emulation::Chrome135.full_name() == "chrome135"@) by {
        reveal_strlit("chrome");
        reveal_strlit("135");
        reveal_strlit("chrome135");
        assert(Emulation::Chrome135.full_name() =~= "chrome135"@);
    }
    assert(Emulation::Chrome136.full_name() == "chrome136"@) by {
        reveal_strlit("chrome");
        reveal_strlit("136");
        reveal_strlit("chrome136");
        assert(Emulation::Chrome136.full_name() =~= "chrome136"@);
    }
    assert(Emulation::Chrome137.full_name() == "chrome137"@) by {
        reveal_strlit("chrome");
        reveal_strlit("137");
        reveal_strlit("chrome137");
        assert(Emulation::Chrome137.full_name() =~= "chrome137"@);
    }
    assert(Emulation::Chrome138.full_name() == "chrome138"@) by {
        reveal_strlit("chrome");
        reveal_strlit("138");
        reveal_strlit("chrome138");
        assert(Emulation::Chrome138.full_name() =~= "chrome138"@);
    }
    assert(Emulation::Chrome139.full_name() == "chrome139"@) by {
        reveal_strlit("chrome");
        reveal_strlit("139");
        reveal_strlit("chrome139");
        assert(Emulation::Chrome139.full_name() =~= "chrome139"@);
    }
    assert(Emulation::Chrome140.full_name() == "chrome140"@) by {
        reveal_strlit("chrome");
        reveal_strlit("140");
        reveal_strlit("chrome140");
        assert(Emulation::Chrome140.full_name() =~= "chrome140"@);
    }
    assert(Emulation::Chrome141.full_name() == "chrome141"@) by {
        reveal_strlit("chrome");
        reveal_strlit("141");
        reveal_strlit("chrome141");
        assert(Emulation::Chrome141.full_name() =~= "chrome141"@);
    }
    assert(Emulation::Chrome142.full_name() == "chrome142"@) by {
        reveal_strlit("chrome");
        reveal_strlit("142");
        reveal_strlit("chrome142");
        assert(Emulation::Chrome142.full_name() =~= "chrome142"@);
    }
    assert(Emulation::Chrome143.full_name() == "chrome143"@) by {
        reveal_strlit("chrome");
        reveal_strlit("143");
        reveal_strlit("chrome143");
        assert(Emulation::Chrome143.full_name() =~= "chrome143"@);
    }
    assert(Emulation::Chrome144.full_name() == "chrome144"@) by {
        reveal_strlit("chrome");
        reveal_strlit("144");
        reveal_strlit("chrome144");
        assert(Emulation::Chrome144.full_name() =~= "chrome144"@);
    }
    assert(Emulation::Chrome145.full_name() == "chrome145"@) by {
        reveal_strlit("chrome");
        reveal_strlit("145");
        reveal_strlit("chrome145");
        assert(Emulation::Chrome145.full_name() =~= "chrome145"@);
    }
}

/// The full names of Firefox, each of which tells the version that it stands for.
pub proof fn law_firefox_versions_have_their_names()
    ensures
        Emulation::Firefox109.full_name() == "firefox109"@,
        Emulation::Firefox117.full_name() == "firefox117"@,
        Emulation::Firefox128.full_name() == "firefox128"@,
        Emulation::Firefox133.full_name() == "firefox133"@,
        Emulation::Firefox135.full_name() == "firefox135"@,
        Emulation::Firefox136.full_name() == "firefox136"@,
        Emulation::Firefox139.full_name() == "firefox139"@,
        Emulation::Firefox142.full_name() == "firefox142"@,
        Emulation::Firefox143.full_name() == "firefox143"@,
        Emulation::Firefox144.full_name() == "firefox144"@,
        Emulation::Firefox145.full_name() == "firefox145"@,
        Emulation::Firefox146.full_name() == "firefox146"@,
        Emulation::Firefox147.full_name() == "firefox147"@,
{
    assert(Emulation::Firefox109.full_name() == "firefox109"@) by {
        reveal_strlit("firefox");
        reveal_strlit("109");
        reveal_strlit("firefox109");
        assert(Emulation::Firefox109.full_name() =~= "firefox109"@);
    }
    assert(Emulation::Firefox117.full_name() == "firefox117"@) by {
        reveal_strlit("firefox");
        reveal_strlit("117");
        reveal_strlit("firefox117");
        assert(Emulation::Firefox117.full_name() =~= "firefox117"@);
    }
    assert(Emulation::Firefox128.full_name() == "firefox128"@) by {
        reveal_strlit("firefox");
        reveal_strlit("128");
        reveal_strlit("firefox128");
        assert(Emulation::Firefox128.full_name() =~= "firefox128"@);
    }
    assert(Emulation::Firefox133.full_name() == "firefox133"@) by {
        reveal_strlit("firefox");
        reveal_strlit("133");
        reveal_strlit("firefox133");
        assert(Emulation::Firefox133.full_name() =~= "firefox133"@);
    }
    assert(Emulation::Firefox135.full_name() == "firefox135"@) by {
        reveal_strlit("firefox");
        reveal_strlit("135");
        reveal_strlit("firefox135");
        assert(Emulation::Firefox135.full_name() =~= "firefox135"@);
    }
    assert(Emulation::Firefox136.full_name() == "firefox136"@) by {
        reveal_strlit("firefox");
        reveal_strlit("136");
        reveal_strlit("firefox136");
        assert(Emulation::Firefox136.full_name() =~= "firefox136"@);
    }
    assert(Emulation::Firefox139.full_name() == "firefox139"@) by {
        reveal_strlit("firefox");
        reveal_strlit("139");
        reveal_strlit("firefox139");
        assert(Emulation::Firefox139.full_name() =~= "firefox139"@);
    }
    assert(Emulation::Firefox142.full_name() == "firefox142"@) by {
        reveal_strlit("firefox");
        reveal_strlit("142");
        reveal_strlit("firefox142");
        assert(Emulation::Firefox142.full_name() =~= "firefox142"@);
    }
    assert(Emulation::Firefox143.full_name() == "firefox143"@) by {
        reveal_strlit("firefox");
        reveal_strlit("143");
        reveal_strlit("firefox143");
        assert(Emulation::Firefox143.full_name() =~= "firefox143"@);
    }
    assert(Emulation::Firefox144.full_name() == "firefox144"@) by {
        reveal_strlit("firefox");
        reveal_strlit("144");
        reveal_strlit("firefox144");
        assert(Emulation::Firefox144.full_name() =~= "firefox144"@);
    }
    assert(Emulation::Firefox145.full_name() == "firefox145"@) by {
        reveal_strlit("firefox");
        reveal_strlit("145");
        reveal_strlit("firefox145");
        assert(Emulation::Firefox145.full_name() =~= "firefox145"@);
    }
    assert(Emulation::Firefox146.full_name() == "firefox146"@) by {
        reveal_strlit("firefox");
        reveal_strlit("146");
        reveal_strlit("firefox146");
        assert(Emulation::Firefox146.full_name() =~= "firefox146"@);
    }
    assert(Emulation::Firefox147.full_name() == "firefox147"@) by {
        reveal_strlit("firefox");
        reveal_strlit("147");
        reveal_strlit("firefox147");
        assert(Emulation::Firefox147.full_name() =~= "firefox147"@);
    }
}

/// The full names of Safari, each of which tells the version that it stands for.
pub proof fn law_safari_versions_have_their_names()
    ensures
        Emulation::Safari15_3.full_name() == "safari15.3"@,
        Emulation::Safari15_5.full_name() == "safari15.5"@,
        Emulation::Safari16.full_name() == "safari16"@,
        Emulation::Safari16_5.full_name() == "safari16.5"@,
        Emulation::Safari17_0.full_name() == "safari17.0"@,
        Emulation::Safari17_5.full_name() == "safari17.5"@,
        Emulation::Safari18.full_name() == "safari18"@,
        Emulation::Safari18_2.full_name() == "safari18.2"@,
        Emulation::Safari18_3.full_name() == "safari18.3"@,
        Emulation::Safari18_5.full_name() == "safari18.5"@,
        Emulation::Safari26.full_name() == "safari26"@,
        Emulation::Safari26_1.full_name() == "safari26.1"@,
        Emulation::Safari26_2.full_name() == "safari26.2"@,
{
    assert(Emulation::Safari15_3.full_name() == "safari15.3"@) by {
        reveal_strlit("safari");
        reveal_strlit("15.3");
        reveal_strlit("safari15.3");
        assert(Emulation::Safari15_3.full_name() =~= "safari15.3"@);
    }
    assert(Emulation::Safari15_5.full_name() == "safari15.5"@) by {
        reveal_strlit("safari");
        reveal_strlit("15.5");
        reveal_strlit("safari15.5");
        assert(Emulation::Safari15_5.full_name() =~= "safari15.5"@);
    }
    assert(Emulation::Safari16.full_name() == "safari16"@) by {
        reveal_strlit("safari");
        reveal_strlit("16");
        reveal_strlit("safari16");
        assert(Emulation::Safari16.full_name() =~= "safari16"@);
    }
    assert(Emulation::Safari16_5.full_name() == "safari16.5"@) by {
        reveal_strlit("safari");
        reveal_strlit("16.5");
        reveal_strlit("safari16.5");
        assert(Emulation::Safari16_5.full_name() =~= "safari16.5"@);
    }
    assert(Emulation::Safari17_0.full_name() == "safari17.0"@) by {
        reveal_strlit("safari");
        reveal_strlit("17.0");
        reveal_strlit("safari17.0");
        assert(Emulation::Safari17_0.full_name() =~= "safari17.0"@);
    }
    assert(Emulation::Safari17_5.full_name() == "safari17.5"@) by {
        reveal_strlit("safari");
        reveal_strlit("17.5");
        reveal_strlit("safari17.5");
        assert(Emulation::Safari17_5.full_name() =~= "safari17.5"@);
    }
    assert(Emulation::Safari18.full_name() == "safari18"@) by {
        reveal_strlit("safari");
        reveal_strlit("18");
        reveal_strlit("safari18");
        assert(Emulation::Safari18.full_name() =~= "safari18"@);
    }
    assert(Emulation::Safari18_2.full_name() == "safari18.2"@) by {
        reveal_strlit("safari");
        reveal_strlit("18.2");
        reveal_strlit("safari18.2");
        assert(Emulation::Safari18_2.full_name() =~= "safari18.2"@);
    }
    assert(Emulation::Safari18_3.full_name() == "safari18.3"@) by {
        reveal_strlit("safari");
        reveal_strlit("18.3");
        reveal_strlit("safari18.3");
        assert(Emulation::Safari18_3.full_name() =~= "safari18.3"@);
    }
    assert(Emulation::Safari18_5.full_name() == "safari18.5"@) by {
        reveal_strlit("safari");
        reveal_strlit("18.5");
        reveal_strlit("safari18.5");
        assert(Emulation::Safari18_5.full_name() =~= "safari18.5"@);
    }
    assert(Emulation::Safari26.full_name() == "safari26"@) by {
        reveal_strlit("safari");
        reveal_strlit("26");
        reveal_strlit("safari26");
        assert(Emulation::Safari26.full_name() =~= "safari26"@);
    }
    assert(Emulation::Safari26_1.full_name() == "safari26.1"@) by {
        reveal_strlit("safari");
        reveal_strlit("26.1");
        reveal_strlit("safari26.1");
        assert(Emulation::Safari26_1.full_name() =~= "safari26.1"@);
    }
    assert(Emulation::Safari26_2.full_name() == "safari26.2"@) by {
        reveal_strlit("safari");
        reveal_strlit("26.2");
        reveal_strlit("safari26.2");
        assert(Emulation::Safari26_2.full_name() =~= "safari26.2"@);
    }
}

/// The full names of Edge, each of which tells the version that it stands for.
pub proof fn law_edge_versions_have_their_names()
    ensures
        Emulation::Edge101.full_name() == "edge101"@,
        Emulation::Edge122.full_name() == "edge122"@,
        Emulation::Edge127.full_name() == "edge127"@,
        Emulation::Edge131.full_name() == "edge131"@,
        Emulation::Edge134.full_name() == "edge134"@,
        Emulation::Edge135.full_name() == "edge135"@,
        Emulation::Edge136.full_name() == "edge136"@,
        Emulation::Edge137.full_name() == "edge137"@,
        Emulation::Edge138.full_name() == "edge138"@,
        Emulation::Edge139.full_name() == "edge139"@,
        Emulation::Edge140.full_name() == "edge140"@,
        Emulation::Edge141.full_name() == "edge141"@,
        Emulation::Edge142.full_name() == "edge142"@,
        Emulation::Edge143.full_name() == "edge143"@,
        Emulation::Edge144.full_name() == "edge144"@,
        Emulation::Edge145.full_name() == "edge145"@,
{
    assert(Emulation::Edge101.full_name() == "edge101"@) by {
        reveal_strlit("edge");
        reveal_strlit("101");
        reveal_strlit("edge101");
        assert(Emulation::Edge101.full_name() =~= "edge101"@);
    }
    assert(Emulation::Edge122.full_name() == "edge122"@) by {
        reveal_strlit("edge");
        reveal_strlit("122");
        reveal_strlit("edge122");
        assert(Emulation::Edge122.full_name() =~= "edge122"@);
    }
    assert(Emulation::Edge127.full_name() == "edge127"@) by {
        reveal_strlit("edge");
        reveal_strlit("127");
        reveal_strlit("edge127");
        assert(Emulation::Edge127.full_name() =~= "edge127"@);
    }
    assert(Emulation::Edge131.full_name() == "edge131"@) by {
        reveal_strlit("edge");
        reveal_strlit("131");
        reveal_strlit("edge131");
        assert(Emulation::Edge131.full_name() =~= "edge131"@);
    }
    assert(Emulation::Edge134.full_name() == "edge134"@) by {
        reveal_strlit("edge");
        reveal_strlit("134");
        reveal_strlit("edge134");
        assert(Emulation::Edge134.full_name() =~= "edge134"@);
    }
    assert(Emulation::Edge135.full_name() == "edge135"@) by {
        reveal_strlit("edge");
        reveal_strlit("135");
        reveal_strlit("edge135");
        assert(Emulation::Edge135.full_name() =~= "edge135"@);
    }
    assert(Emulation::Edge136.full_name() == "edge136"@) by {
        reveal_strlit("edge");
        reveal_strlit("136");
        reveal_strlit("edge136");
        assert(Emulation::Edge136.full_name() =~= "edge136"@);
    }
    assert(Emulation::Edge137.full_name() == "edge137"@) by {
        reveal_strlit("edge");
        reveal_strlit("137");
        reveal_strlit("edge137");
        assert(Emulation::Edge137.full_name() =~= "edge137"@);
    }
    assert(Emulation::Edge138.full_name() == "edge138"@) by {
        reveal_strlit("edge");
        reveal_strlit("138");
        reveal_strlit("edge138");
        assert(Emulation::Edge138.full_name() =~= "edge138"@);
    }
    assert(Emulation::Edge139.full_name() == "edge139"@) by {
        reveal_strlit("edge");
        reveal_strlit("139");
        reveal_strlit("edge139");
        assert(Emulation::Edge139.full_name() =~= "edge139"@);
    }
    assert(Emulation::Edge140.full_name() == "edge140"@) by {
        reveal_strlit("edge");
        reveal_strlit("140");
        reveal_strlit("edge140");
        assert(Emulation::Edge140.full_name() =~= "edge140"@);
    }
    assert(Emulation::Edge141.full_name() == "edge141"@) by {
        reveal_strlit("edge");
        reveal_strlit("141");
        reveal_strlit("edge141");
        assert(Emulation::Edge141.full_name() =~= "edge141"@);
    }
    assert(Emulation::Edge142.full_name() == "edge142"@) by {
        reveal_strlit("edge");
        reveal_strlit("142");
        reveal_strlit("edge142");
        assert(Emulation::Edge142.full_name() =~= "edge142"@);
    }
    assert(Emulation::Edge143.full_name() == "edge143"@) by {
        reveal_strlit("edge");
        reveal_strlit("143");
        reveal_strlit("edge143");
        assert(Emulation::Edge143.full_name() =~= "edge143"@);
    }
    assert(Emulation::Edge144.full_name() == "edge144"@) by {
        reveal_strlit("edge");
        reveal_strlit("144");
        reveal_strlit("edge144");
        assert(Emulation::Edge144.full_name() =~= "edge144"@);
    }
    assert(Emulation::Edge145.full_name() == "edge145"@) by {
        reveal_strlit("edge");
        reveal_strlit("145");
        reveal_strlit("edge145");
        assert(Emulation::Edge145.full_name() =~= "edge145"@);
    }
}

/// The full names of Opera, each of which tells the version that it stands for.
pub proof fn law_opera_versions_have_their_names()
    ensures
        Emulation::Opera116.full_name() == "opera116"@,
        Emulation::Opera117.full_name() == "opera117"@,
        Emulation::Opera118.full_name() == "opera118"@,
        Emulation::Opera119.full_name() == "opera119"@,
{
    assert(Emulation::Opera116.full_name() == "opera116"@) by {
        reveal_strlit("opera");
        reveal_strlit("116");
        reveal_strlit("opera116");
        assert(Emulation::Opera116.full_name() =~= "opera116"@);
    }
    assert(Emulation::Opera117.full_name() == "opera117"@) by {
        reveal_strlit("opera");
        reveal_strlit("117");
        reveal_strlit("opera117");
        assert(Emulation::Opera117.full_name() =~= "opera117"@);
    }
    assert(Emulation::Opera118.full_name() == "opera118"@) by {
        reveal_strlit("opera");
        reveal_strlit("118");
        reveal_strlit("opera118");
        assert(Emulation::Opera118.full_name() =~= "opera118"@);
    }
    assert(Emulation::Opera119.full_name() == "opera119"@) by {
        reveal_strlit("opera");
        reveal_strlit("119");
        reveal_strlit("opera119");
        assert(Emulation::Opera119.full_name() =~= "opera119"@);
    }
}

/// The words that stand for a browser in its latest version, and what a name without one of them
/// comes to: a version of the browser whose word is in front, or nothing.
pub proof fn law_browsers_have_their_words(once: Seq<char>, twice: Seq<char>)
    ensures
        once == "firefox"@ || once == "ff"@ ==> emulation_of(once, twice) == Ok::<
            Emulation,
            Option<Browser>,
        >(Emulation::Firefox147),
        once == "chrome"@ || once == "cr"@ ==> emulation_of(once, twice) == Ok::<
            Emulation,
            Option<Browser>,
        >(Emulation::Chrome145),
        once == "safari"@ || once == "sf"@ ==> emulation_of(once, twice) == Ok::<
            Emulation,
            Option<Browser>,
        >(Emulation::Safari26_2),
        once == "edge"@ ==> emulation_of(once, twice) == Ok::<Emulation, Option<Browser>>(
            Emulation::Edge145,
        ),
        once == "opera"@ ==> emulation_of(once, twice) == Ok::<Emulation, Option<Browser>>(
            Emulation::Opera119,
        ),
        ({
            let is_word = once == "firefox"@ || once == "ff"@ || once == "chrome"@ || once == "cr"@
                || once == "safari"@ || once == "sf"@ || once == "edge"@ || once == "opera"@;
            let names_browser = "chrome"@.is_prefix_of(twice) || "firefox"@.is_prefix_of(twice)
                || "safari"@.is_prefix_of(twice) || "edge"@.is_prefix_of(twice)
                || "opera"@.is_prefix_of(twice);
            &&& emulation_of(once, twice) == Err::<Emulation, Option<Browser>>(None) <==> !is_word
                && !names_browser
            &&& !is_word && emulation_of(once, twice) is Ok ==> twice == emulation_of(
                once,
                twice,
            )->Ok_0.full_name()
            &&& emulation_of(once, twice) matches Err(Some(b)) ==> b.word().is_prefix_of(twice)
        }),
{
    reveal_strlit("firefox");
    reveal_strlit("ff");
    reveal_strlit("chrome");
    reveal_strlit("cr");
    reveal_strlit("safari");
    reveal_strlit("sf");
    reveal_strlit("edge");
    reveal_strlit("opera");
    assert("firefox"@.len() == 7 && "ff"@.len() == 2 && "ff"@[0] == 'f');
    assert("chrome"@.len() == 6 && "chrome"@[0] == 'c' && "cr"@.len() == 2 && "cr"@[0] == 'c');
    assert("safari"@.len() == 6 && "safari"@[0] == 's' && "sf"@.len() == 2 && "sf"@[0] == 's');
    assert("edge"@.len() == 4 && "opera"@.len() == 5);
    text::law_prefixes_are_letters_in_front(twice, "chrome"@, Seq::empty());
    text::law_prefixes_are_letters_in_front(twice, "firefox"@, Seq::empty());
    text::law_prefixes_are_letters_in_front(twice, "safari"@, Seq::empty());
    text::law_prefixes_are_letters_in_front(twice, "edge"@, Seq::empty());
    text::law_prefixes_are_letters_in_front(twice, "opera"@, Seq::empty());
    if whole_word(once) is None && emulation_of(once, twice) is Ok {
        lemma_versioned_name(once, twice, emulation_of(once, twice)->Ok_0);
    }
}

/// A refused name is told as the user wrote it: with the browser whose version is not known, or
/// with the browsers that are.
pub proof fn law_refusals_tell_the_name(browser: Browser, name: String)
    ensures
        EmulationError::UnknownVersion(browser, name).text() == "Unknown "@ + (match browser {
            Browser::Chrome => "Chrome"@,
            Browser::Firefox => "Firefox"@,
            Browser::Safari => "Safari"@,
            Browser::Edge => "Edge"@,
            Browser::Opera => "Opera"@,
        }) + " version: "@ + name@,
        EmulationError::UnknownBrowser(name).text() == "Unknown browser emulation: '"@ + name@
            + "'. Use firefox, chrome, safari, edge, or opera (optionally with version, e.g. firefox136)"@,
{
}

/// A name that is read gives what it comes to; one that is refused is told as it was written, with
/// the browser where one is in front of it.
pub proof fn law_readings_are_what_names_come_to(
    r: Result<Emulation, EmulationError>,
    name: Seq<char>,
    once: Seq<char>,
    twice: Seq<char>,
)
    requires
        reads(r, name, once, twice),
    ensures
        r is Ok <==> emulation_of(once, twice) is Ok,
        r matches Ok(e) ==> emulation_of(once, twice) == Ok::<Emulation, Option<Browser>>(e),
        r matches Err(EmulationError::UnknownVersion(b, s)) ==> s@ == name && emulation_of(
            once,
            twice,
        ) == Err::<Emulation, Option<Browser>>(Some(b)),
        r matches Err(EmulationError::UnknownBrowser(s)) ==> s@ == name && emulation_of(once, twice)
            == Err::<Emulation, Option<Browser>>(None),
{
}

} // verus!
