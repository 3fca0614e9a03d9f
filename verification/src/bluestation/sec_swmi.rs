//! Connection to the central SwMI.
use crate::bluestation::config::SecretField;
use vstd::prelude::*;

verus! {

/// Connection settings for the native central SwMI.
///
/// MCC, MNC and location area are not among them: the authenticated SwMI
/// supplies them and the station keeps them for local-site trunking.
pub struct CfgSwmi {
    pub host: String,
    pub port: u16,
    pub tls: bool,
    /// PEM CA certificate used exclusively for the SwMI server: the trust
    /// anchor of a self-signed deployment.
    pub ca_certificate: Option<String>,
    pub username: String,
    pub password: SecretField,
    pub reconnect_delay_secs: u64,
    pub heartbeat_interval_secs: u64,
    pub heartbeat_timeout_secs: u64,
}

/// The SwMI section as it is written; what is left out takes its default.
pub struct CfgSwmiDto {
    pub host: String,
    pub port: Option<u16>,
    pub tls: Option<bool>,
    pub ca_certificate: Option<String>,
    pub username: String,
    pub password: String,
    pub reconnect_delay_secs: Option<u64>,
    pub heartbeat_interval_secs: Option<u64>,
    pub heartbeat_timeout_secs: Option<u64>,
}

/// The port of the SwMI.
pub const DEFAULT_SWMI_PORT: u16 = 443;

/// The time between two attempts to connect.
pub const DEFAULT_RECONNECT_DELAY_SECS: u64 = 5;

/// The time between two heartbeats.
pub const DEFAULT_HEARTBEAT_INTERVAL_SECS: u64 = 2;

/// The time after which a silent SwMI is taken for gone.
pub const DEFAULT_HEARTBEAT_TIMEOUT_SECS: u64 = 10;

/// Whether a character is whitespace: whether it has the property `White_Space`
/// of Unicode.
pub open spec fn is_white_space(c: char) -> bool {
    let code = c as u32;
    ||| 0x09 <= code <= 0x0d
    ||| code == 0x20
    ||| code == 0x85
    ||| code == 0xa0
    ||| code == 0x1680
    ||| 0x2000 <= code <= 0x200a
    ||| code == 0x2028
    ||| code == 0x2029
    ||| code == 0x202f
    ||| code == 0x205f
    ||| code == 0x3000
}

/// Whether a string holds nothing but whitespace.
pub open spec fn all_white_space(text: Seq<char>) -> bool {
    forall|i: int| 0 <= i < text.len() ==> is_white_space(#[trigger] text[i])
}

/// Whether `part` is what stands in `text` between its leading and its trailing
/// whitespace.
pub open spec fn is_trimmed(part: Seq<char>, text: Seq<char>) -> bool {
    exists|from: int, to: int|
        {
            &&& 0 <= from <= to <= text.len()
            &&& part == #[trigger] text.subrange(from, to)
            &&& all_white_space(text.take(from))
            &&& all_white_space(text.skip(to))
            &&& from < to ==> !is_white_space(text[from]) && !is_white_space(text[to - 1])
        }
}

/// `str::trim` of the standard library: the string without leading and trailing
/// whitespace, by the Unicode property `White_Space`.
#[verifier::external_body]
fn trim(text: &str) -> (r: &str)
    ensures
        is_trimmed(r@, text@),
{
    text.trim()
}

proof fn lemma_nothing_is_left_of_white_space(part: Seq<char>, text: Seq<char>)
    requires
        is_trimmed(part, text),
    ensures
        part.len() == 0 <==> all_white_space(text),
{
    let (from, to) = choose|from: int, to: int|
        {
            &&& 0 <= from <= to <= text.len()
            &&& part == #[trigger] text.subrange(from, to)
            &&& all_white_space(text.take(from))
            &&& all_white_space(text.skip(to))
            &&& from < to ==> !is_white_space(text[from]) && !is_white_space(text[to - 1])
        };
    if from == to {
        assert forall|i: int| 0 <= i < text.len() implies is_white_space(#[trigger] text[i]) by {
            if i < from {
                assert(text.take(from)[i] == text[i]);
            } else {
                assert(text.skip(to)[i - to] == text[i]);
            }
        }
    }
}

/// Whether a string holds nothing but whitespace.
pub(crate) fn is_blank(text: &String) -> (r: bool)
    ensures
        r == all_white_space(text@),
{
    let part: &str = trim(text.as_str());
    proof {
        lemma_nothing_is_left_of_white_space(part@, text@);
    }
    part.unicode_len() == 0
}

impl CfgSwmiDto {
    /// The time between two heartbeats.
    pub open spec fn interval(self) -> u64 {
        crate::bluestation::sec_cell::or_default(
            self.heartbeat_interval_secs,
            DEFAULT_HEARTBEAT_INTERVAL_SECS,
        )
    }

    /// The time after which a silent SwMI is taken for gone.
    pub open spec fn timeout(self) -> u64 {
        crate::bluestation::sec_cell::or_default(
            self.heartbeat_timeout_secs,
            DEFAULT_HEARTBEAT_TIMEOUT_SECS,
        )
    }

    /// Whether the connection is encrypted.
    pub open spec fn encrypted(self) -> bool {
        crate::bluestation::sec_cell::or_default(self.tls, true)
    }

    /// Whether the section stands for the settings.
    pub open spec fn stands_for(self, cfg: CfgSwmi) -> bool {
        &&& cfg.host == self.host
        &&& cfg.port == crate::bluestation::sec_cell::or_default(self.port, DEFAULT_SWMI_PORT)
        &&& cfg.tls == self.encrypted()
        &&& cfg.ca_certificate == self.ca_certificate
        &&& cfg.username == self.username
        &&& cfg.password.val == self.password
        &&& cfg.reconnect_delay_secs == crate::bluestation::sec_cell::or_default(
            self.reconnect_delay_secs,
            DEFAULT_RECONNECT_DELAY_SECS,
        )
        &&& cfg.heartbeat_interval_secs == self.interval()
        &&& cfg.heartbeat_timeout_secs == self.timeout()
    }

    /// Whether the host or the user name holds nothing but whitespace.
    pub open spec fn is_blank(self) -> bool {
        all_white_space(self.host@) || all_white_space(self.username@)
    }

    /// What is wrong with the section, if anything is.
    pub open spec fn fault(self) -> Option<Seq<char>> {
        if self.is_blank() || self.password@.len() == 0 {
            Some("swmi host, username and password must be set"@)
        } else if self.interval() == 0 || self.timeout() <= self.interval() {
            Some("swmi heartbeat_timeout_secs must be greater than heartbeat_interval_secs"@)
        } else if !self.encrypted() && self.ca_certificate is Some {
            Some("swmi ca_certificate requires tls = true"@)
        } else {
            None
        }
    }
}

/// The connection settings that a section stands for.
pub fn apply_swmi_patch(src: CfgSwmiDto) -> (r: Result<CfgSwmi, &'static str>)
    ensures
        match r {
            Err(text) => src.fault() == Some(text@),
            Ok(cfg) => {
                &&& src.fault() is None
                &&& src.stands_for(cfg)
            },
        },
{
    let blank: bool = is_blank(&src.host) || is_blank(&src.username);
    let interval: u64 = match src.heartbeat_interval_secs {
        Some(secs) => secs,
        None => DEFAULT_HEARTBEAT_INTERVAL_SECS,
    };
    let timeout: u64 = match src.heartbeat_timeout_secs {
        Some(secs) => secs,
        None => DEFAULT_HEARTBEAT_TIMEOUT_SECS,
    };
    let tls: bool = match src.tls {
        Some(tls) => tls,
        None => true,
    };
    if blank || src.password.as_str().unicode_len() == 0 {
        return Err("swmi host, username and password must be set");
    }
    if interval == 0 || timeout <= interval {
        return Err("swmi heartbeat_timeout_secs must be greater than heartbeat_interval_secs");
    }
    if !tls && src.ca_certificate.is_some() {
        return Err("swmi ca_certificate requires tls = true");
    }
    Ok(
        CfgSwmi {
            host: src.host,
            port: match src.port {
                Some(port) => port,
                None => DEFAULT_SWMI_PORT,
            },
            tls,
            ca_certificate: src.ca_certificate,
            username: src.username,
            password: SecretField { val: src.password },
            reconnect_delay_secs: match src.reconnect_delay_secs {
                Some(secs) => secs,
                None => DEFAULT_RECONNECT_DELAY_SECS,
            },
            heartbeat_interval_secs: interval,
            heartbeat_timeout_secs: timeout,
        },
    )
}

} // verus!
