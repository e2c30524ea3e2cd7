//! The versioned settings kept in `.env`: defaults, migration, reading the
//! variables and the text written back.
use vstd::prelude::*;
use crate::text::{chars_of, concat, dec_seq, own, string_from_chars, str_eq, u64_to_string};

verus! {

/// The settings version this build writes.
pub const CURRENT_CONFIG_VERSION: u32 = 1;

/// The settings kept in `.env`.
pub struct AppConfig {
    pub config_version: u32,
    pub output_dir: String,
    pub default_profile_dir: String,
    pub remote_debug_port: u16,
    pub default_launch_url: String,
    pub download_timeout: u64,
    pub max_concurrent_download: usize,
    pub gemini_api_key: String,
    pub gemini_api_url: String,
}

impl AppConfig {
    /// The settings of a fresh install.
    pub fn default() -> (r: Self)
        ensures
            r.config_version == CURRENT_CONFIG_VERSION,
            r.output_dir@ == "studio_output"@,
            r.default_profile_dir@ == "chrome_profile"@,
            r.remote_debug_port == 9222,
            r.default_launch_url@ == "https://www.google.com"@,
            r.download_timeout == 30,
            r.max_concurrent_download == 8,
            r.gemini_api_key@.len() == 0,
            r.gemini_api_url@ == "https://generativelanguage.googleapis.com/v1beta/models/gemini-pro:generateContent"@,
    {
        AppConfig {
            config_version: 1,
            output_dir: own("studio_output"),
            default_profile_dir: own("chrome_profile"),
            remote_debug_port: 9222,
            default_launch_url: own("https://www.google.com"),
            download_timeout: 30,
            max_concurrent_download: 8,
            gemini_api_key: String::new(),
            gemini_api_url: own("https://generativelanguage.googleapis.com/v1beta/models/gemini-pro:generateContent"),
        }
    }
}

/// Brings older settings up to the current version; every other setting stays.
pub fn migrate(config: AppConfig) -> (r: AppConfig)
    ensures
        r == (AppConfig { config_version: CURRENT_CONFIG_VERSION, ..config }),
{
    let mut config = config;
    let target_version = AppConfig::default().config_version;
    config.config_version = target_version;
    config
}

/// Migrating twice changes nothing more than migrating once, and migrated
/// settings are at the current version.
pub proof fn lemma_migrate_idempotent(c: AppConfig)
    ensures
        (AppConfig { config_version: CURRENT_CONFIG_VERSION, ..(AppConfig {
            config_version: CURRENT_CONFIG_VERSION,
            ..c
        }) }) == (AppConfig { config_version: CURRENT_CONFIG_VERSION, ..c }),
{
}

// ---------------------------------------------------------------------------
// Reading numbers and flags
// ---------------------------------------------------------------------------

/// Why a decimal number could not be read.
#[derive(PartialEq, Eq, Structural, Clone, Copy, Debug)]
pub enum IntError {
    /// Nothing to read.
    Empty,
    /// A character that is no digit (a lone sign included).
    InvalidDigit,
    /// The number is too large for its type.
    Overflow,
}

pub open spec fn is_digit(c: char) -> bool {
    '0' <= c && c <= '9'
}

pub open spec fn digit_of(c: char) -> nat {
    (c as int - '0' as int) as nat
}

/// Reads the digits `d[j..]` after the value `acc` read so far, failing at
/// the first character that is no digit or the first digit that takes the
/// value past `max`.
pub open spec fn scan_digits(d: Seq<char>, j: int, acc: nat, max: nat) -> Result<nat, IntError>
    decreases d.len() - j,
{
    if j >= d.len() {
        Ok(acc)
    } else if !is_digit(d[j]) {
        Err(IntError::InvalidDigit)
    } else if acc * 10 + digit_of(d[j]) > max {
        Err(IntError::Overflow)
    } else {
        scan_digits(d, j + 1, acc * 10 + digit_of(d[j]), max)
    }
}

/// An unsigned decimal number up to `max`, with an optional leading `+`
/// (`str::parse` on an unsigned integer type).
pub open spec fn parse_unsigned(s: Seq<char>, max: nat) -> Result<nat, IntError> {
    if s.len() == 0 {
        Err(IntError::Empty)
    } else if s[0] == '+' && s.len() == 1 {
        Err(IntError::InvalidDigit)
    } else if s[0] == '+' {
        scan_digits(s, 1, 0, max)
    } else {
        scan_digits(s, 0, 0, max)
    }
}

fn parse_bounded(s: &str, max: u64) -> (r: Result<u64, IntError>)
    ensures
        r matches Ok(n) ==> n <= max,
        match r {
            Ok(n) => parse_unsigned(s@, max as nat) == Ok::<nat, IntError>(n as nat),
            Err(e) => parse_unsigned(s@, max as nat) == Err::<nat, IntError>(e),
        },
{
    let c = chars_of(s);
    if c.len() == 0 {
        return Err(IntError::Empty);
    }
    if c[0] == '+' && c.len() == 1 {
        return Err(IntError::InvalidDigit);
    }
    let start: usize = if c[0] == '+' { 1 } else { 0 };
    let mut acc: u64 = 0;
    let mut j = start;
    while j < c.len()
        invariant
            start <= j <= c.len(),
            c@ == s@,
            acc <= max,
            parse_unsigned(s@, max as nat) == scan_digits(s@, j as int, acc as nat, max as nat),
        decreases c.len() - j,
    {
        let ch = c[j];
        if !('0' <= ch && ch <= '9') {
            return Err(IntError::InvalidDigit);
        }
        let d = (ch as u32 - '0' as u32) as u64;
        assert(d == digit_of(ch));
        let next: u128 = acc as u128 * 10 + d as u128;
        if next > max as u128 {
            return Err(IntError::Overflow);
        }
        acc = next as u64;
        j += 1;
    }
    Ok(acc)
}

/// `str::parse::<u32>`.
pub fn parse_u32(s: &str) -> (r: Result<u32, IntError>)
    ensures
        match r {
            Ok(n) => parse_unsigned(s@, u32::MAX as nat) == Ok::<nat, IntError>(n as nat),
            Err(e) => parse_unsigned(s@, u32::MAX as nat) == Err::<nat, IntError>(e),
        },
{
    match parse_bounded(s, u32::MAX as u64) {
        Ok(n) => Ok(n as u32),
        Err(e) => Err(e),
    }
}

/// `str::parse::<u16>`.
pub fn parse_u16(s: &str) -> (r: Result<u16, IntError>)
    ensures
        match r {
            Ok(n) => parse_unsigned(s@, u16::MAX as nat) == Ok::<nat, IntError>(n as nat),
            Err(e) => parse_unsigned(s@, u16::MAX as nat) == Err::<nat, IntError>(e),
        },
{
    match parse_bounded(s, u16::MAX as u64) {
        Ok(n) => Ok(n as u16),
        Err(e) => Err(e),
    }
}

/// `str::parse::<bool>`: exactly `true` or `false`.
pub fn parse_bool(s: &str) -> (r: Option<bool>)
    ensures
        r == (if s@ == "true"@ {
            Some(true)
        } else if s@ == "false"@ {
            Some(false)
        } else {
            None::<bool>
        }),
{
    if str_eq(s, "true") {
        Some(true)
    } else if str_eq(s, "false") {
        Some(false)
    } else {
        None
    }
}

/// The text of a number that could not be read, as `ParseIntError` shows it.
pub open spec fn int_error_text(e: IntError) -> Seq<char> {
    match e {
        IntError::Empty => "cannot parse integer from empty string"@,
        IntError::InvalidDigit => "invalid digit found in string"@,
        IntError::Overflow => "number too large to fit in target type"@,
    }
}

impl IntError {
    pub fn text(&self) -> (r: String)
        ensures
            r@ == int_error_text(*self),
    {
        match self {
            IntError::Empty => own("cannot parse integer from empty string"),
            IntError::InvalidDigit => own("invalid digit found in string"),
            IntError::Overflow => own("number too large to fit in target type"),
        }
    }
}

// ---------------------------------------------------------------------------
// Loading
// ---------------------------------------------------------------------------

/// The `.env` variables that loading reads (each absent where unset).
pub struct EnvValues {
    pub config_version: Option<String>,
    pub default_launch_url: Option<String>,
    pub default_profile_dir: Option<String>,
    pub remote_debug_port: Option<String>,
    pub headless: Option<String>,
    pub gemini_api_key: Option<String>,
}

/// Why the settings could not be loaded.
pub enum ConfigError {
    InvalidVersion(IntError),
    InvalidPort(IntError),
    InvalidHeadless,
}

impl ConfigError {
    /// The message shown for the error.
    pub fn message(&self) -> (r: String)
        ensures
            r@ == match *self {
                ConfigError::InvalidVersion(e) => "Invalid version format: "@ + int_error_text(e),
                ConfigError::InvalidPort(e) => "Invalid port: "@ + int_error_text(e),
                ConfigError::InvalidHeadless => "Invalid headless flag: provided string was not `true` or `false`"@,
            },
    {
        match self {
            ConfigError::InvalidVersion(e) => concat("Invalid version format: ", e.text().as_str()),
            ConfigError::InvalidPort(e) => concat("Invalid port: ", e.text().as_str()),
            ConfigError::InvalidHeadless => own("Invalid headless flag: provided string was not `true` or `false`"),
        }
    }
}

pub open spec fn opt_text(o: Option<String>, dflt: Seq<char>) -> Seq<char> {
    match o {
        Some(s) => s@,
        None => dflt,
    }
}

fn pick(o: &Option<String>, current: String) -> (r: String)
    ensures
        r@ == opt_text(*o, current@),
{
    match o {
        Some(s) => s.clone(),
        None => current,
    }
}

/// The settings that loading yields from the `.env` variables (`None` where
/// there is no `.env` file), and whether they must be written back: the
/// defaults, overridden by the variables that are set; an unset version reads
/// as 0, and a version behind the current one is migrated.
pub fn load_settings(env: Option<EnvValues>) -> (r: Result<(AppConfig, bool), ConfigError>)
    ensures
        env is None ==> (r matches Ok((c, save)) && save && c.config_version == CURRENT_CONFIG_VERSION
            && c.remote_debug_port == 9222 && c.default_launch_url@ == "https://www.google.com"@
            && c.output_dir@ == "studio_output"@ && c.default_profile_dir@ == "chrome_profile"@
            && c.download_timeout == 30 && c.max_concurrent_download == 8 && c.gemini_api_key@.len() == 0
            && c.gemini_api_url@ == "https://generativelanguage.googleapis.com/v1beta/models/gemini-pro:generateContent"@),
        env matches Some(v) ==> {
            let ver = parse_unsigned(opt_text(v.config_version, "0"@), u32::MAX as nat);
            let port = match v.remote_debug_port {
                Some(p) => parse_unsigned(p@, u16::MAX as nat),
                None => Ok(9222),
            };
            let headless_ok = match v.headless {
                Some(h) => h@ == "true"@ || h@ == "false"@,
                None => true,
            };
            if ver is Err {
                r matches Err(ConfigError::InvalidVersion(e)) && ver == Err::<nat, IntError>(e)
            } else if port is Err {
                r matches Err(ConfigError::InvalidPort(e)) && port == Err::<nat, IntError>(e)
            } else if !headless_ok {
                r matches Err(ConfigError::InvalidHeadless)
            } else {
                r matches Ok((c, save)) && {
                    &&& save == (ver->Ok_0 < CURRENT_CONFIG_VERSION)
                    &&& c.config_version == (if ver->Ok_0 < CURRENT_CONFIG_VERSION {
                        CURRENT_CONFIG_VERSION as nat
                    } else {
                        ver->Ok_0
                    })
                    &&& c.remote_debug_port == port->Ok_0
                    &&& c.default_launch_url@ == opt_text(v.default_launch_url, "https://www.google.com"@)
                    &&& c.default_profile_dir@ == opt_text(v.default_profile_dir, "chrome_profile"@)
                    &&& c.gemini_api_key@ == opt_text(v.gemini_api_key, Seq::empty())
                    &&& c.output_dir@ == "studio_output"@
                    &&& c.download_timeout == 30
                    &&& c.max_concurrent_download == 8
                    &&& c.gemini_api_url@ == "https://generativelanguage.googleapis.com/v1beta/models/gemini-pro:generateContent"@
                }
            }
        },
{
    let mut config = AppConfig::default();
    match env {
        None => Ok((config, true)),
        Some(v) => {
            proof {
                reveal_strlit("0");
            }
            let ver_text = match &v.config_version {
                Some(s) => s.clone(),
                None => own("0"),
            };
            let version = match parse_u32(ver_text.as_str()) {
                Ok(n) => n,
                Err(e) => return Err(ConfigError::InvalidVersion(e)),
            };
            config.default_launch_url = pick(&v.default_launch_url, config.default_launch_url);
            config.default_profile_dir = pick(&v.default_profile_dir, config.default_profile_dir);
            match &v.remote_debug_port {
                Some(p) => match parse_u16(p.as_str()) {
                    Ok(n) => config.remote_debug_port = n,
                    Err(e) => return Err(ConfigError::InvalidPort(e)),
                },
                None => {},
            }
            match &v.headless {
                Some(h) => match parse_bool(h.as_str()) {
                    Some(_) => {},
                    None => return Err(ConfigError::InvalidHeadless),
                },
                None => {},
            }
            config.gemini_api_key = pick(&v.gemini_api_key, config.gemini_api_key);
            config.config_version = version;
            let mut needs_save = false;
            if version < CURRENT_CONFIG_VERSION {
                config = migrate(config);
                needs_save = true;
            }
            Ok((config, needs_save))
        },
    }
}

// ---------------------------------------------------------------------------
// Saving
// ---------------------------------------------------------------------------

/// The `.env` text for the settings, one `KEY=value` line each.
pub open spec fn env_text(c: AppConfig) -> Seq<char> {
    "CONFIG_VERSION="@ + dec_seq(c.config_version as nat) + "\n"@
        + "DEFAULT_LAUNCH_URL="@ + c.default_launch_url@ + "\n"@
        + "DEFAULT_PROFILE_DIR="@ + c.default_profile_dir@ + "\n"@
        + "REMOTE_DEBUG_PORT="@ + dec_seq(c.remote_debug_port as nat) + "\n"@
        + "DOWNLOAD_TIMEOUT="@ + dec_seq(c.download_timeout as nat) + "\n"@
        + "MAX_CONCURRENT_DOWNLOAD="@ + dec_seq(c.max_concurrent_download as nat) + "\n"@
        + "RAW_OUTPUT_DIR="@ + c.output_dir@ + "\n"@
        + "GEMINI_API="@ + c.gemini_api_url@ + "\n"@
        + "GEMINI_API_KEY="@ + c.gemini_api_key@ + "\n"@
}

fn line(out: &mut String, key: &str, value: &str)
    ensures
        final(out)@ == old(out)@ + key@ + value@ + "\n"@,
{
    out.append(key);
    out.append(value);
    out.append("\n");
}

pub fn env_file_text(c: &AppConfig) -> (r: String)
    ensures
        r@ == env_text(*c),
{
    let mut out = String::new();
    line(&mut out, "CONFIG_VERSION=", u64_to_string(c.config_version as u64).as_str());
    line(&mut out, "DEFAULT_LAUNCH_URL=", c.default_launch_url.as_str());
    line(&mut out, "DEFAULT_PROFILE_DIR=", c.default_profile_dir.as_str());
    line(&mut out, "REMOTE_DEBUG_PORT=", u64_to_string(c.remote_debug_port as u64).as_str());
    line(&mut out, "DOWNLOAD_TIMEOUT=", u64_to_string(c.download_timeout).as_str());
    line(&mut out, "MAX_CONCURRENT_DOWNLOAD=", u64_to_string(c.max_concurrent_download as u64).as_str());
    line(&mut out, "RAW_OUTPUT_DIR=", c.output_dir.as_str());
    line(&mut out, "GEMINI_API=", c.gemini_api_url.as_str());
    line(&mut out, "GEMINI_API_KEY=", c.gemini_api_key.as_str());
    assert(out@ =~= env_text(*c));
    out
}

} // verus!
