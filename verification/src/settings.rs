//! The settings of the listener, and how values from the environment override what a
//! configuration file gave. Reading the file and the environment is the caller's part.

use crate::handler::{Handler, HandlerView};
use crate::policy::{ids_view, AuthorizationPolicy, PolicyView};
use crate::text::{chars_of, copy_text, text_view, trim, trimmed};
use vstd::prelude::*;

verus! {

broadcast use vstd::string::group_string_axioms;

/// A decimal digit of ASCII.
pub open spec fn digit(c: char) -> bool {
    '0' <= c <= '9'
}

/// The number that the digits `s` write in base ten.
pub open spec fn digits_value(s: Seq<char>) -> nat
    decreases s.len(),
{
    if s.len() == 0 {
        0
    } else {
        digits_value(s.drop_last()) * 10 + (s.last() as u32 - '0' as u32) as nat
    }
}

/// `s` without the `+` that may stand at its start.
pub open spec fn unsigned_part(s: Seq<char>) -> Seq<char> {
    if s.len() > 0 && s[0] == '+' {
        s.drop_first()
    } else {
        s
    }
}

/// The number that `s` writes: an optional `+`, then one or more decimal digits, and
/// nothing else; none if `s` is not of that form or the number does not fit.
pub open spec fn decimal_u64(s: Seq<char>) -> Option<u64> {
    let digits = unsigned_part(s);
    if digits.len() > 0 && (forall|i: int| 0 <= i < digits.len() ==> digit(digits[i]))
        && digits_value(digits) <= u64::MAX {
        Some(digits_value(digits) as u64)
    } else {
        None
    }
}

/// Digits that continue a number do not make it smaller.
proof fn lemma_digits_value_grows(s: Seq<char>, k: int)
    requires
        0 <= k <= s.len(),
        forall|i: int| 0 <= i < s.len() ==> digit(s[i]),
    ensures
        digits_value(s.take(k)) <= digits_value(s),
    decreases s.len() - k,
{
    if k < s.len() {
        assert(s.take(k + 1).drop_last() == s.take(k));
        lemma_digits_value_grows(s, k + 1);
    } else {
        assert(s.take(k) == s);
    }
}

/// Reads a number as `decimal_u64` defines it.
pub fn parse_u64(s: &str) -> (r: Option<u64>)
    ensures
        r == decimal_u64(s@),
{
    let chars = chars_of(s);
    let n = chars.len();
    let start: usize = if n > 0 && chars[0] == '+' {
        1
    } else {
        0
    };
    if start == n {
        return None;
    }
    let ghost digits = unsigned_part(s@);
    assert(digits =~= chars@.subrange(start as int, n as int));
    let mut value: u64 = 0;
    let mut i: usize = start;
    while i < n
        invariant
            start <= i <= n == chars@.len(),
            digits == unsigned_part(s@),
            digits == chars@.subrange(start as int, n as int),
            forall|j: int| 0 <= j < i - start ==> digit(digits[j]),
            value == digits_value(digits.take(i - start)),
        decreases n - i,
    {
        let c = chars[i];
        if !('0' <= c && c <= '9') {
            assert(!digit(digits[i - start]));
            return None;
        }
        let d: u64 = (c as u32 - '0' as u32) as u64;
        proof {
            assert(digits.take(i - start + 1).drop_last() == digits.take(i - start));
            assert(digits.take(i - start + 1).last() == c);
            if forall|j: int| 0 <= j < digits.len() ==> digit(digits[j]) {
                lemma_digits_value_grows(digits, i - start + 1);
            }
        }
        match value.checked_mul(10) {
            None => {
                return None;
            },
            Some(tens) => match tens.checked_add(d) {
                None => {
                    return None;
                },
                Some(next) => {
                    value = next;
                },
            },
        }
        i += 1;
    }
    assert(digits.take(n - start) == digits);
    Some(value)
}

/// What `serde_json` reads out of `text` as a list of unsigned 64-bit numbers: the
/// list, if it reads one, and none if it reports an error.
pub uninterp spec fn json_id_list(text: Seq<char>) -> Option<Seq<u64>>;

/// Calls `serde_json::from_str` for a `Vec<u64>`. The call reads the whole of `text`
/// and looks at nothing else; the contract only names its answer, with the error
/// dropped.
#[verifier::external_body]
fn parse_json_ids(text: &str) -> (ids: Option<Vec<u64>>)
    ensures
        match ids {
            Some(ids) => json_id_list(text@) == Some(ids@),
            None => json_id_list(text@) is None,
        },
{
    serde_json::from_str::<Vec<u64>>(text).ok()
}

/// What can be wrong with the settings.
#[derive(Clone, Copy, Debug, PartialEq, Eq, Structural)]
pub enum SettingsError {
    /// The list of servers is neither a number nor a JSON array of numbers.
    InvalidGuildIds,
}

impl SettingsError {
    /// The error in words.
    pub fn message(&self) -> (text: String)
        ensures
            text@
                == "GUILD_IDS must be either a single numeric ID or a JSON array, e.g. [123456789,987654321]"@,
    {
        "GUILD_IDS must be either a single numeric ID or a JSON array, e.g. [123456789,987654321]".to_owned()
    }
}

/// The list of servers, given what the text is as a JSON array and what it is as a
/// single number: the array wins, the number makes a list of one, neither is an error.
pub open spec fn guild_ids_from(json: Option<Seq<u64>>, single: Option<u64>) -> Result<
    Seq<u64>,
    SettingsError,
> {
    match json {
        Some(ids) => Ok(ids),
        None => match single {
            Some(id) => Ok(seq![id]),
            None => Err(SettingsError::InvalidGuildIds),
        },
    }
}

/// The list of servers that `raw` writes. White space around it does not count.
pub open spec fn guild_ids_of(raw: Seq<char>) -> Result<Seq<u64>, SettingsError> {
    guild_ids_from(json_id_list(trimmed(raw)), decimal_u64(trimmed(raw)))
}

/// Picks the list of servers out of the two readings of one text.
pub fn choose_guild_ids(json: Option<Vec<u64>>, single: Option<u64>) -> (r: Result<
    Vec<u64>,
    SettingsError,
>)
    ensures
        match r {
            Ok(ids) => guild_ids_from(ids_view(json), single) == Ok::<Seq<u64>, SettingsError>(
                ids@,
            ),
            Err(e) => guild_ids_from(ids_view(json), single) == Err::<Seq<u64>, SettingsError>(e),
        },
{
    match json {
        Some(ids) => Ok(ids),
        None => match single {
            Some(id) => {
                let mut ids: Vec<u64> = Vec::new();
                ids.push(id);
                assert(ids@ =~= seq![id]);
                Ok(ids)
            },
            None => Err(SettingsError::InvalidGuildIds),
        },
    }
}

/// Reads a list of servers: a JSON array of numbers, or a single number.
pub fn parse_guild_ids(raw: &str) -> (r: Result<Vec<u64>, SettingsError>)
    ensures
        match r {
            Ok(ids) => guild_ids_of(raw@) == Ok::<Seq<u64>, SettingsError>(ids@),
            Err(e) => guild_ids_of(raw@) == Err::<Seq<u64>, SettingsError>(e),
        },
{
    let text = trim(raw);
    let json = parse_json_ids(text.as_str());
    let single = parse_u64(text.as_str());
    choose_guild_ids(json, single)
}

/// What the listener is configured with.
#[derive(Clone, Debug, PartialEq, Eq)]
pub struct Settings {
    pub discord_token: String,
    pub output_dir: String,
    /// The servers that may trigger downloads; without a list, all may.
    pub guild_ids: Option<Vec<u64>>,
    /// The one channel that may trigger downloads; without it, all may.
    pub channel_id: Option<u64>,
    pub cookies_path: Option<String>,
}

/// [`Settings`] over plain values.
pub struct SettingsView {
    pub discord_token: Seq<char>,
    pub output_dir: Seq<char>,
    pub guild_ids: Option<Seq<u64>>,
    pub channel_id: Option<u64>,
    pub cookies_path: Option<Seq<char>>,
}

impl View for Settings {
    type V = SettingsView;

    open spec fn view(&self) -> SettingsView {
        SettingsView {
            discord_token: self.discord_token@,
            output_dir: self.output_dir@,
            guild_ids: ids_view(self.guild_ids),
            channel_id: self.channel_id,
            cookies_path: text_view(self.cookies_path),
        }
    }
}

/// What the environment holds for the listener: the values of the variables
/// `DISCORD_TOKEN`, `GUILD_IDS`, `CHANNEL_ID` and `YTDLP_COOKIES_PATH`, each if it is
/// set, and whether the default cookie file is there.
#[derive(Clone, Debug, PartialEq, Eq)]
pub struct Environment {
    pub discord_token: Option<String>,
    pub guild_ids: Option<String>,
    pub channel_id: Option<String>,
    pub cookies_path: Option<String>,
    pub default_cookies_found: bool,
}

/// An [`Environment`] over plain values.
pub struct EnvironmentView {
    pub discord_token: Option<Seq<char>>,
    pub guild_ids: Option<Seq<char>>,
    pub channel_id: Option<Seq<char>>,
    pub cookies_path: Option<Seq<char>>,
    pub default_cookies_found: bool,
}

impl View for Environment {
    type V = EnvironmentView;

    open spec fn view(&self) -> EnvironmentView {
        EnvironmentView {
            discord_token: text_view(self.discord_token),
            guild_ids: text_view(self.guild_ids),
            channel_id: text_view(self.channel_id),
            cookies_path: text_view(self.cookies_path),
            default_cookies_found: self.default_cookies_found,
        }
    }
}

/// Where the cookie file is looked for when nothing names one.
pub open spec fn default_cookies_path() -> Seq<char> {
    "config/cookies.txt"@
}

impl SettingsView {
    /// The token: the one of the environment, if it has one.
    pub open spec fn token_with(self, env: EnvironmentView) -> Seq<char> {
        match env.discord_token {
            Some(token) => token,
            None => self.discord_token,
        }
    }

    /// The list of servers: the one that the environment writes, if it writes one.
    pub open spec fn guild_ids_with(self, env: EnvironmentView) -> Result<
        Option<Seq<u64>>,
        SettingsError,
    > {
        match env.guild_ids {
            Some(raw) => match guild_ids_of(raw) {
                Ok(ids) => Ok(Some(ids)),
                Err(e) => Err(e),
            },
            None => Ok(self.guild_ids),
        }
    }

    /// The channel: the one of the environment, if it writes a number; what it
    /// writes otherwise is passed over.
    pub open spec fn channel_with(self, env: EnvironmentView) -> Option<u64> {
        match env.channel_id {
            Some(raw) => match decimal_u64(raw) {
                Some(id) => Some(id),
                None => self.channel_id,
            },
            None => self.channel_id,
        }
    }

    /// The cookie file: the one of the environment, else the one of the file, else
    /// the default one if it is there.
    pub open spec fn cookies_with(self, env: EnvironmentView) -> Option<Seq<char>> {
        match env.cookies_path {
            Some(path) => Some(path),
            None => match self.cookies_path {
                Some(path) => Some(path),
                None => if env.default_cookies_found {
                    Some(default_cookies_path())
                } else {
                    None
                },
            },
        }
    }

    /// These settings with what the environment overrides; an error if the
    /// environment's list of servers cannot be read.
    pub open spec fn with_environment(self, env: EnvironmentView) -> Result<
        SettingsView,
        SettingsError,
    > {
        match self.guild_ids_with(env) {
            Ok(guild_ids) => Ok(
                SettingsView {
                    discord_token: self.token_with(env),
                    output_dir: self.output_dir,
                    guild_ids,
                    channel_id: self.channel_with(env),
                    cookies_path: self.cookies_with(env),
                },
            ),
            Err(e) => Err(e),
        }
    }

    /// The handler that these settings set up.
    pub open spec fn handler(self) -> HandlerView {
        HandlerView {
            policy: PolicyView { allowed_guilds: self.guild_ids, allowed_channel: self.channel_id },
            output_dir: self.output_dir,
            cookies_path: self.cookies_path,
        }
    }
}

impl Settings {
    /// The settings that hold: `file` is what the configuration gave, `env` is what
    /// the environment holds, and the environment wins.
    pub fn from_env_and_file(file: Settings, env: Environment) -> (r: Result<
        Settings,
        SettingsError,
    >)
        ensures
            match r {
                Ok(settings) => file@.with_environment(env@) == Ok::<SettingsView, SettingsError>(
                    settings@,
                ),
                Err(e) => file@.with_environment(env@) == Err::<SettingsView, SettingsError>(e),
            },
    {
        let mut settings = file;
        if let Some(token) = env.discord_token {
            settings.discord_token = token;
        }
        if let Some(raw) = env.guild_ids {
            match parse_guild_ids(raw.as_str()) {
                Ok(ids) => {
                    settings.guild_ids = Some(ids);
                },
                Err(e) => {
                    return Err(e);
                },
            }
        }
        if let Some(raw) = env.channel_id {
            if let Some(id) = parse_u64(raw.as_str()) {
                settings.channel_id = Some(id);
            }
        }
        if let Some(path) = env.cookies_path {
            settings.cookies_path = Some(path);
        } else if settings.cookies_path.is_none() {
            if env.default_cookies_found {
                settings.cookies_path = Some("config/cookies.txt".to_owned());
            }
        }
        Ok(settings)
    }

    /// The handler that these settings set up.
    pub fn handler(&self) -> (handler: Handler)
        ensures
            handler@ == self@.handler(),
    {
        Handler {
            policy: AuthorizationPolicy {
                allowed_guilds: match &self.guild_ids {
                    Some(ids) => Some(ids.clone()),
                    None => None,
                },
                allowed_channel: self.channel_id,
            },
            output_dir: self.output_dir.clone(),
            cookies_path: copy_text(&self.cookies_path),
        }
    }
}

} // verus!
