//! Settings read from a snapshot of the process environment.

use crate::responses::{outcome_view, ErrorKind, ErrorModel, UserError};
use vstd::prelude::*;
use vstd::string::StringExecFns;

verus! {

/// The port that the server binds when `PORT` gives no other.
pub const DEFAULT_PORT: u16 = 8080;

/// Name of the setting that holds the port.
pub const PORT: &'static str = "PORT";

/// Name of the setting that holds the email provider's API key.
pub const SENDGRID_API_KEY: &'static str = "SENDGRID_API_KEY";

/// Name of the setting that holds the sender's address.
pub const SEND_FROM_EMAIL: &'static str = "SEND_FROM_EMAIL";

/// Name of the setting that holds the recipient's address.
pub const SEND_TO_EMAIL: &'static str = "SEND_TO_EMAIL";

/// Name of the setting that holds the chat bot's token.
pub const TELEGRAM_BOT_TOKEN: &'static str = "TELEGRAM_BOT_TOKEN";

/// Name of the setting that holds the chat to write to.
pub const TELEGRAM_CHAT_ID: &'static str = "TELEGRAM_CHAT_ID";

/// Message of the failure that a missing required setting gives.
pub const REQUIRED_NOT_SET: &'static str = "Required env variable not set";

/// Detail of every failure to resolve a setting.
pub const LOOKUP_FAILED: &'static str = "Error getting env variable";

/// The settings that a list of name and value pairs defines: where a name
/// occurs more than once, its first pair counts.
pub open spec fn settings_of(pairs: Seq<(Seq<char>, Seq<char>)>) -> Map<Seq<char>, Seq<char>>
    decreases pairs.len(),
{
    if pairs.len() == 0 {
        Map::empty()
    } else {
        settings_of(pairs.drop_first()).insert(pairs[0].0, pairs[0].1)
    }
}

/// The pairs of strings as pairs of character sequences.
pub open spec fn pairs_view(pairs: Seq<(String, String)>) -> Seq<(Seq<char>, Seq<char>)> {
    Seq::new(pairs.len(), |i: int| (pairs[i].0@, pairs[i].1@))
}

/// What resolving `name` gives: its value where the settings hold it, and
/// else a failure that the operator can mend, with `description` as its
/// message.
pub open spec fn resolve(
    settings: Map<Seq<char>, Seq<char>>,
    name: Seq<char>,
    description: Seq<char>,
) -> Result<Seq<char>, ErrorModel> {
    if settings.contains_key(name) {
        Ok(settings[name])
    } else {
        Err(ErrorModel { kind: ErrorKind::BadRequest, message: description, error: LOOKUP_FAILED@ })
    }
}

proof fn lemma_first_pair_counts(pairs: Seq<(Seq<char>, Seq<char>)>, at: int, name: Seq<char>)
    requires
        0 <= at < pairs.len(),
        pairs[at].0 == name,
        forall|j: int| 0 <= j < at ==> pairs[j].0 != name,
    ensures
        settings_of(pairs).contains_key(name),
        settings_of(pairs)[name] == pairs[at].1,
    decreases at,
{
    if at > 0 {
        lemma_first_pair_counts(pairs.drop_first(), at - 1, name);
    }
}

proof fn lemma_unnamed_is_absent(pairs: Seq<(Seq<char>, Seq<char>)>, name: Seq<char>)
    requires
        forall|j: int| 0 <= j < pairs.len() ==> pairs[j].0 != name,
    ensures
        !settings_of(pairs).contains_key(name),
    decreases pairs.len(),
{
    if pairs.len() > 0 {
        lemma_unnamed_is_absent(pairs.drop_first(), name);
    }
}

/// A snapshot of the environment, taken once and never changed.
#[derive(Debug)]
pub struct EnvVars {
    vars: Vec<(String, String)>,
}

impl View for EnvVars {
    type V = Map<Seq<char>, Seq<char>>;

    closed spec fn view(&self) -> Map<Seq<char>, Seq<char>> {
        settings_of(pairs_view(self.vars@))
    }
}

impl EnvVars {
    /// The snapshot that holds `vars`, each a name and its value.
    pub fn new(vars: Vec<(String, String)>) -> (env: EnvVars)
        ensures
            env@ == settings_of(pairs_view(vars@)),
    {
        EnvVars { vars }
    }

    /// The value of `name`, if the snapshot holds one.
    pub fn var(&self, name: &str) -> (value: Option<String>)
        ensures
            match value {
                Some(text) => self@.contains_key(name@) && text@ == self@[name@],
                None => !self@.contains_key(name@),
            },
    {
        let wanted = String::from_str(name);
        let ghost pairs = pairs_view(self.vars@);
        let mut i: usize = 0;
        while i < self.vars.len()
            invariant
                i <= self.vars.len(),
                wanted@ == name@,
                pairs == pairs_view(self.vars@),
                forall|j: int| 0 <= j < i ==> pairs[j].0 != name@,
            decreases self.vars.len() - i,
        {
            if self.vars[i].0 == wanted {
                proof {
                    lemma_first_pair_counts(pairs, i as int, name@);
                }
                return Some(self.vars[i].1.clone());
            }
            i += 1;
        }
        proof {
            lemma_unnamed_is_absent(pairs, name@);
        }
        None
    }

    /// Resolves the setting `env_variable`: its value, unchanged, or a
    /// `BadRequest` with `error_message` as its message.
    pub fn get_env_variable(
        &self,
        env_variable: &str,
        error_message: &str,
    ) -> (value: Result<String, UserError>)
        ensures
            outcome_view(value) == resolve(self@, env_variable@, error_message@),
            !self@.contains_key(env_variable@) ==> value is Err && value->Err_0@.message
                == error_message@,
    {
        match self.var(env_variable) {
            Some(text) => Ok(text),
            None => Err(
                UserError::BadRequest {
                    message: String::from_str(error_message),
                    error: String::from_str(LOOKUP_FAILED),
                },
            ),
        }
    }

    /// The email provider's API key.
    pub fn get_sendgrid_api_key(&self) -> (value: Result<String, UserError>)
        ensures
            outcome_view(value) == resolve(self@, SENDGRID_API_KEY@, REQUIRED_NOT_SET@),
    {
        self.get_env_variable(SENDGRID_API_KEY, REQUIRED_NOT_SET)
    }

    /// The address that emails are sent from.
    pub fn get_send_from_email(&self) -> (value: Result<String, UserError>)
        ensures
            outcome_view(value) == resolve(self@, SEND_FROM_EMAIL@, REQUIRED_NOT_SET@),
    {
        self.get_env_variable(SEND_FROM_EMAIL, REQUIRED_NOT_SET)
    }

    /// The address that emails are sent to.
    pub fn get_send_to_email(&self) -> (value: Result<String, UserError>)
        ensures
            outcome_view(value) == resolve(self@, SEND_TO_EMAIL@, REQUIRED_NOT_SET@),
    {
        self.get_env_variable(SEND_TO_EMAIL, REQUIRED_NOT_SET)
    }

    /// The token of the chat bot.
    pub fn get_telegram_bot_token(&self) -> (value: Result<String, UserError>)
        ensures
            outcome_view(value) == resolve(self@, TELEGRAM_BOT_TOKEN@, REQUIRED_NOT_SET@),
    {
        self.get_env_variable(TELEGRAM_BOT_TOKEN, REQUIRED_NOT_SET)
    }

    /// The chat that notifications are written to.
    pub fn get_telegram_chat_id(&self) -> (value: Result<String, UserError>)
        ensures
            outcome_view(value) == resolve(self@, TELEGRAM_CHAT_ID@, REQUIRED_NOT_SET@),
    {
        self.get_env_variable(TELEGRAM_CHAT_ID, REQUIRED_NOT_SET)
    }
}

/// Whether `c` is a decimal digit.
pub open spec fn is_digit(c: char) -> bool {
    '0' <= c <= '9'
}

/// Whether `text` holds decimal digits only.
pub open spec fn all_digits(text: Seq<char>) -> bool {
    forall|i: int| 0 <= i < text.len() ==> is_digit(#[trigger] text[i])
}

/// The number that the decimal digits `digits` write.
pub open spec fn digits_value(digits: Seq<char>) -> nat
    decreases digits.len(),
{
    if digits.len() == 0 {
        0
    } else {
        digits_value(digits.drop_last()) * 10 + (digits.last() as nat - '0' as nat) as nat
    }
}

/// `text` without the plus sign that may lead it.
pub open spec fn without_plus_sign(text: Seq<char>) -> Seq<char> {
    if text.len() > 0 && text[0] == '+' {
        text.drop_first()
    } else {
        text
    }
}

/// The port that `text` writes: an optional plus sign and then one or more
/// decimal digits and nothing else, for a number that fits 16 bits.
pub open spec fn port_of(text: Seq<char>) -> Option<u16> {
    let digits = without_plus_sign(text);
    if digits.len() > 0 && all_digits(digits) && digits_value(digits) <= u16::MAX {
        Some(digits_value(digits) as u16)
    } else {
        None
    }
}

proof fn lemma_value_grows(digits: Seq<char>, n: int)
    requires
        0 <= n <= digits.len(),
    ensures
        digits_value(digits.take(n)) <= digits_value(digits),
    decreases digits.len() - n,
{
    if n < digits.len() {
        lemma_value_grows(digits, n + 1);
        assert(digits.take(n + 1).drop_last() == digits.take(n));
    } else {
        assert(digits.take(n) == digits);
    }
}

/// Reads a port number as `str::parse::<u16>` does.
pub fn parse_port(text: &str) -> (port: Option<u16>)
    ensures
        port == port_of(text@),
{
    broadcast use vstd::string::is_ascii_spec_bytes, vstd::utf8::is_ascii_chars_nat_bound;

    let ghost digits = without_plus_sign(text@);
    if !text.is_ascii() {
        proof {
            let i = choose|i: int|
                0 <= i < text@.len() && !('\0' <= #[trigger] text@[i] <= '\u{7f}');
            if text@[0] == '+' {
                assert(digits[i - 1] == text@[i]);
            } else {
                assert(digits[i] == text@[i]);
            }
        }
        return None;
    }
    let bytes = text.as_bytes();
    let len = bytes.len();
    assert(bytes@.len() == text@.len());
    assert(forall|k: int| 0 <= k < len ==> #[trigger] bytes@[k] == text@[k] as u8);
    if len == 0 {
        return None;
    }
    let start: usize = if bytes[0] == 43 {
        1
    } else {
        0
    };
    assert(digits == text@.skip(start as int));
    if start == len {
        return None;
    }
    let mut value: u32 = 0;
    let mut i: usize = start;
    while i < len
        invariant
            start <= i <= len,
            len == text@.len(),
            len == bytes@.len(),
            text.is_ascii(),
            forall|k: int| 0 <= k < len ==> #[trigger] bytes@[k] == text@[k] as u8,
            digits == without_plus_sign(text@),
            digits == text@.skip(start as int),
            all_digits(digits.take(i - start)),
            value == digits_value(digits.take(i - start)),
            value <= u16::MAX,
        decreases len - i,
    {
        let byte = bytes[i];
        assert(digits[i - start] == text@[i as int]);
        if byte < 48 || byte > 57 {
            return None;
        }
        let ghost grown = digits.take(i - start + 1);
        assert(grown.drop_last() == digits.take(i - start));
        assert(all_digits(grown)) by {
            assert forall|j: int| 0 <= j < grown.len() implies is_digit(#[trigger] grown[j]) by {
                if j < i - start {
                    assert(grown[j] == digits.take(i - start)[j]);
                }
            }
        }
        value = value * 10 + (byte - 48) as u32;
        if value > 65535 {
            proof {
                lemma_value_grows(digits, i - start + 1);
            }
            return None;
        }
        i += 1;
    }
    assert(digits.take(len - start) == digits);
    Some(value as u16)
}

/// Why the default port was taken.
#[derive(Debug, Clone, Copy, PartialEq, Eq)]
pub enum PortWarning {
    /// The snapshot holds no `PORT`.
    NotFound,
    /// The value of `PORT` is not a port number.
    NotValid,
}

/// An IPv4 address and a port to bind.
#[derive(Debug, Clone, Copy, PartialEq, Eq)]
pub struct SocketAddress {
    pub octets: [u8; 4],
    pub port: u16,
}

/// The port to bind, and the warning that is due with it.
pub open spec fn port_choice(settings: Map<Seq<char>, Seq<char>>) -> (u16, Option<PortWarning>) {
    if !settings.contains_key(PORT@) {
        (DEFAULT_PORT, Some(PortWarning::NotFound))
    } else {
        match port_of(settings[PORT@]) {
            Some(port) => (port, None),
            None => (DEFAULT_PORT, Some(PortWarning::NotValid)),
        }
    }
}

/// The address that the server binds: every interface, on the port that
/// `PORT` gives, or on the default port, with a warning, where `PORT` is
/// missing or gives none.
pub fn get_socket_addr(env: &EnvVars) -> (bound: (SocketAddress, Option<PortWarning>))
    ensures
        bound.0.octets@ == seq![0u8, 0u8, 0u8, 0u8],
        (bound.0.port, bound.1) == port_choice(env@),
{
    let (port, warning) = match env.var(PORT) {
        None => (DEFAULT_PORT, Some(PortWarning::NotFound)),
        Some(text) => match parse_port(text.as_str()) {
            Some(port) => (port, None),
            None => (DEFAULT_PORT, Some(PortWarning::NotValid)),
        },
    };
    (SocketAddress { octets: [0, 0, 0, 0], port }, warning)
}

} // verus!
