//! Process configuration: three port numbers and the shared passphrase.

use vstd::prelude::*;
use vstd::std_specs::iter::IteratorSpec;
use vstd::string::StringExecFns;

verus! {

/// What the relay is started with.
#[derive(Debug, Clone, PartialEq, Eq)]
pub struct Config {
    /// Port on which the SRT listener accepts callers.
    pub input_port: u16,
    /// Port of the publishing endpoint.
    pub output_port: u16,
    /// Secret shared with the callers.
    pub passphrase: String,
    /// Port of the telemetry service.
    pub web_port: u16,
}

/// A [`Config`] as plain values.
pub struct ConfigView {
    pub input_port: u16,
    pub output_port: u16,
    pub passphrase: Seq<char>,
    pub web_port: u16,
}

impl View for Config {
    type V = ConfigView;

    open spec fn view(&self) -> ConfigView {
        ConfigView {
            input_port: self.input_port,
            output_port: self.output_port,
            passphrase: self.passphrase@,
            web_port: self.web_port,
        }
    }
}

/// The four settings, each read from the variable of the same name.
#[derive(Debug, Clone, Copy, PartialEq, Eq, Structural)]
pub enum ConfigKey {
    Passphrase,
    InputPort,
    OutputPort,
    WebPort,
}

/// Why a configuration was turned down.
#[derive(Debug, Clone, Copy, PartialEq, Eq, Structural)]
pub enum ConfigError {
    /// The setting was not given.
    Missing(ConfigKey),
    /// The passphrase has fewer than 10 or more than 80 characters.
    PassphraseLength,
    /// The setting's text is no port number.
    InvalidPort(ConfigKey),
}

/// Least number of characters a passphrase may have.
pub const PASSPHRASE_MIN_CHARS: usize = 10;

/// Greatest number of characters a passphrase may have.
pub const PASSPHRASE_MAX_CHARS: usize = 80;

/// Whether a passphrase is of acceptable length.
pub open spec fn passphrase_ok(passphrase: Seq<char>) -> bool {
    PASSPHRASE_MIN_CHARS <= passphrase.len() <= PASSPHRASE_MAX_CHARS
}

/// Whether `c` is one of the decimal digits `0` to `9`.
pub open spec fn is_digit(c: char) -> bool {
    '0' <= c <= '9'
}

/// The number a decimal digit stands for.
pub open spec fn digit_value(c: char) -> nat
    recommends
        is_digit(c),
{
    (c as nat - '0' as nat) as nat
}

/// The number a string of decimal digits stands for, leading zeros allowed;
/// the empty string stands for zero.
pub open spec fn decimal_value(digits: Seq<char>) -> nat
    decreases digits.len(),
{
    if digits.len() == 0 {
        0
    } else {
        10 * decimal_value(digits.drop_last()) + digit_value(digits.last())
    }
}

/// The digits of a port number's text: the text itself, without one leading `+`.
pub open spec fn port_digits(text: Seq<char>) -> Seq<char> {
    if text.len() > 0 && text[0] == '+' {
        text.skip(1)
    } else {
        text
    }
}

/// The port a text denotes: an optional `+`, then at least one decimal digit
/// and nothing else, with a value of at most 65535.
pub open spec fn port_of(text: Seq<char>) -> Option<u16> {
    let digits = port_digits(text);
    if digits.len() > 0 && (forall|i: int| 0 <= i < digits.len() ==> is_digit(#[trigger] digits[i]))
        && decimal_value(digits) <= u16::MAX {
        Some(decimal_value(digits) as u16)
    } else {
        None
    }
}

/// Appending one digit multiplies the value so far by ten and adds the digit.
proof fn lemma_decimal_value_step(digits: Seq<char>, k: int)
    requires
        0 <= k < digits.len(),
    ensures
        decimal_value(digits.take(k + 1)) == 10 * decimal_value(digits.take(k)) + digit_value(
            digits[k],
        ),
{
    assert(digits.take(k + 1).drop_last() == digits.take(k));
}

/// Reads a port number: an optional `+`, then decimal digits only, with a
/// value that fits sixteen bits. Anything else, the empty text included, is
/// no port number.
pub fn parse_port(text: &str) -> (r: Option<u16>)
    ensures
        r == port_of(text@),
{
    let ghost digits = port_digits(text@);
    let mut chars = text.chars();
    let mut cur: Option<char> = chars.next();
    if let Some(c) = cur {
        if c == '+' {
            cur = chars.next();
        }
    }
    // The value read so far, held at 65536 once it has passed the largest port.
    let mut acc: u32 = 0;
    let mut seen: bool = false;
    let ghost mut k: int = 0;
    loop
        invariant
            digits == port_digits(text@),
            0 <= k <= digits.len(),
            seen <==> k > 0,
            cur == (if k < digits.len() {
                Some(digits[k])
            } else {
                None
            }),
            k < digits.len() ==> chars.remaining() == digits.skip(k + 1),
            chars.obeys_prophetic_iter_laws(),
            forall|i: int| 0 <= i < k ==> is_digit(#[trigger] digits[i]),
            acc <= 65536,
            acc == (if decimal_value(digits.take(k)) <= u16::MAX {
                decimal_value(digits.take(k))
            } else {
                65536
            }),
        decreases digits.len() - k,
    {
        match cur {
            None => {
                assert(digits.take(k) == digits);
                if !seen || acc > 65535 {
                    return None;
                }
                return Some(acc as u16);
            },
            Some(c) => {
                if !('0' <= c && c <= '9') {
                    return None;
                }
                let d: u32 = c as u32 - '0' as u32;
                proof {
                    lemma_decimal_value_step(digits, k);
                }
                if acc <= 65535 {
                    acc = acc * 10 + d;
                    if acc > 65535 {
                        acc = 65536;
                    }
                }
                seen = true;
                cur = chars.next();
                proof {
                    k = k + 1;
                }
            },
        }
    }
}

/// One port setting: missing if absent, invalid if its text is no port number.
pub open spec fn port_setting(key: ConfigKey, text: Option<Seq<char>>) -> Result<u16, ConfigError> {
    match text {
        None => Err(ConfigError::Missing(key)),
        Some(t) => match port_of(t) {
            None => Err(ConfigError::InvalidPort(key)),
            Some(port) => Ok(port),
        },
    }
}

/// The configuration that four settings give. They are examined in the order
/// passphrase, input port, output port, telemetry port, and the first one
/// found wanting decides the error.
pub open spec fn config_of(
    passphrase: Option<Seq<char>>,
    input_port: Option<Seq<char>>,
    output_port: Option<Seq<char>>,
    web_port: Option<Seq<char>>,
) -> Result<ConfigView, ConfigError> {
    match passphrase {
        None => Err(ConfigError::Missing(ConfigKey::Passphrase)),
        Some(secret) => if !passphrase_ok(secret) {
            Err(ConfigError::PassphraseLength)
        } else {
            match port_setting(ConfigKey::InputPort, input_port) {
                Err(e) => Err(e),
                Ok(input) => match port_setting(ConfigKey::OutputPort, output_port) {
                    Err(e) => Err(e),
                    Ok(output) => match port_setting(ConfigKey::WebPort, web_port) {
                        Err(e) => Err(e),
                        Ok(web) => Ok(
                            ConfigView {
                                input_port: input,
                                output_port: output,
                                passphrase: secret,
                                web_port: web,
                            },
                        ),
                    },
                },
            }
        },
    }
}

/// The characters of an optional text.
pub open spec fn text_of(text: Option<&str>) -> Option<Seq<char>> {
    match text {
        None => None,
        Some(t) => Some(t@),
    }
}

/// Reads one port setting.
pub fn read_port(key: ConfigKey, text: Option<&str>) -> (r: Result<u16, ConfigError>)
    ensures
        r == port_setting(key, text_of(text)),
{
    match text {
        None => Err(ConfigError::Missing(key)),
        Some(t) => match parse_port(t) {
            None => Err(ConfigError::InvalidPort(key)),
            Some(port) => Ok(port),
        },
    }
}

impl ConfigKey {
    /// Name of the variable that holds the setting.
    pub open spec fn name_spec(self) -> Seq<char> {
        match self {
            ConfigKey::Passphrase => "PASSPHRASE"@,
            ConfigKey::InputPort => "INPUT_PORT"@,
            ConfigKey::OutputPort => "OUTPUT_PORT"@,
            ConfigKey::WebPort => "WEB_PORT"@,
        }
    }

    /// Name of the variable that holds the setting.
    pub fn name(self) -> (r: &'static str)
        ensures
            r@ == self.name_spec(),
    {
        match self {
            ConfigKey::Passphrase => "PASSPHRASE",
            ConfigKey::InputPort => "INPUT_PORT",
            ConfigKey::OutputPort => "OUTPUT_PORT",
            ConfigKey::WebPort => "WEB_PORT",
        }
    }
}

impl ConfigError {
    /// The error in words, with the name of the setting that it is about.
    pub open spec fn message_spec(self) -> Seq<char> {
        match self {
            ConfigError::Missing(key) => key.name_spec() + " var not found"@,
            ConfigError::PassphraseLength => ConfigKey::Passphrase.name_spec()
                + " must be between 10 and 80 characters"@,
            ConfigError::InvalidPort(key) => key.name_spec() + ": invalid port number"@,
        }
    }

    /// The error in words, with the name of the setting that it is about.
    pub fn message(self) -> (r: String)
        ensures
            r@ == self.message_spec(),
    {
        match self {
            ConfigError::Missing(key) => String::from_str(key.name()).concat(" var not found"),
            ConfigError::PassphraseLength => String::from_str(ConfigKey::Passphrase.name()).concat(
                " must be between 10 and 80 characters",
            ),
            ConfigError::InvalidPort(key) => String::from_str(key.name()).concat(
                ": invalid port number",
            ),
        }
    }
}

impl Config {
    /// Builds the configuration from the four settings as they were found,
    /// `None` standing for a setting that was not given.
    pub fn from_vars(
        passphrase: Option<String>,
        input_port: Option<&str>,
        output_port: Option<&str>,
        web_port: Option<&str>,
    ) -> (r: Result<Config, ConfigError>)
        ensures
            match r {
                Ok(config) => Ok(config@),
                Err(e) => Err(e),
            } == config_of(
                match passphrase {
                    Some(p) => Some(p@),
                    None => None,
                },
                text_of(input_port),
                text_of(output_port),
                text_of(web_port),
            ),
    {
        let passphrase = match passphrase {
            None => {
                return Err(ConfigError::Missing(ConfigKey::Passphrase));
            },
            Some(p) => p,
        };
        let chars: usize = passphrase.as_str().unicode_len();
        if chars < PASSPHRASE_MIN_CHARS || chars > PASSPHRASE_MAX_CHARS {
            return Err(ConfigError::PassphraseLength);
        }
        let input_port: u16 = match read_port(ConfigKey::InputPort, input_port) {
            Err(e) => {
                return Err(e);
            },
            Ok(port) => port,
        };
        let output_port: u16 = match read_port(ConfigKey::OutputPort, output_port) {
            Err(e) => {
                return Err(e);
            },
            Ok(port) => port,
        };
        let web_port: u16 = match read_port(ConfigKey::WebPort, web_port) {
            Err(e) => {
                return Err(e);
            },
            Ok(port) => port,
        };
        Ok(Config { input_port, output_port, passphrase, web_port })
    }
}

} // verus!
