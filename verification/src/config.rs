//! Where to find the server and where to keep the machine's state.

use vstd::prelude::*;

verus! {

/// Where to find the server and where to keep machine-scoped state.
#[derive(Debug)]
pub struct Config {
    pub host: String,
    pub discovery_port: u16,
    pub state_path: String,
}

/// The mathematical content of a [`Config`].
pub struct ConfigView {
    pub host: Seq<char>,
    pub discovery_port: u16,
    pub state_path: Seq<char>,
}

impl View for Config {
    type V = ConfigView;

    open spec fn view(&self) -> ConfigView {
        ConfigView {
            host: self.host@,
            discovery_port: self.discovery_port,
            state_path: self.state_path@,
        }
    }
}

/// The setting that stands where a port number should.
#[derive(Debug)]
pub struct NotAPort {
    pub setting: String,
}

/// Whether `c` is one of the ten decimal digits.
pub open spec fn is_digit(c: char) -> bool {
    '0' <= c <= '9'
}

/// The number that a sequence of decimal digits writes.
pub open spec fn decimal(digits: Seq<char>) -> nat
    decreases digits.len(),
{
    if digits.len() == 0 {
        0
    } else {
        (10 * decimal(digits.drop_last()) + (digits.last() as nat - '0' as nat)) as nat
    }
}

/// The text behind an optional plus sign.
pub open spec fn unsigned_part(text: Seq<char>) -> Seq<char> {
    if text.len() > 0 && text[0] == '+' {
        text.skip(1)
    } else {
        text
    }
}

/// The port that a text writes: an optional plus sign, then decimal digits and nothing
/// else, whose number fits into sixteen bits.
pub open spec fn port_of(text: Seq<char>) -> Option<u16> {
    let digits = unsigned_part(text);
    if digits.len() > 0 && (forall|i: int| 0 <= i < digits.len() ==> is_digit(#[trigger] digits[i]))
        && decimal(digits) <= u16::MAX {
        Some(decimal(digits) as u16)
    } else {
        None
    }
}

/// More digits never write a smaller number.
proof fn lemma_decimal_grows(digits: Seq<char>, n: int)
    requires
        0 <= n <= digits.len(),
        forall|i: int| 0 <= i < digits.len() ==> is_digit(#[trigger] digits[i]),
    ensures
        decimal(digits.take(n)) <= decimal(digits),
    decreases digits.len() - n,
{
    if n == digits.len() {
        assert(digits.take(n) == digits);
    } else {
        lemma_decimal_grows(digits, n + 1);
        assert(digits.take(n + 1).drop_last() == digits.take(n));
        assert(digits.take(n + 1).last() == digits[n]);
    }
}

/// Reads a port number.
pub fn parse_port(text: &str) -> (port: Option<u16>)
    ensures
        port == port_of(text@),
{
    if !text.is_ascii() {
        proof {
            let odd = choose|i: int|
                0 <= i < text@.len() && !('\0' <= #[trigger] text@[i] <= '\u{7f}');
            let digits = unsigned_part(text@);
            if digits == text@ {
                assert(!is_digit(digits[odd]));
            } else {
                assert(!is_digit(digits[odd - 1]));
            }
        }
        return None;
    }
    let bytes = text.as_bytes();
    let ghost digits = unsigned_part(text@);
    let start: usize = if bytes.len() > 0 && bytes[0] == 43u8 {
        1
    } else {
        0
    };
    if start == bytes.len() {
        return None;
    }
    assert forall|j: int| 0 <= j < digits.len() implies #[trigger] digits[j] as int == bytes@[j
        + start] as int by {
        assert(text@[j + start] == digits[j]);
        assert(text@[j + start] as u8 == bytes@[j + start]);
    }
    let mut value: u32 = 0;
    let mut i: usize = start;
    while i < bytes.len()
        invariant
            start <= 1,
            start <= i <= bytes.len(),
            digits == unsigned_part(text@),
            digits.len() > 0,
            digits.len() == bytes.len() - start,
            forall|j: int|
                0 <= j < digits.len() ==> #[trigger] digits[j] as int == bytes@[j + start] as int,
            forall|j: int| 0 <= j < i - start ==> is_digit(#[trigger] digits[j]),
            value == decimal(digits.take(i - start)),
            value <= 65535,
        decreases bytes.len() - i,
    {
        let b: u8 = bytes[i];
        assert(digits[i - start] as int == b as int);
        if b < 48u8 || b > 57u8 {
            assert(!is_digit(digits[i - start]));
            return None;
        }
        assert(is_digit(digits[i - start]));
        value = value * 10 + (b - 48u8) as u32;
        i = i + 1;
        proof {
            assert(digits.take(i - start).drop_last() == digits.take(i - start - 1));
            assert(digits.take(i - start).last() == digits[i - start - 1]);
        }
        if value > 65535 {
            proof {
                if forall|j: int| 0 <= j < digits.len() ==> is_digit(#[trigger] digits[j]) {
                    lemma_decimal_grows(digits, i - start);
                }
            }
            return None;
        }
    }
    assert(digits.take(i - start) == digits);
    Some(value as u16)
}

/// The setting, or `default` where there is none.
pub open spec fn setting_or(setting: Option<Seq<char>>, default: Seq<char>) -> Seq<char> {
    match setting {
        Some(s) => s,
        None => default,
    }
}

/// The configuration that three optional settings give; `None` where the port setting
/// writes no port.
pub open spec fn configured(
    host: Option<Seq<char>>,
    port: Option<Seq<char>>,
    state_path: Option<Seq<char>>,
) -> Option<ConfigView> {
    let discovery_port = match port {
        Some(text) => port_of(text),
        None => Some(8443u16),
    };
    match discovery_port {
        Some(discovery_port) => Some(
            ConfigView {
                host: setting_or(host, "127.0.0.1"@),
                discovery_port,
                state_path: setting_or(state_path, "sylva-agent-state.json"@),
            },
        ),
        None => None,
    }
}

/// The string, or `default` where there is none.
fn text_or(text: Option<String>, default: &str) -> (chosen: String)
    ensures
        chosen@ == setting_or(crate::state::text_of(text), default@),
{
    match text {
        Some(t) => t,
        None => default.to_owned(),
    }
}

impl Config {
    /// Builds the configuration from the three environment settings, each of them absent
    /// where its variable is unset or not Unicode. It fails exactly where a port setting
    /// is there and writes no port, and then hands that setting back.
    pub fn from_env(
        host: Option<String>,
        port: Option<String>,
        state_path: Option<String>,
    ) -> (config: Result<Config, NotAPort>)
        ensures
            match configured(crate::state::text_of(host), crate::state::text_of(port), crate::state::text_of(state_path)) {
                Some(expected) => config is Ok && config->Ok_0@ == expected,
                None => config is Err && Some(config->Err_0.setting@) == crate::state::text_of(port),
            },
            config is Err <==> (port matches Some(text) && port_of(text@) is None),
            config matches Ok(made) ==> {
                &&& host matches Some(text) ==> made.host@ == text@
                &&& host is None ==> made.host@ == "127.0.0.1"@
                &&& port matches Some(text) ==> Some(made.discovery_port) == port_of(text@)
                &&& port is None ==> made.discovery_port == 8443
                &&& state_path matches Some(text) ==> made.state_path@ == text@
                &&& state_path is None ==> made.state_path@ == "sylva-agent-state.json"@
            },
            config matches Err(refused) ==> (port matches Some(text) && refused.setting@ == text@),
    {
        let discovery_port: u16 = match port {
            Some(text) => match parse_port(text.as_str()) {
                Some(p) => p,
                None => return Err(NotAPort { setting: text }),
            },
            None => 8443,
        };
        Ok(
            Config {
                host: text_or(host, "127.0.0.1"),
                discovery_port,
                state_path: text_or(state_path, "sylva-agent-state.json"),
            },
        )
    }
}

impl NotAPort {
    /// The message for the setting that was refused.
    pub fn message(&self) -> (text: String)
        ensures
            text@ == "SYLVA_SERVER_DISCOVERY_PORT is not a port: "@ + self.setting@,
    {
        "SYLVA_SERVER_DISCOVERY_PORT is not a port: ".to_owned().concat(self.setting.as_str())
    }
}

/// How a port is read, one character after the other: nothing is no port, one digit is its
/// own number, a digit more makes ten times the number and that digit if sixteen bits hold
/// it, and a character that is no digit spoils whatever it ends.
pub proof fn law_port_digit_by_digit(text: Seq<char>, c: char)
    ensures
        port_of(Seq::empty()) is None,
        '0' <= c <= '9' ==> port_of(seq![c]) == Some((c as int - 48) as u16),
        !('0' <= c <= '9') ==> port_of(text.push(c)) is None,
        '0' <= c <= '9' && text.len() > 0 && text != seq!['+'] ==> ({
            match port_of(text) {
                Some(port) => if port as int * 10 + (c as int - 48) <= 65535 {
                    port_of(text.push(c)) == Some((port as int * 10 + (c as int - 48)) as u16)
                } else {
                    port_of(text.push(c)) is None
                },
                None => port_of(text.push(c)) is None,
            }
        }),
{
    let one = seq![c];
    assert(one.drop_last() == Seq::<char>::empty());
    assert(decimal(Seq::<char>::empty()) == 0);
    reveal_with_fuel(decimal, 2);
    if '0' <= c <= '9' {
        assert(unsigned_part(one) == one);
        assert(decimal(one) == c as int - 48);
    }
    let longer = text.push(c);
    let digits = unsigned_part(longer);
    if !('0' <= c <= '9') {
        if digits.len() > 0 {
            assert(digits[digits.len() - 1] == c);
        }
    } else if text.len() > 0 && text != seq!['+'] {
        let before = unsigned_part(text);
        assert(longer[0] == text[0]);
        assert(digits == before.push(c));
        assert(digits.drop_last() == before);
        if before.len() == 0 {
            assert(text == seq!['+']);
        }
        if forall|i: int| 0 <= i < before.len() ==> is_digit(#[trigger] before[i]) {
            assert forall|i: int| 0 <= i < digits.len() implies is_digit(#[trigger] digits[i]) by {
                if i < before.len() {
                    assert(digits[i] == before[i]);
                }
            }
        } else {
            let i = choose|i: int| 0 <= i < before.len() && !is_digit(#[trigger] before[i]);
            assert(digits[i] == before[i]);
        }
    }
}

/// A plus sign before a port changes nothing, and is no port by itself; behind two of them
/// nothing is a port.
pub proof fn law_port_plus_sign(text: Seq<char>)
    ensures
        text.len() == 0 || text[0] != '+' ==> port_of(seq!['+'] + text) == port_of(text),
        text.len() > 0 && text[0] == '+' ==> port_of(seq!['+'] + text) is None,
{
    let signed = seq!['+'] + text;
    assert(unsigned_part(signed) == text);
    if text.len() > 0 && text[0] == '+' {
        assert(!is_digit(unsigned_part(signed)[0]));
    }
}

/// Each setting is taken as it is where it is there, and has its own default where it is
/// not; only a port setting that writes no port is refused.
pub proof fn law_settings(
    host: Option<Seq<char>>,
    port: Option<Seq<char>>,
    state_path: Option<Seq<char>>,
)
    ensures
        configured(host, port, state_path) is None <==> port is Some && port_of(port->Some_0) is None,
        configured(host, port, state_path) matches Some(config) ==> {
            &&& host is Some ==> config.host == host->Some_0
            &&& host is None ==> config.host == "127.0.0.1"@
            &&& port is Some ==> Some(config.discovery_port) == port_of(port->Some_0)
            &&& port is None ==> config.discovery_port == 8443
            &&& state_path is Some ==> config.state_path == state_path->Some_0
            &&& state_path is None ==> config.state_path == "sylva-agent-state.json"@
        },
{
}

} // verus!
