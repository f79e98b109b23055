//! The configuration of the process: where to listen, and the rule for what a
//! port is.

use vstd::prelude::*;
use vstd::string::*;

verus! {

/// Whether `c` is a decimal digit.
pub open spec fn is_digit(c: char) -> bool {
    '0' <= c <= '9'
}

/// The number that a decimal digit stands for.
pub open spec fn digit_value(c: char) -> nat {
    (c as u32 - '0' as u32) as nat
}

/// The number that a sequence of decimal digits stands for.
pub open spec fn decimal_value(digits: Seq<char>) -> nat
    decreases digits.len(),
{
    if digits.len() == 0 {
        0
    } else {
        10 * decimal_value(digits.drop_last()) + digit_value(digits.last())
    }
}

/// The digits of a port literal: the literal without its plus sign, if it has
/// one.
pub open spec fn unsigned_part(s: Seq<char>) -> Seq<char> {
    if s.len() > 0 && s[0] == '+' {
        s.drop_first()
    } else {
        s
    }
}

/// Whether `s` is a port literal: an optional plus sign and then at least one
/// decimal digit, nothing else, standing for a number of at most 65535.
pub open spec fn is_port_literal(s: Seq<char>) -> bool {
    let digits = unsigned_part(s);
    &&& digits.len() > 0
    &&& forall|i: int| 0 <= i < digits.len() ==> is_digit(#[trigger] digits[i])
    &&& decimal_value(digits) <= 65535
}

/// The port that a port literal stands for.
pub open spec fn port_value(s: Seq<char>) -> u16 {
    decimal_value(unsigned_part(s)) as u16
}

/// The text with which the standard library turns `s` down when asked to read
/// it as a 16-bit unsigned integer.
pub uninterp spec fn parse_failure_text(s: Seq<char>) -> Seq<char>;

/// Reads a port with `str::parse::<u16>`.
///
/// Taken on trust from the standard library's documentation of integer
/// parsing: a string is accepted exactly if it is an optional plus sign
/// followed by decimal digits only, at least one, whose number fits the type,
/// and that number is returned. What the error says is not stated here: it is
/// only given a name, as the text that belongs to the string.
#[verifier::external_body]
fn parse_port(s: &str) -> (r: Result<u16, String>)
    ensures
        match r {
            Ok(port) => is_port_literal(s@) && port == port_value(s@),
            Err(text) => !is_port_literal(s@) && text@ == parse_failure_text(s@),
        },
{
    match s.parse::<u16>() {
        Ok(port) => Ok(port),
        Err(error) => Err(error.to_string()),
    }
}

/// Says whether `s` is a port, as a command-line validator does: nothing on
/// success, the reason on failure.
pub fn validate_port(s: String) -> (r: Result<(), String>)
    ensures
        match r {
            Ok(_) => is_port_literal(s@),
            Err(text) => !is_port_literal(s@) && text@ == parse_failure_text(s@),
        },
{
    match parse_port(s.as_str()) {
        Ok(_) => Ok(()),
        Err(text) => Err(text),
    }
}

/// Where the process listens.
#[derive(Debug)]
pub struct Config {
    /// The host to bind to.
    pub host: String,
    /// The port of the session protocol, as it was given.
    pub smtp_port: String,
    /// The port of the inspection service.
    pub rest_port: u16,
}

/// The mathematical value of a [`Config`].
pub struct ConfigView {
    pub host: Seq<char>,
    pub smtp_port: Seq<char>,
    pub rest_port: u16,
}

impl ConfigView {
    /// Whether the port of the session protocol is a port.
    pub open spec fn wf(self) -> bool {
        is_port_literal(self.smtp_port)
    }
}

impl View for Config {
    type V = ConfigView;

    open spec fn view(&self) -> ConfigView {
        ConfigView { host: self.host@, smtp_port: self.smtp_port@, rest_port: self.rest_port }
    }
}

impl Config {
    /// Puts a configuration together.
    pub fn new(host: String, smtp_port: String, rest_port: u16) -> (c: Config)
        ensures
            c@ == (ConfigView { host: host@, smtp_port: smtp_port@, rest_port }),
    {
        Config { host: host, smtp_port: smtp_port, rest_port: rest_port }
    }

    /// The address on which the session protocol is served: host, a colon,
    /// port.
    pub fn smtp_config(&self) -> (address: String)
        ensures
            address@ == self@.host + seq![':'] + self@.smtp_port,
    {
        let mut address = self.host.clone();
        proof {
            reveal_strlit(":");
        }
        address.append(":");
        address.append(self.smtp_port.as_str());
        address
    }

    /// Makes the configuration from the three arguments as they were given on
    /// the command line. Both ports must be ports; the first that is not is
    /// turned down with its reason.
    pub fn resolve(host: String, smtp_port: String, rest_port: String) -> (r: Result<
        Config,
        String,
    >)
        ensures
            match r {
                Ok(c) => is_port_literal(smtp_port@) && is_port_literal(rest_port@) && c@.wf()
                    && c@ == (ConfigView {
                    host: host@,
                    smtp_port: smtp_port@,
                    rest_port: port_value(rest_port@),
                }),
                Err(text) => if !is_port_literal(smtp_port@) {
                    text@ == parse_failure_text(smtp_port@)
                } else {
                    !is_port_literal(rest_port@) && text@ == parse_failure_text(rest_port@)
                },
            },
    {
        match parse_port(smtp_port.as_str()) {
            Ok(_) => {},
            Err(text) => {
                return Err(text);
            },
        }
        match parse_port(rest_port.as_str()) {
            Ok(port) => Ok(Config::new(host, smtp_port, port)),
            Err(text) => Err(text),
        }
    }
}

} // verus!
