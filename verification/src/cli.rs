//! The command line options, once they have been read, and the checks on
//! their values.

use vstd::prelude::*;
use vstd::utf8::is_ascii_chars;
use crate::text::chars::{chars_of, same_text};
use crate::text::number::{parse_u16, read_u16};

verus! {

/// The structured formats in which an answer can be written.
#[derive(Debug, Clone, Copy, PartialEq, Eq, Structural)]
pub enum OutputFormat {
    Json,
    JsonPretty,
    Yaml,
    Toml,
    Xml,
    Toon,
}

/// The options of one invocation.
#[derive(Debug, Clone)]
pub struct Cli {
    /// The TCP ports to look up, each between 1 and 65535.
    pub ports: Vec<u16>,
    /// The name of the output format; `human` is the default.
    pub format: String,
    /// Whether extra process information was asked for.
    pub extra: bool,
}

/// The message for a port that is not a number, or not one of 16 bits.
pub open spec fn not_a_port_message() -> Seq<char> {
    "Port must be a number between 1-65535"@
}

/// The message for port zero.
pub open spec fn zero_port_message() -> Seq<char> {
    "Port must be between 1-65535"@
}

/// The port that the argument `s` names, or the message that says why it
/// names none: `s` has to write a 16-bit number other than zero.
pub open spec fn validated_port(s: Seq<char>) -> Result<u16, Seq<char>> {
    match parse_u16(s) {
        Some(port) => if port == 0 {
            Err(zero_port_message())
        } else {
            Ok(port)
        },
        None => Err(not_a_port_message()),
    }
}

/// A validation result as mathematical values.
pub open spec fn port_result_view(r: Result<u16, String>) -> Result<u16, Seq<char>> {
    match r {
        Ok(port) => Ok(port),
        Err(message) => Err(message@),
    }
}

/// Checks that the argument `s` names a port between 1 and 65535.
pub fn validate_port(s: &str) -> (r: Result<u16, String>)
    ensures
        port_result_view(r) == validated_port(s@),
        r is Ok <==> (parse_u16(s@) matches Some(port) && port != 0),
        r matches Ok(port) ==> 1 <= port <= 65535,
{
    match read_u16(&chars_of(s)) {
        Some(port) => {
            if port == 0 {
                Err("Port must be between 1-65535".to_string())
            } else {
                Ok(port)
            }
        },
        None => Err("Port must be a number between 1-65535".to_string()),
    }
}

/// The lowercase form of the letter `c` if it is an upper case letter of
/// ASCII; `c` itself otherwise.
pub open spec fn ascii_lower(c: char) -> char {
    if 0x41 <= c as u32 <= 0x5a {
        (c as u32 + 0x20) as char
    } else {
        c
    }
}

/// `s` with its upper case letters of ASCII in lowercase.
pub open spec fn ascii_lowercase(s: Seq<char>) -> Seq<char> {
    Seq::new(s.len(), |i: int| ascii_lower(s[i]))
}

/// The lowercase form of `s` by the rules of Unicode, as `str::to_lowercase`
/// gives it.
pub uninterp spec fn unicode_lowercase(s: Seq<char>) -> Seq<char>;

/// The format that the lowercase name `lowered` stands for.
pub open spec fn format_of_lowercase(lowered: Seq<char>) -> Option<OutputFormat> {
    if lowered == "json"@ {
        Some(OutputFormat::Json)
    } else if lowered == "json-pretty"@ || lowered == "jsonpretty"@ {
        Some(OutputFormat::JsonPretty)
    } else if lowered == "yaml"@ || lowered == "yml"@ {
        Some(OutputFormat::Yaml)
    } else if lowered == "toml"@ {
        Some(OutputFormat::Toml)
    } else if lowered == "xml"@ {
        Some(OutputFormat::Xml)
    } else if lowered == "toon"@ {
        Some(OutputFormat::Toon)
    } else {
        None
    }
}

/// Calls `loki_weave::OutputFormat::from_str`, which puts `name` in
/// lowercase with `str::to_lowercase` and compares the result with the names
/// of its formats. The contract repeats that comparison. Of the lowercase
/// form it says that, for a name of ASCII characters only, it is the name
/// with its upper case letters replaced; for any other name it is left as
/// the unspecified `unicode_lowercase`.
#[verifier::external_body]
fn format_from_name(name: &str) -> (r: Option<OutputFormat>)
    ensures
        r == format_of_lowercase(
            if is_ascii_chars(name@) {
                ascii_lowercase(name@)
            } else {
                unicode_lowercase(name@)
            },
        ),
{
    match loki_weave::OutputFormat::from_str(name) {
        Some(loki_weave::OutputFormat::Json) => Some(OutputFormat::Json),
        Some(loki_weave::OutputFormat::JsonPretty) => Some(OutputFormat::JsonPretty),
        Some(loki_weave::OutputFormat::Yaml) => Some(OutputFormat::Yaml),
        Some(loki_weave::OutputFormat::Toml) => Some(OutputFormat::Toml),
        Some(loki_weave::OutputFormat::Xml) => Some(OutputFormat::Xml),
        Some(loki_weave::OutputFormat::Toon) => Some(OutputFormat::Toon),
        None => None,
    }
}

/// The structured format that the format name `name` asks for: none for
/// `human`, and for a name that no format has.
pub open spec fn chosen_format(name: Seq<char>) -> Option<OutputFormat> {
    if name == "human"@ {
        None
    } else {
        format_of_lowercase(
            if is_ascii_chars(name) {
                ascii_lowercase(name)
            } else {
                unicode_lowercase(name)
            },
        )
    }
}

impl Cli {
    /// The structured format to write in; `None` for the human format.
    pub fn get_output_format(&self) -> (r: Option<OutputFormat>)
        ensures
            r == chosen_format(self.format@),
    {
        if same_text(self.format.as_str(), "human") {
            None
        } else {
            format_from_name(self.format.as_str())
        }
    }

    /// Tells whether the human format was chosen.
    pub fn is_human_format(&self) -> (b: bool)
        ensures
            b == (self.format@ == "human"@),
    {
        same_text(self.format.as_str(), "human")
    }

    /// Tells whether a format other than the human one was chosen.
    pub fn is_structured_format(&self) -> (b: bool)
        ensures
            b == (self.format@ != "human"@),
    {
        !self.is_human_format()
    }
}

} // verus!
