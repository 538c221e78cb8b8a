//! Log events forwarded to the web interface: warnings and errors only, as
//! `LOG:` followed by a JSON object.
use vstd::prelude::*;
use crate::json::{json_object_of, json_object_text};
use crate::text::{extend_str, from_chars, to_chars};

verus! {

/// The severity of a log event.
#[derive(PartialEq, Eq, Structural)]
pub enum LogLevel {
    Error,
    Warn,
    Info,
    Debug,
    Trace,
}

/// The name of a severity.
pub open spec fn level_name(l: LogLevel) -> Seq<char> {
    match l {
        LogLevel::Error => "ERROR"@,
        LogLevel::Warn => "WARN"@,
        LogLevel::Info => "INFO"@,
        LogLevel::Debug => "DEBUG"@,
        LogLevel::Trace => "TRACE"@,
    }
}

fn level_text(l: &LogLevel) -> (r: String)
    ensures
        r@ == level_name(*l),
{
    match l {
        LogLevel::Error => String::from_str("ERROR"),
        LogLevel::Warn => String::from_str("WARN"),
        LogLevel::Info => String::from_str("INFO"),
        LogLevel::Debug => String::from_str("DEBUG"),
        LogLevel::Trace => String::from_str("TRACE"),
    }
}

/// The line broadcast for an event: none below warnings; otherwise `LOG:`
/// and the JSON object of its level, target and message.
pub fn broadcast_line(level: LogLevel, target: &str, message: &str) -> (r: Option<String>)
    ensures
        !(level == LogLevel::Error || level == LogLevel::Warn) ==> r is None,
        (level == LogLevel::Error || level == LogLevel::Warn) ==> (r matches Some(line) && line@
            == "LOG:"@ + json_object_text(
            seq![
                ("level"@, level_name(level)),
                ("target"@, target@),
                ("message"@, message@),
            ],
        )),
{
    match level {
        LogLevel::Error | LogLevel::Warn => {},
        _ => return None,
    }
    let mut entries: Vec<(String, String)> = Vec::new();
    entries.push((String::from_str("level"), level_text(&level)));
    entries.push((String::from_str("target"), from_chars(&to_chars(target))));
    entries.push((String::from_str("message"), from_chars(&to_chars(message))));
    assert(entries@.map_values(|e: (String, String)| (e.0@, e.1@)) =~= seq![
        ("level"@, level_name(level)),
        ("target"@, target@),
        ("message"@, message@),
    ]);
    let json = json_object_of(entries);
    let mut v = to_chars("LOG:");
    extend_str(&mut v, json.as_str());
    Some(from_chars(&v))
}

} // verus!
