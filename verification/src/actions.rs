//! The actions of the popups, what the interface asks of the program around it,
//! and what comes back.
use vstd::prelude::*;
use vstd::string::StringExecFns;
use crate::traffic::{TrafficDetails, TrafficHead};

verus! {

/// The name of the file that an export writes, without its extension.
pub const EXPORT_ALL_TRAFFICS: &'static str = "proxyfor_all_traffics";

/// The actions on one exchange: their labels and formats.
pub const COPY_ACTIONS: [(&'static str, &'static str); 5] = [
    ("Copy as Markdown", "markdown"),
    ("Copy as cURL", "curl"),
    ("Copy as HAR", "har"),
    ("Copy Request Body", "req-body"),
    ("Copy Response Body", "res-body"),
];

/// The actions on all traffic: their labels and formats.
pub const EXPORT_ACTIONS: [(&'static str, &'static str); 3] = [
    ("Export all as Markdown", "markdown"),
    ("Export all as cURL", "curl"),
    ("Export all as HAR", "har"),
];

/// Work that the interface hands to the program around it.
#[derive(Clone, Copy, Debug)]
pub enum Request {
    /// Read the exchange with this id and its bodies, and send its details.
    Fetch(usize),
    /// Write the exchange with this id in a format, copy it, and send how it went.
    Copy(usize, &'static str),
    /// Write all traffic in a format to a file, and send how it went.
    Export(&'static str),
}

/// What the program around the interface sends to it.
#[derive(Debug)]
pub enum Message {
    TrafficHead(TrafficHead),
    TrafficDetails(TrafficDetails),
    Info(String),
    Error(String),
}

/// The extension of a file in a format.
pub open spec fn extension_of(format: Seq<char>) -> Seq<char> {
    if format == "markdown"@ {
        ".md"@
    } else if format == "curl"@ {
        ".sh"@
    } else if format == "har"@ {
        ".har"@
    } else {
        ".txt"@
    }
}

/// Whether two strings hold the same characters.
fn same(a: &str, b: &str) -> (equal: bool)
    ensures
        equal == (a@ == b@),
{
    a.to_owned() == b.to_owned()
}

/// The file that an export in a format writes.
pub fn export_path(format: &str) -> (path: String)
    ensures
        path@ == EXPORT_ALL_TRAFFICS@ + extension_of(format@),
{
    let ext = if same(format, "markdown") {
        ".md"
    } else if same(format, "curl") {
        ".sh"
    } else if same(format, "har") {
        ".har"
    } else {
        ".txt"
    };
    EXPORT_ALL_TRAFFICS.to_owned().concat(ext)
}

/// What is told after a copy: the outer error is that of writing the exchange, the
/// inner one that of the clipboard.
pub fn copy_message(outcome: Result<Result<(), String>, String>) -> (message: Message)
    ensures
        match outcome {
            Err(error) => message == Message::Error(error),
            Ok(Err(error)) => message == Message::Error(error),
            Ok(Ok(_)) => message matches Message::Info(text) && text@ == "Copied"@,
        },
{
    match outcome {
        Err(error) => Message::Error(error),
        Ok(Err(error)) => Message::Error(error),
        Ok(Ok(_)) => Message::Info("Copied".to_owned()),
    }
}

/// What is told after an export to `path`: the outer error is that of writing the
/// traffic, the inner one that of the file.
pub fn export_message(path: &str, outcome: Result<Result<(), String>, String>) -> (message: Message)
    ensures
        match outcome {
            Err(error) => message == Message::Error(error),
            Ok(Err(error)) => message == Message::Error(error),
            Ok(Ok(_)) => message matches Message::Info(text) && text@ == "Exported to "@ + path@,
        },
{
    match outcome {
        Err(error) => Message::Error(error),
        Ok(Err(error)) => Message::Error(error),
        Ok(Ok(_)) => Message::Info("Exported to ".to_owned().concat(path)),
    }
}

} // verus!
