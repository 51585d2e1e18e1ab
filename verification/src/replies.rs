//! The plain-text replies with which an invocation ends when it cannot play.

use vstd::prelude::*;
use vstd::string::StringExecFns;

verus! {

/// Why an invocation ended without queueing anything.
#[derive(Clone, Copy, Debug, PartialEq, Eq, Structural)]
pub enum Refusal {
    /// The command came without an argument.
    UrlMissing,
    /// The first argument does not begin like a URL.
    UrlInvalid,
    /// The invoking user sits in no voice channel of the guild.
    NotInVoiceChannel,
    /// The guild has no voice session, although joining was asked for.
    NoSession,
    /// The media source could not be resolved.
    SourceFailed,
}

impl Refusal {
    /// The text that the user reads, letter for letter.
    pub open spec fn spec_text(self) -> Seq<char> {
        match self {
            Refusal::UrlMissing => "URL not provided."@,
            Refusal::UrlInvalid => "The URL provided is not valid."@,
            Refusal::NotInVoiceChannel => "You are not in a voice channel"@,
            Refusal::NoSession => "Not in a voice channel to play in."@,
            Refusal::SourceFailed => "Error starting source."@,
        }
    }

    /// The text that the user reads.
    pub fn text(&self) -> (text: String)
        ensures
            text@ == self.spec_text(),
    {
        match self {
            Refusal::UrlMissing => String::from_str("URL not provided."),
            Refusal::UrlInvalid => String::from_str("The URL provided is not valid."),
            Refusal::NotInVoiceChannel => String::from_str("You are not in a voice channel"),
            Refusal::NoSession => String::from_str("Not in a voice channel to play in."),
            Refusal::SourceFailed => String::from_str("Error starting source."),
        }
    }
}

/// What goes to the error log when a media source cannot be resolved:
/// a fixed lead and then the resolver's own account of the failure.
pub open spec fn source_error_line(detail: Seq<char>) -> Seq<char> {
    "error starting source: "@ + detail
}

/// The line for the error log about a source that failed with `detail`.
pub fn source_error_log(detail: &str) -> (line: String)
    ensures
        line@ == source_error_line(detail@),
{
    String::from_str("error starting source: ").concat(detail)
}

/// What goes to the log when a resolved track is about to be queued.
pub open spec fn queueing_line(url: Seq<char>) -> Seq<char> {
    "adding track '"@ + url + "' to queue"@
}

/// The log line about queueing the track at `url`.
pub fn queueing_log(url: &str) -> (line: String)
    ensures
        line@ == queueing_line(url@),
{
    String::from_str("adding track '").concat(url).concat("' to queue")
}

} // verus!
