//! The reports of the commands that list players and send them transport
//! commands.
use vstd::prelude::*;
use vstd::string::*;
use crate::metadata::{PlaybackStatus, join_texts, join_option_string};
use crate::settings::Verbosity;

verus! {

pub open spec fn text_or(t: Option<&str>, fallback: Seq<char>) -> Seq<char> {
    match t {
        Some(s) => s@,
        None => fallback,
    }
}

/// The artists joined by `, `, or `Unknown artist`.
pub open spec fn artist_text(artists: Option<Vec<String>>) -> Seq<char> {
    match artists {
        Some(parts) => join_texts(parts@, ", "@),
        None => "Unknown artist"@,
    }
}

/// The line that describes a player in the verbose listing.
pub open spec fn verbose_player_line(
    identity: Seq<char>,
    status: PlaybackStatus,
    title: Seq<char>,
    artist: Seq<char>,
) -> Seq<char> {
    match status {
        PlaybackStatus::Playing => identity + "\t- Playing "@ + title + " by "@ + artist,
        PlaybackStatus::Paused => identity + "\t- Paused on "@ + title + " by "@ + artist,
        PlaybackStatus::Stopped => identity + "\t- Not currently playing anything"@,
    }
}

/// Describes a player: what it plays, or that it plays nothing; a missing
/// title or artist list is named as unknown.
pub fn verbose_player(
    identity: &str,
    status: PlaybackStatus,
    title: Option<&str>,
    artists: &Option<Vec<String>>,
) -> (r: String)
    ensures
        r@ == verbose_player_line(identity@, status, text_or(title, "Unknown title"@), artist_text(*artists)),
{
    let title_text = match title {
        Some(t) => t,
        None => "Unknown title",
    };
    let artist = match join_option_string(artists) {
        Some(joined) => joined,
        None => String::from_str("Unknown artist"),
    };
    let mut out = String::from_str(identity);
    match status {
        PlaybackStatus::Playing => {
            out.append("\t- Playing ");
            out.append(title_text);
            out.append(" by ");
            out.append(artist.as_str());
        },
        PlaybackStatus::Paused => {
            out.append("\t- Paused on ");
            out.append(title_text);
            out.append(" by ");
            out.append(artist.as_str());
        },
        PlaybackStatus::Stopped => {
            out.append("\t- Not currently playing anything");
        },
    }
    assert(out@ =~= verbose_player_line(identity@, status, text_or(title, "Unknown title"@), artist_text(*artists)));
    out
}

/// The report that a command was sent: only when verbose.
pub fn command_sent(name: &str, identity: &str, verbosity: Verbosity) -> (r: Option<String>)
    ensures
        verbosity == Verbosity::Verbose ==> (r matches Some(m) && m@ == name@ + " command sent to "@ + identity@),
        verbosity != Verbosity::Verbose ==> r is None,
{
    if verbosity == Verbosity::Verbose {
        let mut out = String::from_str(name);
        out.append(" command sent to ");
        out.append(identity);
        Some(out)
    } else {
        None
    }
}

/// The report that a player does not accept a command: only when verbose.
pub fn command_not_supported(name: &str, identity: &str, verbosity: Verbosity) -> (r: Option<String>)
    ensures
        verbosity == Verbosity::Verbose ==> (r matches Some(m)
            && m@ == name@ + " command not sent to "@ + identity@ + " as player does not accept it."@),
        verbosity != Verbosity::Verbose ==> r is None,
{
    if verbosity == Verbosity::Verbose {
        let mut out = String::from_str(name);
        out.append(" command not sent to ");
        out.append(identity);
        out.append(" as player does not accept it.");
        Some(out)
    } else {
        None
    }
}

/// The report that play was sent: only when verbose.
pub fn command_completed(verbosity: Verbosity, identity: &str) -> (r: Option<String>)
    ensures
        verbosity == Verbosity::Verbose ==> (r matches Some(m) && m@ == "Play command sent to "@ + identity@),
        verbosity != Verbosity::Verbose ==> r is None,
{
    if verbosity == Verbosity::Verbose {
        let mut out = String::from_str("Play command sent to ");
        out.append(identity);
        Some(out)
    } else {
        None
    }
}

/// The report that a player does not accept play: unless quiet.
pub fn command_failed(verbosity: Verbosity, identity: &str) -> (r: Option<String>)
    ensures
        verbosity != Verbosity::Quiet ==> (r matches Some(m)
            && m@ == "Play command not sent to "@ + identity@ + " as player does not accept it."@),
        verbosity == Verbosity::Quiet ==> r is None,
{
    if verbosity == Verbosity::Quiet {
        None
    } else {
        let mut out = String::from_str("Play command not sent to ");
        out.append(identity);
        out.append(" as player does not accept it.");
        Some(out)
    }
}

/// The line before a listing of players: only when verbose, saying whether
/// any were found.
pub fn listing_header(verbosity: Verbosity, player_count: usize) -> (r: Option<&'static str>)
    ensures
        verbosity == Verbosity::Verbose && player_count == 0 ==> (r matches Some(m) && m@ == "No players found."@),
        verbosity == Verbosity::Verbose && player_count > 0 ==> (r matches Some(m) && m@ == "Found players:"@),
        verbosity != Verbosity::Verbose ==> r is None,
{
    if verbosity != Verbosity::Verbose {
        None
    } else if player_count == 0 {
        Some("No players found.")
    } else {
        Some("Found players:")
    }
}

} // verus!
