//! Metadata of the current media: the fields a template can refer to, with
//! those derived from a snapshot of the player, and the output formats of the
//! metadata command.
use vstd::prelude::*;
use vstd::string::*;

verus! {

broadcast use vstd::seq::group_seq_axioms;

/// What the default case folding of Unicode makes of a string.
pub uninterp spec fn case_folded(s: Seq<char>) -> Seq<char>;

/// Relies on `caseless::default_case_fold_str`: the full default case folding
/// of each character, which depends on the string alone.
#[verifier::external_body]
fn fold_case(s: &str) -> (r: String)
    ensures
        r@ == case_folded(s@),
{
    caseless::default_case_fold_str(s)
}

/// How the metadata command prints.
#[derive(PartialEq, Eq, Structural, Clone, Copy, Debug)]
pub enum Format {
    Text,
    JSON,
}

/// Options of the metadata command.
#[derive(PartialEq, Eq, Structural, Clone, Copy, Debug)]
pub struct Options {
    /// Render metadata in this format.
    pub format: Format,
}

impl Default for Options {
    fn default() -> (r: Options)
        ensures
            r.format == Format::Text,
    {
        Options { format: Format::Text }
    }
}

/// The message for a format name that is not known.
pub open spec fn invalid_format_message(s: Seq<char>) -> Seq<char> {
    seq!['"'] + s + "\" is not a valid format"@
}

/// The format named by an already folded name, or the message for `name`.
pub open spec fn format_from_folded_spec(folded: Seq<char>, name: Seq<char>) -> Result<Format, Seq<char>> {
    if folded == "text"@ {
        Ok(Format::Text)
    } else if folded == "json"@ {
        Ok(Format::JSON)
    } else {
        Err(invalid_format_message(name))
    }
}

impl Format {
    /// The names of the formats, as the command line accepts them.
    pub fn variants() -> (r: [&'static str; 2])
        ensures
            r@.len() == 2,
            r[0]@ == "text"@,
            r[1]@ == "json"@,
    {
        ["text", "json"]
    }

    /// The format whose name `folded` is, already case-folded; where there is
    /// none, the message that names `name` as invalid.
    pub fn from_folded(folded: &str, name: &str) -> (r: Result<Format, String>)
        ensures
            match format_from_folded_spec(folded@, name@) {
                Ok(f) => r == Ok::<Format, String>(f),
                Err(m) => r matches Err(e) && e@ == m,
            },
    {
        let folded = String::from_str(folded);
        if folded == String::from_str("text") {
            Ok(Format::Text)
        } else if folded == String::from_str("json") {
            Ok(Format::JSON)
        } else {
            let mut message = String::from_str("\"");
            message.append(name);
            message.append("\" is not a valid format");
            proof {
                reveal_strlit("\"");
            }
            assert(message@ =~= invalid_format_message(name@));
            Err(message)
        }
    }

    /// The format named by `s`, in any case.
    pub fn parse(s: &str) -> (r: Result<Format, String>)
        ensures
            match format_from_folded_spec(case_folded(s@), s@) {
                Ok(f) => r == Ok::<Format, String>(f),
                Err(m) => r matches Err(e) && e@ == m,
            },
    {
        let folded = fold_case(s);
        Format::from_folded(folded.as_str(), s)
    }
}

impl std::str::FromStr for Format {
    type Err = String;

    fn from_str(s: &str) -> Result<Format, String> {
        Format::parse(s)
    }
}

/// Whether the player plays, is paused or is stopped.
#[derive(PartialEq, Eq, Structural, Clone, Copy, Debug)]
pub enum PlaybackStatus {
    Playing,
    Paused,
    Stopped,
}

/// What the player repeats.
#[derive(PartialEq, Eq, Structural, Clone, Copy, Debug)]
pub enum LoopStatus {
    /// Nothing is repeated.
    NoLoop,
    Track,
    Playlist,
}

/// The word for a playback status.
pub open spec fn playback_status_word(playback_status: PlaybackStatus) -> Seq<char> {
    match playback_status {
        PlaybackStatus::Playing => "Playing"@,
        PlaybackStatus::Paused => "Paused"@,
        PlaybackStatus::Stopped => "Stopped"@,
    }
}

/// The word for a loop status.
pub open spec fn loop_status_word(loop_status: LoopStatus) -> Seq<char> {
    match loop_status {
        LoopStatus::NoLoop => "None"@,
        LoopStatus::Track => "Track"@,
        LoopStatus::Playlist => "Playlist"@,
    }
}

/// The word for a playback status.
pub fn playback_status_str(playback_status: PlaybackStatus) -> (r: &'static str)
    ensures
        r@ == playback_status_word(playback_status),
{
    match playback_status {
        PlaybackStatus::Playing => "Playing",
        PlaybackStatus::Paused => "Paused",
        PlaybackStatus::Stopped => "Stopped",
    }
}

/// The word for a loop status.
pub fn loop_status_str(loop_status: LoopStatus) -> (r: &'static str)
    ensures
        r@ == loop_status_word(loop_status),
{
    match loop_status {
        LoopStatus::NoLoop => "None",
        LoopStatus::Track => "Track",
        LoopStatus::Playlist => "Playlist",
    }
}

/// The texts with `sep` between consecutive ones.
pub open spec fn join_texts(parts: Seq<String>, sep: Seq<char>) -> Seq<char>
    decreases parts.len(),
{
    if parts.len() == 0 {
        Seq::empty()
    } else if parts.len() == 1 {
        parts[0]@
    } else {
        join_texts(parts.drop_last(), sep) + sep + parts.last()@
    }
}

/// A list of names as one text, separated by `, `.
pub fn join_option_string(list: &Option<Vec<String>>) -> (r: Option<String>)
    ensures
        match list {
            Some(parts) => r matches Some(t) && t@ == join_texts(parts@, ", "@),
            None => r is None,
        },
{
    match list {
        Some(parts) => {
            let mut out = String::new();
            let mut i: usize = 0;
            while i < parts.len()
                invariant
                    i <= parts@.len(),
                    out@ == join_texts(parts@.subrange(0, i as int), ", "@),
                decreases parts@.len() - i,
            {
                if i > 0 {
                    out.append(", ");
                }
                out.append(parts[i].as_str());
                proof {
                    let p = parts@.subrange(0, i + 1);
                    assert(p.drop_last() =~= parts@.subrange(0, i as int));
                    assert(out@ =~= join_texts(p, ", "@));
                }
                i = i + 1;
            }
            assert(parts@.subrange(0, parts@.len() as int) =~= parts@);
            Some(out)
        },
        None => None,
    }
}

/// What a player reports at one point in time, as plain values.
pub struct MetadataSnapshot {
    pub album_artists: Option<Vec<String>>,
    pub album_name: Option<String>,
    pub art_url: Option<String>,
    pub artists: Option<Vec<String>>,
    pub disc_number: Option<i32>,
    pub length_in_microseconds: Option<u64>,
    pub loop_status: LoopStatus,
    pub playback_status: PlaybackStatus,
    /// Whole seconds of the playback position.
    pub position_seconds: u64,
    /// Nanoseconds of the playback position past its whole seconds.
    pub position_subsec_nanos: u32,
    pub is_shuffled: bool,
    pub title: Option<String>,
    pub track_id: Option<String>,
    pub track_number: Option<i32>,
    pub url: Option<String>,
}

/// The fields that a template can refer to, raw and derived.
pub struct MetadataView {
    pub album_artists: Option<Vec<String>>,
    pub album_artists_string: Option<String>,
    pub album_name: Option<String>,
    pub art_url: Option<String>,
    pub artists: Option<Vec<String>>,
    pub artists_string: Option<String>,
    pub disc_number: Option<i32>,
    pub length_in_microseconds: Option<u64>,
    pub length_in_seconds: Option<u64>,
    pub loop_status: &'static str,
    pub playback_status: &'static str,
    pub position_in_microseconds: u64,
    pub position_in_seconds: u64,
    pub title: Option<String>,
    pub track_id: Option<String>,
    pub track_number: Option<i32>,
    pub url: Option<String>,
    pub is_looping_playlist: bool,
    pub is_looping_track: bool,
    pub is_paused: bool,
    pub is_playing: bool,
    pub is_shuffled: bool,
    pub is_stopped: bool,
}

/// A position in microseconds, at most the largest `u64`.
pub open spec fn position_micros(seconds: u64, subsec_nanos: u32) -> u64 {
    let exact = seconds as int * 1_000_000 + subsec_nanos as int / 1000;
    if exact > u64::MAX { u64::MAX } else { exact as u64 }
}

/// The joined text of an optional list, as `join_option_string` gives it.
pub open spec fn joined_option(list: Option<Vec<String>>) -> Option<Seq<char>> {
    match list {
        Some(parts) => Some(join_texts(parts@, ", "@)),
        None => None,
    }
}

pub open spec fn view_of_text(t: Option<String>) -> Option<Seq<char>> {
    match t {
        Some(s) => Some(s@),
        None => None,
    }
}

/// Converts microseconds to whole seconds and seconds plus nanoseconds to
/// microseconds, saturating at the largest `u64`.
pub fn microseconds(seconds: u64, subsec_nanos: u32) -> (r: u64)
    ensures
        r == position_micros(seconds, subsec_nanos),
{
    let exact: u128 = (seconds as u128) * 1_000_000u128 + (subsec_nanos / 1000) as u128;
    if exact > 18446744073709551615u128 {
        u64::MAX
    } else {
        exact as u64
    }
}

impl MetadataView {
    /// The fields of a snapshot, with the derived ones: names joined by
    /// `, `, the length and position in whole seconds, the position in
    /// microseconds, the status words and one flag for each status.
    pub fn from_snapshot(snapshot: MetadataSnapshot) -> (r: MetadataView)
        ensures
            r.album_artists == snapshot.album_artists,
            view_of_text(r.album_artists_string) == joined_option(snapshot.album_artists),
            r.album_name == snapshot.album_name,
            r.art_url == snapshot.art_url,
            r.artists == snapshot.artists,
            view_of_text(r.artists_string) == joined_option(snapshot.artists),
            r.disc_number == snapshot.disc_number,
            r.length_in_microseconds == snapshot.length_in_microseconds,
            r.length_in_seconds == (match snapshot.length_in_microseconds {
                Some(us) => Some(us / 1_000_000),
                None => None,
            }),
            r.loop_status@ == loop_status_word(snapshot.loop_status),
            r.playback_status@ == playback_status_word(snapshot.playback_status),
            r.position_in_microseconds == position_micros(snapshot.position_seconds, snapshot.position_subsec_nanos),
            r.position_in_seconds == snapshot.position_seconds,
            r.title == snapshot.title,
            r.track_id == snapshot.track_id,
            r.track_number == snapshot.track_number,
            r.url == snapshot.url,
            r.is_looping_playlist == (snapshot.loop_status == LoopStatus::Playlist),
            r.is_looping_track == (snapshot.loop_status == LoopStatus::Track),
            r.is_paused == (snapshot.playback_status == PlaybackStatus::Paused),
            r.is_playing == (snapshot.playback_status == PlaybackStatus::Playing),
            r.is_shuffled == snapshot.is_shuffled,
            r.is_stopped == (snapshot.playback_status == PlaybackStatus::Stopped),
    {
        let album_artists_string = join_option_string(&snapshot.album_artists);
        let artists_string = join_option_string(&snapshot.artists);
        let length_in_seconds = match snapshot.length_in_microseconds {
            Some(us) => Some(us / 1_000_000),
            None => None,
        };
        let loop_status = snapshot.loop_status;
        let playback_status = snapshot.playback_status;
        MetadataView {
            album_artists: snapshot.album_artists,
            album_artists_string,
            album_name: snapshot.album_name,
            art_url: snapshot.art_url,
            artists: snapshot.artists,
            artists_string,
            disc_number: snapshot.disc_number,
            length_in_microseconds: snapshot.length_in_microseconds,
            length_in_seconds,
            loop_status: loop_status_str(loop_status),
            playback_status: playback_status_str(playback_status),
            position_in_microseconds: microseconds(snapshot.position_seconds, snapshot.position_subsec_nanos),
            position_in_seconds: snapshot.position_seconds,
            title: snapshot.title,
            track_id: snapshot.track_id,
            track_number: snapshot.track_number,
            url: snapshot.url,
            is_looping_playlist: loop_status == LoopStatus::Playlist,
            is_looping_track: loop_status == LoopStatus::Track,
            is_paused: playback_status == PlaybackStatus::Paused,
            is_playing: playback_status == PlaybackStatus::Playing,
            is_shuffled: snapshot.is_shuffled,
            is_stopped: playback_status == PlaybackStatus::Stopped,
        }
    }
}

/// The width to which the title of a text field is padded.
pub const TEXT_FIELD_PADDING: usize = 17;

/// `title` followed by spaces up to `width` characters.
pub open spec fn padded(title: Seq<char>, width: nat) -> Seq<char> {
    if title.len() < width {
        title + Seq::new((width - title.len()) as nat, |i: int| ' ')
    } else {
        title
    }
}

/// One line of the text form of the metadata: the padded title, a tab and the
/// value; a field without value is its title and a colon.
pub fn text_field_line(title: &str, value: Option<&str>) -> (r: String)
    ensures
        match value {
            Some(v) => r@ == padded(title@, TEXT_FIELD_PADDING as nat) + seq!['\t'] + v@,
            None => r@ == title@ + seq![':'],
        },
{
    let mut out = String::from_str(title);
    match value {
        Some(v) => {
            let len = title.unicode_len();
            let mut n: usize = len;
            while n < TEXT_FIELD_PADDING
                invariant
                    len == title@.len(),
                    len <= n <= TEXT_FIELD_PADDING || n == len,
                    out@ == title@ + Seq::new((n - len) as nat, |i: int| ' '),
                decreases TEXT_FIELD_PADDING - n,
            {
                proof {
                    reveal_strlit(" ");
                }
                out.append(" ");
                assert(out@ =~= title@ + Seq::new((n + 1 - len) as nat, |i: int| ' '));
                n = n + 1;
            }
            proof {
                reveal_strlit("\t");
            }
            out.append("\t");
            out.append(v);
            assert(out@ =~= padded(title@, TEXT_FIELD_PADDING as nat) + seq!['\t'] + v@);
        },
        None => {
            proof {
                reveal_strlit(":");
            }
            out.append(":");
            assert(out@ =~= title@ + seq![':']);
        },
    }
    out
}

} // verus!
