//! Settings shared by every command: how much to say and which player to
//! control, and the choice of that player among those running.
use vstd::prelude::*;
use vstd::string::*;
use crate::metadata::case_folded;

verus! {

/// Whether two strings match under the default caseless matching of Unicode:
/// their default case foldings are equal.
pub open spec fn caseless_match(a: Seq<char>, b: Seq<char>) -> bool {
    case_folded(a) == case_folded(b)
}

/// Relies on `caseless::default_caseless_match_str`, which compares the
/// default case foldings of the two strings character by character (the
/// folding that `caseless::default_case_fold_str` gives).
#[verifier::external_body]
fn matches_caselessly(a: &str, b: &str) -> (r: bool)
    ensures
        r == (case_folded(a@) == case_folded(b@)),
{
    caseless::default_caseless_match_str(a, b)
}

/// How much the commands report.
#[derive(PartialEq, Eq, Structural, Clone, Copy, Debug)]
pub enum Verbosity {
    Verbose,
    Normal,
    Quiet,
}

impl Default for Verbosity {
    fn default() -> (r: Verbosity)
        ensures
            r == Verbosity::Normal,
    {
        Verbosity::Normal
    }
}

/// Which player the commands control.
#[derive(PartialEq, Eq, Debug)]
pub enum PlayerSelection {
    /// The active player.
    Automatic,
    /// The player whose identity matches this name, in any case.
    WithName(String),
}

impl Default for PlayerSelection {
    fn default() -> (r: PlayerSelection)
        ensures
            r is Automatic,
    {
        PlayerSelection::Automatic
    }
}

/// The settings of one run.
#[derive(Debug)]
pub struct Settings {
    pub verbosity: Verbosity,
    pub player_selection: PlayerSelection,
}

impl Default for Settings {
    fn default() -> (r: Settings)
        ensures
            r.verbosity == Verbosity::Normal,
            r.player_selection is Automatic,
    {
        Settings { verbosity: Verbosity::Normal, player_selection: PlayerSelection::Automatic }
    }
}

/// The message for a player name that matches no running player.
pub open spec fn no_player_named(name: Seq<char>) -> Seq<char> {
    "Could not find any player with name \""@ + name + seq!['"']
}

/// The message where no player runs at all.
pub open spec fn no_player_found() -> Seq<char> {
    "Could not find any player"@
}

impl Settings {
    /// The settings that the global flags ask for: quiet wins over verbose,
    /// and a player name selects that player.
    pub fn from_flags(quiet: bool, verbose: bool, player: Option<String>) -> (r: Settings)
        ensures
            r.verbosity == (if quiet {
                Verbosity::Quiet
            } else if verbose {
                Verbosity::Verbose
            } else {
                Verbosity::Normal
            }),
            match player {
                Some(name) => r.player_selection == PlayerSelection::WithName(name),
                None => r.player_selection is Automatic,
            },
    {
        let verbosity = if quiet {
            Verbosity::Quiet
        } else if verbose {
            Verbosity::Verbose
        } else {
            Verbosity::Normal
        };
        let player_selection = match player {
            Some(name) => PlayerSelection::WithName(name),
            None => PlayerSelection::Automatic,
        };
        Settings { verbosity, player_selection }
    }
}

impl PlayerSelection {
    /// What to report where no player can be found for this selection.
    pub fn not_found_message(&self) -> (r: String)
        ensures
            match self {
                PlayerSelection::Automatic => r@ == no_player_found(),
                PlayerSelection::WithName(name) => r@ == no_player_named(name@),
            },
    {
        match self {
            PlayerSelection::Automatic => String::from_str("Could not find any player"),
            PlayerSelection::WithName(name) => no_player_with_name(name.as_str()),
        }
    }
}

fn no_player_with_name(name: &str) -> (r: String)
    ensures
        r@ == no_player_named(name@),
{
    let mut out = String::from_str("Could not find any player with name \"");
    out.append(name);
    proof {
        reveal_strlit("\"");
    }
    out.append("\"");
    assert(out@ =~= no_player_named(name@));
    out
}

/// `i` is the first position at which `matches` holds.
pub open spec fn is_first_match(matches: Seq<bool>, i: int) -> bool {
    &&& 0 <= i < matches.len()
    &&& matches[i]
    &&& forall|j: int| 0 <= j < i ==> !(#[trigger] matches[j])
}

/// The first player whose identity matched the name, given whether each one
/// did; where none did, the message that names `name`.
pub fn select_player(matches: &Vec<bool>, name: &str) -> (r: Result<usize, String>)
    ensures
        match r {
            Ok(i) => is_first_match(matches@, i as int),
            Err(m) => (forall|j: int| 0 <= j < matches@.len() ==> !(#[trigger] matches@[j]))
                && m@ == no_player_named(name@),
        },
{
    let mut i: usize = 0;
    while i < matches.len()
        invariant
            i <= matches@.len(),
            forall|j: int| 0 <= j < i ==> !(#[trigger] matches@[j]),
        decreases matches@.len() - i,
    {
        if matches[i] {
            return Ok(i);
        }
        i = i + 1;
    }
    Err(no_player_with_name(name))
}

/// The position of the first player whose identity matches `name` in any
/// case; where none does, the message that names `name`.
pub fn find_player_with_name(identities: &Vec<String>, name: &str) -> (r: Result<usize, String>)
    ensures
        match r {
            Ok(i) => 0 <= i < identities@.len()
                && caseless_match(identities@[i as int]@, name@)
                && forall|j: int| 0 <= j < i ==> !caseless_match(#[trigger] identities@[j]@, name@),
            Err(m) => (forall|j: int| 0 <= j < identities@.len()
                ==> !caseless_match(#[trigger] identities@[j]@, name@))
                && m@ == no_player_named(name@),
        },
{
    let mut matches: Vec<bool> = Vec::new();
    let mut i: usize = 0;
    while i < identities.len()
        invariant
            i <= identities@.len(),
            matches@.len() == i,
            forall|j: int| 0 <= j < i ==> #[trigger] matches@[j] == caseless_match(identities@[j]@, name@),
        decreases identities@.len() - i,
    {
        let m = matches_caselessly(identities[i].as_str(), name);
        matches.push(m);
        i = i + 1;
    }
    let r = select_player(&matches, name);
    proof {
        if r is Ok {
            let k = r->Ok_0 as int;
            assert forall|j: int| 0 <= j < k implies !caseless_match(#[trigger] identities@[j]@, name@) by {
                assert(!matches@[j]);
            }
        } else {
            assert forall|j: int| 0 <= j < identities@.len() implies !caseless_match(#[trigger] identities@[j]@, name@) by {
                assert(!matches@[j]);
            }
        }
    }
    r
}

} // verus!
