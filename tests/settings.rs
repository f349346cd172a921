use mpris_format::settings::{find_player_with_name, select_player, PlayerSelection, Settings, Verbosity};

#[test]
fn it_sets_verbosity() {
    let settings = Settings::from_flags(false, false, None);
    assert_eq!(settings.verbosity, Verbosity::Normal);

    let settings = Settings::from_flags(false, true, None);
    assert_eq!(settings.verbosity, Verbosity::Verbose);

    let settings = Settings::from_flags(true, false, None);
    assert_eq!(settings.verbosity, Verbosity::Quiet);

    let settings = Settings::from_flags(true, true, None);
    assert_eq!(settings.verbosity, Verbosity::Quiet);
}

#[test]
fn it_sets_player_selection() {
    let settings = Settings::from_flags(false, false, None);
    assert_eq!(settings.player_selection, PlayerSelection::Automatic);

    let settings = Settings::from_flags(false, false, Some(String::from("vlc")));
    assert_eq!(settings.player_selection, PlayerSelection::WithName(String::from("vlc")));

    let settings = Settings::from_flags(false, false, Some(String::from("spotify")));
    assert_eq!(settings.player_selection, PlayerSelection::WithName(String::from("spotify")));
}

#[test]
fn settings_default_to_normal_and_automatic() {
    let settings = Settings::default();
    assert_eq!(settings.verbosity, Verbosity::Normal);
    assert_eq!(settings.player_selection, PlayerSelection::Automatic);
    assert_eq!(Verbosity::default(), Verbosity::Normal);
}

#[test]
fn players_are_found_by_name_in_any_case() {
    let identities = vec!["Spotify".to_string(), "VLC media player".to_string(), "vlc media player".to_string()];
    assert_eq!(find_player_with_name(&identities, "vlc MEDIA player"), Ok(1));
    assert_eq!(find_player_with_name(&identities, "SPOTIFY"), Ok(0));
    assert_eq!(find_player_with_name(&identities, "Straße"), Err("Could not find any player with name \"Straße\"".to_string()));
    assert_eq!(find_player_with_name(&vec!["STRASSE".to_string()], "straße"), Ok(0));
    assert_eq!(find_player_with_name(&vec![], "vlc"), Err("Could not find any player with name \"vlc\"".to_string()));
}

#[test]
fn selection_takes_the_first_match() {
    assert_eq!(select_player(&vec![false, true, true], "x"), Ok(1));
    assert_eq!(select_player(&vec![false, false], "x"), Err("Could not find any player with name \"x\"".to_string()));
}

#[test]
fn missing_players_are_reported() {
    assert_eq!(PlayerSelection::Automatic.not_found_message(), "Could not find any player");
    assert_eq!(
        PlayerSelection::WithName("mpv".to_string()).not_found_message(),
        "Could not find any player with name \"mpv\""
    );
}
