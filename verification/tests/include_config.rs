use animethemes_rs::includes::AnimeImageInclude;
use animethemes_rs::includes::AnimeInclude;
use animethemes_rs::includes::ArtistInclude;
use animethemes_rs::includes::ImageInclude;
use animethemes_rs::includes::Includes;
use animethemes_rs::includes::ResourceInclude;
use animethemes_rs::includes::SearchIncludes;
use animethemes_rs::includes::SeriesInclude;
use animethemes_rs::includes::SongInclude;
use animethemes_rs::includes::Studio;
use animethemes_rs::includes::SynonymInclude;
use animethemes_rs::includes::ThemeEntryInclude;
use animethemes_rs::includes::ThemeInclude;
use animethemes_rs::includes::VideoInclude;

#[test]
fn empty_configs_request_no_paths() {
    assert!(AnimeInclude::default().includes().is_empty());
    assert!(AnimeImageInclude::default().includes().is_empty());
    assert!(SynonymInclude::default().includes().is_empty());
    assert!(ThemeInclude::default().includes().is_empty());
    assert!(ThemeEntryInclude::default().includes().is_empty());
    assert!(ArtistInclude::default().includes().is_empty());
    assert!(ImageInclude::default().includes().is_empty());
    assert!(ResourceInclude::default().includes().is_empty());
    assert!(SeriesInclude::default().includes().is_empty());
    assert!(SongInclude::default().includes().is_empty());
    assert!(Studio::default().includes().is_empty());
    assert!(VideoInclude::default().includes().is_empty());
}

#[test]
fn include_types_name_the_resources() {
    assert_eq!(AnimeInclude::include_type(), "anime");
    assert_eq!(AnimeImageInclude::include_type(), "animeimage");
    assert_eq!(SynonymInclude::include_type(), "animesynonym");
    assert_eq!(ThemeInclude::include_type(), "animetheme");
    assert_eq!(ThemeEntryInclude::include_type(), "animethemeentry");
    assert_eq!(ArtistInclude::include_type(), "artist");
    assert_eq!(ImageInclude::include_type(), "image");
    assert_eq!(ResourceInclude::include_type(), "resource");
    assert_eq!(SeriesInclude::include_type(), "series");
    assert_eq!(SongInclude::include_type(), "song");
    assert_eq!(Studio::include_type(), "studio");
    assert_eq!(VideoInclude::include_type(), "video");
}

#[test]
fn single_toggle_yields_its_path() {
    assert_eq!(AnimeInclude::default().themes().includes(), vec!["animethemes".to_string()]);
    assert_eq!(ThemeInclude::default().entries().includes(), vec!["animethemeentries".to_string()]);
    assert_eq!(ArtistInclude::default().songs().includes(), vec!["songs".to_string()]);
    assert_eq!(SynonymInclude::default().anime().includes(), vec!["anime".to_string()]);
    assert_eq!(
        VideoInclude::default().entries_theme_anime().includes(),
        vec!["animethemeentries.animetheme.anime".to_string()]
    );
}

#[test]
fn two_toggles_keep_declaration_order() {
    let paths = AnimeInclude::default().images().series().includes();
    assert_eq!(paths, vec!["images".to_string(), "series".to_string()]);
    // Toggling in the opposite order yields the same declaration order.
    let paths = AnimeInclude::default().series().images().includes();
    assert_eq!(paths, vec!["images".to_string(), "series".to_string()]);
    let paths = ThemeEntryInclude::default().theme().videos().includes();
    assert_eq!(paths, vec!["animetheme".to_string(), "videos".to_string()]);
}

#[test]
fn all_anime_toggles_in_declaration_order() {
    let c = AnimeInclude::default()
        .synonyms()
        .themes()
        .themes_entries()
        .themes_entries_videos()
        .themes_song()
        .themes_song_artists()
        .images()
        .resources()
        .series()
        .studios();
    assert_eq!(
        c.includes(),
        vec![
            "animesynonyms".to_string(),
            "animethemes".to_string(),
            "animethemes.animethemeentries".to_string(),
            "animethemes.animethemeentries.videos".to_string(),
            "animethemes.song".to_string(),
            "animethemes.song.artists".to_string(),
            "images".to_string(),
            "resources".to_string(),
            "series".to_string(),
            "studios".to_string(),
        ]
    );
}

#[test]
fn empty_search_selection_yields_no_parameters() {
    let q = SearchIncludes::default().indo_includes();
    assert!(q.is_empty());
}

#[test]
fn search_selection_namespaces_each_type() {
    let selection = SearchIncludes {
        anime: AnimeInclude::default().images().series(),
        songs: SongInclude::default().themes(),
        ..SearchIncludes::default()
    };
    let q = selection.indo_includes();
    assert_eq!(
        q,
        vec![
            ("includes[anime]".to_string(), "images,series".to_string()),
            ("includes[song]".to_string(), "animethemes".to_string()),
        ]
    );
}
