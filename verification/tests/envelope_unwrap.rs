use animethemes_rs::envelope::unwrap_envelope;
use animethemes_rs::error::ApiError;
use animethemes_rs::models::Anime;
use animethemes_rs::models::AnimeSeason;
use animethemes_rs::models::EntryMetadata;
use animethemes_rs::models::SearchResponse;
use animethemes_rs::models::Theme;
use animethemes_rs::models::ThemeEntry;
use animethemes_rs::models::ThemeType;

fn meta(id: u32) -> EntryMetadata {
    EntryMetadata {
        id,
        created_at: "2021-04-03T00:00:00Z".to_string(),
        updated_at: "2021-04-03T00:00:00Z".to_string(),
        deleted_at: None,
    }
}

fn theme(id: u32, entries: Option<Vec<ThemeEntry>>) -> Theme {
    Theme {
        meta: meta(id),
        theme_type: ThemeType::OP,
        sequence: Some(1),
        group: None,
        slug: "OP1".to_string(),
        song: None,
        anime: None,
        entries,
    }
}

fn theme_entry(id: u32) -> ThemeEntry {
    ThemeEntry {
        meta: meta(id),
        version: None,
        episodes: "1-13".to_string(),
        nsfw: false,
        spoiler: false,
        notes: None,
        videos: None,
        theme: None,
    }
}

fn anime(slug: &str, themes: Option<Vec<Theme>>) -> Anime {
    Anime {
        meta: meta(1),
        name: "Vivy: Fluorite Eye's Song".to_string(),
        slug: slug.to_string(),
        year: 2021,
        season: AnimeSeason::Spring,
        synopsis: String::new(),
        synonyms: None,
        themes,
        series: None,
        resource: None,
        images: None,
    }
}

#[test]
fn unwraps_the_value_under_the_key() {
    let mut entries = vec![("anime".to_string(), 5u32)];
    let r = unwrap_envelope(&mut entries, "anime");
    assert_eq!(r.unwrap(), 5);
    assert!(entries.is_empty());
}

#[test]
fn missing_key_is_a_shape_error() {
    let mut entries = vec![("artist".to_string(), 5u32)];
    let r = unwrap_envelope(&mut entries, "anime");
    match r {
        Err(ApiError::MissingEnvelopeKey(k)) => assert_eq!(k, "anime"),
        _ => panic!("expected a missing-key error"),
    }
    // The envelope is left as it was.
    assert_eq!(entries.len(), 1);
}

#[test]
fn empty_envelope_is_a_shape_error() {
    let mut entries: Vec<(String, u32)> = Vec::new();
    let r = unwrap_envelope(&mut entries, "search");
    assert!(matches!(r, Err(ApiError::MissingEnvelopeKey(_))));
}

#[test]
fn first_matching_key_wins() {
    let mut entries = vec![
        ("other".to_string(), 1u32),
        ("anime".to_string(), 2u32),
        ("anime".to_string(), 3u32),
    ];
    let r = unwrap_envelope(&mut entries, "anime");
    assert_eq!(r.unwrap(), 2);
    assert_eq!(entries.len(), 2);
}

#[test]
fn error_messages_name_the_failure() {
    let e = ApiError::Transport("connection refused".to_string());
    assert_eq!(e.message(), "transport error: connection refused");
    let e = ApiError::Deserialization("missing field".to_string());
    assert_eq!(e.message(), "deserialization error: missing field");
    let e = ApiError::MissingEnvelopeKey("anime".to_string());
    assert_eq!(e.message(), "response envelope is missing the key anime");
}

#[test]
fn requested_anime_themes_stay_populated() {
    // The envelope of a fetch of anime "vivy_fluorite_eyes_song" with the
    // themes relation enabled: the parsed record keeps its non-empty themes.
    let record = anime("vivy_fluorite_eyes_song", Some(vec![theme(8187, None)]));
    let mut entries = vec![("anime".to_string(), record)];
    let r = unwrap_envelope(&mut entries, "anime").unwrap();
    assert_eq!(r.slug, "vivy_fluorite_eyes_song");
    let themes = r.themes.expect("requested relation must stay present");
    assert!(!themes.is_empty());
}

#[test]
fn requested_theme_entries_stay_populated() {
    // The envelope of a fetch of theme 8187 with the entries relation enabled.
    let record = theme(8187, Some(vec![theme_entry(11948)]));
    let mut entries = vec![("animetheme".to_string(), record)];
    let r = unwrap_envelope(&mut entries, "animetheme").unwrap();
    assert_eq!(r.meta.id, 8187);
    assert!(r.entries.is_some());
}

#[test]
fn unrequested_relations_stay_absent() {
    let record = anime("vivy_fluorite_eyes_song", None);
    let mut entries = vec![("anime".to_string(), record)];
    let r = unwrap_envelope(&mut entries, "anime").unwrap();
    assert!(r.themes.is_none());
    assert!(r.synonyms.is_none());
    assert!(r.series.is_none());
    assert!(r.resource.is_none());
    assert!(r.images.is_none());
}

#[test]
fn search_response_fields_are_independent() {
    let response = SearchResponse {
        anime: Some(vec![anime("vivy_fluorite_eyes_song", None)]),
        artists: None,
        series: None,
        songs: Some(Vec::new()),
        themes: None,
        videos: None,
    };
    let mut entries = vec![("search".to_string(), response)];
    let r = unwrap_envelope(&mut entries, "search").unwrap();
    assert!(r.anime.is_some());
    assert!(r.artists.is_none());
    assert!(r.songs.is_some());
    assert!(r.themes.is_none());
}
