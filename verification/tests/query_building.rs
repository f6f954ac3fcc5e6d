use animethemes_rs::includes::AnimeInclude;
use animethemes_rs::includes::Includes;
use animethemes_rs::includes::SearchIncludes;
use animethemes_rs::join::join_with_commas;
use animethemes_rs::query::entry_path;
use animethemes_rs::query::entry_path_u32;
use animethemes_rs::query::fetch_query;
use animethemes_rs::query::search_query;
use animethemes_rs::query::u32_to_dec;
use animethemes_rs::query::DEFAULT_API_ENDPOINT;
use animethemes_rs::query::DEFAULT_VIDEO_ENDPOINT;

#[test]
fn default_endpoints() {
    assert_eq!(DEFAULT_API_ENDPOINT, "https://api.animethemes.moe");
    assert_eq!(DEFAULT_VIDEO_ENDPOINT, "https://animethemes.moe/video/");
}

#[test]
fn joining_paths() {
    assert_eq!(join_with_commas(&vec![]), "");
    assert_eq!(join_with_commas(&vec!["anime".to_string()]), "anime");
    assert_eq!(
        join_with_commas(&vec!["images".to_string(), "series".to_string()]),
        "images,series"
    );
    assert_eq!(
        join_with_commas(&vec!["a".to_string(), "b".to_string(), "c".to_string()]),
        "a,b,c"
    );
}

#[test]
fn decimal_identifiers() {
    assert_eq!(u32_to_dec(0), "0");
    assert_eq!(u32_to_dec(7), "7");
    assert_eq!(u32_to_dec(10), "10");
    assert_eq!(u32_to_dec(8187), "8187");
    assert_eq!(u32_to_dec(u32::MAX), "4294967295");
}

#[test]
fn entry_paths() {
    assert_eq!(entry_path("anime", "vivy_fluorite_eyes_song"), "/anime/vivy_fluorite_eyes_song");
    assert_eq!(entry_path("video", "KimiUso-OP2.webm"), "/video/KimiUso-OP2.webm");
    assert_eq!(entry_path_u32("animetheme", 8187), "/animetheme/8187");
    assert_eq!(entry_path_u32("animethemeentry", 11948), "/animethemeentry/11948");
}

#[test]
fn fetch_query_omits_empty_selection() {
    assert!(fetch_query(&vec![]).is_empty());
    let q = fetch_query(&AnimeInclude::default().themes().includes());
    assert_eq!(q, vec![("include".to_string(), "animethemes".to_string())]);
    let q = fetch_query(&AnimeInclude::default().images().series().includes());
    assert_eq!(q, vec![("include".to_string(), "images,series".to_string())]);
}

#[test]
fn search_query_with_empty_selection() {
    let q = search_query("", &vec![], SearchIncludes::default());
    assert_eq!(q, vec![("q".to_string(), "".to_string())]);
}

#[test]
fn search_query_orders_parameters() {
    let selection = SearchIncludes {
        anime: AnimeInclude::default().images().series(),
        ..SearchIncludes::default()
    };
    let q = search_query("vivy", &vec!["name".to_string(), "slug".to_string()], selection);
    assert_eq!(
        q,
        vec![
            ("q".to_string(), "vivy".to_string()),
            ("includes[anime]".to_string(), "images,series".to_string()),
            ("fields[search]".to_string(), "name,slug".to_string()),
        ]
    );
}
