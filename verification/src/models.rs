use vstd::prelude::*;

verus! {

/// The metadata block every API record carries: the numeric identifier and
/// the lifecycle timestamps.
#[derive(Debug, Clone)]
pub struct EntryMetadata {
    pub id: u32,
    pub created_at: String,
    pub updated_at: String,
    pub deleted_at: Option<String>,
}

/// An anime record. Relation fields are `None` unless the caller requested
/// the relation and the server returned it.
#[derive(Debug)]
pub struct Anime {
    pub meta: EntryMetadata,
    pub name: String,
    pub slug: String,
    pub year: u16,
    pub season: AnimeSeason,
    pub synopsis: String,
    pub synonyms: Option<Vec<AnimeSynonym>>,
    pub themes: Option<Vec<Theme>>,
    pub series: Option<Vec<Series>>,
    pub resource: Option<Vec<Resource>>,
    pub images: Option<Vec<Image>>,
}

/// The season in which an anime aired.
#[derive(Debug, Clone, Copy, PartialEq, Eq, Structural)]
pub enum AnimeSeason {
    Winter,
    Spring,
    Summer,
    Fall,
}

/// An alternative title of an anime.
#[derive(Debug)]
pub struct AnimeSynonym {
    pub meta: EntryMetadata,
    pub text: String,
    pub anime: Option<Anime>,
}

/// An opening or ending theme of an anime.
#[derive(Debug)]
pub struct Theme {
    pub meta: EntryMetadata,
    pub theme_type: ThemeType,
    pub sequence: Option<u16>,
    pub group: Option<String>,
    pub slug: String,
    pub song: Option<Song>,
    pub anime: Option<Anime>,
    pub entries: Option<Vec<ThemeEntry>>,
}

/// Whether a theme opens or ends its anime.
#[derive(Debug, Clone, Copy, PartialEq, Eq, Structural)]
pub enum ThemeType {
    OP,
    ED,
}

/// A song used by one or more themes.
#[derive(Debug)]
pub struct Song {
    pub meta: EntryMetadata,
    pub title: String,
    pub artists: Option<Vec<Artist>>,
    pub themes: Option<Vec<Theme>>,
}

/// An artist performing songs.
#[derive(Debug)]
pub struct Artist {
    pub meta: EntryMetadata,
    pub name: String,
    pub slug: String,
    pub as_character: Option<String>,
    pub songs: Option<Vec<Song>>,
}

/// One aired version of a theme.
#[derive(Debug)]
pub struct ThemeEntry {
    pub meta: EntryMetadata,
    pub version: Option<u32>,
    pub episodes: String,
    pub nsfw: bool,
    pub spoiler: bool,
    pub notes: Option<String>,
    pub videos: Option<Vec<Video>>,
    pub theme: Option<Theme>,
}

/// A video file of a theme entry.
#[derive(Debug)]
pub struct Video {
    pub meta: EntryMetadata,
    pub basename: String,
    pub filename: String,
    pub path: String,
    pub resolution: u32,
    pub no_credits: bool,
    pub subbed: bool,
    pub lyrics: bool,
    pub uncensored: bool,
    pub source: Option<VideoSource>,
    pub overlap: VideoOverlap,
    pub link: String,
    pub entries: Option<Vec<ThemeEntry>>,
}

/// The medium a video was sourced from.
#[derive(Debug, Clone, Copy, PartialEq, Eq, Structural)]
pub enum VideoSource {
    WEB,
    RAW,
    BD,
    DVD,
    VHS,
}

/// How much credit overlay a video carries.
#[derive(Debug, Clone, Copy, PartialEq, Eq, Structural)]
pub enum VideoOverlap {
    NoOverlap,
    Transition,
    Over,
}

/// A series grouping several anime.
#[derive(Debug)]
pub struct Series {
    pub meta: EntryMetadata,
    pub name: String,
    pub slug: String,
    pub anime: Option<Vec<Anime>>,
}

/// An external site entry about an anime or artist.
#[derive(Debug)]
pub struct Resource {
    pub meta: EntryMetadata,
    pub link: String,
    pub external_id: u32,
    pub site: String,
    pub resource_as: Option<String>,
    pub anime: Option<Vec<Anime>>,
    pub artists: Option<Vec<Artist>>,
}

/// A cover image of an anime or artist.
#[derive(Debug)]
pub struct Image {
    pub meta: EntryMetadata,
    pub path: String,
    pub facet: ImageFacet,
    pub anime: Option<Vec<Anime>>,
    pub artists: Option<Vec<Artist>>,
}

/// The role an image plays for its owner.
#[derive(Debug, Clone, Copy, PartialEq, Eq, Structural)]
pub enum ImageFacet {
    SmallCover,
    LargeCover,
}

/// The aggregate search response: one optional collection per resource type,
/// each present only when that type had matches.
#[derive(Debug)]
pub struct SearchResponse {
    pub anime: Option<Vec<Anime>>,
    pub artists: Option<Vec<Artist>>,
    pub series: Option<Vec<Series>>,
    pub songs: Option<Vec<Song>>,
    pub themes: Option<Vec<Theme>>,
    pub videos: Option<Vec<Video>>,
}

} // verus!
