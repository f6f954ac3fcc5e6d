use vstd::prelude::*;
use vstd::string::StringExecFns;

verus! {

/// One conditional entry of a relation-path list: the path itself when the
/// toggle is enabled, nothing otherwise.
pub open spec fn if_path(enabled: bool, path: Seq<char>) -> Seq<Seq<char>> {
    if enabled {
        seq![path]
    } else {
        Seq::<Seq<char>>::empty()
    }
}

/// An enabled toggle contributes its own path to `if_path`.
pub broadcast proof fn lemma_if_path_contains(enabled: bool, path: Seq<char>)
    ensures
        enabled ==> #[trigger] if_path(enabled, path).contains(path),
{
    if enabled {
        assert(if_path(enabled, path)[0] == path);
    }
}

/// A per-resource selection of related sub-resources to request eagerly.
///
/// Each resource type has one configuration struct with a boolean toggle per
/// relation path the API can embed. `spec_includes` lists the dotted relation
/// paths of the enabled toggles, in toggle declaration order, and `includes`
/// materializes that list.
pub trait Includes: Sized {
    /// The resource-type name under which the aggregate search endpoint
    /// namespaces this configuration.
    spec fn spec_include_type() -> Seq<char>;

    /// The relation paths enabled in this configuration, in declaration order.
    spec fn spec_includes(&self) -> Seq<Seq<char>>;

    /// The configuration with every toggle disabled.
    spec fn spec_empty() -> Self;

    /// An empty configuration requests no relation paths.
    proof fn lemma_empty_includes_nothing()
        ensures
            Self::spec_empty().spec_includes() == Seq::<Seq<char>>::empty(),
    ;

    fn include_type() -> (r: &'static str)
        ensures
            r@ == Self::spec_include_type(),
    ;

    fn includes(&self) -> (r: Vec<String>)
        ensures
            r.deep_view() == self.spec_includes(),
    ;
}

/// Appends `path` to `v` exactly when `enabled` is set.
fn push_if(v: &mut Vec<String>, enabled: bool, path: &str)
    ensures
        final(v).deep_view() == old(v).deep_view() + if_path(enabled, path@),
{
    if enabled {
        v.push(path.to_owned());
    }
    proof {
        assert(v.deep_view() =~= old(v).deep_view() + if_path(enabled, path@));
    }
}

/// The relations of an anime record that can be requested along with it.
#[derive(Clone, Copy, Debug, PartialEq, Eq, Structural)]
pub struct AnimeInclude {
    pub synonyms: bool,
    pub themes: bool,
    pub themes_entries: bool,
    pub themes_entries_videos: bool,
    pub themes_song: bool,
    pub themes_song_artists: bool,
    pub images: bool,
    pub resources: bool,
    pub series: bool,
    pub studios: bool,
}

impl AnimeInclude {
    pub fn synonyms(self) -> (r: Self)
        ensures
            r == (Self { synonyms: true, ..self }),
    {
        Self { synonyms: true, ..self }
    }

    pub fn themes(self) -> (r: Self)
        ensures
            r == (Self { themes: true, ..self }),
    {
        Self { themes: true, ..self }
    }

    pub fn themes_entries(self) -> (r: Self)
        ensures
            r == (Self { themes_entries: true, ..self }),
    {
        Self { themes_entries: true, ..self }
    }

    pub fn themes_entries_videos(self) -> (r: Self)
        ensures
            r == (Self { themes_entries_videos: true, ..self }),
    {
        Self { themes_entries_videos: true, ..self }
    }

    pub fn themes_song(self) -> (r: Self)
        ensures
            r == (Self { themes_song: true, ..self }),
    {
        Self { themes_song: true, ..self }
    }

    pub fn themes_song_artists(self) -> (r: Self)
        ensures
            r == (Self { themes_song_artists: true, ..self }),
    {
        Self { themes_song_artists: true, ..self }
    }

    pub fn images(self) -> (r: Self)
        ensures
            r == (Self { images: true, ..self }),
    {
        Self { images: true, ..self }
    }

    pub fn resources(self) -> (r: Self)
        ensures
            r == (Self { resources: true, ..self }),
    {
        Self { resources: true, ..self }
    }

    pub fn series(self) -> (r: Self)
        ensures
            r == (Self { series: true, ..self }),
    {
        Self { series: true, ..self }
    }

    pub fn studios(self) -> (r: Self)
        ensures
            r == (Self { studios: true, ..self }),
    {
        Self { studios: true, ..self }
    }
}

impl Includes for AnimeInclude {
    open spec fn spec_include_type() -> Seq<char> {
        "anime"@
    }

    open spec fn spec_includes(&self) -> Seq<Seq<char>> {
        if_path(self.synonyms, "animesynonyms"@) + if_path(self.themes, "animethemes"@)
            + if_path(self.themes_entries, "animethemes.animethemeentries"@) + if_path(
            self.themes_entries_videos,
            "animethemes.animethemeentries.videos"@,
        ) + if_path(self.themes_song, "animethemes.song"@) + if_path(
            self.themes_song_artists,
            "animethemes.song.artists"@,
        ) + if_path(self.images, "images"@) + if_path(self.resources, "resources"@) + if_path(
            self.series,
            "series"@,
        ) + if_path(self.studios, "studios"@)
    }

    open spec fn spec_empty() -> Self {
        AnimeInclude {
            synonyms: false,
            themes: false,
            themes_entries: false,
            themes_entries_videos: false,
            themes_song: false,
            themes_song_artists: false,
            images: false,
            resources: false,
            series: false,
            studios: false,
        }
    }

    proof fn lemma_empty_includes_nothing() {
        assert(Self::spec_empty().spec_includes() =~= Seq::<Seq<char>>::empty());
    }

    fn include_type() -> (r: &'static str) {
        "anime"
    }

    fn includes(&self) -> (r: Vec<String>) {
        let mut v: Vec<String> = Vec::new();
        proof {
            assert(v.deep_view() =~= Seq::<Seq<char>>::empty());
        }
        push_if(&mut v, self.synonyms, "animesynonyms");
        proof {
            assert(v.deep_view() =~= if_path(self.synonyms, "animesynonyms"@));
        }
        push_if(&mut v, self.themes, "animethemes");
        push_if(&mut v, self.themes_entries, "animethemes.animethemeentries");
        push_if(&mut v, self.themes_entries_videos, "animethemes.animethemeentries.videos");
        push_if(&mut v, self.themes_song, "animethemes.song");
        push_if(&mut v, self.themes_song_artists, "animethemes.song.artists");
        push_if(&mut v, self.images, "images");
        push_if(&mut v, self.resources, "resources");
        push_if(&mut v, self.series, "series");
        push_if(&mut v, self.studios, "studios");
        v
    }
}

impl Default for AnimeInclude {
    fn default() -> (r: Self)
        ensures
            r == Self::spec_empty(),
    {
        AnimeInclude {
            synonyms: false,
            themes: false,
            themes_entries: false,
            themes_entries_videos: false,
            themes_song: false,
            themes_song_artists: false,
            images: false,
            resources: false,
            series: false,
            studios: false,
        }
    }
}

/// The relations of an anime-image link record that can be requested along with it.
#[derive(Clone, Copy, Debug, PartialEq, Eq, Structural)]
pub struct AnimeImageInclude {
    pub anime: bool,
    pub image: bool,
}

impl AnimeImageInclude {
    pub fn anime(self) -> (r: Self)
        ensures
            r == (Self { anime: true, ..self }),
    {
        Self { anime: true, ..self }
    }

    pub fn image(self) -> (r: Self)
        ensures
            r == (Self { image: true, ..self }),
    {
        Self { image: true, ..self }
    }
}

impl Includes for AnimeImageInclude {
    open spec fn spec_include_type() -> Seq<char> {
        "animeimage"@
    }

    open spec fn spec_includes(&self) -> Seq<Seq<char>> {
        if_path(self.anime, "anime"@) + if_path(self.image, "image"@)
    }

    open spec fn spec_empty() -> Self {
        AnimeImageInclude { anime: false, image: false }
    }

    proof fn lemma_empty_includes_nothing() {
        assert(Self::spec_empty().spec_includes() =~= Seq::<Seq<char>>::empty());
    }

    fn include_type() -> (r: &'static str) {
        "animeimage"
    }

    fn includes(&self) -> (r: Vec<String>) {
        let mut v: Vec<String> = Vec::new();
        proof {
            assert(v.deep_view() =~= Seq::<Seq<char>>::empty());
        }
        push_if(&mut v, self.anime, "anime");
        proof {
            assert(v.deep_view() =~= if_path(self.anime, "anime"@));
        }
        push_if(&mut v, self.image, "image");
        v
    }
}

impl Default for AnimeImageInclude {
    fn default() -> (r: Self)
        ensures
            r == Self::spec_empty(),
    {
        AnimeImageInclude { anime: false, image: false }
    }
}

/// The relations of an anime-synonym record that can be requested along with it.
#[derive(Clone, Copy, Debug, PartialEq, Eq, Structural)]
pub struct SynonymInclude {
    pub anime: bool,
}

impl SynonymInclude {
    pub fn anime(self) -> (r: Self)
        ensures
            r == (Self { anime: true, ..self }),
    {
        Self { anime: true, ..self }
    }
}

impl Includes for SynonymInclude {
    open spec fn spec_include_type() -> Seq<char> {
        "animesynonym"@
    }

    open spec fn spec_includes(&self) -> Seq<Seq<char>> {
        if_path(self.anime, "anime"@)
    }

    open spec fn spec_empty() -> Self {
        SynonymInclude { anime: false }
    }

    proof fn lemma_empty_includes_nothing() {
        assert(Self::spec_empty().spec_includes() =~= Seq::<Seq<char>>::empty());
    }

    fn include_type() -> (r: &'static str) {
        "animesynonym"
    }

    fn includes(&self) -> (r: Vec<String>) {
        let mut v: Vec<String> = Vec::new();
        proof {
            assert(v.deep_view() =~= Seq::<Seq<char>>::empty());
        }
        push_if(&mut v, self.anime, "anime");
        proof {
            assert(v.deep_view() =~= if_path(self.anime, "anime"@));
        }
        v
    }
}

impl Default for SynonymInclude {
    fn default() -> (r: Self)
        ensures
            r == Self::spec_empty(),
    {
        SynonymInclude { anime: false }
    }
}

/// The relations of a theme record that can be requested along with it.
#[derive(Clone, Copy, Debug, PartialEq, Eq, Structural)]
pub struct ThemeInclude {
    pub anime: bool,
    pub anime_images: bool,
    pub entries: bool,
    pub entries_videos: bool,
    pub song: bool,
    pub song_artists: bool,
}

impl ThemeInclude {
    pub fn anime(self) -> (r: Self)
        ensures
            r == (Self { anime: true, ..self }),
    {
        Self { anime: true, ..self }
    }

    pub fn anime_images(self) -> (r: Self)
        ensures
            r == (Self { anime_images: true, ..self }),
    {
        Self { anime_images: true, ..self }
    }

    pub fn entries(self) -> (r: Self)
        ensures
            r == (Self { entries: true, ..self }),
    {
        Self { entries: true, ..self }
    }

    pub fn entries_videos(self) -> (r: Self)
        ensures
            r == (Self { entries_videos: true, ..self }),
    {
        Self { entries_videos: true, ..self }
    }

    pub fn song(self) -> (r: Self)
        ensures
            r == (Self { song: true, ..self }),
    {
        Self { song: true, ..self }
    }

    pub fn song_artists(self) -> (r: Self)
        ensures
            r == (Self { song_artists: true, ..self }),
    {
        Self { song_artists: true, ..self }
    }
}

impl Includes for ThemeInclude {
    open spec fn spec_include_type() -> Seq<char> {
        "animetheme"@
    }

    open spec fn spec_includes(&self) -> Seq<Seq<char>> {
        if_path(self.anime, "anime"@) + if_path(self.anime_images, "anime.images"@) + if_path(self.entries, "animethemeentries"@) + if_path(self.entries_videos, "animethemeentries.videos"@) + if_path(self.song, "song"@) + if_path(self.song_artists, "song.artists"@)
    }

    open spec fn spec_empty() -> Self {
        ThemeInclude { anime: false, anime_images: false, entries: false, entries_videos: false, song: false, song_artists: false }
    }

    proof fn lemma_empty_includes_nothing() {
        assert(Self::spec_empty().spec_includes() =~= Seq::<Seq<char>>::empty());
    }

    fn include_type() -> (r: &'static str) {
        "animetheme"
    }

    fn includes(&self) -> (r: Vec<String>) {
        let mut v: Vec<String> = Vec::new();
        proof {
            assert(v.deep_view() =~= Seq::<Seq<char>>::empty());
        }
        push_if(&mut v, self.anime, "anime");
        proof {
            assert(v.deep_view() =~= if_path(self.anime, "anime"@));
        }
        push_if(&mut v, self.anime_images, "anime.images");
        push_if(&mut v, self.entries, "animethemeentries");
        push_if(&mut v, self.entries_videos, "animethemeentries.videos");
        push_if(&mut v, self.song, "song");
        push_if(&mut v, self.song_artists, "song.artists");
        v
    }
}

impl Default for ThemeInclude {
    fn default() -> (r: Self)
        ensures
            r == Self::spec_empty(),
    {
        ThemeInclude { anime: false, anime_images: false, entries: false, entries_videos: false, song: false, song_artists: false }
    }
}

/// The relations of a theme-entry record that can be requested along with it.
#[derive(Clone, Copy, Debug, PartialEq, Eq, Structural)]
pub struct ThemeEntryInclude {
    pub theme: bool,
    pub theme_anime: bool,
    pub videos: bool,
}

impl ThemeEntryInclude {
    pub fn theme(self) -> (r: Self)
        ensures
            r == (Self { theme: true, ..self }),
    {
        Self { theme: true, ..self }
    }

    pub fn theme_anime(self) -> (r: Self)
        ensures
            r == (Self { theme_anime: true, ..self }),
    {
        Self { theme_anime: true, ..self }
    }

    pub fn videos(self) -> (r: Self)
        ensures
            r == (Self { videos: true, ..self }),
    {
        Self { videos: true, ..self }
    }
}

impl Includes for ThemeEntryInclude {
    open spec fn spec_include_type() -> Seq<char> {
        "animethemeentry"@
    }

    open spec fn spec_includes(&self) -> Seq<Seq<char>> {
        if_path(self.theme, "animetheme"@) + if_path(self.theme_anime, "animetheme.anime"@) + if_path(self.videos, "videos"@)
    }

    open spec fn spec_empty() -> Self {
        ThemeEntryInclude { theme: false, theme_anime: false, videos: false }
    }

    proof fn lemma_empty_includes_nothing() {
        assert(Self::spec_empty().spec_includes() =~= Seq::<Seq<char>>::empty());
    }

    fn include_type() -> (r: &'static str) {
        "animethemeentry"
    }

    fn includes(&self) -> (r: Vec<String>) {
        let mut v: Vec<String> = Vec::new();
        proof {
            assert(v.deep_view() =~= Seq::<Seq<char>>::empty());
        }
        push_if(&mut v, self.theme, "animetheme");
        proof {
            assert(v.deep_view() =~= if_path(self.theme, "animetheme"@));
        }
        push_if(&mut v, self.theme_anime, "animetheme.anime");
        push_if(&mut v, self.videos, "videos");
        v
    }
}

impl Default for ThemeEntryInclude {
    fn default() -> (r: Self)
        ensures
            r == Self::spec_empty(),
    {
        ThemeEntryInclude { theme: false, theme_anime: false, videos: false }
    }
}

/// The relations of an artist record that can be requested along with it.
#[derive(Clone, Copy, Debug, PartialEq, Eq, Structural)]
pub struct ArtistInclude {
    pub groups: bool,
    pub members: bool,
    pub resources: bool,
    pub songs: bool,
    pub songs_themes: bool,
    pub songs_themes_anime: bool,
}

impl ArtistInclude {
    pub fn groups(self) -> (r: Self)
        ensures
            r == (Self { groups: true, ..self }),
    {
        Self { groups: true, ..self }
    }

    pub fn members(self) -> (r: Self)
        ensures
            r == (Self { members: true, ..self }),
    {
        Self { members: true, ..self }
    }

    pub fn resources(self) -> (r: Self)
        ensures
            r == (Self { resources: true, ..self }),
    {
        Self { resources: true, ..self }
    }

    pub fn songs(self) -> (r: Self)
        ensures
            r == (Self { songs: true, ..self }),
    {
        Self { songs: true, ..self }
    }

    pub fn songs_themes(self) -> (r: Self)
        ensures
            r == (Self { songs_themes: true, ..self }),
    {
        Self { songs_themes: true, ..self }
    }

    pub fn songs_themes_anime(self) -> (r: Self)
        ensures
            r == (Self { songs_themes_anime: true, ..self }),
    {
        Self { songs_themes_anime: true, ..self }
    }
}

impl Includes for ArtistInclude {
    open spec fn spec_include_type() -> Seq<char> {
        "artist"@
    }

    open spec fn spec_includes(&self) -> Seq<Seq<char>> {
        if_path(self.groups, "groups"@) + if_path(self.members, "members"@) + if_path(self.resources, "resources"@) + if_path(self.songs, "songs"@) + if_path(self.songs_themes, "songs.animethemes"@) + if_path(self.songs_themes_anime, "songs.animethemes.anime"@)
    }

    open spec fn spec_empty() -> Self {
        ArtistInclude { groups: false, members: false, resources: false, songs: false, songs_themes: false, songs_themes_anime: false }
    }

    proof fn lemma_empty_includes_nothing() {
        assert(Self::spec_empty().spec_includes() =~= Seq::<Seq<char>>::empty());
    }

    fn include_type() -> (r: &'static str) {
        "artist"
    }

    fn includes(&self) -> (r: Vec<String>) {
        let mut v: Vec<String> = Vec::new();
        proof {
            assert(v.deep_view() =~= Seq::<Seq<char>>::empty());
        }
        push_if(&mut v, self.groups, "groups");
        proof {
            assert(v.deep_view() =~= if_path(self.groups, "groups"@));
        }
        push_if(&mut v, self.members, "members");
        push_if(&mut v, self.resources, "resources");
        push_if(&mut v, self.songs, "songs");
        push_if(&mut v, self.songs_themes, "songs.animethemes");
        push_if(&mut v, self.songs_themes_anime, "songs.animethemes.anime");
        v
    }
}

impl Default for ArtistInclude {
    fn default() -> (r: Self)
        ensures
            r == Self::spec_empty(),
    {
        ArtistInclude { groups: false, members: false, resources: false, songs: false, songs_themes: false, songs_themes_anime: false }
    }
}

/// The relations of an image record that can be requested along with it.
#[derive(Clone, Copy, Debug, PartialEq, Eq, Structural)]
pub struct ImageInclude {
    pub anime: bool,
    pub artists: bool,
    pub studios: bool,
}

impl ImageInclude {
    pub fn anime(self) -> (r: Self)
        ensures
            r == (Self { anime: true, ..self }),
    {
        Self { anime: true, ..self }
    }

    pub fn artists(self) -> (r: Self)
        ensures
            r == (Self { artists: true, ..self }),
    {
        Self { artists: true, ..self }
    }

    pub fn studios(self) -> (r: Self)
        ensures
            r == (Self { studios: true, ..self }),
    {
        Self { studios: true, ..self }
    }
}

impl Includes for ImageInclude {
    open spec fn spec_include_type() -> Seq<char> {
        "image"@
    }

    open spec fn spec_includes(&self) -> Seq<Seq<char>> {
        if_path(self.anime, "anime"@) + if_path(self.artists, "artists"@) + if_path(self.studios, "studios"@)
    }

    open spec fn spec_empty() -> Self {
        ImageInclude { anime: false, artists: false, studios: false }
    }

    proof fn lemma_empty_includes_nothing() {
        assert(Self::spec_empty().spec_includes() =~= Seq::<Seq<char>>::empty());
    }

    fn include_type() -> (r: &'static str) {
        "image"
    }

    fn includes(&self) -> (r: Vec<String>) {
        let mut v: Vec<String> = Vec::new();
        proof {
            assert(v.deep_view() =~= Seq::<Seq<char>>::empty());
        }
        push_if(&mut v, self.anime, "anime");
        proof {
            assert(v.deep_view() =~= if_path(self.anime, "anime"@));
        }
        push_if(&mut v, self.artists, "artists");
        push_if(&mut v, self.studios, "studios");
        v
    }
}

impl Default for ImageInclude {
    fn default() -> (r: Self)
        ensures
            r == Self::spec_empty(),
    {
        ImageInclude { anime: false, artists: false, studios: false }
    }
}

/// The relations of a resource record that can be requested along with it.
#[derive(Clone, Copy, Debug, PartialEq, Eq, Structural)]
pub struct ResourceInclude {
    pub anime: bool,
    pub artists: bool,
    pub studios: bool,
}

impl ResourceInclude {
    pub fn anime(self) -> (r: Self)
        ensures
            r == (Self { anime: true, ..self }),
    {
        Self { anime: true, ..self }
    }

    pub fn artists(self) -> (r: Self)
        ensures
            r == (Self { artists: true, ..self }),
    {
        Self { artists: true, ..self }
    }

    pub fn studios(self) -> (r: Self)
        ensures
            r == (Self { studios: true, ..self }),
    {
        Self { studios: true, ..self }
    }
}

impl Includes for ResourceInclude {
    open spec fn spec_include_type() -> Seq<char> {
        "resource"@
    }

    open spec fn spec_includes(&self) -> Seq<Seq<char>> {
        if_path(self.anime, "anime"@) + if_path(self.artists, "artists"@) + if_path(self.studios, "studios"@)
    }

    open spec fn spec_empty() -> Self {
        ResourceInclude { anime: false, artists: false, studios: false }
    }

    proof fn lemma_empty_includes_nothing() {
        assert(Self::spec_empty().spec_includes() =~= Seq::<Seq<char>>::empty());
    }

    fn include_type() -> (r: &'static str) {
        "resource"
    }

    fn includes(&self) -> (r: Vec<String>) {
        let mut v: Vec<String> = Vec::new();
        proof {
            assert(v.deep_view() =~= Seq::<Seq<char>>::empty());
        }
        push_if(&mut v, self.anime, "anime");
        proof {
            assert(v.deep_view() =~= if_path(self.anime, "anime"@));
        }
        push_if(&mut v, self.artists, "artists");
        push_if(&mut v, self.studios, "studios");
        v
    }
}

impl Default for ResourceInclude {
    fn default() -> (r: Self)
        ensures
            r == Self::spec_empty(),
    {
        ResourceInclude { anime: false, artists: false, studios: false }
    }
}

/// The relations of a series record that can be requested along with it.
#[derive(Clone, Copy, Debug, PartialEq, Eq, Structural)]
pub struct SeriesInclude {
    pub anime: bool,
}

impl SeriesInclude {
    pub fn anime(self) -> (r: Self)
        ensures
            r == (Self { anime: true, ..self }),
    {
        Self { anime: true, ..self }
    }
}

impl Includes for SeriesInclude {
    open spec fn spec_include_type() -> Seq<char> {
        "series"@
    }

    open spec fn spec_includes(&self) -> Seq<Seq<char>> {
        if_path(self.anime, "anime"@)
    }

    open spec fn spec_empty() -> Self {
        SeriesInclude { anime: false }
    }

    proof fn lemma_empty_includes_nothing() {
        assert(Self::spec_empty().spec_includes() =~= Seq::<Seq<char>>::empty());
    }

    fn include_type() -> (r: &'static str) {
        "series"
    }

    fn includes(&self) -> (r: Vec<String>) {
        let mut v: Vec<String> = Vec::new();
        proof {
            assert(v.deep_view() =~= Seq::<Seq<char>>::empty());
        }
        push_if(&mut v, self.anime, "anime");
        proof {
            assert(v.deep_view() =~= if_path(self.anime, "anime"@));
        }
        v
    }
}

impl Default for SeriesInclude {
    fn default() -> (r: Self)
        ensures
            r == Self::spec_empty(),
    {
        SeriesInclude { anime: false }
    }
}

/// The relations of a song record that can be requested along with it.
#[derive(Clone, Copy, Debug, PartialEq, Eq, Structural)]
pub struct SongInclude {
    pub themes: bool,
    pub themes_anime: bool,
    pub artists: bool,
}

impl SongInclude {
    pub fn themes(self) -> (r: Self)
        ensures
            r == (Self { themes: true, ..self }),
    {
        Self { themes: true, ..self }
    }

    pub fn themes_anime(self) -> (r: Self)
        ensures
            r == (Self { themes_anime: true, ..self }),
    {
        Self { themes_anime: true, ..self }
    }

    pub fn artists(self) -> (r: Self)
        ensures
            r == (Self { artists: true, ..self }),
    {
        Self { artists: true, ..self }
    }
}

impl Includes for SongInclude {
    open spec fn spec_include_type() -> Seq<char> {
        "song"@
    }

    open spec fn spec_includes(&self) -> Seq<Seq<char>> {
        if_path(self.themes, "animethemes"@) + if_path(self.themes_anime, "animethemes.anime"@) + if_path(self.artists, "artists"@)
    }

    open spec fn spec_empty() -> Self {
        SongInclude { themes: false, themes_anime: false, artists: false }
    }

    proof fn lemma_empty_includes_nothing() {
        assert(Self::spec_empty().spec_includes() =~= Seq::<Seq<char>>::empty());
    }

    fn include_type() -> (r: &'static str) {
        "song"
    }

    fn includes(&self) -> (r: Vec<String>) {
        let mut v: Vec<String> = Vec::new();
        proof {
            assert(v.deep_view() =~= Seq::<Seq<char>>::empty());
        }
        push_if(&mut v, self.themes, "animethemes");
        proof {
            assert(v.deep_view() =~= if_path(self.themes, "animethemes"@));
        }
        push_if(&mut v, self.themes_anime, "animethemes.anime");
        push_if(&mut v, self.artists, "artists");
        v
    }
}

impl Default for SongInclude {
    fn default() -> (r: Self)
        ensures
            r == Self::spec_empty(),
    {
        SongInclude { themes: false, themes_anime: false, artists: false }
    }
}

/// The relations of a studio record that can be requested along with it.
#[derive(Clone, Copy, Debug, PartialEq, Eq, Structural)]
pub struct Studio {
    pub anime: bool,
    pub images: bool,
    pub resources: bool,
}

impl Studio {
    pub fn anime(self) -> (r: Self)
        ensures
            r == (Self { anime: true, ..self }),
    {
        Self { anime: true, ..self }
    }

    pub fn images(self) -> (r: Self)
        ensures
            r == (Self { images: true, ..self }),
    {
        Self { images: true, ..self }
    }

    pub fn resources(self) -> (r: Self)
        ensures
            r == (Self { resources: true, ..self }),
    {
        Self { resources: true, ..self }
    }
}

impl Includes for Studio {
    open spec fn spec_include_type() -> Seq<char> {
        "studio"@
    }

    open spec fn spec_includes(&self) -> Seq<Seq<char>> {
        if_path(self.anime, "anime"@) + if_path(self.images, "images"@) + if_path(self.resources, "resources"@)
    }

    open spec fn spec_empty() -> Self {
        Studio { anime: false, images: false, resources: false }
    }

    proof fn lemma_empty_includes_nothing() {
        assert(Self::spec_empty().spec_includes() =~= Seq::<Seq<char>>::empty());
    }

    fn include_type() -> (r: &'static str) {
        "studio"
    }

    fn includes(&self) -> (r: Vec<String>) {
        let mut v: Vec<String> = Vec::new();
        proof {
            assert(v.deep_view() =~= Seq::<Seq<char>>::empty());
        }
        push_if(&mut v, self.anime, "anime");
        proof {
            assert(v.deep_view() =~= if_path(self.anime, "anime"@));
        }
        push_if(&mut v, self.images, "images");
        push_if(&mut v, self.resources, "resources");
        v
    }
}

impl Default for Studio {
    fn default() -> (r: Self)
        ensures
            r == Self::spec_empty(),
    {
        Studio { anime: false, images: false, resources: false }
    }
}

/// The relations of a video record that can be requested along with it.
#[derive(Clone, Copy, Debug, PartialEq, Eq, Structural)]
pub struct VideoInclude {
    pub entries: bool,
    pub entries_theme: bool,
    pub entries_theme_anime: bool,
}

impl VideoInclude {
    pub fn entries(self) -> (r: Self)
        ensures
            r == (Self { entries: true, ..self }),
    {
        Self { entries: true, ..self }
    }

    pub fn entries_theme(self) -> (r: Self)
        ensures
            r == (Self { entries_theme: true, ..self }),
    {
        Self { entries_theme: true, ..self }
    }

    pub fn entries_theme_anime(self) -> (r: Self)
        ensures
            r == (Self { entries_theme_anime: true, ..self }),
    {
        Self { entries_theme_anime: true, ..self }
    }
}

impl Includes for VideoInclude {
    open spec fn spec_include_type() -> Seq<char> {
        "video"@
    }

    open spec fn spec_includes(&self) -> Seq<Seq<char>> {
        if_path(self.entries, "animethemeentries"@) + if_path(self.entries_theme, "animethemeentries.animetheme"@) + if_path(self.entries_theme_anime, "animethemeentries.animetheme.anime"@)
    }

    open spec fn spec_empty() -> Self {
        VideoInclude { entries: false, entries_theme: false, entries_theme_anime: false }
    }

    proof fn lemma_empty_includes_nothing() {
        assert(Self::spec_empty().spec_includes() =~= Seq::<Seq<char>>::empty());
    }

    fn include_type() -> (r: &'static str) {
        "video"
    }

    fn includes(&self) -> (r: Vec<String>) {
        let mut v: Vec<String> = Vec::new();
        proof {
            assert(v.deep_view() =~= Seq::<Seq<char>>::empty());
        }
        push_if(&mut v, self.entries, "animethemeentries");
        proof {
            assert(v.deep_view() =~= if_path(self.entries, "animethemeentries"@));
        }
        push_if(&mut v, self.entries_theme, "animethemeentries.animetheme");
        push_if(&mut v, self.entries_theme_anime, "animethemeentries.animetheme.anime");
        v
    }
}

impl Default for VideoInclude {
    fn default() -> (r: Self)
        ensures
            r == Self::spec_empty(),
    {
        VideoInclude { entries: false, entries_theme: false, entries_theme_anime: false }
    }
}



/// The aggregate-search parameter key that namespaces a resource type's
/// relation paths: `includes[<type>]`.
pub open spec fn spec_namespaced_key(ty: Seq<char>) -> Seq<char> {
    "includes["@ + ty + "]"@
}

/// One entry of the aggregate-search parameter list: nothing when the path
/// list is empty, otherwise the namespaced key paired with the comma-joined
/// paths.
pub open spec fn indo_entry(ty: Seq<char>, paths: Seq<Seq<char>>) -> Seq<(Seq<char>, Seq<char>)> {
    if paths.len() == 0 {
        Seq::<(Seq<char>, Seq<char>)>::empty()
    } else {
        seq![(spec_namespaced_key(ty), crate::join::join_comma(paths))]
    }
}

/// Builds the `includes[<type>]` parameter key for a resource type.
fn namespaced_key(ty: &str) -> (r: String)
    ensures
        r@ == spec_namespaced_key(ty@),
{
    String::from_str("includes[").concat(ty).concat("]")
}

/// Appends the parameter for one resource type's selection, when non-empty.
fn push_entry(q: &mut Vec<(String, String)>, ty: &str, paths: &Vec<String>)
    ensures
        final(q).deep_view() == old(q).deep_view() + indo_entry(ty@, paths.deep_view()),
{
    if paths.len() > 0 {
        q.push((namespaced_key(ty), crate::join::join_with_commas(paths)));
    }
    proof {
        assert(q.deep_view() =~= old(q).deep_view() + indo_entry(ty@, paths.deep_view()));
    }
}

/// The per-resource-type include selections of an aggregate search call.
#[derive(Clone, Copy, Debug, PartialEq, Eq, Structural)]
pub struct SearchIncludes {
    pub anime: AnimeInclude,
    pub animethemes: ThemeInclude,
    pub artists: ArtistInclude,
    pub series: SeriesInclude,
    pub songs: SongInclude,
    pub videos: VideoInclude,
}

impl SearchIncludes {
    /// The selection with every toggle of every resource type disabled.
    pub open spec fn spec_empty() -> Self {
        SearchIncludes {
            anime: AnimeInclude::spec_empty(),
            animethemes: ThemeInclude::spec_empty(),
            artists: ArtistInclude::spec_empty(),
            series: SeriesInclude::spec_empty(),
            songs: SongInclude::spec_empty(),
            videos: VideoInclude::spec_empty(),
        }
    }

    /// The `includes[<type>]` query parameters of this selection: one per
    /// resource type whose path list is non-empty, in declaration order.
    pub open spec fn spec_indo_includes(self) -> Seq<(Seq<char>, Seq<char>)> {
        indo_entry(AnimeInclude::spec_include_type(), self.anime.spec_includes()) + indo_entry(
            ThemeInclude::spec_include_type(),
            self.animethemes.spec_includes(),
        ) + indo_entry(ArtistInclude::spec_include_type(), self.artists.spec_includes())
            + indo_entry(SeriesInclude::spec_include_type(), self.series.spec_includes())
            + indo_entry(SongInclude::spec_include_type(), self.songs.spec_includes())
            + indo_entry(VideoInclude::spec_include_type(), self.videos.spec_includes())
    }

    /// An empty selection contributes no aggregate-search parameters.
    pub proof fn lemma_empty_search_includes_nothing()
        ensures
            Self::spec_empty().spec_indo_includes() == Seq::<(Seq<char>, Seq<char>)>::empty(),
    {
        AnimeInclude::lemma_empty_includes_nothing();
        ThemeInclude::lemma_empty_includes_nothing();
        ArtistInclude::lemma_empty_includes_nothing();
        SeriesInclude::lemma_empty_includes_nothing();
        SongInclude::lemma_empty_includes_nothing();
        VideoInclude::lemma_empty_includes_nothing();
        assert(Self::spec_empty().spec_indo_includes() =~= Seq::<(Seq<char>, Seq<char>)>::empty());
    }

    pub fn indo_includes(self) -> (r: Vec<(String, String)>)
        ensures
            r.deep_view() == self.spec_indo_includes(),
    {
        let mut q: Vec<(String, String)> = Vec::new();
        proof {
            assert(q.deep_view() =~= Seq::<(Seq<char>, Seq<char>)>::empty());
        }
        let anime_paths = self.anime.includes();
        push_entry(&mut q, AnimeInclude::include_type(), &anime_paths);
        proof {
            assert(q.deep_view() =~= indo_entry(
                AnimeInclude::spec_include_type(),
                self.anime.spec_includes(),
            ));
        }
        let theme_paths = self.animethemes.includes();
        push_entry(&mut q, ThemeInclude::include_type(), &theme_paths);
        let artist_paths = self.artists.includes();
        push_entry(&mut q, ArtistInclude::include_type(), &artist_paths);
        let series_paths = self.series.includes();
        push_entry(&mut q, SeriesInclude::include_type(), &series_paths);
        let song_paths = self.songs.includes();
        push_entry(&mut q, SongInclude::include_type(), &song_paths);
        let video_paths = self.videos.includes();
        push_entry(&mut q, VideoInclude::include_type(), &video_paths);
        q
    }
}

impl Default for SearchIncludes {
    fn default() -> (r: Self)
        ensures
            r == Self::spec_empty(),
    {
        SearchIncludes {
            anime: AnimeInclude::default(),
            animethemes: ThemeInclude::default(),
            artists: ArtistInclude::default(),
            series: SeriesInclude::default(),
            songs: SongInclude::default(),
            videos: VideoInclude::default(),
        }
    }
}


/// Every enabled toggle of an anime selection contributes its relation path to
/// the requested path list.
#[verifier::rlimit(50)]
pub proof fn lemma_anime_enabled_paths(c: AnimeInclude)
    ensures
        c.synonyms ==> c.spec_includes().contains("animesynonyms"@),
        c.themes ==> c.spec_includes().contains("animethemes"@),
        c.themes_entries ==> c.spec_includes().contains("animethemes.animethemeentries"@),
        c.themes_entries_videos ==> c.spec_includes().contains("animethemes.animethemeentries.videos"@),
        c.themes_song ==> c.spec_includes().contains("animethemes.song"@),
        c.themes_song_artists ==> c.spec_includes().contains("animethemes.song.artists"@),
        c.images ==> c.spec_includes().contains("images"@),
        c.resources ==> c.spec_includes().contains("resources"@),
        c.series ==> c.spec_includes().contains("series"@),
        c.studios ==> c.spec_includes().contains("studios"@),
{
    broadcast use vstd::seq_lib::lemma_seq_concat_contains_all_elements;
    broadcast use lemma_if_path_contains;
}

/// Every enabled toggle of an anime-image selection contributes its relation path to
/// the requested path list.
pub proof fn lemma_anime_image_enabled_paths(c: AnimeImageInclude)
    ensures
        c.anime ==> c.spec_includes().contains("anime"@),
        c.image ==> c.spec_includes().contains("image"@),
{
    broadcast use vstd::seq_lib::lemma_seq_concat_contains_all_elements;
    broadcast use lemma_if_path_contains;
}

/// Every enabled toggle of a synonym selection contributes its relation path to
/// the requested path list.
pub proof fn lemma_synonym_enabled_paths(c: SynonymInclude)
    ensures
        c.anime ==> c.spec_includes().contains("anime"@),
{
    broadcast use vstd::seq_lib::lemma_seq_concat_contains_all_elements;
    broadcast use lemma_if_path_contains;
}

/// Every enabled toggle of a theme selection contributes its relation path to
/// the requested path list.
pub proof fn lemma_theme_enabled_paths(c: ThemeInclude)
    ensures
        c.anime ==> c.spec_includes().contains("anime"@),
        c.anime_images ==> c.spec_includes().contains("anime.images"@),
        c.entries ==> c.spec_includes().contains("animethemeentries"@),
        c.entries_videos ==> c.spec_includes().contains("animethemeentries.videos"@),
        c.song ==> c.spec_includes().contains("song"@),
        c.song_artists ==> c.spec_includes().contains("song.artists"@),
{
    broadcast use vstd::seq_lib::lemma_seq_concat_contains_all_elements;
    broadcast use lemma_if_path_contains;
}

/// Every enabled toggle of a theme-entry selection contributes its relation path to
/// the requested path list.
pub proof fn lemma_theme_entry_enabled_paths(c: ThemeEntryInclude)
    ensures
        c.theme ==> c.spec_includes().contains("animetheme"@),
        c.theme_anime ==> c.spec_includes().contains("animetheme.anime"@),
        c.videos ==> c.spec_includes().contains("videos"@),
{
    broadcast use vstd::seq_lib::lemma_seq_concat_contains_all_elements;
    broadcast use lemma_if_path_contains;
}

/// Every enabled toggle of an artist selection contributes its relation path to
/// the requested path list.
pub proof fn lemma_artist_enabled_paths(c: ArtistInclude)
    ensures
        c.groups ==> c.spec_includes().contains("groups"@),
        c.members ==> c.spec_includes().contains("members"@),
        c.resources ==> c.spec_includes().contains("resources"@),
        c.songs ==> c.spec_includes().contains("songs"@),
        c.songs_themes ==> c.spec_includes().contains("songs.animethemes"@),
        c.songs_themes_anime ==> c.spec_includes().contains("songs.animethemes.anime"@),
{
    broadcast use vstd::seq_lib::lemma_seq_concat_contains_all_elements;
    broadcast use lemma_if_path_contains;
}

/// Every enabled toggle of an image selection contributes its relation path to
/// the requested path list.
pub proof fn lemma_image_enabled_paths(c: ImageInclude)
    ensures
        c.anime ==> c.spec_includes().contains("anime"@),
        c.artists ==> c.spec_includes().contains("artists"@),
        c.studios ==> c.spec_includes().contains("studios"@),
{
    broadcast use vstd::seq_lib::lemma_seq_concat_contains_all_elements;
    broadcast use lemma_if_path_contains;
}

/// Every enabled toggle of a resource selection contributes its relation path to
/// the requested path list.
pub proof fn lemma_resource_enabled_paths(c: ResourceInclude)
    ensures
        c.anime ==> c.spec_includes().contains("anime"@),
        c.artists ==> c.spec_includes().contains("artists"@),
        c.studios ==> c.spec_includes().contains("studios"@),
{
    broadcast use vstd::seq_lib::lemma_seq_concat_contains_all_elements;
    broadcast use lemma_if_path_contains;
}

/// Every enabled toggle of a series selection contributes its relation path to
/// the requested path list.
pub proof fn lemma_series_enabled_paths(c: SeriesInclude)
    ensures
        c.anime ==> c.spec_includes().contains("anime"@),
{
    broadcast use vstd::seq_lib::lemma_seq_concat_contains_all_elements;
    broadcast use lemma_if_path_contains;
}

/// Every enabled toggle of a song selection contributes its relation path to
/// the requested path list.
pub proof fn lemma_song_enabled_paths(c: SongInclude)
    ensures
        c.themes ==> c.spec_includes().contains("animethemes"@),
        c.themes_anime ==> c.spec_includes().contains("animethemes.anime"@),
        c.artists ==> c.spec_includes().contains("artists"@),
{
    broadcast use vstd::seq_lib::lemma_seq_concat_contains_all_elements;
    broadcast use lemma_if_path_contains;
}

/// Every enabled toggle of a studio selection contributes its relation path to
/// the requested path list.
pub proof fn lemma_studio_enabled_paths(c: Studio)
    ensures
        c.anime ==> c.spec_includes().contains("anime"@),
        c.images ==> c.spec_includes().contains("images"@),
        c.resources ==> c.spec_includes().contains("resources"@),
{
    broadcast use vstd::seq_lib::lemma_seq_concat_contains_all_elements;
    broadcast use lemma_if_path_contains;
}

/// Every enabled toggle of a video selection contributes its relation path to
/// the requested path list.
pub proof fn lemma_video_enabled_paths(c: VideoInclude)
    ensures
        c.entries ==> c.spec_includes().contains("animethemeentries"@),
        c.entries_theme ==> c.spec_includes().contains("animethemeentries.animetheme"@),
        c.entries_theme_anime ==> c.spec_includes().contains("animethemeentries.animetheme.anime"@),
{
    broadcast use vstd::seq_lib::lemma_seq_concat_contains_all_elements;
    broadcast use lemma_if_path_contains;
}


/// Serializing a selection with exactly two enabled toggles yields the two
/// relation paths joined by one comma, in toggle declaration order.
pub proof fn lemma_two_toggle_serialization<I: Includes>(c: I)
    requires
        c.spec_includes().len() == 2,
    ensures
        crate::join::join_comma(c.spec_includes()) == c.spec_includes()[0] + seq![',']
            + c.spec_includes()[1],
{
    crate::join::lemma_join_comma_two(c.spec_includes());
}

} // verus!
