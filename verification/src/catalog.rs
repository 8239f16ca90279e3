//! Records as the remote catalog delivers them, and how the player's own
//! records are made of them.
use crate::models::{
    copy_text, Album, AlbumPage, Artist, ArtistPage, Playlist, SearchResults, Track, TrackStatus,
};
use chrono::Datelike;
use std::collections::BTreeMap;
use std::str::FromStr;
use vstd::prelude::*;
use vstd::std_specs::convert::FromSpecImpl;
use vstd::string::StringExecFns;

verus! {

#[derive(Debug, Clone, PartialEq)]
pub struct RawArtist {
    pub id: u32,
    pub name: String,
    /// The large picture.
    pub image: Option<String>,
}

#[derive(Debug, Clone, PartialEq)]
pub struct RawPerformer {
    pub id: u32,
    pub name: String,
}

/// The album that a catalog track names.
#[derive(Debug, Clone, PartialEq)]
pub struct RawTrackAlbum {
    pub id: String,
    pub title: String,
    pub artist: RawArtist,
    pub image_large: String,
    pub image_small: String,
    pub tracks_count: u32,
}

#[derive(Debug, Clone, PartialEq)]
pub struct RawTrack {
    pub id: u32,
    pub track_number: u32,
    pub title: String,
    pub performer: Option<RawPerformer>,
    pub album: Option<RawTrackAlbum>,
    pub duration: u32,
    pub parental_warning: bool,
    pub hires_streamable: bool,
}

/// A track as a release lists it.
#[derive(Debug, Clone, PartialEq)]
pub struct RawReleaseTrack {
    pub id: u32,
    pub track_number: u32,
    pub title: String,
    pub artist_id: u32,
    pub artist_name: String,
    pub duration: u32,
    pub parental_warning: bool,
    pub streamable: bool,
}

#[derive(Debug, Clone, PartialEq)]
pub struct RawRelease {
    pub id: String,
    pub title: String,
    pub artist_id: u32,
    pub artist_name: String,
    /// The day of the first release, as year-month-day.
    pub date: String,
    pub tracks: Option<Vec<RawReleaseTrack>>,
    pub tracks_count: u32,
    pub hires_streamable: bool,
    pub streamable: bool,
    pub parental_warning: bool,
    pub image_large: String,
    pub image_small: String,
    pub duration: Option<u32>,
}

#[derive(Debug, Clone, PartialEq)]
pub struct RawAlbumSuggestion {
    pub id: String,
    pub title: String,
    pub artists: Option<Vec<RawPerformer>>,
    /// The day of the first release, as year-month-day.
    pub date: String,
    pub track_count: u32,
    pub hires_streamable: bool,
    pub streamable: bool,
    pub parental_warning: bool,
    pub image_large: String,
    pub image_small: String,
    pub duration: Option<u32>,
}

#[derive(Debug, Clone, PartialEq)]
pub struct RawAlbum {
    pub id: String,
    pub title: String,
    pub artist: RawArtist,
    /// The day of the first release, as year-month-day.
    pub release_date: String,
    pub tracks: Option<Vec<RawTrack>>,
    pub tracks_count: u32,
    pub hires_streamable: bool,
    pub streamable: bool,
    pub parental_warning: bool,
    pub image_large: String,
    pub image_small: String,
    pub duration: Option<u32>,
}

#[derive(Debug, Clone, PartialEq)]
pub struct RawPlaylist {
    pub id: u32,
    pub owner_id: i64,
    pub name: String,
    pub duration: u32,
    pub tracks_count: u32,
    pub tracks: Option<Vec<RawTrack>>,
    pub image_rectangle: Vec<String>,
    pub images300: Option<Vec<String>>,
}

/// The picture of an artist, as the parts of its address.
#[derive(Debug, Clone, PartialEq)]
pub struct RawImage {
    pub hash: String,
    pub format: String,
}

/// One of an artist's most played tracks.
#[derive(Debug, Clone, PartialEq)]
pub struct RawTopTrack {
    pub id: u32,
    pub track_number: u32,
    pub title: String,
    pub album_id: String,
    pub album_title: String,
    pub album_image_large: String,
    pub album_image_small: String,
    pub album_tracks_count: u32,
    pub duration: u32,
    pub parental_warning: bool,
    pub hires_streamable: bool,
}

#[derive(Debug, Clone, PartialEq)]
pub struct RawArtistPage {
    pub id: u32,
    pub name: String,
    pub portrait: Option<RawImage>,
    pub top_tracks: Vec<RawTopTrack>,
}

#[derive(Debug, Clone, PartialEq)]
pub struct RawSearchResults {
    pub query: String,
    pub albums: Vec<RawAlbum>,
    pub artists: Vec<RawArtist>,
    pub playlists: Vec<RawPlaylist>,
    pub tracks: Vec<RawTrack>,
}

/// The year of the calendar day that a text of the form year-month-day
/// names; none where the text names no day.
pub uninterp spec fn date_year(date: Seq<char>) -> Option<int>;

/// Reads a day with chrono's `NaiveDate::from_str` and takes its year with
/// `Datelike::year`. Claimed: the result is a function of the text alone,
/// named `date_year`; a text that chrono does not accept gives none.
#[verifier::external_body]
fn year_of_date(date: &str) -> (year: Option<i32>)
    ensures
        match year {
            Some(y) => date_year(date@) == Some(y as int),
            None => date_year(date@) is None,
        },
{
    match chrono::NaiveDate::from_str(date) {
        Ok(day) => Some(day.year()),
        Err(_) => None,
    }
}

/// The release year that a date stands for: its year, where the text names a
/// day of a year that is not negative.
pub open spec fn release_year_of(date: Seq<char>) -> Option<u32> {
    match date_year(date) {
        Some(y) => if 0 <= y <= u32::MAX {
            Some(y as u32)
        } else {
            None
        },
        None => None,
    }
}

/// The release year of the given year, where there is one.
pub fn year_to_release(year: Option<i32>) -> (release: Option<u32>)
    ensures
        release == match year {
            Some(y) => if y >= 0 {
                Some(y as u32)
            } else {
                None
            },
            None => None::<u32>,
        },
{
    match year {
        Some(y) => if y >= 0 {
            Some(y as u32)
        } else {
            None
        },
        None => None,
    }
}

/// The release year that a date stands for.
pub fn release_year(date: &str) -> (year: Option<u32>)
    ensures
        year == release_year_of(date@),
{
    year_to_release(year_of_date(date))
}

/// The address of an artist's picture.
pub open spec fn image_address(image: RawImage) -> Seq<char> {
    "https://static.qobuz.com/images/artists/covers/large/"@ + image.hash@ + "."@ + image.format@
}

/// The address of an artist's picture.
pub fn image_to_string(value: &RawImage) -> (address: String)
    ensures
        address@ == image_address(*value),
{
    let mut address = "https://static.qobuz.com/images/artists/covers/large/".to_owned();
    address.append(value.hash.as_str());
    address.append(".");
    address.append(value.format.as_str());
    address
}

pub open spec fn artist_of(raw: RawArtist) -> Artist {
    Artist { id: raw.id, name: raw.name, image: raw.image }
}

/// An artist known by number and name alone.
pub open spec fn named_artist(id: u32, name: String) -> Artist {
    Artist { id, name, image: None }
}

pub open spec fn track_of_release(raw: RawReleaseTrack) -> Track {
    Track {
        id: raw.id,
        number: raw.track_number,
        title: raw.title,
        album: None,
        artist: Some(named_artist(raw.artist_id, raw.artist_name)),
        duration_seconds: raw.duration,
        explicit: raw.parental_warning,
        hires_available: raw.streamable,
        cover_art: None,
        cover_art_small: None,
        status: TrackStatus::Unplayed,
    }
}

/// The player's track of a catalog track: the artist is the performer where
/// the track names one, else the artist of its album; the cover art is that
/// of its album.
pub open spec fn track_of(raw: RawTrack) -> Track {
    Track {
        id: raw.id,
        number: raw.track_number,
        title: raw.title,
        album: match raw.album {
            Some(a) => Some(
                Album {
                    id: a.id,
                    title: a.title,
                    artist: artist_of(a.artist),
                    image: a.image_small,
                    total_tracks: a.tracks_count,
                },
            ),
            None => None,
        },
        artist: match raw.performer {
            Some(p) => Some(named_artist(p.id, p.name)),
            None => match raw.album {
                Some(a) => Some(artist_of(a.artist)),
                None => None,
            },
        },
        duration_seconds: raw.duration,
        explicit: raw.parental_warning,
        hires_available: raw.hires_streamable,
        cover_art: match raw.album {
            Some(a) => Some(a.image_large),
            None => None,
        },
        cover_art_small: match raw.album {
            Some(a) => Some(a.image_small),
            None => None,
        },
        status: TrackStatus::Unplayed,
    }
}

/// The tracks numbered from 0 in their order. A number that 32 bits cannot
/// hold is cut to its low 32 bits, and a later track takes the place of an
/// earlier one with the same number.
pub open spec fn numbered(tracks: Seq<Track>) -> Map<u32, Track>
    decreases tracks.len(),
{
    if tracks.len() == 0 {
        Map::empty()
    } else {
        numbered(tracks.drop_last()).insert(
            ((tracks.len() - 1) % 0x1_0000_0000) as u32,
            tracks.last(),
        )
    }
}

/// Where 32 bits can count the tracks, each is found under its index.
pub proof fn law_numbered_by_index(tracks: Seq<Track>)
    requires
        tracks.len() <= 0x1_0000_0000,
    ensures
        numbered(tracks) == Map::new(|k: u32| k < tracks.len(), |k: u32| tracks[k as int]),
    decreases tracks.len(),
{
    if tracks.len() > 0 {
        law_numbered_by_index(tracks.drop_last());
    }
    assert(numbered(tracks) =~= Map::new(|k: u32| k < tracks.len(), |k: u32| tracks[k as int]));
}

pub open spec fn tracks_of(raws: Option<Vec<RawTrack>>) -> Seq<Track> {
    match raws {
        Some(items) => items@.map_values(|r: RawTrack| track_of(r)),
        None => Seq::empty(),
    }
}

pub open spec fn tracks_of_release(raws: Option<Vec<RawReleaseTrack>>) -> Seq<Track> {
    match raws {
        Some(items) => items@.map_values(|r: RawReleaseTrack| track_of_release(r)),
        None => Seq::empty(),
    }
}

/// The cover art of a playlist: its first wide picture, else the first of
/// its square ones.
pub open spec fn playlist_cover(raw: RawPlaylist) -> Option<String> {
    if raw.image_rectangle@.len() > 0 {
        Some(raw.image_rectangle@[0])
    } else {
        match raw.images300 {
            Some(images) => if images@.len() > 0 {
                Some(images@[0])
            } else {
                None
            },
            None => None,
        }
    }
}

fn artist_from(raw: &RawArtist) -> (artist: Artist)
    ensures
        artist == artist_of(*raw),
{
    Artist { id: raw.id, name: raw.name.clone(), image: copy_text(&raw.image) }
}

fn track_from_release(raw: &RawReleaseTrack) -> (track: Track)
    ensures
        track == track_of_release(*raw),
{
    Track {
        id: raw.id,
        number: raw.track_number,
        title: raw.title.clone(),
        album: None,
        artist: Some(Artist { id: raw.artist_id, name: raw.artist_name.clone(), image: None }),
        duration_seconds: raw.duration,
        explicit: raw.parental_warning,
        hires_available: raw.streamable,
        cover_art: None,
        cover_art_small: None,
        status: TrackStatus::Unplayed,
    }
}

fn track_from(raw: &RawTrack) -> (track: Track)
    ensures
        track == track_of(*raw),
{
    let artist = match &raw.performer {
        Some(p) => Some(Artist { id: p.id, name: p.name.clone(), image: None }),
        None => match &raw.album {
            Some(a) => Some(artist_from(&a.artist)),
            None => None,
        },
    };
    let cover_art = match &raw.album {
        Some(a) => Some(a.image_large.clone()),
        None => None,
    };
    let cover_art_small = match &raw.album {
        Some(a) => Some(a.image_small.clone()),
        None => None,
    };
    let album = match &raw.album {
        Some(a) => Some(
            Album {
                id: a.id.clone(),
                title: a.title.clone(),
                artist: artist_from(&a.artist),
                image: a.image_small.clone(),
                total_tracks: a.tracks_count,
            },
        ),
        None => None,
    };
    Track {
        id: raw.id,
        number: raw.track_number,
        title: raw.title.clone(),
        album,
        artist,
        duration_seconds: raw.duration,
        explicit: raw.parental_warning,
        hires_available: raw.hires_streamable,
        cover_art,
        cover_art_small,
        status: TrackStatus::Unplayed,
    }
}

impl From<RawArtist> for Artist {
    fn from(value: RawArtist) -> (artist: Artist) {
        artist_from(&value)
    }
}

impl FromSpecImpl<RawArtist> for Artist {
    open spec fn obeys_from_spec() -> bool {
        true
    }

    open spec fn from_spec(value: RawArtist) -> Artist {
        artist_of(value)
    }
}

impl From<RawReleaseTrack> for Track {
    fn from(value: RawReleaseTrack) -> (track: Track) {
        track_from_release(&value)
    }
}

impl FromSpecImpl<RawReleaseTrack> for Track {
    open spec fn obeys_from_spec() -> bool {
        true
    }

    open spec fn from_spec(value: RawReleaseTrack) -> Track {
        track_of_release(value)
    }
}

impl From<RawTrack> for Track {
    fn from(value: RawTrack) -> (track: Track) {
        track_from(&value)
    }
}

impl FromSpecImpl<RawTrack> for Track {
    open spec fn obeys_from_spec() -> bool {
        true
    }

    open spec fn from_spec(value: RawTrack) -> Track {
        track_of(value)
    }
}

impl From<&RawTrack> for Track {
    fn from(value: &RawTrack) -> (track: Track) {
        track_from(value)
    }
}

impl FromSpecImpl<&RawTrack> for Track {
    open spec fn obeys_from_spec() -> bool {
        true
    }

    open spec fn from_spec(value: &RawTrack) -> Track {
        track_of(*value)
    }
}

/// The album that an album page is the page of.
pub open spec fn album_of_page(page: AlbumPage) -> Album {
    Album {
        id: page.id,
        title: page.title,
        artist: page.artist,
        image: page.cover_art,
        total_tracks: page.total_tracks,
    }
}

impl From<AlbumPage> for Album {
    fn from(value: AlbumPage) -> (album: Album) {
        Album {
            id: value.id,
            title: value.title,
            artist: value.artist,
            image: value.cover_art,
            total_tracks: value.total_tracks,
        }
    }
}

impl FromSpecImpl<AlbumPage> for Album {
    open spec fn obeys_from_spec() -> bool {
        true
    }

    open spec fn from_spec(value: AlbumPage) -> Album {
        album_of_page(value)
    }
}

/// The player's track of one of an artist's most played tracks: the artist
/// is the one whose page it is, with the picture `image`; album and cover art
/// are those that the track names.
pub open spec fn top_track_of(page: RawArtistPage, image: Option<String>, t: RawTopTrack) -> Track {
    let artist = Artist { id: page.id, name: page.name, image };
    Track {
        id: t.id,
        number: t.track_number,
        title: t.title,
        album: Some(
            Album {
                id: t.album_id,
                title: t.album_title,
                artist,
                image: t.album_image_large,
                total_tracks: t.album_tracks_count,
            },
        ),
        artist: Some(artist),
        duration_seconds: t.duration,
        explicit: t.parental_warning,
        hires_available: t.hires_streamable,
        cover_art: Some(t.album_image_large),
        cover_art_small: Some(t.album_image_small),
        status: TrackStatus::Unplayed,
    }
}

/// What the page of an artist holds: the picture is the address of the
/// portrait, where there is one.
pub open spec fn artist_page_of(page: ArtistPage, raw: RawArtistPage) -> bool {
    &&& page.id == raw.id
    &&& page.name == raw.name
    &&& match raw.portrait {
        Some(portrait) => page.image matches Some(address) && address@ == image_address(portrait),
        None => page.image is None,
    }
    &&& page.top_tracks@ == raw.top_tracks@.map_values(
        |t: RawTopTrack| top_track_of(raw, page.image, t),
    )
}

impl ArtistPage {
    /// The page of an artist as the catalog delivers it.
    pub fn of_page(value: &RawArtistPage) -> (page: ArtistPage)
        ensures
            artist_page_of(page, *value),
    {
        let image = match &value.portrait {
            Some(portrait) => Some(image_to_string(portrait)),
            None => None,
        };
        let mut top_tracks: Vec<Track> = Vec::new();
        let mut i: usize = 0;
        while i < value.top_tracks.len()
            invariant
                0 <= i <= value.top_tracks.len(),
                top_tracks@.len() == i,
                forall|k: int|
                    0 <= k < i ==> top_tracks@[k] == top_track_of(
                        *value,
                        image,
                        value.top_tracks@[k],
                    ),
            decreases value.top_tracks.len() - i,
        {
            let t = &value.top_tracks[i];
            let artist = Artist {
                id: value.id,
                name: value.name.clone(),
                image: copy_text(&image),
            };
            top_tracks.push(
                Track {
                    id: t.id,
                    number: t.track_number,
                    title: t.title.clone(),
                    album: Some(
                        Album {
                            id: t.album_id.clone(),
                            title: t.album_title.clone(),
                            artist: artist.clone(),
                            image: t.album_image_large.clone(),
                            total_tracks: t.album_tracks_count,
                        },
                    ),
                    artist: Some(artist),
                    duration_seconds: t.duration,
                    explicit: t.parental_warning,
                    hires_available: t.hires_streamable,
                    cover_art: Some(t.album_image_large.clone()),
                    cover_art_small: Some(t.album_image_small.clone()),
                    status: TrackStatus::Unplayed,
                },
            );
            i += 1;
        }
        proof {
            assert(top_tracks@ =~= value.top_tracks@.map_values(
                |t: RawTopTrack| top_track_of(*value, image, t),
            ));
        }
        ArtistPage { id: value.id, name: value.name.clone(), image, top_tracks }
    }
}

/// The tracks numbered from 0 in their order.
fn number_tracks(tracks: &Vec<Track>) -> (queue: BTreeMap<u32, Track>)
    ensures
        queue@ == numbered(tracks@),
{
    let mut queue: BTreeMap<u32, Track> = BTreeMap::new();
    let mut i: usize = 0;
    proof {
        assert(tracks@.take(0) =~= Seq::<Track>::empty());
    }
    while i < tracks.len()
        invariant
            0 <= i <= tracks.len(),
            queue@ == numbered(tracks@.take(i as int)),
        decreases tracks.len() - i,
    {
        let key: u32 = ((i as u64) % 0x1_0000_0000u64) as u32;
        queue.insert(key, tracks[i].clone());
        proof {
            assert(tracks@.take(i + 1).drop_last() =~= tracks@.take(i as int));
            assert(tracks@.take(i + 1).last() == tracks@[i as int]);
        }
        i += 1;
    }
    proof {
        assert(tracks@.take(tracks@.len() as int) =~= tracks@);
    }
    queue
}

fn tracks_from(raws: &Option<Vec<RawTrack>>) -> (tracks: Vec<Track>)
    ensures
        tracks@ == tracks_of(*raws),
{
    let mut tracks: Vec<Track> = Vec::new();
    match raws {
        Some(items) => {
            let mut i: usize = 0;
            while i < items.len()
                invariant
                    0 <= i <= items.len(),
                    tracks@.len() == i,
                    forall|k: int| 0 <= k < i ==> tracks@[k] == track_of(items@[k]),
                decreases items.len() - i,
            {
                tracks.push(track_from(&items[i]));
                i += 1;
            }
            proof {
                assert(tracks@ =~= tracks_of(*raws));
            }
        },
        None => {},
    }
    tracks
}

fn tracks_from_release(raws: &Option<Vec<RawReleaseTrack>>) -> (tracks: Vec<Track>)
    ensures
        tracks@ == tracks_of_release(*raws),
{
    let mut tracks: Vec<Track> = Vec::new();
    match raws {
        Some(items) => {
            let mut i: usize = 0;
            while i < items.len()
                invariant
                    0 <= i <= items.len(),
                    tracks@.len() == i,
                    forall|k: int| 0 <= k < i ==> tracks@[k] == track_of_release(items@[k]),
                decreases items.len() - i,
            {
                tracks.push(track_from_release(&items[i]));
                i += 1;
            }
            proof {
                assert(tracks@ =~= tracks_of_release(*raws));
            }
        },
        None => {},
    }
    tracks
}

/// The artist of an album that names none.
fn unknown_artist() -> (artist: Artist)
    ensures
        artist.id == 0,
        artist.name@ == "Unknown"@,
        artist.image is None,
{
    Artist { id: 0, name: "Unknown".to_owned(), image: None }
}

/// The number of seconds, 0 where none is given.
fn seconds_or_zero(duration: &Option<u32>) -> (seconds: u32)
    ensures
        seconds == match *duration {
            Some(d) => d,
            None => 0,
        },
{
    match duration {
        Some(d) => *d,
        None => 0,
    }
}

/// What an album page of a release holds, its tracks as a sequence.
pub open spec fn page_of_release(page: AlbumPage, raw: RawRelease, year: u32) -> bool {
    &&& page.id == raw.id
    &&& page.title == raw.title
    &&& page.artist == named_artist(raw.artist_id, raw.artist_name)
    &&& page.release_year == year
    &&& page.hires_available == raw.hires_streamable
    &&& page.explicit == raw.parental_warning
    &&& page.total_tracks == raw.tracks_count
    &&& page.tracks@ == numbered(tracks_of_release(raw.tracks))
    &&& page.available == raw.streamable
    &&& page.cover_art == raw.image_large
    &&& page.cover_art_small == raw.image_small
    &&& page.duration_seconds == match raw.duration {
        Some(d) => d,
        None => 0,
    }
}

/// What an album page of a suggestion holds: no tracks, and for the artist
/// the first one named, or one called Unknown.
pub open spec fn page_of_suggestion(page: AlbumPage, raw: RawAlbumSuggestion, year: u32) -> bool {
    &&& page.id == raw.id
    &&& page.title == raw.title
    &&& page.artist.image is None
    &&& match raw.artists {
        Some(artists) if artists@.len() > 0 => page.artist.id == artists@[0].id
            && page.artist.name == artists@[0].name,
        _ => page.artist.id == 0 && page.artist.name@ == "Unknown"@,
    }
    &&& page.release_year == year
    &&& page.hires_available == raw.hires_streamable
    &&& page.explicit == raw.parental_warning
    &&& page.total_tracks == raw.track_count
    &&& page.tracks@ == Map::<u32, Track>::empty()
    &&& page.available == raw.streamable
    &&& page.cover_art == raw.image_large
    &&& page.cover_art_small == raw.image_small
    &&& page.duration_seconds == match raw.duration {
        Some(d) => d,
        None => 0,
    }
}

/// What an album page of a catalog album holds.
pub open spec fn page_of_album(page: AlbumPage, raw: RawAlbum, year: u32) -> bool {
    &&& page.id == raw.id
    &&& page.title == raw.title
    &&& page.artist == artist_of(raw.artist)
    &&& page.release_year == year
    &&& page.hires_available == raw.hires_streamable
    &&& page.explicit == raw.parental_warning
    &&& page.total_tracks == raw.tracks_count
    &&& page.tracks@ == numbered(tracks_of(raw.tracks))
    &&& page.available == raw.streamable
    &&& page.cover_art == raw.image_large
    &&& page.cover_art_small == raw.image_small
    &&& page.duration_seconds == match raw.duration {
        Some(d) => d,
        None => 0,
    }
}

impl AlbumPage {
    /// The page of a release whose year of release is `year`.
    pub fn of_release(s: &RawRelease, year: u32) -> (page: AlbumPage)
        ensures
            page_of_release(page, *s, year),
    {
        let tracks = number_tracks(&tracks_from_release(&s.tracks));
        AlbumPage {
            id: s.id.clone(),
            title: s.title.clone(),
            artist: Artist { id: s.artist_id, name: s.artist_name.clone(), image: None },
            release_year: year,
            hires_available: s.hires_streamable,
            explicit: s.parental_warning,
            total_tracks: s.tracks_count,
            tracks,
            available: s.streamable,
            cover_art: s.image_large.clone(),
            cover_art_small: s.image_small.clone(),
            duration_seconds: seconds_or_zero(&s.duration),
        }
    }

    /// The page of a suggested album whose year of release is `year`.
    pub fn of_suggestion(s: &RawAlbumSuggestion, year: u32) -> (page: AlbumPage)
        ensures
            page_of_suggestion(page, *s, year),
    {
        let artist = match &s.artists {
            Some(artists) => if artists.len() > 0 {
                Artist { id: artists[0].id, name: artists[0].name.clone(), image: None }
            } else {
                unknown_artist()
            },
            None => unknown_artist(),
        };
        AlbumPage {
            id: s.id.clone(),
            title: s.title.clone(),
            artist,
            release_year: year,
            hires_available: s.hires_streamable,
            explicit: s.parental_warning,
            total_tracks: s.track_count,
            tracks: BTreeMap::new(),
            available: s.streamable,
            cover_art: s.image_large.clone(),
            cover_art_small: s.image_small.clone(),
            duration_seconds: seconds_or_zero(&s.duration),
        }
    }

    /// The page of a catalog album whose year of release is `year`.
    pub fn of_album(value: &RawAlbum, year: u32) -> (page: AlbumPage)
        ensures
            page_of_album(page, *value, year),
    {
        let tracks = number_tracks(&tracks_from(&value.tracks));
        AlbumPage {
            id: value.id.clone(),
            title: value.title.clone(),
            artist: artist_from(&value.artist),
            release_year: year,
            hires_available: value.hires_streamable,
            explicit: value.parental_warning,
            total_tracks: value.tracks_count,
            tracks,
            available: value.streamable,
            cover_art: value.image_large.clone(),
            cover_art_small: value.image_small.clone(),
            duration_seconds: seconds_or_zero(&value.duration),
        }
    }

    /// The page of a release; none where its date gives no release year.
    pub fn from_release(s: &RawRelease) -> (page: Option<AlbumPage>)
        ensures
            match release_year_of(s.date@) {
                Some(year) => page matches Some(p) && page_of_release(p, *s, year),
                None => page is None,
            },
    {
        match release_year(s.date.as_str()) {
            Some(year) => Some(AlbumPage::of_release(s, year)),
            None => None,
        }
    }

    /// The page of a suggested album; none where its date gives no release
    /// year.
    pub fn from_suggestion(s: &RawAlbumSuggestion) -> (page: Option<AlbumPage>)
        ensures
            match release_year_of(s.date@) {
                Some(year) => page matches Some(p) && page_of_suggestion(p, *s, year),
                None => page is None,
            },
    {
        match release_year(s.date.as_str()) {
            Some(year) => Some(AlbumPage::of_suggestion(s, year)),
            None => None,
        }
    }

    /// The page of a catalog album; none where its date gives no release
    /// year.
    pub fn from_album(value: &RawAlbum) -> (page: Option<AlbumPage>)
        ensures
            match release_year_of(value.release_date@) {
                Some(year) => page matches Some(p) && page_of_album(p, *value, year),
                None => page is None,
            },
    {
        match release_year(value.release_date.as_str()) {
            Some(year) => Some(AlbumPage::of_album(value, year)),
            None => None,
        }
    }
}

/// What the playlist of a catalog playlist holds, as `user_id` sees it: the
/// playlist is owned where that user is its owner.
pub open spec fn playlist_of(playlist: Playlist, raw: RawPlaylist, user_id: i64) -> bool {
    &&& playlist.id == raw.id
    &&& playlist.is_owned == (user_id == raw.owner_id)
    &&& playlist.title == raw.name
    &&& playlist.duration_seconds == raw.duration
    &&& playlist.tracks_count == raw.tracks_count
    &&& playlist.cover_art == playlist_cover(raw)
    &&& playlist.tracks@ == numbered(tracks_of(raw.tracks))
}

fn playlist_from(playlist: &RawPlaylist, user_id: i64) -> (parsed: Playlist)
    ensures
        playlist_of(parsed, *playlist, user_id),
{
    let tracks = number_tracks(&tracks_from(&playlist.tracks));
    let cover_art = if playlist.image_rectangle.len() > 0 {
        Some(playlist.image_rectangle[0].clone())
    } else {
        match &playlist.images300 {
            Some(images) => if images.len() > 0 {
                Some(images[0].clone())
            } else {
                None
            },
            None => None,
        }
    };
    Playlist {
        id: playlist.id,
        is_owned: user_id == playlist.owner_id,
        title: playlist.name.clone(),
        duration_seconds: playlist.duration,
        tracks_count: playlist.tracks_count,
        cover_art,
        tracks,
    }
}

/// The playlist of a catalog playlist, as `user_id` sees it.
pub fn parse_playlist(playlist: RawPlaylist, user_id: i64) -> (parsed: Playlist)
    ensures
        playlist_of(parsed, playlist, user_id),
{
    playlist_from(&playlist, user_id)
}

/// Whether the date of every album of the sequence gives a release year.
pub open spec fn all_dated(albums: Seq<RawAlbum>) -> bool {
    forall|k: int|
        0 <= k < albums.len() ==> release_year_of((#[trigger] albums[k]).release_date@) is Some
}

/// The page is that of the album, whose date gives a release year.
pub open spec fn dated_page_of_album(page: AlbumPage, raw: RawAlbum) -> bool {
    match release_year_of(raw.release_date@) {
        Some(year) => page_of_album(page, raw, year),
        None => false,
    }
}

/// What the search results of catalog results hold, as `user_id` sees them.
pub open spec fn results_of(results: SearchResults, raw: RawSearchResults, user_id: i64) -> bool {
    &&& results.query == raw.query
    &&& results.albums@.len() == raw.albums@.len()
    &&& forall|k: int|
        0 <= k < raw.albums@.len() ==> dated_page_of_album(
            #[trigger] results.albums@[k],
            raw.albums@[k],
        )
    &&& results.artists@ == raw.artists@.map_values(|a: RawArtist| artist_of(a))
    &&& results.playlists@.len() == raw.playlists@.len()
    &&& forall|k: int|
        0 <= k < raw.playlists@.len() ==> playlist_of(
            #[trigger] results.playlists@[k],
            raw.playlists@[k],
            user_id,
        )
    &&& results.tracks@ == raw.tracks@.map_values(|t: RawTrack| track_of(t))
}

/// The search results of catalog results, as `user_id` sees them; none where
/// the date of one of the albums gives no release year.
pub fn parse_search_results(search_results: RawSearchResults, user_id: i64) -> (results: Option<
    SearchResults,
>)
    ensures
        all_dated(search_results.albums@) <==> results is Some,
        results matches Some(r) ==> results_of(r, search_results, user_id),
{
    let mut albums: Vec<AlbumPage> = Vec::new();
    let mut i: usize = 0;
    while i < search_results.albums.len()
        invariant
            0 <= i <= search_results.albums.len(),
            albums@.len() == i,
            forall|k: int|
                0 <= k < i ==> dated_page_of_album(
                    #[trigger] albums@[k],
                    search_results.albums@[k],
                ),
        decreases search_results.albums.len() - i,
    {
        let ghost before = albums@;
        match AlbumPage::from_album(&search_results.albums[i]) {
            Some(page) => {
                albums.push(page);
                proof {
                    assert forall|k: int| 0 <= k < i + 1 implies dated_page_of_album(
                        #[trigger] albums@[k],
                        search_results.albums@[k],
                    ) by {
                        if k < i {
                            assert(albums@[k] == before[k]);
                        }
                    }
                }
            },
            None => {
                proof {
                    assert(release_year_of(search_results.albums@[i as int].release_date@) is None);
                }
                return None;
            },
        }
        i += 1;
    }
    let mut artists: Vec<Artist> = Vec::new();
    let mut i: usize = 0;
    while i < search_results.artists.len()
        invariant
            0 <= i <= search_results.artists.len(),
            artists@.len() == i,
            forall|k: int| 0 <= k < i ==> artists@[k] == artist_of(search_results.artists@[k]),
        decreases search_results.artists.len() - i,
    {
        artists.push(artist_from(&search_results.artists[i]));
        i += 1;
    }
    let mut playlists: Vec<Playlist> = Vec::new();
    let mut i: usize = 0;
    while i < search_results.playlists.len()
        invariant
            0 <= i <= search_results.playlists.len(),
            playlists@.len() == i,
            forall|k: int|
                0 <= k < i ==> playlist_of(
                    #[trigger] playlists@[k],
                    search_results.playlists@[k],
                    user_id,
                ),
        decreases search_results.playlists.len() - i,
    {
        playlists.push(playlist_from(&search_results.playlists[i], user_id));
        i += 1;
    }
    let mut tracks: Vec<Track> = Vec::new();
    let mut i: usize = 0;
    while i < search_results.tracks.len()
        invariant
            0 <= i <= search_results.tracks.len(),
            tracks@.len() == i,
            forall|k: int| 0 <= k < i ==> tracks@[k] == track_of(search_results.tracks@[k]),
        decreases search_results.tracks.len() - i,
    {
        tracks.push(track_from(&search_results.tracks[i]));
        i += 1;
    }
    proof {
        assert forall|k: int| 0 <= k < search_results.albums@.len() implies release_year_of(
            (#[trigger] search_results.albums@[k]).release_date@,
        ) is Some by {
            assert(dated_page_of_album(albums@[k], search_results.albums@[k]));
        }
        assert(artists@ =~= search_results.artists@.map_values(|a: RawArtist| artist_of(a)));
        assert(tracks@ =~= search_results.tracks@.map_values(|t: RawTrack| track_of(t)));
    }
    Some(SearchResults { query: search_results.query.clone(), albums, artists, playlists, tracks })
}

} // verus!
