//! The catalog records that the player works with.
use std::collections::BTreeMap;
use vstd::prelude::*;

verus! {

/// Where a track stands in the playback of its queue.
#[derive(Debug, Clone, Copy, PartialEq, Eq, Structural)]
pub enum TrackStatus {
    Played,
    Playing,
    Unplayed,
    Unplayable,
}

impl Default for TrackStatus {
    fn default() -> (status: TrackStatus)
        ensures
            status == TrackStatus::Unplayed,
    {
        TrackStatus::Unplayed
    }
}

#[derive(Debug, PartialEq)]
pub struct Artist {
    pub id: u32,
    pub name: String,
    pub image: Option<String>,
}

#[derive(Debug, PartialEq)]
pub struct Album {
    pub id: String,
    pub title: String,
    pub artist: Artist,
    pub image: String,
    /// How many tracks the album has, however many of them are queued.
    pub total_tracks: u32,
}

#[derive(Debug, PartialEq)]
pub struct Track {
    pub id: u32,
    pub number: u32,
    pub title: String,
    pub album: Option<Album>,
    pub artist: Option<Artist>,
    pub duration_seconds: u32,
    pub explicit: bool,
    pub hires_available: bool,
    pub cover_art: Option<String>,
    pub cover_art_small: Option<String>,
    pub status: TrackStatus,
}

#[derive(Debug, Clone, PartialEq)]
pub struct AlbumPage {
    pub id: String,
    pub title: String,
    pub artist: Artist,
    pub release_year: u32,
    pub hires_available: bool,
    pub explicit: bool,
    pub total_tracks: u32,
    pub tracks: BTreeMap<u32, Track>,
    pub available: bool,
    pub cover_art: String,
    pub cover_art_small: String,
    pub duration_seconds: u32,
}

#[derive(Debug, PartialEq)]
pub struct Playlist {
    pub is_owned: bool,
    pub title: String,
    pub duration_seconds: u32,
    pub tracks_count: u32,
    pub id: u32,
    pub cover_art: Option<String>,
    pub tracks: BTreeMap<u32, Track>,
}

#[derive(Debug, Clone)]
pub struct ArtistPage {
    pub id: u32,
    pub name: String,
    pub image: Option<String>,
    pub top_tracks: Vec<Track>,
}

#[derive(Debug, Clone)]
pub struct SearchResults {
    pub query: String,
    pub albums: Vec<AlbumPage>,
    pub artists: Vec<Artist>,
    pub playlists: Vec<Playlist>,
    pub tracks: Vec<Track>,
}

#[derive(Debug, Clone)]
pub struct Favorites {
    pub albums: Vec<AlbumPage>,
    pub artists: Vec<Artist>,
    pub playlists: Vec<Playlist>,
}

/// What a playlist is, with its tracks as a mathematical map.
pub struct PlaylistView {
    pub is_owned: bool,
    pub title: String,
    pub duration_seconds: u32,
    pub tracks_count: u32,
    pub id: u32,
    pub cover_art: Option<String>,
    pub tracks: Map<u32, Track>,
}

impl View for Playlist {
    type V = PlaylistView;

    open spec fn view(&self) -> PlaylistView {
        PlaylistView {
            is_owned: self.is_owned,
            title: self.title,
            duration_seconds: self.duration_seconds,
            tracks_count: self.tracks_count,
            id: self.id,
            cover_art: self.cover_art,
            tracks: self.tracks@,
        }
    }
}

/// A copy of an optional text.
pub fn copy_text(text: &Option<String>) -> (copy: Option<String>)
    ensures
        copy == *text,
{
    match text {
        Some(s) => Some(s.clone()),
        None => None,
    }
}

impl Clone for Artist {
    fn clone(&self) -> (copy: Artist)
        ensures
            copy == *self,
    {
        Artist { id: self.id, name: self.name.clone(), image: copy_text(&self.image) }
    }
}

impl Clone for Album {
    fn clone(&self) -> (copy: Album)
        ensures
            copy == *self,
    {
        Album {
            id: self.id.clone(),
            title: self.title.clone(),
            artist: self.artist.clone(),
            image: self.image.clone(),
            total_tracks: self.total_tracks,
        }
    }
}

impl Clone for Track {
    fn clone(&self) -> (copy: Track)
        ensures
            copy == *self,
    {
        let album = match &self.album {
            Some(a) => Some(a.clone()),
            None => None,
        };
        let artist = match &self.artist {
            Some(a) => Some(a.clone()),
            None => None,
        };
        Track {
            id: self.id,
            number: self.number,
            title: self.title.clone(),
            album,
            artist,
            duration_seconds: self.duration_seconds,
            explicit: self.explicit,
            hires_available: self.hires_available,
            cover_art: copy_text(&self.cover_art),
            cover_art_small: copy_text(&self.cover_art_small),
            status: self.status,
        }
    }
}

impl Clone for Playlist {
    fn clone(&self) -> (copy: Playlist)
        ensures
            copy@ == self@,
    {
        Playlist {
            is_owned: self.is_owned,
            title: self.title.clone(),
            duration_seconds: self.duration_seconds,
            tracks_count: self.tracks_count,
            id: self.id,
            cover_art: copy_text(&self.cover_art),
            tracks: self.tracks.clone(),
        }
    }
}

impl Default for Artist {
    fn default() -> (artist: Artist)
        ensures
            artist.id == 0,
            artist.name@ == Seq::<char>::empty(),
            artist.image is None,
    {
        Artist { id: 0, name: String::new(), image: None }
    }
}

impl Default for Playlist {
    fn default() -> (playlist: Playlist)
        ensures
            !playlist.is_owned,
            playlist.title@ == Seq::<char>::empty(),
            playlist.duration_seconds == 0,
            playlist.tracks_count == 0,
            playlist.id == 0,
            playlist.cover_art is None,
            playlist.tracks@ == Map::<u32, Track>::empty(),
    {
        Playlist {
            is_owned: false,
            title: String::new(),
            duration_seconds: 0,
            tracks_count: 0,
            id: 0,
            cover_art: None,
            tracks: BTreeMap::new(),
        }
    }
}

impl Default for ArtistPage {
    fn default() -> (page: ArtistPage)
        ensures
            page.id == 0,
            page.name@ == Seq::<char>::empty(),
            page.image is None,
            page.top_tracks@ == Seq::<Track>::empty(),
    {
        ArtistPage { id: 0, name: String::new(), image: None, top_tracks: Vec::new() }
    }
}

impl Default for SearchResults {
    fn default() -> (results: SearchResults)
        ensures
            results.query@ == Seq::<char>::empty(),
            results.albums@ == Seq::<AlbumPage>::empty(),
            results.artists@ == Seq::<Artist>::empty(),
            results.playlists@ == Seq::<Playlist>::empty(),
            results.tracks@ == Seq::<Track>::empty(),
    {
        SearchResults {
            query: String::new(),
            albums: Vec::new(),
            artists: Vec::new(),
            playlists: Vec::new(),
            tracks: Vec::new(),
        }
    }
}

impl Default for Favorites {
    fn default() -> (favorites: Favorites)
        ensures
            favorites.albums@ == Seq::<AlbumPage>::empty(),
            favorites.artists@ == Seq::<Artist>::empty(),
            favorites.playlists@ == Seq::<Playlist>::empty(),
    {
        Favorites { albums: Vec::new(), artists: Vec::new(), playlists: Vec::new() }
    }
}

} // verus!
