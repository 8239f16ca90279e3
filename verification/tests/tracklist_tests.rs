use qobuz_player_controls::models::{
    Album, Artist, ArtistPage, Favorites, Playlist, SearchResults, Track, TrackStatus,
};
use qobuz_player_controls::tracklist::{TrackListType, Tracklist};
use std::collections::BTreeMap;

fn artist(id: u32, name: &str) -> Artist {
    Artist { id, name: name.to_string(), image: None }
}

fn album(id: &str, total_tracks: u32) -> Album {
    Album {
        id: id.to_string(),
        title: format!("album {id}"),
        artist: artist(1, "someone"),
        image: format!("https://img/{id}.jpg"),
        total_tracks,
    }
}

fn track(id: u32) -> Track {
    Track {
        id,
        number: id,
        title: format!("track {id}"),
        album: None,
        artist: None,
        duration_seconds: 200,
        explicit: false,
        hires_available: true,
        cover_art: None,
        cover_art_small: None,
        status: TrackStatus::default(),
    }
}

fn queue(n: u32) -> BTreeMap<u32, Track> {
    let mut q = BTreeMap::new();
    for i in 1..=n {
        q.insert(i, track(100 + i));
    }
    q
}

fn playing_count(list: &Tracklist) -> usize {
    list.all_tracks().iter().filter(|t| t.status == TrackStatus::Playing).count()
}

#[test]
fn default_status_is_unplayed() {
    assert_eq!(TrackStatus::default(), TrackStatus::Unplayed);
    assert_eq!(TrackListType::default(), TrackListType::Unknown);
}

#[test]
fn new_without_queue_is_empty() {
    let list = Tracklist::new(None);
    assert!(list.queue.is_empty());
    assert!(list.album.is_none());
    assert!(list.playlist.is_none());
    assert_eq!(*list.list_type(), TrackListType::Unknown);
    assert_eq!(list.total(), 0);
    assert!(list.current_track().is_none());
    assert!(list.get_album().is_none());
    assert!(list.get_playlist().is_none());
    assert!(list.all_tracks().is_empty());
}

#[test]
fn new_copies_the_queue() {
    let q = queue(3);
    let list = Tracklist::new(Some(&q));
    assert_eq!(list.queue, q);
    assert!(list.album.is_none());
    assert!(list.playlist.is_none());
    assert_eq!(*list.list_type(), TrackListType::Unknown);
}

#[test]
fn total_prefers_album_count() {
    let mut list = Tracklist::new(Some(&queue(5)));
    assert_eq!(list.total(), 5);
    list.album = Some(album("y", 12));
    assert_eq!(list.total(), 12);
}

#[test]
fn total_uses_playlist_count_without_album() {
    let mut list = Tracklist::new(Some(&queue(5)));
    let mut playlist = Playlist::default();
    playlist.tracks_count = 40;
    list.playlist = Some(playlist);
    assert_eq!(list.total(), 40);
    list.album = Some(album("y", 12));
    assert_eq!(list.total(), 12);
}

#[test]
fn get_album_prefers_playing_tracks_album() {
    let mut q = queue(3);
    q.get_mut(&2).unwrap().album = Some(album("x", 9));
    let mut list = Tracklist::new(Some(&q));
    list.album = Some(album("y", 12));
    assert_eq!(list.get_album(), Some(&album("y", 12)));
    list.set_track_status(2, TrackStatus::Playing);
    assert_eq!(list.get_album(), Some(&album("x", 9)));
    list.set_track_status(2, TrackStatus::Played);
    assert_eq!(list.get_album(), Some(&album("y", 12)));
}

#[test]
fn get_album_falls_back_when_playing_track_has_none() {
    let mut list = Tracklist::new(Some(&queue(3)));
    list.album = Some(album("y", 12));
    list.set_track_status(1, TrackStatus::Playing);
    assert_eq!(list.get_album(), Some(&album("y", 12)));
    list.album = None;
    assert_eq!(list.get_album(), None);
}

#[test]
fn get_playlist_ignores_tracks() {
    let mut list = Tracklist::new(Some(&queue(2)));
    assert!(list.get_playlist().is_none());
    let mut playlist = Playlist::default();
    playlist.id = 77;
    playlist.title = "mix".to_string();
    list.playlist = Some(playlist.clone());
    list.set_track_status(1, TrackStatus::Playing);
    assert_eq!(list.get_playlist(), Some(&playlist));
}

#[test]
fn list_type_round_trip() {
    let mut list = Tracklist::new(Some(&queue(2)));
    let before = list.queue.clone();
    list.set_list_type(TrackListType::Playlist);
    assert_eq!(*list.list_type(), TrackListType::Playlist);
    list.set_list_type(TrackListType::Album);
    assert_eq!(*list.list_type(), TrackListType::Album);
    assert_eq!(list.queue, before);
}

#[test]
fn queue_filtering() {
    let mut list = Tracklist::new(Some(&queue(10)));
    assert_eq!(list.unplayed_tracks().len(), 10);
    list.set_track_status(1, TrackStatus::Played);
    list.set_track_status(2, TrackStatus::Played);
    list.set_track_status(3, TrackStatus::Playing);
    assert_eq!(list.unplayed_tracks().len(), 7);
    assert_eq!(list.played_tracks().len(), 2);
    assert_eq!(list.current_track().unwrap().id, 103);
    let unplayed: Vec<u32> = list.unplayed_tracks().iter().map(|t| t.id).collect();
    assert_eq!(unplayed, vec![104, 105, 106, 107, 108, 109, 110]);
    let played: Vec<u32> = list.played_tracks().iter().map(|t| t.id).collect();
    assert_eq!(played, vec![101, 102]);
    assert_eq!(list.all_tracks().len(), 10);
}

#[test]
fn unplayable_is_neither_played_nor_unplayed() {
    let mut list = Tracklist::new(Some(&queue(3)));
    list.set_track_status(2, TrackStatus::Unplayable);
    assert_eq!(list.unplayed_tracks().len(), 2);
    assert_eq!(list.played_tracks().len(), 0);
    assert!(list.current_track().is_none());
}

#[test]
fn set_track_status_changes_only_the_status() {
    let mut list = Tracklist::new(Some(&queue(3)));
    list.set_track_status(2, TrackStatus::Played);
    let mut expected = queue(3);
    expected.get_mut(&2).unwrap().status = TrackStatus::Played;
    assert_eq!(list.queue, expected);
}

#[test]
fn set_track_status_twice_is_once() {
    let mut once = Tracklist::new(Some(&queue(4)));
    once.album = Some(album("y", 12));
    let mut twice = once.clone();
    once.set_track_status(3, TrackStatus::Playing);
    twice.set_track_status(3, TrackStatus::Playing);
    twice.set_track_status(3, TrackStatus::Playing);
    assert_eq!(once, twice);
}

#[test]
fn set_track_status_on_vacant_position_changes_nothing() {
    let mut list = Tracklist::new(Some(&queue(4)));
    list.album = Some(album("y", 12));
    list.set_list_type(TrackListType::Album);
    let before = list.clone();
    list.set_track_status(0, TrackStatus::Playing);
    list.set_track_status(5, TrackStatus::Played);
    list.set_track_status(u32::MAX, TrackStatus::Unplayable);
    assert_eq!(list, before);
}

#[test]
fn tracks_come_in_position_order() {
    let mut q = BTreeMap::new();
    q.insert(30, track(3));
    q.insert(10, track(1));
    q.insert(u32::MAX, track(9));
    q.insert(0, track(0));
    let mut list = Tracklist::new(Some(&q));
    let ids: Vec<u32> = list.all_tracks().iter().map(|t| t.id).collect();
    assert_eq!(ids, vec![0, 1, 3, 9]);
    list.set_track_status(u32::MAX, TrackStatus::Playing);
    list.set_track_status(10, TrackStatus::Playing);
    assert_eq!(list.current_track().unwrap().id, 1);
    assert_eq!(playing_count(&list), 2);
}

#[test]
fn cursive_list_gives_titles_and_signed_ids() {
    let mut q = BTreeMap::new();
    q.insert(1, track(7));
    q.insert(2, track(0x7fff_ffff));
    q.insert(3, track(0x8000_0000));
    q.insert(4, track(u32::MAX));
    let list = Tracklist::new(Some(&q));
    assert_eq!(
        list.cursive_list(),
        vec![
            ("track 7", 7),
            ("track 2147483647", i32::MAX),
            ("track 2147483648", i32::MIN),
            ("track 4294967295", -1),
        ]
    );
}

#[test]
fn clone_is_equal() {
    let mut list = Tracklist::new(Some(&queue(4)));
    list.album = Some(album("y", 12));
    let mut playlist = Playlist::default();
    playlist.tracks = queue(2);
    list.playlist = Some(playlist);
    list.set_track_status(1, TrackStatus::Playing);
    assert_eq!(list.clone(), list);
    assert_eq!(track(5).clone(), track(5));
    assert_eq!(album("a", 3).clone(), album("a", 3));
    assert_eq!(Artist::default(), Artist { id: 0, name: String::new(), image: None });
}

#[test]
fn defaults_are_empty() {
    assert_eq!(Tracklist::default(), Tracklist::new(None));
    let playlist = Playlist::default();
    assert!(!playlist.is_owned);
    assert_eq!(playlist.title, "");
    assert_eq!(playlist.tracks_count, 0);
    assert!(playlist.tracks.is_empty());
    let page = ArtistPage::default();
    assert_eq!((page.id, page.name.as_str(), page.image, page.top_tracks.len()), (0, "", None, 0));
    let results = SearchResults::default();
    assert_eq!(results.query, "");
    assert!(results.albums.is_empty() && results.artists.is_empty());
    assert!(results.playlists.is_empty() && results.tracks.is_empty());
    let favorites = Favorites::default();
    assert!(favorites.albums.is_empty());
    assert!(favorites.artists.is_empty());
    assert!(favorites.playlists.is_empty());
}
