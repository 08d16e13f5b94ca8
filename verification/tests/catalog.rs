use doppler::dlib::doppler_info::{indices_from_playlist_list, DopplerInfo};
use doppler::dlib::playlist::PlaylistInfo;
use doppler::dlib::playlist_iter::ItemType;
use doppler::dlib::song::{indices_from_song_list, SongInfo};
use doppler::error::DopplerError;

fn song(id: Option<u32>, name: &str, duration: u32) -> SongInfo {
    SongInfo {
        name: name.to_string(),
        artist: "Artist".to_string(),
        album: "Album".to_string(),
        duration,
        filename: Some(format!("{name}.mp3")),
        id,
        file_entry_up_to_date: false,
    }
}

fn playlist(id: Option<u32>, name: &str, songs: &[u32]) -> PlaylistInfo {
    let mut p = PlaylistInfo::new();
    p.name = name.to_string();
    p.songs = songs.to_vec();
    p.id = id;
    p
}

fn library() -> DopplerInfo {
    DopplerInfo::new(
        vec![song(Some(3), "c", 30), song(Some(1), "a", 10), song(Some(2), "b", 20)],
        vec![playlist(Some(2), "two", &[1, 2]), playlist(Some(1), "one", &[3])],
    )
}

#[test]
fn song_new_is_blank() {
    let s = SongInfo::new();
    assert_eq!(s.name, "");
    assert_eq!(s.duration, 0);
    assert_eq!(s.filename, None);
    assert_eq!(s.id, None);
    assert!(!s.file_entry_up_to_date);
    let d = SongInfo::default();
    assert_eq!(d.name, "");
}

#[test]
fn song_display_text() {
    let s = song(Some(1), "Name", 1);
    assert_eq!(s.to_display_string(), "Name on Album by Artist");
}

#[test]
fn index_maps_ids_to_last_position() {
    let songs = vec![song(Some(4), "a", 1), song(None, "b", 1), song(Some(4), "c", 1), song(Some(9), "d", 1)];
    let m = indices_from_song_list(&songs);
    assert_eq!(m.len(), 2);
    assert_eq!(m.get(&4), Some(&2));
    assert_eq!(m.get(&9), Some(&3));
    let pm = indices_from_playlist_list(&[playlist(Some(5), "x", &[]), playlist(None, "y", &[])]);
    assert_eq!(pm.len(), 1);
    assert_eq!(pm.get(&5), Some(&0));
}

#[test]
fn new_library_marks_entries_up_to_date() {
    let d = library();
    assert!(d.songs.iter().all(|s| s.file_entry_up_to_date));
    assert!(d.playlists.iter().all(|p| p.file_entry_up_to_date));
    assert!(d.queue_dirty);
    assert!(d.currently_playing.is_none());
    assert!(d.enqueued_playlist.is_none());
    assert_eq!(d.get_song_by_id(2).map(|s| s.name), Some("b".to_string()));
    assert!(d.get_song_by_id(7).is_none());
    assert_eq!(d.get_playlist_by_id(1).map(|p| p.name.clone()), Some("one".to_string()));
    assert!(d.get_playlist_by_id(9).is_none());
}

#[test]
fn add_song_without_id_takes_next_id() {
    let mut d = library();
    assert_eq!(d.add_song(song(None, "new", 5)), Ok(()));
    let s = d.get_song_by_id(4).expect("found under the next id");
    assert_eq!(s.name, "new");
    assert!(!s.file_entry_up_to_date);
    assert_eq!(d.add_song(song(None, "newer", 5)), Ok(()));
    assert_eq!(d.get_song_by_id(5).map(|s| s.name), Some("newer".to_string()));
}

#[test]
fn add_song_with_taken_or_low_id_is_refused() {
    let mut d = library();
    assert_eq!(d.add_song(song(Some(2), "dup", 5)), Err(DopplerError::SongIdTaken));
    assert_eq!(d.add_song(song(Some(3), "dup", 5)), Err(DopplerError::SongIdTaken));
    assert_eq!(d.songs.len(), 3);
}

#[test]
fn add_song_with_new_id_is_found_only_after_sort() {
    let mut d = library();
    assert_eq!(d.add_song(song(Some(10), "ten", 5)), Ok(()));
    assert_eq!(d.songs.len(), 4);
    assert!(d.get_song_by_id(10).is_none());
    d.sort();
    assert_eq!(d.get_song_by_id(10).map(|s| s.name), Some("ten".to_string()));
    assert_eq!(d.add_song(song(Some(5), "five", 5)), Err(DopplerError::SongIdTaken));
    assert_eq!(d.add_song(song(None, "eleven", 5)), Ok(()));
    assert_eq!(d.get_song_by_id(11).map(|s| s.name), Some("eleven".to_string()));
}

#[test]
fn add_playlist_rules() {
    let mut d = library();
    assert_eq!(d.add_playlist(playlist(None, "three", &[])), Ok(()));
    assert_eq!(d.get_playlist_by_id(3).map(|p| p.name.clone()), Some("three".to_string()));
    assert_eq!(d.add_playlist(playlist(Some(1), "again", &[])), Err(DopplerError::PlaylistIdTaken));
    assert!(d.can_add_playlist_without_id());
    assert!(d.can_add_song_without_id());
}

#[test]
fn remove_song_marks_once() {
    let mut d = library();
    assert_eq!(d.remove_song(9), Err(DopplerError::SongNotFound));
    assert_eq!(d.remove_song(2), Ok(()));
    assert_eq!(d.remove_song(2), Err(DopplerError::SongAlreadyRemoved));
    assert_eq!(d.remove_playlist(9), Err(DopplerError::PlaylistNotFound));
    assert_eq!(d.remove_playlist(1), Ok(()));
    assert_eq!(d.remove_playlist(1), Err(DopplerError::PlaylistAlreadyRemoved));
}

#[test]
fn removed_song_is_not_written_and_goes_after_write() {
    let mut d = library();
    d.remove_song(2).unwrap();
    let to_write: Vec<Option<u32>> = d.songs_to_write().iter().map(|s| s.id).collect();
    assert_eq!(to_write, vec![Some(3), Some(1)]);
    d.finish_songs_write();
    let ids: Vec<Option<u32>> = d.songs.iter().map(|s| s.id).collect();
    assert_eq!(ids, vec![Some(3), Some(1)]);
    assert!(d.get_song_by_id(2).is_none());
    assert_eq!(d.remove_song(2), Err(DopplerError::SongNotFound));
    assert_eq!(d.get_song_by_id(1).map(|s| s.name), Some("a".to_string()));
}

#[test]
fn songs_without_id_are_kept_but_not_written() {
    let mut d = DopplerInfo::new(vec![song(None, "x", 1), song(Some(1), "y", 1)], vec![]);
    assert_eq!(d.songs_to_write().len(), 1);
    d.finish_songs_write();
    assert_eq!(d.songs.len(), 2);
}

#[test]
fn removed_playlist_goes_after_write() {
    let mut d = library();
    d.remove_playlist(2).unwrap();
    let names: Vec<String> = d.playlists_to_write().iter().map(|p| p.name.clone()).collect();
    assert_eq!(names, vec!["one".to_string()]);
    d.finish_playlists_write();
    assert_eq!(d.playlists.len(), 1);
    assert!(d.playlists[0].file_entry_up_to_date);
}

#[test]
fn update_song_replaces_by_id() {
    let mut d = library();
    assert_eq!(d.update_song(song(None, "x", 1)), Err(DopplerError::SongWithoutId));
    assert_eq!(d.update_song(song(Some(8), "x", 1)), Err(DopplerError::SongNotFound));
    assert_eq!(d.update_song(song(Some(1), "renamed", 99)), Ok(()));
    let s = d.get_song_by_id(1).unwrap();
    assert_eq!(s.name, "renamed");
    assert_eq!(s.duration, 99);
    assert!(!s.file_entry_up_to_date);
}

#[test]
fn update_playlist_replaces_by_id() {
    let mut d = library();
    assert_eq!(d.update_playlist(playlist(None, "x", &[])), Err(DopplerError::PlaylistWithoutId));
    assert_eq!(d.update_playlist(playlist(Some(7), "x", &[])), Err(DopplerError::PlaylistNotFound));
    assert_eq!(d.update_playlist(playlist(Some(2), "renamed", &[3])), Ok(()));
    let p = d.get_playlist_by_id(2).unwrap();
    assert_eq!(p.name, "renamed");
    assert_eq!(p.songs, vec![3]);
}

#[test]
fn sort_orders_by_id_and_rebuilds_indexes() {
    let mut d = DopplerInfo::new(
        vec![song(Some(3), "c", 1), song(None, "z", 1), song(Some(1), "a", 1), song(Some(2), "b", 1)],
        vec![playlist(Some(2), "two", &[]), playlist(Some(1), "one", &[])],
    );
    d.sort();
    let ids: Vec<Option<u32>> = d.songs.iter().map(|s| s.id).collect();
    assert_eq!(ids, vec![None, Some(1), Some(2), Some(3)]);
    assert_eq!(d.get_song_by_id(3).map(|s| s.name), Some("c".to_string()));
    let pids: Vec<Option<u32>> = d.playlists.iter().map(|p| p.id).collect();
    assert_eq!(pids, vec![Some(1), Some(2)]);
    assert_eq!(d.get_playlist_by_id(2).map(|p| p.name.clone()), Some("two".to_string()));
}

#[test]
fn enqueue_then_advance_plays_song() {
    let mut d = library();
    assert_eq!(d.enqueue_song(9), Err(DopplerError::NoSuchSong));
    assert!(d.enqueued_playlist.is_none());
    d.queue_dirty = false;
    assert_eq!(d.enqueue_song(2), Ok(()));
    assert!(d.queue_dirty);
    assert_eq!(d.enqueue_song(1), Ok(()));
    let entries = d.queue_entries();
    assert_eq!(entries.len(), 2);
    assert_eq!(entries[0].position, 1);
    assert_eq!(entries[0].song_id, 2);
    assert_eq!(entries[0].song_name, "b");
    assert_eq!(entries[1].position, 2);
    assert_eq!(entries[1].duration, 10);
    assert_eq!(d.advance_queue(), Some(2));
    assert_eq!(d.currently_playing, Some(2));
    assert_eq!(d.advance_queue(), Some(1));
    assert_eq!(d.advance_queue(), None);
    assert_eq!(d.currently_playing, None);
}

#[test]
fn queue_entries_skip_unknown_songs() {
    let mut d = library();
    d.enqueue_song(3).unwrap();
    d.enqueued_playlist.as_mut().unwrap().insert_back(42);
    d.enqueue_song(1).unwrap();
    let entries = d.queue_entries();
    let positions: Vec<usize> = entries.iter().map(|e| e.position).collect();
    assert_eq!(positions, vec![1, 3]);
}

#[test]
fn file_to_play_and_song_started() {
    let mut d = library();
    assert_eq!(d.file_to_play(1), Ok("a.mp3".to_string()));
    assert_eq!(d.file_to_play(9), Err(DopplerError::NoSuchSong));
    let mut s = song(None, "nofile", 1);
    s.filename = None;
    d.add_song(s).unwrap();
    assert_eq!(d.file_to_play(4), Err(DopplerError::SongHasNoFile));
    d.queue_dirty = false;
    d.song_started(1);
    assert_eq!(d.currently_playing, Some(1));
    assert!(d.queue_dirty);
}

#[test]
fn start_playlist_takes_first_song() {
    let d = library();
    let (first, rest) = d.start_playlist(2, false).unwrap();
    assert_eq!(first, 1);
    assert_eq!(rest.get_previous(), Some(1));
    let ids: Vec<(u32, ItemType)> = rest.queue.iter().copied().collect();
    assert_eq!(ids, vec![(2, ItemType::OriginalItem)]);
    assert!(matches!(d.start_playlist(9, false), Err(DopplerError::NoSuchPlaylist)));
    let (first, rest) = d.start_playlist(2, true).unwrap();
    let mut all: Vec<u32> = rest.queue.iter().map(|&(id, _)| id).collect();
    all.push(first);
    all.sort();
    assert_eq!(all, vec![1, 2]);
    let mut e = library();
    e.add_playlist(playlist(None, "empty", &[])).unwrap();
    assert!(matches!(e.start_playlist(3, false), Err(DopplerError::EmptyPlaylist)));
}

#[test]
fn merge_adds_only_new_ids() {
    let mut d = library();
    d.merge_file_songs(vec![song(Some(2), "b-again", 1), song(Some(7), "g", 1), song(None, "h", 1)]);
    assert_eq!(d.songs.len(), 5);
    assert_eq!(d.get_song_by_id(2).map(|s| s.name), Some("b".to_string()));
    assert_eq!(d.get_song_by_id(8).map(|s| s.name), Some("h".to_string()));
    d.sort();
    assert_eq!(d.get_song_by_id(7).map(|s| s.name), Some("g".to_string()));
}

#[test]
fn search_candidates_list_named_songs() {
    let d = DopplerInfo::new(vec![song(Some(1), "a", 1), song(None, "x", 1), song(Some(4), "d", 1)], vec![]);
    assert_eq!(d.search_candidates(), vec![("a".to_string(), 1), ("d".to_string(), 4)]);
}

#[test]
fn playlist_edits_through_library() {
    let mut d = library();
    d.playlist_force_add_song(1, 2);
    assert_eq!(d.get_playlist_by_id(1).unwrap().songs, vec![3, 2]);
    assert_eq!(d.playlist_insert_song(1, 0, 1), Ok(()));
    assert_eq!(d.get_playlist_by_id(1).unwrap().songs, vec![1, 3, 2]);
    assert_eq!(d.playlist_insert_song(1, 9, 1), Err(DopplerError::IndexOutOfBounds));
    assert_eq!(d.playlist_remove_song(1, 1), Ok(()));
    assert_eq!(d.get_playlist_by_id(1).unwrap().songs, vec![1, 2]);
    assert_eq!(d.playlist_remove_song(7, 0), Err(DopplerError::NoSuchPlaylist));
    assert_eq!(d.get_playlist_by_id(2).unwrap().songs, vec![1, 2]);
}

#[test]
fn file_songs_fit_checks_new_ids() {
    let d = library();
    assert!(d.file_songs_fit(&vec![song(None, "n", 1), song(Some(9), "x", 1)]));
    let mut full = DopplerInfo::new(vec![song(Some(u32::MAX - 1), "a", 1)], vec![]);
    assert!(full.file_songs_fit(&vec![song(None, "n", 1)]));
    assert!(!full.file_songs_fit(&vec![song(None, "n", 1), song(None, "m", 1)]));
    assert!(!full.file_songs_fit(&vec![song(Some(u32::MAX), "top", 1), song(None, "m", 1)]));
    // A song the library already has is not added, so it uses up no id.
    assert!(full.file_songs_fit(&vec![song(Some(u32::MAX - 1), "a", 1), song(None, "m", 1)]));
    full.merge_file_songs(vec![song(None, "n", 1)]);
    assert_eq!(full.songs.last().unwrap().id, Some(u32::MAX));
    assert!(!full.can_add_song_without_id());
}

#[test]
fn songs_of_playlist_follow_the_index() {
    let d = library();
    let two: Vec<Option<u32>> = d.songs_of_playlist(2).unwrap().iter().map(|s| s.id).collect();
    assert_eq!(two, vec![Some(1), Some(2)]);
    assert!(d.songs_of_playlist(7).is_none());
    let mut gaps = library();
    gaps.playlists[0].songs = vec![5, 3];
    let names: Vec<String> = gaps.songs_of_playlist(2).unwrap().iter().map(|s| s.name.clone()).collect();
    assert_eq!(names, vec!["c".to_string()]);
}

#[test]
fn current_song_and_queue_length() {
    let mut d = library();
    assert!(d.current_song().is_none());
    assert_eq!(d.queue_len(), 0);
    d.enqueue_song(1).unwrap();
    d.enqueue_song(3).unwrap();
    assert_eq!(d.queue_len(), 2);
    assert_eq!(d.advance_queue(), Some(1));
    assert_eq!(d.current_song().unwrap().name, "a");
    assert_eq!(d.queue_len(), 1);
}

#[test]
fn playlist_add_song_through_library() {
    let mut d = library();
    assert_eq!(d.playlist_song_count(2), Some(2));
    assert_eq!(d.playlist_song_count(5), None);
    assert_eq!(d.playlist_add_song(2, 1), Err(DopplerError::SongAlreadyInPlaylist));
    assert_eq!(d.playlist_add_song(2, 3), Ok(()));
    assert_eq!(d.playlist_song_count(2), Some(3));
    assert_eq!(d.playlist_add_song(5, 3), Err(DopplerError::NoSuchPlaylist));
    assert!(d.has_song_with_id(3));
    assert!(!d.has_song_with_id(4));
}
