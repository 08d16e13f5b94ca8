use doppler::dlib::playlist::PlaylistInfo;
use doppler::dlib::playlist_iter::{ItemType, PlaylistIter};
use doppler::error::DopplerError;

fn playlist(songs: &[u32]) -> PlaylistInfo {
    let mut p = PlaylistInfo::new();
    p.name = "Mix".to_string();
    p.songs = songs.to_vec();
    p.id = Some(1);
    p.file_entry_up_to_date = true;
    p
}

#[test]
fn playlist_new_is_empty() {
    let p = PlaylistInfo::new();
    assert_eq!(p.name, "");
    assert!(p.songs.is_empty());
    assert_eq!(p.id, None);
    assert!(!p.file_entry_up_to_date);
}

#[test]
fn playlist_add_song_refuses_repeats() {
    let mut p = playlist(&[1, 2]);
    assert_eq!(p.add_song(3), Ok(()));
    assert_eq!(p.songs, vec![1, 2, 3]);
    assert!(!p.file_entry_up_to_date);
    p.file_entry_up_to_date = true;
    assert_eq!(p.add_song(2), Err(DopplerError::SongAlreadyInPlaylist));
    assert_eq!(p.songs, vec![1, 2, 3]);
    assert!(p.file_entry_up_to_date);
}

#[test]
fn playlist_force_add_allows_repeats() {
    let mut p = playlist(&[1, 2]);
    p.force_add_song(2);
    assert_eq!(p.songs, vec![1, 2, 2]);
    assert!(!p.file_entry_up_to_date);
}

#[test]
fn playlist_remove_song_by_position() {
    let mut p = playlist(&[5, 6, 7]);
    assert_eq!(p.remove_song(3), Err(DopplerError::IndexOutOfBounds));
    assert_eq!(p.songs, vec![5, 6, 7]);
    assert!(p.file_entry_up_to_date);
    assert_eq!(p.remove_song(1), Ok(()));
    assert_eq!(p.songs, vec![5, 7]);
    assert!(!p.file_entry_up_to_date);
}

#[test]
fn playlist_remove_undoes_add() {
    let mut p = playlist(&[5, 6]);
    p.add_song(9).unwrap();
    p.remove_song(2).unwrap();
    assert_eq!(p.songs, vec![5, 6]);
}

#[test]
fn playlist_insert_song_at_position() {
    let mut p = playlist(&[5, 6]);
    assert_eq!(p.insert_song(1, 9), Ok(()));
    assert_eq!(p.songs, vec![5, 9, 6]);
    assert_eq!(p.insert_song(3, 4), Ok(()));
    assert_eq!(p.songs, vec![5, 9, 6, 4]);
    assert_eq!(p.insert_song(5, 4), Err(DopplerError::IndexOutOfBounds));
}

#[test]
fn playlist_clone_keeps_contents() {
    let p = playlist(&[5, 6]);
    let q = p.clone();
    assert_eq!(q.name, p.name);
    assert_eq!(q.songs, p.songs);
    assert_eq!(q.id, p.id);
}

fn ids(it: &PlaylistIter) -> Vec<(u32, ItemType)> {
    it.queue.iter().copied().collect()
}

#[test]
fn queue_from_playlist_plays_in_order() {
    let p = playlist(&[3, 1, 2]);
    let mut it = p.dynamic_iter();
    assert_eq!(it.size_hint(), (3, Some(3)));
    assert_eq!(it.get_previous(), None);
    assert_eq!(it.next(), Some(3));
    assert_eq!(it.get_previous(), Some(3));
    assert_eq!(it.next(), Some(1));
    assert_eq!(it.next(), Some(2));
    assert_eq!(it.next(), None);
    assert_eq!(it.get_previous(), Some(2));
    assert_eq!(it.size_hint(), (0, Some(0)));
}

#[test]
fn queue_inserts_are_marked_as_added() {
    let mut it = PlaylistIter::new(&[1, 2]);
    it.insert_front(7);
    it.insert_back(8);
    assert_eq!(it.insert(1, 9), Ok(()));
    assert_eq!(
        ids(&it),
        vec![
            (7, ItemType::DynamicItem),
            (9, ItemType::DynamicItem),
            (1, ItemType::OriginalItem),
            (2, ItemType::OriginalItem),
            (8, ItemType::DynamicItem),
        ]
    );
    assert_eq!(it.insert(5, 4), Err(DopplerError::IndexOutOfBounds));
    it.remove_dynamics();
    assert_eq!(ids(&it), vec![(1, ItemType::OriginalItem), (2, ItemType::OriginalItem)]);
    it.remove_dynamics();
    assert_eq!(ids(&it), vec![(1, ItemType::OriginalItem), (2, ItemType::OriginalItem)]);
}

#[test]
fn queue_spreads_songs_every_few_places() {
    let mut it = PlaylistIter::new(&[1, 2, 3, 4, 5]);
    it.insert_dynamics_in_order(&[10, 11, 12], 2);
    let got: Vec<u32> = it.queue.iter().map(|&(id, _)| id).collect();
    assert_eq!(got, vec![1, 2, 10, 3, 11, 4, 12, 5]);
}

#[test]
fn queue_spread_skips_songs_already_in_playlist() {
    let mut it = PlaylistIter::new(&[1, 2, 3]);
    it.insert_dynamics_in_order(&[3, 10], 1);
    let got: Vec<u32> = it.queue.iter().map(|&(id, _)| id).collect();
    assert_eq!(got, vec![1, 10, 2, 3]);
}

#[test]
fn queue_spread_uses_up_a_song_at_the_end() {
    let mut it = PlaylistIter::new(&[1, 2]);
    it.insert_dynamics_in_order(&[7, 8], 2);
    let got: Vec<u32> = it.queue.iter().map(|&(id, _)| id).collect();
    assert_eq!(got, vec![1, 2]);
    let mut empty = PlaylistIter::new(&[]);
    empty.insert_dynamics_in_order(&[7], 0);
    assert!(empty.queue.is_empty());
}

#[test]
fn queue_random_spread_keeps_playlist_order() {
    let mut it = PlaylistIter::new(&[1, 2, 3, 4, 5, 6]);
    assert_eq!(it.insert_dynamics(&[10, 11, 12], 2), Ok(()));
    assert_eq!(it.queue.len(), 9);
    let originals: Vec<u32> = it
        .queue
        .iter()
        .filter(|(_, t)| *t == ItemType::OriginalItem)
        .map(|&(id, _)| id)
        .collect();
    assert_eq!(originals, vec![1, 2, 3, 4, 5, 6]);
    let mut added: Vec<u32> = it
        .queue
        .iter()
        .filter(|(_, t)| *t == ItemType::DynamicItem)
        .map(|&(id, _)| id)
        .collect();
    added.sort();
    assert_eq!(added, vec![10, 11, 12]);
    it.remove_dynamics();
    let back: Vec<u32> = it.queue.iter().map(|&(id, _)| id).collect();
    assert_eq!(back, vec![1, 2, 3, 4, 5, 6]);
}

#[test]
fn queue_shuffle_keeps_entries() {
    let mut it = PlaylistIter::new(&[1, 2, 3, 4, 5, 6, 7, 8]);
    it.insert_back(9);
    it.shuffle();
    let mut got = ids(&it);
    got.sort_by_key(|&(id, _)| id);
    let mut want: Vec<(u32, ItemType)> = (1..=8).map(|i| (i, ItemType::OriginalItem)).collect();
    want.push((9, ItemType::DynamicItem));
    assert_eq!(got, want);
}

#[test]
fn removing_added_songs_restores_the_playlist() {
    let mut it = PlaylistIter::new(&[1, 2, 3, 4]);
    it.insert_front(9);
    it.insert_back(8);
    it.insert(2, 7).unwrap();
    it.insert_dynamics(&[5, 6, 1], 2).unwrap();
    assert!(it.queue.len() > 4);
    it.remove_dynamics();
    assert_eq!(ids(&it), ids(&PlaylistIter::new(&[1, 2, 3, 4])));
}

#[test]
fn queue_spread_with_a_huge_frequency_adds_nothing() {
    let mut it = PlaylistIter::new(&[1, 2]);
    assert_eq!(it.insert_dynamics(&[3, 4, 5, 6, 7], usize::MAX - 3), Ok(()));
    assert_eq!(ids(&it), vec![(1, ItemType::OriginalItem), (2, ItemType::OriginalItem)]);
    assert_eq!(it.insert_dynamics(&[3], usize::MAX), Ok(()));
    assert_eq!(it.queue.len(), 2);
    it.insert_dynamics(&[3, 4], 1).unwrap();
    let q = ids(&it);
    assert_eq!(q.len(), 4);
    assert_eq!(q[0], (1, ItemType::OriginalItem));
    assert_eq!(q[3], (2, ItemType::OriginalItem));
    let mut added = vec![q[1], q[2]];
    added.sort_by_key(|e| e.0);
    assert_eq!(added, vec![(3, ItemType::DynamicItem), (4, ItemType::DynamicItem)]);
}
