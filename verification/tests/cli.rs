use doppler::cli::parser::{
    classify_edit_input, command_prompt, parse_command, parse_id, parse_playlist_command,
    playlist_prompt, prompt_or_default, updated_field, Command, EditInput, PlaylistCommand,
    ProgramState,
};
use doppler::text::ParseNumberError;

#[test]
fn commands_are_read_from_trimmed_lines() {
    assert_eq!(parse_command("  add \n"), Command::Add);
    assert_eq!(parse_command("s"), Command::Select);
    assert_eq!(parse_command("?"), Command::Help);
    assert_eq!(parse_command("ss"), Command::Search);
    assert_eq!(parse_command("pl"), Command::Playlist);
    assert_eq!(parse_command("x\n"), Command::TogglePause);
    assert_eq!(parse_command("status"), Command::Status);
    assert_eq!(parse_command("e"), Command::Exit);
    assert_eq!(parse_command("adds"), Command::Invalid);
    assert_eq!(parse_command(""), Command::Invalid);
}

#[test]
fn playlist_commands_leave_on_anything_else() {
    assert_eq!(parse_playlist_command("c"), PlaylistCommand::Shuffle);
    assert_eq!(parse_playlist_command(" as "), PlaylistCommand::AddSongs);
    assert_eq!(parse_playlist_command("u"), PlaylistCommand::Update);
    assert_eq!(parse_playlist_command("exit"), PlaylistCommand::Leave);
}

#[test]
fn edit_lines_are_classified() {
    assert_eq!(classify_edit_input("list\n", 3), EditInput::List);
    assert_eq!(classify_edit_input("r1", 3), EditInput::Remove(1));
    assert_eq!(classify_edit_input("i7", 3), EditInput::Insert(7));
    assert_eq!(classify_edit_input(" 42 ", 3), EditInput::SongId(42));
    assert_eq!(
        classify_edit_input("r3", 3),
        EditInput::Stop(ParseNumberError::InvalidDigit)
    );
    assert_eq!(classify_edit_input("", 3), EditInput::Stop(ParseNumberError::Empty));
    assert_eq!(
        classify_edit_input("4294967296", 3),
        EditInput::Stop(ParseNumberError::PosOverflow)
    );
    assert_eq!(classify_edit_input("+5", 0), EditInput::SongId(5));
}

#[test]
fn prompts_show_the_selection() {
    let none = ProgramState::new();
    let some = ProgramState { selected_id: Some(12) };
    assert_eq!(command_prompt(&none), "> ");
    assert_eq!(command_prompt(&some), "12> ");
    assert_eq!(playlist_prompt(&none), "$ ");
    assert_eq!(playlist_prompt(&some), "12$ ");
    assert_eq!(prompt_or_default(None), "> ");
    assert_eq!(prompt_or_default(Some("y/n> ".to_string())), "y/n> ");
    assert_eq!(ProgramState::default().selected_id, None);
}

#[test]
fn blank_edits_keep_the_field() {
    let current = "Old".to_string();
    assert_eq!(updated_field(&current, "  New name \n"), "New name");
    assert_eq!(updated_field(&current, "   \n"), "Old");
}

#[test]
fn ids_parse_like_str_parse() {
    assert_eq!(parse_id(" 17\n"), Ok(17));
    assert_eq!(parse_id("abc"), Err(ParseNumberError::InvalidDigit));
    assert_eq!(parse_id("-1"), Err(ParseNumberError::InvalidDigit));
    assert_eq!(parse_id("4294967295"), Ok(4294967295));
}

use doppler::cli::playlist_edit::{
    confirm_force_add, playlist_edit_step, playlist_insert_step, EditStep, InsertStep,
};
use doppler::dlib::doppler_info::DopplerInfo;
use doppler::dlib::playlist::PlaylistInfo;
use doppler::dlib::song::SongInfo;
use doppler::error::DopplerError;

fn library() -> DopplerInfo {
    let mut songs = Vec::new();
    for id in 1..=3u32 {
        let mut s = SongInfo::new();
        s.name = format!("song {id}");
        s.id = Some(id);
        songs.push(s);
    }
    let mut p = PlaylistInfo::new();
    p.name = "Mix".to_string();
    p.id = Some(7);
    p.songs = vec![1, 2];
    DopplerInfo::new(songs, vec![p])
}

#[test]
fn adding_songs_line_by_line() {
    let mut d = library();
    assert_eq!(playlist_edit_step(&mut d, 7, "list"), EditStep::ShowSongs);
    assert_eq!(playlist_edit_step(&mut d, 7, "3\n"), EditStep::Added);
    assert_eq!(d.playlists[0].songs, vec![1, 2, 3]);
    assert!(!d.playlists[0].file_entry_up_to_date);
    assert_eq!(playlist_edit_step(&mut d, 7, "1"), EditStep::AskForceAdd(1));
    assert_eq!(d.playlists[0].songs, vec![1, 2, 3]);
    assert_eq!(playlist_edit_step(&mut d, 7, "9"), EditStep::NoSuchSong);
    assert_eq!(playlist_edit_step(&mut d, 7, "r0"), EditStep::Removed(0));
    assert_eq!(d.playlists[0].songs, vec![2, 3]);
    assert_eq!(playlist_edit_step(&mut d, 7, "i1"), EditStep::AskInsertId(1));
    assert_eq!(
        playlist_edit_step(&mut d, 7, "done"),
        EditStep::Leave(ParseNumberError::InvalidDigit)
    );
    assert_eq!(d.playlists[0].songs, vec![2, 3]);
}

#[test]
fn inserting_and_forcing_songs() {
    let mut d = library();
    assert_eq!(playlist_insert_step(&mut d, 7, 1, " 3 "), InsertStep::Inserted(3, 1));
    assert_eq!(d.playlists[0].songs, vec![1, 3, 2]);
    assert_eq!(
        playlist_insert_step(&mut d, 7, 9, "3"),
        InsertStep::Refused(DopplerError::IndexOutOfBounds)
    );
    assert_eq!(
        playlist_insert_step(&mut d, 7, 0, "x"),
        InsertStep::BadId(ParseNumberError::InvalidDigit)
    );
    assert_eq!(d.playlists[0].songs, vec![1, 3, 2]);
    assert!(!confirm_force_add(&mut d, 7, 1, "n"));
    assert_eq!(d.playlists[0].songs, vec![1, 3, 2]);
    assert!(confirm_force_add(&mut d, 7, 1, " y\n"));
    assert_eq!(d.playlists[0].songs, vec![1, 3, 2, 1]);
}

#[test]
fn song_updates_keep_blank_fields() {
    let mut s = SongInfo::new();
    s.name = "Old".to_string();
    s.album = "Album".to_string();
    s.artist = "Artist".to_string();
    s.duration = 90;
    s.id = Some(4);
    s.filename = Some("a.mp3".to_string());
    let u = doppler::cli::parser::updated_song(&s, " New \n", "\n", "Band", "").unwrap();
    assert_eq!(u.name, "New");
    assert_eq!(u.album, "Album");
    assert_eq!(u.artist, "Band");
    assert_eq!(u.duration, 90);
    assert_eq!(u.id, Some(4));
    assert_eq!(u.filename, Some("a.mp3".to_string()));
    let v = doppler::cli::parser::updated_song(&s, "", "", "", " 200 ").unwrap();
    assert_eq!(v.duration, 200);
    assert_eq!(v.name, "Old");
    assert_eq!(
        doppler::cli::parser::updated_song(&s, "x", "", "", "2m").map(|u| u.duration),
        Err(ParseNumberError::InvalidDigit)
    );
}
