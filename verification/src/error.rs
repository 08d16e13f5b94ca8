//! The errors that the catalogue and queue operations report.
use vstd::prelude::*;

verus! {

/// The class of an error, in the terms of `std::io::ErrorKind`.
#[derive(Debug, Clone, Copy, PartialEq, Eq, Structural)]
pub enum ErrorClass {
    AlreadyExists,
    InvalidInput,
    NotFound,
    InvalidData,
}

/// An operation of the library that was refused, and why.
#[derive(Debug, Clone, Copy, PartialEq, Eq, Structural)]
pub enum DopplerError {
    /// A playlist already holds the song.
    SongAlreadyInPlaylist,
    /// A position lies beyond the end of a list.
    IndexOutOfBounds,
    /// No song has the requested id.
    NoSuchSong,
    /// The song has no audio file recorded.
    SongHasNoFile,
    /// No playlist has the requested id.
    NoSuchPlaylist,
    /// The playlist holds no songs.
    EmptyPlaylist,
    /// A new song asked for an id that is taken or below the highest one.
    SongIdTaken,
    /// A new playlist asked for an id that is taken or below the highest one.
    PlaylistIdTaken,
    /// No song has the id to remove or update.
    SongNotFound,
    /// The song is already marked for removal.
    SongAlreadyRemoved,
    /// No playlist has the id to remove or update.
    PlaylistNotFound,
    /// The playlist is already marked for removal.
    PlaylistAlreadyRemoved,
    /// The song to update carries no id.
    SongWithoutId,
    /// The playlist to update carries no id.
    PlaylistWithoutId,
}

impl DopplerError {
    /// The class of the error.
    pub open spec fn class_of(self) -> ErrorClass {
        match self {
            DopplerError::SongAlreadyInPlaylist => ErrorClass::AlreadyExists,
            DopplerError::IndexOutOfBounds => ErrorClass::InvalidInput,
            DopplerError::NoSuchSong => ErrorClass::NotFound,
            DopplerError::SongHasNoFile => ErrorClass::InvalidData,
            DopplerError::NoSuchPlaylist => ErrorClass::NotFound,
            DopplerError::EmptyPlaylist => ErrorClass::NotFound,
            DopplerError::SongIdTaken => ErrorClass::AlreadyExists,
            DopplerError::PlaylistIdTaken => ErrorClass::AlreadyExists,
            DopplerError::SongNotFound => ErrorClass::NotFound,
            DopplerError::SongAlreadyRemoved => ErrorClass::AlreadyExists,
            DopplerError::PlaylistNotFound => ErrorClass::NotFound,
            DopplerError::PlaylistAlreadyRemoved => ErrorClass::AlreadyExists,
            DopplerError::SongWithoutId => ErrorClass::InvalidInput,
            DopplerError::PlaylistWithoutId => ErrorClass::InvalidInput,
        }
    }

    /// The class of the error.
    pub fn class(&self) -> (c: ErrorClass)
        ensures
            c == self.class_of(),
    {
        match self {
            DopplerError::SongAlreadyInPlaylist => ErrorClass::AlreadyExists,
            DopplerError::IndexOutOfBounds => ErrorClass::InvalidInput,
            DopplerError::NoSuchSong => ErrorClass::NotFound,
            DopplerError::SongHasNoFile => ErrorClass::InvalidData,
            DopplerError::NoSuchPlaylist => ErrorClass::NotFound,
            DopplerError::EmptyPlaylist => ErrorClass::NotFound,
            DopplerError::SongIdTaken => ErrorClass::AlreadyExists,
            DopplerError::PlaylistIdTaken => ErrorClass::AlreadyExists,
            DopplerError::SongNotFound => ErrorClass::NotFound,
            DopplerError::SongAlreadyRemoved => ErrorClass::AlreadyExists,
            DopplerError::PlaylistNotFound => ErrorClass::NotFound,
            DopplerError::PlaylistAlreadyRemoved => ErrorClass::AlreadyExists,
            DopplerError::SongWithoutId => ErrorClass::InvalidInput,
            DopplerError::PlaylistWithoutId => ErrorClass::InvalidInput,
        }
    }

    /// The message shown to the user.
    pub fn message(&self) -> (m: &'static str)
        ensures
            m@ == message_text(*self),
    {
        match self {
            DopplerError::SongAlreadyInPlaylist => "Song already in playlist",
            DopplerError::IndexOutOfBounds => "Index out of bounds",
            DopplerError::NoSuchSong => "No song with this id exists",
            DopplerError::SongHasNoFile => "Song has no associated file",
            DopplerError::NoSuchPlaylist => "No playlist with this id exists",
            DopplerError::EmptyPlaylist => "No songs in playlist",
            DopplerError::SongIdTaken => "Song with this id already exists",
            DopplerError::PlaylistIdTaken => "Playlist with this id already exists",
            DopplerError::SongNotFound => "Song with this id doesnt exist",
            DopplerError::SongAlreadyRemoved => "Song already removed",
            DopplerError::PlaylistNotFound => "Playlist with this id doesnt exist",
            DopplerError::PlaylistAlreadyRemoved => "Playlist already removed",
            DopplerError::SongWithoutId => "input song has no ID",
            DopplerError::PlaylistWithoutId => "input playlist has no ID",
        }
    }
}

/// The message of each error.
pub open spec fn message_text(e: DopplerError) -> Seq<char> {
    match e {
        DopplerError::SongAlreadyInPlaylist => "Song already in playlist"@,
        DopplerError::IndexOutOfBounds => "Index out of bounds"@,
        DopplerError::NoSuchSong => "No song with this id exists"@,
        DopplerError::SongHasNoFile => "Song has no associated file"@,
        DopplerError::NoSuchPlaylist => "No playlist with this id exists"@,
        DopplerError::EmptyPlaylist => "No songs in playlist"@,
        DopplerError::SongIdTaken => "Song with this id already exists"@,
        DopplerError::PlaylistIdTaken => "Playlist with this id already exists"@,
        DopplerError::SongNotFound => "Song with this id doesnt exist"@,
        DopplerError::SongAlreadyRemoved => "Song already removed"@,
        DopplerError::PlaylistNotFound => "Playlist with this id doesnt exist"@,
        DopplerError::PlaylistAlreadyRemoved => "Playlist already removed"@,
        DopplerError::SongWithoutId => "input song has no ID"@,
        DopplerError::PlaylistWithoutId => "input playlist has no ID"@,
    }
}

} // verus!
