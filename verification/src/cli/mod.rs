pub mod parser;
pub mod playlist_edit;
