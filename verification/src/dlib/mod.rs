pub mod doppler_info;
pub mod lyrics;
pub mod playlist;
pub mod playlist_iter;
pub mod song;
pub mod sorting;
