//! View-model and state-machine logic of the streamboat desktop shell.
pub mod text;
pub mod nav;
pub mod json;
pub mod format;
pub mod actions;
pub mod images;
pub mod banner;
pub mod proto;
pub mod tray;
pub mod remote_link;
pub mod lyrics;
pub mod favorites;
pub mod album;
pub mod artist;
pub mod mix;
pub mod video;
pub mod track;
pub mod playlist;
pub mod collection;
pub mod settings;
pub mod search;
pub mod home;
pub mod explore;
pub mod login;
pub mod snapcast;
pub mod instance;
pub mod shell;
pub mod cli;
pub mod signal_path;
pub mod widgets;
