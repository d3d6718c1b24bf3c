//! Application settings as the front end edits them.
use crate::defs::{default_colors, ThemeColors};
use vstd::prelude::*;

verus! {

#[derive(Clone, Debug)]
pub struct ConfigState {
    pub version: Version,
    pub theme: Theme,
    pub custom_colors: ThemeColors,
    pub startup_view: View,
    pub language: Language,
    pub look_for_updates: bool,
    pub media_path: String,
    pub manage_folders: bool,
    pub allow_delete_from_db: bool,
    pub allow_delete_files: bool,
    pub is_new: bool,
}

#[derive(Clone, Copy, Debug, PartialEq, Eq, Structural)]
pub struct Version {
    pub major: i64,
    pub minor: i64,
    pub patch: i64,
}

#[derive(Clone, Copy, Debug, PartialEq, Eq, Structural)]
pub enum Theme {
    System,
    Light,
    Dark,
    Custom,
}

#[derive(Clone, Copy, Debug, PartialEq, Eq, Structural)]
pub enum View {
    Recents,
    Tracks,
    Albums,
    Artists,
    Composers,
    Genres,
    Playlists,
}

#[derive(Clone, Copy, Debug, PartialEq, Eq, Structural)]
pub enum Language {
    System,
    Czech,
    Danish,
    German,
    Greek,
    English,
    Spanish,
    French,
    Italian,
    Japanese,
    Korean,
    Luxembourgish,
    Dutch,
    Polish,
    Portuguese,
    Turkish,
    Chinese,
}

/// The configuration of a first start: version 1.0.0, system theme and
/// language, the recents view, update checks on, nothing managed or deleted,
/// and `media_path` (the user's audio folder, where there is one) as media
/// folder.
pub fn default_config(media_path: String) -> (r: ConfigState)
    ensures
        r.version == (Version { major: 1, minor: 0, patch: 0 }),
        r.theme == Theme::System,
        default_colors(r.custom_colors),
        r.startup_view == View::Recents,
        r.language == Language::System,
        r.look_for_updates,
        r.media_path == media_path,
        !r.manage_folders,
        !r.allow_delete_from_db,
        !r.allow_delete_files,
        r.is_new,
{
    ConfigState {
        version: Version { major: 1, minor: 0, patch: 0 },
        theme: Theme::System,
        custom_colors: ThemeColors::default(),
        startup_view: View::Recents,
        language: Language::System,
        look_for_updates: true,
        media_path,
        manage_folders: false,
        allow_delete_from_db: false,
        allow_delete_files: false,
        is_new: true,
    }
}

} // verus!
