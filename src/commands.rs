//! The commands the host understands: lifecycle verbs it runs itself, and
//! commands it forwards into extensions, with the exported function each
//! one calls and the shape of the result it expects back.
//!
//! Payloads are of any type `P`: the host routes them without reading them.

use vstd::prelude::*;
use crate::text::same_text;

verus! {

/// Arguments that name one extension; the empty name addresses all of them.
pub struct PackageNameArgs {
    pub package_name: String,
}

/// The notifications and queries that can be forwarded to extensions under
/// the `extraExtensionEvents` command.
#[derive(Clone, Copy, PartialEq, Eq, Structural, Debug)]
pub enum ExtraEvent {
    RequestedPlaylists,
    RequestedPlaylistSongs,
    OauthCallback,
    SongQueueChanged,
    Seeked,
    VolumeChanged,
    PlayerStateChanged,
    SongChanged,
    PreferenceChanged,
    PlaybackDetailsRequested,
    CustomRequest,
    RequestedSongFromURL,
    RequestedPlaylistFromURL,
    RequestedSearchResult,
    RequestedRecommendations,
    RequestedLyrics,
    RequestedArtistSongs,
    RequestedAlbumSongs,
    SongAdded,
    SongRemoved,
    PlaylistAdded,
    PlaylistRemoved,
    RequestedSongFromId,
    GetRemoteURL,
    Scrobble,
}

/// The event a wire tag names, if any.
pub open spec fn event_of_tag(tag: Seq<char>) -> Option<ExtraEvent> {
    if tag == "requestedPlaylists"@ {
        Some(ExtraEvent::RequestedPlaylists)
    } else if tag == "requestedPlaylistSongs"@ {
        Some(ExtraEvent::RequestedPlaylistSongs)
    } else if tag == "oauthCallback"@ {
        Some(ExtraEvent::OauthCallback)
    } else if tag == "songQueueChanged"@ {
        Some(ExtraEvent::SongQueueChanged)
    } else if tag == "seeked"@ {
        Some(ExtraEvent::Seeked)
    } else if tag == "volumeChanged"@ {
        Some(ExtraEvent::VolumeChanged)
    } else if tag == "playerStateChanged"@ {
        Some(ExtraEvent::PlayerStateChanged)
    } else if tag == "songChanged"@ {
        Some(ExtraEvent::SongChanged)
    } else if tag == "preferenceChanged"@ {
        Some(ExtraEvent::PreferenceChanged)
    } else if tag == "playbackDetailsRequested"@ {
        Some(ExtraEvent::PlaybackDetailsRequested)
    } else if tag == "customRequest"@ {
        Some(ExtraEvent::CustomRequest)
    } else if tag == "requestedSongFromURL"@ {
        Some(ExtraEvent::RequestedSongFromURL)
    } else if tag == "requestedPlaylistFromURL"@ {
        Some(ExtraEvent::RequestedPlaylistFromURL)
    } else if tag == "requestedSearchResult"@ {
        Some(ExtraEvent::RequestedSearchResult)
    } else if tag == "requestedRecommendations"@ {
        Some(ExtraEvent::RequestedRecommendations)
    } else if tag == "requestedLyrics"@ {
        Some(ExtraEvent::RequestedLyrics)
    } else if tag == "requestedArtistSongs"@ {
        Some(ExtraEvent::RequestedArtistSongs)
    } else if tag == "requestedAlbumSongs"@ {
        Some(ExtraEvent::RequestedAlbumSongs)
    } else if tag == "songAdded"@ {
        Some(ExtraEvent::SongAdded)
    } else if tag == "songRemoved"@ {
        Some(ExtraEvent::SongRemoved)
    } else if tag == "playlistAdded"@ {
        Some(ExtraEvent::PlaylistAdded)
    } else if tag == "playlistRemoved"@ {
        Some(ExtraEvent::PlaylistRemoved)
    } else if tag == "requestedSongFromId"@ {
        Some(ExtraEvent::RequestedSongFromId)
    } else if tag == "getRemoteURL"@ {
        Some(ExtraEvent::GetRemoteURL)
    } else if tag == "scrobble"@ {
        Some(ExtraEvent::Scrobble)
    } else {
        None
    }
}

impl ExtraEvent {
    /// Whether the host can forward the event: lyrics have no exported
    /// function to call.
    pub open spec fn supported(self) -> bool {
        self != ExtraEvent::RequestedLyrics
    }

    /// The function exported by the extension that handles the event.
    pub open spec fn function_spec(self) -> Seq<char> {
        match self {
            ExtraEvent::RequestedPlaylists => "get_playlists_wrapper"@,
            ExtraEvent::RequestedPlaylistSongs => "get_playlist_content_wrapper"@,
            ExtraEvent::OauthCallback => "oauth_callback_wrapper"@,
            ExtraEvent::SongQueueChanged => "on_queue_changed_wrapper"@,
            ExtraEvent::Seeked => "on_seeked_wrapper"@,
            ExtraEvent::VolumeChanged => "on_volume_changed_wrapper"@,
            ExtraEvent::PlayerStateChanged => "on_player_state_changed_wrapper"@,
            ExtraEvent::SongChanged => "on_song_changed_wrapper"@,
            ExtraEvent::PreferenceChanged => "on_preferences_changed_wrapper"@,
            ExtraEvent::PlaybackDetailsRequested => "get_playback_details_wrapper"@,
            ExtraEvent::CustomRequest => "handle_custom_request_wrapper"@,
            ExtraEvent::RequestedSongFromURL => "get_song_from_url_wrapper"@,
            ExtraEvent::RequestedPlaylistFromURL => "get_playlist_from_url_wrapper"@,
            ExtraEvent::RequestedSearchResult => "search_wrapper"@,
            ExtraEvent::RequestedRecommendations => "get_recommendations_wrapper"@,
            ExtraEvent::RequestedLyrics => ""@,
            ExtraEvent::RequestedArtistSongs => "get_artist_songs_wrapper"@,
            ExtraEvent::RequestedAlbumSongs => "get_album_songs_wrapper"@,
            ExtraEvent::SongAdded => "on_song_added_wrapper"@,
            ExtraEvent::SongRemoved => "on_song_removed_wrapper"@,
            ExtraEvent::PlaylistAdded => "on_playlist_added_wrapper"@,
            ExtraEvent::PlaylistRemoved => "on_playlist_removed_wrapper"@,
            ExtraEvent::RequestedSongFromId => "get_song_from_id_wrapper"@,
            ExtraEvent::GetRemoteURL => "get_remote_url_wrapper"@,
            ExtraEvent::Scrobble => "scrobble_wrapper"@,
        }
    }

    /// Whether the handler takes the event's first argument.
    pub open spec fn takes_argument(self) -> bool {
        match self {
            ExtraEvent::RequestedPlaylists => false,
            ExtraEvent::VolumeChanged => false,
            ExtraEvent::SongChanged => false,
            ExtraEvent::RequestedRecommendations => false,
            ExtraEvent::GetRemoteURL => false,
            _ => true,
        }
    }

    /// Whether the handler returns a value, rather than only acknowledging.
    pub open spec fn returns_value(self) -> bool {
        match self {
            ExtraEvent::OauthCallback => false,
            ExtraEvent::SongQueueChanged => false,
            ExtraEvent::Seeked => false,
            ExtraEvent::VolumeChanged => false,
            ExtraEvent::PlayerStateChanged => false,
            ExtraEvent::SongChanged => false,
            ExtraEvent::PreferenceChanged => false,
            ExtraEvent::SongAdded => false,
            ExtraEvent::SongRemoved => false,
            ExtraEvent::PlaylistAdded => false,
            ExtraEvent::PlaylistRemoved => false,
            ExtraEvent::Scrobble => false,
            _ => true,
        }
    }

    /// The event a wire tag names, if any.
    pub fn from_tag(tag: &str) -> (r: Option<ExtraEvent>)
        ensures
            r == event_of_tag(tag@),
    {
        if same_text(tag, "requestedPlaylists") {
            return Some(ExtraEvent::RequestedPlaylists);
        }
        if same_text(tag, "requestedPlaylistSongs") {
            return Some(ExtraEvent::RequestedPlaylistSongs);
        }
        if same_text(tag, "oauthCallback") {
            return Some(ExtraEvent::OauthCallback);
        }
        if same_text(tag, "songQueueChanged") {
            return Some(ExtraEvent::SongQueueChanged);
        }
        if same_text(tag, "seeked") {
            return Some(ExtraEvent::Seeked);
        }
        if same_text(tag, "volumeChanged") {
            return Some(ExtraEvent::VolumeChanged);
        }
        if same_text(tag, "playerStateChanged") {
            return Some(ExtraEvent::PlayerStateChanged);
        }
        if same_text(tag, "songChanged") {
            return Some(ExtraEvent::SongChanged);
        }
        if same_text(tag, "preferenceChanged") {
            return Some(ExtraEvent::PreferenceChanged);
        }
        if same_text(tag, "playbackDetailsRequested") {
            return Some(ExtraEvent::PlaybackDetailsRequested);
        }
        if same_text(tag, "customRequest") {
            return Some(ExtraEvent::CustomRequest);
        }
        if same_text(tag, "requestedSongFromURL") {
            return Some(ExtraEvent::RequestedSongFromURL);
        }
        if same_text(tag, "requestedPlaylistFromURL") {
            return Some(ExtraEvent::RequestedPlaylistFromURL);
        }
        if same_text(tag, "requestedSearchResult") {
            return Some(ExtraEvent::RequestedSearchResult);
        }
        if same_text(tag, "requestedRecommendations") {
            return Some(ExtraEvent::RequestedRecommendations);
        }
        if same_text(tag, "requestedLyrics") {
            return Some(ExtraEvent::RequestedLyrics);
        }
        if same_text(tag, "requestedArtistSongs") {
            return Some(ExtraEvent::RequestedArtistSongs);
        }
        if same_text(tag, "requestedAlbumSongs") {
            return Some(ExtraEvent::RequestedAlbumSongs);
        }
        if same_text(tag, "songAdded") {
            return Some(ExtraEvent::SongAdded);
        }
        if same_text(tag, "songRemoved") {
            return Some(ExtraEvent::SongRemoved);
        }
        if same_text(tag, "playlistAdded") {
            return Some(ExtraEvent::PlaylistAdded);
        }
        if same_text(tag, "playlistRemoved") {
            return Some(ExtraEvent::PlaylistRemoved);
        }
        if same_text(tag, "requestedSongFromId") {
            return Some(ExtraEvent::RequestedSongFromId);
        }
        if same_text(tag, "getRemoteURL") {
            return Some(ExtraEvent::GetRemoteURL);
        }
        if same_text(tag, "scrobble") {
            return Some(ExtraEvent::Scrobble);
        }
        None
    }

    /// The name of the exported function that handles the event.
    pub fn function_name(&self) -> (r: &'static str)
        ensures
            r@ == self.function_spec(),
    {
        match self {
            ExtraEvent::RequestedPlaylists => "get_playlists_wrapper",
            ExtraEvent::RequestedPlaylistSongs => "get_playlist_content_wrapper",
            ExtraEvent::OauthCallback => "oauth_callback_wrapper",
            ExtraEvent::SongQueueChanged => "on_queue_changed_wrapper",
            ExtraEvent::Seeked => "on_seeked_wrapper",
            ExtraEvent::VolumeChanged => "on_volume_changed_wrapper",
            ExtraEvent::PlayerStateChanged => "on_player_state_changed_wrapper",
            ExtraEvent::SongChanged => "on_song_changed_wrapper",
            ExtraEvent::PreferenceChanged => "on_preferences_changed_wrapper",
            ExtraEvent::PlaybackDetailsRequested => "get_playback_details_wrapper",
            ExtraEvent::CustomRequest => "handle_custom_request_wrapper",
            ExtraEvent::RequestedSongFromURL => "get_song_from_url_wrapper",
            ExtraEvent::RequestedPlaylistFromURL => "get_playlist_from_url_wrapper",
            ExtraEvent::RequestedSearchResult => "search_wrapper",
            ExtraEvent::RequestedRecommendations => "get_recommendations_wrapper",
            ExtraEvent::RequestedLyrics => "",
            ExtraEvent::RequestedArtistSongs => "get_artist_songs_wrapper",
            ExtraEvent::RequestedAlbumSongs => "get_album_songs_wrapper",
            ExtraEvent::SongAdded => "on_song_added_wrapper",
            ExtraEvent::SongRemoved => "on_song_removed_wrapper",
            ExtraEvent::PlaylistAdded => "on_playlist_added_wrapper",
            ExtraEvent::PlaylistRemoved => "on_playlist_removed_wrapper",
            ExtraEvent::RequestedSongFromId => "get_song_from_id_wrapper",
            ExtraEvent::GetRemoteURL => "get_remote_url_wrapper",
            ExtraEvent::Scrobble => "scrobble_wrapper",
        }
    }

    /// Whether the handler takes the event's first argument.
    pub fn has_argument(&self) -> (b: bool)
        ensures
            b == self.takes_argument(),
    {
        match self {
            ExtraEvent::RequestedPlaylists => false,
            ExtraEvent::VolumeChanged => false,
            ExtraEvent::SongChanged => false,
            ExtraEvent::RequestedRecommendations => false,
            ExtraEvent::GetRemoteURL => false,
            _ => true,
        }
    }

    /// Whether the handler returns a value.
    pub fn has_result(&self) -> (b: bool)
        ensures
            b == self.returns_value(),
    {
        match self {
            ExtraEvent::OauthCallback => false,
            ExtraEvent::SongQueueChanged => false,
            ExtraEvent::Seeked => false,
            ExtraEvent::VolumeChanged => false,
            ExtraEvent::PlayerStateChanged => false,
            ExtraEvent::SongChanged => false,
            ExtraEvent::PreferenceChanged => false,
            ExtraEvent::SongAdded => false,
            ExtraEvent::SongRemoved => false,
            ExtraEvent::PlaylistAdded => false,
            ExtraEvent::PlaylistRemoved => false,
            ExtraEvent::Scrobble => false,
            _ => true,
        }
    }
}

/// The lifecycle verbs the host runs itself. The verbs that act on one
/// extension carry the package name the request's data gave, if it gave one.
pub enum RunnerCommand {
    FindNewExtensions,
    GetInstalledExtensions,
    GetExtensionIcon(Option<PackageNameArgs>),
    ToggleExtensionStatus(Option<PackageNameArgs>),
    RemoveExtension(Option<PackageNameArgs>),
    StopProcess,
    GetDisplayName(Option<PackageNameArgs>),
}

/// The lifecycle verb a request type makes, if any. The verb is decided by
/// the type alone; the package name, present or not, is carried along.
pub open spec fn runner_spec(kind: Seq<char>, package: Option<Seq<char>>) -> Option<RunnerSpec> {
    if kind == "findNewExtensions"@ {
        Some(RunnerSpec::FindNewExtensions)
    } else if kind == "getInstalledExtensions"@ {
        Some(RunnerSpec::GetInstalledExtensions)
    } else if kind == "getExtensionIcon"@ {
        Some(RunnerSpec::GetExtensionIcon(package))
    } else if kind == "toggleExtensionStatus"@ {
        Some(RunnerSpec::ToggleExtensionStatus(package))
    } else if kind == "removeExtension"@ {
        Some(RunnerSpec::RemoveExtension(package))
    } else if kind == "stopProcess"@ {
        Some(RunnerSpec::StopProcess)
    } else if kind == "getDisplayName"@ {
        Some(RunnerSpec::GetDisplayName(package))
    } else {
        None
    }
}

/// A lifecycle verb with its package name, if any, as characters.
pub enum RunnerSpec {
    FindNewExtensions,
    GetInstalledExtensions,
    GetExtensionIcon(Option<Seq<char>>),
    ToggleExtensionStatus(Option<Seq<char>>),
    RemoveExtension(Option<Seq<char>>),
    StopProcess,
    GetDisplayName(Option<Seq<char>>),
}

/// The characters of an optional package name.
pub open spec fn args_view(a: Option<PackageNameArgs>) -> Option<Seq<char>> {
    match a {
        Some(p) => Some(p.package_name@),
        None => None,
    }
}

impl RunnerCommand {
    /// The verb as characters.
    pub open spec fn spec_of(self) -> RunnerSpec {
        match self {
            RunnerCommand::FindNewExtensions => RunnerSpec::FindNewExtensions,
            RunnerCommand::GetInstalledExtensions => RunnerSpec::GetInstalledExtensions,
            RunnerCommand::GetExtensionIcon(p) => RunnerSpec::GetExtensionIcon(args_view(p)),
            RunnerCommand::ToggleExtensionStatus(p) => RunnerSpec::ToggleExtensionStatus(args_view(p)),
            RunnerCommand::RemoveExtension(p) => RunnerSpec::RemoveExtension(args_view(p)),
            RunnerCommand::StopProcess => RunnerSpec::StopProcess,
            RunnerCommand::GetDisplayName(p) => RunnerSpec::GetDisplayName(args_view(p)),
        }
    }

    /// Reads a lifecycle verb out of a request's type, carrying the package
    /// name its data gave.
    pub fn parse(kind: &str, package_name: Option<String>) -> (r: Option<RunnerCommand>)
        ensures
            r matches Some(c) ==> runner_spec(kind@, opt_view(package_name)) == Some(c.spec_of()),
            r is None ==> runner_spec(kind@, opt_view(package_name)) is None,
    {
        let args = match package_name {
            Some(p) => Some(PackageNameArgs { package_name: p }),
            None => None,
        };
        assert(args_view(args) == opt_view(package_name));
        if same_text(kind, "findNewExtensions") {
            return Some(RunnerCommand::FindNewExtensions);
        }
        if same_text(kind, "getInstalledExtensions") {
            return Some(RunnerCommand::GetInstalledExtensions);
        }
        if same_text(kind, "getExtensionIcon") {
            return Some(RunnerCommand::GetExtensionIcon(args));
        }
        if same_text(kind, "toggleExtensionStatus") {
            return Some(RunnerCommand::ToggleExtensionStatus(args));
        }
        if same_text(kind, "removeExtension") {
            return Some(RunnerCommand::RemoveExtension(args));
        }
        if same_text(kind, "stopProcess") {
            return Some(RunnerCommand::StopProcess);
        }
        if same_text(kind, "getDisplayName") {
            return Some(RunnerCommand::GetDisplayName(args));
        }
        None
    }
}

/// The characters of an optional string.
pub open spec fn opt_view(s: Option<String>) -> Option<Seq<char>> {
    match s {
        Some(v) => Some(v@),
        None => None,
    }
}

/// What a request's data carries that routing reads: the package it names,
/// the tag and first argument of an extra event, and the data itself.
pub struct CommandData<P> {
    pub package_name: Option<String>,
    pub event_tag: Option<String>,
    pub event_argument: Option<P>,
    pub payload: Option<P>,
}

/// Arguments of an account login: the extension, and the whole request
/// data, which is handed to the extension as it is.
pub struct AccountLoginArgs<P> {
    pub package_name: String,
    pub payload: P,
}

/// An extra event addressed to one extension, or to all for the empty name.
pub struct ExtraEventArgs<P> {
    pub package_name: String,
    pub event: ExtraEvent,
    pub argument: Option<P>,
}

/// A command forwarded into extensions.
pub enum ExtensionCommand<P> {
    GetProviderScopes(PackageNameArgs),
    GetExtensionContextMenu(PackageNameArgs),
    GetAccounts(PackageNameArgs),
    PerformAccountLogin(AccountLoginArgs<P>),
    ExtraExtensionEvent(ExtraEventArgs<P>),
}

/// The command a request type and data make, if any.
pub open spec fn extension_command_spec<P>(kind: Seq<char>, d: CommandData<P>) -> Option<
    ExtensionCommand<P>,
> {
    match d.package_name {
        None => None,
        Some(p) => if kind == "extraExtensionEvents"@ {
            match d.event_tag {
                None => None,
                Some(t) => if let Some(e) = event_of_tag(t@) {
                    if !e.supported() {
                        None
                    } else if e.takes_argument() {
                        match d.event_argument {
                            Some(a) => Some(
                                ExtensionCommand::ExtraExtensionEvent(
                                    ExtraEventArgs { package_name: p, event: e, argument: Some(a) },
                                ),
                            ),
                            None => None,
                        }
                    } else {
                        Some(
                            ExtensionCommand::ExtraExtensionEvent(
                                ExtraEventArgs { package_name: p, event: e, argument: None },
                            ),
                        )
                    }
                } else {
                    None
                },
            }
        } else if kind == "getExtensionProviderScopes"@ {
            Some(ExtensionCommand::GetProviderScopes(PackageNameArgs { package_name: p }))
        } else if kind == "getExtensionContextMenu"@ {
            Some(ExtensionCommand::GetExtensionContextMenu(PackageNameArgs { package_name: p }))
        } else if kind == "getAccounts"@ {
            Some(ExtensionCommand::GetAccounts(PackageNameArgs { package_name: p }))
        } else if kind == "performAccountLogin"@ {
            match d.payload {
                Some(v) => Some(
                    ExtensionCommand::PerformAccountLogin(
                        AccountLoginArgs { package_name: p, payload: v },
                    ),
                ),
                None => None,
            }
        } else {
            None
        },
    }
}


impl<P> ExtensionCommand<P> {
    /// Reads a command to forward out of a request's type and data; `None`
    /// when the type is not such a command or the data lacks what it needs.
    pub fn parse(kind: &str, data: CommandData<P>) -> (r: Option<ExtensionCommand<P>>)
        ensures
            r == extension_command_spec(kind@, data),
    {
        let CommandData { package_name, event_tag, event_argument, payload } = data;
        let p = match package_name {
            Some(p) => p,
            None => return None,
        };
        if same_text(kind, "extraExtensionEvents") {
            let t = match event_tag {
                Some(t) => t,
                None => return None,
            };
            let e = match ExtraEvent::from_tag(t.as_str()) {
                Some(e) => e,
                None => return None,
            };
            if e == ExtraEvent::RequestedLyrics {
                return None;
            }
            if e.has_argument() {
                match event_argument {
                    Some(a) => Some(
                        ExtensionCommand::ExtraExtensionEvent(
                            ExtraEventArgs { package_name: p, event: e, argument: Some(a) },
                        ),
                    ),
                    None => None,
                }
            } else {
                Some(
                    ExtensionCommand::ExtraExtensionEvent(
                        ExtraEventArgs { package_name: p, event: e, argument: None },
                    ),
                )
            }
        } else if same_text(kind, "getExtensionProviderScopes") {
            Some(ExtensionCommand::GetProviderScopes(PackageNameArgs { package_name: p }))
        } else if same_text(kind, "getExtensionContextMenu") {
            Some(ExtensionCommand::GetExtensionContextMenu(PackageNameArgs { package_name: p }))
        } else if same_text(kind, "getAccounts") {
            Some(ExtensionCommand::GetAccounts(PackageNameArgs { package_name: p }))
        } else if same_text(kind, "performAccountLogin") {
            match payload {
                Some(v) => Some(
                    ExtensionCommand::PerformAccountLogin(
                        AccountLoginArgs { package_name: p, payload: v },
                    ),
                ),
                None => None,
            }
        } else {
            None
        }
    }

    /// The package the command is addressed to; empty for all of them.
    pub open spec fn target_spec(&self) -> Seq<char> {
        match self {
            ExtensionCommand::GetProviderScopes(a) => a.package_name@,
            ExtensionCommand::GetExtensionContextMenu(a) => a.package_name@,
            ExtensionCommand::GetAccounts(a) => a.package_name@,
            ExtensionCommand::PerformAccountLogin(a) => a.package_name@,
            ExtensionCommand::ExtraExtensionEvent(a) => a.package_name@,
        }
    }

    /// The exported function the command calls.
    pub open spec fn function_spec(&self) -> Seq<char> {
        match self {
            ExtensionCommand::GetProviderScopes(_) => "get_provider_scopes_wrapper"@,
            ExtensionCommand::GetExtensionContextMenu(_) => "get_context_menu_wrapper"@,
            ExtensionCommand::GetAccounts(_) => "get_accounts_wrapper"@,
            ExtensionCommand::PerformAccountLogin(_) => "perform_account_login_wrapper"@,
            ExtensionCommand::ExtraExtensionEvent(a) => a.event.function_spec(),
        }
    }

    /// What the command hands to the function, if anything.
    pub open spec fn argument_spec(self) -> Option<P> {
        match self {
            ExtensionCommand::PerformAccountLogin(a) => Some(a.payload),
            ExtensionCommand::ExtraExtensionEvent(a) => a.argument,
            _ => None,
        }
    }

    /// The kind of result the function hands back.
    pub open spec fn result_spec(&self) -> ResultKind {
        match self {
            ExtensionCommand::GetAccounts(_) => ResultKind::Accounts,
            ExtensionCommand::PerformAccountLogin(_) => ResultKind::Unit,
            ExtensionCommand::ExtraExtensionEvent(a) => if a.event.returns_value() {
                ResultKind::Value
            } else {
                ResultKind::Unit
            },
            _ => ResultKind::Value,
        }
    }

    /// The package the command is addressed to; empty for all of them.
    pub fn target(&self) -> (r: &String)
        ensures
            r@ == self.target_spec(),
    {
        match self {
            ExtensionCommand::GetProviderScopes(a) => &a.package_name,
            ExtensionCommand::GetExtensionContextMenu(a) => &a.package_name,
            ExtensionCommand::GetAccounts(a) => &a.package_name,
            ExtensionCommand::PerformAccountLogin(a) => &a.package_name,
            ExtensionCommand::ExtraExtensionEvent(a) => &a.package_name,
        }
    }

    /// The exported function the command calls.
    pub fn function_name(&self) -> (r: &'static str)
        ensures
            r@ == self.function_spec(),
    {
        match self {
            ExtensionCommand::GetProviderScopes(_) => "get_provider_scopes_wrapper",
            ExtensionCommand::GetExtensionContextMenu(_) => "get_context_menu_wrapper",
            ExtensionCommand::GetAccounts(_) => "get_accounts_wrapper",
            ExtensionCommand::PerformAccountLogin(_) => "perform_account_login_wrapper",
            ExtensionCommand::ExtraExtensionEvent(a) => a.event.function_name(),
        }
    }

    /// The kind of result the function hands back.
    pub fn result_kind(&self) -> (k: ResultKind)
        ensures
            k == self.result_spec(),
    {
        match self {
            ExtensionCommand::GetAccounts(_) => ResultKind::Accounts,
            ExtensionCommand::PerformAccountLogin(_) => ResultKind::Unit,
            ExtensionCommand::ExtraExtensionEvent(a) => if a.event.has_result() {
                ResultKind::Value
            } else {
                ResultKind::Unit
            },
            _ => ResultKind::Value,
        }
    }

    /// Splits the command into the call it makes: the package addressed,
    /// the exported function, and what is handed to it.
    pub fn to_plugin_call(self) -> (r: (String, &'static str, Option<P>))
        ensures
            r.0@ == self.target_spec(),
            r.1@ == self.function_spec(),
            r.2 == self.argument_spec(),
    {
        let f = self.function_name();
        match self {
            ExtensionCommand::GetProviderScopes(a) => (a.package_name, f, None),
            ExtensionCommand::GetExtensionContextMenu(a) => (a.package_name, f, None),
            ExtensionCommand::GetAccounts(a) => (a.package_name, f, None),
            ExtensionCommand::PerformAccountLogin(a) => (a.package_name, f, Some(a.payload)),
            ExtensionCommand::ExtraExtensionEvent(a) => (a.package_name, f, a.argument),
        }
    }

    /// Turns what the extension handed back into the command's response;
    /// `None` when it is not of the kind the command expects.
    pub fn parse_response(&self, value: CallResult<P>) -> (r: Option<ExtensionCommandResponse<P>>)
        ensures
            r == response_spec(*self, value),
    {
        match (self, value) {
            (ExtensionCommand::GetProviderScopes(_), CallResult::Value(v)) => Some(
                ExtensionCommandResponse::GetProviderScopes(v),
            ),
            (ExtensionCommand::GetExtensionContextMenu(_), CallResult::Value(v)) => Some(
                ExtensionCommandResponse::GetExtensionContextMenu(v),
            ),
            (ExtensionCommand::GetAccounts(_), CallResult::Accounts(a)) => Some(
                ExtensionCommandResponse::GetAccounts(a),
            ),
            (ExtensionCommand::PerformAccountLogin(_), _) => Some(
                ExtensionCommandResponse::PerformAccountLogin,
            ),
            (ExtensionCommand::ExtraExtensionEvent(a), v) => {
                if a.event.has_result() {
                    match v {
                        CallResult::Value(v) => Some(
                            ExtensionCommandResponse::ExtraExtensionEvent(a.event, Some(v)),
                        ),
                        _ => None,
                    }
                } else {
                    Some(ExtensionCommandResponse::ExtraExtensionEvent(a.event, None))
                }
            },
            _ => None,
        }
    }
}

/// The kinds of result an exported function hands back.
#[derive(Clone, Copy, PartialEq, Eq, Structural, Debug)]
pub enum ResultKind {
    /// Nothing to read: the call only acknowledges.
    Unit,
    /// A list of account records.
    Accounts,
    /// A value passed on to the caller as it is.
    Value,
}

/// An account record reported by an extension: the package it belongs to,
/// and the rest of the record.
pub struct Account<P> {
    pub package_name: String,
    pub details: P,
}

/// What came back from a call into an extension, as far as it could be read.
pub enum CallResult<P> {
    Unit,
    Accounts(Vec<Account<P>>),
    Value(P),
}

/// The response to a forwarded command.
pub enum ExtensionCommandResponse<P> {
    GetProviderScopes(P),
    GetExtensionContextMenu(P),
    GetAccounts(Vec<Account<P>>),
    PerformAccountLogin,
    /// The event answered, with the value it returned if it returns one.
    ExtraExtensionEvent(ExtraEvent, Option<P>),
    /// No result: nothing was called, the call failed, or its result could
    /// not be read.
    Empty,
}

/// The response a command makes of what its call handed back.
pub open spec fn response_spec<P>(c: ExtensionCommand<P>, v: CallResult<P>) -> Option<
    ExtensionCommandResponse<P>,
> {
    match c {
        ExtensionCommand::GetProviderScopes(_) => match v {
            CallResult::Value(x) => Some(ExtensionCommandResponse::GetProviderScopes(x)),
            _ => None,
        },
        ExtensionCommand::GetExtensionContextMenu(_) => match v {
            CallResult::Value(x) => Some(ExtensionCommandResponse::GetExtensionContextMenu(x)),
            _ => None,
        },
        ExtensionCommand::GetAccounts(_) => match v {
            CallResult::Accounts(a) => Some(ExtensionCommandResponse::GetAccounts(a)),
            _ => None,
        },
        ExtensionCommand::PerformAccountLogin(_) => Some(
            ExtensionCommandResponse::PerformAccountLogin,
        ),
        ExtensionCommand::ExtraExtensionEvent(a) => if a.event.returns_value() {
            match v {
                CallResult::Value(x) => Some(
                    ExtensionCommandResponse::ExtraExtensionEvent(a.event, Some(x)),
                ),
                _ => None,
            }
        } else {
            Some(ExtensionCommandResponse::ExtraExtensionEvent(a.event, None))
        },
    }
}

/// Stamps every account record of a response with the package that
/// answered; any other response is left as it is.
pub fn sanitize_response<P>(response: &mut ExtensionCommandResponse<P>, package_name: &String)
    ensures
        match *old(response) {
            ExtensionCommandResponse::GetAccounts(a) => match *final(response) {
                ExtensionCommandResponse::GetAccounts(b) => b@.len() == a@.len() && forall|i: int|
                    0 <= i < b@.len() ==> (#[trigger] b@[i]).package_name@ == package_name@
                        && b@[i].details == a@[i].details,
                _ => false,
            },
            _ => *final(response) == *old(response),
        },
{
    match response {
        ExtensionCommandResponse::GetAccounts(accounts) => {
            let ghost before = accounts@;
            let mut i: usize = 0;
            while i < accounts.len()
                invariant
                    i <= accounts@.len(),
                    accounts@.len() == before.len(),
                    forall|j: int|
                        0 <= j < i ==> (#[trigger] accounts@[j]).package_name@ == package_name@
                            && accounts@[j].details == before[j].details,
                    forall|j: int| i <= j < accounts@.len() ==> #[trigger] accounts@[j] == before[j],
                decreases accounts@.len() - i,
            {
                accounts[i].package_name = package_name.clone();
                i = i + 1;
            }
        },
        _ => {},
    }
}

} // verus!
