//! The bridge from a sandboxed module to the main process: each command a
//! module sends becomes a request with a freshly minted channel id, and the
//! caller's reply sink is registered under that id until the reply arrives.

use vstd::prelude::*;
use crate::replies::ReplyTable;

verus! {

/// The commands a sandboxed module can send to the main process; payloads
/// are of any type `P` and are passed on as they are.
pub enum MainCommand<P> {
    GetSong(P),
    GetEntity(P),
    GetCurrentSong,
    GetPlayerState,
    GetVolume,
    GetTime,
    GetQueue,
    GetPreference(P),
    SetPreference(P),
    GetSecure(P),
    SetSecure(P),
    AddSongs(P),
    RemoveSong(P),
    UpdateSong(P),
    AddPlaylist(P),
    AddToPlaylist(P),
    RegisterOAuth(String),
    OpenExternalUrl(String),
    UpdateAccounts,
}

/// The data a request to the main process carries.
pub enum RequestData<P> {
    Null,
    Text(String),
    Payload(P),
}

/// A request to the main process, sent on behalf of one extension.
pub struct ExtensionUIRequest<P> {
    pub type_: String,
    pub channel: String,
    pub data: RequestData<P>,
    pub extension_name: String,
}

impl<P> MainCommand<P> {
    /// The request type that names the command on the wire.
    pub open spec fn type_spec(&self) -> Seq<char> {
        match self {
            MainCommand::GetSong(_) => "getSongs"@,
            MainCommand::GetEntity(_) => "getEntity"@,
            MainCommand::GetCurrentSong => "getCurrentSong"@,
            MainCommand::GetPlayerState => "getPlayerState"@,
            MainCommand::GetVolume => "getVolume"@,
            MainCommand::GetTime => "getTime"@,
            MainCommand::GetQueue => "getQueue"@,
            MainCommand::GetPreference(_) => "getPreferences"@,
            MainCommand::SetPreference(_) => "setPreferences"@,
            MainCommand::GetSecure(_) => "getSecurePreferences"@,
            MainCommand::SetSecure(_) => "setSecurePreferences"@,
            MainCommand::AddSongs(_) => "addSong"@,
            MainCommand::RemoveSong(_) => "removeSong"@,
            MainCommand::UpdateSong(_) => "updateSong"@,
            MainCommand::AddPlaylist(_) => "addPlaylist"@,
            MainCommand::AddToPlaylist(_) => "addToPlaylist"@,
            MainCommand::RegisterOAuth(_) => "registerOauth"@,
            MainCommand::OpenExternalUrl(_) => "openExternal"@,
            MainCommand::UpdateAccounts => "updateAccounts"@,
        }
    }

    /// The data the request carries.
    pub open spec fn data_spec(self) -> RequestData<P> {
        match self {
            MainCommand::GetSong(p) => RequestData::Payload(p),
            MainCommand::GetEntity(p) => RequestData::Payload(p),
            MainCommand::GetPreference(p) => RequestData::Payload(p),
            MainCommand::SetPreference(p) => RequestData::Payload(p),
            MainCommand::GetSecure(p) => RequestData::Payload(p),
            MainCommand::SetSecure(p) => RequestData::Payload(p),
            MainCommand::AddSongs(p) => RequestData::Payload(p),
            MainCommand::RemoveSong(p) => RequestData::Payload(p),
            MainCommand::UpdateSong(p) => RequestData::Payload(p),
            MainCommand::AddPlaylist(p) => RequestData::Payload(p),
            MainCommand::AddToPlaylist(p) => RequestData::Payload(p),
            MainCommand::RegisterOAuth(s) => RequestData::Text(s),
            MainCommand::OpenExternalUrl(s) => RequestData::Text(s),
            _ => RequestData::Null,
        }
    }

    /// The request type that names the command on the wire.
    pub fn request_type(&self) -> (r: &'static str)
        ensures
            r@ == self.type_spec(),
    {
        match self {
            MainCommand::GetSong(_) => "getSongs",
            MainCommand::GetEntity(_) => "getEntity",
            MainCommand::GetCurrentSong => "getCurrentSong",
            MainCommand::GetPlayerState => "getPlayerState",
            MainCommand::GetVolume => "getVolume",
            MainCommand::GetTime => "getTime",
            MainCommand::GetQueue => "getQueue",
            MainCommand::GetPreference(_) => "getPreferences",
            MainCommand::SetPreference(_) => "setPreferences",
            MainCommand::GetSecure(_) => "getSecurePreferences",
            MainCommand::SetSecure(_) => "setSecurePreferences",
            MainCommand::AddSongs(_) => "addSong",
            MainCommand::RemoveSong(_) => "removeSong",
            MainCommand::UpdateSong(_) => "updateSong",
            MainCommand::AddPlaylist(_) => "addPlaylist",
            MainCommand::AddToPlaylist(_) => "addToPlaylist",
            MainCommand::RegisterOAuth(_) => "registerOauth",
            MainCommand::OpenExternalUrl(_) => "openExternal",
            MainCommand::UpdateAccounts => "updateAccounts",
        }
    }

    /// The request for this command on a given channel.
    pub fn to_request_on(self, extension_name: String, channel: String) -> (r: ExtensionUIRequest<P>)
        ensures
            r.type_@ == self.type_spec(),
            r.channel == channel,
            r.data == self.data_spec(),
            r.extension_name == extension_name,
    {
        let t = self.request_type();
        let data = match self {
            MainCommand::GetSong(p) => RequestData::Payload(p),
            MainCommand::GetEntity(p) => RequestData::Payload(p),
            MainCommand::GetPreference(p) => RequestData::Payload(p),
            MainCommand::SetPreference(p) => RequestData::Payload(p),
            MainCommand::GetSecure(p) => RequestData::Payload(p),
            MainCommand::SetSecure(p) => RequestData::Payload(p),
            MainCommand::AddSongs(p) => RequestData::Payload(p),
            MainCommand::RemoveSong(p) => RequestData::Payload(p),
            MainCommand::UpdateSong(p) => RequestData::Payload(p),
            MainCommand::AddPlaylist(p) => RequestData::Payload(p),
            MainCommand::AddToPlaylist(p) => RequestData::Payload(p),
            MainCommand::RegisterOAuth(s) => RequestData::Text(s),
            MainCommand::OpenExternalUrl(s) => RequestData::Text(s),
            _ => RequestData::Null,
        };
        ExtensionUIRequest { type_: t.to_string(), channel, data, extension_name }
    }

    /// The request for this command, on a freshly minted channel id.
    pub fn to_request(self, extension_name: String) -> (r: ExtensionUIRequest<P>)
        ensures
            r.type_@ == self.type_spec(),
            is_hyphenated_id(r.channel@),
            r.data == self.data_spec(),
            r.extension_name == extension_name,
    {
        let channel = new_channel_id();
        self.to_request_on(extension_name, channel)
    }
}

/// A lowercase hexadecimal digit.
pub open spec fn is_lower_hex(c: char) -> bool {
    ('0' <= c && c <= '9') || ('a' <= c && c <= 'f')
}

/// The hyphenated form of a UUID: 36 characters, hyphens at positions 8,
/// 13, 18 and 23, lowercase hexadecimal digits everywhere else.
pub open spec fn is_hyphenated_id(s: Seq<char>) -> bool {
    &&& s.len() == 36
    &&& forall|i: int|
        0 <= i < 36 ==> if i == 8 || i == 13 || i == 18 || i == 23 {
            s[i] == '-'
        } else {
            is_lower_hex(#[trigger] s[i])
        }
}

/// Relies on `uuid::Uuid::new_v4` for a random id, and on its `Display`
/// impl, which writes the lowercase hyphenated form. `new_v4` panics only
/// when the operating system cannot supply random bytes.
#[verifier::external_body]
fn new_channel_id() -> (r: String)
    ensures
        is_hyphenated_id(r@),
{
    uuid::Uuid::new_v4().to_string()
}

/// Starts a bridge call: builds the request for `command` on a fresh
/// channel and registers `sink` under that channel, where the reply will be
/// delivered. The request is then sent to the main process and the caller
/// waits on its sink.
pub fn begin_call<P, S>(
    table: &mut ReplyTable<S>,
    command: MainCommand<P>,
    extension_name: String,
    sink: S,
) -> (r: ExtensionUIRequest<P>)
    requires
        old(table).wf(),
    ensures
        final(table).wf(),
        final(table).view() == old(table).view().insert(r.channel@, sink),
        r.type_@ == command.type_spec(),
        is_hyphenated_id(r.channel@),
        r.data == command.data_spec(),
        r.extension_name == extension_name,
{
    let request = command.to_request(extension_name);
    table.insert(request.channel.clone(), sink);
    request
}

/// A call waiting on channel `c` is answered by the reply on `c` and by no
/// other: a reply on any other channel leaves its entry in place, and the
/// reply on `c` hands back its own sink.
pub proof fn lemma_call_resolves_on_its_channel<S>(
    table: Map<Seq<char>, S>,
    c: Seq<char>,
    sink: S,
    other: Seq<char>,
)
    requires
        other != c,
    ensures
        table.insert(c, sink).contains_key(c),
        table.insert(c, sink)[c] == sink,
        table.insert(c, sink).remove(other).contains_key(c),
        table.insert(c, sink).remove(other)[c] == sink,
        !table.insert(c, sink).remove(c).contains_key(c),
{
}

} // verus!
