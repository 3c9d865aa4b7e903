use extension_host::bridge::{begin_call, MainCommand, RequestData};
use extension_host::commands::{
    sanitize_response, Account, CallResult, CommandData, ExtensionCommand,
    ExtensionCommandResponse, ExtraEvent, ResultKind, RunnerCommand,
};
use extension_host::registry::{Candidate, Extension, ExtensionManifest, Registry};
use extension_host::replies::ReplyTable;
use extension_host::router::{
    call_reply, empty_reply, plan_dispatch, route, run_runner_command, shape_reply, ReplyBody,
    Route, RunnerOutcome, RunnerReply,
};

fn registry_of(names: &[&str]) -> Registry<u32> {
    let mut reg = Registry::new();
    for (k, n) in names.iter().enumerate() {
        let m = ExtensionManifest {
            moosync_extension: true,
            display_name: format!("{} name", n),
            extension_entry: format!("/ext/{}/ext.wasm", n),
            author: None,
            name: n.to_string(),
            version: "0.1.0".to_string(),
            icon: format!("/ext/{}/icon.png", n),
            permissions: None,
        };
        assert!(reg.register(Extension::from_manifest(m, k as u32)));
    }
    reg
}

fn pkg(p: &str) -> CommandData<String> {
    pkg_of(p)
}

fn pkg_of<P>(p: &str) -> CommandData<P> {
    CommandData { package_name: Some(p.to_string()), event_tag: None, event_argument: None, payload: None }
}

fn event(p: &str, tag: &str, arg: Option<&str>) -> CommandData<String> {
    CommandData {
        package_name: Some(p.to_string()),
        event_tag: Some(tag.to_string()),
        event_argument: arg.map(|a| a.to_string()),
        payload: None,
    }
}

fn none() -> CommandData<String> {
    none_of()
}

fn none_of<P>() -> CommandData<P> {
    CommandData { package_name: None, event_tag: None, event_argument: None, payload: None }
}

// ---- scenarios ----

#[test]
fn installed_extensions_list_the_one_manifest() {
    let mut reg: Registry<u32> = Registry::new();
    let manifest = ExtensionManifest {
        moosync_extension: true,
        display_name: "Sample".to_string(),
        extension_entry: "ext.wasm".to_string(),
        author: None,
        name: "sample.ext".to_string(),
        version: "1.0.0".to_string(),
        icon: "icon.svg".to_string(),
        permissions: None,
    }
    .resolve_entry("/extensions/sample");
    let accepted = reg.select_manifests(vec![Candidate { manifest, entry_exists: true }]);
    assert_eq!(accepted.len(), 1);
    for m in accepted {
        assert!(reg.register(Extension::from_manifest(m, 0)));
    }
    let mut table: ReplyTable<u32> = ReplyTable::new();
    let r = route(&mut table, &"12345".to_string(), "getInstalledExtensions", none());
    let cmd = match r {
        Route::Runner(c) => c,
        _ => panic!("expected a lifecycle verb"),
    };
    match run_runner_command(&mut reg, cmd) {
        RunnerOutcome::Reply(RunnerReply::Extensions(d)) => {
            assert_eq!(d.len(), 1);
            assert_eq!(d[0].package_name, "sample.ext");
        }
        _ => panic!("expected the extension list"),
    }
}

#[test]
fn get_accounts_reply_is_keyed_and_stamped() {
    let reg = registry_of(&["sample.ext"]);
    let mut table: ReplyTable<u32> = ReplyTable::new();
    let channel = "2".to_string();
    let cmd = match route(&mut table, &channel, "getAccounts", pkg("sample.ext")) {
        Route::Extension(c) => c,
        _ => panic!("expected a forwarded command"),
    };
    assert_eq!(cmd.result_kind(), ResultKind::Accounts);
    let plan = plan_dispatch(&reg, cmd.target());
    assert!(!plan.acknowledge_first);
    assert!(plan.reply_each);
    assert_eq!(plan.targets, vec![0]);
    let ext = reg.get(plan.targets[0]);
    let accounts = vec![
        Account { package_name: "something else".to_string(), details: "acc-1".to_string() },
        Account { package_name: String::new(), details: "acc-2".to_string() },
    ];
    let reply = call_reply(&cmd, &channel, &ext.package_name, Some(CallResult::Accounts(accounts)));
    let shaped = shape_reply(reply);
    assert_eq!(shaped.channel, "2");
    match shaped.body {
        ReplyBody::Keyed(name, ExtensionCommandResponse::GetAccounts(a)) => {
            assert_eq!(name, "sample.ext");
            assert_eq!(a.len(), 2);
            assert!(a.iter().all(|x| x.package_name == "sample.ext"));
            assert_eq!(a[0].details, "acc-1");
            assert_eq!(a[1].details, "acc-2");
        }
        _ => panic!("expected accounts keyed by package"),
    }
}

#[test]
fn broadcast_to_two_is_acknowledged_at_once() {
    let reg = registry_of(&["first.ext", "second.ext"]);
    let mut table: ReplyTable<u32> = ReplyTable::new();
    let channel = "77".to_string();
    let cmd = match route(&mut table, &channel, "extraExtensionEvents", event("", "songAdded", Some("{}"))) {
        Route::Extension(c) => c,
        _ => panic!("expected a forwarded command"),
    };
    let plan = plan_dispatch(&reg, cmd.target());
    assert!(plan.acknowledge_first);
    assert!(!plan.reply_each);
    assert_eq!(plan.targets, vec![0, 1]);
    let ack = shape_reply(empty_reply::<String>(&channel));
    assert_eq!(ack.channel, "77");
    assert!(matches!(ack.body, ReplyBody::Bare(ExtensionCommandResponse::Empty)));
}

#[test]
fn bridge_call_unblocks_on_its_own_channel() {
    let mut table: ReplyTable<&'static str> = ReplyTable::new();
    let req = begin_call(&mut table, MainCommand::<String>::GetCurrentSong, "sample.ext".to_string(), "waiter");
    assert_eq!(req.type_, "getCurrentSong");
    assert_eq!(req.extension_name, "sample.ext");
    assert_eq!(req.channel.len(), 36);
    assert!(matches!(req.data, RequestData::Null));
    assert!(table.contains(&req.channel));
    // a reply on another channel does not reach the waiting call
    let other = route(&mut table, &"not-it".to_string(), "getCurrentSong", none());
    assert!(matches!(other, Route::Unknown));
    assert_eq!(table.len(), 1);
    // the reply on its channel does, exactly once
    match route(&mut table, &req.channel, "getCurrentSong", none()) {
        Route::Reply(s) => assert_eq!(s, "waiter"),
        _ => panic!("expected the waiting call"),
    }
    assert_eq!(table.len(), 0);
    assert!(matches!(route(&mut table, &req.channel, "getCurrentSong", none()), Route::Unknown));
}

// ---- correlation ----

#[test]
fn replies_resolve_in_any_order() {
    let mut table: ReplyTable<u32> = ReplyTable::new();
    let a = MainCommand::GetSong("q".to_string()).to_request("e".to_string());
    let b = MainCommand::<String>::GetVolume.to_request("e".to_string());
    assert_ne!(a.channel, b.channel);
    table.insert(a.channel.clone(), 1);
    table.insert(b.channel.clone(), 2);
    assert_eq!(table.take(&b.channel), Some(2));
    assert_eq!(table.take(&a.channel), Some(1));
    assert_eq!(table.take(&a.channel), None);
    table.insert("c".to_string(), 5);
    table.insert("c".to_string(), 6);
    assert_eq!(table.len(), 1);
    assert_eq!(table.take(&"c".to_string()), Some(6));
}

#[test]
fn reply_check_comes_before_lifecycle_verbs() {
    let mut table: ReplyTable<u32> = ReplyTable::new();
    table.insert("9".to_string(), 3);
    assert!(matches!(route(&mut table, &"9".to_string(), "stopProcess", none()), Route::Reply(3)));
    assert!(matches!(route(&mut table, &"9".to_string(), "stopProcess", none()), Route::Runner(RunnerCommand::StopProcess)));
}

// ---- commands ----

#[test]
fn lifecycle_verbs_parse() {
    assert!(matches!(RunnerCommand::parse("findNewExtensions", None), Some(RunnerCommand::FindNewExtensions)));
    assert!(matches!(RunnerCommand::parse("getInstalledExtensions", None), Some(RunnerCommand::GetInstalledExtensions)));
    assert!(matches!(RunnerCommand::parse("stopProcess", None), Some(RunnerCommand::StopProcess)));
    match RunnerCommand::parse("getExtensionIcon", Some("a".to_string())) {
        Some(RunnerCommand::GetExtensionIcon(Some(p))) => assert_eq!(p.package_name, "a"),
        _ => panic!(),
    }
    assert!(matches!(RunnerCommand::parse("toggleExtensionStatus", Some("a".to_string())), Some(RunnerCommand::ToggleExtensionStatus(_))));
    assert!(matches!(RunnerCommand::parse("removeExtension", Some("a".to_string())), Some(RunnerCommand::RemoveExtension(_))));
    assert!(matches!(RunnerCommand::parse("getDisplayName", Some("a".to_string())), Some(RunnerCommand::GetDisplayName(_))));
    assert!(matches!(RunnerCommand::parse("getDisplayName", None), Some(RunnerCommand::GetDisplayName(None))));
    assert!(matches!(RunnerCommand::parse("toggleExtensionStatus", None), Some(RunnerCommand::ToggleExtensionStatus(None))));
    assert!(RunnerCommand::parse("getdisplayname", Some("a".to_string())).is_none());
    assert!(RunnerCommand::parse("getAccounts", Some("a".to_string())).is_none());
}

#[test]
fn extension_commands_parse_into_calls() {
    let (p, f, a) = ExtensionCommand::parse("getAccounts", pkg("x")).unwrap().to_plugin_call();
    assert_eq!((p.as_str(), f, a), ("x", "get_accounts_wrapper", None));
    let (_, f, _) = ExtensionCommand::parse("getExtensionProviderScopes", pkg("x")).unwrap().to_plugin_call();
    assert_eq!(f, "get_provider_scopes_wrapper");
    let (_, f, _) = ExtensionCommand::parse("getExtensionContextMenu", pkg("x")).unwrap().to_plugin_call();
    assert_eq!(f, "get_context_menu_wrapper");
    let login = CommandData { package_name: Some("x".to_string()), event_tag: None, event_argument: None, payload: Some("{\"packageName\":\"x\"}".to_string()) };
    let (_, f, a) = ExtensionCommand::parse("performAccountLogin", login).unwrap().to_plugin_call();
    assert_eq!(f, "perform_account_login_wrapper");
    assert_eq!(a, Some("{\"packageName\":\"x\"}".to_string()));
    assert!(ExtensionCommand::parse("performAccountLogin", pkg("x")).is_none());
    let (_, f, a) = ExtensionCommand::parse("extraExtensionEvents", event("x", "seeked", Some("69.1234"))).unwrap().to_plugin_call();
    assert_eq!((f, a), ("on_seeked_wrapper", Some("69.1234".to_string())));
    let (_, f, a) = ExtensionCommand::parse("extraExtensionEvents", event("x", "volumeChanged", Some("69.5"))).unwrap().to_plugin_call();
    assert_eq!((f, a), ("on_volume_changed_wrapper", None));
    let (_, f, _) = ExtensionCommand::parse("extraExtensionEvents", event("x", "requestedPlaylists", None)).unwrap().to_plugin_call();
    assert_eq!(f, "get_playlists_wrapper");
    assert!(ExtensionCommand::parse("extraExtensionEvents", event("x", "songAdded", None)).is_none());
    assert!(ExtensionCommand::parse("extraExtensionEvents", event("x", "requestedLyrics", Some("s"))).is_none());
    assert!(ExtensionCommand::parse("extraExtensionEvents", event("x", "noSuchEvent", Some("s"))).is_none());
    assert!(ExtensionCommand::parse("getAccounts", none()).is_none());
    assert!(ExtensionCommand::parse("whatever", pkg("x")).is_none());
}

#[test]
fn event_tags_map_to_events() {
    assert_eq!(ExtraEvent::from_tag("oauthCallback"), Some(ExtraEvent::OauthCallback));
    assert_eq!(ExtraEvent::from_tag("requestedSongFromURL"), Some(ExtraEvent::RequestedSongFromURL));
    assert_eq!(ExtraEvent::from_tag("scrobble"), Some(ExtraEvent::Scrobble));
    assert_eq!(ExtraEvent::from_tag("Scrobble"), None);
    assert_eq!(ExtraEvent::SongAdded.function_name(), "on_song_added_wrapper");
    assert_eq!(ExtraEvent::RequestedSongFromId.function_name(), "get_song_from_id_wrapper");
    assert!(ExtraEvent::SongAdded.has_argument());
    assert!(!ExtraEvent::RequestedRecommendations.has_argument());
    assert!(!ExtraEvent::PlaylistRemoved.has_result());
    assert!(ExtraEvent::RequestedSearchResult.has_result());
}

#[test]
fn responses_follow_the_command_kind() {
    let scopes = ExtensionCommand::parse("getExtensionProviderScopes", pkg("x")).unwrap();
    assert!(matches!(scopes.parse_response(CallResult::Value("[]".to_string())), Some(ExtensionCommandResponse::GetProviderScopes(_))));
    assert!(scopes.parse_response(CallResult::Unit).is_none());
    let accounts = ExtensionCommand::<String>::parse("getAccounts", pkg("x")).unwrap();
    assert!(accounts.parse_response(CallResult::Value("nope".to_string())).is_none());
    let unit = ExtensionCommand::parse("extraExtensionEvents", event("x", "oauthCallback", Some("This is a code"))).unwrap();
    assert!(matches!(unit.parse_response(CallResult::Value("ignored".to_string())), Some(ExtensionCommandResponse::ExtraExtensionEvent(ExtraEvent::OauthCallback, None))));
    let search = ExtensionCommand::parse("extraExtensionEvents", event("x", "requestedSearchResult", Some("hello"))).unwrap();
    match search.parse_response(CallResult::Value("found".to_string())) {
        Some(ExtensionCommandResponse::ExtraExtensionEvent(ExtraEvent::RequestedSearchResult, Some(v))) => assert_eq!(v, "found"),
        _ => panic!(),
    }
    assert!(search.parse_response(CallResult::Unit).is_none());
}

#[test]
fn sanitize_touches_accounts_only() {
    let mut r: ExtensionCommandResponse<u8> = ExtensionCommandResponse::GetAccounts(vec![Account { package_name: "x".to_string(), details: 1 }]);
    sanitize_response(&mut r, &"mine".to_string());
    match r {
        ExtensionCommandResponse::GetAccounts(a) => {
            assert_eq!(a[0].package_name, "mine");
            assert_eq!(a[0].details, 1);
        }
        _ => panic!(),
    }
    let mut s: ExtensionCommandResponse<u8> = ExtensionCommandResponse::GetProviderScopes(4);
    sanitize_response(&mut s, &"mine".to_string());
    assert!(matches!(s, ExtensionCommandResponse::GetProviderScopes(4)));
}

// ---- dispatch and replies ----

#[test]
fn single_target_gets_exactly_one_reply() {
    let reg = registry_of(&["a.ext", "b.ext"]);
    let plan = plan_dispatch(&reg, &"b.ext".to_string());
    assert!(!plan.acknowledge_first);
    assert!(plan.reply_each);
    assert_eq!(plan.targets, vec![1]);
    let cmd = ExtensionCommand::<String>::parse("getAccounts", pkg("b.ext")).unwrap();
    let failed = call_reply(&cmd, &"5".to_string(), &reg.get(1).package_name, None);
    assert_eq!(failed.channel, "5");
    assert_eq!(failed.package_name, "b.ext");
    assert!(matches!(failed.response, ExtensionCommandResponse::Empty));
    let unreadable = call_reply(&cmd, &"5".to_string(), &reg.get(1).package_name, Some(CallResult::Unit));
    assert!(matches!(unreadable.response, ExtensionCommandResponse::Empty));
}

#[test]
fn missing_target_gets_no_call() {
    let reg = registry_of(&["a.ext"]);
    let plan = plan_dispatch(&reg, &"zzz".to_string());
    assert!(plan.targets.is_empty());
    assert!(!plan.acknowledge_first);
    assert!(!plan.reply_each);
    let empty: Registry<u32> = Registry::new();
    assert!(plan_dispatch(&empty, &String::new()).targets.is_empty());
}

#[test]
fn broadcast_to_one_is_answered_by_it() {
    let reg = registry_of(&["only.ext"]);
    let plan = plan_dispatch(&reg, &String::new());
    assert!(plan.reply_each);
    assert!(!plan.acknowledge_first);
    assert_eq!(plan.targets, vec![0]);
}

#[test]
fn replies_are_bare_or_keyed() {
    let bare = shape_reply(empty_reply::<u8>(&"1".to_string()));
    assert!(matches!(bare.body, ReplyBody::Bare(ExtensionCommandResponse::Empty)));
    let cmd = ExtensionCommand::<u8>::parse("getExtensionProviderScopes", pkg_of("p")).unwrap();
    let keyed = shape_reply(call_reply(&cmd, &"3".to_string(), &"p".to_string(), Some(CallResult::Value(9))));
    assert_eq!(keyed.channel, "3");
    match keyed.body {
        ReplyBody::Keyed(k, ExtensionCommandResponse::GetProviderScopes(v)) => {
            assert_eq!(k, "p");
            assert_eq!(v, 9);
        }
        _ => panic!(),
    }
}

#[test]
fn unknown_envelopes_fall_through() {
    let mut table: ReplyTable<u32> = ReplyTable::new();
    assert!(matches!(route(&mut table, &"1".to_string(), "noSuchThing", pkg("x")), Route::Unknown));
    assert!(matches!(route(&mut table, &"1".to_string(), "getAccounts", none()), Route::Unknown));
}

#[test]
fn lifecycle_verbs_act_on_the_registry() {
    let mut reg = registry_of(&["a.ext", "b.ext"]);
    let icon = RunnerCommand::parse("getExtensionIcon", Some("b.ext".to_string())).unwrap();
    assert!(matches!(run_runner_command(&mut reg, icon), RunnerOutcome::Reply(RunnerReply::Text(t)) if t == "/ext/b.ext/icon.png"));
    let first = RunnerCommand::parse("getDisplayName", Some(String::new())).unwrap();
    assert!(matches!(run_runner_command(&mut reg, first), RunnerOutcome::Reply(RunnerReply::Text(t)) if t == "a.ext name"));
    let missing = RunnerCommand::parse("getDisplayName", Some("zzz".to_string())).unwrap();
    assert!(matches!(run_runner_command(&mut reg, missing), RunnerOutcome::Reply(RunnerReply::Null)));
    let toggle = RunnerCommand::parse("toggleExtensionStatus", Some("a.ext".to_string())).unwrap();
    assert!(matches!(run_runner_command(&mut reg, toggle), RunnerOutcome::Unimplemented));
    assert!(matches!(run_runner_command(&mut reg, RunnerCommand::StopProcess), RunnerOutcome::Stop));
    assert!(matches!(run_runner_command(&mut reg, RunnerCommand::FindNewExtensions), RunnerOutcome::Discover));
    let remove = RunnerCommand::parse("removeExtension", Some("a.ext".to_string())).unwrap();
    assert!(matches!(run_runner_command(&mut reg, remove), RunnerOutcome::Reply(RunnerReply::Null)));
    assert_eq!(reg.len(), 1);
    assert_eq!(reg.get(0).package_name, "b.ext");
}

// ---- bridge ----

#[test]
fn main_commands_name_their_requests() {
    let r = MainCommand::RegisterOAuth::<u8>("https://x".to_string()).to_request_on("e".to_string(), "c".to_string());
    assert_eq!(r.type_, "registerOauth");
    assert_eq!(r.channel, "c");
    assert!(matches!(r.data, RequestData::Text(ref s) if s == "https://x"));
    let r = MainCommand::AddSongs(5u8).to_request_on("e".to_string(), "c".to_string());
    assert_eq!(r.type_, "addSong");
    assert!(matches!(r.data, RequestData::Payload(5)));
    assert_eq!(MainCommand::<u8>::GetSecure(1).request_type(), "getSecurePreferences");
    assert_eq!(MainCommand::<u8>::OpenExternalUrl(String::new()).request_type(), "openExternal");
    assert_eq!(MainCommand::<u8>::UpdateAccounts.request_type(), "updateAccounts");
    let a = MainCommand::<u8>::GetTime.to_request("e".to_string());
    let b = MainCommand::<u8>::GetTime.to_request("e".to_string());
    assert_eq!(a.type_, "getTime");
    assert_eq!(a.channel.len(), 36);
    for (i, c) in a.channel.chars().enumerate() {
        if [8, 13, 18, 23].contains(&i) {
            assert_eq!(c, '-');
        } else {
            assert!(c.is_ascii_digit() || ('a'..='f').contains(&c));
        }
    }
    assert_ne!(a.channel, b.channel);
}

#[test]
fn verbs_without_a_package_are_still_lifecycle_verbs() {
    let mut table: ReplyTable<u32> = ReplyTable::new();
    let mut reg = registry_of(&["a.ext"]);
    for verb in ["getExtensionIcon", "toggleExtensionStatus", "removeExtension", "getDisplayName"] {
        assert!(matches!(route(&mut table, &"4".to_string(), verb, none()), Route::Runner(_)));
    }
    let toggle = match route(&mut table, &"4".to_string(), "toggleExtensionStatus", none()) {
        Route::Runner(c) => c,
        _ => panic!(),
    };
    assert!(matches!(run_runner_command(&mut reg, toggle), RunnerOutcome::Unimplemented));
    let remove = RunnerCommand::parse("removeExtension", None).unwrap();
    assert!(matches!(run_runner_command(&mut reg, remove), RunnerOutcome::Reply(RunnerReply::Null)));
    assert_eq!(reg.len(), 1);
    let icon = RunnerCommand::parse("getExtensionIcon", None).unwrap();
    assert!(matches!(run_runner_command(&mut reg, icon), RunnerOutcome::Reply(RunnerReply::Null)));
    let name = RunnerCommand::parse("getDisplayName", None).unwrap();
    assert!(matches!(run_runner_command(&mut reg, name), RunnerOutcome::Reply(RunnerReply::Null)));
}

#[test]
fn removing_an_absent_name_changes_nothing() {
    let mut reg = registry_of(&["a.ext", "b.ext"]);
    let remove = RunnerCommand::parse("removeExtension", Some("zzz".to_string())).unwrap();
    assert!(matches!(run_runner_command(&mut reg, remove), RunnerOutcome::Reply(RunnerReply::Null)));
    assert_eq!(reg.len(), 2);
    assert_eq!(reg.get(0).package_name, "a.ext");
    assert_eq!(reg.get(1).package_name, "b.ext");
}
