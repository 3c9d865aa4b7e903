//! The command router: classifies each inbound envelope (reply, lifecycle
//! verb, forwarded command, or unknown, in that order), plans how a
//! forwarded command fans out over the live extensions, builds the replies,
//! and shapes them for the main process.

use vstd::prelude::*;
use crate::commands::{
    opt_view, response_spec, runner_spec, sanitize_response, CallResult, CommandData,
    ExtensionCommand, ExtensionCommandResponse, PackageNameArgs, RunnerCommand,
};
use crate::registry::{detail_of, has_name, targets_of, Extension, ExtensionDetail, Registry};
use crate::replies::ReplyTable;

verus! {

/// Where an inbound envelope goes.
pub enum Route<P, S> {
    /// It answers a bridge call: the sink of that call, now removed from the
    /// correlation table.
    Reply(S),
    /// A lifecycle verb for the host itself.
    Runner(RunnerCommand),
    /// A command to forward into extensions.
    Extension(ExtensionCommand<P>),
    /// None of these: it is answered with an empty acknowledgement.
    Unknown,
}

/// Classifies an envelope, in strict priority order: a live correlation
/// entry for its channel, then a lifecycle verb, then a command to forward.
/// Only the first case touches the table, removing that one entry.
pub fn route<P, S>(
    table: &mut ReplyTable<S>,
    channel: &String,
    kind: &str,
    data: CommandData<P>,
) -> (r: Route<P, S>)
    requires
        old(table).wf(),
    ensures
        final(table).wf(),
        old(table).view().contains_key(channel@) ==> r == Route::<P, S>::Reply(
            old(table).view()[channel@],
        ) && final(table).view() == old(table).view().remove(channel@),
        !old(table).view().contains_key(channel@) ==> *final(table) == *old(table) && match r {
            Route::Reply(_) => false,
            Route::Runner(c) => runner_spec(kind@, opt_view(data.package_name)) == Some(c.spec_of()),
            Route::Extension(c) => runner_spec(kind@, opt_view(data.package_name)) is None
                && crate::commands::extension_command_spec(kind@, data) == Some(c),
            Route::Unknown => runner_spec(kind@, opt_view(data.package_name)) is None
                && crate::commands::extension_command_spec(kind@, data) is None,
        },
{
    if table.contains(channel) {
        return match table.take(channel) {
            Some(s) => Route::Reply(s),
            None => Route::Unknown,
        };
    }
    let pkg = match &data.package_name {
        Some(p) => Some(p.clone()),
        None => None,
    };
    if let Some(c) = RunnerCommand::parse(kind, pkg) {
        return Route::Runner(c);
    }
    match ExtensionCommand::parse(kind, data) {
        Some(c) => Route::Extension(c),
        None => Route::Unknown,
    }
}

/// A reply from the extension side, before it is shaped for the wire.
pub struct ExtReply<P> {
    pub channel: String,
    /// The package that answered; empty when the reply speaks for none.
    pub package_name: String,
    pub response: ExtensionCommandResponse<P>,
}

/// The empty acknowledgement on a channel, speaking for no package.
pub fn empty_reply<P>(channel: &String) -> (r: ExtReply<P>)
    ensures
        r.channel@ == channel@,
        r.package_name@ == Seq::<char>::empty(),
        r.response is Empty,
{
    ExtReply { channel: channel.clone(), package_name: String::new(), response: ExtensionCommandResponse::Empty }
}

/// How a forwarded command fans out.
pub struct DispatchPlan {
    /// Emit an empty acknowledgement at once, before any call completes.
    pub acknowledge_first: bool,
    /// Positions in the registry of the extensions to call.
    pub targets: Vec<usize>,
    /// Whether each call's result is sent back as a reply.
    pub reply_each: bool,
}

/// What a dispatch plan for `package` over the live extensions `live` is:
/// the targets are exactly the reached positions, in order; an
/// acknowledgement comes first exactly when several are reached; each call
/// is answered exactly when one is.
pub open spec fn plan_ok<H>(live: Seq<Extension<H>>, package: Seq<char>, plan: DispatchPlan) -> bool {
    &&& forall|i: int|
        targets_of(live, package).contains(i) <==> exists|k: int|
            0 <= k < plan.targets@.len() && plan.targets@[k] == i
    &&& forall|k: int| 0 <= k < plan.targets@.len() ==> (#[trigger] plan.targets@[k]) < live.len()
    &&& forall|k: int, l: int| 0 <= k < l < plan.targets@.len() ==> plan.targets@[k] < plan.targets@[l]
    &&& plan.acknowledge_first == (plan.targets@.len() > 1)
    &&& plan.reply_each == (plan.targets@.len() == 1)
    &&& package.len() > 0 && !has_name(live, package) ==> plan.targets@.len() == 0
    &&& package.len() == 0 ==> plan.targets@.len() == live.len()
}

/// Single-target dispatch is exactly-once: a command addressed by name to a
/// live extension is planned as one call to that extension, with no
/// acknowledgement ahead of it, and its one reply is the call's own, tagged
/// with that extension's package name, whatever the call yields.
pub proof fn lemma_single_target_exactly_once<H, P>(
    registry: Registry<H>,
    package: Seq<char>,
    plan: DispatchPlan,
    command: ExtensionCommand<P>,
    channel: String,
    outcome: Option<CallResult<P>>,
    reply: ExtReply<P>,
)
    requires
        registry.wf(),
        package.len() > 0,
        has_name(registry.view(), package),
        plan_ok(registry.view(), package, plan),
        call_reply_ok(command, channel, registry.view()[plan.targets@[0] as int].package_name,
            outcome, reply),
    ensures
        !plan.acknowledge_first,
        plan.reply_each,
        plan.targets@.len() == 1,
        registry.view()[plan.targets@[0] as int].package_name@ == package,
        reply.channel@ == channel@,
        reply.package_name@ == package,
{
    let live = registry.view();
    let i = choose|i: int| 0 <= i < live.len() && (#[trigger] live[i]).package_name@ == package;
    assert(targets_of(live, package).contains(i));
    let k = choose|k: int| 0 <= k < plan.targets@.len() && plan.targets@[k] == i;
    if plan.targets@.len() > 1 {
        let other = if k == 0 { 1int } else { 0int };
        let j = plan.targets@[other] as int;
        assert(targets_of(live, package).contains(j));
        assert(live[j].package_name@ == package);
        assert(j != i) by {
            if k < other {
                assert(plan.targets@[k] < plan.targets@[other]);
            } else {
                assert(plan.targets@[other] < plan.targets@[k]);
            }
        }
    }
    assert(plan.targets@.len() == 1);
    assert(k == 0);
}

/// Plans a forwarded command addressed to `package`: no call when nothing
/// matches; one call whose result is the reply when exactly one extension
/// matches; when several match (the empty name with more than one
/// registered), an immediate empty acknowledgement and a call to each, whose
/// results are not sent back.
pub fn plan_dispatch<H>(registry: &Registry<H>, package: &String) -> (plan: DispatchPlan)
    requires
        registry.wf(),
    ensures
        plan_ok(registry.view(), package@, plan),
{
    let name = package.as_str();
    let targets = registry.targets(name);
    let n = targets.len();
    let ghost t = targets@;
    let plan = DispatchPlan { acknowledge_first: n > 1, targets, reply_each: n == 1 };
    proof {
        assert(plan.targets@ == t);
        assert forall|i: int| targets_of(registry.view(), package@).contains(i) implies exists|k: int|
            0 <= k < plan.targets@.len() && plan.targets@[k] == i by {
            let k = choose|k: int| 0 <= k < t.len() && t[k] == i;
            assert(plan.targets@[k] == i);
        }
    }
    plan
}

/// What the reply to a call into the extension `package_name` is: on the
/// requesting channel, tagged with that package, holding the parsed result
/// (account records stamped with the package), or the empty response when
/// the call failed or its result could not be read.
pub open spec fn call_reply_ok<P>(
    command: ExtensionCommand<P>,
    channel: String,
    package_name: String,
    outcome: Option<CallResult<P>>,
    r: ExtReply<P>,
) -> bool {
    &&& r.channel@ == channel@
    &&& r.package_name@ == package_name@
    &&& outcome is None ==> r.response is Empty
    &&& outcome matches Some(v) ==> match response_spec(command, v) {
        None => r.response is Empty,
        Some(ExtensionCommandResponse::GetAccounts(a)) => match r.response {
            ExtensionCommandResponse::GetAccounts(b) => b@.len() == a@.len() && forall|i: int|
                0 <= i < b@.len() ==> (#[trigger] b@[i]).package_name@ == package_name@
                    && b@[i].details == a@[i].details,
            _ => false,
        },
        Some(resp) => r.response == resp,
    }
}

/// The reply to a call into the extension `package_name`: its parsed
/// result, stamped with that package where it holds account records, or the
/// empty response when the call failed (`None`) or its result could not be
/// read.
pub fn call_reply<P>(
    command: &ExtensionCommand<P>,
    channel: &String,
    package_name: &String,
    outcome: Option<CallResult<P>>,
) -> (r: ExtReply<P>)
    ensures
        call_reply_ok(*command, *channel, *package_name, outcome, r),
{
    let response = match outcome {
        None => ExtensionCommandResponse::Empty,
        Some(v) => match command.parse_response(v) {
            None => ExtensionCommandResponse::Empty,
            Some(resp) => {
                let mut resp = resp;
                sanitize_response(&mut resp, package_name);
                resp
            },
        },
    };
    ExtReply { channel: channel.clone(), package_name: package_name.clone(), response }
}

/// A reply as the main process receives it.
pub enum ReplyBody<P> {
    /// The response alone.
    Bare(ExtensionCommandResponse<P>),
    /// A one-entry mapping from the answering package to its response.
    Keyed(String, ExtensionCommandResponse<P>),
}

/// A shaped reply on its channel.
pub struct MainReply<P> {
    pub channel: String,
    pub body: ReplyBody<P>,
}

/// Shapes a reply: bare when it speaks for no package, otherwise keyed by
/// the package.
pub fn shape_reply<P>(reply: ExtReply<P>) -> (r: MainReply<P>)
    ensures
        r.channel == reply.channel,
        reply.package_name@.len() == 0 ==> r.body == ReplyBody::Bare(reply.response),
        reply.package_name@.len() > 0 ==> r.body == ReplyBody::Keyed(
            reply.package_name,
            reply.response,
        ),
{
    let ExtReply { channel, package_name, response } = reply;
    if package_name.as_str().unicode_len() == 0 {
        MainReply { channel, body: ReplyBody::Bare(response) }
    } else {
        MainReply { channel, body: ReplyBody::Keyed(package_name, response) }
    }
}

/// What a lifecycle verb answers with.
pub enum RunnerReply {
    Null,
    Text(String),
    Extensions(Vec<ExtensionDetail>),
}

/// What the host does for a lifecycle verb.
pub enum RunnerOutcome {
    /// Reply on the request's channel with this.
    Reply(RunnerReply),
    /// Run discovery, spawn what it accepts, then reply with null.
    Discover,
    /// End the host process.
    Stop,
    /// The verb is not implemented; the host fails loudly.
    Unimplemented,
}

/// The field of the first extension a package name reaches: the extension
/// of that name, or for the empty name the first registered one.
pub open spec fn first_target_exists<H>(registry: Registry<H>, package: Seq<char>) -> bool {
    if package.len() == 0 {
        registry.view().len() > 0
    } else {
        has_name(registry.view(), package)
    }
}

/// The position of the first extension a package name reaches.
pub open spec fn first_target<H>(registry: Registry<H>, package: Seq<char>) -> int {
    if package.len() == 0 {
        0
    } else {
        choose|i: int|
            0 <= i < registry.view().len() && (#[trigger] registry.view()[i]).package_name@
                == package
    }
}

fn first_of<H>(registry: &Registry<H>, package: &String) -> (r: Option<usize>)
    requires
        registry.wf(),
    ensures
        r is Some <==> first_target_exists(*registry, package@),
        r matches Some(i) ==> i == first_target(*registry, package@) && i < registry.view().len(),
{
    let t = registry.targets(package.as_str());
    if t.len() == 0 {
        proof {
            if first_target_exists(*registry, package@) && package@.len() > 0 {
                let i = choose|i: int|
                    0 <= i < registry.view().len() && (#[trigger] registry.view()[i]).package_name@
                        == package@;
                assert(targets_of(registry.view(), package@).contains(i));
            }
        }
        None
    } else {
        proof {
            if package@.len() == 0 {
                assert(targets_of(registry.view(), package@).contains(0));
                let k = choose|k: int| 0 <= k < t@.len() && t@[k] == 0;
                if k > 0 {
                    assert(t@[0] < t@[k]);
                }
            } else {
                assert(targets_of(registry.view(), package@).contains(t@[0] as int));
                let i = first_target(*registry, package@);
                assert(registry.view()[i].package_name@ == registry.view()[t@[0] as int].package_name@);
            }
        }
        Some(t[0])
    }
}

/// The registry after removing the extension named `name`: the old one
/// without that entry, order kept, or unchanged when no such entry exists.
pub open spec fn removed_from<H>(
    before: Seq<Extension<H>>,
    name: Seq<char>,
    after: Seq<Extension<H>>,
) -> bool {
    if has_name(before, name) {
        exists|i: int|
            0 <= i < before.len() && (#[trigger] before[i]).package_name@ == name && after
                == before.remove(i)
    } else {
        after == before
    }
}

/// What a lookup verb answers for an optional package name: the chosen
/// field of the first extension it reaches, or null when it names none or
/// reaches none.
pub open spec fn lookup_answer<H>(
    registry: Registry<H>,
    package: Option<PackageNameArgs>,
    field: spec_fn(Extension<H>) -> String,
    r: RunnerOutcome,
) -> bool {
    match package {
        Some(p) => if first_target_exists(registry, p.package_name@) {
            r matches RunnerOutcome::Reply(RunnerReply::Text(t)) && t == field(
                registry.view()[first_target(registry, p.package_name@)],
            )
        } else {
            r matches RunnerOutcome::Reply(RunnerReply::Null)
        },
        None => r matches RunnerOutcome::Reply(RunnerReply::Null),
    }
}

/// Runs a lifecycle verb against the registry. A verb that acts on one
/// extension but names none answers null, except the toggle, which is not
/// implemented whatever it names.
pub fn run_runner_command<H>(registry: &mut Registry<H>, command: RunnerCommand) -> (r:
    RunnerOutcome)
    requires
        old(registry).wf(),
    ensures
        final(registry).wf(),
        match command {
            RunnerCommand::RemoveExtension(Some(p)) => removed_from(
                old(registry).view(),
                p.package_name@,
                final(registry).view(),
            ),
            _ => *final(registry) == *old(registry),
        },
        match command {
            RunnerCommand::FindNewExtensions => r is Discover,
            RunnerCommand::GetInstalledExtensions => r matches RunnerOutcome::Reply(
                RunnerReply::Extensions(d),
            ) && d@.len() == old(registry).view().len() && forall|i: int|
                0 <= i < d@.len() ==> detail_of(old(registry).view()[i], #[trigger] d@[i]),
            RunnerCommand::GetExtensionIcon(p) => lookup_answer(
                *old(registry),
                p,
                |e: Extension<H>| e.icon,
                r,
            ),
            RunnerCommand::ToggleExtensionStatus(_) => r is Unimplemented,
            RunnerCommand::RemoveExtension(_) => r matches RunnerOutcome::Reply(RunnerReply::Null),
            RunnerCommand::StopProcess => r is Stop,
            RunnerCommand::GetDisplayName(p) => lookup_answer(
                *old(registry),
                p,
                |e: Extension<H>| e.name,
                r,
            ),
        },
{
    match command {
        RunnerCommand::FindNewExtensions => RunnerOutcome::Discover,
        RunnerCommand::GetInstalledExtensions => RunnerOutcome::Reply(
            RunnerReply::Extensions(registry.details()),
        ),
        RunnerCommand::GetExtensionIcon(Some(p)) => match first_of(registry, &p.package_name) {
            Some(i) => RunnerOutcome::Reply(RunnerReply::Text(registry.get(i).icon.clone())),
            None => RunnerOutcome::Reply(RunnerReply::Null),
        },
        RunnerCommand::GetExtensionIcon(None) => RunnerOutcome::Reply(RunnerReply::Null),
        RunnerCommand::ToggleExtensionStatus(_) => RunnerOutcome::Unimplemented,
        RunnerCommand::RemoveExtension(Some(p)) => {
            let _ = registry.remove(p.package_name.as_str());
            RunnerOutcome::Reply(RunnerReply::Null)
        },
        RunnerCommand::RemoveExtension(None) => RunnerOutcome::Reply(RunnerReply::Null),
        RunnerCommand::StopProcess => RunnerOutcome::Stop,
        RunnerCommand::GetDisplayName(Some(p)) => match first_of(registry, &p.package_name) {
            Some(i) => RunnerOutcome::Reply(RunnerReply::Text(registry.get(i).name.clone())),
            None => RunnerOutcome::Reply(RunnerReply::Null),
        },
        RunnerCommand::GetDisplayName(None) => RunnerOutcome::Reply(RunnerReply::Null),
    }
}

} // verus!
