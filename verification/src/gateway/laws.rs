//! What holds of the gateway: what a client is told is what there is, and what it asks
//! for is what is done.

use vstd::prelude::*;

use crate::collections;
use crate::controller::config::ControllerConfig;
use crate::controller::laws;
use crate::controller::object_laws;
use crate::controller::plan::{EffectView, PlanView};
use crate::controller::reconcile;
use crate::controller::record_laws;
use crate::controller::service;
use crate::gateway::auth;
use crate::gateway::auth::Route;
use crate::gateway::convert;
use crate::gateway::create;
use crate::gateway::error::GatewayErrorView;
use crate::gateway::logs;
use crate::gateway::wire::{
    CloudCreateSandboxRequest, CloudCreateSandboxResponse, CloudSandboxStatus, SandboxLogLevel,
};
use crate::json;
use crate::k8s::{Pod, PodView, ServiceView};
use crate::names;
use crate::sandbox::{DesiredState, Sandbox, SandboxPhase, TerminationReason};
use crate::text;
use crate::time;
use crate::time::Time;

verus! {

/// A client is told of a sandbox by its name, and whether it is one-off, when it was made
/// and when its run began and ended, as recorded.
pub proof fn a_client_is_told_what_is_recorded(r: CloudCreateSandboxResponse, sb: Sandbox)
    requires
        convert::tells(r, sb),
        sb.metadata.name is Some,
    ensures
        r.name@ == sb.metadata.name->0@,
        r.id@ == sb.metadata.name->0@,
        r.slug@ == sb.metadata.name->0@,
        r.ephemeral == sb.spec.ephemeral,
        sb.metadata.creation_timestamp matches Some(t) ==> (time::wire_of(t@) matches Some(w)
            ==> r.created_at@ == w),
        sb.metadata.creation_timestamp is None ==> r.created_at@ == (0i64, 0u32),
        sb.status is None ==> r.started_at is None && r.stopped_at is None
            && r.last_failure_message is None,
        sb.status matches Some(s) ==> {
            &&& s.started_at is None ==> r.started_at is None
            &&& s.started_at matches Some(t) ==> collections::opt(r.started_at) == time::wire_of(t@)
            &&& s.terminated_at is None ==> r.stopped_at is None
            &&& s.terminated_at matches Some(t) ==> collections::opt(r.stopped_at) == time::wire_of(
                t@,
            )
        },
{
    if sb.status is None {
        assert(collections::opt(r.started_at) is None);
        assert(collections::opt(r.stopped_at) is None);
        assert(collections::opt(r.last_failure_message) is None);
    } else {
        let s = sb.status->0;
        if s.started_at is None {
            assert(collections::opt(r.started_at) is None);
        }
        if s.terminated_at is None {
            assert(collections::opt(r.stopped_at) is None);
        }
    }
}

/// What a client is told of how a sandbox fares: that it is stopping, while it is being
/// deleted; else that it runs, has stopped or has failed, as recorded; else that it starts
/// once it has begun to, and was created before.
pub proof fn a_client_is_told_how_a_sandbox_fares(r: CloudCreateSandboxResponse, sb: Sandbox)
    requires
        convert::tells(r, sb),
    ensures
        ({
            let going = sb.metadata.deletion_timestamp is Some;
            let phase = sb.phase();
            let begun = sb.status is Some && sb.status->0.started_at is Some;
            &&& r.status == CloudSandboxStatus::Stopping <==> going
            &&& r.status == CloudSandboxStatus::Running <==> !going && phase == Some(
                SandboxPhase::Running,
            )
            &&& r.status == CloudSandboxStatus::Stopped <==> !going && (phase == Some(
                SandboxPhase::Stopped,
            ) || phase == Some(SandboxPhase::Succeeded))
            &&& r.status == CloudSandboxStatus::Failed <==> !going && phase == Some(
                SandboxPhase::Failed,
            )
            &&& r.status == CloudSandboxStatus::Starting <==> !going && begun && (phase is None
                || phase == Some(SandboxPhase::Pending))
            &&& r.status == CloudSandboxStatus::Created <==> !going && !begun && (phase is None
                || phase == Some(SandboxPhase::Pending))
        }),
{
}

/// A client is told of a failure exactly where one is recorded, and of which: an end by
/// itself, by a limit on its lifetime, on request or at its deadline is none.
pub proof fn a_client_is_told_of_failures(r: CloudCreateSandboxResponse, sb: Sandbox)
    requires
        convert::tells(r, sb),
        sb.status is Some,
    ensures
        ({
            let reason = sb.status->0.termination_reason;
            let told = collections::opt(r.last_failure_message);
            &&& told == Some("Failed"@) <==> reason == Some(TerminationReason::Failed)
            &&& told == Some("OomKilled"@) <==> reason == Some(TerminationReason::OomKilled)
            &&& told == Some("Evicted"@) <==> reason == Some(TerminationReason::Evicted)
            &&& told == Some("NodeLost"@) <==> reason == Some(TerminationReason::NodeLost)
            &&& told is None <==> reason is None || reason == Some(TerminationReason::Completed)
                || reason == Some(TerminationReason::MaxDurationExceeded) || reason == Some(
                TerminationReason::IdleTimeout,
            ) || reason == Some(TerminationReason::ShutdownRequested) || reason == Some(
                TerminationReason::Expired,
            )
        }),
{
    reveal_strlit("Failed");
    reveal_strlit("OomKilled");
    reveal_strlit("Evicted");
    reveal_strlit("NodeLost");
    assert("Failed"@.len() == 6 && "OomKilled"@.len() == 9);
    assert("Evicted"@.len() == 7 && "NodeLost"@.len() == 8);
}

/// Once a reconcile has recorded that a sandbox runs, a client is told so, and since when;
/// and the log that it is given is that of the pod that was looked at.
pub proof fn a_client_is_told_that_it_runs(
    sandbox: Sandbox,
    existing: Option<Pod>,
    cfg: ControllerConfig,
    now: Time,
    spec_json: Result<Seq<char>, Seq<char>>,
    p: PlanView,
    later: Sandbox,
    r: CloudCreateSandboxResponse,
    name: Seq<char>,
)
    requires
        record_laws::plans(sandbox, existing, cfg, now, spec_json, p),
        later.status is Some,
        record_laws::records(p, later.status->0@),
        later.status->0@.phase == Some(SandboxPhase::Running),
        later.metadata.deletion_timestamp is None,
        convert::tells(r, later),
    ensures
        r.status == CloudSandboxStatus::Running,
        collections::opt(r.started_at) == time::wire_of(now@),
        r.stopped_at is None,
        r.last_failure_message is None,
        later.spec.logging.guest_console ==> logs::log_pod(later, name) == Ok::<
            Seq<char>,
            GatewayErrorView,
        >(existing->0.metadata.any_name()),
        !later.spec.logging.guest_console ==> logs::log_pod(later, name) is Err,
{
    let s = later.status->0;
    record_laws::the_running_record_tells_where_it_runs(
        sandbox,
        existing,
        cfg,
        now,
        spec_json,
        p,
        s@,
    );
    assert(s@.phase == s.phase);
    assert(s@.started_at == collections::opt(s.started_at));
    assert(s@.terminated_at == collections::opt(s.terminated_at));
    assert(s@.termination_reason == s.termination_reason);
    assert(s@.pod_name == collections::opt(s.pod_name));
    assert(collections::opt(r.stopped_at) is None);
    assert(collections::opt(r.last_failure_message) is None);
}

/// A sandbox that a client has created is due at once: the first reconcile of it, once the
/// API server has given it its uid, applies its pod and its Service.
pub proof fn a_created_sandbox_is_due(
    req: CloudCreateSandboxRequest,
    sb: Sandbox,
    cfg: ControllerConfig,
    now: Time,
    spec_json: Seq<char>,
)
    requires
        convert::spec_matches(sb.spec, req, req.image->reference@),
        sb.status is None,
        sb.metadata.name is Some,
        sb.metadata.namespace is Some,
        sb.metadata.uid is Some,
    ensures
        exists|p: PodView, svc: ServiceView|
            {
                &&& #[trigger] object_laws::applies(sb, cfg, spec_json, p, svc)
                &&& exists|plan: PlanView| #[trigger]
                    record_laws::plans(sb, None, cfg, now, Ok(spec_json), plan) && plan.effects
                        == seq![EffectView::ApplyPod(p), EffectView::ApplyService(svc)]
            },
{
    let published = sb.spec.network.published_ports@;
    assert(service::first_conflict(cfg, published) is None);
    laws::due_pod_is_created(sb, cfg, now, Ok(spec_json));
    let plan = reconcile::create_outcome(sb, cfg, Ok(spec_json))->Ok_0;
    let p = plan.effects[0]->ApplyPod_0;
    let svc = plan.effects[1]->ApplyService_0;
    assert(plan.effects =~= seq![EffectView::ApplyPod(p), EffectView::ApplyService(svc)]);
    assert(object_laws::applies(sb, cfg, spec_json, p, svc));
    assert(record_laws::plans(sb, None, cfg, now, Ok(spec_json), plan));
}

/// A sandbox that a client creates is its own: of the name that it asked for, in its
/// namespace, and marked as the gateway's. It is to run, once, until it is stopped.
pub proof fn a_created_sandbox_is_the_clients_own(
    req: CloudCreateSandboxRequest,
    namespace: Seq<char>,
    sb: Sandbox,
)
    requires
        convert::spec_matches(sb.spec, req, req.image->reference@),
        sb.metadata@ == create::new_meta(
            req.name@,
            namespace,
            convert::labels_of(req.labels@),
            convert::annotations_of(req),
        ),
    ensures
        collections::opt(sb.metadata.name) == Some(req.name@),
        collections::opt(sb.metadata.namespace) == Some(namespace),
        sb.metadata.labels@.contains_pair(
            "sandbox.microsandbox.dev/managed-by"@,
            "msb-gateway"@,
        ),
        sb.spec.desired_state == DesiredState::Running,
        sb.spec.run_policy == crate::sandbox::RunPolicy::Once,
        sb.spec.lifecycle.shutdown_time is None,
        sb.spec.ephemeral == req.lifecycle.ephemeral,
        sb.spec.upper.size.0@ == "4Gi"@,
{
    let m = sb.metadata@;
    assert(m.name == collections::opt(sb.metadata.name));
    assert(m.namespace == collections::opt(sb.metadata.namespace));
    assert(m.labels == sb.metadata.labels@);
}

/// A wish of a request that has no place in the specification is kept as an annotation:
/// the log level by its name, the scripts as JSON. Nothing else becomes one but labels
/// that Kubernetes does not take.
pub proof fn options_are_kept_as_annotations(req: CloudCreateSandboxRequest, a: Seq<char>)
    ensures
        ({
            let ann = convert::annotations_of(req);
            let level = "microsandbox.dev/cloud-log-level"@;
            let scripts = "microsandbox.dev/cloud-scripts"@;
            &&& req.runtime.log_level matches Some(l) ==> ann.contains_pair(
                level,
                match l {
                    SandboxLogLevel::Error => "error"@,
                    SandboxLogLevel::Warn => "warn"@,
                    SandboxLogLevel::Info => "info"@,
                    SandboxLogLevel::Debug => "debug"@,
                    SandboxLogLevel::Trace => "trace"@,
                },
            )
            &&& req.runtime.log_level is None ==> !ann.dom().contains(level)
            &&& !(req.runtime.scripts@ =~= Map::empty()) ==> ann.contains_pair(
                scripts,
                json::string_map_text(req.runtime.scripts@),
            )
            &&& req.runtime.scripts@ =~= Map::empty() ==> !ann.dom().contains(scripts)
            &&& ann.dom().contains(a) && a != level && a != scripts ==> exists|k: Seq<char>|
                #![trigger req.labels@.dom().contains(k)]
                {
                    &&& req.labels@.dom().contains(k)
                    &&& !convert::valid_label(k, req.labels@[k])
                    &&& a == "microsandbox.dev/cloud-label."@ + k
                    &&& ann[a] == req.labels@[k]
                }
        }),
{
    reveal_strlit("microsandbox.dev/cloud-");
    reveal_strlit("log-level");
    reveal_strlit("scripts");
    reveal_strlit("microsandbox.dev/cloud-log-level");
    reveal_strlit("microsandbox.dev/cloud-scripts");
    reveal_strlit("microsandbox.dev/cloud-label.");
    let level = "microsandbox.dev/cloud-log-level"@;
    let scripts = "microsandbox.dev/cloud-scripts"@;
    let p = convert::CLOUD_LABEL_ANN@;
    assert(convert::CLOUD_ANN@ + "log-level"@ =~= level);
    assert(convert::CLOUD_ANN@ + "scripts"@ =~= scripts);
    assert(level.len() != scripts.len());
    assert(p.len() == 29);
    assert(level[24] == 'o' && p[24] == 'a');
    assert(scripts[23] == 's' && p[23] == 'l');
    if text::has_prefix(level, p) {
        assert(level.take(29)[24] == p[24]);
    }
    if text::has_prefix(scripts, p) {
        assert(scripts.take(29)[23] == p[23]);
    }
    let ann = convert::annotations_of(req);
    if ann.dom().contains(a) && a != level && a != scripts {
        let k = a.skip(p.len() as int);
        assert(convert::label_annotations(req.labels@).dom().contains(a));
        assert(a =~= p + k);
        assert(req.labels@.dom().contains(k));
    }
}

/// What a route does to sandboxes is what the caller must be allowed to do: to look at one
/// is to get it, be it by its log or by a session; to list them is to list them; to make
/// one is to create it; to stop one takes what it takes to delete it; to start one is to
/// change it.
pub proof fn each_route_takes_its_right(route: Route)
    ensures
        auth::verb_of(route) == "get"@ <==> route is Get || route is Exec || route is Logs,
        auth::verb_of(route) == "list"@ <==> route is List,
        auth::verb_of(route) == "create"@ <==> route is Create,
        auth::verb_of(route) == "delete"@ <==> route is Delete || route is Stop,
        auth::verb_of(route) == "patch"@ <==> route is Start,
{
    reveal_strlit("get");
    reveal_strlit("list");
    reveal_strlit("create");
    reveal_strlit("delete");
    reveal_strlit("patch");
    assert("get"@.len() == 3 && "list"@.len() == 4 && "patch"@.len() == 5);
    assert("create"@.len() == 6 && "delete"@.len() == 6);
    assert("create"@[0] == 'c' && "delete"@[0] == 'd');
}

/// The token of a header is all that stands behind `Bearer `; an empty one is refused, and
/// so is a header that says anything else.
pub proof fn the_token_is_what_follows_bearer(token: Seq<char>, raw: Seq<char>)
    ensures
        token.len() > 0 ==> auth::token_of(Some("Bearer "@ + token)) == Ok::<
            Seq<char>,
            GatewayErrorView,
        >(token) && auth::token_of(Some("bearer "@ + token)) == Ok::<Seq<char>, GatewayErrorView>(
            token,
        ),
        auth::token_of(None) is Err,
        auth::token_of(Some(raw)) is Ok ==> raw.len() > 7 && raw.skip(7) == auth::token_of(
            Some(raw),
        )->Ok_0 && (raw.take(7) == "Bearer "@ || raw.take(7) == "bearer "@),
        auth::token_of(Some(raw)) is Err ==> auth::token_of(Some(raw))->Err_0 is Unauthorized,
{
    reveal_strlit("Bearer ");
    reveal_strlit("bearer ");
    assert("Bearer "@.len() == 7 && "bearer "@.len() == 7);
    assert(("Bearer "@ + token).take(7) =~= "Bearer "@);
    assert(("bearer "@ + token).take(7) =~= "bearer "@);
    assert(("Bearer "@ + token).skip(7) =~= token);
    assert(("bearer "@ + token).skip(7) =~= token);
}

/// A caller is served as the user that the review of its token names, in the namespace of
/// that service account, and only where the review says that the token is good.
pub proof fn a_caller_is_whom_the_review_names(
    status: Option<auth::TokenReviewStatus>,
    id: auth::IdentityView,
    namespace: Seq<char>,
    name: Seq<char>,
)
    requires
        auth::reviewed_identity(status) == Ok::<auth::IdentityView, GatewayErrorView>(id),
        !namespace.contains(':'),
        !name.contains(':'),
    ensures
        status is Some,
        status->0.authenticated == Some(true),
        collections::opt(status->0.username) == Some(id.username),
        id.username == "system:serviceaccount:"@ + namespace + ":"@ + name ==> id.namespace
            == namespace,
{
    auth::service_account_is_served_in_its_namespace(namespace, name);
}

/// A filter by several labels asks for all of them, one after the other.
pub proof fn a_filter_asks_for_each_label(
    first: (Seq<char>, Seq<char>),
    rest: Seq<(Seq<char>, Seq<char>)>,
    last: (Seq<char>, Seq<char>),
)
    ensures
        convert::selector_text(seq![first]) == first.0 + "="@ + first.1,
        convert::selector_text((seq![first] + rest).push(last)) == convert::selector_text(
            seq![first] + rest,
        ) + ","@ + (last.0 + "="@ + last.1),
        convert::selector_outcome(Ok(Seq::empty())) == Ok::<Option<Seq<char>>, GatewayErrorView>(
            None,
        ),
        convert::selector_outcome(Ok(seq![first])) == Ok::<Option<Seq<char>>, GatewayErrorView>(
            Some(first.0 + "="@ + first.1),
        ),
{
    let all = (seq![first] + rest).push(last);
    assert(all.drop_last() =~= seq![first] + rest);
    assert(all.last() == last);
    assert(seq![first][0] == first);
}

/// A request for an OCI image under a DNS label is served; one under a name that holds an
/// upper-case letter, an underscore or a dot, or for any other image, is refused as
/// invalid.
pub proof fn what_is_served_and_what_is_refused(req: CloudCreateSandboxRequest, i: int)
    ensures
        names::dns_label(req.name@) && req.image is Oci ==> convert::refusal(req) is None,
        !(req.image is Oci) ==> convert::refusal(req) is Some,
        req.name@.len() == 0 ==> convert::refusal(req) is Some,
        0 <= i < req.name@.len() && ('A' <= req.name@[i] <= 'Z' || req.name@[i] == '_'
            || req.name@[i] == '.') ==> convert::refusal(req) is Some,
        convert::refusal(req) matches Some(e) ==> e is InvalidRequest,
{
    if names::dns_label(req.name@) {
        let s = req.name@;
        assert forall|k: int| 0 <= k < s.len() implies '\0' <= #[trigger] s[k] <= '\u{7f}' by {
            assert(names::is_name_end(s[k]) || s[k] == '-');
        }
        text::utf8_ascii_len(s);
    }
}

/// An ASCII letter or digit.
pub open spec fn letter_or_digit(c: char) -> bool {
    'a' <= c <= 'z' || 'A' <= c <= 'Z' || '0' <= c <= '9'
}

/// What Kubernetes takes as the value of a label: nothing, or up to 63 letters, digits and
/// the marks between them.
pub open spec fn takes_value(s: Seq<char>) -> bool {
    s.len() > 0 ==> {
        &&& s.len() < 64
        &&& letter_or_digit(s[0])
        &&& letter_or_digit(s[s.len() - 1])
        &&& forall|i: int|
            0 <= i < s.len() ==> letter_or_digit(#[trigger] s[i]) || s[i] == '-' || s[i] == '.'
                || s[i] == '_'
    }
}

/// A pair is a label exactly where Kubernetes takes its value, and its key: a name that is
/// not empty, which may stand behind a domain and a slash.
pub proof fn a_label_is_what_kubernetes_takes(
    domain: Seq<char>,
    name: Seq<char>,
    value: Seq<char>,
)
    requires
        !domain.contains('/'),
        !name.contains('/'),
    ensures
        convert::valid_label(name, value) <==> name.len() > 0 && takes_value(name) && takes_value(
            value,
        ),
        convert::valid_label(domain.push('/') + name, value) <==> names::dns_subdomain(domain)
            && name.len() > 0 && takes_value(name) && takes_value(value),
{
    text::a_split_is_at_the_first(name, '/');
    text::a_split_undoes_a_join(domain, '/', name);
    assert(takes_value(name) <==> convert::valid_segment(name)) by {
        a_value_is_a_segment(name);
    }
    assert(takes_value(value) <==> convert::valid_segment(value)) by {
        a_value_is_a_segment(value);
    }
}

/// The two ways to say what a value may be agree.
proof fn a_value_is_a_segment(s: Seq<char>)
    ensures
        takes_value(s) <==> convert::valid_segment(s),
{
    if takes_value(s) && s.len() > 0 {
        assert forall|i: int| 0 <= i < s.len() implies convert::is_label_char(#[trigger] s[i]) by {
            assert(letter_or_digit(s[i]) || s[i] == '-' || s[i] == '.' || s[i] == '_');
        }
    }
    if convert::valid_segment(s) && s.len() > 0 {
        assert forall|i: int| 0 <= i < s.len() implies letter_or_digit(#[trigger] s[i])
            || s[i] == '-' || s[i] == '.' || s[i] == '_' by {
            assert(convert::is_label_char(s[i]));
        }
    }
}

/// A recorded instant is told to the nanosecond, from the year 0 through 9998, and none is
/// told where none is recorded.
pub proof fn an_instant_is_told_as_recorded(
    recorded: Option<Time>,
    told: Option<(i64, u32)>,
)
    requires
        convert::same_instant(recorded, told),
    ensures
        recorded is None ==> told is None,
        recorded is Some && -62_167_219_200 * 1_000_000_000 <= recorded->0@ <= 253_370_764_800
            * 1_000_000_000 ==> {
            &&& told is Some
            &&& told matches Some((secs, nanos)) && {
                &&& secs * 1_000_000_000 + nanos == recorded->0@
                &&& nanos < 1_000_000_000
            }
        },
{
}

/// A name is taken for a sandbox exactly where it is made of lower-case letters, digits and
/// dashes, with no dash at its ends, and has from 1 to 253 of them.
pub proof fn a_name_is_what_kubernetes_takes(name: Seq<char>)
    ensures
        convert::valid_name(name) <==> {
            &&& 1 <= name.len() < 254
            &&& name[0] != '-'
            &&& name[name.len() - 1] != '-'
            &&& forall|i: int|
                0 <= i < name.len() ==> 'a' <= #[trigger] name[i] <= 'z' || '0' <= name[i] <= '9'
                    || name[i] == '-'
        },
{
    if convert::valid_name(name) {
        assert forall|i: int| 0 <= i < name.len() implies 'a' <= #[trigger] name[i] <= 'z'
            || '0' <= name[i] <= '9' || name[i] == '-' by {
            assert(names::is_name_end(name[i]) || name[i] == '-');
        }
    }
    if forall|i: int|
        0 <= i < name.len() ==> 'a' <= #[trigger] name[i] <= 'z' || '0' <= name[i] <= '9'
            || name[i] == '-' {
        assert(vstd::utf8::is_ascii_chars(name));
        text::utf8_ascii_len(name);
    }
}

} // verus!
