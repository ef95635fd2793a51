//! The manifests that are installed with the operator: the controller's role, and
//! what the definition of the sandbox resource says beyond its types.

use vstd::prelude::*;

use crate::collections;
use crate::controller::plan::EffectView;
use crate::text;

verus! {

/// The name of the controller's role.
pub const ROLE_NAME: &'static str = "msb-controller";

pub const API_GROUP: &'static str = "sandbox.microsandbox.dev";

/// What a role may do with some resources.
#[derive(Debug, PartialEq)]
pub struct PolicyRule {
    pub api_groups: Vec<String>,
    pub resources: Vec<String>,
    pub verbs: Vec<String>,
}

#[verifier::ext_equal]
pub struct PolicyRuleView {
    pub api_groups: Seq<Seq<char>>,
    pub resources: Seq<Seq<char>>,
    pub verbs: Seq<Seq<char>>,
}

impl View for PolicyRule {
    type V = PolicyRuleView;

    open spec fn view(&self) -> PolicyRuleView {
        PolicyRuleView {
            api_groups: collections::views(self.api_groups@),
            resources: collections::views(self.resources@),
            verbs: collections::views(self.verbs@),
        }
    }
}

/// A rule on one resource of one group.
pub open spec fn rule_view(
    group: Seq<char>,
    resource: Seq<char>,
    verbs: Seq<Seq<char>>,
) -> PolicyRuleView {
    PolicyRuleView { api_groups: seq![group], resources: seq![resource], verbs }
}

/// What the controller may do in the cluster.
pub open spec fn controller_rules() -> Seq<PolicyRuleView> {
    seq![
        rule_view(API_GROUP@, "sandboxes"@, seq!["get"@, "list"@, "watch"@, "delete"@]),
        rule_view(API_GROUP@, "sandboxes/status"@, seq!["patch"@]),
        rule_view(
            ""@,
            "pods"@,
            seq!["get"@, "list"@, "watch"@, "create"@, "patch"@, "delete"@],
        ),
        rule_view(""@, "services"@, seq!["get"@, "create"@, "patch"@, "delete"@]),
        rule_view("coordination.k8s.io"@, "leases"@, seq!["get"@, "create"@, "patch"@]),
        rule_view(""@, "events"@, seq!["create"@, "patch"@]),
    ]
}

/// The views of a list of string slices.
pub open spec fn str_views(s: Seq<&str>) -> Seq<Seq<char>> {
    Seq::new(s.len(), |i: int| s[i]@)
}

fn owned(items: Vec<&str>) -> (out: Vec<String>)
    ensures
        collections::views(out@) == str_views(items@),
{
    let mut out: Vec<String> = Vec::new();
    let ghost all = str_views(items@);
    let mut i: usize = 0;
    assert(collections::views(out@) =~= all.take(0));
    while i < items.len()
        invariant
            i <= items.len(),
            all == str_views(items@),
            out.len() == i,
            collections::views(out@) == all.take(i as int),
        decreases items.len() - i,
    {
        let ghost before = out@;
        out.push(items[i].to_owned());
        proof {
            collections::grown(before, out@, all);
        }
        i = i + 1;
    }
    assert(all.take(i as int) =~= all);
    out
}

fn rule(group: &str, resource: &str, verbs: Vec<&str>) -> (r: PolicyRule)
    ensures
        r@ == rule_view(group@, resource@, str_views(verbs@)),
{
    let r = PolicyRule {
        api_groups: vec![group.to_owned()],
        resources: vec![resource.to_owned()],
        verbs: owned(verbs),
    };
    assert(r@.api_groups =~= seq![group@]);
    assert(r@.resources =~= seq![resource@]);
    r
}

/// The controller's permissions in the cluster, one rule for each kind of object it
/// handles. Pods and Services are applied on the server's side, so there is no
/// update among the verbs.
pub fn controller_policy_rules() -> (rules: Vec<PolicyRule>)
    ensures
        collections::views(rules@) == controller_rules(),
{
    let sandboxes = rule(API_GROUP, "sandboxes", vec!["get", "list", "watch", "delete"]);
    assert(sandboxes@.verbs =~= seq!["get"@, "list"@, "watch"@, "delete"@]);
    let status = rule(API_GROUP, "sandboxes/status", vec!["patch"]);
    assert(status@.verbs =~= seq!["patch"@]);
    let pods = rule("", "pods", vec!["get", "list", "watch", "create", "patch", "delete"]);
    assert(pods@.verbs =~= seq!["get"@, "list"@, "watch"@, "create"@, "patch"@, "delete"@]);
    let services = rule("", "services", vec!["get", "create", "patch", "delete"]);
    assert(services@.verbs =~= seq!["get"@, "create"@, "patch"@, "delete"@]);
    let leases = rule("coordination.k8s.io", "leases", vec!["get", "create", "patch"]);
    assert(leases@.verbs =~= seq!["get"@, "create"@, "patch"@]);
    let events = rule("", "events", vec!["create", "patch"]);
    assert(events@.verbs =~= seq!["create"@, "patch"@]);
    let rules = vec![sandboxes, status, pods, services, leases, events];
    assert(collections::views(rules@) =~= controller_rules());
    rules
}

/// No rule lets the controller near a Secret: the kubelet mounts those that a
/// sandbox refers to.
pub proof fn no_rule_grants_secrets(i: int)
    requires
        0 <= i < controller_rules().len(),
    ensures
        !controller_rules()[i].resources.contains("secrets"@),
        !controller_rules()[i].resources.contains("*"@),
{
    reveal_strlit("secrets");
    reveal_strlit("*");
    reveal_strlit("sandboxes");
    reveal_strlit("sandboxes/status");
    reveal_strlit("pods");
    reveal_strlit("services");
    reveal_strlit("leases");
    reveal_strlit("events");
    assert("sandboxes"@[0] != "secrets"@[1]);
    assert("secrets"@.len() == 7 && "sandboxes"@.len() == 9 && "sandboxes/status"@.len() == 16);
    assert("pods"@.len() == 4 && "services"@.len() == 8 && "leases"@.len() == 6);
    assert("events"@.len() == 6 && "*"@.len() == 1);
}

/// The version of the sandbox resource.
pub const VERSION: &'static str = "v1alpha1";

/// A rule that the API server holds an object to, in its expression language.
#[derive(Debug, PartialEq)]
pub struct ValidationRule {
    pub rule: String,
    pub message: String,
}

#[verifier::ext_equal]
pub struct ValidationRuleView {
    pub rule: Seq<char>,
    pub message: Seq<char>,
}

impl View for ValidationRule {
    type V = ValidationRuleView;

    open spec fn view(&self) -> ValidationRuleView {
        ValidationRuleView { rule: self.rule@, message: self.message@ }
    }
}

/// A rule on one field of the specification.
#[derive(Debug, PartialEq)]
pub struct FieldRule {
    pub field: String,
    pub rule: ValidationRule,
}

#[verifier::ext_equal]
pub struct FieldRuleView {
    pub field: Seq<char>,
    pub rule: ValidationRuleView,
}

impl View for FieldRule {
    type V = FieldRuleView;

    open spec fn view(&self) -> FieldRuleView {
        FieldRuleView { field: self.field@, rule: self.rule@ }
    }
}

/// What the schema of a version says of the specification.
#[derive(Debug, PartialEq)]
pub enum SpecSchema {
    /// Nothing.
    Absent,
    /// It is there, without its fields.
    Opaque,
    /// Its fields, by name.
    Fields(Vec<String>),
}

/// What is added to the schema of a version.
#[derive(Debug, PartialEq)]
pub struct Sealing {
    /// Rules on the specification as a whole.
    pub spec_rules: Vec<ValidationRule>,
    /// Rules on single fields.
    pub field_rules: Vec<FieldRule>,
    /// Whether the conditions of the status are marked as a list that merges by
    /// [`CONDITIONS_KEY`].
    pub merge_conditions: bool,
}

#[verifier::ext_equal]
pub struct SealingView {
    pub spec_rules: Seq<ValidationRuleView>,
    pub field_rules: Seq<FieldRuleView>,
    pub merge_conditions: bool,
}

impl View for Sealing {
    type V = SealingView;

    open spec fn view(&self) -> SealingView {
        SealingView {
            spec_rules: collections::views(self.spec_rules@),
            field_rules: collections::views(self.field_rules@),
            merge_conditions: self.merge_conditions,
        }
    }
}

/// How the conditions of the status merge, and by which key.
pub const CONDITIONS_LIST_TYPE: &'static str = "map";

pub const CONDITIONS_KEY: &'static str = "type";

/// Whether a field of the specification may change after creation.
pub open spec fn is_mutable(field: Seq<char>) -> bool {
    field == "desiredState"@ || field == "cpus"@ || field == "memory"@ || field == "lifecycle"@
}

fn mutable(field: &str) -> (r: bool)
    ensures
        r == is_mutable(field@),
{
    text::same(field, "desiredState") || text::same(field, "cpus") || text::same(field, "memory")
        || text::same(field, "lifecycle")
}

/// The rule that a field keeps its value. The old value is there on an update only,
/// so the rule does not bind on creation.
pub open spec fn sealed(field: Seq<char>) -> FieldRuleView {
    FieldRuleView {
        field,
        rule: ValidationRuleView {
            rule: "self == oldSelf"@,
            message: "spec."@ + field + " is immutable after creation"@,
        },
    }
}

/// The rules on the fields that may not change, in order.
pub open spec fn sealed_fields(fields: Seq<Seq<char>>) -> Seq<FieldRuleView>
    decreases fields.len(),
{
    if fields.len() == 0 {
        Seq::empty()
    } else if is_mutable(fields.last()) {
        sealed_fields(fields.drop_last())
    } else {
        sealed_fields(fields.drop_last()).push(sealed(fields.last()))
    }
}

/// The rules that keep the CPUs and the memory below their ceilings.
pub open spec fn ceiling_rules() -> Seq<ValidationRuleView> {
    seq![
        ValidationRuleView {
            rule: "self.cpus <= (has(self.maxCpus) ? self.maxCpus : self.cpus)"@,
            message: "spec.cpus must not exceed spec.maxCpus"@,
        },
        ValidationRuleView {
            rule: "self.memory <= (has(self.maxMemory) ? self.maxMemory : self.memory)"@,
            message: "spec.memory must not exceed spec.maxMemory"@,
        },
    ]
}

/// What is added to the schema of a version: nothing to one that is not the
/// resource's own or says nothing of the specification; no more than the ceilings
/// where the fields are not known.
pub open spec fn sealing(version: Seq<char>, spec: SpecSchema) -> SealingView {
    if version != VERSION@ || spec is Absent {
        SealingView {
            spec_rules: Seq::empty(),
            field_rules: Seq::empty(),
            merge_conditions: false,
        }
    } else {
        match spec {
            SpecSchema::Fields(f) => SealingView {
                spec_rules: ceiling_rules(),
                field_rules: sealed_fields(collections::views(f@)),
                merge_conditions: true,
            },
            _ => SealingView {
                spec_rules: ceiling_rules(),
                field_rules: Seq::empty(),
                merge_conditions: false,
            },
        }
    }
}

fn write_ceilings() -> (rules: Vec<ValidationRule>)
    ensures
        collections::views(rules@) == ceiling_rules(),
{
    let rules = vec![
        ValidationRule {
            rule: "self.cpus <= (has(self.maxCpus) ? self.maxCpus : self.cpus)".to_owned(),
            message: "spec.cpus must not exceed spec.maxCpus".to_owned(),
        },
        ValidationRule {
            rule: "self.memory <= (has(self.maxMemory) ? self.maxMemory : self.memory)".to_owned(),
            message: "spec.memory must not exceed spec.maxMemory".to_owned(),
        },
    ];
    assert(collections::views(rules@) =~= ceiling_rules());
    rules
}

fn seal_fields(fields: &Vec<String>) -> (out: Vec<FieldRule>)
    ensures
        collections::views(out@) == sealed_fields(collections::views(fields@)),
{
    let mut out: Vec<FieldRule> = Vec::new();
    let ghost all = collections::views(fields@);
    let mut i: usize = 0;
    assert(collections::views(out@) =~= Seq::empty());
    assert(all.take(0) =~= Seq::empty());
    while i < fields.len()
        invariant
            i <= fields.len(),
            all == collections::views(fields@),
            collections::views(out@) == sealed_fields(all.take(i as int)),
        decreases fields.len() - i,
    {
        let ghost before = collections::views(out@);
        proof {
            assert(all.take(i + 1).drop_last() =~= all.take(i as int));
            assert(all.take(i + 1).last() == fields@[i as int]@);
        }
        let field = &fields[i];
        if !mutable(field.as_str()) {
            let r = FieldRule {
                field: field.clone(),
                rule: ValidationRule {
                    rule: "self == oldSelf".to_owned(),
                    message: "spec.".to_owned().concat(field.as_str()).concat(
                        " is immutable after creation",
                    ),
                },
            };
            out.push(r);
            assert(collections::views(out@) =~= before.push(r@));
        }
        i = i + 1;
    }
    assert(all.take(i as int) =~= all);
    out
}

/// What is added to the schema of a version. The types alone cannot say that a field
/// keeps its value, nor how the conditions merge.
pub fn seal(version: &str, spec: &SpecSchema) -> (s: Sealing)
    ensures
        s@ == sealing(version@, *spec),
{
    let none = Sealing {
        spec_rules: Vec::new(),
        field_rules: Vec::new(),
        merge_conditions: false,
    };
    assert(none@.spec_rules =~= Seq::empty());
    assert(none@.field_rules =~= Seq::empty());
    if !text::same(version, VERSION) {
        return none;
    }
    match spec {
        SpecSchema::Absent => none,
        SpecSchema::Opaque => Sealing {
            spec_rules: write_ceilings(),
            field_rules: none.field_rules,
            merge_conditions: false,
        },
        SpecSchema::Fields(f) => Sealing {
            spec_rules: write_ceilings(),
            field_rules: seal_fields(f),
            merge_conditions: true,
        },
    }
}

/// Every field is sealed but the desired state, the CPUs, the memory and the
/// lifecycle, and none of those is.
pub proof fn all_but_the_mutable_fields_are_sealed(fields: Seq<Seq<char>>, field: Seq<char>)
    requires
        fields.contains(field),
    ensures
        sealed_fields(fields).contains(sealed(field)) <==> !is_mutable(field),
    decreases fields.len(),
{
    let rest = fields.drop_last();
    let n = fields.last();
    let before = sealed_fields(rest);
    assert(fields =~= rest.push(n));
    sealed_rules_name_sealed_fields(fields);
    if is_mutable(field) {
        if sealed_fields(fields).contains(sealed(field)) {
            let i = choose|i: int|
                0 <= i < sealed_fields(fields).len() && sealed_fields(fields)[i] == sealed(field);
            assert(!is_mutable(sealed_fields(fields)[i].field));
        }
    } else if n == field {
        assert(sealed_fields(fields)[before.len() as int] == sealed(field));
    } else {
        let k = choose|k: int| 0 <= k < fields.len() && fields[k] == field;
        assert(rest[k] == field);
        all_but_the_mutable_fields_are_sealed(rest, field);
        let i = choose|i: int| 0 <= i < before.len() && before[i] == sealed(field);
        assert(sealed_fields(fields)[i] == sealed(field));
    }
}

/// No rule is on a field that may change.
proof fn sealed_rules_name_sealed_fields(fields: Seq<Seq<char>>)
    ensures
        forall|i: int|
            0 <= i < sealed_fields(fields).len() ==> !is_mutable(
                (#[trigger] sealed_fields(fields)[i]).field,
            ),
    decreases fields.len(),
{
    if fields.len() > 0 {
        let before = sealed_fields(fields.drop_last());
        sealed_rules_name_sealed_fields(fields.drop_last());
        assert forall|i: int| 0 <= i < sealed_fields(fields).len() implies !is_mutable(
            (#[trigger] sealed_fields(fields)[i]).field,
        ) by {
            if i < before.len() {
                assert(sealed_fields(fields)[i] == before[i]);
            }
        }
    }
}

/// Whether a rule of the controller's role lets it do `verb` to a resource of a group.
pub open spec fn granted(group: Seq<char>, resource: Seq<char>, verb: Seq<char>) -> bool {
    exists|i: int|
        {
            &&& 0 <= i < controller_rules().len()
            &&& (#[trigger] controller_rules()[i]).api_groups.contains(group)
            &&& controller_rules()[i].resources.contains(resource)
            &&& controller_rules()[i].verbs.contains(verb)
        }
}

/// Whether the controller's role lets it perform an effect.
pub open spec fn permitted(effect: EffectView) -> bool {
    match effect {
        EffectView::ApplyPod(_) => granted(""@, "pods"@, "create"@) && granted(
            ""@,
            "pods"@,
            "patch"@,
        ),
        EffectView::ApplyService(_) => granted(""@, "services"@, "create"@) && granted(
            ""@,
            "services"@,
            "patch"@,
        ),
        EffectView::PatchStatus(_)
        | EffectView::PatchConditions(_)
        | EffectView::PatchResize { .. } => granted(
            "sandbox.microsandbox.dev"@,
            "sandboxes/status"@,
            "patch"@,
        ),
        EffectView::Publish(_) => granted(""@, "events"@, "create"@),
        EffectView::DeletePod(_) => granted(""@, "pods"@, "delete"@),
        EffectView::DeleteService(_) => granted(""@, "services"@, "delete"@),
        EffectView::DeleteSandbox => granted("sandbox.microsandbox.dev"@, "sandboxes"@, "delete"@),
    }
}

/// The role lets the controller perform whatever it plans, and watch sandboxes and their
/// pods for it.
pub proof fn the_role_covers_every_effect(effect: EffectView)
    ensures
        permitted(effect),
        granted("sandbox.microsandbox.dev"@, "sandboxes"@, "watch"@),
        granted("sandbox.microsandbox.dev"@, "sandboxes"@, "list"@),
        granted(""@, "pods"@, "watch"@),
        granted(""@, "pods"@, "list"@),
        granted(""@, "pods"@, "get"@),
        granted("coordination.k8s.io"@, "leases"@, "get"@),
        granted("coordination.k8s.io"@, "leases"@, "create"@),
        granted("coordination.k8s.io"@, "leases"@, "patch"@),
{
    let rules = controller_rules();
    let (own, core) = ("sandbox.microsandbox.dev"@, ""@);
    rule_grants(0, own, "sandboxes"@);
    rule_grants(1, own, "sandboxes/status"@);
    rule_grants(2, core, "pods"@);
    rule_grants(3, core, "services"@);
    rule_grants(4, "coordination.k8s.io"@, "leases"@);
    rule_grants(5, core, "events"@);
    assert(rules[0].verbs[1] == "list"@ && rules[0].verbs[2] == "watch"@ && rules[0].verbs[3]
        == "delete"@);
    assert(rules[1].verbs[0] == "patch"@);
    assert(rules[2].verbs[0] == "get"@ && rules[2].verbs[1] == "list"@ && rules[2].verbs[2]
        == "watch"@);
    assert(rules[2].verbs[3] == "create"@ && rules[2].verbs[4] == "patch"@ && rules[2].verbs[5]
        == "delete"@);
    assert(rules[3].verbs[1] == "create"@ && rules[3].verbs[2] == "patch"@ && rules[3].verbs[3]
        == "delete"@);
    assert(rules[4].verbs[0] == "get"@ && rules[4].verbs[1] == "create"@ && rules[4].verbs[2]
        == "patch"@);
    assert(rules[5].verbs[0] == "create"@);
}

/// What a rule grants, each of its verbs.
proof fn rule_grants(i: int, group: Seq<char>, resource: Seq<char>)
    requires
        0 <= i < controller_rules().len(),
        controller_rules()[i].api_groups == seq![group],
        controller_rules()[i].resources == seq![resource],
    ensures
        forall|k: int|
            0 <= k < controller_rules()[i].verbs.len() ==> granted(
                group,
                resource,
                #[trigger] controller_rules()[i].verbs[k],
            ),
{
    let r = controller_rules()[i];
    assert(r.api_groups[0] == group);
    assert(r.resources[0] == resource);
    assert forall|k: int| 0 <= k < r.verbs.len() implies granted(
        group,
        resource,
        #[trigger] r.verbs[k],
    ) by {
        assert(r.verbs.contains(r.verbs[k]));
        assert(controller_rules()[i].verbs.contains(r.verbs[k]));
    }
}

/// The rule that seals a field compares it with what it was, and tells which field it is;
/// the rules on the ceilings bound the CPUs and the memory by theirs.
pub proof fn a_sealed_field_keeps_its_value(version: Seq<char>, fields: SpecSchema, i: int)
    requires
        version == "v1alpha1"@,
        fields is Fields,
        0 <= i < sealing(version, fields).field_rules.len(),
    ensures
        sealing(version, fields).field_rules[i].rule.rule == "self == oldSelf"@,
        sealing(version, fields).field_rules[i].rule.message == "spec."@ + sealing(
            version,
            fields,
        ).field_rules[i].field + " is immutable after creation"@,
        sealing(version, fields).field_rules[i].field != "cpus"@,
        sealing(version, fields).field_rules[i].field != "memory"@,
        sealing(version, fields).field_rules[i].field != "desiredState"@,
        sealing(version, fields).field_rules[i].field != "lifecycle"@,
        sealing(version, fields).spec_rules.len() == 2,
        sealing(version, fields).merge_conditions,
{
    sealed_rules_are_sealed(collections::views(fields->Fields_0@));
    sealed_rules_name_sealed_fields(collections::views(fields->Fields_0@));
}

/// Each rule on a field is the one that seals it.
proof fn sealed_rules_are_sealed(fields: Seq<Seq<char>>)
    ensures
        forall|i: int|
            0 <= i < sealed_fields(fields).len() ==> #[trigger] sealed_fields(fields)[i] == sealed(
                sealed_fields(fields)[i].field,
            ),
    decreases fields.len(),
{
    if fields.len() > 0 {
        let before = sealed_fields(fields.drop_last());
        sealed_rules_are_sealed(fields.drop_last());
        assert forall|i: int|
            0 <= i < sealed_fields(fields).len() implies #[trigger] sealed_fields(fields)[i]
            == sealed(sealed_fields(fields)[i].field) by {
            if i < before.len() {
                assert(sealed_fields(fields)[i] == before[i]);
            }
        }
    }
}

/// Every field of the specification but four is sealed: there is a rule on it.
pub proof fn every_other_field_is_sealed(version: Seq<char>, fields: SpecSchema, field: Seq<char>)
    requires
        version == "v1alpha1"@,
        fields is Fields,
        collections::views(fields->Fields_0@).contains(field),
        field != "desiredState"@,
        field != "cpus"@,
        field != "memory"@,
        field != "lifecycle"@,
    ensures
        exists|i: int|
            0 <= i < sealing(version, fields).field_rules.len() && (#[trigger] sealing(
                version,
                fields,
            ).field_rules[i]).field == field,
{
    let all = collections::views(fields->Fields_0@);
    all_but_the_mutable_fields_are_sealed(all, field);
    let rules = sealed_fields(all);
    let i = choose|i: int| 0 <= i < rules.len() && rules[i] == sealed(field);
    assert(sealing(version, fields).field_rules[i].field == field);
}

/// Wherever the specification is described, what a sandbox asks for is held to its
/// ceilings, and to nothing where it has none. The conditions are merged by type exactly
/// where the fields are known.
pub proof fn a_sandbox_is_held_to_its_ceilings(version: Seq<char>, spec: SpecSchema)
    ensures
        version == "v1alpha1"@ && !(spec is Absent) ==> {
            let rules = sealing(version, spec).spec_rules;
            &&& rules.len() == 2
            &&& rules[0].rule == "self.cpus <= (has(self.maxCpus) ? self.maxCpus : self.cpus)"@
            &&& rules[1].rule
                == "self.memory <= (has(self.maxMemory) ? self.maxMemory : self.memory)"@
        },
        spec is Absent || version != "v1alpha1"@ ==> {
            &&& sealing(version, spec).spec_rules.len() == 0
            &&& sealing(version, spec).field_rules.len() == 0
        },
        sealing(version, spec).merge_conditions <==> version == "v1alpha1"@ && spec is Fields,
{
}

} // verus!
