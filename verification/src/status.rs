//! Status documents: the condition that each lifecycle action leaves behind,
//! the patch that records it, and how a stored status reads.
//!
//! A patch is a function of the outcome of one action alone. It is written
//! as a partial document, to be merged into the stored status by the store,
//! and never holds more than the action changes.

use vstd::prelude::*;
use crate::error::ShipcatError;
use crate::json::{
    json_text, no_fields, object_fields, object_new, object_put_bool, object_put_null,
    object_put_object, object_put_text, put_opt_text, with_doc, with_text, write_json, JsonDoc,
    JsonObject,
};
use crate::manifest::{Manifest, ManifestView};
use crate::strings::{join2, join3, same_text, to_upper, uppercase};

verus! {

/// The few properties of a stored manifest that always exist.
#[derive(Debug, PartialEq, Eq)]
pub struct MinimalManifest {
    pub name: String,
    pub version: String,
}

/// The content of [`MinimalManifest`], as a mathematical value.
pub struct MinimalManifestView {
    pub name: Seq<char>,
    pub version: Seq<char>,
}

impl DeepView for MinimalManifest {
    type V = MinimalManifestView;

    open spec fn deep_view(&self) -> MinimalManifestView {
        MinimalManifestView {
            name: self.name.deep_view(),
            version: self.version.deep_view(),
        }
    }
}

impl Clone for MinimalManifest {
    fn clone(&self) -> (copy: Self)
        ensures
            copy.deep_view() == self.deep_view(),
    {
        let copy = MinimalManifest {
            name: self.name.clone(),
            version: self.version.clone(),
        };
        copy
    }
}

/// Who is credited with a lifecycle action: a person or an automation.
#[derive(Debug, PartialEq, Eq)]
pub struct Applier {
    /// A name that people can read.
    pub name: String,
    /// Where the action came from, if that has an address.
    pub url: Option<String>,
}

/// The content of [`Applier`], as a mathematical value.
pub struct ApplierView {
    pub name: Seq<char>,
    pub url: Option<Seq<char>>,
}

impl DeepView for Applier {
    type V = ApplierView;

    open spec fn deep_view(&self) -> ApplierView {
        ApplierView {
            name: self.name.deep_view(),
            url: self.url.deep_view(),
        }
    }
}

impl Clone for Applier {
    fn clone(&self) -> (copy: Self)
        ensures
            copy.deep_view() == self.deep_view(),
    {
        let copy = Applier {
            name: self.name.clone(),
            url: self.url.clone(),
        };
        copy
    }
}

/// What the environment says of who runs the program.
#[derive(Debug, PartialEq, Eq)]
pub struct BuildEnvironment {
    /// Jenkins: the address of the build.
    pub build_url: Option<String>,
    /// Jenkins: the job.
    pub job_name: Option<String>,
    /// Jenkins: the number of the build.
    pub build_number: Option<String>,
    /// CircleCI: the address of the build.
    pub circle_build_url: Option<String>,
    /// CircleCI: the job.
    pub circle_job: Option<String>,
    /// CircleCI: the number of the build.
    pub circle_build_num: Option<String>,
    /// The user who is logged in.
    pub user: Option<String>,
}

/// The content of [`BuildEnvironment`], as a mathematical value.
pub struct BuildEnvironmentView {
    pub build_url: Option<Seq<char>>,
    pub job_name: Option<Seq<char>>,
    pub build_number: Option<Seq<char>>,
    pub circle_build_url: Option<Seq<char>>,
    pub circle_job: Option<Seq<char>>,
    pub circle_build_num: Option<Seq<char>>,
    pub user: Option<Seq<char>>,
}

impl DeepView for BuildEnvironment {
    type V = BuildEnvironmentView;

    open spec fn deep_view(&self) -> BuildEnvironmentView {
        BuildEnvironmentView {
            build_url: self.build_url.deep_view(),
            job_name: self.job_name.deep_view(),
            build_number: self.build_number.deep_view(),
            circle_build_url: self.circle_build_url.deep_view(),
            circle_job: self.circle_job.deep_view(),
            circle_build_num: self.circle_build_num.deep_view(),
            user: self.user.deep_view(),
        }
    }
}

/// Whether the last run of one lifecycle action succeeded, who ran it and when.
#[derive(Debug, PartialEq, Eq)]
pub struct Condition {
    /// Whether the action succeeded.
    pub status: bool,
    /// On failure, a reason for machines.
    pub reason: Option<String>,
    /// On failure, a message for people.
    pub message: Option<String>,
    /// When the condition was written, as an RFC 3339 timestamp.
    pub last_transition: String,
    /// Who ran the action.
    pub source: Option<Applier>,
}

/// The content of [`Condition`], as a mathematical value.
pub struct ConditionView {
    pub status: bool,
    pub reason: Option<Seq<char>>,
    pub message: Option<Seq<char>>,
    pub last_transition: Seq<char>,
    pub source: Option<ApplierView>,
}

impl DeepView for Condition {
    type V = ConditionView;

    open spec fn deep_view(&self) -> ConditionView {
        ConditionView {
            status: self.status.deep_view(),
            reason: self.reason.deep_view(),
            message: self.message.deep_view(),
            last_transition: self.last_transition.deep_view(),
            source: self.source.deep_view(),
        }
    }
}

impl Clone for Condition {
    fn clone(&self) -> (copy: Self)
        ensures
            copy.deep_view() == self.deep_view(),
    {
        let copy = Condition {
            status: self.status,
            reason: self.reason.clone(),
            message: self.message.clone(),
            last_transition: self.last_transition.clone(),
            source: (match &self.source {
                Some(inner) => Some(inner.clone()),
                None => None,
            }),
        };
        copy
    }
}

/// The conditions of the three lifecycle actions.
#[derive(Debug, PartialEq, Eq)]
pub struct Conditions {
    pub generated: Option<Condition>,
    pub applied: Option<Condition>,
    pub rolledout: Option<Condition>,
}

/// The content of [`Conditions`], as a mathematical value.
pub struct ConditionsView {
    pub generated: Option<ConditionView>,
    pub applied: Option<ConditionView>,
    pub rolledout: Option<ConditionView>,
}

impl DeepView for Conditions {
    type V = ConditionsView;

    open spec fn deep_view(&self) -> ConditionsView {
        ConditionsView {
            generated: self.generated.deep_view(),
            applied: self.applied.deep_view(),
            rolledout: self.rolledout.deep_view(),
        }
    }
}

/// The summary of a stored status.
#[derive(Debug, PartialEq, Eq)]
pub struct ConditionSummary {
    pub last_action: Option<String>,
    pub last_failure_reason: Option<String>,
    pub last_successful_generate: Option<String>,
    pub last_apply: Option<String>,
    pub last_successful_apply: Option<String>,
    pub last_apply_reason: Option<String>,
    pub last_rollout: Option<String>,
    pub last_successful_rollout: Option<String>,
    /// The version that was last rolled out successfully.
    pub last_successful_rollout_version: Option<String>,
}

/// The content of [`ConditionSummary`], as a mathematical value.
pub struct ConditionSummaryView {
    pub last_action: Option<Seq<char>>,
    pub last_failure_reason: Option<Seq<char>>,
    pub last_successful_generate: Option<Seq<char>>,
    pub last_apply: Option<Seq<char>>,
    pub last_successful_apply: Option<Seq<char>>,
    pub last_apply_reason: Option<Seq<char>>,
    pub last_rollout: Option<Seq<char>>,
    pub last_successful_rollout: Option<Seq<char>>,
    pub last_successful_rollout_version: Option<Seq<char>>,
}

impl DeepView for ConditionSummary {
    type V = ConditionSummaryView;

    open spec fn deep_view(&self) -> ConditionSummaryView {
        ConditionSummaryView {
            last_action: self.last_action.deep_view(),
            last_failure_reason: self.last_failure_reason.deep_view(),
            last_successful_generate: self.last_successful_generate.deep_view(),
            last_apply: self.last_apply.deep_view(),
            last_successful_apply: self.last_successful_apply.deep_view(),
            last_apply_reason: self.last_apply_reason.deep_view(),
            last_rollout: self.last_rollout.deep_view(),
            last_successful_rollout: self.last_successful_rollout.deep_view(),
            last_successful_rollout_version: self.last_successful_rollout_version.deep_view(),
        }
    }
}

/// The status stored with a manifest.
#[derive(Debug, PartialEq, Eq)]
pub struct ManifestStatus {
    pub conditions: Conditions,
    pub summary: Option<ConditionSummary>,
}

/// The content of [`ManifestStatus`], as a mathematical value.
pub struct ManifestStatusView {
    pub conditions: ConditionsView,
    pub summary: Option<ConditionSummaryView>,
}

impl DeepView for ManifestStatus {
    type V = ManifestStatusView;

    open spec fn deep_view(&self) -> ManifestStatusView {
        ManifestStatusView {
            conditions: self.conditions.deep_view(),
            summary: self.summary.deep_view(),
        }
    }
}

/// What a patch changes of the stored summary.
#[derive(Debug, PartialEq, Eq)]
pub struct SummaryPatch {
    pub last_action: String,
    pub last_failure_reason: PatchField,
    pub last_successful_generate: Option<String>,
    pub last_apply: Option<String>,
    pub last_successful_apply: Option<String>,
    pub last_apply_reason: Option<String>,
    pub last_rollout: Option<String>,
    pub last_successful_rollout: Option<String>,
    pub last_successful_rollout_version: Option<String>,
}

/// The content of [`SummaryPatch`], as a mathematical value.
pub struct SummaryPatchView {
    pub last_action: Seq<char>,
    pub last_failure_reason: PatchFieldView,
    pub last_successful_generate: Option<Seq<char>>,
    pub last_apply: Option<Seq<char>>,
    pub last_successful_apply: Option<Seq<char>>,
    pub last_apply_reason: Option<Seq<char>>,
    pub last_rollout: Option<Seq<char>>,
    pub last_successful_rollout: Option<Seq<char>>,
    pub last_successful_rollout_version: Option<Seq<char>>,
}

impl DeepView for SummaryPatch {
    type V = SummaryPatchView;

    open spec fn deep_view(&self) -> SummaryPatchView {
        SummaryPatchView {
            last_action: self.last_action.deep_view(),
            last_failure_reason: self.last_failure_reason.deep_view(),
            last_successful_generate: self.last_successful_generate.deep_view(),
            last_apply: self.last_apply.deep_view(),
            last_successful_apply: self.last_successful_apply.deep_view(),
            last_apply_reason: self.last_apply_reason.deep_view(),
            last_rollout: self.last_rollout.deep_view(),
            last_successful_rollout: self.last_successful_rollout.deep_view(),
            last_successful_rollout_version: self.last_successful_rollout_version.deep_view(),
        }
    }
}

/// A patch of the stored status: what one action changes, and nothing else.
#[derive(Debug, PartialEq, Eq)]
pub struct StatusPatch {
    pub conditions: Conditions,
    pub summary: SummaryPatch,
}

/// The content of [`StatusPatch`], as a mathematical value.
pub struct StatusPatchView {
    pub conditions: ConditionsView,
    pub summary: SummaryPatchView,
}

impl DeepView for StatusPatch {
    type V = StatusPatchView;

    open spec fn deep_view(&self) -> StatusPatchView {
        StatusPatchView {
            conditions: self.conditions.deep_view(),
            summary: self.summary.deep_view(),
        }
    }
}

/// How long ago each condition of a stored status was written, where that can
/// be told.
#[derive(Debug, PartialEq, Eq)]
pub struct ConditionAges {
    pub generated: Option<String>,
    pub applied: Option<String>,
    pub rolledout: Option<String>,
}

/// The content of [`ConditionAges`], as a mathematical value.
pub struct ConditionAgesView {
    pub generated: Option<Seq<char>>,
    pub applied: Option<Seq<char>>,
    pub rolledout: Option<Seq<char>>,
}

impl DeepView for ConditionAges {
    type V = ConditionAgesView;

    open spec fn deep_view(&self) -> ConditionAgesView {
        ConditionAgesView {
            generated: self.generated.deep_view(),
            applied: self.applied.deep_view(),
            rolledout: self.rolledout.deep_view(),
        }
    }
}

/// The interface to the stored object of one service.
#[derive(Debug, PartialEq, Eq)]
pub struct ShipKube {
    /// The service.
    pub name: String,
    pub namespace: String,
    /// Who is credited with what is done.
    pub applier: Applier,
}

/// The content of [`ShipKube`], as a mathematical value.
pub struct ShipKubeView {
    pub name: Seq<char>,
    pub namespace: Seq<char>,
    pub applier: ApplierView,
}

impl DeepView for ShipKube {
    type V = ShipKubeView;

    open spec fn deep_view(&self) -> ShipKubeView {
        ShipKubeView {
            name: self.name.deep_view(),
            namespace: self.namespace.deep_view(),
            applier: self.applier.deep_view(),
        }
    }
}

/// What a patch does to one field of the stored summary.
#[derive(Debug, PartialEq, Eq)]
pub enum PatchField {
    /// The field is not in the patch: the stored value stays.
    Keep,
    /// The patch holds null: the stored value is cleared.
    Clear,
    /// The patch holds a value: it replaces the stored one.
    Put(String),
}

/// The content of [`PatchField`], as a mathematical value.
pub enum PatchFieldView {
    Keep,
    Clear,
    Put(Seq<char>),
}

impl DeepView for PatchField {
    type V = PatchFieldView;

    open spec fn deep_view(&self) -> PatchFieldView {
        match self {
            PatchField::Keep => PatchFieldView::Keep,
            PatchField::Clear => PatchFieldView::Clear,
            PatchField::Put(s) => PatchFieldView::Put(s@),
        }
    }
}

/// The condition of an action that succeeded: who performed it and when.
pub open spec fn ok_condition(applier: ApplierView, now: Seq<char>) -> ConditionView {
    ConditionView { status: true, reason: None, message: None, last_transition: now, source: Some(applier) }
}

/// The condition of an action that failed: who performed it and when, a
/// reason for machines and a message for people.
pub open spec fn bad_condition(
    applier: ApplierView,
    err: Seq<char>,
    msg: Seq<char>,
    now: Seq<char>,
) -> ConditionView {
    ConditionView {
        status: false,
        reason: Some(err),
        message: Some(msg),
        last_transition: now,
        source: Some(applier),
    }
}

impl Condition {
    /// The condition of an action that succeeded at the time `now`.
    pub fn ok(a: &Applier, now: &str) -> (condition: Condition)
        ensures
            condition.deep_view() == ok_condition(a.deep_view(), now@),
    {
        Condition {
            status: true,
            reason: None,
            message: None,
            last_transition: String::from_str(now),
            source: Some(a.clone()),
        }
    }

    /// The condition of an action that failed at the time `now`.
    pub fn bad(a: &Applier, err: &str, msg: String, now: &str) -> (condition: Condition)
        ensures
            condition.deep_view() == bad_condition(a.deep_view(), err@, msg@, now@),
    {
        Condition {
            status: false,
            reason: Some(String::from_str(err)),
            message: Some(msg),
            last_transition: String::from_str(now),
            source: Some(a.clone()),
        }
    }
}

/// Who is credited with an action, given what the environment says: a
/// Jenkins job when its three variables are set, else a CircleCI job when
/// its three are, else the user, else nobody known.
pub open spec fn inferred_applier(env: BuildEnvironmentView) -> ApplierView {
    if env.build_url is Some && env.job_name is Some && env.build_number is Some {
        ApplierView { name: env.job_name->0 + "#"@ + env.build_number->0, url: env.build_url }
    } else if env.circle_build_url is Some && env.circle_job is Some && env.circle_build_num is Some {
        ApplierView { name: env.circle_job->0 + "#"@ + env.circle_build_num->0, url: env.circle_build_url }
    } else if env.user is Some {
        ApplierView { name: env.user->0, url: None }
    } else {
        ApplierView { name: "unknown"@, url: None }
    }
}

impl Applier {
    /// Infers who is credited with an action from what the environment says.
    pub fn infer(env: &BuildEnvironment) -> (applier: Applier)
        ensures
            applier.deep_view() == inferred_applier(env.deep_view()),
    {
        match (&env.build_url, &env.job_name, &env.build_number) {
            (Some(url), Some(name), Some(nr)) => {
                return Applier { name: join3(name.as_str(), "#", nr.as_str()), url: Some(url.clone()) };
            },
            _ => {},
        }
        match (&env.circle_build_url, &env.circle_job, &env.circle_build_num) {
            (Some(url), Some(name), Some(nr)) => {
                return Applier { name: join3(name.as_str(), "#", nr.as_str()), url: Some(url.clone()) };
            },
            _ => {},
        }
        match &env.user {
            Some(user) => Applier { name: user.clone(), url: None },
            None => Applier { name: String::from_str("unknown"), url: None },
        }
    }
}

impl ConditionsView {
    /// No condition.
    pub open spec fn none() -> ConditionsView {
        ConditionsView { generated: None, applied: None, rolledout: None }
    }
}

impl SummaryPatchView {
    /// The summary patch that records the action and nothing else.
    pub open spec fn of(action: Seq<char>) -> SummaryPatchView {
        SummaryPatchView {
            last_action: action,
            last_failure_reason: PatchFieldView::Keep,
            last_successful_generate: None,
            last_apply: None,
            last_successful_apply: None,
            last_apply_reason: None,
            last_rollout: None,
            last_successful_rollout: None,
            last_successful_rollout_version: None,
        }
    }
}

impl SummaryPatch {
    fn of(action: &str) -> (summary: SummaryPatch)
        ensures
            summary.deep_view() == SummaryPatchView::of(action@),
    {
        SummaryPatch {
            last_action: String::from_str(action),
            last_failure_reason: PatchField::Keep,
            last_successful_generate: None,
            last_apply: None,
            last_successful_apply: None,
            last_apply_reason: None,
            last_rollout: None,
            last_successful_rollout: None,
            last_successful_rollout_version: None,
        }
    }
}

/// The patch that records a successful generate.
pub open spec fn generate_true_patch(applier: ApplierView, now: Seq<char>) -> StatusPatchView {
    StatusPatchView {
        conditions: ConditionsView { generated: Some(ok_condition(applier, now)), ..ConditionsView::none() },
        summary: SummaryPatchView { last_successful_generate: Some(now), ..SummaryPatchView::of("Generate"@) },
    }
}

/// The patch that records a failed generate.
pub open spec fn generate_false_patch(
    applier: ApplierView,
    err: Seq<char>,
    reason: Seq<char>,
    now: Seq<char>,
) -> StatusPatchView {
    StatusPatchView {
        conditions: ConditionsView {
            generated: Some(bad_condition(applier, err, reason, now)),
            ..ConditionsView::none()
        },
        summary: SummaryPatchView {
            last_failure_reason: PatchFieldView::Put(reason),
            ..SummaryPatchView::of("Generate"@)
        },
    }
}

/// The patch that records a successful apply.
pub open spec fn apply_true_patch(applier: ApplierView, ureason: Seq<char>, now: Seq<char>) -> StatusPatchView {
    StatusPatchView {
        conditions: ConditionsView { applied: Some(ok_condition(applier, now)), ..ConditionsView::none() },
        summary: SummaryPatchView {
            last_apply: Some(now),
            last_successful_apply: Some(now),
            last_apply_reason: Some(ureason),
            ..SummaryPatchView::of("Apply"@)
        },
    }
}

/// The patch that records a failed apply.
pub open spec fn apply_false_patch(
    applier: ApplierView,
    ureason: Seq<char>,
    err: Seq<char>,
    reason: Seq<char>,
    now: Seq<char>,
) -> StatusPatchView {
    StatusPatchView {
        conditions: ConditionsView {
            applied: Some(bad_condition(applier, err, reason, now)),
            ..ConditionsView::none()
        },
        summary: SummaryPatchView {
            last_apply: Some(now),
            last_failure_reason: PatchFieldView::Put(reason),
            last_apply_reason: Some(ureason),
            ..SummaryPatchView::of("Apply"@)
        },
    }
}

/// The patch that records a failed rollout.
pub open spec fn rollout_false_patch(
    applier: ApplierView,
    err: Seq<char>,
    reason: Seq<char>,
    now: Seq<char>,
) -> StatusPatchView {
    StatusPatchView {
        conditions: ConditionsView {
            rolledout: Some(bad_condition(applier, err, reason, now)),
            ..ConditionsView::none()
        },
        summary: SummaryPatchView {
            last_rollout: Some(now),
            last_failure_reason: PatchFieldView::Put(reason),
            ..SummaryPatchView::of("Rollout"@)
        },
    }
}

/// The patch that records a successful rollout: besides the condition, it
/// clears the last failure reason and marks the version as the last one
/// rolled out successfully.
pub open spec fn rollout_true_patch(applier: ApplierView, version: Seq<char>, now: Seq<char>) -> StatusPatchView {
    StatusPatchView {
        conditions: ConditionsView { rolledout: Some(ok_condition(applier, now)), ..ConditionsView::none() },
        summary: SummaryPatchView {
            last_rollout: Some(now),
            last_successful_rollout: Some(now),
            last_failure_reason: PatchFieldView::Clear,
            last_successful_rollout_version: Some(version),
            ..SummaryPatchView::of("Rollout"@)
        },
    }
}

/// The object under which a manifest is stored, as a JSON document: its
/// `apiVersion` and `kind`, the `name` and `namespace` under `metadata`,
/// and the manifest under `spec`.
pub open spec fn stored_object(mf: ManifestView) -> Map<Seq<char>, JsonDoc> {
    no_fields().insert("apiVersion"@, JsonDoc::Text("babylontech.co.uk/v1"@)).insert(
        "kind"@,
        JsonDoc::Text("ShipcatManifest"@),
    ).insert(
        "metadata"@,
        JsonDoc::Object(
            no_fields().insert("name"@, JsonDoc::Text(mf.name)).insert("namespace"@, JsonDoc::Text(mf.namespace)),
        ),
    ).insert("spec"@, JsonDoc::Object(mf.doc()))
}

/// A request to the store of cluster objects. The library describes the
/// request; its caller performs it.
#[derive(Debug, PartialEq, Eq)]
pub enum ClusterRequest {
    /// Fetch the full object of the named service.
    Get { name: String },
    /// Fetch the few properties of the named service that always exist.
    GetMinimal { name: String },
    /// Create or replace the object of the named service in the namespace.
    /// The body is the object, a JSON document.
    Apply { name: String, namespace: String, body: Vec<u8> },
    /// Merge the body, a JSON document, into the status of the named service.
    PatchStatus { name: String, body: Vec<u8> },
    /// Delete the object of the named service.
    Delete { name: String },
}

impl ShipKube {
    /// The interface to the object of service `svc` in namespace `ns`, with
    /// `applier` credited for what is done through it.
    pub fn new_within(svc: &str, ns: &str, applier: Applier) -> (kube: ShipKube)
        ensures
            kube.deep_view() == (ShipKubeView { name: svc@, namespace: ns@, applier: applier.deep_view() }),
    {
        ShipKube { name: String::from_str(svc), namespace: String::from_str(ns), applier }
    }

    /// The interface to the object of a manifest's service.
    pub fn new(mf: &Manifest, applier: Applier) -> (kube: ShipKube)
        ensures
            kube.deep_view() == (ShipKubeView {
                name: mf.deep_view().name,
                namespace: mf.deep_view().namespace,
                applier: applier.deep_view(),
            }),
    {
        ShipKube::new_within(mf.name.as_str(), mf.namespace.as_str(), applier)
    }

    /// The request that applies a manifest. Only a manifest with a version
    /// is applied, and for such a manifest there always is a request. The
    /// body is the stored object as `serde_json` writes it.
    pub fn apply(&self, mf: &Manifest) -> (request: Result<ClusterRequest, ShipcatError>)
        requires
            mf.version is Some,
        ensures
            request matches Ok(r) && r matches ClusterRequest::Apply { name, namespace, body } && name@
                == mf.deep_view().name && namespace@ == mf.deep_view().namespace && body@ == json_text(
                stored_object(mf.deep_view()),
            ),
    {
        let mut metadata = object_new();
        object_put_text(&mut metadata, "name", mf.name.as_str());
        object_put_text(&mut metadata, "namespace", mf.namespace.as_str());
        let mut object = object_new();
        object_put_text(&mut object, "apiVersion", "babylontech.co.uk/v1");
        object_put_text(&mut object, "kind", "ShipcatManifest");
        object_put_object(&mut object, "metadata", metadata);
        object_put_object(&mut object, "spec", mf.to_json());
        match write_json(&object) {
            Ok(body) => Ok(ClusterRequest::Apply { name: mf.name.clone(), namespace: mf.namespace.clone(), body }),
            Err(e) => Err(e),
        }
    }

    /// The request that applies a manifest, or none for a manifest without
    /// a version.
    pub fn try_apply(&self, mf: &Manifest) -> (request: Option<Result<ClusterRequest, ShipcatError>>)
        ensures
            request is Some <==> mf.version is Some,
            mf.version is Some ==> (request matches Some(Ok(r)) && r matches ClusterRequest::Apply {
                name,
                namespace,
                body,
            } && name@ == mf.deep_view().name && namespace@ == mf.deep_view().namespace && body@
                == json_text(stored_object(mf.deep_view()))),
    {
        if mf.version.is_some() {
            Some(self.apply(mf))
        } else {
            None
        }
    }

    /// The request that fetches the full object.
    pub fn get(&self) -> (request: ClusterRequest)
        ensures
            request matches ClusterRequest::Get { name } && name@ == self.deep_view().name,
    {
        ClusterRequest::Get { name: self.name.clone() }
    }

    /// The request that fetches the few properties that always exist.
    pub fn get_minimal(&self) -> (request: ClusterRequest)
        ensures
            request matches ClusterRequest::GetMinimal { name } && name@ == self.deep_view().name,
    {
        ClusterRequest::GetMinimal { name: self.name.clone() }
    }

    /// The request that deletes the object.
    pub fn delete(&self) -> (request: ClusterRequest)
        ensures
            request matches ClusterRequest::Delete { name } && name@ == self.deep_view().name,
    {
        ClusterRequest::Delete { name: self.name.clone() }
    }

    /// The request that merges a patch into the status of the object;
    /// there always is one. The body is the patch as `serde_json` writes it.
    pub fn patch(&self, data: &StatusPatch) -> (request: Result<ClusterRequest, ShipcatError>)
        ensures
            request matches Ok(r) && r matches ClusterRequest::PatchStatus { name, body } && name@
                == self.deep_view().name && body@ == json_text(patch_json(data.deep_view())),
    {
        match data.to_bytes() {
            Ok(body) => Ok(ClusterRequest::PatchStatus { name: self.name.clone(), body }),
            Err(e) => Err(e),
        }
    }

    /// The patch that records a successful generate at the time `now`.
    pub fn update_generate_true(&self, now: &str) -> (patch: StatusPatch)
        ensures
            patch.deep_view() == generate_true_patch(self.deep_view().applier, now@),
    {
        StatusPatch {
            conditions: Conditions {
                generated: Some(Condition::ok(&self.applier, now)),
                applied: None,
                rolledout: None,
            },
            summary: SummaryPatch {
                last_successful_generate: Some(String::from_str(now)),
                ..SummaryPatch::of("Generate")
            },
        }
    }

    /// The patch that records a failed generate at the time `now`.
    pub fn update_generate_false(&self, err: &str, reason: String, now: &str) -> (patch: StatusPatch)
        ensures
            patch.deep_view() == generate_false_patch(self.deep_view().applier, err@, reason@, now@),
    {
        StatusPatch {
            conditions: Conditions {
                generated: Some(Condition::bad(&self.applier, err, reason.clone(), now)),
                applied: None,
                rolledout: None,
            },
            summary: SummaryPatch { last_failure_reason: PatchField::Put(reason), ..SummaryPatch::of("Generate") },
        }
    }

    /// The patch that records a successful apply at the time `now`.
    pub fn update_apply_true(&self, ureason: String, now: &str) -> (patch: StatusPatch)
        ensures
            patch.deep_view() == apply_true_patch(self.deep_view().applier, ureason@, now@),
    {
        StatusPatch {
            conditions: Conditions {
                generated: None,
                applied: Some(Condition::ok(&self.applier, now)),
                rolledout: None,
            },
            summary: SummaryPatch {
                last_apply: Some(String::from_str(now)),
                last_successful_apply: Some(String::from_str(now)),
                last_apply_reason: Some(ureason),
                ..SummaryPatch::of("Apply")
            },
        }
    }

    /// The patch that records a failed apply at the time `now`.
    pub fn update_apply_false(&self, ureason: String, err: &str, reason: String, now: &str) -> (patch:
        StatusPatch)
        ensures
            patch.deep_view() == apply_false_patch(self.deep_view().applier, ureason@, err@, reason@, now@),
    {
        StatusPatch {
            conditions: Conditions {
                generated: None,
                applied: Some(Condition::bad(&self.applier, err, reason.clone(), now)),
                rolledout: None,
            },
            summary: SummaryPatch {
                last_apply: Some(String::from_str(now)),
                last_failure_reason: PatchField::Put(reason),
                last_apply_reason: Some(ureason),
                ..SummaryPatch::of("Apply")
            },
        }
    }

    /// The patch that records a failed rollout at the time `now`.
    pub fn update_rollout_false(&self, err: &str, reason: String, now: &str) -> (patch: StatusPatch)
        ensures
            patch.deep_view() == rollout_false_patch(self.deep_view().applier, err@, reason@, now@),
    {
        StatusPatch {
            conditions: Conditions {
                generated: None,
                applied: None,
                rolledout: Some(Condition::bad(&self.applier, err, reason.clone(), now)),
            },
            summary: SummaryPatch {
                last_rollout: Some(String::from_str(now)),
                last_failure_reason: PatchField::Put(reason),
                ..SummaryPatch::of("Rollout")
            },
        }
    }

    /// The patch that records a successful rollout of `version` at the time
    /// `now`.
    pub fn update_rollout_true(&self, version: &str, now: &str) -> (patch: StatusPatch)
        ensures
            patch.deep_view() == rollout_true_patch(self.deep_view().applier, version@, now@),
    {
        StatusPatch {
            conditions: Conditions {
                generated: None,
                applied: None,
                rolledout: Some(Condition::ok(&self.applier, now)),
            },
            summary: SummaryPatch {
                last_rollout: Some(String::from_str(now)),
                last_successful_rollout: Some(String::from_str(now)),
                last_failure_reason: PatchField::Clear,
                last_successful_rollout_version: Some(String::from_str(version)),
                ..SummaryPatch::of("Rollout")
            },
        }
    }
}

/// An applier as JSON: `name`, and `url` when there is one.
pub open spec fn applier_json(a: ApplierView) -> JsonDoc {
    JsonDoc::Object(with_text(no_fields().insert("name"@, JsonDoc::Text(a.name)), "url"@, a.url))
}

/// A condition as JSON: `status` and `lastTransitionTime`, and `reason`,
/// `message` and `source` when they are set.
pub open spec fn condition_json(c: ConditionView) -> JsonDoc {
    JsonDoc::Object(
        with_doc(
            with_text(
                with_text(no_fields().insert("status"@, JsonDoc::Bool(c.status)), "reason"@, c.reason),
                "message"@,
                c.message,
            ).insert("lastTransitionTime"@, JsonDoc::Text(c.last_transition)),
            "source"@,
            match c.source {
                Some(a) => Some(applier_json(a)),
                None => None,
            },
        ),
    )
}

/// An optional condition as an optional JSON document.
pub open spec fn opt_condition_json(c: Option<ConditionView>) -> Option<JsonDoc> {
    match c {
        Some(c) => Some(condition_json(c)),
        None => None,
    }
}

/// The conditions of a patch as JSON, under the keys `generated`, `applied`
/// and `rolledout`.
pub open spec fn conditions_json(c: ConditionsView) -> JsonDoc {
    JsonDoc::Object(
        with_doc(
            with_doc(
                with_doc(no_fields(), "generated"@, opt_condition_json(c.generated)),
                "applied"@,
                opt_condition_json(c.applied),
            ),
            "rolledout"@,
            opt_condition_json(c.rolledout),
        ),
    )
}

/// The summary of a patch as JSON. A field that the patch keeps is left
/// out; a field that it clears is null.
pub open spec fn summary_json(s: SummaryPatchView) -> JsonDoc {
    JsonDoc::Object(
        with_text(
            with_text(
                with_text(
                    with_text(
                        with_text(
                            with_text(
                                with_text(
                                    with_doc(
                                        no_fields().insert("lastAction"@, JsonDoc::Text(s.last_action)),
                                        "lastFailureReason"@,
                                        match s.last_failure_reason {
                                            PatchFieldView::Keep => None,
                                            PatchFieldView::Clear => Some(JsonDoc::Null),
                                            PatchFieldView::Put(t) => Some(JsonDoc::Text(t)),
                                        },
                                    ),
                                    "lastSuccessfulGenerate"@,
                                    s.last_successful_generate,
                                ),
                                "lastApply"@,
                                s.last_apply,
                            ),
                            "lastSuccessfulApply"@,
                            s.last_successful_apply,
                        ),
                        "lastApplyReason"@,
                        s.last_apply_reason,
                    ),
                    "lastRollout"@,
                    s.last_rollout,
                ),
                "lastSuccessfulRollout"@,
                s.last_successful_rollout,
            ),
            "lastSuccessfulRolloutVersion"@,
            s.last_successful_rollout_version,
        ),
    )
}

/// A patch as a JSON document: under `status`, the `conditions` and the
/// `summary`.
pub open spec fn patch_json(p: StatusPatchView) -> Map<Seq<char>, JsonDoc> {
    no_fields().insert(
        "status"@,
        JsonDoc::Object(
            no_fields().insert("conditions"@, conditions_json(p.conditions)).insert(
                "summary"@,
                summary_json(p.summary),
            ),
        ),
    )
}

fn applier_object(a: &Applier) -> (object: JsonObject)
    ensures
        JsonDoc::Object(object_fields(object)) == applier_json(a.deep_view()),
{
    let mut object = object_new();
    object_put_text(&mut object, "name", a.name.as_str());
    put_opt_text(&mut object, "url", &a.url);
    object
}

fn condition_object(c: &Condition) -> (object: JsonObject)
    ensures
        JsonDoc::Object(object_fields(object)) == condition_json(c.deep_view()),
{
    let mut object = object_new();
    object_put_bool(&mut object, "status", c.status);
    put_opt_text(&mut object, "reason", &c.reason);
    put_opt_text(&mut object, "message", &c.message);
    object_put_text(&mut object, "lastTransitionTime", c.last_transition.as_str());
    match &c.source {
        Some(a) => object_put_object(&mut object, "source", applier_object(a)),
        None => {},
    }
    object
}

fn put_condition(object: &mut JsonObject, key: &str, c: &Option<Condition>)
    ensures
        object_fields(*final(object)) == with_doc(
            object_fields(*old(object)),
            key@,
            opt_condition_json(c.deep_view()),
        ),
{
    match c {
        Some(c) => object_put_object(object, key, condition_object(c)),
        None => {},
    }
}

fn conditions_object(c: &Conditions) -> (object: JsonObject)
    ensures
        JsonDoc::Object(object_fields(object)) == conditions_json(c.deep_view()),
{
    let mut object = object_new();
    put_condition(&mut object, "generated", &c.generated);
    put_condition(&mut object, "applied", &c.applied);
    put_condition(&mut object, "rolledout", &c.rolledout);
    object
}

fn summary_object(s: &SummaryPatch) -> (object: JsonObject)
    ensures
        JsonDoc::Object(object_fields(object)) == summary_json(s.deep_view()),
{
    let mut object = object_new();
    object_put_text(&mut object, "lastAction", s.last_action.as_str());
    match &s.last_failure_reason {
        PatchField::Keep => {},
        PatchField::Clear => object_put_null(&mut object, "lastFailureReason"),
        PatchField::Put(t) => object_put_text(&mut object, "lastFailureReason", t.as_str()),
    }
    put_opt_text(&mut object, "lastSuccessfulGenerate", &s.last_successful_generate);
    put_opt_text(&mut object, "lastApply", &s.last_apply);
    put_opt_text(&mut object, "lastSuccessfulApply", &s.last_successful_apply);
    put_opt_text(&mut object, "lastApplyReason", &s.last_apply_reason);
    put_opt_text(&mut object, "lastRollout", &s.last_rollout);
    put_opt_text(&mut object, "lastSuccessfulRollout", &s.last_successful_rollout);
    put_opt_text(&mut object, "lastSuccessfulRolloutVersion", &s.last_successful_rollout_version);
    object
}

impl StatusPatch {
    /// The patch as a JSON object of `serde_json`.
    pub fn to_json(&self) -> (object: JsonObject)
        ensures
            object_fields(object) == patch_json(self.deep_view()),
    {
        let mut status = object_new();
        object_put_object(&mut status, "conditions", conditions_object(&self.conditions));
        object_put_object(&mut status, "summary", summary_object(&self.summary));
        let mut object = object_new();
        object_put_object(&mut object, "status", status);
        object
    }

    /// The patch as the bytes of a JSON document, as `serde_json` writes it.
    /// A patch can always be written.
    pub fn to_bytes(&self) -> (written: Result<Vec<u8>, ShipcatError>)
        ensures
            written matches Ok(bytes) && bytes@ == json_text(patch_json(self.deep_view())),
    {
        write_json(&self.to_json())
    }
}

/// Each action writes exactly one condition: a patch sets the condition of
/// its own action and neither of the others, and the summary names the
/// action.
pub proof fn lemma_one_condition_per_action(
    applier: ApplierView,
    ureason: Seq<char>,
    err: Seq<char>,
    reason: Seq<char>,
    version: Seq<char>,
    now: Seq<char>,
)
    ensures
        generate_true_patch(applier, now).conditions == (ConditionsView {
            generated: Some(ok_condition(applier, now)),
            applied: None,
            rolledout: None,
        }),
        generate_false_patch(applier, err, reason, now).conditions == (ConditionsView {
            generated: Some(bad_condition(applier, err, reason, now)),
            applied: None,
            rolledout: None,
        }),
        apply_true_patch(applier, ureason, now).conditions == (ConditionsView {
            generated: None,
            applied: Some(ok_condition(applier, now)),
            rolledout: None,
        }),
        apply_false_patch(applier, ureason, err, reason, now).conditions == (ConditionsView {
            generated: None,
            applied: Some(bad_condition(applier, err, reason, now)),
            rolledout: None,
        }),
        rollout_false_patch(applier, err, reason, now).conditions == (ConditionsView {
            generated: None,
            applied: None,
            rolledout: Some(bad_condition(applier, err, reason, now)),
        }),
        rollout_true_patch(applier, version, now).conditions == (ConditionsView {
            generated: None,
            applied: None,
            rolledout: Some(ok_condition(applier, now)),
        }),
        rollout_true_patch(applier, version, now).summary.last_successful_rollout_version == Some(version),
        ok_condition(applier, now).status && ok_condition(applier, now).reason is None,
        !bad_condition(applier, err, reason, now).status && bad_condition(applier, err, reason, now).reason == Some(
            err,
        ) && bad_condition(applier, err, reason, now).message == Some(reason),
{
}

/// A text that a terminal shows as a link to `url`.
pub open spec fn terminal_link(url: Seq<char>, text: Seq<char>) -> Seq<char> {
    "\x1B]8;;"@ + url + "\x07"@ + text + "\x1B]8;;\x07"@
}

/// A text that a terminal shows as a link to `url`.
pub fn term_link(url: &str, text: &str) -> (link: String)
    ensures
        link@ == terminal_link(url@, text@),
{
    let mut link = String::from_str("\x1B]8;;");
    link.append(url);
    link.append("\x07");
    link.append(text);
    link.append("\x1B]8;;\x07");
    link
}

/// How long ago a condition was written, as a phrase.
pub open spec fn age_phrase(when: Option<Seq<char>>) -> Seq<char> {
    match when {
        Some(w) => w + " ago"@,
        None => Seq::empty(),
    }
}

/// Who wrote a condition, as a phrase: the applier's name, as a link where
/// the applier has an address.
pub open spec fn source_phrase(source: Option<ApplierView>) -> Seq<char> {
    match source {
        Some(src) => " via "@ + (match src.url {
            Some(url) => terminal_link(url, src.name),
            None => src.name,
        }),
        None => Seq::empty(),
    }
}

/// How a condition ended, as a phrase.
pub open spec fn outcome_phrase(c: ConditionView) -> Seq<char> {
    if c.status {
        " (Success)"@
    } else if c.reason is Some && c.message is Some {
        " ("@ + c.reason->0 + ": "@ + c.message->0 + ")"@
    } else {
        " (Failure)"@
    }
}

/// A condition as one line of text: how long ago, by whom, and how it
/// ended. `when` is the age of the condition, where it can be told.
pub open spec fn formatted_condition(c: ConditionView, when: Option<Seq<char>>) -> Seq<char> {
    age_phrase(when) + source_phrase(c.source) + outcome_phrase(c)
}

/// Formats a condition as one line of text: how long ago it was written,
/// by whom, and how it ended. `when` is the age of the condition, where it
/// can be told.
pub fn format_condition(cond: &Condition, when: &Option<String>) -> (line: String)
    ensures
        line@ == formatted_condition(cond.deep_view(), when.deep_view()),
{
    let mut line = match when {
        Some(w) => join2(w.as_str(), " ago"),
        None => String::new(),
    };
    let source = match &cond.source {
        Some(src) => match &src.url {
            Some(url) => {
                let link = term_link(url.as_str(), src.name.as_str());
                join2(" via ", link.as_str())
            },
            None => join2(" via ", src.name.as_str()),
        },
        None => String::new(),
    };
    line.append(source.as_str());
    let outcome = if cond.status {
        String::from_str(" (Success)")
    } else {
        match (&cond.reason, &cond.message) {
            (Some(r), Some(msg)) => {
                let mut text = join3(" (", r.as_str(), ": ");
                text.append(msg.as_str());
                text.append(")");
                text
            },
            _ => String::from_str(" (Failure)"),
        }
    };
    line.append(outcome.as_str());
    line
}

/// The version that a stored status names as last rolled out successfully.
pub open spec fn last_successful_version(status: Option<ManifestStatusView>) -> Option<Seq<char>> {
    match status {
        Some(s) => match s.summary {
            Some(summary) => summary.last_successful_rollout_version,
            None => None,
        },
        None => None,
    }
}

/// How the version that a manifest asks for stands to what is deployed.
#[derive(Clone, Copy, Debug, PartialEq, Eq)]
pub enum Drift {
    /// No rollout is known to have succeeded.
    Requested,
    /// The version asked for is the one that was last rolled out.
    Running,
    /// Another version than the one asked for was last rolled out.
    Drifted,
}

/// How `version` stands to what a stored status says is deployed.
pub open spec fn drift_of(version: Seq<char>, status: Option<ManifestStatusView>) -> Drift {
    match last_successful_version(status) {
        Some(v) => if v == version {
            Drift::Running
        } else {
            Drift::Drifted
        },
        None => Drift::Requested,
    }
}

/// Tells whether the version that a manifest asks for is the one that was
/// last rolled out successfully.
pub fn detect_drift(version: &str, status: &Option<ManifestStatus>) -> (drift: Drift)
    ensures
        drift == drift_of(version@, status.deep_view()),
{
    match status {
        Some(s) => match &s.summary {
            Some(summary) => match &summary.last_successful_rollout_version {
                Some(v) => if same_text(v.as_str(), version) {
                    Drift::Running
                } else {
                    Drift::Drifted
                },
                None => Drift::Requested,
            },
            None => Drift::Requested,
        },
        None => Drift::Requested,
    }
}

/// The first line of a status display.
pub open spec fn headline(
    repo_link: Seq<char>,
    version_link: Seq<char>,
    version: Seq<char>,
    status: Option<ManifestStatusView>,
) -> Seq<char> {
    match drift_of(version, status) {
        Drift::Drifted => "==> "@ + repo_link + " is requesting "@ + version_link
            + " but last successful deploy used "@ + last_successful_version(status)->0,
        Drift::Running => "==> "@ + repo_link + " is running "@ + version_link,
        Drift::Requested => "==> "@ + repo_link + " is requesting "@ + version_link,
    }
}

/// A condition as a line of a status display, when there is one.
pub open spec fn condition_line(
    label: Seq<char>,
    c: Option<ConditionView>,
    when: Option<Seq<char>>,
) -> Seq<Seq<char>> {
    match c {
        Some(c) => seq![label + formatted_condition(c, when)],
        None => Seq::empty(),
    }
}

/// The lines of a status display that show the conditions.
pub open spec fn condition_lines(status: Option<ManifestStatusView>, ages: ConditionAgesView) -> Seq<Seq<char>> {
    match status {
        Some(s) => condition_line("Generated "@, s.conditions.generated, ages.generated) + condition_line(
            "Applied "@,
            s.conditions.applied,
            ages.applied,
        ) + condition_line("RolledOut "@, s.conditions.rolledout, ages.rolledout),
        None => Seq::empty(),
    }
}

/// The lines of a status display, down to the heading under which the
/// resources are listed.
pub open spec fn status_lines(
    repo_link: Seq<char>,
    version_link: Seq<char>,
    version: Seq<char>,
    support_link: Seq<char>,
    status: Option<ManifestStatusView>,
    ages: ConditionAgesView,
) -> Seq<Seq<char>> {
    seq![headline(repo_link, version_link, version, status), support_link, Seq::empty(), "==> CONDITIONS"@]
        + condition_lines(status, ages) + seq![Seq::empty(), "==> RESOURCES"@]
}

fn push_condition_line(
    lines: &mut Vec<String>,
    label: &str,
    c: &Option<Condition>,
    when: &Option<String>,
)
    ensures
        final(lines).deep_view() == old(lines).deep_view() + condition_line(
            label@,
            c.deep_view(),
            when.deep_view(),
        ),
{
    let ghost before = lines.deep_view();
    match c {
        Some(c) => {
            let text = format_condition(c, when);
            let line = join2(label, text.as_str());
            lines.push(line);
            assert(lines.deep_view() =~= before + seq![line@]);
        },
        None => {
            assert(lines.deep_view() =~= before + Seq::<Seq<char>>::empty());
        },
    }
}

fn push_line(lines: &mut Vec<String>, line: String)
    ensures
        final(lines).deep_view() == old(lines).deep_view().push(line@),
{
    let ghost before = lines.deep_view();
    lines.push(line);
    assert(lines.deep_view() =~= before.push(line@));
}

/// The lines of a status display, down to the heading under which the
/// resources are listed.
///
/// `repo_link`, `version_link` and `support_link` are the texts under which
/// the repository, the version and the support channel are shown.
pub fn status_report(
    repo_link: &str,
    version_link: &str,
    version: &str,
    support_link: &str,
    status: &Option<ManifestStatus>,
    ages: &ConditionAges,
) -> (lines: Vec<String>)
    ensures
        lines.deep_view() == status_lines(
            repo_link@,
            version_link@,
            version@,
            support_link@,
            status.deep_view(),
            ages.deep_view(),
        ),
{
    let mut head = join3("==> ", repo_link, match detect_drift(version, status) {
        Drift::Running => " is running ",
        _ => " is requesting ",
    });
    head.append(version_link);
    match detect_drift(version, status) {
        Drift::Drifted => {
            head.append(" but last successful deploy used ");
            match status {
                Some(s) => match &s.summary {
                    Some(summary) => match &summary.last_successful_rollout_version {
                        Some(v) => head.append(v.as_str()),
                        None => {},
                    },
                    None => {},
                },
                None => {},
            }
        },
        _ => {},
    }
    let mut lines: Vec<String> = Vec::new();
    assert(lines.deep_view() =~= Seq::<Seq<char>>::empty());
    push_line(&mut lines, head);
    push_line(&mut lines, String::from_str(support_link));
    push_line(&mut lines, String::new());
    push_line(&mut lines, String::from_str("==> CONDITIONS"));
    let ghost top = lines.deep_view();
    assert(top =~= seq![
        headline(repo_link@, version_link@, version@, status.deep_view()),
        support_link@,
        Seq::empty(),
        "==> CONDITIONS"@,
    ]);
    match status {
        Some(s) => {
            push_condition_line(&mut lines, "Generated ", &s.conditions.generated, &ages.generated);
            push_condition_line(&mut lines, "Applied ", &s.conditions.applied, &ages.applied);
            push_condition_line(&mut lines, "RolledOut ", &s.conditions.rolledout, &ages.rolledout);
        },
        None => {},
    }
    assert(lines.deep_view() =~= top + condition_lines(status.deep_view(), ages.deep_view()));
    push_line(&mut lines, String::new());
    push_line(&mut lines, String::from_str("==> RESOURCES"));
    assert(lines.deep_view() =~= status_lines(
        repo_link@,
        version_link@,
        version@,
        support_link@,
        status.deep_view(),
        ages.deep_view(),
    ));
    lines
}

/// The status display of a manifest, down to the heading under which the
/// resources are listed.
///
/// `version` is the version that the stored manifest asks for,
/// `version_url` where that version can be looked at and `support_url`
/// where the support channel is. The repository is shown under the
/// service's name in upper case, as a link to the repository; the version
/// and the support channel are shown as links too. The manifest must have
/// metadata with a support channel.
pub fn show(
    mf: &Manifest,
    version: &str,
    version_url: &str,
    support_url: &str,
    status: &Option<ManifestStatus>,
    ages: &ConditionAges,
) -> (lines: Vec<String>)
    requires
        mf.metadata is Some,
        mf.metadata->0.support is Some,
    ensures
        lines.deep_view() == status_lines(
            terminal_link(mf.deep_view().metadata->0.repo, uppercase(mf.deep_view().name)),
            terminal_link(version_url@, version@),
            version@,
            terminal_link(support_url@, mf.deep_view().metadata->0.support->0),
            status.deep_view(),
            ages.deep_view(),
        ),
{
    match &mf.metadata {
        Some(md) => match &md.support {
            Some(support) => {
                let upper = to_upper(mf.name.as_str());
                let repo_link = term_link(md.repo.as_str(), upper.as_str());
                let version_link = term_link(version_url, version);
                let support_link = term_link(support_url, support.as_str());
                status_report(
                    repo_link.as_str(),
                    version_link.as_str(),
                    version,
                    support_link.as_str(),
                    status,
                    ages,
                )
            },
            None => Vec::new(),
        },
        None => Vec::new(),
    }
}

/// The status display of a manifest, or none for a manifest that has no
/// metadata or no support channel.
pub fn try_show(
    mf: &Manifest,
    version: &str,
    version_url: &str,
    support_url: &str,
    status: &Option<ManifestStatus>,
    ages: &ConditionAges,
) -> (lines: Option<Vec<String>>)
    ensures
        lines is Some <==> mf.metadata is Some && mf.metadata->0.support is Some,
        lines matches Some(l) ==> l.deep_view() == status_lines(
            terminal_link(mf.deep_view().metadata->0.repo, uppercase(mf.deep_view().name)),
            terminal_link(version_url@, version@),
            version@,
            terminal_link(support_url@, mf.deep_view().metadata->0.support->0),
            status.deep_view(),
            ages.deep_view(),
        ),
{
    let ready = match &mf.metadata {
        Some(md) => md.support.is_some(),
        None => false,
    };
    if ready {
        Some(show(mf, version, version_url, support_url, status, ages))
    } else {
        None
    }
}

} // verus!
