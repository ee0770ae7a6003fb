use shipcat::kong::KongConfig;
use shipcat::layers::{ManifestDefaults, ManifestOverrides, ManifestSource};
use shipcat::manifest::Manifest;
use shipcat::status::{
    detect_drift, format_condition, show, status_report, term_link, try_show, Applier, BuildEnvironment,
    ClusterRequest, Condition, ConditionAges, Conditions, ConditionSummary, Drift, ManifestStatus,
    MinimalManifest, PatchField, ShipKube, StatusPatch,
};
use shipcat::string_map::StringMap;
use shipcat::structs::{Config, KafkaConfig, Metadata, Region, Team};

fn text(s: &str) -> Option<String> {
    Some(s.to_string())
}

fn applier() -> Applier {
    Applier { name: "deploy-job#42".to_string(), url: text("https://ci.example.com/42") }
}

fn kube() -> ShipKube {
    ShipKube::new_within("foo", "dev", applier())
}

fn json(patch: &StatusPatch) -> serde_json::Value {
    serde_json::Value::Object(patch.to_json())
}

fn string(s: &str) -> serde_json::Value {
    serde_json::Value::String(s.to_string())
}

fn keys(v: &serde_json::Value) -> Vec<String> {
    v.as_object().unwrap().keys().cloned().collect()
}

fn manifest(support: Option<String>) -> Manifest {
    let region = Region {
        name: "dev-uk".to_string(),
        namespace: "dev".to_string(),
        environment: "dev".to_string(),
        cluster: "kops-uk".to_string(),
        kong: KongConfig { base_url: "".to_string(), config_url: "".to_string(), consumers: vec![] },
        kafka: KafkaConfig { brokers: vec![], zk: vec![] },
    };
    let conf = Config {
        teams: vec![Team { name: "core".to_string(), support: None, notifications: None }],
        regions: vec![],
        clusters: vec![],
    };
    ManifestSource {
        name: text("foo"),
        external: false,
        disabled: false,
        regions: vec!["dev-uk".to_string()],
        metadata: Some(Metadata {
            team: "core".to_string(),
            repo: "https://git.example.com/foo".to_string(),
            support,
            notifications: None,
        }),
        overrides: ManifestOverrides {
            image: text("acme/foo"),
            version: text("1.2.3"),
            defaults: ManifestDefaults::empty(),
            ..Default::default()
        },
    }
    .build(&conf, &region, &StringMap::new())
    .unwrap()
}

#[test]
fn successful_generate_is_recorded() {
    let patch = kube().update_generate_true("2020-01-02T03:04:05Z");
    let generated = patch.conditions.generated.as_ref().unwrap();
    assert_eq!(generated.status, true);
    assert_eq!(generated.reason, None);
    assert_eq!(generated.message, None);
    assert_eq!(generated.last_transition, "2020-01-02T03:04:05Z");
    assert_eq!(generated.source, Some(applier()));
    assert_eq!(patch.conditions.applied, None);
    assert_eq!(patch.conditions.rolledout, None);
    assert_eq!(patch.summary.last_action, "Generate");
    assert_eq!(patch.summary.last_successful_generate, text("2020-01-02T03:04:05Z"));
    assert_eq!(patch.summary.last_failure_reason, PatchField::Keep);

    let doc = json(&patch);
    assert_eq!(keys(&doc), vec!["status"]);
    assert_eq!(keys(&doc["status"]), vec!["conditions", "summary"]);
    assert_eq!(keys(&doc["status"]["conditions"]), vec!["generated"]);
    let cond = &doc["status"]["conditions"]["generated"];
    assert_eq!(keys(cond), vec!["lastTransitionTime", "source", "status"]);
    assert_eq!(cond["status"], serde_json::Value::Bool(true));
    assert_eq!(cond["lastTransitionTime"], string("2020-01-02T03:04:05Z"));
    assert_eq!(cond["source"]["name"], string("deploy-job#42"));
    assert_eq!(cond["source"]["url"], string("https://ci.example.com/42"));
    let summary = &doc["status"]["summary"];
    assert_eq!(keys(summary), vec!["lastAction", "lastSuccessfulGenerate"]);
    assert_eq!(summary["lastAction"], string("Generate"));
    assert_eq!(summary["lastSuccessfulGenerate"], string("2020-01-02T03:04:05Z"));
}

#[test]
fn failed_generate_is_recorded() {
    let patch = kube().update_generate_false("TemplateError", "no such variable".to_string(), "t1");
    let generated = patch.conditions.generated.as_ref().unwrap();
    assert_eq!(generated.status, false);
    assert_eq!(generated.reason, text("TemplateError"));
    assert_eq!(generated.message, text("no such variable"));
    assert_eq!(patch.summary.last_failure_reason, PatchField::Put("no such variable".to_string()));
    let doc = json(&patch);
    let cond = &doc["status"]["conditions"]["generated"];
    assert_eq!(keys(cond), vec!["lastTransitionTime", "message", "reason", "source", "status"]);
    assert_eq!(cond["status"], serde_json::Value::Bool(false));
    assert_eq!(cond["reason"], string("TemplateError"));
    assert_eq!(cond["message"], string("no such variable"));
    let summary = &doc["status"]["summary"];
    assert_eq!(keys(summary), vec!["lastAction", "lastFailureReason"]);
    assert_eq!(summary["lastFailureReason"], string("no such variable"));
    assert_eq!(summary["lastAction"], string("Generate"));
}

#[test]
fn successful_apply_is_recorded() {
    let patch = kube().update_apply_true("new version".to_string(), "t2");
    assert!(patch.conditions.applied.as_ref().unwrap().status);
    assert_eq!(patch.conditions.generated, None);
    let doc = json(&patch);
    assert_eq!(keys(&doc["status"]["conditions"]), vec!["applied"]);
    let summary = &doc["status"]["summary"];
    assert_eq!(keys(summary), vec!["lastAction", "lastApply", "lastApplyReason", "lastSuccessfulApply"]);
    assert_eq!(summary["lastAction"], string("Apply"));
    assert_eq!(summary["lastApply"], string("t2"));
    assert_eq!(summary["lastSuccessfulApply"], string("t2"));
    assert_eq!(summary["lastApplyReason"], string("new version"));
}

#[test]
fn failed_apply_is_recorded() {
    let patch = kube().update_apply_false("new version".to_string(), "KubeError", "forbidden".to_string(), "t3");
    let applied = patch.conditions.applied.as_ref().unwrap();
    assert_eq!(applied.status, false);
    assert_eq!(applied.reason, text("KubeError"));
    assert_eq!(applied.message, text("forbidden"));
    let doc = json(&patch);
    let summary = &doc["status"]["summary"];
    assert_eq!(keys(summary), vec!["lastAction", "lastApply", "lastApplyReason", "lastFailureReason"]);
    assert_eq!(summary["lastApply"], string("t3"));
    assert_eq!(summary["lastFailureReason"], string("forbidden"));
    assert_eq!(summary["lastApplyReason"], string("new version"));
    assert_eq!(summary["lastAction"], string("Apply"));
}

#[test]
fn failed_rollout_is_recorded() {
    let patch = kube().update_rollout_false("Timeout", "pods not ready".to_string(), "t4");
    let rolledout = patch.conditions.rolledout.as_ref().unwrap();
    assert_eq!(rolledout.status, false);
    assert_eq!(rolledout.reason, text("Timeout"));
    let doc = json(&patch);
    assert_eq!(keys(&doc["status"]["conditions"]), vec!["rolledout"]);
    let summary = &doc["status"]["summary"];
    assert_eq!(keys(summary), vec!["lastAction", "lastFailureReason", "lastRollout"]);
    assert_eq!(summary["lastRollout"], string("t4"));
    assert_eq!(summary["lastFailureReason"], string("pods not ready"));
    assert_eq!(summary["lastAction"], string("Rollout"));
}

#[test]
fn successful_rollout_records_the_version() {
    let patch = kube().update_rollout_true("1.2.3", "t5");
    assert!(patch.conditions.rolledout.as_ref().unwrap().status);
    assert_eq!(patch.summary.last_failure_reason, PatchField::Clear);
    assert_eq!(patch.summary.last_successful_rollout_version, text("1.2.3"));
    let doc = json(&patch);
    let summary = &doc["status"]["summary"];
    assert_eq!(
        keys(summary),
        vec!["lastAction", "lastFailureReason", "lastRollout", "lastSuccessfulRollout", "lastSuccessfulRolloutVersion"]
    );
    assert_eq!(summary["lastFailureReason"], serde_json::Value::Null);
    assert_eq!(summary["lastRollout"], string("t5"));
    assert_eq!(summary["lastSuccessfulRollout"], string("t5"));
    assert_eq!(summary["lastSuccessfulRolloutVersion"], string("1.2.3"));
    assert_eq!(summary["lastAction"], string("Rollout"));
}

#[test]
fn patches_are_written_as_json() {
    let patch = kube().update_rollout_true("1.2.3", "t5");
    let bytes = patch.to_bytes().unwrap();
    let parsed: serde_json::Value = serde_json::from_slice(&bytes).unwrap();
    assert_eq!(parsed, json(&patch));
    assert_eq!(
        String::from_utf8(bytes).unwrap(),
        "{\"status\":{\"conditions\":{\"rolledout\":{\"lastTransitionTime\":\"t5\",\"source\":{\"name\":\"deploy-job#42\",\"url\":\"https://ci.example.com/42\"},\"status\":true}},\"summary\":{\"lastAction\":\"Rollout\",\"lastFailureReason\":null,\"lastRollout\":\"t5\",\"lastSuccessfulRollout\":\"t5\",\"lastSuccessfulRolloutVersion\":\"1.2.3\"}}}"
    );
}

#[test]
fn every_patch_can_be_written() {
    let k = kube();
    let patches = vec![
        k.update_generate_true("t"),
        k.update_generate_false("E", "m".to_string(), "t"),
        k.update_apply_true("why".to_string(), "t"),
        k.update_apply_false("why".to_string(), "E", "m \"quoted\" \u{1F600}\n".to_string(), "t"),
        k.update_rollout_false("E", "m".to_string(), "t"),
        k.update_rollout_true("1.2.3", "t"),
    ];
    for patch in patches {
        let bytes = patch.to_bytes().unwrap();
        let parsed: serde_json::Value = serde_json::from_slice(&bytes).unwrap();
        assert_eq!(parsed, json(&patch));
        assert!(k.patch(&patch).is_ok());
    }
}

#[test]
fn an_applier_without_address_has_no_url_key() {
    let kube = ShipKube::new_within("foo", "dev", Applier { name: "alice".to_string(), url: None });
    let doc = json(&kube.update_generate_true("t"));
    assert_eq!(keys(&doc["status"]["conditions"]["generated"]["source"]), vec!["name"]);
}

#[test]
fn requests_name_the_service() {
    let k = kube();
    assert_eq!(k.name, "foo");
    assert_eq!(k.namespace, "dev");
    assert_eq!(k.get(), ClusterRequest::Get { name: "foo".to_string() });
    assert_eq!(k.get_minimal(), ClusterRequest::GetMinimal { name: "foo".to_string() });
    assert_eq!(k.delete(), ClusterRequest::Delete { name: "foo".to_string() });
    let patch = k.update_generate_true("t");
    match k.patch(&patch).unwrap() {
        ClusterRequest::PatchStatus { name, body } => {
            assert_eq!(name, "foo");
            assert_eq!(body, patch.to_bytes().unwrap());
        }
        other => panic!("not a patch: {:?}", other),
    }
}

#[test]
fn a_manifest_is_applied_under_its_name() {
    let mf = manifest(None);
    let k = ShipKube::new(&mf, applier());
    assert_eq!(k.name, "foo");
    assert_eq!(k.namespace, "dev");
    match k.apply(&mf).unwrap() {
        ClusterRequest::Apply { name, namespace, body } => {
            assert_eq!(name, "foo");
            assert_eq!(namespace, "dev");
            let doc: serde_json::Value = serde_json::from_slice(&body).unwrap();
            assert_eq!(keys(&doc), vec!["apiVersion", "kind", "metadata", "spec"]);
            assert_eq!(doc["apiVersion"], string("babylontech.co.uk/v1"));
            assert_eq!(doc["kind"], string("ShipcatManifest"));
            assert_eq!(keys(&doc["metadata"]), vec!["name", "namespace"]);
            assert_eq!(doc["metadata"]["name"], string("foo"));
            assert_eq!(doc["metadata"]["namespace"], string("dev"));
            assert_eq!(doc["spec"], serde_json::Value::Object(mf.to_json()));
            assert_eq!(doc["spec"]["version"], string("1.2.3"));
        }
        other => panic!("not an apply: {:?}", other),
    }
    assert_eq!(k.try_apply(&mf), Some(k.apply(&mf)));
    let mut without = manifest(None);
    without.version = None;
    assert_eq!(k.try_apply(&without), None);
}

#[test]
fn conditions_carry_applier_and_time() {
    let ok = Condition::ok(&applier(), "now");
    assert_eq!(
        ok,
        Condition { status: true, reason: None, message: None, last_transition: "now".to_string(), source: Some(applier()) }
    );
    let bad = Condition::bad(&applier(), "Oops", "it broke".to_string(), "then");
    assert_eq!(
        bad,
        Condition {
            status: false,
            reason: text("Oops"),
            message: text("it broke"),
            last_transition: "then".to_string(),
            source: Some(applier()),
        }
    );
}

fn environment() -> BuildEnvironment {
    BuildEnvironment {
        build_url: None,
        job_name: None,
        build_number: None,
        circle_build_url: None,
        circle_job: None,
        circle_build_num: None,
        user: None,
    }
}

#[test]
fn applier_is_inferred_from_the_environment() {
    let jenkins = BuildEnvironment {
        build_url: text("https://jenkins/job/1"),
        job_name: text("deploy"),
        build_number: text("1"),
        circle_build_url: text("https://circle/2"),
        circle_job: text("build"),
        circle_build_num: text("2"),
        user: text("alice"),
    };
    assert_eq!(Applier::infer(&jenkins), Applier { name: "deploy#1".to_string(), url: text("https://jenkins/job/1") });
    let circle = BuildEnvironment { build_number: None, ..jenkins };
    assert_eq!(Applier::infer(&circle), Applier { name: "build#2".to_string(), url: text("https://circle/2") });
    let user = BuildEnvironment { user: text("alice"), job_name: text("half"), ..environment() };
    assert_eq!(Applier::infer(&user), Applier { name: "alice".to_string(), url: None });
    assert_eq!(Applier::infer(&environment()), Applier { name: "unknown".to_string(), url: None });
}

#[test]
fn conditions_are_formatted_on_one_line() {
    let ok = Condition::ok(&applier(), "t");
    assert_eq!(
        format_condition(&ok, &text("2h 3m")),
        "2h 3m ago via \x1B]8;;https://ci.example.com/42\x07deploy-job#42\x1B]8;;\x07 (Success)"
    );
    let alice = Applier { name: "alice".to_string(), url: None };
    let bad = Condition::bad(&alice, "Timeout", "pods not ready".to_string(), "t");
    assert_eq!(format_condition(&bad, &text("5s")), "5s ago via alice (Timeout: pods not ready)");
    assert_eq!(format_condition(&bad, &None), " via alice (Timeout: pods not ready)");
    let bare = Condition { status: false, reason: text("Timeout"), message: None, last_transition: "t".to_string(), source: None };
    assert_eq!(format_condition(&bare, &text("1d")), "1d ago (Failure)");
    let plain = Condition { status: true, reason: None, message: None, last_transition: "t".to_string(), source: None };
    assert_eq!(format_condition(&plain, &None), " (Success)");
}

fn status(version: Option<String>) -> ManifestStatus {
    ManifestStatus {
        conditions: Conditions {
            generated: Some(Condition::ok(&Applier { name: "alice".to_string(), url: None }, "t")),
            applied: None,
            rolledout: Some(Condition::bad(&Applier { name: "bob".to_string(), url: None }, "Timeout", "slow".to_string(), "t")),
        },
        summary: Some(ConditionSummary {
            last_action: text("Rollout"),
            last_failure_reason: None,
            last_successful_generate: None,
            last_apply: None,
            last_successful_apply: None,
            last_apply_reason: None,
            last_rollout: None,
            last_successful_rollout: None,
            last_successful_rollout_version: version,
        }),
    }
}

fn ages() -> ConditionAges {
    ConditionAges { generated: text("1h"), applied: text("2h"), rolledout: None }
}

#[test]
fn drift_is_detected() {
    assert_eq!(detect_drift("1.2.3", &None), Drift::Requested);
    assert_eq!(detect_drift("1.2.3", &Some(status(None))), Drift::Requested);
    assert_eq!(detect_drift("1.2.3", &Some(status(text("1.2.3")))), Drift::Running);
    assert_eq!(detect_drift("1.2.3", &Some(status(text("1.2.2")))), Drift::Drifted);
    let no_summary = ManifestStatus { summary: None, ..status(text("1.2.3")) };
    assert_eq!(detect_drift("1.2.3", &Some(no_summary)), Drift::Requested);
}

#[test]
fn status_is_reported_line_by_line() {
    let lines = status_report("REPO", "VERSION", "1.2.3", "SUPPORT", &Some(status(text("1.2.2"))), &ages());
    assert_eq!(
        lines,
        vec![
            "==> REPO is requesting VERSION but last successful deploy used 1.2.2".to_string(),
            "SUPPORT".to_string(),
            "".to_string(),
            "==> CONDITIONS".to_string(),
            "Generated 1h ago via alice (Success)".to_string(),
            "RolledOut  via bob (Timeout: slow)".to_string(),
            "".to_string(),
            "==> RESOURCES".to_string(),
        ]
    );
    let lines = status_report("REPO", "VERSION", "1.2.3", "SUPPORT", &Some(status(text("1.2.3"))), &ages());
    assert_eq!(lines[0], "==> REPO is running VERSION");
    let lines = status_report("REPO", "VERSION", "1.2.3", "SUPPORT", &None, &ages());
    assert_eq!(
        lines,
        vec![
            "==> REPO is requesting VERSION".to_string(),
            "SUPPORT".to_string(),
            "".to_string(),
            "==> CONDITIONS".to_string(),
            "".to_string(),
            "==> RESOURCES".to_string(),
        ]
    );
}

#[test]
fn show_links_repository_version_and_support() {
    let mf = manifest(text("#foo-help"));
    let lines = show(&mf, "1.2.3", "https://git.example.com/foo/releases/1.2.3", "slack://foo-help", &None, &ages());
    assert_eq!(
        lines[0],
        "==> \x1B]8;;https://git.example.com/foo\x07FOO\x1B]8;;\x07 is requesting \x1B]8;;https://git.example.com/foo/releases/1.2.3\x071.2.3\x1B]8;;\x07"
    );
    assert_eq!(lines[1], "\x1B]8;;slack://foo-help\x07#foo-help\x1B]8;;\x07");
    assert_eq!(lines.len(), 6);
    assert_eq!(try_show(&mf, "1.2.3", "v", "s", &None, &ages()).map(|l| l.len()), Some(6));
    assert_eq!(try_show(&manifest(None), "1.2.3", "v", "s", &None, &ages()), None);
    assert_eq!(term_link("u", "t"), "\x1B]8;;u\x07t\x1B]8;;\x07");
}

#[test]
fn minimal_manifest_holds_name_and_version() {
    let m = MinimalManifest { name: "foo".to_string(), version: "1.2.3".to_string() };
    assert_eq!(m.clone(), m);
    assert_eq!(m.name, "foo");
    assert_eq!(m.version, "1.2.3");
}
