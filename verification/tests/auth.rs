use shipcat::auth::{
    ensure_teleport, find_owning_cluster, login, need_teleport_login, plan_login, plan_teleport_login,
    session_needs_login, teleport_of, LoginAction,
};
use shipcat::error::ShipcatError;
use shipcat::kong::KongConfig;
use shipcat::structs::{Cluster, Config, KafkaConfig, Region};

fn text(s: &str) -> Option<String> {
    Some(s.to_string())
}

fn region(name: &str) -> Region {
    Region {
        name: name.to_string(),
        namespace: "apps".to_string(),
        environment: "dev".to_string(),
        cluster: "kops-uk".to_string(),
        kong: KongConfig { base_url: "".to_string(), config_url: "".to_string(), consumers: vec![] },
        kafka: KafkaConfig { brokers: vec![], zk: vec![] },
    }
}

fn config() -> Config {
    Config {
        teams: vec![],
        regions: vec![],
        clusters: vec![
            Cluster {
                name: "kops-uk".to_string(),
                teleport: None,
                clustername: None,
                regions: vec!["dev-uk".to_string(), "staging-uk".to_string()],
            },
            Cluster {
                name: "tele-us".to_string(),
                teleport: text("teleport.us.example.com"),
                clustername: None,
                regions: vec!["dev-us".to_string()],
            },
            Cluster {
                name: "tele-ap".to_string(),
                teleport: text("teleport.ap.example.com"),
                clustername: text("ap-main"),
                regions: vec!["dev-ap".to_string(), "dev-us".to_string()],
            },
        ],
    }
}

const STATUS: &str = "> Profile URL:  https://teleport.us.example.com:443\n  Logged in as: alice\n  Cluster:      teleport.us.example.com\n  Roles:        admin*\n  Logins:       alice\n  Valid until:  2030-01-01 10:00:00 +0000 UTC [valid for 8h0m0s]\n  Extensions:   permit-agent-forwarding\n";
const EXPIRED: &str = "> Profile URL:  https://teleport.us.example.com:443\r\n  Logged in as: alice\r\n  Cluster:      teleport.us.example.com\r\n  Roles:        admin*\r\n  Logins:       alice\r\n  Valid until:  2020-01-01 10:00:00 +0000 UTC [EXPIRED]\r\n  Extensions:   permit-agent-forwarding\r\n";

fn strings(items: &[&str]) -> Vec<String> {
    items.iter().map(|s| s.to_string()).collect()
}

#[test]
fn the_owning_cluster_is_the_first_that_runs_the_region() {
    let conf = config();
    assert_eq!(find_owning_cluster(&conf, &region("dev-uk")).map(|c| c.name.clone()), text("kops-uk"));
    assert_eq!(find_owning_cluster(&conf, &region("dev-us")).map(|c| c.name.clone()), text("tele-us"));
    assert_eq!(find_owning_cluster(&conf, &region("dev-ap")).map(|c| c.name.clone()), text("tele-ap"));
    assert!(find_owning_cluster(&conf, &region("prod-uk")).is_none());
    assert_eq!(teleport_of(&conf, &region("dev-us")), text("teleport.us.example.com"));
    assert_eq!(teleport_of(&conf, &region("dev-uk")), None);
    assert_eq!(teleport_of(&conf, &region("nowhere")), None);
}

#[test]
fn a_valid_session_needs_no_login() {
    assert_eq!(need_teleport_login("teleport.us.example.com", STATUS), false);
}

#[test]
fn an_expired_session_needs_a_login() {
    assert_eq!(need_teleport_login("teleport.us.example.com", EXPIRED), true);
}

#[test]
fn no_session_needs_a_login() {
    assert_eq!(need_teleport_login("teleport.eu.example.com", STATUS), true);
    assert_eq!(need_teleport_login("teleport.us.example.com", ""), true);
}

#[test]
fn a_status_that_ends_early_needs_a_login() {
    assert_eq!(need_teleport_login("teleport.us.example.com", "teleport.us.example.com\na\nb\nc\nd"), true);
    assert_eq!(need_teleport_login("teleport.us.example.com", "x\nteleport.us.example.com\na\nb\nc\nd\nfine"), false);
}

#[test]
fn the_session_line_is_the_first_that_names_the_address() {
    let lines = strings(&["url one", "a", "b", "c", "d", "EXPIRED", "url two", "a", "b", "c", "d", "valid"]);
    assert_eq!(session_needs_login("url", &lines), true);
    let lines = strings(&["url one", "a", "b", "c", "d", "valid", "url two", "a", "b", "c", "d", "EXPIRED"]);
    assert_eq!(session_needs_login("url", &lines), false);
    assert_eq!(session_needs_login("url", &strings(&[])), true);
    assert_eq!(session_needs_login("", &strings(&["x", "a", "b", "c", "d", "not EXPIRED yet"])), true);
}

#[test]
fn the_login_tool_must_be_installed() {
    assert_eq!(ensure_teleport("/usr/local/bin/tsh\n"), Ok(()));
    let err = ensure_teleport("").unwrap_err();
    assert_eq!(err, ShipcatError::TshNotFound);
    assert_eq!(
        err.message(),
        "tsh not found. please install tsh --> https://gravitational.com/teleport/download/\nDownload link for MacOS --> https://get.gravitational.com/teleport-v4.4.9-darwin-amd64-bin.tar.gz\nYou must install version 4.4.9 and not higher versions"
    );
}

fn set_context(identity: &str) -> LoginAction {
    LoginAction::SetContext {
        name: "dev-us".to_string(),
        args: vec!["--namespace=apps".to_string(), format!("--cluster={}", identity), format!("--user={}", identity)],
    }
}

fn tsh_login(url: &str) -> LoginAction {
    LoginAction::TshLogin { args: vec!["login".to_string(), format!("--proxy={}:443", url), "--auth=github".to_string()] }
}

#[test]
fn a_live_session_is_reused() {
    let steps = login(&config(), &region("dev-us"), false, "/usr/bin/tsh\n", STATUS).unwrap();
    assert_eq!(
        steps,
        vec![set_context("teleport.us.example.com"), LoginAction::UseContext { name: "dev-us".to_string() }]
    );
}

#[test]
fn an_expired_session_is_renewed() {
    let steps = login(&config(), &region("dev-us"), false, "/usr/bin/tsh\n", EXPIRED).unwrap();
    assert_eq!(
        steps,
        vec![
            tsh_login("teleport.us.example.com"),
            set_context("teleport.us.example.com"),
            LoginAction::UseContext { name: "dev-us".to_string() },
        ]
    );
}

#[test]
fn a_forced_login_removes_the_session_first() {
    let steps = login(&config(), &region("dev-us"), true, "/usr/bin/tsh\n", STATUS).unwrap();
    assert_eq!(
        steps,
        vec![
            LoginAction::RemoveSessionFile { path: ".tsh/teleport.us.example.com.yaml".to_string() },
            tsh_login("teleport.us.example.com"),
            set_context("teleport.us.example.com"),
            LoginAction::UseContext { name: "dev-us".to_string() },
        ]
    );
}

#[test]
fn a_cluster_may_go_by_another_name() {
    let mut r = region("dev-ap");
    r.namespace = "core".to_string();
    let steps = plan_teleport_login("teleport.ap.example.com", &text("ap-main"), &r, false, true);
    assert_eq!(
        steps,
        vec![
            tsh_login("teleport.ap.example.com"),
            LoginAction::SetContext {
                name: "dev-ap".to_string(),
                args: vec!["--namespace=core".to_string(), "--cluster=ap-main".to_string(), "--user=ap-main".to_string()],
            },
            LoginAction::UseContext { name: "dev-ap".to_string() },
        ]
    );
    let steps = login(&config(), &region("dev-ap"), false, "tsh", "").unwrap();
    assert_eq!(steps.len(), 3);
    assert_eq!(steps[0], tsh_login("teleport.ap.example.com"));
}

#[test]
fn a_cluster_without_address_uses_its_context() {
    let steps = login(&config(), &region("dev-uk"), true, "", "").unwrap();
    assert_eq!(steps, vec![LoginAction::UseContext { name: "kops-uk".to_string() }]);
}

#[test]
fn a_region_without_cluster_cannot_be_logged_in_to() {
    let err = login(&config(), &region("prod-uk"), false, "tsh", STATUS).unwrap_err();
    assert_eq!(err, ShipcatError::NoCluster("prod-uk".to_string()));
    assert_eq!(err.message(), "Region prod-uk does not have a cluster");
}

#[test]
fn a_login_without_the_tool_fails() {
    assert_eq!(login(&config(), &region("dev-us"), false, "", STATUS), Err(ShipcatError::TshNotFound));
    assert_eq!(
        plan_login(&config(), &region("dev-us"), false, "", &strings(&[])),
        Err(ShipcatError::TshNotFound)
    );
}
