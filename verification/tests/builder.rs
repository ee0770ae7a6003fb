use shipcat::error::{Field, ShipcatError};
use shipcat::kong::{Enabled, KongConfig, KongSource};
use shipcat::layers::{ManifestDefaults, ManifestOverrides, ManifestSource};
use shipcat::manifest::{read_template_file, resolve, template_paths};
use shipcat::string_map::StringMap;
use shipcat::structs::{
    AutoScaling, Config, ConfigMap, ConfigMappedFile, DataField, DataHandling, DataStore, Kafka, KafkaConfig,
    Metadata, Port, Region, Team,
};

fn text(s: &str) -> Option<String> {
    Some(s.to_string())
}

fn files_of(pairs: &[(&str, &str)]) -> StringMap {
    let list: Vec<(String, String)> = pairs.iter().map(|(k, v)| (k.to_string(), v.to_string())).collect();
    StringMap::from_entries(&list)
}

fn region() -> Region {
    Region {
        name: "dev-uk".to_string(),
        namespace: "dev".to_string(),
        environment: "dev".to_string(),
        cluster: "kops-uk".to_string(),
        kong: KongConfig {
            base_url: ".dev.example.com".to_string(),
            config_url: "admin.dev.example.com".to_string(),
            consumers: vec![],
        },
        kafka: KafkaConfig {
            brokers: vec!["broker-1:9092".to_string(), "broker-2:9092".to_string()],
            zk: vec!["zk-1:2181".to_string()],
        },
    }
}

fn config() -> Config {
    Config {
        teams: vec![
            Team { name: "platform".to_string(), support: text("#platform-help"), notifications: text("#platform-bots") },
            Team { name: "quiet".to_string(), support: None, notifications: None },
        ],
        regions: vec!["dev-uk".to_string()],
        clusters: vec![],
    }
}

fn metadata() -> Metadata {
    Metadata { team: "platform".to_string(), repo: "https://git.example.com/foo".to_string(), support: None, notifications: None }
}

fn source() -> ManifestSource {
    ManifestSource {
        name: text("foo"),
        external: false,
        disabled: false,
        regions: vec!["dev-uk".to_string(), "prod-uk".to_string()],
        metadata: Some(metadata()),
        overrides: ManifestOverrides {
            version: text("1.2.3"),
            defaults: ManifestDefaults { image_prefix: text("acme"), ..Default::default() },
            ..Default::default()
        },
    }
}

fn build(source: ManifestSource) -> Result<shipcat::manifest::Manifest, ShipcatError> {
    source.build(&config(), &region(), &StringMap::new())
}

#[test]
fn build_without_name_fails_and_names_the_field() {
    let mut s = source();
    s.name = None;
    let err = build(s).unwrap_err();
    assert_eq!(err, ShipcatError::MissingField(Field::Name));
    assert_eq!(err.message(), "name is required");
    let mut s = source();
    s.name = None;
    assert_eq!(s.build_base(&config()).unwrap_err(), ShipcatError::MissingField(Field::Name));
}

#[test]
fn build_with_name_proceeds() {
    let m = build(source()).unwrap();
    assert_eq!(m.name, "foo");
    assert_eq!(m.version, text("1.2.3"));
    assert_eq!(m.region, "dev-uk");
    assert_eq!(m.environment, "dev");
    assert_eq!(m.namespace, "dev");
    assert_eq!(m.regions, vec!["dev-uk".to_string(), "prod-uk".to_string()]);
    assert_eq!(m.image_size, Some(512));
    assert_eq!(m.publicly_accessible, false);
    assert_eq!(m.command, Vec::<String>::new());
    assert!(m.kong_apis.is_empty());
    assert!(m.ports.is_empty());
    assert_eq!(m.configs, None);
}

#[test]
fn name_is_checked_before_anything_else() {
    let s = ManifestSource {
        name: None,
        external: false,
        disabled: false,
        regions: vec![],
        metadata: None,
        overrides: ManifestOverrides::empty(),
    };
    assert_eq!(build(s).unwrap_err(), ShipcatError::MissingField(Field::Name));
}

#[test]
fn build_without_metadata_fails() {
    let mut s = source();
    s.metadata = None;
    let err = build(s).unwrap_err();
    assert_eq!(err, ShipcatError::MissingField(Field::Metadata));
    assert_eq!(err.message(), "metadata is required");
}

#[test]
fn build_without_version_fails() {
    let mut s = source();
    s.overrides.version = None;
    let err = build(s).unwrap_err();
    assert_eq!(err, ShipcatError::MissingField(Field::Version));
    assert_eq!(err.message(), "version is required");
}

#[test]
fn build_with_unknown_team_fails() {
    let mut s = source();
    s.metadata = Some(Metadata { team: "Platform".to_string(), ..metadata() });
    let err = build(s).unwrap_err();
    assert_eq!(err, ShipcatError::UnknownTeam("Platform".to_string()));
    assert_eq!(err.message(), "The team name must match one of the team names in shipcat.conf");
}

#[test]
fn image_falls_back_to_prefix_and_name() {
    let m = build(source()).unwrap();
    assert_eq!(m.image, text("acme/foo"));
}

#[test]
fn explicit_image_wins_over_prefix() {
    let mut s = source();
    s.overrides.image = text("registry.example.com/custom");
    assert_eq!(build(s).unwrap().image, text("registry.example.com/custom"));
}

#[test]
fn build_without_image_or_prefix_fails() {
    let mut s = source();
    s.overrides.defaults.image_prefix = None;
    let err = build(s).unwrap_err();
    assert_eq!(err, ShipcatError::ImagePrefixUndefined);
    assert_eq!(err.message(), "image prefix is not defined");
}

#[test]
fn image_prefix_may_come_from_a_lower_layer() {
    let mut s = source();
    s.overrides.defaults.image_prefix = None;
    let global = ManifestDefaults { image_prefix: text("global"), ..Default::default() };
    let regional = ManifestDefaults { image_prefix: text("regional"), ..Default::default() };
    let m = resolve(global, regional, s, &config(), &region(), &StringMap::new()).unwrap();
    assert_eq!(m.image, text("regional/foo"));
}

#[test]
fn unset_support_is_inherited_from_the_team() {
    let m = build(source()).unwrap();
    let md = m.metadata.unwrap();
    assert_eq!(md.support, text("#platform-help"));
    assert_eq!(md.notifications, text("#platform-bots"));
    assert_eq!(md.team, "platform");
    assert_eq!(md.repo, "https://git.example.com/foo");
}

#[test]
fn set_support_is_kept() {
    let mut s = source();
    s.metadata = Some(Metadata { support: text("#foo-help"), ..metadata() });
    let md = build(s).unwrap().metadata.unwrap();
    assert_eq!(md.support, text("#foo-help"));
    assert_eq!(md.notifications, text("#platform-bots"));
}

#[test]
fn a_team_without_defaults_gives_none() {
    let mut s = source();
    s.metadata = Some(Metadata { team: "quiet".to_string(), notifications: text("#own"), ..metadata() });
    let md = build(s).unwrap().metadata.unwrap();
    assert_eq!(md.support, None);
    assert_eq!(md.notifications, text("#own"));
}

#[test]
fn team_lookup_is_by_exact_name() {
    let conf = config();
    assert_eq!(conf.team("quiet").map(|t| t.name.clone()), text("quiet"));
    assert!(conf.team("quiet ").is_none());
    assert!(conf.team("").is_none());
}

fn data_handling() -> DataHandling {
    DataHandling {
        stores: vec![DataStore {
            backend: "postgres".to_string(),
            encrypted: Some(true),
            retention_period: text("P1Y"),
            fields: vec![
                DataField { name: "email".to_string(), encrypted: None, retention_period: None },
                DataField { name: "nickname".to_string(), encrypted: Some(false), retention_period: text("P1M") },
            ],
        }],
    }
}

#[test]
fn data_handling_fill_is_idempotent() {
    let once = data_handling().implicits();
    let twice = once.implicits();
    assert_eq!(once, twice);
    let fields = &once.stores[0].fields;
    assert_eq!(fields[0].encrypted, Some(true));
    assert_eq!(fields[0].retention_period, text("P1Y"));
    assert_eq!(fields[1].encrypted, Some(false));
    assert_eq!(fields[1].retention_period, text("P1M"));
    assert_eq!(once.stores[0].backend, "postgres");
}

#[test]
fn kafka_fill_is_idempotent() {
    let kafka = Kafka { mount_pod_ip: true, client_id: None, brokers: vec![], zk: vec!["own-zk:2181".to_string()] };
    let once = kafka.implicits("foo", &region());
    let twice = once.implicits("foo", &region());
    assert_eq!(once, twice);
    assert_eq!(once.client_id, text("foo"));
    assert_eq!(once.brokers, vec!["broker-1:9092".to_string(), "broker-2:9092".to_string()]);
    assert_eq!(once.zk, vec!["own-zk:2181".to_string()]);
    assert_eq!(once.mount_pod_ip, true);
}

#[test]
fn build_fills_data_handling_and_kafka() {
    let mut s = source();
    s.overrides.data_handling = Some(data_handling());
    s.overrides.kafka = Some(Kafka { mount_pod_ip: false, client_id: text("custom"), brokers: vec![], zk: vec![] });
    let m = build(s).unwrap();
    assert_eq!(m.data_handling, Some(data_handling().implicits()));
    let kafka = m.kafka.unwrap();
    assert_eq!(kafka.client_id, text("custom"));
    assert_eq!(kafka.brokers.len(), 2);
    assert_eq!(kafka.zk, vec!["zk-1:2181".to_string()]);
}

fn config_map() -> ConfigMap {
    ConfigMap {
        name: text("foo-config"),
        mount: "/config/".to_string(),
        files: vec![
            ConfigMappedFile { name: "app.yml.j2".to_string(), dest: "app.yml".to_string(), value: None },
            ConfigMappedFile { name: "log.ini.j2".to_string(), dest: "log.ini".to_string(), value: None },
        ],
    }
}

#[test]
fn config_files_are_read_from_the_service_first() {
    let files = files_of(&[
        ("./services/foo/app.yml.j2", "own app"),
        ("./templates/app.yml.j2", "shared app"),
        ("./templates/log.ini.j2", "shared log"),
    ]);
    let mut s = source();
    s.overrides.configs = Some(config_map());
    let m = s.build(&config(), &region(), &files).unwrap();
    let configs = m.configs.unwrap();
    assert_eq!(configs.name, text("foo-config"));
    assert_eq!(configs.mount, "/config/");
    assert_eq!(configs.files.len(), 2);
    assert_eq!(configs.files[0].value, text("own app"));
    assert_eq!(configs.files[0].dest, "app.yml");
    assert_eq!(configs.files[1].value, text("shared log"));
    assert_eq!(configs.files[1].name, "log.ini.j2");
}

#[test]
fn a_missing_template_fails_and_names_both_paths() {
    let files = files_of(&[("./services/foo/app.yml.j2", "own app"), ("./services/bar/log.ini.j2", "not ours")]);
    let mut s = source();
    s.overrides.configs = Some(config_map());
    let err = s.build(&config(), &region(), &files).unwrap_err();
    assert_eq!(
        err,
        ShipcatError::MissingTemplate {
            template: "log.ini.j2".to_string(),
            service_path: "./services/foo/log.ini.j2".to_string(),
            shared_path: "./templates/log.ini.j2".to_string(),
        }
    );
    assert_eq!(
        err.message(),
        "Template log.ini.j2 does not exist in neither ./services/foo/log.ini.j2 nor ./templates/log.ini.j2"
    );
}

#[test]
fn templates_are_looked_for_at_two_paths() {
    let (own, shared) = template_paths("foo", "app.yml.j2");
    assert_eq!(own, "./services/foo/app.yml.j2");
    assert_eq!(shared, "./templates/app.yml.j2");
    let files = files_of(&[("./templates/app.yml.j2", "shared")]);
    assert_eq!(read_template_file("foo", "app.yml.j2", &files), Ok("shared".to_string()));
    assert!(read_template_file("foo", "other.j2", &files).is_err());
}

#[test]
fn failures_of_the_first_stage_come_before_templates() {
    let mut s = source();
    s.overrides.configs = Some(config_map());
    s.overrides.version = None;
    assert_eq!(build(s).unwrap_err(), ShipcatError::MissingField(Field::Version));
}

#[test]
fn simple_manifest_says_whether_the_service_is_deployed() {
    let simple = source().build_simple(&config(), &region()).unwrap();
    assert_eq!(simple.enabled, true);
    assert_eq!(simple.region, "dev-uk");
    assert_eq!(simple.image, text("acme/foo"));
    assert_eq!(simple.version, text("1.2.3"));
    assert_eq!(simple.base.name, "foo");
    let mut s = source();
    s.disabled = true;
    assert_eq!(s.build_simple(&config(), &region()).unwrap().enabled, false);
    let mut s = source();
    s.regions = vec!["prod-uk".to_string()];
    assert_eq!(s.build_simple(&config(), &region()).unwrap().enabled, false);
}

#[test]
fn a_route_that_matches_nothing_is_refused_when_switched_on() {
    let mut s = source();
    s.overrides.defaults.kong = Enabled { enabled: Some(true), item: KongSource::default() };
    let err = build(s).unwrap_err();
    assert_eq!(err, ShipcatError::EmptyRoute("foo".to_string()));
    assert_eq!(err.message(), "Gateway route of foo matches neither a path nor a host");
}

#[test]
fn an_empty_host_label_is_refused() {
    let mut s = source();
    s.overrides.defaults.kong = Enabled {
        enabled: None,
        item: KongSource { hosts: Some(vec!["foo".to_string(), "".to_string()]), ..Default::default() },
    };
    let err = build(s).unwrap_err();
    assert_eq!(err, ShipcatError::MalformedHost("foo".to_string()));
    assert_eq!(err.message(), "Gateway route of foo has an empty host label");
}

#[test]
fn a_route_that_is_switched_off_is_not_built() {
    let mut s = source();
    s.overrides.defaults.kong = Enabled {
        enabled: Some(false),
        item: KongSource { uris: text("/foo"), hosts: Some(vec!["".to_string()]), ..Default::default() },
    };
    assert!(build(s).unwrap().kong_apis.is_empty());
}

#[test]
fn a_route_is_derived_from_service_and_region() {
    let mut s = source();
    s.overrides.hosts = Some(vec!["foo.example.org".to_string()]);
    s.overrides.defaults.kong = Enabled {
        enabled: None,
        item: KongSource {
            uris: text("/foo"),
            hosts: Some(vec!["foo".to_string(), "foo-api".to_string()]),
            strip_uri: Some(true),
            ..Default::default()
        },
    };
    let m = build(s).unwrap();
    assert_eq!(m.kong_apis.len(), 1);
    let route = &m.kong_apis[0];
    assert_eq!(route.name, "foo");
    assert_eq!(route.upstream_url, "http://foo.dev.svc.cluster.local");
    assert_eq!(route.uris, text("/foo"));
    assert_eq!(
        route.hosts,
        vec!["foo.dev.example.com".to_string(), "foo-api.dev.example.com".to_string(), "foo.example.org".to_string()]
    );
    assert_eq!(route.strip_uri, true);
    assert_eq!(route.preserve_host, false);
    assert_eq!(m.hosts, vec!["foo.example.org".to_string()]);
}

#[test]
fn an_explicit_upstream_is_kept() {
    let mut s = source();
    s.overrides.defaults.kong = Enabled {
        enabled: None,
        item: KongSource { uris: text("/foo"), upstream_url: text("http://elsewhere:8080"), ..Default::default() },
    };
    assert_eq!(build(s).unwrap().kong_apis[0].upstream_url, "http://elsewhere:8080");
}

#[test]
fn plain_fields_pass_through() {
    let mut s = source();
    s.external = true;
    s.overrides.publicly_accessible = Some(true);
    s.overrides.image_size = Some(1024);
    s.overrides.command = Some(vec!["serve".to_string(), "--fast".to_string()]);
    s.overrides.ports = Some(vec![Port { name: "http".to_string(), port: 8000 }]);
    s.overrides.auto_scaling = Some(AutoScaling { min_replicas: 2, max_replicas: 6 });
    s.overrides.labels = files_of(&[("tier", "backend")]);
    s.overrides.defaults.env = files_of(&[("LOG_LEVEL", "debug")]);
    s.overrides.defaults.replica_count = Some(4);
    s.overrides.defaults.chart = text("base");
    let m = build(s).unwrap();
    assert_eq!(m.external, true);
    assert_eq!(m.publicly_accessible, true);
    assert_eq!(m.image_size, Some(1024));
    assert_eq!(m.command, vec!["serve".to_string(), "--fast".to_string()]);
    assert_eq!(m.ports, vec![Port { name: "http".to_string(), port: 8000 }]);
    assert_eq!(m.auto_scaling, Some(AutoScaling { min_replicas: 2, max_replicas: 6 }));
    assert_eq!(m.labels.get("tier"), text("backend"));
    assert_eq!(m.env.get("LOG_LEVEL"), text("debug"));
    assert_eq!(m.replica_count, Some(4));
    assert_eq!(m.chart, text("base"));
}

#[test]
fn builds_are_deterministic() {
    let files = files_of(&[("./templates/app.yml.j2", "a"), ("./templates/log.ini.j2", "b")]);
    let make = || {
        let mut s = source();
        s.overrides.configs = Some(config_map());
        s.overrides.data_handling = Some(data_handling());
        s.build(&config(), &region(), &files)
    };
    assert_eq!(make(), make());
}

fn keys(v: &serde_json::Value) -> Vec<String> {
    v.as_object().unwrap().keys().cloned().collect()
}

fn string(s: &str) -> serde_json::Value {
    serde_json::Value::String(s.to_string())
}

#[test]
fn a_manifest_is_written_with_its_own_keys() {
    let mut s = source();
    s.overrides.publicly_accessible = Some(true);
    s.overrides.http_port = Some(8000);
    s.overrides.command = Some(vec!["serve".to_string()]);
    s.overrides.ports = Some(vec![Port { name: "http".to_string(), port: 8000 }]);
    s.overrides.data_handling = Some(data_handling());
    s.overrides.labels = files_of(&[("tier", "backend")]);
    s.overrides.defaults.env = files_of(&[("LOG_LEVEL", "debug")]);
    s.overrides.defaults.kong = Enabled {
        enabled: None,
        item: KongSource {
            uris: text("/foo"),
            oauth2: shipcat::merge::PluginSetting::Removed,
            tcp_log: shipcat::merge::PluginSetting::Present(shipcat::plugins::TcpLogConfig {
                host: "log".to_string(),
                port: 9901,
            }),
            ..Default::default()
        },
    };
    let doc = serde_json::Value::Object(build(s).unwrap().to_json());
    assert_eq!(
        keys(&doc),
        vec![
            "command",
            "dataHandling",
            "dependencies",
            "disabled",
            "env",
            "environment",
            "external",
            "hosts",
            "httpPort",
            "image",
            "imageSize",
            "kongApis",
            "labels",
            "metadata",
            "name",
            "namespace",
            "podAnnotations",
            "ports",
            "publiclyAccessible",
            "region",
            "regions",
            "secretFiles",
            "serviceAnnotations",
            "sourceRanges",
            "version",
        ]
    );
    assert_eq!(doc["name"], string("foo"));
    assert_eq!(doc["publiclyAccessible"], serde_json::Value::Bool(true));
    assert_eq!(doc["imageSize"], serde_json::Value::Number(512.into()));
    assert_eq!(doc["httpPort"], serde_json::Value::Number(8000.into()));
    assert_eq!(doc["image"], string("acme/foo"));
    assert_eq!(doc["command"][0], string("serve"));
    assert_eq!(doc["regions"].as_array().unwrap().len(), 2);
    assert_eq!(doc["regions"][1], string("prod-uk"));
    assert_eq!(doc["ports"][0]["port"], serde_json::Value::Number(8000.into()));
    assert_eq!(doc["env"]["LOG_LEVEL"], string("debug"));
    assert_eq!(doc["labels"]["tier"], string("backend"));
    assert_eq!(doc["metadata"]["support"], string("#platform-help"));
    assert_eq!(keys(&doc["metadata"]), vec!["notifications", "repo", "support", "team"]);
    assert_eq!(doc["dataHandling"]["stores"][0]["fields"][0]["retentionPeriod"], string("P1Y"));
    assert_eq!(doc["dataHandling"]["stores"][0]["fields"][0]["encrypted"], serde_json::Value::Bool(true));
    let route = &doc["kongApis"][0];
    assert_eq!(route["name"], string("foo"));
    assert_eq!(route["upstream_url"], string("http://foo.dev.svc.cluster.local"));
    assert_eq!(route["uris"], string("/foo"));
    assert_eq!(route["strip_uri"], serde_json::Value::Bool(false));
    assert_eq!(keys(&route["oauth2"]), vec!["removed"]);
    assert_eq!(route["oauth2"]["removed"], serde_json::Value::Bool(true));
    assert_eq!(route["tcp_log"]["host"], string("log"));
    assert_eq!(route["tcp_log"]["port"], serde_json::Value::Number(9901.into()));
    assert_eq!(route.get("jwt"), None);
    assert_eq!(doc.get("chart"), None);
    assert_eq!(doc.get("configs"), None);
}

#[test]
fn the_image_is_decided_from_image_and_prefix() {
    assert_eq!(source().build_image("foo"), Ok("acme/foo".to_string()));
    let mut s = source();
    s.overrides.image = text("registry.example.com/custom");
    assert_eq!(s.build_image("foo"), Ok("registry.example.com/custom".to_string()));
    let mut s = source();
    s.overrides.defaults.image_prefix = None;
    let err = s.build_image("foo").unwrap_err();
    assert_eq!(err, ShipcatError::ImagePrefixUndefined);
    assert_eq!(err.message(), "image prefix is not defined");
}

#[test]
fn metadata_inherits_from_its_team() {
    let md = source().build_metadata(&config()).unwrap();
    assert_eq!(md.support, text("#platform-help"));
    assert_eq!(md.notifications, text("#platform-bots"));
    let mut s = source();
    s.metadata = Some(Metadata { support: text("#own"), ..metadata() });
    let md = s.build_metadata(&config()).unwrap();
    assert_eq!(md.support, text("#own"));
    assert_eq!(md.notifications, text("#platform-bots"));
    let mut s = source();
    s.metadata = Some(Metadata { team: "quiet".to_string(), support: text("#own"), ..metadata() });
    assert_eq!(s.build_metadata(&config()).unwrap().support, text("#own"));
    let mut s = source();
    s.metadata = None;
    assert_eq!(s.build_metadata(&config()), Err(ShipcatError::MissingField(Field::Metadata)));
    let mut s = source();
    s.metadata = Some(Metadata { team: "nobody".to_string(), ..metadata() });
    assert_eq!(s.build_metadata(&config()), Err(ShipcatError::UnknownTeam("nobody".to_string())));
}
