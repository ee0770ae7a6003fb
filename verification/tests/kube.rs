use shipcat::error::ShipcatError;
use shipcat::kong::KongConfig;
use shipcat::kube::{
    assemble_config, can_generate, full_context, generate, make_base_context, make_full_deployment_context,
    output_file, render_configs, ship, try_ship, ConfigMapRendered, Deployment, RenderedConfig,
};
use shipcat::layers::{ManifestDefaults, ManifestOverrides, ManifestSource};
use shipcat::manifest::Manifest;
use shipcat::string_map::StringMap;
use shipcat::structs::{
    AutoScaling, Config, ConfigMap, ConfigMappedFile, HealthCheck, KafkaConfig, Metadata, Port, Region, Team,
};

fn text(s: &str) -> Option<String> {
    Some(s.to_string())
}

fn string(s: &str) -> serde_json::Value {
    serde_json::Value::String(s.to_string())
}

fn number(n: u32) -> serde_json::Value {
    serde_json::Value::Number(n.into())
}

fn config_map() -> ConfigMap {
    ConfigMap {
        name: text("foo-config"),
        mount: "/config/".to_string(),
        files: vec![
            ConfigMappedFile { name: "app.yml.j2".to_string(), dest: "app.yml".to_string(), value: None },
            ConfigMappedFile { name: "log.ini.j2".to_string(), dest: "log.ini".to_string(), value: None },
        ],
    }
}

fn manifest(configs: Option<ConfigMap>, scaling: Option<AutoScaling>) -> Manifest {
    let region = Region {
        name: "dev-uk".to_string(),
        namespace: "dev".to_string(),
        environment: "dev".to_string(),
        cluster: "kops-uk".to_string(),
        kong: KongConfig { base_url: "".to_string(), config_url: "".to_string(), consumers: vec![] },
        kafka: KafkaConfig { brokers: vec![], zk: vec![] },
    };
    let conf = Config {
        teams: vec![Team { name: "core".to_string(), support: None, notifications: None }],
        regions: vec![],
        clusters: vec![],
    };
    let files = StringMap::from_entries(&vec![
        ("./templates/app.yml.j2".to_string(), "app".to_string()),
        ("./templates/log.ini.j2".to_string(), "log".to_string()),
    ]);
    let mut env = StringMap::new();
    env.insert("LOG_LEVEL".to_string(), "debug".to_string());
    env.insert("DB_URL".to_string(), "postgres://db".to_string());
    ManifestSource {
        name: text("foo"),
        external: false,
        disabled: false,
        regions: vec!["dev-uk".to_string()],
        metadata: Some(Metadata { team: "core".to_string(), repo: "r".to_string(), support: None, notifications: None }),
        overrides: ManifestOverrides {
            image: text("acme/foo"),
            version: text("1.2.3"),
            configs,
            ports: Some(vec![Port { name: "http".to_string(), port: 8000 }, Port { name: "admin".to_string(), port: 8001 }]),
            health: Some(HealthCheck { uri: "/health".to_string(), wait: 30 }),
            auto_scaling: scaling,
            defaults: ManifestDefaults { env, ..Default::default() },
            ..Default::default()
        },
    }
    .build(&conf, &region, &files)
    .unwrap()
}

fn deployment(configs: Option<ConfigMap>, scaling: Option<AutoScaling>) -> Deployment {
    Deployment {
        service: "foo".to_string(),
        environment: "dev".to_string(),
        location: "uk".to_string(),
        manifest: manifest(configs, scaling),
    }
}

fn render(name: &str, ctx: &tera::Context) -> Result<String, ShipcatError> {
    if name == "log.ini.j2" && ctx.get("fail").is_some() {
        return Err(ShipcatError::NameMismatch);
    }
    let service = ctx.get("service").and_then(|v| v.as_str()).unwrap_or("?").to_string();
    let region = ctx.get("region").and_then(|v| v.as_str()).unwrap_or("?").to_string();
    Ok(format!("{} for {} in {}", name, service, region))
}

fn failing(name: &str, _ctx: &tera::Context) -> Result<String, ShipcatError> {
    if name == "log.ini.j2" {
        Err(ShipcatError::Json("cannot render".to_string()))
    } else {
        Ok("fine".to_string())
    }
}

#[test]
fn deployment_must_be_of_its_manifest() {
    assert_eq!(deployment(None, None).check(), Ok(()));
    let mut dep = deployment(None, None);
    dep.service = "bar".to_string();
    let err = dep.check().unwrap_err();
    assert_eq!(err, ShipcatError::NameMismatch);
    assert_eq!(err.message(), "manifest name does not match service name");
}

#[test]
fn base_context_holds_env_service_and_region() {
    let ctx = make_base_context(&deployment(None, None));
    assert_eq!(ctx.get("service"), Some(&string("foo")));
    assert_eq!(ctx.get("region"), Some(&string("dev-uk")));
    let env = ctx.get("env").unwrap().as_object().unwrap();
    assert_eq!(env.len(), 2);
    assert_eq!(env.get("LOG_LEVEL"), Some(&string("debug")));
    assert_eq!(env.get("DB_URL"), Some(&string("postgres://db")));
    let all = ctx.into_json();
    assert_eq!(all.as_object().unwrap().keys().cloned().collect::<Vec<_>>(), vec!["env", "region", "service"]);
}

#[test]
fn full_context_holds_what_the_template_needs() {
    let dep = deployment(Some(config_map()), Some(AutoScaling { min_replicas: 2, max_replicas: 5 }));
    let config = ConfigMapRendered {
        name: "foo-config".to_string(),
        path: "/config/".to_string(),
        files: vec![RenderedConfig { name: "app.yml".to_string(), rendered: "a: 1".to_string() }],
    };
    let ctx = full_context(&dep, &Some(config));
    assert_eq!(ctx.get("service"), Some(&string("foo")));
    assert_eq!(ctx.get("image"), Some(&string("acme/foo")));
    assert_eq!(ctx.get("replication_strategy"), Some(&string("rolling")));
    let ports = ctx.get("ports").unwrap().as_array().unwrap();
    assert_eq!(ports.len(), 2);
    assert_eq!(ports[0]["name"], string("http"));
    assert_eq!(ports[0]["port"], number(8000));
    assert_eq!(ports[1]["name"], string("admin"));
    assert_eq!(ports[1]["port"], number(8001));
    let health = ctx.get("health").unwrap();
    assert_eq!(health["uri"], string("/health"));
    assert_eq!(health["wait"], number(30));
    let config = ctx.get("config").unwrap();
    assert_eq!(config["name"], string("foo-config"));
    assert_eq!(config["path"], string("/config/"));
    let files = config["files"].as_array().unwrap();
    assert_eq!(files.len(), 1);
    assert_eq!(files[0]["name"], string("app.yml"));
    assert_eq!(files[0]["rendered"], string("a: 1"));
    let all = ctx.into_json();
    assert_eq!(
        all.as_object().unwrap().keys().cloned().collect::<Vec<_>>(),
        vec!["config", "env", "health", "image", "mf", "ports", "region", "replication_strategy", "service"]
    );
    assert_eq!(all["mf"], serde_json::Value::Object(dep.manifest.to_json()));
    assert_eq!(all["mf"]["name"], string("foo"));
}

#[test]
fn a_fixed_number_of_replicas_has_no_strategy() {
    let dep = deployment(None, Some(AutoScaling { min_replicas: 3, max_replicas: 3 }));
    let ctx = full_context(&dep, &None);
    assert_eq!(ctx.get("replication_strategy"), Some(&serde_json::Value::Null));
    assert_eq!(ctx.get("config"), None);
    let ctx = full_context(&deployment(None, None), &None);
    assert_eq!(ctx.get("replication_strategy"), Some(&serde_json::Value::Null));
}

#[test]
fn rendered_files_are_assembled_in_order() {
    let rendered = assemble_config(&config_map(), vec!["first".to_string(), "second".to_string()]);
    assert_eq!(
        rendered,
        ConfigMapRendered {
            name: "foo-config".to_string(),
            path: "/config/".to_string(),
            files: vec![
                RenderedConfig { name: "app.yml".to_string(), rendered: "first".to_string() },
                RenderedConfig { name: "log.ini".to_string(), rendered: "second".to_string() },
            ],
        }
    );
}

#[test]
fn configuration_files_are_rendered_with_the_base_context() {
    let dep = deployment(Some(config_map()), None);
    let rendered = render_configs(&dep, &render).unwrap().unwrap();
    assert_eq!(rendered.name, "foo-config");
    assert_eq!(rendered.files.len(), 2);
    assert_eq!(rendered.files[0].name, "app.yml");
    assert_eq!(rendered.files[0].rendered, "app.yml.j2 for foo in dev-uk");
    assert_eq!(rendered.files[1].rendered, "log.ini.j2 for foo in dev-uk");
    assert_eq!(render_configs(&deployment(None, None), &render), Ok(None));
    assert_eq!(render_configs(&dep, &failing), Err(ShipcatError::Json("cannot render".to_string())));
}

#[test]
fn rendering_stops_at_the_first_refusal() {
    let asked = std::cell::RefCell::new(Vec::<String>::new());
    let refuse_first = |name: &str, _ctx: &tera::Context| -> Result<String, ShipcatError> {
        asked.borrow_mut().push(name.to_string());
        Err(ShipcatError::Template(format!("no {}", name)))
    };
    let dep = deployment(Some(config_map()), None);
    assert_eq!(render_configs(&dep, &refuse_first), Err(ShipcatError::Template("no app.yml.j2".to_string())));
    assert_eq!(asked.borrow().clone(), vec!["app.yml.j2".to_string()]);
    asked.borrow_mut().clear();
    assert_eq!(generate(&dep, &refuse_first), Err(ShipcatError::Template("no app.yml.j2".to_string())));
    assert_eq!(asked.borrow().clone(), vec!["app.yml.j2".to_string()]);
}

#[test]
fn the_full_context_is_built_by_rendering() {
    let dep = deployment(Some(config_map()), None);
    let ctx = make_full_deployment_context(&dep, &render).unwrap();
    let config = ctx.get("config").unwrap();
    assert_eq!(config["files"][1]["rendered"], string("log.ini.j2 for foo in dev-uk"));
    assert!(make_full_deployment_context(&dep, &failing).is_err());
}

#[test]
fn a_deployment_without_configuration_files_always_has_its_context() {
    let dep = deployment(None, None);
    let ctx = make_full_deployment_context(&dep, &failing).unwrap();
    assert_eq!(ctx.get("config"), None);
    assert_eq!(ctx.get("image"), Some(&string("acme/foo")));
    assert_eq!(generate(&dep, &failing), Ok("fine".to_string()));
}

#[test]
fn the_deployment_is_generated_from_its_template() {
    let dep = deployment(Some(config_map()), None);
    assert!(can_generate(&dep));
    assert_eq!(generate(&dep, &render), Ok("deployment.yaml.j2 for foo in dev-uk".to_string()));
    assert_eq!(generate(&dep, &failing), Err(ShipcatError::Json("cannot render".to_string())));
    let mut without = deployment(None, None);
    without.manifest.image = None;
    assert!(!can_generate(&without));
    let mut unnamed = deployment(Some(config_map()), None);
    unnamed.manifest.configs.as_mut().unwrap().name = None;
    assert!(!can_generate(&unnamed));
}

#[test]
fn generated_text_goes_to_the_output_file() {
    assert_eq!(output_file("a: 1"), ("./OUTPUT/values.yaml".to_string(), "a: 1\n".to_string()));
}

#[test]
fn shipping_sets_the_image() {
    let mf = manifest(None, None);
    let commands = ship("dev", "1.2.4", &mf);
    assert_eq!(
        commands,
        vec![
            vec!["config".to_string(), "current-context".to_string()],
            vec![
                "set".to_string(),
                "image".to_string(),
                "deployment/foo".to_string(),
                "foo=acme/foo:1.2.4".to_string(),
                "-n".to_string(),
                "dev".to_string(),
            ],
        ]
    );
    assert_eq!(try_ship("dev", "1.2.4", &mf), Some(commands));
    let mut without = manifest(None, None);
    without.image = None;
    assert_eq!(try_ship("dev", "1.2.4", &without), None);
}
