use shipcat::error::{Field, ShipcatError};
use shipcat::kong::{
    generate_complete_kong_output, ConsumerSource, Enabled, JwtSource, Kong, KongConfig, KongfigOutput,
    KongOutput, KongSource, OAuth2Source,
};
use shipcat::kongfig::{
    api_of, kongfig_apis, kongfig_consumers, Consumer, ConsumerCredentials, JwtCredentials, OAuth2Credentials,
};
use shipcat::layers::{ManifestDefaults, ManifestOverrides, ManifestSource};
use shipcat::merge::PluginSetting;
use shipcat::plugins::{
    resolve_setting, ApiPlugin, CorrelationIdConfig, HeadersQueryBody, Oauth2Config, PluginAttributes,
    PluginBase, RequestTransformerConfig, TcpLogConfig,
};
use shipcat::string_map::StringMap;
use shipcat::structs::{Config, KafkaConfig, Metadata, Region, Team};

fn text(s: &str) -> Option<String> {
    Some(s.to_string())
}

fn region() -> Region {
    Region {
        name: "dev-uk".to_string(),
        namespace: "dev".to_string(),
        environment: "dev".to_string(),
        cluster: "kops-uk".to_string(),
        kong: KongConfig { base_url: ".dev.example.com".to_string(), config_url: "admin".to_string(), consumers: vec![] },
        kafka: KafkaConfig { brokers: vec![], zk: vec![] },
    }
}

fn oauth2() -> Oauth2Config {
    Oauth2Config { global_credentials: true, anonymous: text("anon") }
}

fn route(layers: Vec<KongSource>) -> Kong {
    let mut merged = KongSource::empty();
    for layer in layers {
        merged = merged.merge(layer);
    }
    merged.build("svc", &region(), &None)
}

fn headers(list: &[&str]) -> HeadersQueryBody {
    HeadersQueryBody { headers: Some(list.iter().map(|s| s.to_string()).collect()), querystring: None, body: None }
}

#[test]
fn a_removal_overrides_a_presence_below() {
    let base = KongSource { uris: text("/svc"), oauth2: PluginSetting::Present(oauth2()), ..Default::default() };
    let over = KongSource { oauth2: PluginSetting::Removed, ..Default::default() };
    let api = api_of(route(vec![base, over]));
    assert_eq!(api.plugins.len(), 2);
    assert_eq!(api.plugins[0], ApiPlugin::Oauth2(PluginBase::Removed));
    assert!(matches!(api.plugins[1], ApiPlugin::RequestTransformer(PluginBase::Present(_))));
}

#[test]
fn a_presence_overrides_a_removal_below() {
    let base = KongSource { oauth2: PluginSetting::Removed, ..Default::default() };
    let over = KongSource { oauth2: PluginSetting::Present(oauth2()), ..Default::default() };
    let api = api_of(route(vec![base, over]));
    assert_eq!(
        api.plugins[0],
        ApiPlugin::Oauth2(PluginBase::Present(PluginAttributes { enabled: true, config: oauth2() }))
    );
}

#[test]
fn an_unspecified_layer_lets_the_lower_one_stand() {
    let base = KongSource { oauth2: PluginSetting::Present(oauth2()), ..Default::default() };
    let api = api_of(route(vec![base, KongSource::default(), KongSource::empty()]));
    assert_eq!(
        api.plugins[0],
        ApiPlugin::Oauth2(PluginBase::Present(PluginAttributes { enabled: true, config: oauth2() }))
    );
}

#[test]
fn a_plugin_that_no_layer_mentions_has_no_entry() {
    let base = KongSource { uris: text("/svc"), oauth2: PluginSetting::Present(oauth2()), ..Default::default() };
    let over = KongSource { tcp_log: PluginSetting::Removed, ..Default::default() };
    let api = api_of(route(vec![base, over]));
    assert_eq!(api.plugins.len(), 3);
    assert!(api.plugins.iter().all(|p| !matches!(p, ApiPlugin::Jwt(_))));
    assert!(api.plugins.iter().all(|p| !matches!(p, ApiPlugin::CorrelationId(_))));
    assert!(api.plugins.iter().all(|p| !matches!(p, ApiPlugin::JwtValidator(_))));
    assert_eq!(api.plugins[0], ApiPlugin::TcpLog(PluginBase::Removed));
}

#[test]
fn a_route_without_plugins_has_no_entries() {
    let api = api_of(route(vec![KongSource { uris: text("/svc"), ..Default::default() }]));
    assert!(api.plugins.is_empty());
    assert_eq!(api.name, "svc");
    assert_eq!(api.attributes.uris, Some(vec!["/svc".to_string()]));
    assert_eq!(api.attributes.upstream_url, "http://svc.dev.svc.cluster.local");
    assert_eq!(api.attributes.preserve_host, false);
}

#[test]
fn header_transformation_carries_the_service() {
    let api = api_of(route(vec![KongSource {
        correlation_id: PluginSetting::Present(CorrelationIdConfig {
            header_name: "x-request-id".to_string(),
            generator: "uuid".to_string(),
            echo_downstream: false,
        }),
        ..Default::default()
    }]));
    assert_eq!(api.plugins.len(), 2);
    let expected = RequestTransformerConfig {
        http_method: None,
        remove: HeadersQueryBody::default(),
        replace: headers(&["Upstream-Service: svc"]),
        add: headers(&["Upstream-Service: svc"]),
        append: HeadersQueryBody::default(),
        rename: HeadersQueryBody::default(),
    };
    assert_eq!(
        api.plugins[1],
        ApiPlugin::RequestTransformer(PluginBase::Present(PluginAttributes { enabled: true, config: expected }))
    );
}

#[test]
fn configured_headers_are_kept_before_the_service_header() {
    let configured = RequestTransformerConfig {
        http_method: text("POST"),
        remove: headers(&["X-Debug"]),
        replace: HeadersQueryBody::default(),
        add: headers(&["X-Team: core"]),
        append: HeadersQueryBody { headers: None, querystring: Some(vec!["v=1".to_string()]), body: None },
        rename: HeadersQueryBody::default(),
    };
    let api = api_of(route(vec![KongSource {
        request_transformer: PluginSetting::Present(configured),
        ..Default::default()
    }]));
    assert_eq!(api.plugins.len(), 1);
    match &api.plugins[0] {
        ApiPlugin::RequestTransformer(PluginBase::Present(attributes)) => {
            assert_eq!(attributes.enabled, true);
            assert_eq!(attributes.config.http_method, text("POST"));
            assert_eq!(attributes.config.add, headers(&["X-Team: core", "Upstream-Service: svc"]));
            assert_eq!(attributes.config.replace, headers(&["Upstream-Service: svc"]));
            assert_eq!(attributes.config.remove, headers(&["X-Debug"]));
            assert_eq!(attributes.config.append.querystring, Some(vec!["v=1".to_string()]));
        }
        other => panic!("not a present header transformation: {:?}", other),
    }
}

#[test]
fn a_removed_header_transformation_keeps_the_service_header() {
    let base = KongSource {
        request_transformer: PluginSetting::Present(RequestTransformerConfig {
            add: headers(&["X-Team: core"]),
            ..Default::default()
        }),
        ..Default::default()
    };
    let over = KongSource { request_transformer: PluginSetting::Removed, ..Default::default() };
    let api = api_of(route(vec![base, over]));
    assert_eq!(api.plugins.len(), 1);
    match &api.plugins[0] {
        ApiPlugin::RequestTransformer(PluginBase::Present(attributes)) => {
            assert_eq!(attributes.config.add, headers(&["Upstream-Service: svc"]));
            assert_eq!(attributes.config.replace, headers(&["Upstream-Service: svc"]));
        }
        other => panic!("not a present header transformation: {:?}", other),
    }
}

#[test]
fn plugins_come_in_the_fixed_order() {
    let api = api_of(route(vec![KongSource {
        request_transformer: PluginSetting::Present(RequestTransformerConfig::default()),
        json_cookies_csrf: PluginSetting::Removed,
        json_cookies_to_headers: PluginSetting::Removed,
        jwt_validator: PluginSetting::Removed,
        jwt: PluginSetting::Removed,
        oauth2: PluginSetting::Removed,
        tcp_log: PluginSetting::Present(TcpLogConfig { host: "log".to_string(), port: 1 }),
        correlation_id: PluginSetting::Removed,
        ..Default::default()
    }]));
    let kinds: Vec<&str> = api
        .plugins
        .iter()
        .map(|p| match p {
            ApiPlugin::CorrelationId(_) => "correlation-id",
            ApiPlugin::TcpLog(_) => "tcp-log",
            ApiPlugin::Oauth2(_) => "oauth2",
            ApiPlugin::Jwt(_) => "jwt",
            ApiPlugin::JwtValidator(_) => "jwt-validator",
            ApiPlugin::JsonCookiesToHeaders(_) => "json-cookies-to-headers",
            ApiPlugin::JsonCookiesCsrf(_) => "json-cookies-csrf",
            ApiPlugin::RequestTransformer(_) => "request-transformer",
        })
        .collect();
    assert_eq!(
        kinds,
        vec![
            "correlation-id",
            "tcp-log",
            "oauth2",
            "jwt",
            "jwt-validator",
            "json-cookies-to-headers",
            "json-cookies-csrf",
            "request-transformer"
        ]
    );
}

#[test]
fn settings_resolve_to_entries() {
    assert_eq!(resolve_setting(PluginSetting::<Oauth2Config>::Unspecified), None);
    assert_eq!(resolve_setting(PluginSetting::<Oauth2Config>::Removed), Some(PluginBase::Removed));
    assert_eq!(
        resolve_setting(PluginSetting::Present(oauth2())),
        Some(PluginBase::Present(PluginAttributes { enabled: true, config: oauth2() }))
    );
    assert_eq!(PluginBase::new(oauth2()), PluginBase::Present(PluginAttributes { enabled: true, config: oauth2() }));
    assert_eq!(PluginBase::<Oauth2Config>::removed(), PluginBase::Removed);
}

#[test]
fn apis_follow_the_routes() {
    let a = KongSource { uris: text("/a"), ..Default::default() }.build("a", &region(), &None);
    let b = KongSource { uris: text("/b"), hosts: Some(vec!["b".to_string()]), ..Default::default() }.build(
        "b",
        &region(),
        &Some(vec!["b.example.org".to_string()]),
    );
    let apis = kongfig_apis(&vec![a, b]);
    assert_eq!(apis.len(), 2);
    assert_eq!(apis[0].name, "a");
    assert_eq!(apis[1].name, "b");
    assert_eq!(apis[1].attributes.hosts, vec!["b.dev.example.com".to_string(), "b.example.org".to_string()]);
    assert!(kongfig_apis(&vec![]).is_empty());
}

#[test]
fn the_anonymous_consumer_is_always_there() {
    assert_eq!(kongfig_consumers(&vec![]), vec![Consumer { username: "anonymous".to_string(), credentials: vec![] }]);
    let directory = vec![
        ConsumerSource {
            name: "both".to_string(),
            oauth2: Some(OAuth2Source { client_id: "ID".to_string(), client_secret: "SECRET".to_string() }),
            jwt: Some(JwtSource { kid: "issuer".to_string(), public_key: "KEY".to_string() }),
        },
        ConsumerSource { name: "neither".to_string(), oauth2: None, jwt: None },
    ];
    assert_eq!(
        kongfig_consumers(&directory),
        vec![
            Consumer {
                username: "both".to_string(),
                credentials: vec![
                    ConsumerCredentials::OAuth2(OAuth2Credentials {
                        name: "both".to_string(),
                        client_id: "ID".to_string(),
                        client_secret: "SECRET".to_string(),
                    }),
                    ConsumerCredentials::Jwt(JwtCredentials {
                        key: "issuer".to_string(),
                        algorithm: "RS256".to_string(),
                        rsa_public_key: "KEY".to_string(),
                    }),
                ],
            },
            Consumer { username: "neither".to_string(), credentials: vec![] },
            Consumer { username: "anonymous".to_string(), credentials: vec![] },
        ]
    );
}

#[test]
fn a_layer_can_switch_the_route_off() {
    let on = Enabled { enabled: Some(true), item: KongSource { uris: text("/svc"), ..Default::default() } };
    let off = Enabled { enabled: Some(false), item: KongSource::default() };
    let merged = on.merge(off);
    assert_eq!(merged.enabled, Some(false));
    assert_eq!(merged.build("svc", &region(), &None), Ok(None));
    let quiet = Enabled::<KongSource>::empty();
    assert_eq!(quiet.build("svc", &region(), &None), Ok(None));
    let hosted = Enabled::<KongSource>::default().build("svc", &region(), &Some(vec!["svc.example.org".to_string()]));
    assert_eq!(hosted.unwrap().unwrap().hosts, vec!["svc.example.org".to_string()]);
}

#[test]
fn the_gateway_configuration_is_written_as_json() {
    let mut reg = region();
    reg.kong.consumers = vec![ConsumerSource {
        name: "client".to_string(),
        oauth2: Some(OAuth2Source { client_id: "ID".to_string(), client_secret: "SECRET".to_string() }),
        jwt: None,
    }];
    let routes = vec![route(vec![KongSource {
        uris: text("/svc"),
        oauth2: PluginSetting::Removed,
        tcp_log: PluginSetting::Present(TcpLogConfig { host: "log".to_string(), port: 9901 }),
        ..Default::default()
    }])];
    let output = KongfigOutput::new(KongOutput { apis: routes, kong: reg.kong.clone() }, &reg);
    let bytes = output.to_bytes().unwrap();
    let doc: serde_json::Value = serde_json::from_slice(&bytes).unwrap();
    assert_eq!(doc, serde_json::Value::Object(output.to_json()));
    let string = |s: &str| serde_json::Value::String(s.to_string());
    assert_eq!(doc["host"], string("admin"));
    assert_eq!(doc["consumers"].as_array().unwrap().len(), 2);
    assert_eq!(doc["consumers"][0]["username"], string("client"));
    assert_eq!(doc["consumers"][0]["credentials"][0]["name"], string("oauth2"));
    assert_eq!(doc["consumers"][0]["credentials"][0]["attributes"]["client_id"], string("ID"));
    assert_eq!(doc["consumers"][0]["credentials"][0]["attributes"]["client_secret"], string("SECRET"));
    assert_eq!(doc["consumers"][1]["username"], string("anonymous"));
    assert_eq!(doc["consumers"][1]["credentials"].as_array().unwrap().len(), 0);
    let api = &doc["apis"][0];
    assert_eq!(api["name"], string("svc"));
    assert_eq!(api["attributes"]["uris"][0], string("/svc"));
    assert_eq!(api["attributes"]["upstream_url"], string("http://svc.dev.svc.cluster.local"));
    assert_eq!(api["attributes"]["hosts"].as_array().unwrap().len(), 0);
    let plugins = api["plugins"].as_array().unwrap();
    assert_eq!(plugins.len(), 3);
    assert_eq!(plugins[0]["name"], string("tcp-log"));
    assert_eq!(plugins[0]["attributes"]["enabled"], serde_json::Value::Bool(true));
    assert_eq!(plugins[0]["attributes"]["config"]["host"], string("log"));
    assert_eq!(plugins[0]["attributes"]["config"]["port"], serde_json::Value::Number(9901.into()));
    assert_eq!(plugins[1]["name"], string("oauth2"));
    assert_eq!(plugins[1]["ensure"], string("removed"));
    assert_eq!(plugins[1].get("attributes"), None);
    assert_eq!(plugins[2]["name"], string("request-transformer"));
    assert_eq!(plugins[2]["attributes"]["config"]["add"]["headers"][0], string("Upstream-Service: svc"));
    assert_eq!(plugins[2]["attributes"]["config"]["replace"]["headers"][0], string("Upstream-Service: svc"));
}

#[test]
fn a_batch_is_complete_or_names_its_failures() {
    let conf = Config {
        teams: vec![Team { name: "core".to_string(), support: None, notifications: None }],
        regions: vec![],
        clusters: vec![],
    };
    let source = |name: &str, version: Option<String>| ManifestSource {
        name: text(name),
        external: false,
        disabled: false,
        regions: vec![],
        metadata: Some(Metadata { team: "core".to_string(), repo: "r".to_string(), support: None, notifications: None }),
        overrides: ManifestOverrides {
            image: text("i"),
            version,
            defaults: ManifestDefaults {
                kong: Enabled { enabled: None, item: KongSource { uris: Some(format!("/{}", name)), ..Default::default() } },
                ..Default::default()
            },
            ..Default::default()
        },
    };
    let build = |s: ManifestSource| s.build(&conf, &region(), &StringMap::new());
    let all = vec![build(source("a", text("1"))), build(source("b", text("2")))];
    let output = generate_complete_kong_output(&all, &region()).unwrap();
    assert_eq!(output.apis.len(), 2);
    assert_eq!(output.apis[0].name, "a");
    assert_eq!(output.apis[1].uris, text("/b"));
    let some = vec![build(source("a", None)), build(source("b", text("2"))), build(source("c", None))];
    assert_eq!(some[0], Err(ShipcatError::MissingField(Field::Version)));
    assert_eq!(generate_complete_kong_output(&some, &region()), Err(vec![0, 2]));
    assert_eq!(generate_complete_kong_output(&vec![], &region()).map(|o| o.apis.len()), Ok(0));
}
