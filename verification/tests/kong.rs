use shipcat::kong::{
    generate_kong_output, ConsumerSource, Enabled, JwtSource, KongConfig, KongfigOutput, KongSource,
    OAuth2Source,
};
use shipcat::kongfig::ConsumerCredentials;
use shipcat::layers::{ManifestDefaults, ManifestOverrides, ManifestSource};
use shipcat::manifest::{resolve, Manifest};
use shipcat::merge::PluginSetting;
use shipcat::plugins::{
    ApiPlugin, CorrelationIdConfig, HeadersQueryBody, JsonCookiesCsrfConfig, JsonCookiesToHeadersConfig,
    JwtConfig, JwtValidatorConfig, Oauth2Config, PluginAttributes, PluginBase, RequestTransformerConfig,
    TcpLogConfig,
};
use shipcat::string_map::StringMap;
use shipcat::structs::{Config, KafkaConfig, Metadata, Region, Team};

fn region() -> Region {
    Region {
        name: "dev-uk".to_string(),
        namespace: "dev".to_string(),
        environment: "dev".to_string(),
        cluster: "kops-uk".to_string(),
        kong: KongConfig {
            base_url: ".dev.something.domain.com".to_string(),
            config_url: "admin.dev.something.domain.com".to_string(),
            consumers: vec![
                ConsumerSource {
                    name: "fake-ask".to_string(),
                    oauth2: Some(OAuth2Source {
                        client_id: "FAKEASKID".to_string(),
                        client_secret: "FAKEASKSECRET".to_string(),
                    }),
                    jwt: None,
                },
                ConsumerSource {
                    name: "my-idp".to_string(),
                    oauth2: None,
                    jwt: Some(JwtSource {
                        kid: "https://my-issuer/".to_string(),
                        public_key: "-----BEGIN PUBLIC KEY-----\nmy-key\n-----END PUBLIC KEY-----".to_string(),
                    }),
                },
            ],
        },
        kafka: KafkaConfig { brokers: vec![], zk: vec![] },
    }
}

fn config() -> Config {
    Config {
        teams: vec![Team {
            name: "devops".to_string(),
            support: Some("#devops-support".to_string()),
            notifications: Some("#devops-notifications".to_string()),
        }],
        regions: vec!["dev-uk".to_string()],
        clusters: vec![],
    }
}

fn global_defaults() -> ManifestDefaults {
    ManifestDefaults {
        image_prefix: Some("quay.io/babylonhealth".to_string()),
        chart: Some("base".to_string()),
        replica_count: Some(1),
        env: StringMap::new(),
        kong: Enabled {
            enabled: None,
            item: KongSource {
                correlation_id: PluginSetting::Present(CorrelationIdConfig {
                    header_name: "babylon-request-id".to_string(),
                    generator: "uuid".to_string(),
                    echo_downstream: true,
                }),
                tcp_log: PluginSetting::Present(TcpLogConfig { host: "127.0.0.1".to_string(), port: 9901 }),
                oauth2: PluginSetting::Present(Oauth2Config { global_credentials: true, anonymous: None }),
                ..Default::default()
            },
        },
    }
}

fn regional_defaults() -> ManifestDefaults {
    ManifestDefaults {
        image_prefix: None,
        chart: None,
        replica_count: None,
        env: StringMap::new(),
        kong: Enabled {
            enabled: None,
            item: KongSource {
                oauth2: PluginSetting::Removed,
                jwt: PluginSetting::Present(JwtConfig {
                    uri_param_names: vec![],
                    claims_to_verify: vec!["exp".to_string()],
                    key_claim_name: "kid".to_string(),
                    anonymous: Some("".to_string()),
                }),
                jwt_validator: PluginSetting::Present(JwtValidatorConfig {
                    allowed_audiences: vec!["https://babylonhealth.com".to_string()],
                    expected_region: "dev-uk".to_string(),
                    expected_scope: "internal".to_string(),
                    allow_invalid_tokens: false,
                }),
                ..Default::default()
            },
        },
    }
}

fn service(name: &str, hosts: Option<Vec<String>>, kong: KongSource) -> ManifestSource {
    ManifestSource {
        name: Some(name.to_string()),
        external: false,
        disabled: false,
        regions: vec!["dev-uk".to_string()],
        metadata: Some(Metadata {
            team: "devops".to_string(),
            repo: format!("https://github.com/babylonhealth/{}", name),
            support: None,
            notifications: None,
        }),
        overrides: ManifestOverrides {
            version: Some("1.0.0".to_string()),
            hosts,
            defaults: ManifestDefaults {
                image_prefix: None,
                chart: None,
                replica_count: None,
                env: StringMap::new(),
                kong: Enabled { enabled: None, item: kong },
            },
            ..Default::default()
        },
    }
}

fn fake_ask() -> ManifestSource {
    service(
        "fake-ask",
        Some(vec!["fake.example.com".to_string()]),
        KongSource {
            uris: Some("/ai-auth".to_string()),
            hosts: Some(vec!["fake-ask".to_string()]),
            json_cookies_to_headers: PluginSetting::Present(JsonCookiesToHeadersConfig {
                field_name: "kong_token".to_string(),
                cookie_name: "autologin_token".to_string(),
            }),
            json_cookies_csrf: PluginSetting::Present(JsonCookiesCsrfConfig {
                csrf_field_name: "csrf_token".to_string(),
                cookie_name: "autologin_info".to_string(),
                strict: true,
                csrf_header_name: "x-security-token".to_string(),
            }),
            ..Default::default()
        },
    )
}

fn fake_storage() -> ManifestSource {
    service(
        "fake-storage",
        None,
        KongSource {
            uris: Some("/fake-storage".to_string()),
            json_cookies_to_headers: PluginSetting::Removed,
            json_cookies_csrf: PluginSetting::Removed,
            ..Default::default()
        },
    )
}

fn manifests() -> Vec<Manifest> {
    let conf = config();
    let reg = region();
    let files = StringMap::new();
    vec![
        resolve(global_defaults(), regional_defaults(), fake_ask(), &conf, &reg, &files).unwrap(),
        resolve(global_defaults(), regional_defaults(), fake_storage(), &conf, &reg, &files).unwrap(),
    ]
}

fn correlation_id(plugin: ApiPlugin) -> PluginAttributes<CorrelationIdConfig> {
    match plugin {
        ApiPlugin::CorrelationId(PluginBase::Present(attributes)) => attributes,
        ApiPlugin::CorrelationId(PluginBase::Removed) => panic!("CorrelationId plugin is removed"),
        _ => panic!("plugin is not a CorrelationId plugin"),
    }
}

fn tcp_log(plugin: ApiPlugin) -> PluginAttributes<TcpLogConfig> {
    match plugin {
        ApiPlugin::TcpLog(PluginBase::Present(attributes)) => attributes,
        ApiPlugin::TcpLog(PluginBase::Removed) => panic!("TcpLog plugin is removed"),
        _ => panic!("plugin is not a TcpLog plugin"),
    }
}

fn jwt(plugin: ApiPlugin) -> PluginAttributes<JwtConfig> {
    match plugin {
        ApiPlugin::Jwt(PluginBase::Present(attributes)) => attributes,
        ApiPlugin::Jwt(PluginBase::Removed) => panic!("Jwt plugin is removed"),
        _ => panic!("plugin is not a Jwt plugin"),
    }
}

fn jwt_validator(plugin: ApiPlugin) -> PluginAttributes<JwtValidatorConfig> {
    match plugin {
        ApiPlugin::JwtValidator(PluginBase::Present(attributes)) => attributes,
        ApiPlugin::JwtValidator(PluginBase::Removed) => panic!("JwtValidator plugin is removed"),
        _ => panic!("plugin is not a JwtValidator plugin"),
    }
}

fn json_cookies_to_headers(plugin: ApiPlugin) -> PluginAttributes<JsonCookiesToHeadersConfig> {
    match plugin {
        ApiPlugin::JsonCookiesToHeaders(PluginBase::Present(attributes)) => attributes,
        ApiPlugin::JsonCookiesToHeaders(PluginBase::Removed) => panic!("JsonCookiesToHeaders plugin is removed"),
        _ => panic!("plugin is not a JsonCookiesToHeaders plugin"),
    }
}

fn json_cookies_csrf(plugin: ApiPlugin) -> PluginAttributes<JsonCookiesCsrfConfig> {
    match plugin {
        ApiPlugin::JsonCookiesCsrf(PluginBase::Present(attributes)) => attributes,
        ApiPlugin::JsonCookiesCsrf(PluginBase::Removed) => panic!("JsonCookiesCsrf plugin is removed"),
        _ => panic!("plugin is not a JsonCookiesCsrf plugin"),
    }
}

fn request_transformer(plugin: ApiPlugin) -> PluginAttributes<RequestTransformerConfig> {
    match plugin {
        ApiPlugin::RequestTransformer(PluginBase::Present(attributes)) => attributes,
        ApiPlugin::RequestTransformer(PluginBase::Removed) => panic!("RequestTransformer plugin is removed"),
        _ => panic!("plugin is not a RequestTransformer plugin"),
    }
}

fn assert_oauth2_removed(plugin: ApiPlugin) {
    match plugin {
        ApiPlugin::Oauth2(PluginBase::Removed) => {}
        ApiPlugin::Oauth2(_) => panic!("Oauth2 plugin is not removed"),
        _ => panic!("plugin is not a Oauth2 plugin"),
    }
}

fn assert_json_cookies_to_headers_removed(plugin: ApiPlugin) {
    match plugin {
        ApiPlugin::JsonCookiesToHeaders(PluginBase::Removed) => {}
        ApiPlugin::JsonCookiesToHeaders(_) => panic!("JsonCookiesToHeaders plugin is not removed"),
        _ => panic!("plugin is not a JsonCookiesToHeaders plugin"),
    }
}

fn assert_json_cookies_csrf_removed(plugin: ApiPlugin) {
    match plugin {
        ApiPlugin::JsonCookiesCsrf(PluginBase::Removed) => {}
        ApiPlugin::JsonCookiesCsrf(_) => panic!("JsonCookiesCsrf plugin is not removed"),
        _ => panic!("plugin is not a JsonCookiesCsrf plugin"),
    }
}

fn assert_upstream_header_transform(plugin: ApiPlugin, service: &str) {
    let attr = request_transformer(plugin);
    assert_eq!(attr.enabled, true);
    assert_eq!(attr.config.http_method, None);
    assert_eq!(attr.config.remove, HeadersQueryBody::default());
    assert_eq!(attr.config.append, HeadersQueryBody::default());
    assert_eq!(attr.config.rename, HeadersQueryBody::default());

    let mut expected_headers = HeadersQueryBody::default();
    expected_headers.headers = Some(vec![format!("Upstream-Service: {}", service)]);
    assert_eq!(&attr.config.add, &expected_headers);
    assert_eq!(&attr.config.replace, &expected_headers);
}

#[test]
fn kong_test() {
    let reg = region();
    let kongrs = generate_kong_output(&manifests(), &reg);
    let mut output = KongfigOutput::new(kongrs, &reg);

    assert_eq!(output.host, "admin.dev.something.domain.com");

    assert_eq!(output.consumers.len(), 3);
    assert_eq!(output.consumers[0].username, "fake-ask");
    assert_eq!(output.consumers[0].credentials.len(), 1);
    if let ConsumerCredentials::OAuth2(attrs) = &output.consumers[0].credentials[0] {
        assert_eq!(attrs.client_id, "FAKEASKID");
        assert_eq!(attrs.client_secret, "FAKEASKSECRET");
    } else {
        panic!("Not an OAuth2 credential")
    }

    assert_eq!(output.consumers[1].username, "my-idp");
    assert_eq!(output.consumers[1].credentials.len(), 1);
    if let ConsumerCredentials::Jwt(attrs) = &output.consumers[1].credentials[0] {
        assert_eq!(attrs.key, "https://my-issuer/");
        assert_eq!(attrs.algorithm, "RS256");
        assert_eq!(attrs.rsa_public_key, "-----BEGIN PUBLIC KEY-----\nmy-key\n-----END PUBLIC KEY-----");
    } else {
        panic!("Not a JWT credential")
    }

    assert_eq!(output.consumers[2].username, "anonymous");
    assert!(output.consumers[2].credentials.is_empty());

    assert_eq!(output.apis.len(), 2);

    // fake-ask API
    let mut api = output.apis.remove(0);
    assert_eq!(api.name, "fake-ask");
    assert_eq!(api.attributes.uris, Some(vec!["/ai-auth".to_string()]));
    assert_eq!(
        api.attributes.hosts,
        vec!["fake-ask.dev.something.domain.com".to_string(), "fake.example.com".to_string(),]
    );
    assert_eq!(api.attributes.strip_uri, false);
    assert_eq!(api.attributes.upstream_url, "http://fake-ask.dev.svc.cluster.local");

    let attr = correlation_id(api.plugins.remove(0));
    assert_eq!(attr.enabled, true);
    assert_eq!(attr.config.header_name, "babylon-request-id");

    let attr = tcp_log(api.plugins.remove(0));
    assert_eq!(attr.enabled, true);

    assert_oauth2_removed(api.plugins.remove(0));

    let attr = jwt(api.plugins.remove(0));
    assert_eq!(attr.enabled, true);
    assert_eq!(attr.config.uri_param_names, Vec::<String>::new());
    assert_eq!(attr.config.claims_to_verify, vec!["exp"]);
    assert_eq!(attr.config.key_claim_name, "kid");
    assert_eq!(attr.config.anonymous, Some("".to_string()));

    let attr = jwt_validator(api.plugins.remove(0));
    assert_eq!(attr.enabled, true);
    assert_eq!(attr.config.allowed_audiences, vec!["https://babylonhealth.com"]);
    assert_eq!(attr.config.expected_region, "dev-uk");
    assert_eq!(attr.config.expected_scope, "internal");
    assert_eq!(attr.config.allow_invalid_tokens, false);

    let attr = json_cookies_to_headers(api.plugins.remove(0));
    assert_eq!(attr.enabled, true);
    assert_eq!(attr.config.field_name, "kong_token");
    assert_eq!(attr.config.cookie_name, "autologin_token");

    let attr = json_cookies_csrf(api.plugins.remove(0));
    assert_eq!(attr.enabled, true);
    assert_eq!(attr.config.csrf_field_name, "csrf_token");
    assert_eq!(attr.config.cookie_name, "autologin_info");
    assert_eq!(attr.config.strict, true);
    assert_eq!(attr.config.csrf_header_name, "x-security-token");

    assert_upstream_header_transform(api.plugins.remove(0), "fake-ask");

    assert!(api.plugins.is_empty());

    // fake-storage API
    let mut api = output.apis.remove(0);
    assert_eq!(api.name, "fake-storage");
    assert_eq!(api.attributes.uris, Some(vec!["/fake-storage".to_string()]));
    assert!(api.attributes.hosts.is_empty());

    assert_eq!(api.attributes.strip_uri, false);
    assert_eq!(api.attributes.upstream_url, "http://fake-storage.dev.svc.cluster.local");

    let attr = correlation_id(api.plugins.remove(0));
    assert_eq!(attr.enabled, true);
    assert_eq!(attr.config.header_name, "babylon-request-id");

    let attr = tcp_log(api.plugins.remove(0));
    assert_eq!(attr.enabled, true);

    assert_oauth2_removed(api.plugins.remove(0));

    let attr = jwt(api.plugins.remove(0));
    assert_eq!(attr.enabled, true);
    assert_eq!(attr.config.uri_param_names, Vec::<String>::new());
    assert_eq!(attr.config.claims_to_verify, vec!["exp"]);
    assert_eq!(attr.config.key_claim_name, "kid");
    assert_eq!(attr.config.anonymous, Some("".to_string()));

    let attr = jwt_validator(api.plugins.remove(0));
    assert_eq!(attr.enabled, true);
    assert_eq!(attr.config.allowed_audiences, vec!["https://babylonhealth.com"]);
    assert_eq!(attr.config.expected_region, "dev-uk");
    assert_eq!(attr.config.expected_scope, "internal");
    assert_eq!(attr.config.allow_invalid_tokens, false);

    assert_json_cookies_to_headers_removed(api.plugins.remove(0));
    assert_json_cookies_csrf_removed(api.plugins.remove(0));

    assert_upstream_header_transform(api.plugins.remove(0), "fake-storage");

    assert!(api.plugins.is_empty());
}
