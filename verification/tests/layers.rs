use shipcat::kong::{Enabled, KongSource};
use shipcat::layers::{fold_layers, ManifestDefaults, ManifestOverrides, ManifestSource};
use shipcat::merge::{merge_option, merge_setting, PluginSetting};
use shipcat::plugins::Oauth2Config;
use shipcat::string_map::StringMap;
use shipcat::strings::{key_order, same_text, KeyOrder};

fn env_of(pairs: &[(&str, &str)]) -> StringMap {
    let list: Vec<(String, String)> = pairs.iter().map(|(k, v)| (k.to_string(), v.to_string())).collect();
    StringMap::from_entries(&list)
}

fn text(s: &str) -> Option<String> {
    Some(s.to_string())
}

fn layer_a() -> ManifestDefaults {
    ManifestDefaults {
        image_prefix: text("alpha"),
        chart: None,
        replica_count: Some(1),
        env: env_of(&[("a", "default-a"), ("b", "default-b")]),
        kong: Default::default(),
    }
}

fn layer_b() -> ManifestDefaults {
    ManifestDefaults {
        image_prefix: text("beta"),
        chart: text("default"),
        replica_count: None,
        env: env_of(&[("b", "override-b"), ("c", "override-c")]),
        kong: Default::default(),
    }
}

fn layer_c() -> ManifestDefaults {
    ManifestDefaults {
        image_prefix: None,
        chart: text("special"),
        replica_count: Some(3),
        env: env_of(&[("c", "service-c"), ("d", "service-d")]),
        kong: Enabled {
            enabled: Some(true),
            item: KongSource {
                uris: text("/c"),
                oauth2: PluginSetting::Removed,
                ..Default::default()
            },
        },
    }
}

fn source_with(defaults: ManifestDefaults) -> ManifestSource {
    ManifestSource {
        name: text("svc"),
        external: false,
        disabled: false,
        regions: vec!["dev-uk".to_string()],
        metadata: None,
        overrides: ManifestOverrides { defaults, ..Default::default() },
    }
}

#[test]
fn merge() {
    let a = ManifestDefaults {
        image_prefix: Option::Some("alpha".into()),
        chart: Option::None,
        replica_count: Option::Some(1),
        env: env_of(&[("a", "default-a"), ("b", "default-b")]),
        kong: Default::default(),
    };
    let b = ManifestDefaults {
        image_prefix: Option::Some("beta".into()),
        chart: Option::Some("default".into()),
        replica_count: None,
        env: env_of(&[("b", "override-b"), ("c", "override-c")]),
        kong: Default::default(),
    };
    let merged = a.merge(b);
    assert_eq!(merged.image_prefix, Option::Some("beta".into()));
    assert_eq!(merged.chart, Option::Some("default".into()));
    assert_eq!(merged.replica_count, Option::Some(1));

    let expected_env = env_of(&[("a", "default-a"), ("b", "override-b"), ("c", "override-c")]);
    assert_eq!(merged.env, expected_env);
}

#[test]
fn merge_is_associative() {
    let left = layer_a().merge(layer_b()).merge(layer_c());
    let right = layer_a().merge(layer_b().merge(layer_c()));
    assert_eq!(left, right);
    assert_eq!(left.image_prefix, text("beta"));
    assert_eq!(left.chart, text("special"));
    assert_eq!(left.replica_count, Some(3));
    assert_eq!(
        left.env,
        env_of(&[("a", "default-a"), ("b", "override-b"), ("c", "service-c"), ("d", "service-d")])
    );
    assert_eq!(left.kong.enabled, Some(true));
    assert_eq!(left.kong.item.uris, text("/c"));
    assert_eq!(left.kong.item.oauth2, PluginSetting::Removed);
}

#[test]
fn merge_with_the_empty_layer_changes_nothing() {
    assert_eq!(layer_c().merge(ManifestDefaults::empty()), layer_c());
    assert_eq!(ManifestDefaults::empty().merge(layer_c()), layer_c());
    assert_eq!(layer_a().merge(ManifestDefaults::default()), layer_a());
    assert_eq!(ManifestDefaults::default().merge(layer_a()), layer_a());
}

#[test]
fn higher_layer_wins_where_both_set_a_field() {
    let merged = layer_a().merge(layer_b());
    assert_eq!(merged.image_prefix, text("beta"));
    assert_eq!(merged.env.get("b"), text("override-b"));
    let merged = layer_b().merge(layer_a());
    assert_eq!(merged.image_prefix, text("alpha"));
    assert_eq!(merged.env.get("b"), text("default-b"));
    assert_eq!(merged.chart, text("default"));
}

#[test]
fn unset_everywhere_stays_unset() {
    let merged = ManifestDefaults::empty().merge(ManifestDefaults::empty());
    assert_eq!(merged.image_prefix, None);
    assert_eq!(merged.chart, None);
    assert_eq!(merged.replica_count, None);
    assert!(merged.env.is_empty());
    assert_eq!(merged.kong.enabled, None);
    assert_eq!(merged.kong.item.oauth2, PluginSetting::Unspecified);
}

#[test]
fn overrides_merge_field_by_field() {
    let base = ManifestOverrides {
        publicly_accessible: Some(false),
        image: text("registry/base"),
        version: text("1.0.0"),
        command: Some(vec!["run".to_string()]),
        labels: env_of(&[("tier", "backend"), ("team", "core")]),
        hosts: Some(vec!["a.example.com".to_string()]),
        defaults: layer_a(),
        ..Default::default()
    };
    let over = ManifestOverrides {
        publicly_accessible: Some(true),
        version: text("2.0.0"),
        http_port: Some(8080),
        labels: env_of(&[("tier", "frontend")]),
        defaults: layer_b(),
        ..Default::default()
    };
    let merged = base.merge(over);
    assert_eq!(merged.publicly_accessible, Some(true));
    assert_eq!(merged.image, text("registry/base"));
    assert_eq!(merged.version, text("2.0.0"));
    assert_eq!(merged.command, Some(vec!["run".to_string()]));
    assert_eq!(merged.http_port, Some(8080));
    assert_eq!(merged.labels, env_of(&[("team", "core"), ("tier", "frontend")]));
    assert_eq!(merged.hosts, Some(vec!["a.example.com".to_string()]));
    assert_eq!(merged.defaults, layer_a().merge(layer_b()));
    assert_eq!(merged.image_size, None);
}

#[test]
fn overrides_merge_is_associative_and_has_an_identity() {
    let a = || ManifestOverrides { image: text("a"), labels: env_of(&[("k", "a")]), defaults: layer_a(), ..Default::default() };
    let b = || ManifestOverrides { version: text("b"), labels: env_of(&[("k", "b"), ("l", "b")]), defaults: layer_b(), ..Default::default() };
    let c = || ManifestOverrides { image: text("c"), language: text("rust"), defaults: layer_c(), ..Default::default() };
    assert_eq!(a().merge(b()).merge(c()), a().merge(b().merge(c())));
    assert_eq!(a().merge(ManifestOverrides::empty()), a());
    assert_eq!(ManifestOverrides::empty().merge(b()), b());
}

#[test]
fn three_layers_fold_lowest_first() {
    let merged = fold_layers(layer_a(), layer_b(), source_with(layer_c()));
    assert_eq!(merged.name, text("svc"));
    assert_eq!(merged.overrides.defaults, layer_a().merge(layer_b()).merge(layer_c()));
    assert_eq!(merged.overrides.defaults.image_prefix, text("beta"));
    assert_eq!(merged.overrides.defaults.replica_count, Some(3));
    assert_eq!(merged.overrides.image, None);
}

#[test]
fn source_takes_defaults_and_overrides() {
    let merged = layer_a().merge_source(source_with(layer_b()));
    assert_eq!(merged.overrides.defaults, layer_a().merge(layer_b()));
    let merged = source_with(layer_a()).merge_overrides(ManifestOverrides {
        version: text("9.9.9"),
        defaults: layer_b(),
        ..Default::default()
    });
    assert_eq!(merged.overrides.version, text("9.9.9"));
    assert_eq!(merged.overrides.defaults, layer_a().merge(layer_b()));
    assert_eq!(merged.regions, vec!["dev-uk".to_string()]);
}

#[test]
fn optional_fields_merge() {
    assert_eq!(merge_option(Some(1), Some(2)), Some(2));
    assert_eq!(merge_option(Some(1), None), Some(1));
    assert_eq!(merge_option(None, Some(2)), Some(2));
    assert_eq!(merge_option::<u32>(None, None), None);
}

#[test]
fn settings_merge_in_three_states() {
    let present = || PluginSetting::Present(Oauth2Config { global_credentials: true, anonymous: None });
    let other = || PluginSetting::Present(Oauth2Config { global_credentials: false, anonymous: text("anon") });
    assert_eq!(merge_setting(present(), PluginSetting::Removed), PluginSetting::Removed);
    assert_eq!(merge_setting(present(), PluginSetting::Unspecified), present());
    assert_eq!(
        merge_setting(PluginSetting::<Oauth2Config>::Removed, PluginSetting::Unspecified),
        PluginSetting::Removed
    );
    assert_eq!(merge_setting(PluginSetting::Removed, present()), present());
    assert_eq!(merge_setting(present(), other()), other());
    assert_eq!(
        merge_setting(PluginSetting::<Oauth2Config>::Unspecified, PluginSetting::Unspecified),
        PluginSetting::Unspecified
    );
    assert!(present().configured());
    assert!(PluginSetting::<Oauth2Config>::Removed.configured());
    assert!(!PluginSetting::<Oauth2Config>::Unspecified.configured());
}

#[test]
fn string_map_keeps_key_order() {
    let mut m = StringMap::new();
    assert!(m.is_empty());
    assert_eq!(m.len(), 0);
    m.insert("b".to_string(), "2".to_string());
    m.insert("a".to_string(), "1".to_string());
    m.insert("c".to_string(), "3".to_string());
    m.insert("b".to_string(), "two".to_string());
    assert_eq!(m.len(), 3);
    assert!(!m.is_empty());
    assert_eq!(
        m.entries(),
        vec![
            ("a".to_string(), "1".to_string()),
            ("b".to_string(), "two".to_string()),
            ("c".to_string(), "3".to_string()),
        ]
    );
    assert_eq!(m.get("b"), text("two"));
    assert_eq!(m.get("z"), None);
    assert!(m.contains_key("a"));
    assert!(!m.contains_key("ab"));
    assert_eq!(m.duplicate(), m);
}

#[test]
fn string_map_merge_keeps_all_keys() {
    let base = env_of(&[("a", "1"), ("c", "3"), ("e", "5")]);
    let over = env_of(&[("b", "2"), ("c", "three"), ("f", "6")]);
    let merged = base.merge(&over);
    assert_eq!(merged, env_of(&[("a", "1"), ("b", "2"), ("c", "three"), ("e", "5"), ("f", "6")]));
    assert_eq!(merged.len(), 5);
    assert_eq!(base.merge(&StringMap::new()), base);
    assert_eq!(StringMap::new().merge(&over), over);
}

#[test]
fn later_entries_replace_earlier_ones() {
    let m = env_of(&[("k", "first"), ("j", "other"), ("k", "second")]);
    assert_eq!(m.len(), 2);
    assert_eq!(m.get("k"), text("second"));
}

#[test]
fn keys_are_ordered_as_text_is() {
    assert_eq!(key_order("a", "b"), KeyOrder::Before);
    assert_eq!(key_order("b", "a"), KeyOrder::After);
    assert_eq!(key_order("a", "a"), KeyOrder::Same);
    assert_eq!(key_order("a", "ab"), KeyOrder::Before);
    assert_eq!(key_order("", "a"), KeyOrder::Before);
    assert_eq!(key_order("Z", "a"), KeyOrder::Before);
    assert_eq!(key_order("é", "z"), KeyOrder::After);
    assert!(same_text("dev-uk", "dev-uk"));
    assert!(!same_text("dev-uk", "dev-uk "));
}
