//! The layers that manifests are written in, and how they fold into one
//! merged source.

use vstd::prelude::*;
use crate::kong::{
    lemma_kong_layer_merge_associative, lemma_kong_layer_merge_identity, Enabled, KongSource,
    KongSourceView,
};
use crate::merge::{
    lemma_map_merge_associative, lemma_map_merge_identity, map_precedence, merge_option,
    merged_option, option_precedence,
};
use crate::string_map::{merged_map, StringMap};
use crate::structs::{
    AutoScaling, AutoScalingView, ConfigMap, ConfigMapView, DataHandling, DataHandlingView,
    Dependency, DependencyView, HealthCheck, HealthCheckView, Kafka, KafkaView, Metadata,
    MetadataView, Port, PortView, ResourceRequirements, ResourceRequirementsView,
};

verus! {

/// What the global and the regional defaults can set.
#[derive(Debug, PartialEq, Eq)]
pub struct ManifestDefaults {
    /// The registry path that images are found under.
    pub image_prefix: Option<String>,
    pub chart: Option<String>,
    pub replica_count: Option<u32>,
    /// Environment variables.
    pub env: StringMap,
    /// The gateway route.
    pub kong: Enabled<KongSource>,
}

/// The content of [`ManifestDefaults`], as a mathematical value.
pub struct ManifestDefaultsView {
    pub image_prefix: Option<Seq<char>>,
    pub chart: Option<Seq<char>>,
    pub replica_count: Option<u32>,
    pub env: Map<Seq<char>, Seq<char>>,
    pub kong: Enabled<KongSourceView>,
}

impl DeepView for ManifestDefaults {
    type V = ManifestDefaultsView;

    open spec fn deep_view(&self) -> ManifestDefaultsView {
        ManifestDefaultsView {
            image_prefix: self.image_prefix.deep_view(),
            chart: self.chart.deep_view(),
            replica_count: self.replica_count.deep_view(),
            env: self.env.deep_view(),
            kong: self.kong.deep_view(),
        }
    }
}

impl ManifestDefaultsView {
    /// The layer in which nothing is set.
    pub open spec fn empty() -> ManifestDefaultsView {
        ManifestDefaultsView {
            image_prefix: None,
            chart: None,
            replica_count: None,
            env: Map::empty(),
            kong: Enabled::<KongSourceView>::empty(),
        }
    }

    /// This layer with `over` laid upon it, field by field.
    pub open spec fn merge(self, over: ManifestDefaultsView) -> ManifestDefaultsView {
        ManifestDefaultsView {
            image_prefix: merged_option(self.image_prefix, over.image_prefix),
            chart: merged_option(self.chart, over.chart),
            replica_count: merged_option(self.replica_count, over.replica_count),
            env: merged_map(self.env, over.env),
            kong: self.kong.merge(over.kong),
        }
    }
}

impl ManifestDefaults {
    /// The layer in which nothing is set.
    pub fn empty() -> (layer: ManifestDefaults)
        ensures
            layer.deep_view() == ManifestDefaultsView::empty(),
    {
        ManifestDefaults {
            image_prefix: None,
            chart: None,
            replica_count: None,
            env: StringMap::new(),
            kong: Enabled::<KongSource>::empty(),
        }
    }

    /// Lays `over` upon this layer: what `over` sets wins, what it leaves
    /// unset falls through to this layer.
    pub fn merge(self, over: ManifestDefaults) -> (merged: ManifestDefaults)
        ensures
            merged.deep_view() == self.deep_view().merge(over.deep_view()),
    {
        ManifestDefaults {
            image_prefix: merge_option(self.image_prefix, over.image_prefix),
            chart: merge_option(self.chart, over.chart),
            replica_count: merge_option(self.replica_count, over.replica_count),
            env: self.env.merge(&over.env),
            kong: self.kong.merge(over.kong),
        }
    }
}

impl Default for ManifestDefaults {
    fn default() -> (layer: Self)
        ensures
            layer.deep_view() == ManifestDefaultsView::empty(),
    {
        ManifestDefaults::empty()
    }
}

/// What a service, or an override file for one environment, can set.
#[derive(Debug, PartialEq, Eq)]
pub struct ManifestOverrides {
    pub publicly_accessible: Option<bool>,
    /// The image, when it is not the image prefix and the service name.
    pub image: Option<String>,
    pub image_size: Option<u32>,
    pub version: Option<String>,
    pub command: Option<Vec<String>>,
    pub data_handling: Option<DataHandling>,
    pub language: Option<String>,
    pub resources: Option<ResourceRequirements>,
    pub secret_files: StringMap,
    pub configs: Option<ConfigMap>,
    pub http_port: Option<u32>,
    pub ports: Option<Vec<Port>>,
    pub external_port: Option<u32>,
    pub health: Option<HealthCheck>,
    pub dependencies: Option<Vec<Dependency>>,
    pub auto_scaling: Option<AutoScaling>,
    pub service_annotations: StringMap,
    pub pod_annotations: StringMap,
    pub labels: StringMap,
    /// Hosts that the service answers to, named in full.
    pub hosts: Option<Vec<String>>,
    pub kafka: Option<Kafka>,
    pub source_ranges: Option<Vec<String>>,
    /// What global and regional defaults can set as well.
    pub defaults: ManifestDefaults,
}

/// The content of [`ManifestOverrides`], as a mathematical value.
pub struct ManifestOverridesView {
    pub publicly_accessible: Option<bool>,
    pub image: Option<Seq<char>>,
    pub image_size: Option<u32>,
    pub version: Option<Seq<char>>,
    pub command: Option<Seq<Seq<char>>>,
    pub data_handling: Option<DataHandlingView>,
    pub language: Option<Seq<char>>,
    pub resources: Option<ResourceRequirementsView>,
    pub secret_files: Map<Seq<char>, Seq<char>>,
    pub configs: Option<ConfigMapView>,
    pub http_port: Option<u32>,
    pub ports: Option<Seq<PortView>>,
    pub external_port: Option<u32>,
    pub health: Option<HealthCheckView>,
    pub dependencies: Option<Seq<DependencyView>>,
    pub auto_scaling: Option<AutoScalingView>,
    pub service_annotations: Map<Seq<char>, Seq<char>>,
    pub pod_annotations: Map<Seq<char>, Seq<char>>,
    pub labels: Map<Seq<char>, Seq<char>>,
    pub hosts: Option<Seq<Seq<char>>>,
    pub kafka: Option<KafkaView>,
    pub source_ranges: Option<Seq<Seq<char>>>,
    pub defaults: ManifestDefaultsView,
}

impl DeepView for ManifestOverrides {
    type V = ManifestOverridesView;

    open spec fn deep_view(&self) -> ManifestOverridesView {
        ManifestOverridesView {
            publicly_accessible: self.publicly_accessible.deep_view(),
            image: self.image.deep_view(),
            image_size: self.image_size.deep_view(),
            version: self.version.deep_view(),
            command: self.command.deep_view(),
            data_handling: self.data_handling.deep_view(),
            language: self.language.deep_view(),
            resources: self.resources.deep_view(),
            secret_files: self.secret_files.deep_view(),
            configs: self.configs.deep_view(),
            http_port: self.http_port.deep_view(),
            ports: self.ports.deep_view(),
            external_port: self.external_port.deep_view(),
            health: self.health.deep_view(),
            dependencies: self.dependencies.deep_view(),
            auto_scaling: self.auto_scaling.deep_view(),
            service_annotations: self.service_annotations.deep_view(),
            pod_annotations: self.pod_annotations.deep_view(),
            labels: self.labels.deep_view(),
            hosts: self.hosts.deep_view(),
            kafka: self.kafka.deep_view(),
            source_ranges: self.source_ranges.deep_view(),
            defaults: self.defaults.deep_view(),
        }
    }
}

impl ManifestOverridesView {
    /// The layer in which nothing is set.
    pub open spec fn empty() -> ManifestOverridesView {
        ManifestOverridesView {
            publicly_accessible: None,
            image: None,
            image_size: None,
            version: None,
            command: None,
            data_handling: None,
            language: None,
            resources: None,
            secret_files: Map::empty(),
            configs: None,
            http_port: None,
            ports: None,
            external_port: None,
            health: None,
            dependencies: None,
            auto_scaling: None,
            service_annotations: Map::empty(),
            pod_annotations: Map::empty(),
            labels: Map::empty(),
            hosts: None,
            kafka: None,
            source_ranges: None,
            defaults: ManifestDefaultsView::empty(),
        }
    }

    /// This layer with `over` laid upon it, field by field.
    pub open spec fn merge(self, over: ManifestOverridesView) -> ManifestOverridesView {
        ManifestOverridesView {
            publicly_accessible: merged_option(self.publicly_accessible, over.publicly_accessible),
            image: merged_option(self.image, over.image),
            image_size: merged_option(self.image_size, over.image_size),
            version: merged_option(self.version, over.version),
            command: merged_option(self.command, over.command),
            data_handling: merged_option(self.data_handling, over.data_handling),
            language: merged_option(self.language, over.language),
            resources: merged_option(self.resources, over.resources),
            secret_files: merged_map(self.secret_files, over.secret_files),
            configs: merged_option(self.configs, over.configs),
            http_port: merged_option(self.http_port, over.http_port),
            ports: merged_option(self.ports, over.ports),
            external_port: merged_option(self.external_port, over.external_port),
            health: merged_option(self.health, over.health),
            dependencies: merged_option(self.dependencies, over.dependencies),
            auto_scaling: merged_option(self.auto_scaling, over.auto_scaling),
            service_annotations: merged_map(self.service_annotations, over.service_annotations),
            pod_annotations: merged_map(self.pod_annotations, over.pod_annotations),
            labels: merged_map(self.labels, over.labels),
            hosts: merged_option(self.hosts, over.hosts),
            kafka: merged_option(self.kafka, over.kafka),
            source_ranges: merged_option(self.source_ranges, over.source_ranges),
            defaults: self.defaults.merge(over.defaults),
        }
    }
}

impl ManifestOverrides {
    /// The layer in which nothing is set.
    pub fn empty() -> (layer: ManifestOverrides)
        ensures
            layer.deep_view() == ManifestOverridesView::empty(),
    {
        ManifestOverrides {
            publicly_accessible: None,
            image: None,
            image_size: None,
            version: None,
            command: None,
            data_handling: None,
            language: None,
            resources: None,
            secret_files: StringMap::new(),
            configs: None,
            http_port: None,
            ports: None,
            external_port: None,
            health: None,
            dependencies: None,
            auto_scaling: None,
            service_annotations: StringMap::new(),
            pod_annotations: StringMap::new(),
            labels: StringMap::new(),
            hosts: None,
            kafka: None,
            source_ranges: None,
            defaults: ManifestDefaults::empty(),
        }
    }

    /// Lays `over` upon this layer: what `over` sets wins, what it leaves
    /// unset falls through to this layer.
    pub fn merge(self, over: ManifestOverrides) -> (merged: ManifestOverrides)
        ensures
            merged.deep_view() == self.deep_view().merge(over.deep_view()),
    {
        ManifestOverrides {
            publicly_accessible: merge_option(self.publicly_accessible, over.publicly_accessible),
            image: merge_option(self.image, over.image),
            image_size: merge_option(self.image_size, over.image_size),
            version: merge_option(self.version, over.version),
            command: merge_option(self.command, over.command),
            data_handling: merge_option(self.data_handling, over.data_handling),
            language: merge_option(self.language, over.language),
            resources: merge_option(self.resources, over.resources),
            secret_files: self.secret_files.merge(&over.secret_files),
            configs: merge_option(self.configs, over.configs),
            http_port: merge_option(self.http_port, over.http_port),
            ports: merge_option(self.ports, over.ports),
            external_port: merge_option(self.external_port, over.external_port),
            health: merge_option(self.health, over.health),
            dependencies: merge_option(self.dependencies, over.dependencies),
            auto_scaling: merge_option(self.auto_scaling, over.auto_scaling),
            service_annotations: self.service_annotations.merge(&over.service_annotations),
            pod_annotations: self.pod_annotations.merge(&over.pod_annotations),
            labels: self.labels.merge(&over.labels),
            hosts: merge_option(self.hosts, over.hosts),
            kafka: merge_option(self.kafka, over.kafka),
            source_ranges: merge_option(self.source_ranges, over.source_ranges),
            defaults: self.defaults.merge(over.defaults),
        }
    }
}

impl Default for ManifestOverrides {
    fn default() -> (layer: Self)
        ensures
            layer.deep_view() == ManifestOverridesView::empty(),
    {
        ManifestOverrides::empty()
    }
}

/// The manifest of a service as it is written: its own layer, and what only the
/// service itself can say.
#[derive(Debug, PartialEq, Eq)]
pub struct ManifestSource {
    /// The name of the service. Required.
    pub name: Option<String>,
    pub external: bool,
    pub disabled: bool,
    /// The regions the service is deployed to.
    pub regions: Vec<String>,
    /// Required.
    pub metadata: Option<Metadata>,
    pub overrides: ManifestOverrides,
}

/// The content of [`ManifestSource`], as a mathematical value.
pub struct ManifestSourceView {
    pub name: Option<Seq<char>>,
    pub external: bool,
    pub disabled: bool,
    pub regions: Seq<Seq<char>>,
    pub metadata: Option<MetadataView>,
    pub overrides: ManifestOverridesView,
}

impl DeepView for ManifestSource {
    type V = ManifestSourceView;

    open spec fn deep_view(&self) -> ManifestSourceView {
        ManifestSourceView {
            name: self.name.deep_view(),
            external: self.external.deep_view(),
            disabled: self.disabled.deep_view(),
            regions: self.regions.deep_view(),
            metadata: self.metadata.deep_view(),
            overrides: self.overrides.deep_view(),
        }
    }
}

/// The merged source of three layers: the service's own layer laid upon the
/// regional defaults, laid upon the global defaults.
pub open spec fn folded_source(
    global: ManifestDefaultsView,
    regional: ManifestDefaultsView,
    service: ManifestSourceView,
) -> ManifestSourceView {
    service.with_defaults(global.merge(regional).merge(service.overrides.defaults))
}

impl ManifestOverridesView {
    /// These overrides with other defaults.
    pub open spec fn with_defaults(self, defaults: ManifestDefaultsView) -> ManifestOverridesView {
        ManifestOverridesView { defaults, ..self }
    }
}

impl ManifestSourceView {
    /// This source with other overrides.
    pub open spec fn with_overrides(self, overrides: ManifestOverridesView) -> ManifestSourceView {
        ManifestSourceView { overrides, ..self }
    }

    /// This source with other defaults.
    pub open spec fn with_defaults(self, defaults: ManifestDefaultsView) -> ManifestSourceView {
        self.with_overrides(self.overrides.with_defaults(defaults))
    }
}

impl ManifestDefaults {
    /// Lays a service's source upon these defaults: the defaults of the
    /// source become these defaults with the source's own laid upon them.
    pub fn merge_source(self, other: ManifestSource) -> (merged: ManifestSource)
        ensures
            merged.deep_view() == other.deep_view().with_defaults(
                self.deep_view().merge(other.deep_view().overrides.defaults),
            ),
    {
        let ManifestSource { name, external, disabled, regions, metadata, overrides } = other;
        let ManifestOverrides {
            publicly_accessible,
            image,
            image_size,
            version,
            command,
            data_handling,
            language,
            resources,
            secret_files,
            configs,
            http_port,
            ports,
            external_port,
            health,
            dependencies,
            auto_scaling,
            service_annotations,
            pod_annotations,
            labels,
            hosts,
            kafka,
            source_ranges,
            defaults,
        } = overrides;
        ManifestSource {
            name,
            external,
            disabled,
            regions,
            metadata,
            overrides: ManifestOverrides {
                publicly_accessible,
                image,
                image_size,
                version,
                command,
                data_handling,
                language,
                resources,
                secret_files,
                configs,
                http_port,
                ports,
                external_port,
                health,
                dependencies,
                auto_scaling,
                service_annotations,
                pod_annotations,
                labels,
                hosts,
                kafka,
                source_ranges,
                defaults: self.merge(defaults),
            },
        }
    }
}

/// Folds the three layers into one source, lowest precedence first: global
/// defaults, regional defaults, the service's own layer. Nothing is
/// validated here: the merged source may still lack required fields.
pub fn fold_layers(global: ManifestDefaults, regional: ManifestDefaults, service: ManifestSource) -> (merged:
    ManifestSource)
    ensures
        merged.deep_view() == folded_source(global.deep_view(), regional.deep_view(), service.deep_view()),
{
    global.merge(regional).merge_source(service)
}

impl ManifestSource {
    /// Lays further overrides upon the overrides of this source.
    pub fn merge_overrides(self, other: ManifestOverrides) -> (merged: ManifestSource)
        ensures
            merged.deep_view() == self.deep_view().with_overrides(
                self.deep_view().overrides.merge(other.deep_view()),
            ),
    {
        let ManifestSource { name, external, disabled, regions, metadata, overrides } = self;
        ManifestSource { name, external, disabled, regions, metadata, overrides: overrides.merge(other) }
    }

}

/// Merging is associative: laying `c` upon `a` merged with `b` gives what
/// laying `b` merged with `c` upon `a` gives.
pub proof fn lemma_defaults_merge_associative(
    a: ManifestDefaultsView,
    b: ManifestDefaultsView,
    c: ManifestDefaultsView,
)
    ensures
        a.merge(b).merge(c) == a.merge(b.merge(c)),
{
    let left = a.merge(b).merge(c);
    let right = a.merge(b.merge(c));
    lemma_kong_layer_merge_associative(a.kong, b.kong, c.kong);
    lemma_map_merge_associative(a.env, b.env, c.env);
    assert(left.image_prefix == right.image_prefix);
    assert(left.chart == right.chart);
    assert(left.replica_count == right.replica_count);
    assert(left.env == right.env);
    assert(left.kong == right.kong);
}

/// The layer in which nothing is set is the identity of the merge, on
/// both sides.
pub proof fn lemma_defaults_merge_identity(a: ManifestDefaultsView)
    ensures
        a.merge(ManifestDefaultsView::empty()) == a,
        ManifestDefaultsView::empty().merge(a) == a,
{
    lemma_kong_layer_merge_identity(a.kong);
    lemma_map_merge_identity(a.env);
}

/// Precedence, field by field: what the higher layer sets is the merged
/// value, and what it leaves unset is the lower layer's value. A map holds
/// the keys of both layers, with the higher layer's value where both have a
/// key.
pub proof fn lemma_defaults_merge_precedence(base: ManifestDefaultsView, over: ManifestDefaultsView)
    ensures
        option_precedence(base.image_prefix, over.image_prefix, base.merge(over).image_prefix),
        option_precedence(base.chart, over.chart, base.merge(over).chart),
        option_precedence(base.replica_count, over.replica_count, base.merge(over).replica_count),
        map_precedence(base.env, over.env, base.merge(over).env),
        base.merge(over).kong == base.kong.merge(over.kong),
{
}

/// Merging is associative: laying `c` upon `a` merged with `b` gives what
/// laying `b` merged with `c` upon `a` gives.
pub proof fn lemma_overrides_merge_associative(
    a: ManifestOverridesView,
    b: ManifestOverridesView,
    c: ManifestOverridesView,
)
    ensures
        a.merge(b).merge(c) == a.merge(b.merge(c)),
{
    let left = a.merge(b).merge(c);
    let right = a.merge(b.merge(c));
    lemma_defaults_merge_associative(a.defaults, b.defaults, c.defaults);
    lemma_map_merge_associative(a.secret_files, b.secret_files, c.secret_files);
    lemma_map_merge_associative(a.service_annotations, b.service_annotations, c.service_annotations);
    lemma_map_merge_associative(a.pod_annotations, b.pod_annotations, c.pod_annotations);
    lemma_map_merge_associative(a.labels, b.labels, c.labels);
    assert(left.publicly_accessible == right.publicly_accessible);
    assert(left.image == right.image);
    assert(left.image_size == right.image_size);
    assert(left.version == right.version);
    assert(left.command == right.command);
    assert(left.data_handling == right.data_handling);
    assert(left.language == right.language);
    assert(left.resources == right.resources);
    assert(left.secret_files == right.secret_files);
    assert(left.configs == right.configs);
    assert(left.http_port == right.http_port);
    assert(left.ports == right.ports);
    assert(left.external_port == right.external_port);
    assert(left.health == right.health);
    assert(left.dependencies == right.dependencies);
    assert(left.auto_scaling == right.auto_scaling);
    assert(left.service_annotations == right.service_annotations);
    assert(left.pod_annotations == right.pod_annotations);
    assert(left.labels == right.labels);
    assert(left.hosts == right.hosts);
    assert(left.kafka == right.kafka);
    assert(left.source_ranges == right.source_ranges);
    assert(left.defaults == right.defaults);
}

/// The layer in which nothing is set is the identity of the merge, on
/// both sides.
pub proof fn lemma_overrides_merge_identity(a: ManifestOverridesView)
    ensures
        a.merge(ManifestOverridesView::empty()) == a,
        ManifestOverridesView::empty().merge(a) == a,
{
    lemma_defaults_merge_identity(a.defaults);
    lemma_map_merge_identity(a.secret_files);
    lemma_map_merge_identity(a.service_annotations);
    lemma_map_merge_identity(a.pod_annotations);
    lemma_map_merge_identity(a.labels);
}

/// Precedence, field by field: what the higher layer sets is the merged
/// value, and what it leaves unset is the lower layer's value. A map holds
/// the keys of both layers, with the higher layer's value where both have a
/// key.
pub proof fn lemma_overrides_merge_precedence(base: ManifestOverridesView, over: ManifestOverridesView)
    ensures
        option_precedence(base.publicly_accessible, over.publicly_accessible, base.merge(over).publicly_accessible),
        option_precedence(base.image, over.image, base.merge(over).image),
        option_precedence(base.image_size, over.image_size, base.merge(over).image_size),
        option_precedence(base.version, over.version, base.merge(over).version),
        option_precedence(base.command, over.command, base.merge(over).command),
        option_precedence(base.data_handling, over.data_handling, base.merge(over).data_handling),
        option_precedence(base.language, over.language, base.merge(over).language),
        option_precedence(base.resources, over.resources, base.merge(over).resources),
        map_precedence(base.secret_files, over.secret_files, base.merge(over).secret_files),
        option_precedence(base.configs, over.configs, base.merge(over).configs),
        option_precedence(base.http_port, over.http_port, base.merge(over).http_port),
        option_precedence(base.ports, over.ports, base.merge(over).ports),
        option_precedence(base.external_port, over.external_port, base.merge(over).external_port),
        option_precedence(base.health, over.health, base.merge(over).health),
        option_precedence(base.dependencies, over.dependencies, base.merge(over).dependencies),
        option_precedence(base.auto_scaling, over.auto_scaling, base.merge(over).auto_scaling),
        map_precedence(base.service_annotations, over.service_annotations, base.merge(over).service_annotations),
        map_precedence(base.pod_annotations, over.pod_annotations, base.merge(over).pod_annotations),
        map_precedence(base.labels, over.labels, base.merge(over).labels),
        option_precedence(base.hosts, over.hosts, base.merge(over).hosts),
        option_precedence(base.kafka, over.kafka, base.merge(over).kafka),
        option_precedence(base.source_ranges, over.source_ranges, base.merge(over).source_ranges),
        base.merge(over).defaults == base.defaults.merge(over.defaults),
{
}

/// The fold of the three layers does not depend on how it is bracketed:
/// folding one layer after another gives what merging the two higher layers
/// first gives.
pub proof fn lemma_fold_order_stable(
    global: ManifestDefaultsView,
    regional: ManifestDefaultsView,
    service: ManifestSourceView,
)
    ensures
        folded_source(global, regional, service) == service.with_defaults(
            global.merge(regional.merge(service.overrides.defaults)),
        ),
{
    lemma_defaults_merge_associative(global, regional, service.overrides.defaults);
}

/// In the merged source, a field has the value of the highest layer that
/// sets it, and is unset when no layer sets it. The layers are, from the
/// highest: the service, the regional defaults, the global defaults.
pub proof fn lemma_fold_precedence(
    global: ManifestDefaultsView,
    regional: ManifestDefaultsView,
    service: ManifestSourceView,
)
    ensures
        ({
            let own = service.overrides.defaults;
            let merged = folded_source(global, regional, service).overrides.defaults;
            &&& merged.image_prefix == (if own.image_prefix is Some {
                own.image_prefix
            } else if regional.image_prefix is Some {
                regional.image_prefix
            } else {
                global.image_prefix
            })
            &&& merged.chart == (if own.chart is Some {
                own.chart
            } else if regional.chart is Some {
                regional.chart
            } else {
                global.chart
            })
            &&& merged.replica_count == (if own.replica_count is Some {
                own.replica_count
            } else if regional.replica_count is Some {
                regional.replica_count
            } else {
                global.replica_count
            })
            &&& forall|key: Seq<char>|
                #![auto]
                merged.env.contains_key(key) <==> own.env.contains_key(key) || regional.env.contains_key(key)
                    || global.env.contains_key(key)
            &&& forall|key: Seq<char>|
                #![auto]
                merged.env.contains_key(key) ==> merged.env[key] == (if own.env.contains_key(key) {
                    own.env[key]
                } else if regional.env.contains_key(key) {
                    regional.env[key]
                } else {
                    global.env[key]
                })
            &&& folded_source(global, regional, service).overrides == service.overrides.with_defaults(merged)
        }),
{
}

} // verus!
