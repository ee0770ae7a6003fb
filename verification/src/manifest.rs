//! Validated manifests, and the build that turns a merged source into one.

use vstd::prelude::*;
use crate::error::{result_view, Field, ShipcatError, ShipcatErrorView};
use crate::json::{
    no_fields, object_fields, object_new, object_put_bool, object_put_list, object_put_object,
    object_put_text, object_put_texts, put_opt_number, put_opt_text, text_list_doc, texts_doc,
    texts_object, with_doc, with_number, with_text, JsonDoc, JsonObject,
};
use crate::kong::{built_route, Kong, KongView};
use crate::layers::{
    fold_layers, folded_source, ManifestDefaults, ManifestOverrides, ManifestOverridesView,
    ManifestSource, ManifestSourceView,
};
use crate::merge::merged_option;
use crate::string_map::StringMap;
use crate::strings::{clone_strings, contains_text, join2, join3, seq_or_empty, vec_or_empty};
use crate::structs::{
    filled_data_handling, filled_kafka, find_team, lemma_data_handling_fill_idempotent,
    lemma_kafka_fill_idempotent, AutoScaling, AutoScalingView, Config, ConfigMap, ConfigMappedFile,
    ConfigMappedFileView, ConfigMapView, ConfigView, DataHandling, DataHandlingView, Dependency,
    DependencyView, HealthCheck, HealthCheckView, Kafka, KafkaView, Metadata, MetadataView, Port,
    PortView, Region, RegionView, ResourceRequirements, ResourceRequirementsView, TeamView,
};

verus! {

/// The identity of a service.
#[derive(Debug, PartialEq, Eq)]
pub struct BaseManifest {
    pub name: String,
    pub regions: Vec<String>,
    pub metadata: Metadata,
}

/// The content of [`BaseManifest`], as a mathematical value.
pub struct BaseManifestView {
    pub name: Seq<char>,
    pub regions: Seq<Seq<char>>,
    pub metadata: MetadataView,
}

impl DeepView for BaseManifest {
    type V = BaseManifestView;

    open spec fn deep_view(&self) -> BaseManifestView {
        BaseManifestView {
            name: self.name.deep_view(),
            regions: self.regions.deep_view(),
            metadata: self.metadata.deep_view(),
        }
    }
}

/// What the first stage of a build establishes of a service in a region.
#[derive(Debug, PartialEq, Eq)]
pub struct SimpleManifest {
    pub base: BaseManifest,
    pub region: String,
    /// Whether the service is deployed to the region.
    pub enabled: bool,
    pub external: bool,
    pub image: Option<String>,
    pub version: Option<String>,
    /// The gateway routes: none or one.
    pub kong_apis: Vec<Kong>,
}

/// The content of [`SimpleManifest`], as a mathematical value.
pub struct SimpleManifestView {
    pub base: BaseManifestView,
    pub region: Seq<char>,
    pub enabled: bool,
    pub external: bool,
    pub image: Option<Seq<char>>,
    pub version: Option<Seq<char>>,
    pub kong_apis: Seq<KongView>,
}

impl DeepView for SimpleManifest {
    type V = SimpleManifestView;

    open spec fn deep_view(&self) -> SimpleManifestView {
        SimpleManifestView {
            base: self.base.deep_view(),
            region: self.region.deep_view(),
            enabled: self.enabled.deep_view(),
            external: self.external.deep_view(),
            image: self.image.deep_view(),
            version: self.version.deep_view(),
            kong_apis: self.kong_apis.deep_view(),
        }
    }
}

/// The validated manifest of one service in one region. It is made by a build
/// and not changed afterwards.
#[derive(Debug, PartialEq, Eq)]
pub struct Manifest {
    pub name: String,
    pub publicly_accessible: bool,
    pub external: bool,
    pub disabled: bool,
    pub regions: Vec<String>,
    /// Always set by a build.
    pub metadata: Option<Metadata>,
    pub chart: Option<String>,
    pub image_size: Option<u32>,
    /// Always set by a build.
    pub image: Option<String>,
    /// Always set by a build.
    pub version: Option<String>,
    pub command: Vec<String>,
    pub data_handling: Option<DataHandling>,
    pub language: Option<String>,
    pub resources: Option<ResourceRequirements>,
    pub replica_count: Option<u32>,
    pub env: StringMap,
    pub secret_files: StringMap,
    pub configs: Option<ConfigMap>,
    pub http_port: Option<u32>,
    pub ports: Vec<Port>,
    pub external_port: Option<u32>,
    pub health: Option<HealthCheck>,
    pub dependencies: Vec<Dependency>,
    pub auto_scaling: Option<AutoScaling>,
    pub service_annotations: StringMap,
    pub pod_annotations: StringMap,
    pub labels: StringMap,
    /// The gateway routes: none or one.
    pub kong_apis: Vec<Kong>,
    pub hosts: Vec<String>,
    pub kafka: Option<Kafka>,
    pub source_ranges: Vec<String>,
    pub region: String,
    pub environment: String,
    pub namespace: String,
}

/// The content of [`Manifest`], as a mathematical value.
pub struct ManifestView {
    pub name: Seq<char>,
    pub publicly_accessible: bool,
    pub external: bool,
    pub disabled: bool,
    pub regions: Seq<Seq<char>>,
    pub metadata: Option<MetadataView>,
    pub chart: Option<Seq<char>>,
    pub image_size: Option<u32>,
    pub image: Option<Seq<char>>,
    pub version: Option<Seq<char>>,
    pub command: Seq<Seq<char>>,
    pub data_handling: Option<DataHandlingView>,
    pub language: Option<Seq<char>>,
    pub resources: Option<ResourceRequirementsView>,
    pub replica_count: Option<u32>,
    pub env: Map<Seq<char>, Seq<char>>,
    pub secret_files: Map<Seq<char>, Seq<char>>,
    pub configs: Option<ConfigMapView>,
    pub http_port: Option<u32>,
    pub ports: Seq<PortView>,
    pub external_port: Option<u32>,
    pub health: Option<HealthCheckView>,
    pub dependencies: Seq<DependencyView>,
    pub auto_scaling: Option<AutoScalingView>,
    pub service_annotations: Map<Seq<char>, Seq<char>>,
    pub pod_annotations: Map<Seq<char>, Seq<char>>,
    pub labels: Map<Seq<char>, Seq<char>>,
    pub kong_apis: Seq<KongView>,
    pub hosts: Seq<Seq<char>>,
    pub kafka: Option<KafkaView>,
    pub source_ranges: Seq<Seq<char>>,
    pub region: Seq<char>,
    pub environment: Seq<char>,
    pub namespace: Seq<char>,
}

impl DeepView for Manifest {
    type V = ManifestView;

    open spec fn deep_view(&self) -> ManifestView {
        ManifestView {
            name: self.name.deep_view(),
            publicly_accessible: self.publicly_accessible.deep_view(),
            external: self.external.deep_view(),
            disabled: self.disabled.deep_view(),
            regions: self.regions.deep_view(),
            metadata: self.metadata.deep_view(),
            chart: self.chart.deep_view(),
            image_size: self.image_size.deep_view(),
            image: self.image.deep_view(),
            version: self.version.deep_view(),
            command: self.command.deep_view(),
            data_handling: self.data_handling.deep_view(),
            language: self.language.deep_view(),
            resources: self.resources.deep_view(),
            replica_count: self.replica_count.deep_view(),
            env: self.env.deep_view(),
            secret_files: self.secret_files.deep_view(),
            configs: self.configs.deep_view(),
            http_port: self.http_port.deep_view(),
            ports: self.ports.deep_view(),
            external_port: self.external_port.deep_view(),
            health: self.health.deep_view(),
            dependencies: self.dependencies.deep_view(),
            auto_scaling: self.auto_scaling.deep_view(),
            service_annotations: self.service_annotations.deep_view(),
            pod_annotations: self.pod_annotations.deep_view(),
            labels: self.labels.deep_view(),
            kong_apis: self.kong_apis.deep_view(),
            hosts: self.hosts.deep_view(),
            kafka: self.kafka.deep_view(),
            source_ranges: self.source_ranges.deep_view(),
            region: self.region.deep_view(),
            environment: self.environment.deep_view(),
            namespace: self.namespace.deep_view(),
        }
    }
}

impl ManifestView {
    /// The members of the JSON object that stands for a manifest. A field that
    /// is unset has no member.
    pub open spec fn doc(self) -> Map<Seq<char>, JsonDoc> {
        let fields = no_fields();
        let fields = fields.insert("name"@, JsonDoc::Text(self.name));
        let fields = fields.insert("publiclyAccessible"@, JsonDoc::Bool(self.publicly_accessible));
        let fields = fields.insert("external"@, JsonDoc::Bool(self.external));
        let fields = fields.insert("disabled"@, JsonDoc::Bool(self.disabled));
        let fields = fields.insert("regions"@, text_list_doc(self.regions));
        let fields = with_doc(
            fields,
            "metadata"@,
            match self.metadata {
                Some(v) => Some(JsonDoc::Object(v.doc())),
                None => None,
            },
        );
        let fields = with_text(fields, "chart"@, self.chart);
        let fields = with_number(fields, "imageSize"@, self.image_size);
        let fields = with_text(fields, "image"@, self.image);
        let fields = with_text(fields, "version"@, self.version);
        let fields = fields.insert("command"@, text_list_doc(self.command));
        let fields = with_doc(
            fields,
            "dataHandling"@,
            match self.data_handling {
                Some(v) => Some(JsonDoc::Object(v.doc())),
                None => None,
            },
        );
        let fields = with_text(fields, "language"@, self.language);
        let fields = with_doc(
            fields,
            "resources"@,
            match self.resources {
                Some(v) => Some(JsonDoc::Object(v.doc())),
                None => None,
            },
        );
        let fields = with_number(fields, "replicaCount"@, self.replica_count);
        let fields = fields.insert("env"@, JsonDoc::Object(texts_doc(self.env)));
        let fields = fields.insert("secretFiles"@, JsonDoc::Object(texts_doc(self.secret_files)));
        let fields = with_doc(
            fields,
            "configs"@,
            match self.configs {
                Some(v) => Some(JsonDoc::Object(v.doc())),
                None => None,
            },
        );
        let fields = with_number(fields, "httpPort"@, self.http_port);
        let fields = fields.insert("ports"@, PortView::list_doc(self.ports));
        let fields = with_number(fields, "externalPort"@, self.external_port);
        let fields = with_doc(
            fields,
            "health"@,
            match self.health {
                Some(v) => Some(JsonDoc::Object(v.doc())),
                None => None,
            },
        );
        let fields = fields.insert("dependencies"@, DependencyView::list_doc(self.dependencies));
        let fields = with_doc(
            fields,
            "autoScaling"@,
            match self.auto_scaling {
                Some(v) => Some(JsonDoc::Object(v.doc())),
                None => None,
            },
        );
        let fields = fields.insert("serviceAnnotations"@, JsonDoc::Object(texts_doc(self.service_annotations)));
        let fields = fields.insert("podAnnotations"@, JsonDoc::Object(texts_doc(self.pod_annotations)));
        let fields = fields.insert("labels"@, JsonDoc::Object(texts_doc(self.labels)));
        let fields = fields.insert("kongApis"@, KongView::list_doc(self.kong_apis));
        let fields = fields.insert("hosts"@, text_list_doc(self.hosts));
        let fields = with_doc(
            fields,
            "kafka"@,
            match self.kafka {
                Some(v) => Some(JsonDoc::Object(v.doc())),
                None => None,
            },
        );
        let fields = fields.insert("sourceRanges"@, text_list_doc(self.source_ranges));
        let fields = fields.insert("region"@, JsonDoc::Text(self.region));
        let fields = fields.insert("environment"@, JsonDoc::Text(self.environment));
        let fields = fields.insert("namespace"@, JsonDoc::Text(self.namespace));
        fields
    }
}

impl Manifest {
    /// The JSON object that stands for a manifest.
    pub fn to_json(&self) -> (object: JsonObject)
        ensures
            object_fields(object) == self.deep_view().doc(),
    {
        let mut object = object_new();
        let ghost view = self.deep_view();
        let ghost fields = no_fields();
        object_put_text(&mut object, "name", self.name.as_str());
        proof {
            fields = fields.insert("name"@, JsonDoc::Text(view.name));
            assert(object_fields(object) == fields);
        }
        object_put_bool(&mut object, "publiclyAccessible", self.publicly_accessible);
        proof {
            fields = fields.insert("publiclyAccessible"@, JsonDoc::Bool(view.publicly_accessible));
            assert(object_fields(object) == fields);
        }
        object_put_bool(&mut object, "external", self.external);
        proof {
            fields = fields.insert("external"@, JsonDoc::Bool(view.external));
            assert(object_fields(object) == fields);
        }
        object_put_bool(&mut object, "disabled", self.disabled);
        proof {
            fields = fields.insert("disabled"@, JsonDoc::Bool(view.disabled));
            assert(object_fields(object) == fields);
        }
        object_put_texts(&mut object, "regions", &self.regions);
        proof {
            fields = fields.insert("regions"@, text_list_doc(view.regions));
            assert(object_fields(object) == fields);
        }
        match &self.metadata {
            Some(v) => object_put_object(&mut object, "metadata", v.to_json()),
            None => {},
        }
        proof {
            fields = with_doc(
                fields,
                "metadata"@,
                match view.metadata {
                    Some(v) => Some(JsonDoc::Object(v.doc())),
                    None => None,
                },
            );
            assert(object_fields(object) == fields);
        }
        put_opt_text(&mut object, "chart", &self.chart);
        proof {
            fields = with_text(fields, "chart"@, view.chart);
            assert(object_fields(object) == fields);
        }
        put_opt_number(&mut object, "imageSize", &self.image_size);
        proof {
            fields = with_number(fields, "imageSize"@, view.image_size);
            assert(object_fields(object) == fields);
        }
        put_opt_text(&mut object, "image", &self.image);
        proof {
            fields = with_text(fields, "image"@, view.image);
            assert(object_fields(object) == fields);
        }
        put_opt_text(&mut object, "version", &self.version);
        proof {
            fields = with_text(fields, "version"@, view.version);
            assert(object_fields(object) == fields);
        }
        object_put_texts(&mut object, "command", &self.command);
        proof {
            fields = fields.insert("command"@, text_list_doc(view.command));
            assert(object_fields(object) == fields);
        }
        match &self.data_handling {
            Some(v) => object_put_object(&mut object, "dataHandling", v.to_json()),
            None => {},
        }
        proof {
            fields = with_doc(
                fields,
                "dataHandling"@,
                match view.data_handling {
                    Some(v) => Some(JsonDoc::Object(v.doc())),
                    None => None,
                },
            );
            assert(object_fields(object) == fields);
        }
        put_opt_text(&mut object, "language", &self.language);
        proof {
            fields = with_text(fields, "language"@, view.language);
            assert(object_fields(object) == fields);
        }
        match &self.resources {
            Some(v) => object_put_object(&mut object, "resources", v.to_json()),
            None => {},
        }
        proof {
            fields = with_doc(
                fields,
                "resources"@,
                match view.resources {
                    Some(v) => Some(JsonDoc::Object(v.doc())),
                    None => None,
                },
            );
            assert(object_fields(object) == fields);
        }
        put_opt_number(&mut object, "replicaCount", &self.replica_count);
        proof {
            fields = with_number(fields, "replicaCount"@, view.replica_count);
            assert(object_fields(object) == fields);
        }
        object_put_object(&mut object, "env", texts_object(&self.env));
        proof {
            fields = fields.insert("env"@, JsonDoc::Object(texts_doc(view.env)));
            assert(object_fields(object) == fields);
        }
        object_put_object(&mut object, "secretFiles", texts_object(&self.secret_files));
        proof {
            fields = fields.insert("secretFiles"@, JsonDoc::Object(texts_doc(view.secret_files)));
            assert(object_fields(object) == fields);
        }
        match &self.configs {
            Some(v) => object_put_object(&mut object, "configs", v.to_json()),
            None => {},
        }
        proof {
            fields = with_doc(
                fields,
                "configs"@,
                match view.configs {
                    Some(v) => Some(JsonDoc::Object(v.doc())),
                    None => None,
                },
            );
            assert(object_fields(object) == fields);
        }
        put_opt_number(&mut object, "httpPort", &self.http_port);
        proof {
            fields = with_number(fields, "httpPort"@, view.http_port);
            assert(object_fields(object) == fields);
        }
        object_put_list(&mut object, "ports", Port::list_to_json(&self.ports));
        proof {
            fields = fields.insert("ports"@, PortView::list_doc(view.ports));
            assert(object_fields(object) == fields);
        }
        put_opt_number(&mut object, "externalPort", &self.external_port);
        proof {
            fields = with_number(fields, "externalPort"@, view.external_port);
            assert(object_fields(object) == fields);
        }
        match &self.health {
            Some(v) => object_put_object(&mut object, "health", v.to_json()),
            None => {},
        }
        proof {
            fields = with_doc(
                fields,
                "health"@,
                match view.health {
                    Some(v) => Some(JsonDoc::Object(v.doc())),
                    None => None,
                },
            );
            assert(object_fields(object) == fields);
        }
        object_put_list(&mut object, "dependencies", Dependency::list_to_json(&self.dependencies));
        proof {
            fields = fields.insert("dependencies"@, DependencyView::list_doc(view.dependencies));
            assert(object_fields(object) == fields);
        }
        match &self.auto_scaling {
            Some(v) => object_put_object(&mut object, "autoScaling", v.to_json()),
            None => {},
        }
        proof {
            fields = with_doc(
                fields,
                "autoScaling"@,
                match view.auto_scaling {
                    Some(v) => Some(JsonDoc::Object(v.doc())),
                    None => None,
                },
            );
            assert(object_fields(object) == fields);
        }
        object_put_object(&mut object, "serviceAnnotations", texts_object(&self.service_annotations));
        proof {
            fields = fields.insert("serviceAnnotations"@, JsonDoc::Object(texts_doc(view.service_annotations)));
            assert(object_fields(object) == fields);
        }
        object_put_object(&mut object, "podAnnotations", texts_object(&self.pod_annotations));
        proof {
            fields = fields.insert("podAnnotations"@, JsonDoc::Object(texts_doc(view.pod_annotations)));
            assert(object_fields(object) == fields);
        }
        object_put_object(&mut object, "labels", texts_object(&self.labels));
        proof {
            fields = fields.insert("labels"@, JsonDoc::Object(texts_doc(view.labels)));
            assert(object_fields(object) == fields);
        }
        object_put_list(&mut object, "kongApis", Kong::list_to_json(&self.kong_apis));
        proof {
            fields = fields.insert("kongApis"@, KongView::list_doc(view.kong_apis));
            assert(object_fields(object) == fields);
        }
        object_put_texts(&mut object, "hosts", &self.hosts);
        proof {
            fields = fields.insert("hosts"@, text_list_doc(view.hosts));
            assert(object_fields(object) == fields);
        }
        match &self.kafka {
            Some(v) => object_put_object(&mut object, "kafka", v.to_json()),
            None => {},
        }
        proof {
            fields = with_doc(
                fields,
                "kafka"@,
                match view.kafka {
                    Some(v) => Some(JsonDoc::Object(v.doc())),
                    None => None,
                },
            );
            assert(object_fields(object) == fields);
        }
        object_put_texts(&mut object, "sourceRanges", &self.source_ranges);
        proof {
            fields = fields.insert("sourceRanges"@, text_list_doc(view.source_ranges));
            assert(object_fields(object) == fields);
        }
        object_put_text(&mut object, "region", self.region.as_str());
        proof {
            fields = fields.insert("region"@, JsonDoc::Text(view.region));
            assert(object_fields(object) == fields);
        }
        object_put_text(&mut object, "environment", self.environment.as_str());
        proof {
            fields = fields.insert("environment"@, JsonDoc::Text(view.environment));
            assert(object_fields(object) == fields);
        }
        object_put_text(&mut object, "namespace", self.namespace.as_str());
        proof {
            fields = fields.insert("namespace"@, JsonDoc::Text(view.namespace));
            assert(object_fields(object) == fields);
        }
        object
    }
}

/// The value of a required field, or the failure that names the field.
pub open spec fn required<T>(value: Option<T>, field: Field) -> Result<T, ShipcatErrorView> {
    match value {
        Some(v) => Ok(v),
        None => Err(ShipcatErrorView::MissingField(field)),
    }
}

/// The metadata of a manifest once its team has been looked up: what the
/// metadata leaves unset of support and notifications is taken from the team.
pub open spec fn built_metadata(metadata: Option<MetadataView>, conf: ConfigView) -> Result<
    MetadataView,
    ShipcatErrorView,
> {
    match required(metadata, Field::Metadata) {
        Err(e) => Err(e),
        Ok(md) => match find_team(conf.teams, md.team) {
            None => Err(ShipcatErrorView::UnknownTeam(md.team)),
            Some(team) => Ok(
                MetadataView {
                    team: md.team,
                    repo: md.repo,
                    support: merged_option(team.support, md.support),
                    notifications: merged_option(team.notifications, md.notifications),
                },
            ),
        },
    }
}

/// The identity of a service: its name, its regions and its metadata.
pub open spec fn built_base(source: ManifestSourceView, conf: ConfigView) -> Result<
    BaseManifestView,
    ShipcatErrorView,
> {
    match required(source.name, Field::Name) {
        Err(e) => Err(e),
        Ok(name) => match built_metadata(source.metadata, conf) {
            Err(e) => Err(e),
            Ok(metadata) => Ok(BaseManifestView { name, regions: source.regions, metadata }),
        },
    }
}

/// The image of a service: the explicit image when one is set, else the
/// image prefix, a slash and the service name.
pub open spec fn built_image(
    image: Option<Seq<char>>,
    image_prefix: Option<Seq<char>>,
    service: Seq<char>,
) -> Result<Seq<char>, ShipcatErrorView> {
    match image {
        Some(explicit) => Ok(explicit),
        None => match image_prefix {
            Some(prefix) => Ok(prefix + "/"@ + service),
            None => Err(ShipcatErrorView::ImagePrefixUndefined),
        },
    }
}

/// The routes of a manifest: the one it has, or none.
pub open spec fn route_list(route: Option<KongView>) -> Seq<KongView> {
    match route {
        Some(k) => seq![k],
        None => Seq::empty(),
    }
}

/// What the first stage of a build gives: identity, image, version and
/// route. The checks are made in this order, and the first to fail decides
/// the failure.
pub open spec fn built_simple(source: ManifestSourceView, conf: ConfigView, region: RegionView) -> Result<
    SimpleManifestView,
    ShipcatErrorView,
> {
    match built_base(source, conf) {
        Err(e) => Err(e),
        Ok(base) => match built_image(source.overrides.image, source.overrides.defaults.image_prefix, base.name) {
            Err(e) => Err(e),
            Ok(image) => match required(source.overrides.version, Field::Version) {
                Err(e) => Err(e),
                Ok(version) => match built_route(
                    source.overrides.defaults.kong,
                    base.name,
                    region,
                    source.overrides.hosts,
                ) {
                    Err(e) => Err(e),
                    Ok(route) => Ok(
                        SimpleManifestView {
                            base,
                            region: region.name,
                            enabled: !source.disabled && base.regions.contains(region.name),
                            external: source.external,
                            image: Some(image),
                            version: Some(version),
                            kong_apis: route_list(route),
                        },
                    ),
                },
            },
        },
    }
}

/// Where the template of a configuration file is looked for first: among
/// the files of the service.
pub open spec fn service_template_path(service: Seq<char>, template: Seq<char>) -> Seq<char> {
    "./services/"@ + service + "/"@ + template
}

/// Where the template of a configuration file is looked for second: among
/// the shared templates.
pub open spec fn shared_template_path(template: Seq<char>) -> Seq<char> {
    "./templates/"@ + template
}

/// The content of a template, given the files that exist, by path: the
/// service's own file when there is one, else the shared one.
pub open spec fn template_content(
    service: Seq<char>,
    template: Seq<char>,
    files: Map<Seq<char>, Seq<char>>,
) -> Result<Seq<char>, ShipcatErrorView> {
    if files.contains_key(service_template_path(service, template)) {
        Ok(files[service_template_path(service, template)])
    } else if files.contains_key(shared_template_path(template)) {
        Ok(files[shared_template_path(template)])
    } else {
        Err(
            ShipcatErrorView::MissingTemplate {
                template,
                service_path: service_template_path(service, template),
                shared_path: shared_template_path(template),
            },
        )
    }
}

/// The configuration files with their content read, in order; the first
/// file whose template is missing decides the failure.
pub open spec fn read_files(
    list: Seq<ConfigMappedFileView>,
    service: Seq<char>,
    files: Map<Seq<char>, Seq<char>>,
) -> Result<Seq<ConfigMappedFileView>, ShipcatErrorView>
    decreases list.len(),
{
    if list.len() == 0 {
        Ok(Seq::empty())
    } else {
        match read_files(list.drop_last(), service, files) {
            Err(e) => Err(e),
            Ok(done) => match template_content(service, list.last().name, files) {
                Err(e) => Err(e),
                Ok(content) => Ok(
                    done.push(
                        ConfigMappedFileView {
                            name: list.last().name,
                            dest: list.last().dest,
                            value: Some(content),
                        },
                    ),
                ),
            },
        }
    }
}

/// The configuration files of a manifest with their content read.
pub open spec fn built_configs(
    configs: Option<ConfigMapView>,
    service: Seq<char>,
    files: Map<Seq<char>, Seq<char>>,
) -> Result<Option<ConfigMapView>, ShipcatErrorView> {
    match configs {
        None => Ok(None),
        Some(c) => match read_files(c.files, service, files) {
            Err(e) => Err(e),
            Ok(list) => Ok(Some(ConfigMapView { name: c.name, mount: c.mount, files: list })),
        },
    }
}

/// The image size of a manifest that sets none.
pub const DEFAULT_IMAGE_SIZE: u32 = 512;

/// The validated manifest that a merged source resolves to.
///
/// `files` holds the files that exist, by path. A failure of the first
/// stage comes before a missing template.
pub open spec fn built_manifest(
    source: ManifestSourceView,
    conf: ConfigView,
    region: RegionView,
    files: Map<Seq<char>, Seq<char>>,
) -> Result<ManifestView, ShipcatErrorView> {
    let o = source.overrides;
    match built_simple(source, conf, region) {
        Err(e) => Err(e),
        Ok(simple) => match built_configs(o.configs, simple.base.name, files) {
            Err(e) => Err(e),
            Ok(configs) => Ok(
                ManifestView {
                    name: simple.base.name,
                    publicly_accessible: o.publicly_accessible == Some(true),
                    external: simple.external,
                    disabled: source.disabled,
                    regions: simple.base.regions,
                    metadata: Some(simple.base.metadata),
                    chart: o.defaults.chart,
                    image_size: merged_option(Some(DEFAULT_IMAGE_SIZE), o.image_size),
                    image: simple.image,
                    version: simple.version,
                    command: seq_or_empty(o.command),
                    data_handling: built_data_handling(o.data_handling),
                    language: o.language,
                    resources: o.resources,
                    replica_count: o.defaults.replica_count,
                    env: o.defaults.env,
                    secret_files: o.secret_files,
                    configs,
                    http_port: o.http_port,
                    ports: seq_or_empty(o.ports),
                    external_port: o.external_port,
                    health: o.health,
                    dependencies: seq_or_empty(o.dependencies),
                    auto_scaling: o.auto_scaling,
                    service_annotations: o.service_annotations,
                    pod_annotations: o.pod_annotations,
                    labels: o.labels,
                    kong_apis: simple.kong_apis,
                    hosts: seq_or_empty(o.hosts),
                    kafka: built_kafka(o.kafka, simple.base.name, region),
                    source_ranges: seq_or_empty(o.source_ranges),
                    region: region.name,
                    environment: region.environment,
                    namespace: region.namespace,
                },
            ),
        },
    }
}

/// Reads the template of a configuration file from the files that exist:
/// the service's own file when there is one, else the shared one. When
/// there is neither, the failure names the template and both paths.
pub fn read_template_file(svc: &str, tmpl: &str, files: &StringMap) -> (content: Result<String, ShipcatError>)
    ensures
        result_view(content) == template_content(svc@, tmpl@, files@),
{
    let mut service_path = join3("./services/", svc, "/");
    service_path.append(tmpl);
    let shared_path = join2("./templates/", tmpl);
    match files.get(service_path.as_str()) {
        Some(content) => Ok(content),
        None => match files.get(shared_path.as_str()) {
            Some(content) => Ok(content),
            None => Err(
                ShipcatError::MissingTemplate { template: String::from_str(tmpl), service_path, shared_path },
            ),
        },
    }
}

/// The two paths at which the template of a configuration file is looked
/// for, in the order in which they are tried.
pub fn template_paths(svc: &str, tmpl: &str) -> (paths: (String, String))
    ensures
        paths.0@ == service_template_path(svc@, tmpl@),
        paths.1@ == shared_template_path(tmpl@),
{
    let mut service_path = join3("./services/", svc, "/");
    service_path.append(tmpl);
    (service_path, join2("./templates/", tmpl))
}

/// The data handling of a manifest, with what can be derived filled in.
pub open spec fn built_data_handling(data_handling: Option<DataHandlingView>) -> Option<DataHandlingView> {
    match data_handling {
        Some(d) => Some(filled_data_handling(d)),
        None => None,
    }
}

/// The streaming descriptor of a manifest, with what can be derived from
/// the service and the region filled in.
pub open spec fn built_kafka(kafka: Option<KafkaView>, service: Seq<char>, region: RegionView) -> Option<
    KafkaView,
> {
    match kafka {
        Some(k) => Some(filled_kafka(k, service, region)),
        None => None,
    }
}

fn build_data_handling(data_handling: Option<DataHandling>) -> (built: Option<DataHandling>)
    ensures
        built.deep_view() == built_data_handling(data_handling.deep_view()),
{
    match data_handling {
        Some(d) => Some(d.implicits()),
        None => None,
    }
}

fn build_kafka(kafka: Option<Kafka>, service: &str, region: &Region) -> (built: Option<Kafka>)
    ensures
        built.deep_view() == built_kafka(kafka.deep_view(), service@, region.deep_view()),
{
    match kafka {
        Some(k) => Some(k.implicits(service, region)),
        None => None,
    }
}

fn build_configs(configs: Option<ConfigMap>, service: &str, files: &StringMap) -> (built: Result<
    Option<ConfigMap>,
    ShipcatError,
>)
    ensures
        result_view(built) == built_configs(configs.deep_view(), service@, files@),
{
    match configs {
        None => Ok(None),
        Some(c) => {
            let ghost all = c.files.deep_view();
            let mut list: Vec<ConfigMappedFile> = Vec::new();
            let mut i: usize = 0;
            assert(all.take(0) =~= Seq::<ConfigMappedFileView>::empty());
            assert(list.deep_view() =~= Seq::<ConfigMappedFileView>::empty());
            while i < c.files.len()
                invariant
                    i <= c.files.len(),
                    all == c.files.deep_view(),
                    configs.deep_view() == Some(c.deep_view()),
                    read_files(all.take(i as int), service@, files@) == Ok::<
                        Seq<ConfigMappedFileView>,
                        ShipcatErrorView,
                    >(list.deep_view()),
                decreases c.files.len() - i,
            {
                let ghost before = list.deep_view();
                proof {
                    assert(all.take(i + 1).drop_last() =~= all.take(i as int));
                    assert(all.take(i + 1).last() == all[i as int]);
                }
                match read_template_file(service, c.files[i].name.as_str(), files) {
                    Err(e) => {
                        proof {
                            lemma_read_files_failure(all, i + 1, service@, files@);
                        }
                        return Err(e);
                    },
                    Ok(content) => {
                        let file = ConfigMappedFile {
                            name: c.files[i].name.clone(),
                            dest: c.files[i].dest.clone(),
                            value: Some(content),
                        };
                        list.push(file);
                        assert(list.deep_view() =~= before.push(file.deep_view()));
                    },
                }
                i = i + 1;
            }
            assert(all.take(i as int) =~= all);
            Ok(Some(ConfigMap { name: c.name, mount: c.mount, files: list }))
        },
    }
}

/// A failure while reading the first files of a list is the failure of
/// reading the whole list.
pub proof fn lemma_read_files_failure(
    list: Seq<ConfigMappedFileView>,
    n: int,
    service: Seq<char>,
    files: Map<Seq<char>, Seq<char>>,
)
    requires
        0 <= n <= list.len(),
        read_files(list.take(n), service, files) is Err,
    ensures
        read_files(list, service, files) == read_files(list.take(n), service, files),
    decreases list.len() - n,
{
    if n < list.len() {
        assert(list.take(n + 1).drop_last() =~= list.take(n));
        lemma_read_files_failure(list, n + 1, service, files);
    } else {
        assert(list.take(n) =~= list);
    }
}

impl ManifestSource {
    /// Looks up the team of the metadata, which is required and must name a
    /// team of the team directory, and lets the metadata inherit from the
    /// team what it leaves unset of support and notifications; what it sets,
    /// it keeps.
    pub fn build_metadata(&self, conf: &Config) -> (metadata: Result<Metadata, ShipcatError>)
        ensures
            result_view(metadata) == built_metadata(self.deep_view().metadata, conf.deep_view()),
    {
        match &self.metadata {
            None => Err(ShipcatError::MissingField(Field::Metadata)),
            Some(md) => match conf.team(md.team.as_str()) {
                None => Err(ShipcatError::UnknownTeam(md.team.clone())),
                Some(team) => Ok(
                    Metadata {
                        team: md.team.clone(),
                        repo: md.repo.clone(),
                        support: match &md.support {
                            Some(s) => Some(s.clone()),
                            None => team.support.clone(),
                        },
                        notifications: match &md.notifications {
                            Some(s) => Some(s.clone()),
                            None => team.notifications.clone(),
                        },
                    },
                ),
            },
        }
    }

    /// Decides the image of the service: the explicit image when one is
    /// set, else the image prefix, a slash and the service name. Without
    /// either there is no image, and the failure says that the image prefix
    /// is not defined.
    pub fn build_image(&self, service: &str) -> (image: Result<String, ShipcatError>)
        ensures
            result_view(image) == built_image(
                self.deep_view().overrides.image,
                self.deep_view().overrides.defaults.image_prefix,
                service@,
            ),
    {
        match &self.overrides.image {
            Some(explicit) => Ok(explicit.clone()),
            None => match &self.overrides.defaults.image_prefix {
                Some(prefix) => Ok(join3(prefix.as_str(), "/", service)),
                None => Err(ShipcatError::ImagePrefixUndefined),
            },
        }
    }

    /// Establishes the identity of the service: its name, which is required,
    /// its regions, and its metadata, which is required and must name a team
    /// of the team directory.
    pub fn build_base(&self, conf: &Config) -> (base: Result<BaseManifest, ShipcatError>)
        ensures
            result_view(base) == built_base(self.deep_view(), conf.deep_view()),
    {
        match &self.name {
            None => Err(ShipcatError::MissingField(Field::Name)),
            Some(name) => match self.build_metadata(conf) {
                Err(e) => Err(e),
                Ok(metadata) => Ok(
                    BaseManifest { name: name.clone(), regions: clone_strings(&self.regions), metadata },
                ),
            },
        }
    }

    /// The first stage of a build: identity, image, version and route.
    pub fn build_simple(&self, conf: &Config, region: &Region) -> (simple: Result<SimpleManifest, ShipcatError>)
        ensures
            result_view(simple) == built_simple(self.deep_view(), conf.deep_view(), region.deep_view()),
    {
        let base = match self.build_base(conf) {
            Ok(base) => base,
            Err(e) => {
                return Err(e);
            },
        };
        let image = match self.build_image(base.name.as_str()) {
            Ok(image) => image,
            Err(e) => {
                return Err(e);
            },
        };
        let version = match &self.overrides.version {
            Some(version) => version.clone(),
            None => {
                return Err(ShipcatError::MissingField(Field::Version));
            },
        };
        let route = match self.overrides.defaults.kong.build(base.name.as_str(), region, &self.overrides.hosts) {
            Ok(route) => route,
            Err(e) => {
                return Err(e);
            },
        };
        let mut kong_apis: Vec<Kong> = Vec::new();
        assert(kong_apis.deep_view() =~= Seq::<KongView>::empty());
        match route {
            Some(k) => {
                kong_apis.push(k);
                assert(kong_apis.deep_view() =~= seq![k.deep_view()]);
            },
            None => {},
        }
        let enabled = !self.disabled && contains_text(&base.regions, region.name.as_str());
        Ok(
            SimpleManifest {
                base,
                region: region.name.clone(),
                enabled,
                external: self.external,
                image: Some(image),
                version: Some(version),
                kong_apis,
            },
        )
    }

    /// Builds the validated manifest of this merged source for a region.
    ///
    /// `files` holds the files that exist, by path, and is where the
    /// templates of configuration files are read from. The build fails on
    /// the first of these: no name; no metadata; a team that the directory
    /// does not hold; neither image nor image prefix; no version; a route
    /// that is refused; a configuration file without a template.
    pub fn build(self, conf: &Config, region: &Region, files: &StringMap) -> (manifest: Result<
        Manifest,
        ShipcatError,
    >)
        ensures
            result_view(manifest) == built_manifest(
                self.deep_view(),
                conf.deep_view(),
                region.deep_view(),
                files@,
            ),
    {
        let simple = match self.build_simple(conf, region) {
            Ok(simple) => simple,
            Err(e) => {
                return Err(e);
            },
        };
        let ManifestSource { name: _, external: _, disabled, regions: _, metadata: _, overrides } = self;
        let ManifestOverrides {
            publicly_accessible,
            image: _,
            image_size,
            version: _,
            command,
            data_handling,
            language,
            resources,
            secret_files,
            configs,
            http_port,
            ports,
            external_port,
            health,
            dependencies,
            auto_scaling,
            service_annotations,
            pod_annotations,
            labels,
            hosts,
            kafka,
            source_ranges,
            defaults,
        } = overrides;
        let ManifestDefaults { image_prefix: _, chart, replica_count, env, kong: _ } = defaults;
        let SimpleManifest { base, region: _, enabled: _, external, image, version, kong_apis } = simple;
        let BaseManifest { name, regions, metadata } = base;
        let configs = match build_configs(configs, name.as_str(), files) {
            Ok(configs) => configs,
            Err(e) => {
                return Err(e);
            },
        };
        let data_handling = build_data_handling(data_handling);
        let kafka = build_kafka(kafka, name.as_str(), region);
        Ok(
            Manifest {
                name,
                publicly_accessible: match publicly_accessible {
                    Some(b) => b,
                    None => false,
                },
                external,
                disabled,
                regions,
                metadata: Some(metadata),
                chart,
                image_size: match image_size {
                    Some(size) => Some(size),
                    None => Some(DEFAULT_IMAGE_SIZE),
                },
                image,
                version,
                command: vec_or_empty(command),
                data_handling,
                language,
                resources,
                replica_count,
                env,
                secret_files,
                configs,
                http_port,
                ports: vec_or_empty(ports),
                external_port,
                health,
                dependencies: vec_or_empty(dependencies),
                auto_scaling,
                service_annotations,
                pod_annotations,
                labels,
                kong_apis,
                hosts: vec_or_empty(hosts),
                kafka,
                source_ranges: vec_or_empty(source_ranges),
                region: region.name.clone(),
                environment: region.environment.clone(),
                namespace: region.namespace.clone(),
            },
        )
    }
}

/// Resolves the manifest of a service in a region: folds the three layers
/// and builds the merged source.
pub fn resolve(
    global: ManifestDefaults,
    regional: ManifestDefaults,
    service: ManifestSource,
    conf: &Config,
    region: &Region,
    files: &StringMap,
) -> (manifest: Result<Manifest, ShipcatError>)
    ensures
        result_view(manifest) == built_manifest(
            folded_source(global.deep_view(), regional.deep_view(), service.deep_view()),
            conf.deep_view(),
            region.deep_view(),
            files@,
        ),
{
    fold_layers(global, regional, service).build(conf, region, files)
}

/// A source without a name cannot be built: the build fails, and the
/// failure names the field.
pub proof fn lemma_name_required(
    source: ManifestSourceView,
    conf: ConfigView,
    region: RegionView,
    files: Map<Seq<char>, Seq<char>>,
)
    requires
        source.name is None,
    ensures
        built_base(source, conf) == Err::<BaseManifestView, ShipcatErrorView>(
            ShipcatErrorView::MissingField(Field::Name),
        ),
        built_manifest(source, conf, region, files) == Err::<ManifestView, ShipcatErrorView>(
            ShipcatErrorView::MissingField(Field::Name),
        ),
        ShipcatErrorView::MissingField(Field::Name).text() == "name"@ + " is required"@,
{
}

/// Whether every configuration file has its template at one of its two
/// places.
pub open spec fn templates_present(
    configs: Option<ConfigMapView>,
    service: Seq<char>,
    files: Map<Seq<char>, Seq<char>>,
) -> bool {
    configs matches Some(c) ==> forall|i: int|
        0 <= i < c.files.len() ==> files.contains_key(
            service_template_path(service, (#[trigger] c.files[i]).name),
        ) || files.contains_key(shared_template_path(c.files[i].name))
}

/// Reading a list of configuration files succeeds exactly when each has its
/// template at one of its two places.
pub proof fn lemma_read_files_succeeds(
    list: Seq<ConfigMappedFileView>,
    service: Seq<char>,
    files: Map<Seq<char>, Seq<char>>,
)
    ensures
        read_files(list, service, files) is Ok <==> forall|i: int|
            0 <= i < list.len() ==> files.contains_key(service_template_path(service, (#[trigger] list[i]).name))
                || files.contains_key(shared_template_path(list[i].name)),
        read_files(list, service, files) matches Ok(done) ==> done.len() == list.len(),
    decreases list.len(),
{
    if list.len() > 0 {
        let rest = list.drop_last();
        lemma_read_files_succeeds(rest, service, files);
        if read_files(list, service, files) is Ok {
            assert forall|i: int| 0 <= i < list.len() implies files.contains_key(
                service_template_path(service, (#[trigger] list[i]).name),
            ) || files.contains_key(shared_template_path(list[i].name)) by {
                if i < list.len() - 1 {
                    assert(rest[i] == list[i]);
                }
            }
        }
        if forall|i: int|
            0 <= i < list.len() ==> files.contains_key(service_template_path(service, (#[trigger] list[i]).name))
                || files.contains_key(shared_template_path(list[i].name)) {
            assert forall|i: int| 0 <= i < rest.len() implies files.contains_key(
                service_template_path(service, (#[trigger] rest[i]).name),
            ) || files.contains_key(shared_template_path(rest[i].name)) by {
                assert(rest[i] == list[i]);
            }
            assert(list.last() == list[list.len() - 1]);
        }
    }
}

/// When a build succeeds: exactly when the merged source has a name, has
/// metadata whose team is in the team directory, has an image or an image
/// prefix, has a version, has a route that is not refused, and has every
/// template of its configuration files.
pub proof fn lemma_build_succeeds(
    source: ManifestSourceView,
    conf: ConfigView,
    region: RegionView,
    files: Map<Seq<char>, Seq<char>>,
)
    ensures
        built_manifest(source, conf, region, files) is Ok <==> {
            &&& source.name is Some
            &&& source.metadata is Some
            &&& find_team(conf.teams, source.metadata->0.team) is Some
            &&& (source.overrides.image is Some || source.overrides.defaults.image_prefix is Some)
            &&& source.overrides.version is Some
            &&& built_route(source.overrides.defaults.kong, source.name->0, region, source.overrides.hosts) is Ok
            &&& templates_present(source.overrides.configs, source.name->0, files)
        },
        built_manifest(source, conf, region, files) matches Ok(m) ==> m.name == source.name->0
            && m.metadata is Some && m.image is Some && m.version == source.overrides.version
            && m.version is Some,
{
    if source.overrides.configs is Some && source.name is Some {
        lemma_read_files_succeeds(source.overrides.configs->0.files, source.name->0, files);
    }
}

/// The image of a service that sets none is its image prefix, a slash and
/// its name. A service with neither image nor image prefix has no image:
/// the build fails, and says that the image prefix is not defined.
pub proof fn lemma_image_fallback(image_prefix: Option<Seq<char>>, service: Seq<char>)
    ensures
        image_prefix matches Some(prefix) ==> built_image(None, image_prefix, service) == Ok::<
            Seq<char>,
            ShipcatErrorView,
        >(prefix + "/"@ + service),
        image_prefix is None ==> built_image(None, image_prefix, service) == Err::<Seq<char>, ShipcatErrorView>(
            ShipcatErrorView::ImagePrefixUndefined,
        ),
        ShipcatErrorView::ImagePrefixUndefined.text() == "image prefix is not defined"@,
{
}

/// The image of a built manifest: the explicit image when the merged source
/// sets one, else the image prefix, a slash and the name. Without either,
/// and with a name and a known team, the build fails on the image.
pub proof fn lemma_manifest_image(
    source: ManifestSourceView,
    conf: ConfigView,
    region: RegionView,
    files: Map<Seq<char>, Seq<char>>,
)
    ensures
        built_manifest(source, conf, region, files) matches Ok(m) ==> m.image == (
        if source.overrides.image is Some {
            source.overrides.image
        } else {
            Some(source.overrides.defaults.image_prefix->0 + "/"@ + source.name->0)
        }),
        built_base(source, conf) is Ok && source.overrides.image is None
            && source.overrides.defaults.image_prefix is None ==> built_manifest(source, conf, region, files)
            == Err::<ManifestView, ShipcatErrorView>(ShipcatErrorView::ImagePrefixUndefined),
{
}

/// Team inheritance: metadata that leaves its support contact unset has the
/// support contact of its team, and metadata that sets one keeps its own,
/// whatever the team's is. The same holds of the notification target.
pub proof fn lemma_team_inheritance(metadata: MetadataView, conf: ConfigView)
    requires
        find_team(conf.teams, metadata.team) is Some,
    ensures
        ({
            let team = find_team(conf.teams, metadata.team)->0;
            &&& built_metadata(Some(metadata), conf) is Ok
            &&& built_metadata(Some(metadata), conf)->Ok_0.team == metadata.team
            &&& built_metadata(Some(metadata), conf)->Ok_0.repo == metadata.repo
            &&& metadata.support is None ==> built_metadata(Some(metadata), conf)->Ok_0.support == team.support
            &&& metadata.support is Some ==> built_metadata(Some(metadata), conf)->Ok_0.support
                == metadata.support
            &&& metadata.notifications is None ==> built_metadata(Some(metadata), conf)->Ok_0.notifications
                == team.notifications
            &&& metadata.notifications is Some ==> built_metadata(Some(metadata), conf)->Ok_0.notifications
                == metadata.notifications
        }),
{
}

/// The team that a lookup finds has the name that was asked for, and is in
/// the directory; a lookup finds none only when no team has the name.
pub proof fn lemma_find_team(teams: Seq<TeamView>, name: Seq<char>)
    ensures
        find_team(teams, name) matches Some(team) ==> team.name == name && teams.contains(team),
        find_team(teams, name) is None ==> forall|i: int|
            0 <= i < teams.len() ==> (#[trigger] teams[i]).name != name,
    decreases teams.len(),
{
    if teams.len() > 0 {
        let rest = teams.drop_first();
        lemma_find_team(rest, name);
        if teams[0].name == name {
            assert(teams.contains(teams[0]));
        } else {
            if find_team(rest, name) is Some {
                let team = find_team(rest, name)->0;
                let i = choose|i: int| 0 <= i < rest.len() && rest[i] == team;
                assert(teams[i + 1] == team);
            } else {
                assert forall|i: int| 0 <= i < teams.len() implies (#[trigger] teams[i]).name != name by {
                    if i > 0 {
                        assert(rest[i - 1] == teams[i]);
                    }
                }
            }
        }
    }
}

/// The built manifest holds the filled data handling and the filled
/// streaming descriptor, and building from a source that holds them filled
/// already gives the same: the fill is applied once.
pub proof fn lemma_enrichment_applied_once(
    source: ManifestSourceView,
    conf: ConfigView,
    region: RegionView,
    files: Map<Seq<char>, Seq<char>>,
)
    requires
        built_manifest(source, conf, region, files) is Ok,
    ensures
        ({
            let m = built_manifest(source, conf, region, files)->Ok_0;
            let again = ManifestSourceView {
                overrides: ManifestOverridesView {
                    data_handling: m.data_handling,
                    kafka: m.kafka,
                    ..source.overrides
                },
                ..source
            };
            built_manifest(again, conf, region, files) == built_manifest(source, conf, region, files)
        }),
{
    let m = built_manifest(source, conf, region, files)->Ok_0;
    if source.overrides.data_handling is Some {
        lemma_data_handling_fill_idempotent(source.overrides.data_handling->0);
    }
    if source.overrides.kafka is Some {
        lemma_kafka_fill_idempotent(source.overrides.kafka->0, source.name->0, region);
    }
}

} // verus!
