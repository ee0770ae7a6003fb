//! The data that manifests are made of: teams, regions and the
//! substructures a manifest can carry.

use vstd::prelude::*;
use crate::json::{
    no_fields, object_fields, object_new, object_put_bool, object_put_list, object_put_number,
    object_put_text, object_put_texts, objects_doc, put_opt_bool, put_opt_text, text_list_doc,
    with_bool, with_text, JsonDoc, JsonObject,
};
use crate::kong::{KongConfig, KongConfigView};
use crate::merge::merged_option;
use crate::strings::{clone_strings, same_text};

verus! {

/// A team of the team directory.
#[derive(Debug, PartialEq, Eq)]
pub struct Team {
    /// The name that manifests refer to.
    pub name: String,
    /// Where the team takes support requests, by default.
    pub support: Option<String>,
    /// Where the team receives notifications, by default.
    pub notifications: Option<String>,
}

/// The content of [`Team`], as a mathematical value.
pub struct TeamView {
    pub name: Seq<char>,
    pub support: Option<Seq<char>>,
    pub notifications: Option<Seq<char>>,
}

impl DeepView for Team {
    type V = TeamView;

    open spec fn deep_view(&self) -> TeamView {
        TeamView {
            name: self.name.deep_view(),
            support: self.support.deep_view(),
            notifications: self.notifications.deep_view(),
        }
    }
}

impl Clone for Team {
    fn clone(&self) -> (copy: Self)
        ensures
            copy.deep_view() == self.deep_view(),
    {
        let copy = Team {
            name: self.name.clone(),
            support: self.support.clone(),
            notifications: self.notifications.clone(),
        };
        copy
    }
}

/// A cluster, and the regions that it runs.
#[derive(Debug, PartialEq, Eq)]
pub struct Cluster {
    pub name: String,
    /// The address through which the cluster is logged in to, if it has one.
    pub teleport: Option<String>,
    /// The name the cluster goes by when logging in, if not the address.
    pub clustername: Option<String>,
    /// The names of the regions that the cluster runs.
    pub regions: Vec<String>,
}

/// The content of [`Cluster`], as a mathematical value.
pub struct ClusterView {
    pub name: Seq<char>,
    pub teleport: Option<Seq<char>>,
    pub clustername: Option<Seq<char>>,
    pub regions: Seq<Seq<char>>,
}

impl DeepView for Cluster {
    type V = ClusterView;

    open spec fn deep_view(&self) -> ClusterView {
        ClusterView {
            name: self.name.deep_view(),
            teleport: self.teleport.deep_view(),
            clustername: self.clustername.deep_view(),
            regions: self.regions.deep_view(),
        }
    }
}

impl Clone for Cluster {
    fn clone(&self) -> (copy: Self)
        ensures
            copy.deep_view() == self.deep_view(),
    {
        let copy = Cluster {
            name: self.name.clone(),
            teleport: self.teleport.clone(),
            clustername: self.clustername.clone(),
            regions: clone_strings(&self.regions),
        };
        copy
    }
}

/// The global configuration.
#[derive(Debug, PartialEq, Eq)]
pub struct Config {
    /// The team directory.
    pub teams: Vec<Team>,
    /// The names of the regions that exist.
    pub regions: Vec<String>,
    /// The clusters that exist.
    pub clusters: Vec<Cluster>,
}

/// The content of [`Config`], as a mathematical value.
pub struct ConfigView {
    pub teams: Seq<TeamView>,
    pub regions: Seq<Seq<char>>,
    pub clusters: Seq<ClusterView>,
}

impl DeepView for Config {
    type V = ConfigView;

    open spec fn deep_view(&self) -> ConfigView {
        ConfigView {
            teams: self.teams.deep_view(),
            regions: self.regions.deep_view(),
            clusters: self.clusters.deep_view(),
        }
    }
}

impl Clone for Config {
    fn clone(&self) -> (copy: Self)
        ensures
            copy.deep_view() == self.deep_view(),
    {
        let copy = Config {
            teams: self.teams.clone(),
            regions: clone_strings(&self.regions),
            clusters: self.clusters.clone(),
        };
        proof {
            assert(copy.teams.deep_view() =~= self.teams.deep_view());
            assert(copy.clusters.deep_view() =~= self.clusters.deep_view());
        }
        copy
    }
}

/// Who owns a service and where it lives.
#[derive(Debug, PartialEq, Eq)]
pub struct Metadata {
    /// The owning team, by its name in the team directory.
    pub team: String,
    /// The source repository.
    pub repo: String,
    /// Where support requests go.
    pub support: Option<String>,
    /// Where notifications go.
    pub notifications: Option<String>,
}

/// The content of [`Metadata`], as a mathematical value.
pub struct MetadataView {
    pub team: Seq<char>,
    pub repo: Seq<char>,
    pub support: Option<Seq<char>>,
    pub notifications: Option<Seq<char>>,
}

impl DeepView for Metadata {
    type V = MetadataView;

    open spec fn deep_view(&self) -> MetadataView {
        MetadataView {
            team: self.team.deep_view(),
            repo: self.repo.deep_view(),
            support: self.support.deep_view(),
            notifications: self.notifications.deep_view(),
        }
    }
}

impl Clone for Metadata {
    fn clone(&self) -> (copy: Self)
        ensures
            copy.deep_view() == self.deep_view(),
    {
        let copy = Metadata {
            team: self.team.clone(),
            repo: self.repo.clone(),
            support: self.support.clone(),
            notifications: self.notifications.clone(),
        };
        copy
    }
}

impl MetadataView {
    /// The members of the JSON object that stands for this value. A field that
    /// is unset has no member.
    pub open spec fn doc(self) -> Map<Seq<char>, JsonDoc> {
        let fields = no_fields();
        let fields = fields.insert("team"@, JsonDoc::Text(self.team));
        let fields = fields.insert("repo"@, JsonDoc::Text(self.repo));
        let fields = with_text(fields, "support"@, self.support);
        let fields = with_text(fields, "notifications"@, self.notifications);
        fields
    }
}

impl Metadata {
    /// The JSON object that stands for this value.
    pub fn to_json(&self) -> (object: JsonObject)
        ensures
            object_fields(object) == self.deep_view().doc(),
    {
        let mut object = object_new();
        object_put_text(&mut object, "team", self.team.as_str());
        object_put_text(&mut object, "repo", self.repo.as_str());
        put_opt_text(&mut object, "support", &self.support);
        put_opt_text(&mut object, "notifications", &self.notifications);
        object
    }
}

/// One field held in a data store.
#[derive(Debug, PartialEq, Eq)]
pub struct DataField {
    pub name: String,
    /// Whether the field is encrypted; inherited from the store when unset.
    pub encrypted: Option<bool>,
    /// How long the field is kept; inherited from the store when unset.
    pub retention_period: Option<String>,
}

/// The content of [`DataField`], as a mathematical value.
pub struct DataFieldView {
    pub name: Seq<char>,
    pub encrypted: Option<bool>,
    pub retention_period: Option<Seq<char>>,
}

impl DeepView for DataField {
    type V = DataFieldView;

    open spec fn deep_view(&self) -> DataFieldView {
        DataFieldView {
            name: self.name.deep_view(),
            encrypted: self.encrypted.deep_view(),
            retention_period: self.retention_period.deep_view(),
        }
    }
}

impl Clone for DataField {
    fn clone(&self) -> (copy: Self)
        ensures
            copy.deep_view() == self.deep_view(),
    {
        let copy = DataField {
            name: self.name.clone(),
            encrypted: self.encrypted,
            retention_period: self.retention_period.clone(),
        };
        copy
    }
}

impl DataFieldView {
    /// The members of the JSON object that stands for this value. A field that
    /// is unset has no member.
    pub open spec fn doc(self) -> Map<Seq<char>, JsonDoc> {
        let fields = no_fields();
        let fields = fields.insert("name"@, JsonDoc::Text(self.name));
        let fields = with_bool(fields, "encrypted"@, self.encrypted);
        let fields = with_text(fields, "retentionPeriod"@, self.retention_period);
        fields
    }

    /// A list of such values as a JSON document.
    pub open spec fn list_doc(list: Seq<DataFieldView>) -> JsonDoc {
        JsonDoc::List(list.map_values(|item: DataFieldView| JsonDoc::Object(item.doc())))
    }
}

impl DataField {
    /// The JSON object that stands for this value.
    pub fn to_json(&self) -> (object: JsonObject)
        ensures
            object_fields(object) == self.deep_view().doc(),
    {
        let mut object = object_new();
        object_put_text(&mut object, "name", self.name.as_str());
        put_opt_bool(&mut object, "encrypted", &self.encrypted);
        put_opt_text(&mut object, "retentionPeriod", &self.retention_period);
        object
    }

    /// The JSON objects that stand for a list of such values, in order.
    pub fn list_to_json(list: &Vec<DataField>) -> (objects: Vec<JsonObject>)
        ensures
            objects_doc(objects@) == DataFieldView::list_doc(list.deep_view()),
    {
        let mut objects: Vec<JsonObject> = Vec::new();
        let mut i: usize = 0;
        while i < list.len()
            invariant
                i <= list.len(),
                objects.len() == i,
                forall|j: int|
                    0 <= j < i ==> object_fields(#[trigger] objects@[j]) == list.deep_view()[j].doc(),
            decreases list.len() - i,
        {
            objects.push(list[i].to_json());
            i = i + 1;
        }
        assert(objects@.map_values(|item: JsonObject| JsonDoc::Object(object_fields(item)))
            =~= list.deep_view().map_values(|item: DataFieldView| JsonDoc::Object(item.doc())));
        objects
    }
}

/// A place where a service keeps data.
#[derive(Debug, PartialEq, Eq)]
pub struct DataStore {
    pub backend: String,
    pub encrypted: Option<bool>,
    pub retention_period: Option<String>,
    pub fields: Vec<DataField>,
}

/// The content of [`DataStore`], as a mathematical value.
pub struct DataStoreView {
    pub backend: Seq<char>,
    pub encrypted: Option<bool>,
    pub retention_period: Option<Seq<char>>,
    pub fields: Seq<DataFieldView>,
}

impl DeepView for DataStore {
    type V = DataStoreView;

    open spec fn deep_view(&self) -> DataStoreView {
        DataStoreView {
            backend: self.backend.deep_view(),
            encrypted: self.encrypted.deep_view(),
            retention_period: self.retention_period.deep_view(),
            fields: self.fields.deep_view(),
        }
    }
}

impl Clone for DataStore {
    fn clone(&self) -> (copy: Self)
        ensures
            copy.deep_view() == self.deep_view(),
    {
        let copy = DataStore {
            backend: self.backend.clone(),
            encrypted: self.encrypted,
            retention_period: self.retention_period.clone(),
            fields: self.fields.clone(),
        };
        proof {
            assert(copy.fields.deep_view() =~= self.fields.deep_view());
        }
        copy
    }
}

impl DataStoreView {
    /// The members of the JSON object that stands for this value. A field that
    /// is unset has no member.
    pub open spec fn doc(self) -> Map<Seq<char>, JsonDoc> {
        let fields = no_fields();
        let fields = fields.insert("backend"@, JsonDoc::Text(self.backend));
        let fields = with_bool(fields, "encrypted"@, self.encrypted);
        let fields = with_text(fields, "retentionPeriod"@, self.retention_period);
        let fields = fields.insert("fields"@, DataFieldView::list_doc(self.fields));
        fields
    }

    /// A list of such values as a JSON document.
    pub open spec fn list_doc(list: Seq<DataStoreView>) -> JsonDoc {
        JsonDoc::List(list.map_values(|item: DataStoreView| JsonDoc::Object(item.doc())))
    }
}

impl DataStore {
    /// The JSON object that stands for this value.
    pub fn to_json(&self) -> (object: JsonObject)
        ensures
            object_fields(object) == self.deep_view().doc(),
    {
        let mut object = object_new();
        object_put_text(&mut object, "backend", self.backend.as_str());
        put_opt_bool(&mut object, "encrypted", &self.encrypted);
        put_opt_text(&mut object, "retentionPeriod", &self.retention_period);
        object_put_list(&mut object, "fields", DataField::list_to_json(&self.fields));
        object
    }

    /// The JSON objects that stand for a list of such values, in order.
    pub fn list_to_json(list: &Vec<DataStore>) -> (objects: Vec<JsonObject>)
        ensures
            objects_doc(objects@) == DataStoreView::list_doc(list.deep_view()),
    {
        let mut objects: Vec<JsonObject> = Vec::new();
        let mut i: usize = 0;
        while i < list.len()
            invariant
                i <= list.len(),
                objects.len() == i,
                forall|j: int|
                    0 <= j < i ==> object_fields(#[trigger] objects@[j]) == list.deep_view()[j].doc(),
            decreases list.len() - i,
        {
            objects.push(list[i].to_json());
            i = i + 1;
        }
        assert(objects@.map_values(|item: JsonObject| JsonDoc::Object(object_fields(item)))
            =~= list.deep_view().map_values(|item: DataStoreView| JsonDoc::Object(item.doc())));
        objects
    }
}

/// How a service classifies the data it handles.
#[derive(Debug, PartialEq, Eq)]
pub struct DataHandling {
    pub stores: Vec<DataStore>,
}

/// The content of [`DataHandling`], as a mathematical value.
pub struct DataHandlingView {
    pub stores: Seq<DataStoreView>,
}

impl DeepView for DataHandling {
    type V = DataHandlingView;

    open spec fn deep_view(&self) -> DataHandlingView {
        DataHandlingView {
            stores: self.stores.deep_view(),
        }
    }
}

impl Clone for DataHandling {
    fn clone(&self) -> (copy: Self)
        ensures
            copy.deep_view() == self.deep_view(),
    {
        let copy = DataHandling {
            stores: self.stores.clone(),
        };
        proof {
            assert(copy.stores.deep_view() =~= self.stores.deep_view());
        }
        copy
    }
}

impl DataHandlingView {
    /// The members of the JSON object that stands for this value. A field that
    /// is unset has no member.
    pub open spec fn doc(self) -> Map<Seq<char>, JsonDoc> {
        let fields = no_fields();
        let fields = fields.insert("stores"@, DataStoreView::list_doc(self.stores));
        fields
    }
}

impl DataHandling {
    /// The JSON object that stands for this value.
    pub fn to_json(&self) -> (object: JsonObject)
        ensures
            object_fields(object) == self.deep_view().doc(),
    {
        let mut object = object_new();
        object_put_list(&mut object, "stores", DataStore::list_to_json(&self.stores));
        object
    }
}

/// The streaming cluster of a region.
#[derive(Debug, PartialEq, Eq)]
pub struct KafkaConfig {
    pub brokers: Vec<String>,
    pub zk: Vec<String>,
}

/// The content of [`KafkaConfig`], as a mathematical value.
pub struct KafkaConfigView {
    pub brokers: Seq<Seq<char>>,
    pub zk: Seq<Seq<char>>,
}

impl DeepView for KafkaConfig {
    type V = KafkaConfigView;

    open spec fn deep_view(&self) -> KafkaConfigView {
        KafkaConfigView {
            brokers: self.brokers.deep_view(),
            zk: self.zk.deep_view(),
        }
    }
}

impl Clone for KafkaConfig {
    fn clone(&self) -> (copy: Self)
        ensures
            copy.deep_view() == self.deep_view(),
    {
        let copy = KafkaConfig {
            brokers: clone_strings(&self.brokers),
            zk: clone_strings(&self.zk),
        };
        copy
    }
}

/// How a service reaches the streaming cluster.
#[derive(Debug, PartialEq, Eq)]
pub struct Kafka {
    pub mount_pod_ip: bool,
    /// The identity the service connects with; the service name when unset.
    pub client_id: Option<String>,
    /// The brokers to connect to; those of the region when empty.
    pub brokers: Vec<String>,
    /// The coordination hosts; those of the region when empty.
    pub zk: Vec<String>,
}

/// The content of [`Kafka`], as a mathematical value.
pub struct KafkaView {
    pub mount_pod_ip: bool,
    pub client_id: Option<Seq<char>>,
    pub brokers: Seq<Seq<char>>,
    pub zk: Seq<Seq<char>>,
}

impl DeepView for Kafka {
    type V = KafkaView;

    open spec fn deep_view(&self) -> KafkaView {
        KafkaView {
            mount_pod_ip: self.mount_pod_ip.deep_view(),
            client_id: self.client_id.deep_view(),
            brokers: self.brokers.deep_view(),
            zk: self.zk.deep_view(),
        }
    }
}

impl Clone for Kafka {
    fn clone(&self) -> (copy: Self)
        ensures
            copy.deep_view() == self.deep_view(),
    {
        let copy = Kafka {
            mount_pod_ip: self.mount_pod_ip,
            client_id: self.client_id.clone(),
            brokers: clone_strings(&self.brokers),
            zk: clone_strings(&self.zk),
        };
        copy
    }
}

impl KafkaView {
    /// The members of the JSON object that stands for this value. A field that
    /// is unset has no member.
    pub open spec fn doc(self) -> Map<Seq<char>, JsonDoc> {
        let fields = no_fields();
        let fields = fields.insert("mountPodIp"@, JsonDoc::Bool(self.mount_pod_ip));
        let fields = with_text(fields, "clientId"@, self.client_id);
        let fields = fields.insert("brokers"@, text_list_doc(self.brokers));
        let fields = fields.insert("zk"@, text_list_doc(self.zk));
        fields
    }
}

impl Kafka {
    /// The JSON object that stands for this value.
    pub fn to_json(&self) -> (object: JsonObject)
        ensures
            object_fields(object) == self.deep_view().doc(),
    {
        let mut object = object_new();
        object_put_bool(&mut object, "mountPodIp", self.mount_pod_ip);
        put_opt_text(&mut object, "clientId", &self.client_id);
        object_put_texts(&mut object, "brokers", &self.brokers);
        object_put_texts(&mut object, "zk", &self.zk);
        object
    }
}

/// A configuration file to mount.
#[derive(Debug, PartialEq, Eq)]
pub struct ConfigMappedFile {
    /// The name of the template the content comes from.
    pub name: String,
    /// The file name under the mount point.
    pub dest: String,
    /// The content, once it has been read.
    pub value: Option<String>,
}

/// The content of [`ConfigMappedFile`], as a mathematical value.
pub struct ConfigMappedFileView {
    pub name: Seq<char>,
    pub dest: Seq<char>,
    pub value: Option<Seq<char>>,
}

impl DeepView for ConfigMappedFile {
    type V = ConfigMappedFileView;

    open spec fn deep_view(&self) -> ConfigMappedFileView {
        ConfigMappedFileView {
            name: self.name.deep_view(),
            dest: self.dest.deep_view(),
            value: self.value.deep_view(),
        }
    }
}

impl Clone for ConfigMappedFile {
    fn clone(&self) -> (copy: Self)
        ensures
            copy.deep_view() == self.deep_view(),
    {
        let copy = ConfigMappedFile {
            name: self.name.clone(),
            dest: self.dest.clone(),
            value: self.value.clone(),
        };
        copy
    }
}

impl ConfigMappedFileView {
    /// The members of the JSON object that stands for this value. A field that
    /// is unset has no member.
    pub open spec fn doc(self) -> Map<Seq<char>, JsonDoc> {
        let fields = no_fields();
        let fields = fields.insert("name"@, JsonDoc::Text(self.name));
        let fields = fields.insert("dest"@, JsonDoc::Text(self.dest));
        let fields = with_text(fields, "value"@, self.value);
        fields
    }

    /// A list of such values as a JSON document.
    pub open spec fn list_doc(list: Seq<ConfigMappedFileView>) -> JsonDoc {
        JsonDoc::List(list.map_values(|item: ConfigMappedFileView| JsonDoc::Object(item.doc())))
    }
}

impl ConfigMappedFile {
    /// The JSON object that stands for this value.
    pub fn to_json(&self) -> (object: JsonObject)
        ensures
            object_fields(object) == self.deep_view().doc(),
    {
        let mut object = object_new();
        object_put_text(&mut object, "name", self.name.as_str());
        object_put_text(&mut object, "dest", self.dest.as_str());
        put_opt_text(&mut object, "value", &self.value);
        object
    }

    /// The JSON objects that stand for a list of such values, in order.
    pub fn list_to_json(list: &Vec<ConfigMappedFile>) -> (objects: Vec<JsonObject>)
        ensures
            objects_doc(objects@) == ConfigMappedFileView::list_doc(list.deep_view()),
    {
        let mut objects: Vec<JsonObject> = Vec::new();
        let mut i: usize = 0;
        while i < list.len()
            invariant
                i <= list.len(),
                objects.len() == i,
                forall|j: int|
                    0 <= j < i ==> object_fields(#[trigger] objects@[j]) == list.deep_view()[j].doc(),
            decreases list.len() - i,
        {
            objects.push(list[i].to_json());
            i = i + 1;
        }
        assert(objects@.map_values(|item: JsonObject| JsonDoc::Object(object_fields(item)))
            =~= list.deep_view().map_values(|item: ConfigMappedFileView| JsonDoc::Object(item.doc())));
        objects
    }
}

/// The configuration files of a service.
#[derive(Debug, PartialEq, Eq)]
pub struct ConfigMap {
    pub name: Option<String>,
    /// The directory the files are mounted under.
    pub mount: String,
    pub files: Vec<ConfigMappedFile>,
}

/// The content of [`ConfigMap`], as a mathematical value.
pub struct ConfigMapView {
    pub name: Option<Seq<char>>,
    pub mount: Seq<char>,
    pub files: Seq<ConfigMappedFileView>,
}

impl DeepView for ConfigMap {
    type V = ConfigMapView;

    open spec fn deep_view(&self) -> ConfigMapView {
        ConfigMapView {
            name: self.name.deep_view(),
            mount: self.mount.deep_view(),
            files: self.files.deep_view(),
        }
    }
}

impl Clone for ConfigMap {
    fn clone(&self) -> (copy: Self)
        ensures
            copy.deep_view() == self.deep_view(),
    {
        let copy = ConfigMap {
            name: self.name.clone(),
            mount: self.mount.clone(),
            files: self.files.clone(),
        };
        proof {
            assert(copy.files.deep_view() =~= self.files.deep_view());
        }
        copy
    }
}

impl ConfigMapView {
    /// The members of the JSON object that stands for this value. A field that
    /// is unset has no member.
    pub open spec fn doc(self) -> Map<Seq<char>, JsonDoc> {
        let fields = no_fields();
        let fields = with_text(fields, "name"@, self.name);
        let fields = fields.insert("mount"@, JsonDoc::Text(self.mount));
        let fields = fields.insert("files"@, ConfigMappedFileView::list_doc(self.files));
        fields
    }
}

impl ConfigMap {
    /// The JSON object that stands for this value.
    pub fn to_json(&self) -> (object: JsonObject)
        ensures
            object_fields(object) == self.deep_view().doc(),
    {
        let mut object = object_new();
        put_opt_text(&mut object, "name", &self.name);
        object_put_text(&mut object, "mount", self.mount.as_str());
        object_put_list(&mut object, "files", ConfigMappedFile::list_to_json(&self.files));
        object
    }
}

/// A named port.
#[derive(Debug, PartialEq, Eq)]
pub struct Port {
    pub name: String,
    pub port: u32,
}

/// The content of [`Port`], as a mathematical value.
pub struct PortView {
    pub name: Seq<char>,
    pub port: u32,
}

impl DeepView for Port {
    type V = PortView;

    open spec fn deep_view(&self) -> PortView {
        PortView {
            name: self.name.deep_view(),
            port: self.port.deep_view(),
        }
    }
}

impl Clone for Port {
    fn clone(&self) -> (copy: Self)
        ensures
            copy.deep_view() == self.deep_view(),
    {
        let copy = Port {
            name: self.name.clone(),
            port: self.port,
        };
        copy
    }
}

impl PortView {
    /// The members of the JSON object that stands for this value. A field that
    /// is unset has no member.
    pub open spec fn doc(self) -> Map<Seq<char>, JsonDoc> {
        let fields = no_fields();
        let fields = fields.insert("name"@, JsonDoc::Text(self.name));
        let fields = fields.insert("port"@, JsonDoc::Number(self.port as int));
        fields
    }

    /// A list of such values as a JSON document.
    pub open spec fn list_doc(list: Seq<PortView>) -> JsonDoc {
        JsonDoc::List(list.map_values(|item: PortView| JsonDoc::Object(item.doc())))
    }
}

impl Port {
    /// The JSON object that stands for this value.
    pub fn to_json(&self) -> (object: JsonObject)
        ensures
            object_fields(object) == self.deep_view().doc(),
    {
        let mut object = object_new();
        object_put_text(&mut object, "name", self.name.as_str());
        object_put_number(&mut object, "port", self.port);
        object
    }

    /// The JSON objects that stand for a list of such values, in order.
    pub fn list_to_json(list: &Vec<Port>) -> (objects: Vec<JsonObject>)
        ensures
            objects_doc(objects@) == PortView::list_doc(list.deep_view()),
    {
        let mut objects: Vec<JsonObject> = Vec::new();
        let mut i: usize = 0;
        while i < list.len()
            invariant
                i <= list.len(),
                objects.len() == i,
                forall|j: int|
                    0 <= j < i ==> object_fields(#[trigger] objects@[j]) == list.deep_view()[j].doc(),
            decreases list.len() - i,
        {
            objects.push(list[i].to_json());
            i = i + 1;
        }
        assert(objects@.map_values(|item: JsonObject| JsonDoc::Object(object_fields(item)))
            =~= list.deep_view().map_values(|item: PortView| JsonDoc::Object(item.doc())));
        objects
    }
}

/// How to ask a service whether it is healthy.
#[derive(Debug, PartialEq, Eq)]
pub struct HealthCheck {
    pub uri: String,
    /// Seconds to wait before the first check.
    pub wait: u32,
}

/// The content of [`HealthCheck`], as a mathematical value.
pub struct HealthCheckView {
    pub uri: Seq<char>,
    pub wait: u32,
}

impl DeepView for HealthCheck {
    type V = HealthCheckView;

    open spec fn deep_view(&self) -> HealthCheckView {
        HealthCheckView {
            uri: self.uri.deep_view(),
            wait: self.wait.deep_view(),
        }
    }
}

impl Clone for HealthCheck {
    fn clone(&self) -> (copy: Self)
        ensures
            copy.deep_view() == self.deep_view(),
    {
        let copy = HealthCheck {
            uri: self.uri.clone(),
            wait: self.wait,
        };
        copy
    }
}

impl HealthCheckView {
    /// The members of the JSON object that stands for this value. A field that
    /// is unset has no member.
    pub open spec fn doc(self) -> Map<Seq<char>, JsonDoc> {
        let fields = no_fields();
        let fields = fields.insert("uri"@, JsonDoc::Text(self.uri));
        let fields = fields.insert("wait"@, JsonDoc::Number(self.wait as int));
        fields
    }
}

impl HealthCheck {
    /// The JSON object that stands for this value.
    pub fn to_json(&self) -> (object: JsonObject)
        ensures
            object_fields(object) == self.deep_view().doc(),
    {
        let mut object = object_new();
        object_put_text(&mut object, "uri", self.uri.as_str());
        object_put_number(&mut object, "wait", self.wait);
        object
    }
}

/// A service that this one calls.
#[derive(Debug, PartialEq, Eq)]
pub struct Dependency {
    pub name: String,
    pub api: Option<String>,
}

/// The content of [`Dependency`], as a mathematical value.
pub struct DependencyView {
    pub name: Seq<char>,
    pub api: Option<Seq<char>>,
}

impl DeepView for Dependency {
    type V = DependencyView;

    open spec fn deep_view(&self) -> DependencyView {
        DependencyView {
            name: self.name.deep_view(),
            api: self.api.deep_view(),
        }
    }
}

impl Clone for Dependency {
    fn clone(&self) -> (copy: Self)
        ensures
            copy.deep_view() == self.deep_view(),
    {
        let copy = Dependency {
            name: self.name.clone(),
            api: self.api.clone(),
        };
        copy
    }
}

impl DependencyView {
    /// The members of the JSON object that stands for this value. A field that
    /// is unset has no member.
    pub open spec fn doc(self) -> Map<Seq<char>, JsonDoc> {
        let fields = no_fields();
        let fields = fields.insert("name"@, JsonDoc::Text(self.name));
        let fields = with_text(fields, "api"@, self.api);
        fields
    }

    /// A list of such values as a JSON document.
    pub open spec fn list_doc(list: Seq<DependencyView>) -> JsonDoc {
        JsonDoc::List(list.map_values(|item: DependencyView| JsonDoc::Object(item.doc())))
    }
}

impl Dependency {
    /// The JSON object that stands for this value.
    pub fn to_json(&self) -> (object: JsonObject)
        ensures
            object_fields(object) == self.deep_view().doc(),
    {
        let mut object = object_new();
        object_put_text(&mut object, "name", self.name.as_str());
        put_opt_text(&mut object, "api", &self.api);
        object
    }

    /// The JSON objects that stand for a list of such values, in order.
    pub fn list_to_json(list: &Vec<Dependency>) -> (objects: Vec<JsonObject>)
        ensures
            objects_doc(objects@) == DependencyView::list_doc(list.deep_view()),
    {
        let mut objects: Vec<JsonObject> = Vec::new();
        let mut i: usize = 0;
        while i < list.len()
            invariant
                i <= list.len(),
                objects.len() == i,
                forall|j: int|
                    0 <= j < i ==> object_fields(#[trigger] objects@[j]) == list.deep_view()[j].doc(),
            decreases list.len() - i,
        {
            objects.push(list[i].to_json());
            i = i + 1;
        }
        assert(objects@.map_values(|item: JsonObject| JsonDoc::Object(object_fields(item)))
            =~= list.deep_view().map_values(|item: DependencyView| JsonDoc::Object(item.doc())));
        objects
    }
}

/// The scaling policy.
#[derive(Debug, PartialEq, Eq)]
pub struct AutoScaling {
    pub min_replicas: u32,
    pub max_replicas: u32,
}

/// The content of [`AutoScaling`], as a mathematical value.
pub struct AutoScalingView {
    pub min_replicas: u32,
    pub max_replicas: u32,
}

impl DeepView for AutoScaling {
    type V = AutoScalingView;

    open spec fn deep_view(&self) -> AutoScalingView {
        AutoScalingView {
            min_replicas: self.min_replicas.deep_view(),
            max_replicas: self.max_replicas.deep_view(),
        }
    }
}

impl Clone for AutoScaling {
    fn clone(&self) -> (copy: Self)
        ensures
            copy.deep_view() == self.deep_view(),
    {
        let copy = AutoScaling {
            min_replicas: self.min_replicas,
            max_replicas: self.max_replicas,
        };
        copy
    }
}

impl AutoScalingView {
    /// The members of the JSON object that stands for this value. A field that
    /// is unset has no member.
    pub open spec fn doc(self) -> Map<Seq<char>, JsonDoc> {
        let fields = no_fields();
        let fields = fields.insert("minReplicas"@, JsonDoc::Number(self.min_replicas as int));
        let fields = fields.insert("maxReplicas"@, JsonDoc::Number(self.max_replicas as int));
        fields
    }
}

impl AutoScaling {
    /// The JSON object that stands for this value.
    pub fn to_json(&self) -> (object: JsonObject)
        ensures
            object_fields(object) == self.deep_view().doc(),
    {
        let mut object = object_new();
        object_put_number(&mut object, "minReplicas", self.min_replicas);
        object_put_number(&mut object, "maxReplicas", self.max_replicas);
        object
    }
}

/// The compute resources a service asks for.
#[derive(Debug, PartialEq, Eq)]
pub struct ResourceRequirements {
    pub requests_cpu: String,
    pub requests_memory: String,
    pub limits_cpu: String,
    pub limits_memory: String,
}

/// The content of [`ResourceRequirements`], as a mathematical value.
pub struct ResourceRequirementsView {
    pub requests_cpu: Seq<char>,
    pub requests_memory: Seq<char>,
    pub limits_cpu: Seq<char>,
    pub limits_memory: Seq<char>,
}

impl DeepView for ResourceRequirements {
    type V = ResourceRequirementsView;

    open spec fn deep_view(&self) -> ResourceRequirementsView {
        ResourceRequirementsView {
            requests_cpu: self.requests_cpu.deep_view(),
            requests_memory: self.requests_memory.deep_view(),
            limits_cpu: self.limits_cpu.deep_view(),
            limits_memory: self.limits_memory.deep_view(),
        }
    }
}

impl Clone for ResourceRequirements {
    fn clone(&self) -> (copy: Self)
        ensures
            copy.deep_view() == self.deep_view(),
    {
        let copy = ResourceRequirements {
            requests_cpu: self.requests_cpu.clone(),
            requests_memory: self.requests_memory.clone(),
            limits_cpu: self.limits_cpu.clone(),
            limits_memory: self.limits_memory.clone(),
        };
        copy
    }
}

impl ResourceRequirementsView {
    /// The members of the JSON object that stands for this value. A field that
    /// is unset has no member.
    pub open spec fn doc(self) -> Map<Seq<char>, JsonDoc> {
        let fields = no_fields();
        let fields = fields.insert("requestsCpu"@, JsonDoc::Text(self.requests_cpu));
        let fields = fields.insert("requestsMemory"@, JsonDoc::Text(self.requests_memory));
        let fields = fields.insert("limitsCpu"@, JsonDoc::Text(self.limits_cpu));
        let fields = fields.insert("limitsMemory"@, JsonDoc::Text(self.limits_memory));
        fields
    }
}

impl ResourceRequirements {
    /// The JSON object that stands for this value.
    pub fn to_json(&self) -> (object: JsonObject)
        ensures
            object_fields(object) == self.deep_view().doc(),
    {
        let mut object = object_new();
        object_put_text(&mut object, "requestsCpu", self.requests_cpu.as_str());
        object_put_text(&mut object, "requestsMemory", self.requests_memory.as_str());
        object_put_text(&mut object, "limitsCpu", self.limits_cpu.as_str());
        object_put_text(&mut object, "limitsMemory", self.limits_memory.as_str());
        object
    }
}

/// A region: one environment in one place.
#[derive(Debug, PartialEq, Eq)]
pub struct Region {
    pub name: String,
    pub namespace: String,
    pub environment: String,
    pub cluster: String,
    pub kong: KongConfig,
    pub kafka: KafkaConfig,
}

/// The content of [`Region`], as a mathematical value.
pub struct RegionView {
    pub name: Seq<char>,
    pub namespace: Seq<char>,
    pub environment: Seq<char>,
    pub cluster: Seq<char>,
    pub kong: KongConfigView,
    pub kafka: KafkaConfigView,
}

impl DeepView for Region {
    type V = RegionView;

    open spec fn deep_view(&self) -> RegionView {
        RegionView {
            name: self.name.deep_view(),
            namespace: self.namespace.deep_view(),
            environment: self.environment.deep_view(),
            cluster: self.cluster.deep_view(),
            kong: self.kong.deep_view(),
            kafka: self.kafka.deep_view(),
        }
    }
}

/// A field of a store with what it inherits from the store: an unset
/// property of the field takes the store's value.
pub open spec fn filled_field(field: DataFieldView, store: DataStoreView) -> DataFieldView {
    DataFieldView {
        name: field.name,
        encrypted: merged_option(store.encrypted, field.encrypted),
        retention_period: merged_option(store.retention_period, field.retention_period),
    }
}

/// A store whose fields have inherited what they leave unset.
pub open spec fn filled_store(store: DataStoreView) -> DataStoreView {
    DataStoreView {
        backend: store.backend,
        encrypted: store.encrypted,
        retention_period: store.retention_period,
        fields: store.fields.map_values(|field: DataFieldView| filled_field(field, store)),
    }
}

/// The implicit fill of a data-handling classification.
pub open spec fn filled_data_handling(data: DataHandlingView) -> DataHandlingView {
    DataHandlingView { stores: data.stores.map_values(|store: DataStoreView| filled_store(store)) }
}

/// The implicit fill of a streaming descriptor: the service name stands in
/// for an unset client identity, and the region's hosts for an empty list.
pub open spec fn filled_kafka(kafka: KafkaView, service: Seq<char>, region: RegionView) -> KafkaView {
    KafkaView {
        mount_pod_ip: kafka.mount_pod_ip,
        client_id: merged_option(Some(service), kafka.client_id),
        brokers: if kafka.brokers.len() == 0 {
            region.kafka.brokers
        } else {
            kafka.brokers
        },
        zk: if kafka.zk.len() == 0 {
            region.kafka.zk
        } else {
            kafka.zk
        },
    }
}

impl DataStore {
    /// Lets the fields inherit what they leave unset.
    pub fn implicits(&self) -> (filled: DataStore)
        ensures
            filled.deep_view() == filled_store(self.deep_view()),
    {
        let mut fields: Vec<DataField> = Vec::new();
        let mut i: usize = 0;
        while i < self.fields.len()
            invariant
                i <= self.fields.len(),
                fields.deep_view() =~= self.fields.deep_view().take(i as int).map_values(
                    |field: DataFieldView| filled_field(field, self.deep_view()),
                ),
            decreases self.fields.len() - i,
        {
            let ghost before = fields.deep_view();
            let field = &self.fields[i];
            let filled = DataField {
                name: field.name.clone(),
                encrypted: match field.encrypted {
                    Some(b) => Some(b),
                    None => self.encrypted,
                },
                retention_period: match &field.retention_period {
                    Some(p) => Some(p.clone()),
                    None => self.retention_period.clone(),
                },
            };
            fields.push(filled);
            assert(fields.deep_view() =~= before.push(filled.deep_view()));
            i = i + 1;
        }
        assert(self.fields.deep_view().take(i as int) =~= self.fields.deep_view());
        DataStore {
            backend: self.backend.clone(),
            encrypted: self.encrypted,
            retention_period: self.retention_period.clone(),
            fields,
        }
    }
}

impl DataHandling {
    /// Fills in what can be derived: in every store, the fields inherit what
    /// they leave unset. Filling a second time changes nothing.
    pub fn implicits(&self) -> (filled: DataHandling)
        ensures
            filled.deep_view() == filled_data_handling(self.deep_view()),
    {
        let mut stores: Vec<DataStore> = Vec::new();
        let mut i: usize = 0;
        while i < self.stores.len()
            invariant
                i <= self.stores.len(),
                stores.deep_view() =~= self.stores.deep_view().take(i as int).map_values(
                    |store: DataStoreView| filled_store(store),
                ),
            decreases self.stores.len() - i,
        {
            let ghost before = stores.deep_view();
            let filled = self.stores[i].implicits();
            stores.push(filled);
            assert(stores.deep_view() =~= before.push(filled.deep_view()));
            i = i + 1;
        }
        assert(self.stores.deep_view().take(i as int) =~= self.stores.deep_view());
        DataHandling { stores }
    }
}

impl Kafka {
    /// Fills in what can be derived from the service name and the region.
    /// Filling a second time changes nothing.
    pub fn implicits(&self, service: &str, region: &Region) -> (filled: Kafka)
        ensures
            filled.deep_view() == filled_kafka(self.deep_view(), service@, region.deep_view()),
    {
        Kafka {
            mount_pod_ip: self.mount_pod_ip,
            client_id: match &self.client_id {
                Some(id) => Some(id.clone()),
                None => Some(String::from_str(service)),
            },
            brokers: if self.brokers.len() == 0 {
                clone_strings(&region.kafka.brokers)
            } else {
                clone_strings(&self.brokers)
            },
            zk: if self.zk.len() == 0 {
                clone_strings(&region.kafka.zk)
            } else {
                clone_strings(&self.zk)
            },
        }
    }
}

/// Filling a data-handling classification twice is filling it once.
pub proof fn lemma_data_handling_fill_idempotent(data: DataHandlingView)
    ensures
        filled_data_handling(filled_data_handling(data)) == filled_data_handling(data),
{
    let once = filled_data_handling(data);
    let twice = filled_data_handling(once);
    assert forall|i: int| 0 <= i < once.stores.len() implies twice.stores[i] == once.stores[i] by {
        let s = once.stores[i];
        assert(filled_store(s).fields =~= s.fields);
    }
    assert(twice.stores =~= once.stores);
}

/// Filling a streaming descriptor twice is filling it once.
pub proof fn lemma_kafka_fill_idempotent(kafka: KafkaView, service: Seq<char>, region: RegionView)
    ensures
        filled_kafka(filled_kafka(kafka, service, region), service, region) == filled_kafka(
            kafka,
            service,
            region,
        ),
{
}

/// The first team of the directory that has the given name.
pub open spec fn find_team(teams: Seq<TeamView>, name: Seq<char>) -> Option<TeamView>
    decreases teams.len(),
{
    if teams.len() == 0 {
        None
    } else if teams[0].name == name {
        Some(teams[0])
    } else {
        find_team(teams.drop_first(), name)
    }
}

impl Config {
    /// Looks a team up by its exact name.
    pub fn team(&self, name: &str) -> (found: Option<&Team>)
        ensures
            found.deep_view() == find_team(self.deep_view().teams, name@),
    {
        let ghost all = self.deep_view().teams;
        let mut i: usize = 0;
        assert(all.skip(0) =~= all);
        while i < self.teams.len()
            invariant
                i <= self.teams.len(),
                all == self.teams.deep_view(),
                find_team(all, name@) == find_team(all.skip(i as int), name@),
            decreases self.teams.len() - i,
        {
            if same_text(self.teams[i].name.as_str(), name) {
                assert(all.skip(i as int)[0] == all[i as int]);
                return Some(&self.teams[i]);
            }
            assert(all.skip(i as int).drop_first() =~= all.skip(i + 1));
            i = i + 1;
        }
        None
    }
}

} // verus!
