//! Gateway routes: what the layers say of a service's route, and the route
//! descriptor that a merged layer resolves to in a region.

use vstd::prelude::*;
use crate::error::{result_view, ShipcatError, ShipcatErrorView};
use crate::json::{
    json_text, no_fields, object_fields, object_new, object_put_bool, object_put_list,
    object_put_object, object_put_text, object_put_texts, objects_doc, put_opt_text, removed_doc,
    removed_object, text_list_doc, with_doc, with_text, write_json, JsonDoc, JsonObject,
};
use crate::kongfig::{
    apis_view, consumers_view, kongfig_apis, kongfig_consumers, Api, ApiView, Consumer,
    ConsumerView,
};
use crate::manifest::{Manifest, ManifestView};
use crate::merge::{
    merge_option, merge_setting, merged_option, merged_setting, option_precedence,
    setting_precedence, PluginSetting,
};
use crate::plugins::{
    copy_correlation_id, copy_json_cookies_csrf, copy_json_cookies_to_headers, copy_jwt,
    copy_jwt_validator, copy_oauth2, copy_request_transformer, copy_tcp_log, CorrelationIdConfig,
    CorrelationIdConfigView, JsonCookiesCsrfConfig, JsonCookiesCsrfConfigView,
    JsonCookiesToHeadersConfig, JsonCookiesToHeadersConfigView, JwtConfig, JwtConfigView,
    JwtValidatorConfig, JwtValidatorConfigView, Oauth2Config, Oauth2ConfigView,
    RequestTransformerConfig, RequestTransformerConfigView, TcpLogConfig, TcpLogConfigView,
};
use crate::strings::{clone_opt_strings, clone_strings, join2, seq_or_empty};
use crate::structs::{Region, RegionView};

verus! {

/// What one layer says of a service's gateway route.
#[derive(Debug, PartialEq, Eq)]
pub struct KongSource {
    /// Where the route sends requests; derived from the service when unset.
    pub upstream_url: Option<String>,
    /// The path prefix the route answers to.
    pub uris: Option<String>,
    /// Host labels; each is completed with the region's domain.
    pub hosts: Option<Vec<String>>,
    pub strip_uri: Option<bool>,
    pub preserve_host: Option<bool>,
    /// Request-id correlation.
    pub correlation_id: PluginSetting<CorrelationIdConfig>,
    /// Logging.
    pub tcp_log: PluginSetting<TcpLogConfig>,
    /// OAuth2.
    pub oauth2: PluginSetting<Oauth2Config>,
    /// JWT.
    pub jwt: PluginSetting<JwtConfig>,
    /// JWT validation.
    pub jwt_validator: PluginSetting<JwtValidatorConfig>,
    /// Cookie-to-header translation.
    pub json_cookies_to_headers: PluginSetting<JsonCookiesToHeadersConfig>,
    /// Cookie CSRF translation.
    pub json_cookies_csrf: PluginSetting<JsonCookiesCsrfConfig>,
    /// Header transformation.
    pub request_transformer: PluginSetting<RequestTransformerConfig>,
}

/// The content of [`KongSource`], as a mathematical value.
pub struct KongSourceView {
    pub upstream_url: Option<Seq<char>>,
    pub uris: Option<Seq<char>>,
    pub hosts: Option<Seq<Seq<char>>>,
    pub strip_uri: Option<bool>,
    pub preserve_host: Option<bool>,
    pub correlation_id: PluginSetting<CorrelationIdConfigView>,
    pub tcp_log: PluginSetting<TcpLogConfigView>,
    pub oauth2: PluginSetting<Oauth2ConfigView>,
    pub jwt: PluginSetting<JwtConfigView>,
    pub jwt_validator: PluginSetting<JwtValidatorConfigView>,
    pub json_cookies_to_headers: PluginSetting<JsonCookiesToHeadersConfigView>,
    pub json_cookies_csrf: PluginSetting<JsonCookiesCsrfConfigView>,
    pub request_transformer: PluginSetting<RequestTransformerConfigView>,
}

impl DeepView for KongSource {
    type V = KongSourceView;

    open spec fn deep_view(&self) -> KongSourceView {
        KongSourceView {
            upstream_url: self.upstream_url.deep_view(),
            uris: self.uris.deep_view(),
            hosts: self.hosts.deep_view(),
            strip_uri: self.strip_uri.deep_view(),
            preserve_host: self.preserve_host.deep_view(),
            correlation_id: self.correlation_id.deep_view(),
            tcp_log: self.tcp_log.deep_view(),
            oauth2: self.oauth2.deep_view(),
            jwt: self.jwt.deep_view(),
            jwt_validator: self.jwt_validator.deep_view(),
            json_cookies_to_headers: self.json_cookies_to_headers.deep_view(),
            json_cookies_csrf: self.json_cookies_csrf.deep_view(),
            request_transformer: self.request_transformer.deep_view(),
        }
    }
}

impl Clone for KongSource {
    fn clone(&self) -> (copy: Self)
        ensures
            copy.deep_view() == self.deep_view(),
    {
        let copy = KongSource {
            upstream_url: self.upstream_url.clone(),
            uris: self.uris.clone(),
            hosts: clone_opt_strings(&self.hosts),
            strip_uri: self.strip_uri,
            preserve_host: self.preserve_host,
            correlation_id: copy_correlation_id(&self.correlation_id),
            tcp_log: copy_tcp_log(&self.tcp_log),
            oauth2: copy_oauth2(&self.oauth2),
            jwt: copy_jwt(&self.jwt),
            jwt_validator: copy_jwt_validator(&self.jwt_validator),
            json_cookies_to_headers: copy_json_cookies_to_headers(&self.json_cookies_to_headers),
            json_cookies_csrf: copy_json_cookies_csrf(&self.json_cookies_csrf),
            request_transformer: copy_request_transformer(&self.request_transformer),
        };
        copy
    }
}

impl KongSourceView {
    /// The layer in which nothing is set.
    pub open spec fn empty() -> KongSourceView {
        KongSourceView {
            upstream_url: None,
            uris: None,
            hosts: None,
            strip_uri: None,
            preserve_host: None,
            correlation_id: PluginSetting::Unspecified,
            tcp_log: PluginSetting::Unspecified,
            oauth2: PluginSetting::Unspecified,
            jwt: PluginSetting::Unspecified,
            jwt_validator: PluginSetting::Unspecified,
            json_cookies_to_headers: PluginSetting::Unspecified,
            json_cookies_csrf: PluginSetting::Unspecified,
            request_transformer: PluginSetting::Unspecified,
        }
    }

    /// This layer with `over` laid upon it, field by field.
    pub open spec fn merge(self, over: KongSourceView) -> KongSourceView {
        KongSourceView {
            upstream_url: merged_option(self.upstream_url, over.upstream_url),
            uris: merged_option(self.uris, over.uris),
            hosts: merged_option(self.hosts, over.hosts),
            strip_uri: merged_option(self.strip_uri, over.strip_uri),
            preserve_host: merged_option(self.preserve_host, over.preserve_host),
            correlation_id: merged_setting(self.correlation_id, over.correlation_id),
            tcp_log: merged_setting(self.tcp_log, over.tcp_log),
            oauth2: merged_setting(self.oauth2, over.oauth2),
            jwt: merged_setting(self.jwt, over.jwt),
            jwt_validator: merged_setting(self.jwt_validator, over.jwt_validator),
            json_cookies_to_headers: merged_setting(self.json_cookies_to_headers, over.json_cookies_to_headers),
            json_cookies_csrf: merged_setting(self.json_cookies_csrf, over.json_cookies_csrf),
            request_transformer: merged_setting(self.request_transformer, over.request_transformer),
        }
    }
}

impl KongSource {
    /// The layer in which nothing is set.
    pub fn empty() -> (layer: KongSource)
        ensures
            layer.deep_view() == KongSourceView::empty(),
    {
        KongSource {
            upstream_url: None,
            uris: None,
            hosts: None,
            strip_uri: None,
            preserve_host: None,
            correlation_id: PluginSetting::Unspecified,
            tcp_log: PluginSetting::Unspecified,
            oauth2: PluginSetting::Unspecified,
            jwt: PluginSetting::Unspecified,
            jwt_validator: PluginSetting::Unspecified,
            json_cookies_to_headers: PluginSetting::Unspecified,
            json_cookies_csrf: PluginSetting::Unspecified,
            request_transformer: PluginSetting::Unspecified,
        }
    }

    /// Lays `over` upon this layer: what `over` sets wins, what it leaves
    /// unset falls through to this layer.
    pub fn merge(self, over: KongSource) -> (merged: KongSource)
        ensures
            merged.deep_view() == self.deep_view().merge(over.deep_view()),
    {
        KongSource {
            upstream_url: merge_option(self.upstream_url, over.upstream_url),
            uris: merge_option(self.uris, over.uris),
            hosts: merge_option(self.hosts, over.hosts),
            strip_uri: merge_option(self.strip_uri, over.strip_uri),
            preserve_host: merge_option(self.preserve_host, over.preserve_host),
            correlation_id: merge_setting(self.correlation_id, over.correlation_id),
            tcp_log: merge_setting(self.tcp_log, over.tcp_log),
            oauth2: merge_setting(self.oauth2, over.oauth2),
            jwt: merge_setting(self.jwt, over.jwt),
            jwt_validator: merge_setting(self.jwt_validator, over.jwt_validator),
            json_cookies_to_headers: merge_setting(self.json_cookies_to_headers, over.json_cookies_to_headers),
            json_cookies_csrf: merge_setting(self.json_cookies_csrf, over.json_cookies_csrf),
            request_transformer: merge_setting(self.request_transformer, over.request_transformer),
        }
    }
}

impl Default for KongSource {
    fn default() -> (layer: Self)
        ensures
            layer.deep_view() == KongSourceView::empty(),
    {
        KongSource::empty()
    }
}

/// A gateway route descriptor: the route of one service in one region.
#[derive(Debug, PartialEq, Eq)]
pub struct Kong {
    /// The service the route belongs to.
    pub name: String,
    pub upstream_url: String,
    pub uris: Option<String>,
    pub hosts: Vec<String>,
    pub strip_uri: bool,
    pub preserve_host: bool,
    /// Request-id correlation.
    pub correlation_id: PluginSetting<CorrelationIdConfig>,
    /// Logging.
    pub tcp_log: PluginSetting<TcpLogConfig>,
    /// OAuth2.
    pub oauth2: PluginSetting<Oauth2Config>,
    /// JWT.
    pub jwt: PluginSetting<JwtConfig>,
    /// JWT validation.
    pub jwt_validator: PluginSetting<JwtValidatorConfig>,
    /// Cookie-to-header translation.
    pub json_cookies_to_headers: PluginSetting<JsonCookiesToHeadersConfig>,
    /// Cookie CSRF translation.
    pub json_cookies_csrf: PluginSetting<JsonCookiesCsrfConfig>,
    /// Header transformation.
    pub request_transformer: PluginSetting<RequestTransformerConfig>,
}

/// The content of [`Kong`], as a mathematical value.
pub struct KongView {
    pub name: Seq<char>,
    pub upstream_url: Seq<char>,
    pub uris: Option<Seq<char>>,
    pub hosts: Seq<Seq<char>>,
    pub strip_uri: bool,
    pub preserve_host: bool,
    pub correlation_id: PluginSetting<CorrelationIdConfigView>,
    pub tcp_log: PluginSetting<TcpLogConfigView>,
    pub oauth2: PluginSetting<Oauth2ConfigView>,
    pub jwt: PluginSetting<JwtConfigView>,
    pub jwt_validator: PluginSetting<JwtValidatorConfigView>,
    pub json_cookies_to_headers: PluginSetting<JsonCookiesToHeadersConfigView>,
    pub json_cookies_csrf: PluginSetting<JsonCookiesCsrfConfigView>,
    pub request_transformer: PluginSetting<RequestTransformerConfigView>,
}

impl DeepView for Kong {
    type V = KongView;

    open spec fn deep_view(&self) -> KongView {
        KongView {
            name: self.name.deep_view(),
            upstream_url: self.upstream_url.deep_view(),
            uris: self.uris.deep_view(),
            hosts: self.hosts.deep_view(),
            strip_uri: self.strip_uri.deep_view(),
            preserve_host: self.preserve_host.deep_view(),
            correlation_id: self.correlation_id.deep_view(),
            tcp_log: self.tcp_log.deep_view(),
            oauth2: self.oauth2.deep_view(),
            jwt: self.jwt.deep_view(),
            jwt_validator: self.jwt_validator.deep_view(),
            json_cookies_to_headers: self.json_cookies_to_headers.deep_view(),
            json_cookies_csrf: self.json_cookies_csrf.deep_view(),
            request_transformer: self.request_transformer.deep_view(),
        }
    }
}

impl Clone for Kong {
    fn clone(&self) -> (copy: Self)
        ensures
            copy.deep_view() == self.deep_view(),
    {
        let copy = Kong {
            name: self.name.clone(),
            upstream_url: self.upstream_url.clone(),
            uris: self.uris.clone(),
            hosts: clone_strings(&self.hosts),
            strip_uri: self.strip_uri,
            preserve_host: self.preserve_host,
            correlation_id: copy_correlation_id(&self.correlation_id),
            tcp_log: copy_tcp_log(&self.tcp_log),
            oauth2: copy_oauth2(&self.oauth2),
            jwt: copy_jwt(&self.jwt),
            jwt_validator: copy_jwt_validator(&self.jwt_validator),
            json_cookies_to_headers: copy_json_cookies_to_headers(&self.json_cookies_to_headers),
            json_cookies_csrf: copy_json_cookies_csrf(&self.json_cookies_csrf),
            request_transformer: copy_request_transformer(&self.request_transformer),
        };
        copy
    }
}

impl KongView {
    /// The members of the JSON object that stands for a route. A field that
    /// is unset has no member.
    pub open spec fn doc(self) -> Map<Seq<char>, JsonDoc> {
        let fields = no_fields();
        let fields = fields.insert("name"@, JsonDoc::Text(self.name));
        let fields = fields.insert("upstream_url"@, JsonDoc::Text(self.upstream_url));
        let fields = with_text(fields, "uris"@, self.uris);
        let fields = fields.insert("hosts"@, text_list_doc(self.hosts));
        let fields = fields.insert("strip_uri"@, JsonDoc::Bool(self.strip_uri));
        let fields = fields.insert("preserve_host"@, JsonDoc::Bool(self.preserve_host));
        let fields = with_doc(
            fields,
            "correlation_id"@,
            match self.correlation_id {
                PluginSetting::Unspecified => None,
                PluginSetting::Removed => Some(removed_doc()),
                PluginSetting::Present(config) => Some(JsonDoc::Object(config.doc())),
            },
        );
        let fields = with_doc(
            fields,
            "tcp_log"@,
            match self.tcp_log {
                PluginSetting::Unspecified => None,
                PluginSetting::Removed => Some(removed_doc()),
                PluginSetting::Present(config) => Some(JsonDoc::Object(config.doc())),
            },
        );
        let fields = with_doc(
            fields,
            "oauth2"@,
            match self.oauth2 {
                PluginSetting::Unspecified => None,
                PluginSetting::Removed => Some(removed_doc()),
                PluginSetting::Present(config) => Some(JsonDoc::Object(config.doc())),
            },
        );
        let fields = with_doc(
            fields,
            "jwt"@,
            match self.jwt {
                PluginSetting::Unspecified => None,
                PluginSetting::Removed => Some(removed_doc()),
                PluginSetting::Present(config) => Some(JsonDoc::Object(config.doc())),
            },
        );
        let fields = with_doc(
            fields,
            "jwt_validator"@,
            match self.jwt_validator {
                PluginSetting::Unspecified => None,
                PluginSetting::Removed => Some(removed_doc()),
                PluginSetting::Present(config) => Some(JsonDoc::Object(config.doc())),
            },
        );
        let fields = with_doc(
            fields,
            "json_cookies_to_headers"@,
            match self.json_cookies_to_headers {
                PluginSetting::Unspecified => None,
                PluginSetting::Removed => Some(removed_doc()),
                PluginSetting::Present(config) => Some(JsonDoc::Object(config.doc())),
            },
        );
        let fields = with_doc(
            fields,
            "json_cookies_csrf"@,
            match self.json_cookies_csrf {
                PluginSetting::Unspecified => None,
                PluginSetting::Removed => Some(removed_doc()),
                PluginSetting::Present(config) => Some(JsonDoc::Object(config.doc())),
            },
        );
        let fields = with_doc(
            fields,
            "request_transformer"@,
            match self.request_transformer {
                PluginSetting::Unspecified => None,
                PluginSetting::Removed => Some(removed_doc()),
                PluginSetting::Present(config) => Some(JsonDoc::Object(config.doc())),
            },
        );
        fields
    }

    /// A list of such values as a JSON document.
    pub open spec fn list_doc(list: Seq<KongView>) -> JsonDoc {
        JsonDoc::List(list.map_values(|item: KongView| JsonDoc::Object(item.doc())))
    }
}

impl Kong {
    /// The JSON object that stands for a route.
    pub fn to_json(&self) -> (object: JsonObject)
        ensures
            object_fields(object) == self.deep_view().doc(),
    {
        let mut object = object_new();
        let ghost view = self.deep_view();
        let ghost fields = no_fields();
        object_put_text(&mut object, "name", self.name.as_str());
        proof {
            fields = fields.insert("name"@, JsonDoc::Text(view.name));
            assert(object_fields(object) == fields);
        }
        object_put_text(&mut object, "upstream_url", self.upstream_url.as_str());
        proof {
            fields = fields.insert("upstream_url"@, JsonDoc::Text(view.upstream_url));
            assert(object_fields(object) == fields);
        }
        put_opt_text(&mut object, "uris", &self.uris);
        proof {
            fields = with_text(fields, "uris"@, view.uris);
            assert(object_fields(object) == fields);
        }
        object_put_texts(&mut object, "hosts", &self.hosts);
        proof {
            fields = fields.insert("hosts"@, text_list_doc(view.hosts));
            assert(object_fields(object) == fields);
        }
        object_put_bool(&mut object, "strip_uri", self.strip_uri);
        proof {
            fields = fields.insert("strip_uri"@, JsonDoc::Bool(view.strip_uri));
            assert(object_fields(object) == fields);
        }
        object_put_bool(&mut object, "preserve_host", self.preserve_host);
        proof {
            fields = fields.insert("preserve_host"@, JsonDoc::Bool(view.preserve_host));
            assert(object_fields(object) == fields);
        }
        match &self.correlation_id {
            PluginSetting::Unspecified => {},
            PluginSetting::Removed => object_put_object(&mut object, "correlation_id", removed_object()),
            PluginSetting::Present(config) => {
                object_put_object(&mut object, "correlation_id", config.to_json())
            },
        }
        proof {
            fields = with_doc(
                fields,
                "correlation_id"@,
                match view.correlation_id {
                    PluginSetting::Unspecified => None,
                    PluginSetting::Removed => Some(removed_doc()),
                    PluginSetting::Present(config) => Some(JsonDoc::Object(config.doc())),
                },
            );
            assert(object_fields(object) == fields);
        }
        match &self.tcp_log {
            PluginSetting::Unspecified => {},
            PluginSetting::Removed => object_put_object(&mut object, "tcp_log", removed_object()),
            PluginSetting::Present(config) => object_put_object(&mut object, "tcp_log", config.to_json()),
        }
        proof {
            fields = with_doc(
                fields,
                "tcp_log"@,
                match view.tcp_log {
                    PluginSetting::Unspecified => None,
                    PluginSetting::Removed => Some(removed_doc()),
                    PluginSetting::Present(config) => Some(JsonDoc::Object(config.doc())),
                },
            );
            assert(object_fields(object) == fields);
        }
        match &self.oauth2 {
            PluginSetting::Unspecified => {},
            PluginSetting::Removed => object_put_object(&mut object, "oauth2", removed_object()),
            PluginSetting::Present(config) => object_put_object(&mut object, "oauth2", config.to_json()),
        }
        proof {
            fields = with_doc(
                fields,
                "oauth2"@,
                match view.oauth2 {
                    PluginSetting::Unspecified => None,
                    PluginSetting::Removed => Some(removed_doc()),
                    PluginSetting::Present(config) => Some(JsonDoc::Object(config.doc())),
                },
            );
            assert(object_fields(object) == fields);
        }
        match &self.jwt {
            PluginSetting::Unspecified => {},
            PluginSetting::Removed => object_put_object(&mut object, "jwt", removed_object()),
            PluginSetting::Present(config) => object_put_object(&mut object, "jwt", config.to_json()),
        }
        proof {
            fields = with_doc(
                fields,
                "jwt"@,
                match view.jwt {
                    PluginSetting::Unspecified => None,
                    PluginSetting::Removed => Some(removed_doc()),
                    PluginSetting::Present(config) => Some(JsonDoc::Object(config.doc())),
                },
            );
            assert(object_fields(object) == fields);
        }
        match &self.jwt_validator {
            PluginSetting::Unspecified => {},
            PluginSetting::Removed => object_put_object(&mut object, "jwt_validator", removed_object()),
            PluginSetting::Present(config) => {
                object_put_object(&mut object, "jwt_validator", config.to_json())
            },
        }
        proof {
            fields = with_doc(
                fields,
                "jwt_validator"@,
                match view.jwt_validator {
                    PluginSetting::Unspecified => None,
                    PluginSetting::Removed => Some(removed_doc()),
                    PluginSetting::Present(config) => Some(JsonDoc::Object(config.doc())),
                },
            );
            assert(object_fields(object) == fields);
        }
        match &self.json_cookies_to_headers {
            PluginSetting::Unspecified => {},
            PluginSetting::Removed => object_put_object(&mut object, "json_cookies_to_headers", removed_object()),
            PluginSetting::Present(config) => {
                object_put_object(&mut object, "json_cookies_to_headers", config.to_json())
            },
        }
        proof {
            fields = with_doc(
                fields,
                "json_cookies_to_headers"@,
                match view.json_cookies_to_headers {
                    PluginSetting::Unspecified => None,
                    PluginSetting::Removed => Some(removed_doc()),
                    PluginSetting::Present(config) => Some(JsonDoc::Object(config.doc())),
                },
            );
            assert(object_fields(object) == fields);
        }
        match &self.json_cookies_csrf {
            PluginSetting::Unspecified => {},
            PluginSetting::Removed => object_put_object(&mut object, "json_cookies_csrf", removed_object()),
            PluginSetting::Present(config) => {
                object_put_object(&mut object, "json_cookies_csrf", config.to_json())
            },
        }
        proof {
            fields = with_doc(
                fields,
                "json_cookies_csrf"@,
                match view.json_cookies_csrf {
                    PluginSetting::Unspecified => None,
                    PluginSetting::Removed => Some(removed_doc()),
                    PluginSetting::Present(config) => Some(JsonDoc::Object(config.doc())),
                },
            );
            assert(object_fields(object) == fields);
        }
        match &self.request_transformer {
            PluginSetting::Unspecified => {},
            PluginSetting::Removed => object_put_object(&mut object, "request_transformer", removed_object()),
            PluginSetting::Present(config) => {
                object_put_object(&mut object, "request_transformer", config.to_json())
            },
        }
        proof {
            fields = with_doc(
                fields,
                "request_transformer"@,
                match view.request_transformer {
                    PluginSetting::Unspecified => None,
                    PluginSetting::Removed => Some(removed_doc()),
                    PluginSetting::Present(config) => Some(JsonDoc::Object(config.doc())),
                },
            );
            assert(object_fields(object) == fields);
        }
        object
    }

    /// The JSON objects that stand for a list of such values, in order.
    pub fn list_to_json(list: &Vec<Kong>) -> (objects: Vec<JsonObject>)
        ensures
            objects_doc(objects@) == KongView::list_doc(list.deep_view()),
    {
        let mut objects: Vec<JsonObject> = Vec::new();
        let mut i: usize = 0;
        while i < list.len()
            invariant
                i <= list.len(),
                objects.len() == i,
                forall|j: int|
                    0 <= j < i ==> object_fields(#[trigger] objects@[j]) == list.deep_view()[j].doc(),
            decreases list.len() - i,
        {
            objects.push(list[i].to_json());
            i = i + 1;
        }
        assert(objects@.map_values(|item: JsonObject| JsonDoc::Object(object_fields(item)))
            =~= list.deep_view().map_values(|item: KongView| JsonDoc::Object(item.doc())));
        objects
    }
}

/// The OAuth2 client of a consumer.
#[derive(Debug, PartialEq, Eq)]
pub struct OAuth2Source {
    pub client_id: String,
    pub client_secret: String,
}

/// The content of [`OAuth2Source`], as a mathematical value.
pub struct OAuth2SourceView {
    pub client_id: Seq<char>,
    pub client_secret: Seq<char>,
}

impl DeepView for OAuth2Source {
    type V = OAuth2SourceView;

    open spec fn deep_view(&self) -> OAuth2SourceView {
        OAuth2SourceView {
            client_id: self.client_id.deep_view(),
            client_secret: self.client_secret.deep_view(),
        }
    }
}

impl Clone for OAuth2Source {
    fn clone(&self) -> (copy: Self)
        ensures
            copy.deep_view() == self.deep_view(),
    {
        let copy = OAuth2Source {
            client_id: self.client_id.clone(),
            client_secret: self.client_secret.clone(),
        };
        copy
    }
}

/// The JWT issuer of a consumer.
#[derive(Debug, PartialEq, Eq)]
pub struct JwtSource {
    /// The issuer, as the tokens name it.
    pub kid: String,
    pub public_key: String,
}

/// The content of [`JwtSource`], as a mathematical value.
pub struct JwtSourceView {
    pub kid: Seq<char>,
    pub public_key: Seq<char>,
}

impl DeepView for JwtSource {
    type V = JwtSourceView;

    open spec fn deep_view(&self) -> JwtSourceView {
        JwtSourceView {
            kid: self.kid.deep_view(),
            public_key: self.public_key.deep_view(),
        }
    }
}

impl Clone for JwtSource {
    fn clone(&self) -> (copy: Self)
        ensures
            copy.deep_view() == self.deep_view(),
    {
        let copy = JwtSource {
            kid: self.kid.clone(),
            public_key: self.public_key.clone(),
        };
        copy
    }
}

/// An entry of the consumer directory.
#[derive(Debug, PartialEq, Eq)]
pub struct ConsumerSource {
    /// The identity the entry is kept under.
    pub name: String,
    pub oauth2: Option<OAuth2Source>,
    pub jwt: Option<JwtSource>,
}

/// The content of [`ConsumerSource`], as a mathematical value.
pub struct ConsumerSourceView {
    pub name: Seq<char>,
    pub oauth2: Option<OAuth2SourceView>,
    pub jwt: Option<JwtSourceView>,
}

impl DeepView for ConsumerSource {
    type V = ConsumerSourceView;

    open spec fn deep_view(&self) -> ConsumerSourceView {
        ConsumerSourceView {
            name: self.name.deep_view(),
            oauth2: self.oauth2.deep_view(),
            jwt: self.jwt.deep_view(),
        }
    }
}

impl Clone for ConsumerSource {
    fn clone(&self) -> (copy: Self)
        ensures
            copy.deep_view() == self.deep_view(),
    {
        let copy = ConsumerSource {
            name: self.name.clone(),
            oauth2: (match &self.oauth2 {
                Some(inner) => Some(inner.clone()),
                None => None,
            }),
            jwt: (match &self.jwt {
                Some(inner) => Some(inner.clone()),
                None => None,
            }),
        };
        copy
    }
}

/// The gateway of a region.
#[derive(Debug, PartialEq, Eq)]
pub struct KongConfig {
    /// The domain that completes a host label.
    pub base_url: String,
    /// The host of the gateway's admin interface.
    pub config_url: String,
    /// The consumer directory.
    pub consumers: Vec<ConsumerSource>,
}

/// The content of [`KongConfig`], as a mathematical value.
pub struct KongConfigView {
    pub base_url: Seq<char>,
    pub config_url: Seq<char>,
    pub consumers: Seq<ConsumerSourceView>,
}

impl DeepView for KongConfig {
    type V = KongConfigView;

    open spec fn deep_view(&self) -> KongConfigView {
        KongConfigView {
            base_url: self.base_url.deep_view(),
            config_url: self.config_url.deep_view(),
            consumers: self.consumers.deep_view(),
        }
    }
}

impl Clone for KongConfig {
    fn clone(&self) -> (copy: Self)
        ensures
            copy.deep_view() == self.deep_view(),
    {
        let copy = KongConfig {
            base_url: self.base_url.clone(),
            config_url: self.config_url.clone(),
            consumers: self.consumers.clone(),
        };
        proof {
            assert(copy.consumers.deep_view() =~= self.consumers.deep_view());
        }
        copy
    }
}

/// A part of a layer that can be switched on or off as a whole.
#[derive(Debug, PartialEq, Eq)]
pub struct Enabled<T> {
    /// Whether the layer switches the part on or off; unset when it does
    /// neither.
    pub enabled: Option<bool>,
    pub item: T,
}

impl<T: DeepView> DeepView for Enabled<T> {
    type V = Enabled<T::V>;

    open spec fn deep_view(&self) -> Enabled<T::V> {
        Enabled { enabled: self.enabled, item: self.item.deep_view() }
    }
}

impl Enabled<KongSourceView> {
    /// The layer in which nothing is set.
    pub open spec fn empty() -> Enabled<KongSourceView> {
        Enabled { enabled: None, item: KongSourceView::empty() }
    }

    /// This layer with `over` laid upon it, field by field.
    pub open spec fn merge(self, over: Enabled<KongSourceView>) -> Enabled<KongSourceView> {
        Enabled { enabled: merged_option(self.enabled, over.enabled), item: self.item.merge(over.item) }
    }
}

impl Enabled<KongSource> {
    /// The layer in which nothing is set.
    pub fn empty() -> (layer: Enabled<KongSource>)
        ensures
            layer.deep_view() == Enabled::<KongSourceView>::empty(),
    {
        Enabled { enabled: None, item: KongSource::empty() }
    }

    /// Lays `over` upon this layer: what `over` sets wins, what it leaves
    /// unset falls through to this layer.
    pub fn merge(self, over: Enabled<KongSource>) -> (merged: Enabled<KongSource>)
        ensures
            merged.deep_view() == self.deep_view().merge(over.deep_view()),
    {
        Enabled { enabled: merge_option(self.enabled, over.enabled), item: self.item.merge(over.item) }
    }
}

impl Default for Enabled<KongSource> {
    fn default() -> (layer: Self)
        ensures
            layer.deep_view() == Enabled::<KongSourceView>::empty(),
    {
        Enabled::<KongSource>::empty()
    }
}

/// Where a route sends requests when no layer says otherwise: the service
/// in its namespace.
pub open spec fn default_upstream(service: Seq<char>, namespace: Seq<char>) -> Seq<char> {
    "http://"@ + service + "."@ + namespace + ".svc.cluster.local"@
}

/// Each host label completed with the region's domain.
pub open spec fn qualified_hosts(labels: Seq<Seq<char>>, base_url: Seq<char>) -> Seq<Seq<char>> {
    labels.map_values(|label: Seq<char>| label + base_url)
}

/// The virtual hosts of a route: its labels completed with the region's
/// domain, then the hosts that the manifest names in full.
pub open spec fn route_hosts(
    labels: Option<Seq<Seq<char>>>,
    base_url: Seq<char>,
    extra: Option<Seq<Seq<char>>>,
) -> Seq<Seq<char>> {
    qualified_hosts(seq_or_empty(labels), base_url) + seq_or_empty(extra)
}

/// Whether some host label is empty.
pub open spec fn has_empty_label(labels: Option<Seq<Seq<char>>>) -> bool {
    exists|i: int| 0 <= i < seq_or_empty(labels).len() && (#[trigger] seq_or_empty(labels)[i]).len() == 0
}

/// The route descriptor that a merged layer describes for `service` in
/// `region`.
pub open spec fn built_kong(
    source: KongSourceView,
    service: Seq<char>,
    region: RegionView,
    hosts: Option<Seq<Seq<char>>>,
) -> KongView {
    KongView {
        name: service,
        upstream_url: match source.upstream_url {
            Some(url) => url,
            None => default_upstream(service, region.namespace),
        },
        uris: source.uris,
        hosts: route_hosts(source.hosts, region.kong.base_url, hosts),
        strip_uri: source.strip_uri == Some(true),
        preserve_host: source.preserve_host == Some(true),
        correlation_id: source.correlation_id,
        tcp_log: source.tcp_log,
        oauth2: source.oauth2,
        jwt: source.jwt,
        jwt_validator: source.jwt_validator,
        json_cookies_to_headers: source.json_cookies_to_headers,
        json_cookies_csrf: source.json_cookies_csrf,
        request_transformer: source.request_transformer,
    }
}

/// What building the route of a merged layer gives.
///
/// A layer that is switched off has no route. A layer with an empty host
/// label is refused. A layer that matches neither a path nor a host has no
/// route either, unless it is explicitly switched on: then it is refused.
pub open spec fn built_route(
    layer: Enabled<KongSourceView>,
    service: Seq<char>,
    region: RegionView,
    hosts: Option<Seq<Seq<char>>>,
) -> Result<Option<KongView>, ShipcatErrorView> {
    let route = built_kong(layer.item, service, region, hosts);
    if layer.enabled == Some(false) {
        Ok(None)
    } else if has_empty_label(layer.item.hosts) {
        Err(ShipcatErrorView::MalformedHost(service))
    } else if route.uris is None && route.hosts.len() == 0 {
        if layer.enabled == Some(true) {
            Err(ShipcatErrorView::EmptyRoute(service))
        } else {
            Ok(None)
        }
    } else {
        Ok(Some(route))
    }
}

/// The result of building a route, as a mathematical value.
pub open spec fn route_result_view(r: Result<Option<Kong>, ShipcatError>) -> Result<
    Option<KongView>,
    ShipcatErrorView,
> {
    match r {
        Ok(route) => Ok(route.deep_view()),
        Err(e) => Err(e.deep_view()),
    }
}

fn find_empty_label(labels: &Option<Vec<String>>) -> (found: bool)
    ensures
        found == has_empty_label(labels.deep_view()),
{
    match labels {
        None => false,
        Some(list) => {
            let mut i: usize = 0;
            while i < list.len()
                invariant
                    i <= list.len(),
                    seq_or_empty(labels.deep_view()) == list.deep_view(),
                    forall|j: int| 0 <= j < i ==> (#[trigger] list.deep_view()[j]).len() != 0,
                decreases list.len() - i,
            {
                if list[i].as_str().is_empty() {
                    assert(seq_or_empty(labels.deep_view())[i as int].len() == 0);
                    return true;
                }
                i = i + 1;
            }
            false
        },
    }
}

fn build_hosts(labels: &Option<Vec<String>>, base_url: &str, extra: &Option<Vec<String>>) -> (hosts: Vec<String>)
    ensures
        hosts.deep_view() == route_hosts(labels.deep_view(), base_url@, extra.deep_view()),
{
    let mut hosts: Vec<String> = Vec::new();
    assert(hosts.deep_view() =~= Seq::<Seq<char>>::empty());
    match labels {
        Some(list) => {
            let mut i: usize = 0;
            while i < list.len()
                invariant
                    i <= list.len(),
                    hosts.deep_view() =~= qualified_hosts(list.deep_view().take(i as int), base_url@),
                decreases list.len() - i,
            {
                let ghost before = hosts.deep_view();
                let host = join2(list[i].as_str(), base_url);
                hosts.push(host);
                assert(hosts.deep_view() =~= before.push(host@));
                i = i + 1;
            }
            assert(list.deep_view().take(i as int) =~= list.deep_view());
        },
        None => {
            assert(hosts.deep_view() =~= qualified_hosts(Seq::<Seq<char>>::empty(), base_url@));
        },
    }
    let ghost first = hosts.deep_view();
    match extra {
        Some(list) => {
            let mut i: usize = 0;
            while i < list.len()
                invariant
                    i <= list.len(),
                    hosts.deep_view() =~= first + list.deep_view().take(i as int),
                decreases list.len() - i,
            {
                let ghost before = hosts.deep_view();
                let host = list[i].clone();
                hosts.push(host);
                assert(hosts.deep_view() =~= before.push(host@));
                i = i + 1;
            }
            assert(list.deep_view().take(i as int) =~= list.deep_view());
        },
        None => {
            assert(hosts.deep_view() =~= first + Seq::<Seq<char>>::empty());
        },
    }
    hosts
}

impl KongSource {
    /// Builds the route descriptor that this merged layer describes for
    /// `service` in `region`. `hosts` are the hosts that the manifest names
    /// in full.
    pub fn build(&self, service: &str, region: &Region, hosts: &Option<Vec<String>>) -> (route: Kong)
        ensures
            route.deep_view() == built_kong(self.deep_view(), service@, region.deep_view(), hosts.deep_view()),
    {
        let upstream_url = match &self.upstream_url {
            Some(url) => url.clone(),
            None => {
                let mut url = String::from_str("http://");
                url.append(service);
                url.append(".");
                url.append(region.namespace.as_str());
                url.append(".svc.cluster.local");
                url
            },
        };
        Kong {
            name: String::from_str(service),
            upstream_url,
            uris: self.uris.clone(),
            hosts: build_hosts(&self.hosts, region.kong.base_url.as_str(), hosts),
            strip_uri: match self.strip_uri {
                Some(b) => b,
                None => false,
            },
            preserve_host: match self.preserve_host {
                Some(b) => b,
                None => false,
            },
            correlation_id: copy_correlation_id(&self.correlation_id),
            tcp_log: copy_tcp_log(&self.tcp_log),
            oauth2: copy_oauth2(&self.oauth2),
            jwt: copy_jwt(&self.jwt),
            jwt_validator: copy_jwt_validator(&self.jwt_validator),
            json_cookies_to_headers: copy_json_cookies_to_headers(&self.json_cookies_to_headers),
            json_cookies_csrf: copy_json_cookies_csrf(&self.json_cookies_csrf),
            request_transformer: copy_request_transformer(&self.request_transformer),
        }
    }
}

impl Enabled<KongSource> {
    /// Builds the route of this merged layer for `service` in `region`, if it
    /// has one.
    pub fn build(&self, service: &str, region: &Region, hosts: &Option<Vec<String>>) -> (route: Result<
        Option<Kong>,
        ShipcatError,
    >)
        ensures
            route_result_view(route) == built_route(
                self.deep_view(),
                service@,
                region.deep_view(),
                hosts.deep_view(),
            ),
    {
        let off = match self.enabled {
            Some(b) => !b,
            None => false,
        };
        if off {
            return Ok(None);
        }
        if find_empty_label(&self.item.hosts) {
            return Err(ShipcatError::MalformedHost(String::from_str(service)));
        }
        let route = self.item.build(service, region, hosts);
        if route.uris.is_none() && route.hosts.len() == 0 {
            match self.enabled {
                Some(_) => Err(ShipcatError::EmptyRoute(String::from_str(service))),
                None => Ok(None),
            }
        } else {
            Ok(Some(route))
        }
    }
}

/// Merging is associative: laying `c` upon `a` merged with `b` gives what
/// laying `b` merged with `c` upon `a` gives.
pub proof fn lemma_kong_merge_associative(
    a: KongSourceView,
    b: KongSourceView,
    c: KongSourceView,
)
    ensures
        a.merge(b).merge(c) == a.merge(b.merge(c)),
{
    let left = a.merge(b).merge(c);
    let right = a.merge(b.merge(c));
    assert(left.upstream_url == right.upstream_url);
    assert(left.uris == right.uris);
    assert(left.hosts == right.hosts);
    assert(left.strip_uri == right.strip_uri);
    assert(left.preserve_host == right.preserve_host);
    assert(left.correlation_id == right.correlation_id);
    assert(left.tcp_log == right.tcp_log);
    assert(left.oauth2 == right.oauth2);
    assert(left.jwt == right.jwt);
    assert(left.jwt_validator == right.jwt_validator);
    assert(left.json_cookies_to_headers == right.json_cookies_to_headers);
    assert(left.json_cookies_csrf == right.json_cookies_csrf);
    assert(left.request_transformer == right.request_transformer);
}

/// The layer in which nothing is set is the identity of the merge, on
/// both sides.
pub proof fn lemma_kong_merge_identity(a: KongSourceView)
    ensures
        a.merge(KongSourceView::empty()) == a,
        KongSourceView::empty().merge(a) == a,
{
}

/// Precedence, field by field: what the higher layer sets is the merged
/// value, and what it leaves unset is the lower layer's value. A map holds
/// the keys of both layers, with the higher layer's value where both have a
/// key.
pub proof fn lemma_kong_merge_precedence(base: KongSourceView, over: KongSourceView)
    ensures
        option_precedence(base.upstream_url, over.upstream_url, base.merge(over).upstream_url),
        option_precedence(base.uris, over.uris, base.merge(over).uris),
        option_precedence(base.hosts, over.hosts, base.merge(over).hosts),
        option_precedence(base.strip_uri, over.strip_uri, base.merge(over).strip_uri),
        option_precedence(base.preserve_host, over.preserve_host, base.merge(over).preserve_host),
        setting_precedence(base.correlation_id, over.correlation_id, base.merge(over).correlation_id),
        setting_precedence(base.tcp_log, over.tcp_log, base.merge(over).tcp_log),
        setting_precedence(base.oauth2, over.oauth2, base.merge(over).oauth2),
        setting_precedence(base.jwt, over.jwt, base.merge(over).jwt),
        setting_precedence(base.jwt_validator, over.jwt_validator, base.merge(over).jwt_validator),
        setting_precedence(
            base.json_cookies_to_headers,
            over.json_cookies_to_headers,
            base.merge(over).json_cookies_to_headers,
        ),
        setting_precedence(
            base.json_cookies_csrf,
            over.json_cookies_csrf,
            base.merge(over).json_cookies_csrf,
        ),
        setting_precedence(
            base.request_transformer,
            over.request_transformer,
            base.merge(over).request_transformer,
        ),
{
}

/// Merging is associative for a part that can be switched on or off.
pub proof fn lemma_kong_layer_merge_associative(
    a: Enabled<KongSourceView>,
    b: Enabled<KongSourceView>,
    c: Enabled<KongSourceView>,
)
    ensures
        a.merge(b).merge(c) == a.merge(b.merge(c)),
{
    lemma_kong_merge_associative(a.item, b.item, c.item);
}

/// The part in which nothing is set is the identity of the merge, on both
/// sides.
pub proof fn lemma_kong_layer_merge_identity(a: Enabled<KongSourceView>)
    ensures
        a.merge(Enabled::<KongSourceView>::empty()) == a,
        Enabled::<KongSourceView>::empty().merge(a) == a,
{
    lemma_kong_merge_identity(a.item);
}

/// Precedence for a part that can be switched on or off: the higher layer's
/// switch wins when it is set, and the items merge as layers.
pub proof fn lemma_kong_layer_merge_precedence(base: Enabled<KongSourceView>, over: Enabled<KongSourceView>)
    ensures
        over.enabled is Some ==> base.merge(over).enabled == over.enabled,
        over.enabled is None ==> base.merge(over).enabled == base.enabled,
        base.merge(over).item == base.item.merge(over.item),
{
}

/// The routes of the services of a region, and the gateway they are for.
#[derive(Debug, PartialEq, Eq)]
pub struct KongOutput {
    /// The routes, in the order of the services.
    pub apis: Vec<Kong>,
    pub kong: KongConfig,
}

/// The content of [`KongOutput`], as a mathematical value.
pub struct KongOutputView {
    pub apis: Seq<KongView>,
    pub kong: KongConfigView,
}

impl DeepView for KongOutput {
    type V = KongOutputView;

    open spec fn deep_view(&self) -> KongOutputView {
        KongOutputView {
            apis: self.apis.deep_view(),
            kong: self.kong.deep_view(),
        }
    }
}

/// The declarative configuration of a gateway.
#[derive(Debug, PartialEq, Eq)]
pub struct KongfigOutput {
    /// The host of the gateway's admin interface.
    pub host: String,
    pub consumers: Vec<Consumer>,
    pub apis: Vec<Api>,
}

/// The content of [`KongfigOutput`], as a mathematical value.
pub struct KongfigOutputView {
    pub host: Seq<char>,
    pub consumers: Seq<ConsumerView>,
    pub apis: Seq<ApiView>,
}

impl DeepView for KongfigOutput {
    type V = KongfigOutputView;

    open spec fn deep_view(&self) -> KongfigOutputView {
        KongfigOutputView {
            host: self.host.deep_view(),
            consumers: self.consumers.deep_view(),
            apis: self.apis.deep_view(),
        }
    }
}

impl KongfigOutputView {
    /// The members of the JSON object that stands for the configuration of a gateway. A field that
    /// is unset has no member.
    pub open spec fn doc(self) -> Map<Seq<char>, JsonDoc> {
        let fields = no_fields();
        let fields = fields.insert("host"@, JsonDoc::Text(self.host));
        let fields = fields.insert("consumers"@, ConsumerView::list_doc(self.consumers));
        let fields = fields.insert("apis"@, ApiView::list_doc(self.apis));
        fields
    }
}

impl KongfigOutput {
    /// The JSON object that stands for the configuration of a gateway.
    pub fn to_json(&self) -> (object: JsonObject)
        ensures
            object_fields(object) == self.deep_view().doc(),
    {
        let mut object = object_new();
        object_put_text(&mut object, "host", self.host.as_str());
        object_put_list(&mut object, "consumers", Consumer::list_to_json(&self.consumers));
        object_put_list(&mut object, "apis", Api::list_to_json(&self.apis));
        object
    }
}

/// The routes of a list of manifests: those of the first, then those of the
/// second, and so on.
pub open spec fn routes_of(manifests: Seq<ManifestView>) -> Seq<KongView>
    decreases manifests.len(),
{
    if manifests.len() == 0 {
        Seq::empty()
    } else {
        routes_of(manifests.drop_last()) + manifests.last().kong_apis
    }
}

/// Collects the routes of the validated manifests of a region, in the order
/// of the manifests.
pub fn generate_kong_output(manifests: &Vec<Manifest>, region: &Region) -> (output: KongOutput)
    ensures
        output.deep_view() == (KongOutputView {
            apis: routes_of(manifests.deep_view()),
            kong: region.deep_view().kong,
        }),
{
    let mut apis: Vec<Kong> = Vec::new();
    let mut i: usize = 0;
    assert(manifests.deep_view().take(0) =~= Seq::<ManifestView>::empty());
    assert(apis.deep_view() =~= Seq::<KongView>::empty());
    while i < manifests.len()
        invariant
            i <= manifests.len(),
            apis.deep_view() == routes_of(manifests.deep_view().take(i as int)),
        decreases manifests.len() - i,
    {
        let ghost done = apis.deep_view();
        let routes = &manifests[i].kong_apis;
        let mut j: usize = 0;
        while j < routes.len()
            invariant
                j <= routes.len(),
                apis.deep_view() =~= done + routes.deep_view().take(j as int),
            decreases routes.len() - j,
        {
            let ghost before = apis.deep_view();
            let route = routes[j].clone();
            apis.push(route);
            assert(apis.deep_view() =~= before.push(route.deep_view()));
            j = j + 1;
        }
        proof {
            let all = manifests.deep_view();
            assert(routes.deep_view().take(j as int) =~= routes.deep_view());
            assert(all.take(i + 1).drop_last() =~= all.take(i as int));
            assert(all.take(i + 1).last() == all[i as int]);
        }
        i = i + 1;
    }
    assert(manifests.deep_view().take(i as int) =~= manifests.deep_view());
    KongOutput { apis, kong: region.kong.clone() }
}

/// The results of resolving the services of a region, as mathematical
/// values.
pub open spec fn results_view(results: Seq<Result<Manifest, ShipcatError>>) -> Seq<
    Result<ManifestView, ShipcatErrorView>,
> {
    results.map_values(|r: Result<Manifest, ShipcatError>| result_view(r))
}

/// The places, in order, of the services of a batch that failed to resolve.
pub open spec fn failed_places(results: Seq<Result<ManifestView, ShipcatErrorView>>) -> Seq<int>
    decreases results.len(),
{
    if results.len() == 0 {
        Seq::empty()
    } else if results.last() is Err {
        failed_places(results.drop_last()).push(results.len() - 1)
    } else {
        failed_places(results.drop_last())
    }
}

/// The manifests of a batch in which every service resolved.
pub open spec fn resolved_manifests(results: Seq<Result<ManifestView, ShipcatErrorView>>) -> Seq<
    ManifestView,
> {
    Seq::new(results.len(), |i: int| results[i]->Ok_0)
}

/// No service of a batch has failed exactly when every result is a
/// manifest.
pub proof fn lemma_failed_places(results: Seq<Result<ManifestView, ShipcatErrorView>>)
    ensures
        failed_places(results).len() == 0 <==> forall|i: int|
            0 <= i < results.len() ==> (#[trigger] results[i]) is Ok,
        forall|k: int|
            0 <= k < failed_places(results).len() ==> 0 <= (#[trigger] failed_places(results)[k]) < results.len()
                && results[failed_places(results)[k]] is Err,
    decreases results.len(),
{
    if results.len() > 0 {
        let rest = results.drop_last();
        lemma_failed_places(rest);
        if failed_places(results).len() == 0 {
            assert forall|i: int| 0 <= i < results.len() implies (#[trigger] results[i]) is Ok by {
                if i < rest.len() {
                    assert(rest[i] == results[i]);
                }
            }
        }
        if forall|i: int| 0 <= i < results.len() ==> (#[trigger] results[i]) is Ok {
            assert forall|i: int| 0 <= i < rest.len() implies (#[trigger] rest[i]) is Ok by {
                assert(rest[i] == results[i]);
            }
            assert(results[results.len() - 1] is Ok);
        }
        assert forall|k: int| 0 <= k < failed_places(results).len() implies 0 <= (#[trigger] failed_places(
            results,
        )[k]) < results.len() && results[failed_places(results)[k]] is Err by {
            if k < failed_places(rest).len() {
                let place = failed_places(rest)[k];
                assert(rest[place] == results[place]);
            }
        }
    }
}

/// Collects the routes of a whole region from the results of resolving its
/// services, each of which may have failed on its own.
///
/// A gateway output is made only when it is complete: when any service has
/// failed, there is none, and what comes back is the places of the services
/// that failed, in order.
pub fn generate_complete_kong_output(results: &Vec<Result<Manifest, ShipcatError>>, region: &Region) -> (output:
    Result<KongOutput, Vec<usize>>)
    ensures
        match output {
            Ok(o) => failed_places(results_view(results@)).len() == 0 && o.deep_view() == (KongOutputView {
                apis: routes_of(resolved_manifests(results_view(results@))),
                kong: region.deep_view().kong,
            }),
            Err(places) => places@.len() > 0 && places@.map_values(|place: usize| place as int)
                == failed_places(results_view(results@)),
        },
{
    let ghost all = results_view(results@);
    let mut places: Vec<usize> = Vec::new();
    let mut i: usize = 0;
    assert(all.take(0) =~= Seq::<Result<ManifestView, ShipcatErrorView>>::empty());
    while i < results.len()
        invariant
            i <= results.len(),
            all == results_view(results@),
            places@.map_values(|place: usize| place as int) =~= failed_places(all.take(i as int)),
        decreases results.len() - i,
    {
        proof {
            assert(all.take(i + 1).drop_last() =~= all.take(i as int));
            assert(all.take(i + 1).last() == all[i as int]);
        }
        match &results[i] {
            Ok(_) => {},
            Err(_) => {
                places.push(i);
            },
        }
        i = i + 1;
    }
    assert(all.take(i as int) =~= all);
    if places.len() > 0 {
        return Err(places);
    }
    proof {
        lemma_failed_places(all);
    }
    let ghost manifests = resolved_manifests(all);
    let mut apis: Vec<Kong> = Vec::new();
    let mut i: usize = 0;
    assert(manifests.take(0) =~= Seq::<ManifestView>::empty());
    assert(apis.deep_view() =~= Seq::<KongView>::empty());
    while i < results.len()
        invariant
            i <= results.len(),
            all == results_view(results@),
            manifests == resolved_manifests(all),
            forall|k: int| 0 <= k < all.len() ==> (#[trigger] all[k]) is Ok,
            apis.deep_view() == routes_of(manifests.take(i as int)),
        decreases results.len() - i,
    {
        let ghost done = apis.deep_view();
        assert(all[i as int] is Ok);
        match &results[i] {
            Ok(manifest) => {
                let routes = &manifest.kong_apis;
                let mut j: usize = 0;
                while j < routes.len()
                    invariant
                        j <= routes.len(),
                        apis.deep_view() =~= done + routes.deep_view().take(j as int),
                    decreases routes.len() - j,
                {
                    let ghost before = apis.deep_view();
                    let route = routes[j].clone();
                    apis.push(route);
                    assert(apis.deep_view() =~= before.push(route.deep_view()));
                    j = j + 1;
                }
                proof {
                    assert(routes.deep_view().take(j as int) =~= routes.deep_view());
                    assert(manifests.take(i + 1).drop_last() =~= manifests.take(i as int));
                    assert(manifests.take(i + 1).last() == manifests[i as int]);
                    assert(manifests[i as int] == manifest.deep_view());
                }
            },
            Err(_) => {},
        }
        i = i + 1;
    }
    assert(manifests.take(i as int) =~= manifests);
    Ok(KongOutput { apis, kong: region.kong.clone() })
}

impl KongfigOutput {
    /// Derives the declarative configuration of the gateway of a region:
    /// the consumers of the consumer directory with the anonymous consumer
    /// last, and one API per route.
    pub fn new(data: KongOutput, region: &Region) -> (output: KongfigOutput)
        ensures
            output.deep_view() == (KongfigOutputView {
                host: region.deep_view().kong.config_url,
                consumers: consumers_view(data.deep_view().kong.consumers),
                apis: apis_view(data.deep_view().apis),
            }),
    {
        KongfigOutput {
            host: region.kong.config_url.clone(),
            consumers: kongfig_consumers(&data.kong.consumers),
            apis: kongfig_apis(&data.apis),
        }
    }

    /// The configuration as the bytes of a JSON document, as `serde_json`
    /// writes it. A configuration can always be written.
    pub fn to_bytes(&self) -> (written: Result<Vec<u8>, ShipcatError>)
        ensures
            written matches Ok(bytes) && bytes@ == json_text(self.deep_view().doc()),
    {
        write_json(&self.to_json())
    }
}

} // verus!
