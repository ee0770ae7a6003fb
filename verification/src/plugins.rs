//! The plugins of the gateway: the settings of each kind, and the entry that
//! an API holds for a kind.

use vstd::prelude::*;
use crate::json::{
    no_fields, object_fields, object_new, object_put_bool, object_put_number, object_put_object,
    object_put_text, object_put_texts, objects_doc, put_opt_text, put_opt_texts, text_list_doc,
    with_text, with_texts, JsonDoc, JsonObject,
};
use crate::merge::PluginSetting;
use crate::strings::{clone_opt_strings, clone_strings};

verus! {

/// Settings of the request-id correlation plugin.
#[derive(Debug, PartialEq, Eq)]
pub struct CorrelationIdConfig {
    /// The header that carries the request id.
    pub header_name: String,
    /// How a missing request id is made up.
    pub generator: String,
    /// Whether the id is echoed back to the client.
    pub echo_downstream: bool,
}

/// The content of [`CorrelationIdConfig`], as a mathematical value.
pub struct CorrelationIdConfigView {
    pub header_name: Seq<char>,
    pub generator: Seq<char>,
    pub echo_downstream: bool,
}

impl DeepView for CorrelationIdConfig {
    type V = CorrelationIdConfigView;

    open spec fn deep_view(&self) -> CorrelationIdConfigView {
        CorrelationIdConfigView {
            header_name: self.header_name.deep_view(),
            generator: self.generator.deep_view(),
            echo_downstream: self.echo_downstream.deep_view(),
        }
    }
}

impl Clone for CorrelationIdConfig {
    fn clone(&self) -> (copy: Self)
        ensures
            copy.deep_view() == self.deep_view(),
    {
        let copy = CorrelationIdConfig {
            header_name: self.header_name.clone(),
            generator: self.generator.clone(),
            echo_downstream: self.echo_downstream,
        };
        copy
    }
}

impl CorrelationIdConfigView {
    /// The members of the JSON object that stands for this value. A field that
    /// is unset has no member.
    pub open spec fn doc(self) -> Map<Seq<char>, JsonDoc> {
        let fields = no_fields();
        let fields = fields.insert("header_name"@, JsonDoc::Text(self.header_name));
        let fields = fields.insert("generator"@, JsonDoc::Text(self.generator));
        let fields = fields.insert("echo_downstream"@, JsonDoc::Bool(self.echo_downstream));
        fields
    }
}

impl CorrelationIdConfig {
    /// The JSON object that stands for this value.
    pub fn to_json(&self) -> (object: JsonObject)
        ensures
            object_fields(object) == self.deep_view().doc(),
    {
        let mut object = object_new();
        object_put_text(&mut object, "header_name", self.header_name.as_str());
        object_put_text(&mut object, "generator", self.generator.as_str());
        object_put_bool(&mut object, "echo_downstream", self.echo_downstream);
        object
    }
}

/// Settings of the logging plugin.
#[derive(Debug, PartialEq, Eq)]
pub struct TcpLogConfig {
    pub host: String,
    pub port: u32,
}

/// The content of [`TcpLogConfig`], as a mathematical value.
pub struct TcpLogConfigView {
    pub host: Seq<char>,
    pub port: u32,
}

impl DeepView for TcpLogConfig {
    type V = TcpLogConfigView;

    open spec fn deep_view(&self) -> TcpLogConfigView {
        TcpLogConfigView {
            host: self.host.deep_view(),
            port: self.port.deep_view(),
        }
    }
}

impl Clone for TcpLogConfig {
    fn clone(&self) -> (copy: Self)
        ensures
            copy.deep_view() == self.deep_view(),
    {
        let copy = TcpLogConfig {
            host: self.host.clone(),
            port: self.port,
        };
        copy
    }
}

impl TcpLogConfigView {
    /// The members of the JSON object that stands for this value. A field that
    /// is unset has no member.
    pub open spec fn doc(self) -> Map<Seq<char>, JsonDoc> {
        let fields = no_fields();
        let fields = fields.insert("host"@, JsonDoc::Text(self.host));
        let fields = fields.insert("port"@, JsonDoc::Number(self.port as int));
        fields
    }
}

impl TcpLogConfig {
    /// The JSON object that stands for this value.
    pub fn to_json(&self) -> (object: JsonObject)
        ensures
            object_fields(object) == self.deep_view().doc(),
    {
        let mut object = object_new();
        object_put_text(&mut object, "host", self.host.as_str());
        object_put_number(&mut object, "port", self.port);
        object
    }
}

/// Settings of the OAuth2 plugin.
#[derive(Debug, PartialEq, Eq)]
pub struct Oauth2Config {
    pub global_credentials: bool,
    /// The consumer that unauthenticated requests are served as.
    pub anonymous: Option<String>,
}

/// The content of [`Oauth2Config`], as a mathematical value.
pub struct Oauth2ConfigView {
    pub global_credentials: bool,
    pub anonymous: Option<Seq<char>>,
}

impl DeepView for Oauth2Config {
    type V = Oauth2ConfigView;

    open spec fn deep_view(&self) -> Oauth2ConfigView {
        Oauth2ConfigView {
            global_credentials: self.global_credentials.deep_view(),
            anonymous: self.anonymous.deep_view(),
        }
    }
}

impl Clone for Oauth2Config {
    fn clone(&self) -> (copy: Self)
        ensures
            copy.deep_view() == self.deep_view(),
    {
        let copy = Oauth2Config {
            global_credentials: self.global_credentials,
            anonymous: self.anonymous.clone(),
        };
        copy
    }
}

impl Oauth2ConfigView {
    /// The members of the JSON object that stands for this value. A field that
    /// is unset has no member.
    pub open spec fn doc(self) -> Map<Seq<char>, JsonDoc> {
        let fields = no_fields();
        let fields = fields.insert("global_credentials"@, JsonDoc::Bool(self.global_credentials));
        let fields = with_text(fields, "anonymous"@, self.anonymous);
        fields
    }
}

impl Oauth2Config {
    /// The JSON object that stands for this value.
    pub fn to_json(&self) -> (object: JsonObject)
        ensures
            object_fields(object) == self.deep_view().doc(),
    {
        let mut object = object_new();
        object_put_bool(&mut object, "global_credentials", self.global_credentials);
        put_opt_text(&mut object, "anonymous", &self.anonymous);
        object
    }
}

/// Settings of the JWT plugin.
#[derive(Debug, PartialEq, Eq)]
pub struct JwtConfig {
    pub uri_param_names: Vec<String>,
    pub claims_to_verify: Vec<String>,
    pub key_claim_name: String,
    /// The consumer that unauthenticated requests are served as.
    pub anonymous: Option<String>,
}

/// The content of [`JwtConfig`], as a mathematical value.
pub struct JwtConfigView {
    pub uri_param_names: Seq<Seq<char>>,
    pub claims_to_verify: Seq<Seq<char>>,
    pub key_claim_name: Seq<char>,
    pub anonymous: Option<Seq<char>>,
}

impl DeepView for JwtConfig {
    type V = JwtConfigView;

    open spec fn deep_view(&self) -> JwtConfigView {
        JwtConfigView {
            uri_param_names: self.uri_param_names.deep_view(),
            claims_to_verify: self.claims_to_verify.deep_view(),
            key_claim_name: self.key_claim_name.deep_view(),
            anonymous: self.anonymous.deep_view(),
        }
    }
}

impl Clone for JwtConfig {
    fn clone(&self) -> (copy: Self)
        ensures
            copy.deep_view() == self.deep_view(),
    {
        let copy = JwtConfig {
            uri_param_names: clone_strings(&self.uri_param_names),
            claims_to_verify: clone_strings(&self.claims_to_verify),
            key_claim_name: self.key_claim_name.clone(),
            anonymous: self.anonymous.clone(),
        };
        copy
    }
}

impl JwtConfigView {
    /// The members of the JSON object that stands for this value. A field that
    /// is unset has no member.
    pub open spec fn doc(self) -> Map<Seq<char>, JsonDoc> {
        let fields = no_fields();
        let fields = fields.insert("uri_param_names"@, text_list_doc(self.uri_param_names));
        let fields = fields.insert("claims_to_verify"@, text_list_doc(self.claims_to_verify));
        let fields = fields.insert("key_claim_name"@, JsonDoc::Text(self.key_claim_name));
        let fields = with_text(fields, "anonymous"@, self.anonymous);
        fields
    }
}

impl JwtConfig {
    /// The JSON object that stands for this value.
    pub fn to_json(&self) -> (object: JsonObject)
        ensures
            object_fields(object) == self.deep_view().doc(),
    {
        let mut object = object_new();
        object_put_texts(&mut object, "uri_param_names", &self.uri_param_names);
        object_put_texts(&mut object, "claims_to_verify", &self.claims_to_verify);
        object_put_text(&mut object, "key_claim_name", self.key_claim_name.as_str());
        put_opt_text(&mut object, "anonymous", &self.anonymous);
        object
    }
}

/// Settings of the JWT validator plugin.
#[derive(Debug, PartialEq, Eq)]
pub struct JwtValidatorConfig {
    pub allowed_audiences: Vec<String>,
    pub expected_region: String,
    pub expected_scope: String,
    pub allow_invalid_tokens: bool,
}

/// The content of [`JwtValidatorConfig`], as a mathematical value.
pub struct JwtValidatorConfigView {
    pub allowed_audiences: Seq<Seq<char>>,
    pub expected_region: Seq<char>,
    pub expected_scope: Seq<char>,
    pub allow_invalid_tokens: bool,
}

impl DeepView for JwtValidatorConfig {
    type V = JwtValidatorConfigView;

    open spec fn deep_view(&self) -> JwtValidatorConfigView {
        JwtValidatorConfigView {
            allowed_audiences: self.allowed_audiences.deep_view(),
            expected_region: self.expected_region.deep_view(),
            expected_scope: self.expected_scope.deep_view(),
            allow_invalid_tokens: self.allow_invalid_tokens.deep_view(),
        }
    }
}

impl Clone for JwtValidatorConfig {
    fn clone(&self) -> (copy: Self)
        ensures
            copy.deep_view() == self.deep_view(),
    {
        let copy = JwtValidatorConfig {
            allowed_audiences: clone_strings(&self.allowed_audiences),
            expected_region: self.expected_region.clone(),
            expected_scope: self.expected_scope.clone(),
            allow_invalid_tokens: self.allow_invalid_tokens,
        };
        copy
    }
}

impl JwtValidatorConfigView {
    /// The members of the JSON object that stands for this value. A field that
    /// is unset has no member.
    pub open spec fn doc(self) -> Map<Seq<char>, JsonDoc> {
        let fields = no_fields();
        let fields = fields.insert("allowed_audiences"@, text_list_doc(self.allowed_audiences));
        let fields = fields.insert("expected_region"@, JsonDoc::Text(self.expected_region));
        let fields = fields.insert("expected_scope"@, JsonDoc::Text(self.expected_scope));
        let fields = fields.insert("allow_invalid_tokens"@, JsonDoc::Bool(self.allow_invalid_tokens));
        fields
    }
}

impl JwtValidatorConfig {
    /// The JSON object that stands for this value.
    pub fn to_json(&self) -> (object: JsonObject)
        ensures
            object_fields(object) == self.deep_view().doc(),
    {
        let mut object = object_new();
        object_put_texts(&mut object, "allowed_audiences", &self.allowed_audiences);
        object_put_text(&mut object, "expected_region", self.expected_region.as_str());
        object_put_text(&mut object, "expected_scope", self.expected_scope.as_str());
        object_put_bool(&mut object, "allow_invalid_tokens", self.allow_invalid_tokens);
        object
    }
}

/// Settings of the plugin that turns a cookie into a header.
#[derive(Debug, PartialEq, Eq)]
pub struct JsonCookiesToHeadersConfig {
    pub field_name: String,
    pub cookie_name: String,
}

/// The content of [`JsonCookiesToHeadersConfig`], as a mathematical value.
pub struct JsonCookiesToHeadersConfigView {
    pub field_name: Seq<char>,
    pub cookie_name: Seq<char>,
}

impl DeepView for JsonCookiesToHeadersConfig {
    type V = JsonCookiesToHeadersConfigView;

    open spec fn deep_view(&self) -> JsonCookiesToHeadersConfigView {
        JsonCookiesToHeadersConfigView {
            field_name: self.field_name.deep_view(),
            cookie_name: self.cookie_name.deep_view(),
        }
    }
}

impl Clone for JsonCookiesToHeadersConfig {
    fn clone(&self) -> (copy: Self)
        ensures
            copy.deep_view() == self.deep_view(),
    {
        let copy = JsonCookiesToHeadersConfig {
            field_name: self.field_name.clone(),
            cookie_name: self.cookie_name.clone(),
        };
        copy
    }
}

impl JsonCookiesToHeadersConfigView {
    /// The members of the JSON object that stands for this value. A field that
    /// is unset has no member.
    pub open spec fn doc(self) -> Map<Seq<char>, JsonDoc> {
        let fields = no_fields();
        let fields = fields.insert("field_name"@, JsonDoc::Text(self.field_name));
        let fields = fields.insert("cookie_name"@, JsonDoc::Text(self.cookie_name));
        fields
    }
}

impl JsonCookiesToHeadersConfig {
    /// The JSON object that stands for this value.
    pub fn to_json(&self) -> (object: JsonObject)
        ensures
            object_fields(object) == self.deep_view().doc(),
    {
        let mut object = object_new();
        object_put_text(&mut object, "field_name", self.field_name.as_str());
        object_put_text(&mut object, "cookie_name", self.cookie_name.as_str());
        object
    }
}

/// Settings of the plugin that checks a CSRF token held in a cookie.
#[derive(Debug, PartialEq, Eq)]
pub struct JsonCookiesCsrfConfig {
    pub csrf_field_name: String,
    pub cookie_name: String,
    pub strict: bool,
    pub csrf_header_name: String,
}

/// The content of [`JsonCookiesCsrfConfig`], as a mathematical value.
pub struct JsonCookiesCsrfConfigView {
    pub csrf_field_name: Seq<char>,
    pub cookie_name: Seq<char>,
    pub strict: bool,
    pub csrf_header_name: Seq<char>,
}

impl DeepView for JsonCookiesCsrfConfig {
    type V = JsonCookiesCsrfConfigView;

    open spec fn deep_view(&self) -> JsonCookiesCsrfConfigView {
        JsonCookiesCsrfConfigView {
            csrf_field_name: self.csrf_field_name.deep_view(),
            cookie_name: self.cookie_name.deep_view(),
            strict: self.strict.deep_view(),
            csrf_header_name: self.csrf_header_name.deep_view(),
        }
    }
}

impl Clone for JsonCookiesCsrfConfig {
    fn clone(&self) -> (copy: Self)
        ensures
            copy.deep_view() == self.deep_view(),
    {
        let copy = JsonCookiesCsrfConfig {
            csrf_field_name: self.csrf_field_name.clone(),
            cookie_name: self.cookie_name.clone(),
            strict: self.strict,
            csrf_header_name: self.csrf_header_name.clone(),
        };
        copy
    }
}

impl JsonCookiesCsrfConfigView {
    /// The members of the JSON object that stands for this value. A field that
    /// is unset has no member.
    pub open spec fn doc(self) -> Map<Seq<char>, JsonDoc> {
        let fields = no_fields();
        let fields = fields.insert("csrf_field_name"@, JsonDoc::Text(self.csrf_field_name));
        let fields = fields.insert("cookie_name"@, JsonDoc::Text(self.cookie_name));
        let fields = fields.insert("strict"@, JsonDoc::Bool(self.strict));
        let fields = fields.insert("csrf_header_name"@, JsonDoc::Text(self.csrf_header_name));
        fields
    }
}

impl JsonCookiesCsrfConfig {
    /// The JSON object that stands for this value.
    pub fn to_json(&self) -> (object: JsonObject)
        ensures
            object_fields(object) == self.deep_view().doc(),
    {
        let mut object = object_new();
        object_put_text(&mut object, "csrf_field_name", self.csrf_field_name.as_str());
        object_put_text(&mut object, "cookie_name", self.cookie_name.as_str());
        object_put_bool(&mut object, "strict", self.strict);
        object_put_text(&mut object, "csrf_header_name", self.csrf_header_name.as_str());
        object
    }
}

/// What a transformation touches of a request: headers, query string and body.
#[derive(Debug, PartialEq, Eq)]
pub struct HeadersQueryBody {
    pub headers: Option<Vec<String>>,
    pub querystring: Option<Vec<String>>,
    pub body: Option<Vec<String>>,
}

/// The content of [`HeadersQueryBody`], as a mathematical value.
pub struct HeadersQueryBodyView {
    pub headers: Option<Seq<Seq<char>>>,
    pub querystring: Option<Seq<Seq<char>>>,
    pub body: Option<Seq<Seq<char>>>,
}

impl DeepView for HeadersQueryBody {
    type V = HeadersQueryBodyView;

    open spec fn deep_view(&self) -> HeadersQueryBodyView {
        HeadersQueryBodyView {
            headers: self.headers.deep_view(),
            querystring: self.querystring.deep_view(),
            body: self.body.deep_view(),
        }
    }
}

impl Clone for HeadersQueryBody {
    fn clone(&self) -> (copy: Self)
        ensures
            copy.deep_view() == self.deep_view(),
    {
        let copy = HeadersQueryBody {
            headers: clone_opt_strings(&self.headers),
            querystring: clone_opt_strings(&self.querystring),
            body: clone_opt_strings(&self.body),
        };
        copy
    }
}

impl HeadersQueryBodyView {
    /// The members of the JSON object that stands for this value. A field that
    /// is unset has no member.
    pub open spec fn doc(self) -> Map<Seq<char>, JsonDoc> {
        let fields = no_fields();
        let fields = with_texts(fields, "headers"@, self.headers);
        let fields = with_texts(fields, "querystring"@, self.querystring);
        let fields = with_texts(fields, "body"@, self.body);
        fields
    }
}

impl HeadersQueryBody {
    /// The JSON object that stands for this value.
    pub fn to_json(&self) -> (object: JsonObject)
        ensures
            object_fields(object) == self.deep_view().doc(),
    {
        let mut object = object_new();
        put_opt_texts(&mut object, "headers", &self.headers);
        put_opt_texts(&mut object, "querystring", &self.querystring);
        put_opt_texts(&mut object, "body", &self.body);
        object
    }
}

/// Settings of the header transformation plugin.
#[derive(Debug, PartialEq, Eq)]
pub struct RequestTransformerConfig {
    pub http_method: Option<String>,
    pub remove: HeadersQueryBody,
    pub replace: HeadersQueryBody,
    pub add: HeadersQueryBody,
    pub append: HeadersQueryBody,
    pub rename: HeadersQueryBody,
}

/// The content of [`RequestTransformerConfig`], as a mathematical value.
pub struct RequestTransformerConfigView {
    pub http_method: Option<Seq<char>>,
    pub remove: HeadersQueryBodyView,
    pub replace: HeadersQueryBodyView,
    pub add: HeadersQueryBodyView,
    pub append: HeadersQueryBodyView,
    pub rename: HeadersQueryBodyView,
}

impl DeepView for RequestTransformerConfig {
    type V = RequestTransformerConfigView;

    open spec fn deep_view(&self) -> RequestTransformerConfigView {
        RequestTransformerConfigView {
            http_method: self.http_method.deep_view(),
            remove: self.remove.deep_view(),
            replace: self.replace.deep_view(),
            add: self.add.deep_view(),
            append: self.append.deep_view(),
            rename: self.rename.deep_view(),
        }
    }
}

impl Clone for RequestTransformerConfig {
    fn clone(&self) -> (copy: Self)
        ensures
            copy.deep_view() == self.deep_view(),
    {
        let copy = RequestTransformerConfig {
            http_method: self.http_method.clone(),
            remove: self.remove.clone(),
            replace: self.replace.clone(),
            add: self.add.clone(),
            append: self.append.clone(),
            rename: self.rename.clone(),
        };
        copy
    }
}

impl RequestTransformerConfigView {
    /// The members of the JSON object that stands for this value. A field that
    /// is unset has no member.
    pub open spec fn doc(self) -> Map<Seq<char>, JsonDoc> {
        let fields = no_fields();
        let fields = with_text(fields, "http_method"@, self.http_method);
        let fields = fields.insert("remove"@, JsonDoc::Object(self.remove.doc()));
        let fields = fields.insert("replace"@, JsonDoc::Object(self.replace.doc()));
        let fields = fields.insert("add"@, JsonDoc::Object(self.add.doc()));
        let fields = fields.insert("append"@, JsonDoc::Object(self.append.doc()));
        let fields = fields.insert("rename"@, JsonDoc::Object(self.rename.doc()));
        fields
    }
}

impl RequestTransformerConfig {
    /// The JSON object that stands for this value.
    pub fn to_json(&self) -> (object: JsonObject)
        ensures
            object_fields(object) == self.deep_view().doc(),
    {
        let mut object = object_new();
        put_opt_text(&mut object, "http_method", &self.http_method);
        object_put_object(&mut object, "remove", self.remove.to_json());
        object_put_object(&mut object, "replace", self.replace.to_json());
        object_put_object(&mut object, "add", self.add.to_json());
        object_put_object(&mut object, "append", self.append.to_json());
        object_put_object(&mut object, "rename", self.rename.to_json());
        object
    }
}

impl HeadersQueryBodyView {
    /// Nothing touched.
    pub open spec fn empty() -> HeadersQueryBodyView {
        HeadersQueryBodyView { headers: None, querystring: None, body: None }
    }
}

impl Default for HeadersQueryBody {
    fn default() -> (part: Self)
        ensures
            part.deep_view() == HeadersQueryBodyView::empty(),
    {
        HeadersQueryBody { headers: None, querystring: None, body: None }
    }
}

impl RequestTransformerConfigView {
    /// The transformation that changes nothing.
    pub open spec fn empty() -> RequestTransformerConfigView {
        RequestTransformerConfigView {
            http_method: None,
            remove: HeadersQueryBodyView::empty(),
            replace: HeadersQueryBodyView::empty(),
            add: HeadersQueryBodyView::empty(),
            append: HeadersQueryBodyView::empty(),
            rename: HeadersQueryBodyView::empty(),
        }
    }
}

impl Default for RequestTransformerConfig {
    fn default() -> (config: Self)
        ensures
            config.deep_view() == RequestTransformerConfigView::empty(),
    {
        RequestTransformerConfig {
            http_method: None,
            remove: HeadersQueryBody::default(),
            replace: HeadersQueryBody::default(),
            add: HeadersQueryBody::default(),
            append: HeadersQueryBody::default(),
            rename: HeadersQueryBody::default(),
        }
    }
}

/// What the gateway is told of a plugin that is present.
#[derive(Debug, PartialEq, Eq)]
pub struct PluginAttributes<T> {
    pub enabled: bool,
    pub config: T,
}

impl<T: DeepView> DeepView for PluginAttributes<T> {
    type V = PluginAttributes<T::V>;

    open spec fn deep_view(&self) -> PluginAttributes<T::V> {
        PluginAttributes { enabled: self.enabled, config: self.config.deep_view() }
    }
}

/// A plugin entry of an API: present with its attributes, or removed. A
/// plugin that no layer speaks of has no entry.
#[derive(Debug, PartialEq, Eq)]
pub enum PluginBase<T> {
    Removed,
    Present(PluginAttributes<T>),
}

impl<T: DeepView> DeepView for PluginBase<T> {
    type V = PluginBase<T::V>;

    open spec fn deep_view(&self) -> PluginBase<T::V> {
        match self {
            PluginBase::Removed => PluginBase::Removed,
            PluginBase::Present(a) => PluginBase::Present(a.deep_view()),
        }
    }
}

impl<T> PluginBase<T> {
    /// The entry of a plugin that is present and switched on.
    pub open spec fn spec_new(config: T) -> PluginBase<T> {
        PluginBase::Present(PluginAttributes { enabled: true, config })
    }

    /// The entry of a plugin that is present and switched on.
    pub fn new(config: T) -> (entry: PluginBase<T>)
        ensures
            entry == PluginBase::spec_new(config),
    {
        PluginBase::Present(PluginAttributes { enabled: true, config })
    }

    /// The entry of a plugin that is removed.
    pub fn removed() -> (entry: PluginBase<T>)
        ensures
            entry == PluginBase::<T>::Removed,
    {
        PluginBase::Removed
    }
}

/// The entry that a merged setting resolves to: none when no layer speaks of
/// the plugin, a removal when the winning layer removes it, and else its
/// attributes, switched on.
pub open spec fn resolved<T>(setting: PluginSetting<T>) -> Option<PluginBase<T>> {
    match setting {
        PluginSetting::Unspecified => None,
        PluginSetting::Removed => Some(PluginBase::Removed),
        PluginSetting::Present(config) => Some(PluginBase::spec_new(config)),
    }
}

/// Resolves a merged setting to its entry, if it has one.
pub fn resolve_setting<T>(setting: PluginSetting<T>) -> (entry: Option<PluginBase<T>>)
    ensures
        entry == resolved(setting),
{
    match setting {
        PluginSetting::Unspecified => None,
        PluginSetting::Removed => Some(PluginBase::removed()),
        PluginSetting::Present(config) => Some(PluginBase::new(config)),
    }
}

/// The kinds of plugin, in the order in which an API lists them.
#[derive(Clone, Copy, Debug, PartialEq, Eq)]
pub enum PluginKind {
    CorrelationId,
    TcpLog,
    Oauth2,
    Jwt,
    JwtValidator,
    JsonCookiesToHeaders,
    JsonCookiesCsrf,
    RequestTransformer,
}

impl PluginKind {
    /// The kind's place in the fixed order.
    pub open spec fn rank(self) -> int {
        match self {
            PluginKind::CorrelationId => 0,
            PluginKind::TcpLog => 1,
            PluginKind::Oauth2 => 2,
            PluginKind::Jwt => 3,
            PluginKind::JwtValidator => 4,
            PluginKind::JsonCookiesToHeaders => 5,
            PluginKind::JsonCookiesCsrf => 6,
            PluginKind::RequestTransformer => 7,
        }
    }
}

/// A plugin entry of an API, by kind.
#[derive(Debug, PartialEq, Eq)]
pub enum ApiPlugin {
    CorrelationId(PluginBase<CorrelationIdConfig>),
    TcpLog(PluginBase<TcpLogConfig>),
    Oauth2(PluginBase<Oauth2Config>),
    Jwt(PluginBase<JwtConfig>),
    JwtValidator(PluginBase<JwtValidatorConfig>),
    JsonCookiesToHeaders(PluginBase<JsonCookiesToHeadersConfig>),
    JsonCookiesCsrf(PluginBase<JsonCookiesCsrfConfig>),
    RequestTransformer(PluginBase<RequestTransformerConfig>),
}

/// The content of [`ApiPlugin`], as a mathematical value.
pub enum ApiPluginView {
    CorrelationId(PluginBase<CorrelationIdConfigView>),
    TcpLog(PluginBase<TcpLogConfigView>),
    Oauth2(PluginBase<Oauth2ConfigView>),
    Jwt(PluginBase<JwtConfigView>),
    JwtValidator(PluginBase<JwtValidatorConfigView>),
    JsonCookiesToHeaders(PluginBase<JsonCookiesToHeadersConfigView>),
    JsonCookiesCsrf(PluginBase<JsonCookiesCsrfConfigView>),
    RequestTransformer(PluginBase<RequestTransformerConfigView>),
}

impl DeepView for ApiPlugin {
    type V = ApiPluginView;

    open spec fn deep_view(&self) -> ApiPluginView {
        match self {
            ApiPlugin::CorrelationId(b) => ApiPluginView::CorrelationId(b.deep_view()),
            ApiPlugin::TcpLog(b) => ApiPluginView::TcpLog(b.deep_view()),
            ApiPlugin::Oauth2(b) => ApiPluginView::Oauth2(b.deep_view()),
            ApiPlugin::Jwt(b) => ApiPluginView::Jwt(b.deep_view()),
            ApiPlugin::JwtValidator(b) => ApiPluginView::JwtValidator(b.deep_view()),
            ApiPlugin::JsonCookiesToHeaders(b) => ApiPluginView::JsonCookiesToHeaders(b.deep_view()),
            ApiPlugin::JsonCookiesCsrf(b) => ApiPluginView::JsonCookiesCsrf(b.deep_view()),
            ApiPlugin::RequestTransformer(b) => ApiPluginView::RequestTransformer(b.deep_view()),
        }
    }
}

impl ApiPluginView {
    /// The kind of plugin the entry is for.
    pub open spec fn kind(self) -> PluginKind {
        match self {
            ApiPluginView::CorrelationId(_) => PluginKind::CorrelationId,
            ApiPluginView::TcpLog(_) => PluginKind::TcpLog,
            ApiPluginView::Oauth2(_) => PluginKind::Oauth2,
            ApiPluginView::Jwt(_) => PluginKind::Jwt,
            ApiPluginView::JwtValidator(_) => PluginKind::JwtValidator,
            ApiPluginView::JsonCookiesToHeaders(_) => PluginKind::JsonCookiesToHeaders,
            ApiPluginView::JsonCookiesCsrf(_) => PluginKind::JsonCookiesCsrf,
            ApiPluginView::RequestTransformer(_) => PluginKind::RequestTransformer,
        }
    }

    /// Whether the entry removes its plugin.
    pub open spec fn is_removal(self) -> bool {
        match self {
            ApiPluginView::CorrelationId(b) => b is Removed,
            ApiPluginView::TcpLog(b) => b is Removed,
            ApiPluginView::Oauth2(b) => b is Removed,
            ApiPluginView::Jwt(b) => b is Removed,
            ApiPluginView::JwtValidator(b) => b is Removed,
            ApiPluginView::JsonCookiesToHeaders(b) => b is Removed,
            ApiPluginView::JsonCookiesCsrf(b) => b is Removed,
            ApiPluginView::RequestTransformer(b) => b is Removed,
        }
    }
}

/// A copy of a `correlation_id` setting.
pub fn copy_correlation_id(setting: &PluginSetting<CorrelationIdConfig>) -> (copy: PluginSetting<
    CorrelationIdConfig,
>)
    ensures
        copy.deep_view() == setting.deep_view(),
{
    match setting {
        PluginSetting::Unspecified => PluginSetting::Unspecified,
        PluginSetting::Removed => PluginSetting::Removed,
        PluginSetting::Present(config) => PluginSetting::Present(config.clone()),
    }
}

/// A copy of a `tcp_log` setting.
pub fn copy_tcp_log(setting: &PluginSetting<TcpLogConfig>) -> (copy: PluginSetting<TcpLogConfig>)
    ensures
        copy.deep_view() == setting.deep_view(),
{
    match setting {
        PluginSetting::Unspecified => PluginSetting::Unspecified,
        PluginSetting::Removed => PluginSetting::Removed,
        PluginSetting::Present(config) => PluginSetting::Present(config.clone()),
    }
}

/// A copy of a `oauth2` setting.
pub fn copy_oauth2(setting: &PluginSetting<Oauth2Config>) -> (copy: PluginSetting<Oauth2Config>)
    ensures
        copy.deep_view() == setting.deep_view(),
{
    match setting {
        PluginSetting::Unspecified => PluginSetting::Unspecified,
        PluginSetting::Removed => PluginSetting::Removed,
        PluginSetting::Present(config) => PluginSetting::Present(config.clone()),
    }
}

/// A copy of a `jwt` setting.
pub fn copy_jwt(setting: &PluginSetting<JwtConfig>) -> (copy: PluginSetting<JwtConfig>)
    ensures
        copy.deep_view() == setting.deep_view(),
{
    match setting {
        PluginSetting::Unspecified => PluginSetting::Unspecified,
        PluginSetting::Removed => PluginSetting::Removed,
        PluginSetting::Present(config) => PluginSetting::Present(config.clone()),
    }
}

/// A copy of a `jwt_validator` setting.
pub fn copy_jwt_validator(setting: &PluginSetting<JwtValidatorConfig>) -> (copy: PluginSetting<
    JwtValidatorConfig,
>)
    ensures
        copy.deep_view() == setting.deep_view(),
{
    match setting {
        PluginSetting::Unspecified => PluginSetting::Unspecified,
        PluginSetting::Removed => PluginSetting::Removed,
        PluginSetting::Present(config) => PluginSetting::Present(config.clone()),
    }
}

/// A copy of a `json_cookies_to_headers` setting.
pub fn copy_json_cookies_to_headers(setting: &PluginSetting<JsonCookiesToHeadersConfig>) -> (copy: PluginSetting<
    JsonCookiesToHeadersConfig,
>)
    ensures
        copy.deep_view() == setting.deep_view(),
{
    match setting {
        PluginSetting::Unspecified => PluginSetting::Unspecified,
        PluginSetting::Removed => PluginSetting::Removed,
        PluginSetting::Present(config) => PluginSetting::Present(config.clone()),
    }
}

/// A copy of a `json_cookies_csrf` setting.
pub fn copy_json_cookies_csrf(setting: &PluginSetting<JsonCookiesCsrfConfig>) -> (copy: PluginSetting<
    JsonCookiesCsrfConfig,
>)
    ensures
        copy.deep_view() == setting.deep_view(),
{
    match setting {
        PluginSetting::Unspecified => PluginSetting::Unspecified,
        PluginSetting::Removed => PluginSetting::Removed,
        PluginSetting::Present(config) => PluginSetting::Present(config.clone()),
    }
}

/// A copy of a `request_transformer` setting.
pub fn copy_request_transformer(setting: &PluginSetting<RequestTransformerConfig>) -> (copy: PluginSetting<
    RequestTransformerConfig,
>)
    ensures
        copy.deep_view() == setting.deep_view(),
{
    match setting {
        PluginSetting::Unspecified => PluginSetting::Unspecified,
        PluginSetting::Removed => PluginSetting::Removed,
        PluginSetting::Present(config) => PluginSetting::Present(config.clone()),
    }
}

impl PluginKind {
    /// The kind at a place of the fixed order.
    pub open spec fn at(rank: int) -> PluginKind {
        if rank <= 0 {
            PluginKind::CorrelationId
        } else if rank == 1 {
            PluginKind::TcpLog
        } else if rank == 2 {
            PluginKind::Oauth2
        } else if rank == 3 {
            PluginKind::Jwt
        } else if rank == 4 {
            PluginKind::JwtValidator
        } else if rank == 5 {
            PluginKind::JsonCookiesToHeaders
        } else if rank == 6 {
            PluginKind::JsonCookiesCsrf
        } else {
            PluginKind::RequestTransformer
        }
    }
}

impl PluginKind {
    /// The name under which the gateway knows the kind.
    pub open spec fn spec_label(self) -> Seq<char> {
        match self {
            PluginKind::CorrelationId => "correlation-id"@,
            PluginKind::TcpLog => "tcp-log"@,
            PluginKind::Oauth2 => "oauth2"@,
            PluginKind::Jwt => "jwt"@,
            PluginKind::JwtValidator => "jwt-validator"@,
            PluginKind::JsonCookiesToHeaders => "json-cookies-to-headers"@,
            PluginKind::JsonCookiesCsrf => "json-cookies-csrf"@,
            PluginKind::RequestTransformer => "request-transformer"@,
        }
    }
}

/// A named entry as the members of a JSON object: its `name`, and either
/// its `attributes`, which are whether it is `enabled` and its `config`, or
/// the word `removed` under `ensure`.
pub open spec fn entry_doc(
    name: Seq<char>,
    attributes: Option<(bool, Map<Seq<char>, JsonDoc>)>,
) -> Map<Seq<char>, JsonDoc> {
    match attributes {
        Some((enabled, config)) => no_fields().insert("name"@, JsonDoc::Text(name)).insert(
            "attributes"@,
            JsonDoc::Object(
                no_fields().insert("enabled"@, JsonDoc::Bool(enabled)).insert("config"@, JsonDoc::Object(config)),
            ),
        ),
        None => no_fields().insert("name"@, JsonDoc::Text(name)).insert("ensure"@, JsonDoc::Text("removed"@)),
    }
}

/// The attributes of an entry, as mathematical values.
pub open spec fn attributes_view(attributes: Option<(bool, JsonObject)>) -> Option<
    (bool, Map<Seq<char>, JsonDoc>),
> {
    match attributes {
        Some((enabled, config)) => Some((enabled, object_fields(config))),
        None => None,
    }
}

fn entry_object(name: &str, attributes: Option<(bool, JsonObject)>) -> (object: JsonObject)
    ensures
        object_fields(object) == entry_doc(name@, attributes_view(attributes)),
{
    let mut object = object_new();
    object_put_text(&mut object, "name", name);
    match attributes {
        Some((enabled, config)) => {
            let mut inner = object_new();
            object_put_bool(&mut inner, "enabled", enabled);
            object_put_object(&mut inner, "config", config);
            object_put_object(&mut object, "attributes", inner);
        },
        None => {
            object_put_text(&mut object, "ensure", "removed");
        },
    }
    object
}

impl ApiPluginView {
    /// The attributes of the entry, when it is present: whether it is
    /// enabled, and its configuration as the members of a JSON object.
    pub open spec fn attributes_doc(self) -> Option<(bool, Map<Seq<char>, JsonDoc>)> {
        match self {
            ApiPluginView::CorrelationId(PluginBase::Present(a)) => Some((a.enabled, a.config.doc())),
            ApiPluginView::TcpLog(PluginBase::Present(a)) => Some((a.enabled, a.config.doc())),
            ApiPluginView::Oauth2(PluginBase::Present(a)) => Some((a.enabled, a.config.doc())),
            ApiPluginView::Jwt(PluginBase::Present(a)) => Some((a.enabled, a.config.doc())),
            ApiPluginView::JwtValidator(PluginBase::Present(a)) => Some((a.enabled, a.config.doc())),
            ApiPluginView::JsonCookiesToHeaders(PluginBase::Present(a)) => Some((a.enabled, a.config.doc())),
            ApiPluginView::JsonCookiesCsrf(PluginBase::Present(a)) => Some((a.enabled, a.config.doc())),
            ApiPluginView::RequestTransformer(PluginBase::Present(a)) => Some((a.enabled, a.config.doc())),
            _ => None,
        }
    }

    /// The members of the JSON object that stands for a plugin entry: the
    /// name of its kind, and its attributes or its removal.
    pub open spec fn doc(self) -> Map<Seq<char>, JsonDoc> {
        entry_doc(self.kind().spec_label(), self.attributes_doc())
    }

    /// A list of plugin entries as a JSON document.
    pub open spec fn list_doc(list: Seq<ApiPluginView>) -> JsonDoc {
        JsonDoc::List(list.map_values(|item: ApiPluginView| JsonDoc::Object(item.doc())))
    }
}

impl ApiPlugin {
    /// The JSON object that stands for a plugin entry.
    pub fn to_json(&self) -> (object: JsonObject)
        ensures
            object_fields(object) == self.deep_view().doc(),
    {
        match self {
            ApiPlugin::CorrelationId(b) => entry_object(
                "correlation-id",
                match b {
                    PluginBase::Present(a) => Some((a.enabled, a.config.to_json())),
                    PluginBase::Removed => None,
                },
            ),
            ApiPlugin::TcpLog(b) => entry_object(
                "tcp-log",
                match b {
                    PluginBase::Present(a) => Some((a.enabled, a.config.to_json())),
                    PluginBase::Removed => None,
                },
            ),
            ApiPlugin::Oauth2(b) => entry_object(
                "oauth2",
                match b {
                    PluginBase::Present(a) => Some((a.enabled, a.config.to_json())),
                    PluginBase::Removed => None,
                },
            ),
            ApiPlugin::Jwt(b) => entry_object(
                "jwt",
                match b {
                    PluginBase::Present(a) => Some((a.enabled, a.config.to_json())),
                    PluginBase::Removed => None,
                },
            ),
            ApiPlugin::JwtValidator(b) => entry_object(
                "jwt-validator",
                match b {
                    PluginBase::Present(a) => Some((a.enabled, a.config.to_json())),
                    PluginBase::Removed => None,
                },
            ),
            ApiPlugin::JsonCookiesToHeaders(b) => entry_object(
                "json-cookies-to-headers",
                match b {
                    PluginBase::Present(a) => Some((a.enabled, a.config.to_json())),
                    PluginBase::Removed => None,
                },
            ),
            ApiPlugin::JsonCookiesCsrf(b) => entry_object(
                "json-cookies-csrf",
                match b {
                    PluginBase::Present(a) => Some((a.enabled, a.config.to_json())),
                    PluginBase::Removed => None,
                },
            ),
            ApiPlugin::RequestTransformer(b) => entry_object(
                "request-transformer",
                match b {
                    PluginBase::Present(a) => Some((a.enabled, a.config.to_json())),
                    PluginBase::Removed => None,
                },
            ),
        }
    }

    /// The JSON objects that stand for a list of plugin entries, in order.
    pub fn list_to_json(list: &Vec<ApiPlugin>) -> (objects: Vec<JsonObject>)
        ensures
            objects_doc(objects@) == ApiPluginView::list_doc(list.deep_view()),
    {
        let mut objects: Vec<JsonObject> = Vec::new();
        let mut i: usize = 0;
        while i < list.len()
            invariant
                i <= list.len(),
                objects.len() == i,
                forall|j: int|
                    0 <= j < i ==> object_fields(#[trigger] objects@[j]) == list.deep_view()[j].doc(),
            decreases list.len() - i,
        {
            objects.push(list[i].to_json());
            i = i + 1;
        }
        assert(objects@.map_values(|item: JsonObject| JsonDoc::Object(object_fields(item)))
            =~= list.deep_view().map_values(|item: ApiPluginView| JsonDoc::Object(item.doc())));
        objects
    }
}

} // verus!
