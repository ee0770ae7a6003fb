//! The gateway's declarative configuration: consumers, and one API per
//! route with its plugins in a fixed order.

use vstd::prelude::*;
use crate::json::{
    no_fields, object_fields, object_new, object_put_bool, object_put_list, object_put_object,
    object_put_text, object_put_texts, objects_doc, put_opt_texts, text_list_doc, with_texts,
    JsonDoc, JsonObject,
};
use crate::kong::{built_kong, ConsumerSource, ConsumerSourceView, Kong, KongSourceView, KongView};
use crate::merge::PluginSetting;
use crate::plugins::{
    resolve_setting, resolved, ApiPlugin, ApiPluginView, CorrelationIdConfig, HeadersQueryBody,
    HeadersQueryBodyView, JsonCookiesCsrfConfig, JsonCookiesToHeadersConfig, JwtConfig,
    JwtValidatorConfig, Oauth2Config, PluginBase, PluginKind, RequestTransformerConfig,
    RequestTransformerConfigView, TcpLogConfig,
};
use crate::strings::join2;
use crate::structs::RegionView;

verus! {

/// How a route matches requests and where it sends them.
#[derive(Debug, PartialEq, Eq)]
pub struct ApiAttributes {
    /// The virtual hosts the route answers to.
    pub hosts: Vec<String>,
    /// The path prefixes the route answers to.
    pub uris: Option<Vec<String>>,
    pub strip_uri: bool,
    pub preserve_host: bool,
    /// Where matching requests are sent.
    pub upstream_url: String,
}

/// The content of [`ApiAttributes`], as a mathematical value.
pub struct ApiAttributesView {
    pub hosts: Seq<Seq<char>>,
    pub uris: Option<Seq<Seq<char>>>,
    pub strip_uri: bool,
    pub preserve_host: bool,
    pub upstream_url: Seq<char>,
}

impl DeepView for ApiAttributes {
    type V = ApiAttributesView;

    open spec fn deep_view(&self) -> ApiAttributesView {
        ApiAttributesView {
            hosts: self.hosts.deep_view(),
            uris: self.uris.deep_view(),
            strip_uri: self.strip_uri.deep_view(),
            preserve_host: self.preserve_host.deep_view(),
            upstream_url: self.upstream_url.deep_view(),
        }
    }
}

impl ApiAttributesView {
    /// The members of the JSON object that stands for this value. A field that
    /// is unset has no member.
    pub open spec fn doc(self) -> Map<Seq<char>, JsonDoc> {
        let fields = no_fields();
        let fields = fields.insert("hosts"@, text_list_doc(self.hosts));
        let fields = with_texts(fields, "uris"@, self.uris);
        let fields = fields.insert("strip_uri"@, JsonDoc::Bool(self.strip_uri));
        let fields = fields.insert("preserve_host"@, JsonDoc::Bool(self.preserve_host));
        let fields = fields.insert("upstream_url"@, JsonDoc::Text(self.upstream_url));
        fields
    }
}

impl ApiAttributes {
    /// The JSON object that stands for this value.
    pub fn to_json(&self) -> (object: JsonObject)
        ensures
            object_fields(object) == self.deep_view().doc(),
    {
        let mut object = object_new();
        object_put_texts(&mut object, "hosts", &self.hosts);
        put_opt_texts(&mut object, "uris", &self.uris);
        object_put_bool(&mut object, "strip_uri", self.strip_uri);
        object_put_bool(&mut object, "preserve_host", self.preserve_host);
        object_put_text(&mut object, "upstream_url", self.upstream_url.as_str());
        object
    }
}

/// What an OAuth2 client presents.
#[derive(Debug, PartialEq, Eq)]
pub struct OAuth2Credentials {
    pub name: String,
    pub client_id: String,
    pub client_secret: String,
}

/// The content of [`OAuth2Credentials`], as a mathematical value.
pub struct OAuth2CredentialsView {
    pub name: Seq<char>,
    pub client_id: Seq<char>,
    pub client_secret: Seq<char>,
}

impl DeepView for OAuth2Credentials {
    type V = OAuth2CredentialsView;

    open spec fn deep_view(&self) -> OAuth2CredentialsView {
        OAuth2CredentialsView {
            name: self.name.deep_view(),
            client_id: self.client_id.deep_view(),
            client_secret: self.client_secret.deep_view(),
        }
    }
}

impl OAuth2CredentialsView {
    /// The members of the JSON object that stands for this value. A field that
    /// is unset has no member.
    pub open spec fn doc(self) -> Map<Seq<char>, JsonDoc> {
        let fields = no_fields();
        let fields = fields.insert("name"@, JsonDoc::Text(self.name));
        let fields = fields.insert("client_id"@, JsonDoc::Text(self.client_id));
        let fields = fields.insert("client_secret"@, JsonDoc::Text(self.client_secret));
        fields
    }
}

impl OAuth2Credentials {
    /// The JSON object that stands for this value.
    pub fn to_json(&self) -> (object: JsonObject)
        ensures
            object_fields(object) == self.deep_view().doc(),
    {
        let mut object = object_new();
        object_put_text(&mut object, "name", self.name.as_str());
        object_put_text(&mut object, "client_id", self.client_id.as_str());
        object_put_text(&mut object, "client_secret", self.client_secret.as_str());
        object
    }
}

/// How the tokens of a JWT issuer are checked.
#[derive(Debug, PartialEq, Eq)]
pub struct JwtCredentials {
    /// The issuer, as the tokens name it.
    pub key: String,
    pub algorithm: String,
    pub rsa_public_key: String,
}

/// The content of [`JwtCredentials`], as a mathematical value.
pub struct JwtCredentialsView {
    pub key: Seq<char>,
    pub algorithm: Seq<char>,
    pub rsa_public_key: Seq<char>,
}

impl DeepView for JwtCredentials {
    type V = JwtCredentialsView;

    open spec fn deep_view(&self) -> JwtCredentialsView {
        JwtCredentialsView {
            key: self.key.deep_view(),
            algorithm: self.algorithm.deep_view(),
            rsa_public_key: self.rsa_public_key.deep_view(),
        }
    }
}

impl JwtCredentialsView {
    /// The members of the JSON object that stands for this value. A field that
    /// is unset has no member.
    pub open spec fn doc(self) -> Map<Seq<char>, JsonDoc> {
        let fields = no_fields();
        let fields = fields.insert("key"@, JsonDoc::Text(self.key));
        let fields = fields.insert("algorithm"@, JsonDoc::Text(self.algorithm));
        let fields = fields.insert("rsa_public_key"@, JsonDoc::Text(self.rsa_public_key));
        fields
    }
}

impl JwtCredentials {
    /// The JSON object that stands for this value.
    pub fn to_json(&self) -> (object: JsonObject)
        ensures
            object_fields(object) == self.deep_view().doc(),
    {
        let mut object = object_new();
        object_put_text(&mut object, "key", self.key.as_str());
        object_put_text(&mut object, "algorithm", self.algorithm.as_str());
        object_put_text(&mut object, "rsa_public_key", self.rsa_public_key.as_str());
        object
    }
}

/// One API of the gateway: a route and its plugins.
#[derive(Debug, PartialEq, Eq)]
pub struct Api {
    /// The service the API routes to.
    pub name: String,
    /// The plugin entries, in the fixed order of the kinds.
    pub plugins: Vec<ApiPlugin>,
    pub attributes: ApiAttributes,
}

/// The content of [`Api`], as a mathematical value.
pub struct ApiView {
    pub name: Seq<char>,
    pub plugins: Seq<ApiPluginView>,
    pub attributes: ApiAttributesView,
}

impl DeepView for Api {
    type V = ApiView;

    open spec fn deep_view(&self) -> ApiView {
        ApiView {
            name: self.name.deep_view(),
            plugins: self.plugins.deep_view(),
            attributes: self.attributes.deep_view(),
        }
    }
}

impl ApiView {
    /// The members of the JSON object that stands for an API. A field that
    /// is unset has no member.
    pub open spec fn doc(self) -> Map<Seq<char>, JsonDoc> {
        let fields = no_fields();
        let fields = fields.insert("name"@, JsonDoc::Text(self.name));
        let fields = fields.insert("plugins"@, ApiPluginView::list_doc(self.plugins));
        let fields = fields.insert("attributes"@, JsonDoc::Object(self.attributes.doc()));
        fields
    }

    /// A list of such values as a JSON document.
    pub open spec fn list_doc(list: Seq<ApiView>) -> JsonDoc {
        JsonDoc::List(list.map_values(|item: ApiView| JsonDoc::Object(item.doc())))
    }
}

impl Api {
    /// The JSON object that stands for an API.
    pub fn to_json(&self) -> (object: JsonObject)
        ensures
            object_fields(object) == self.deep_view().doc(),
    {
        let mut object = object_new();
        object_put_text(&mut object, "name", self.name.as_str());
        object_put_list(&mut object, "plugins", ApiPlugin::list_to_json(&self.plugins));
        object_put_object(&mut object, "attributes", self.attributes.to_json());
        object
    }

    /// The JSON objects that stand for a list of such values, in order.
    pub fn list_to_json(list: &Vec<Api>) -> (objects: Vec<JsonObject>)
        ensures
            objects_doc(objects@) == ApiView::list_doc(list.deep_view()),
    {
        let mut objects: Vec<JsonObject> = Vec::new();
        let mut i: usize = 0;
        while i < list.len()
            invariant
                i <= list.len(),
                objects.len() == i,
                forall|j: int|
                    0 <= j < i ==> object_fields(#[trigger] objects@[j]) == list.deep_view()[j].doc(),
            decreases list.len() - i,
        {
            objects.push(list[i].to_json());
            i = i + 1;
        }
        assert(objects@.map_values(|item: JsonObject| JsonDoc::Object(object_fields(item)))
            =~= list.deep_view().map_values(|item: ApiView| JsonDoc::Object(item.doc())));
        objects
    }
}

/// A credential of a consumer.
#[derive(Debug, PartialEq, Eq)]
pub enum ConsumerCredentials {
    OAuth2(OAuth2Credentials),
    Jwt(JwtCredentials),
}

/// The content of [`ConsumerCredentials`], as a mathematical value.
pub enum ConsumerCredentialsView {
    OAuth2(OAuth2CredentialsView),
    Jwt(JwtCredentialsView),
}

impl DeepView for ConsumerCredentials {
    type V = ConsumerCredentialsView;

    open spec fn deep_view(&self) -> ConsumerCredentialsView {
        match self {
            ConsumerCredentials::OAuth2(c) => ConsumerCredentialsView::OAuth2(c.deep_view()),
            ConsumerCredentials::Jwt(c) => ConsumerCredentialsView::Jwt(c.deep_view()),
        }
    }
}

/// A named identity that may call the gateway, with its credentials.
#[derive(Debug, PartialEq, Eq)]
pub struct Consumer {
    pub username: String,
    pub credentials: Vec<ConsumerCredentials>,
}

/// The content of [`Consumer`], as a mathematical value.
pub struct ConsumerView {
    pub username: Seq<char>,
    pub credentials: Seq<ConsumerCredentialsView>,
}

impl DeepView for Consumer {
    type V = ConsumerView;

    open spec fn deep_view(&self) -> ConsumerView {
        ConsumerView {
            username: self.username.deep_view(),
            credentials: self.credentials.deep_view(),
        }
    }
}

impl ConsumerView {
    /// The members of the JSON object that stands for a consumer. A field that
    /// is unset has no member.
    pub open spec fn doc(self) -> Map<Seq<char>, JsonDoc> {
        let fields = no_fields();
        let fields = fields.insert("username"@, JsonDoc::Text(self.username));
        let fields = fields.insert("credentials"@, ConsumerCredentialsView::list_doc(self.credentials));
        fields
    }

    /// A list of such values as a JSON document.
    pub open spec fn list_doc(list: Seq<ConsumerView>) -> JsonDoc {
        JsonDoc::List(list.map_values(|item: ConsumerView| JsonDoc::Object(item.doc())))
    }
}

impl Consumer {
    /// The JSON object that stands for a consumer.
    pub fn to_json(&self) -> (object: JsonObject)
        ensures
            object_fields(object) == self.deep_view().doc(),
    {
        let mut object = object_new();
        object_put_text(&mut object, "username", self.username.as_str());
        object_put_list(&mut object, "credentials", ConsumerCredentials::list_to_json(&self.credentials));
        object
    }

    /// The JSON objects that stand for a list of such values, in order.
    pub fn list_to_json(list: &Vec<Consumer>) -> (objects: Vec<JsonObject>)
        ensures
            objects_doc(objects@) == ConsumerView::list_doc(list.deep_view()),
    {
        let mut objects: Vec<JsonObject> = Vec::new();
        let mut i: usize = 0;
        while i < list.len()
            invariant
                i <= list.len(),
                objects.len() == i,
                forall|j: int|
                    0 <= j < i ==> object_fields(#[trigger] objects@[j]) == list.deep_view()[j].doc(),
            decreases list.len() - i,
        {
            objects.push(list[i].to_json());
            i = i + 1;
        }
        assert(objects@.map_values(|item: JsonObject| JsonDoc::Object(object_fields(item)))
            =~= list.deep_view().map_values(|item: ConsumerView| JsonDoc::Object(item.doc())));
        objects
    }
}

/// The header that tells the upstream which service a request was routed to.
pub open spec fn upstream_service_header(service: Seq<char>) -> Seq<char> {
    "Upstream-Service: "@ + service
}

/// `part` with one more header at the end of its header list.
pub open spec fn with_header(part: HeadersQueryBodyView, header: Seq<char>) -> HeadersQueryBodyView {
    HeadersQueryBodyView {
        headers: Some(
            match part.headers {
                Some(list) => list.push(header),
                None => seq![header],
            },
        ),
        querystring: part.querystring,
        body: part.body,
    }
}

/// `config` with the identifying header of `service` among the headers that
/// it adds and among those that it replaces.
pub open spec fn with_upstream_header(
    config: RequestTransformerConfigView,
    service: Seq<char>,
) -> RequestTransformerConfigView {
    RequestTransformerConfigView {
        http_method: config.http_method,
        remove: config.remove,
        replace: with_header(config.replace, upstream_service_header(service)),
        add: with_header(config.add, upstream_service_header(service)),
        append: config.append,
        rename: config.rename,
    }
}

/// Whether the layers speak of any plugin of the route.
pub open spec fn any_configured(k: KongView) -> bool {
    ||| k.correlation_id.is_configured()
    ||| k.tcp_log.is_configured()
    ||| k.oauth2.is_configured()
    ||| k.jwt.is_configured()
    ||| k.jwt_validator.is_configured()
    ||| k.json_cookies_to_headers.is_configured()
    ||| k.json_cookies_csrf.is_configured()
    ||| k.request_transformer.is_configured()
}

/// The header transformation that the layers ask for, if they ask for one.
pub open spec fn explicit_transformer(k: KongView) -> RequestTransformerConfigView {
    match k.request_transformer {
        PluginSetting::Present(config) => config,
        _ => RequestTransformerConfigView::empty(),
    }
}

/// The entry of `kind` in the API of route `k`, if the kind has one.
///
/// Seven kinds follow their merged setting. Header transformation does not:
/// every route of which any plugin is configured has it present, with what
/// the layers ask of it and, in any case, the identifying header.
pub open spec fn entry_for(k: KongView, kind: PluginKind) -> Option<ApiPluginView> {
    match kind {
        PluginKind::CorrelationId => match resolved(k.correlation_id) {
            Some(b) => Some(ApiPluginView::CorrelationId(b)),
            None => None,
        },
        PluginKind::TcpLog => match resolved(k.tcp_log) {
            Some(b) => Some(ApiPluginView::TcpLog(b)),
            None => None,
        },
        PluginKind::Oauth2 => match resolved(k.oauth2) {
            Some(b) => Some(ApiPluginView::Oauth2(b)),
            None => None,
        },
        PluginKind::Jwt => match resolved(k.jwt) {
            Some(b) => Some(ApiPluginView::Jwt(b)),
            None => None,
        },
        PluginKind::JwtValidator => match resolved(k.jwt_validator) {
            Some(b) => Some(ApiPluginView::JwtValidator(b)),
            None => None,
        },
        PluginKind::JsonCookiesToHeaders => match resolved(k.json_cookies_to_headers) {
            Some(b) => Some(ApiPluginView::JsonCookiesToHeaders(b)),
            None => None,
        },
        PluginKind::JsonCookiesCsrf => match resolved(k.json_cookies_csrf) {
            Some(b) => Some(ApiPluginView::JsonCookiesCsrf(b)),
            None => None,
        },
        PluginKind::RequestTransformer => if any_configured(k) {
            Some(
                ApiPluginView::RequestTransformer(
                    PluginBase::spec_new(with_upstream_header(explicit_transformer(k), k.name)),
                ),
            )
        } else {
            None
        },
    }
}

/// An optional entry as a list of at most one.
pub open spec fn entry_seq(entry: Option<ApiPluginView>) -> Seq<ApiPluginView> {
    match entry {
        Some(p) => seq![p],
        None => Seq::empty(),
    }
}

/// The entries of the first `n` kinds of the fixed order, for route `k`.
pub open spec fn plugin_prefix(k: KongView, n: nat) -> Seq<ApiPluginView>
    decreases n,
{
    if n == 0 {
        Seq::empty()
    } else {
        plugin_prefix(k, (n - 1) as nat) + entry_seq(entry_for(k, PluginKind::at(n - 1)))
    }
}

/// The plugin entries of the API of route `k`: the entry of each kind that
/// has one, in the fixed order of the kinds.
pub open spec fn plugin_list(k: KongView) -> Seq<ApiPluginView> {
    plugin_prefix(k, 8)
}

/// The API of route `k`.
pub open spec fn api_view(k: KongView) -> ApiView {
    ApiView {
        name: k.name,
        plugins: plugin_list(k),
        attributes: ApiAttributesView {
            hosts: k.hosts,
            uris: match k.uris {
                Some(uri) => Some(seq![uri]),
                None => None,
            },
            strip_uri: k.strip_uri,
            preserve_host: k.preserve_host,
            upstream_url: k.upstream_url,
        },
    }
}

fn add_header(part: HeadersQueryBody, header: String) -> (changed: HeadersQueryBody)
    ensures
        changed.deep_view() == with_header(part.deep_view(), header@),
{
    let HeadersQueryBody { headers, querystring, body } = part;
    let mut list = match headers {
        Some(list) => list,
        None => Vec::new(),
    };
    let ghost before = list.deep_view();
    list.push(header);
    proof {
        assert(list.deep_view() =~= before.push(header@));
        if headers is None {
            assert(before =~= Seq::<Seq<char>>::empty());
            assert(list.deep_view() =~= seq![header@]);
        }
    }
    HeadersQueryBody { headers: Some(list), querystring, body }
}

fn add_upstream_header(config: RequestTransformerConfig, service: &str) -> (changed: RequestTransformerConfig)
    ensures
        changed.deep_view() == with_upstream_header(config.deep_view(), service@),
{
    let RequestTransformerConfig { http_method, remove, replace, add, append, rename } = config;
    RequestTransformerConfig {
        http_method,
        remove,
        replace: add_header(replace, join2("Upstream-Service: ", service)),
        add: add_header(add, join2("Upstream-Service: ", service)),
        append,
        rename,
    }
}

fn push_entry(plugins: &mut Vec<ApiPlugin>, entry: Option<ApiPlugin>)
    ensures
        final(plugins).deep_view() == old(plugins).deep_view() + entry_seq(entry.deep_view()),
{
    let ghost before = plugins.deep_view();
    match entry {
        Some(p) => {
            plugins.push(p);
            assert(plugins.deep_view() =~= before + seq![p.deep_view()]);
        },
        None => {
            assert(plugins.deep_view() =~= before + Seq::<ApiPluginView>::empty());
        },
    }
}

fn correlation_id_entry(setting: PluginSetting<CorrelationIdConfig>) -> (entry: Option<ApiPlugin>)
    ensures
        entry.deep_view() == match resolved(setting.deep_view()) {
            Some(b) => Some(ApiPluginView::CorrelationId(b)),
            None => None,
        },
{
    match resolve_setting(setting) {
        Some(b) => Some(ApiPlugin::CorrelationId(b)),
        None => None,
    }
}

fn tcp_log_entry(setting: PluginSetting<TcpLogConfig>) -> (entry: Option<ApiPlugin>)
    ensures
        entry.deep_view() == match resolved(setting.deep_view()) {
            Some(b) => Some(ApiPluginView::TcpLog(b)),
            None => None,
        },
{
    match resolve_setting(setting) {
        Some(b) => Some(ApiPlugin::TcpLog(b)),
        None => None,
    }
}

fn oauth2_entry(setting: PluginSetting<Oauth2Config>) -> (entry: Option<ApiPlugin>)
    ensures
        entry.deep_view() == match resolved(setting.deep_view()) {
            Some(b) => Some(ApiPluginView::Oauth2(b)),
            None => None,
        },
{
    match resolve_setting(setting) {
        Some(b) => Some(ApiPlugin::Oauth2(b)),
        None => None,
    }
}

fn jwt_entry(setting: PluginSetting<JwtConfig>) -> (entry: Option<ApiPlugin>)
    ensures
        entry.deep_view() == match resolved(setting.deep_view()) {
            Some(b) => Some(ApiPluginView::Jwt(b)),
            None => None,
        },
{
    match resolve_setting(setting) {
        Some(b) => Some(ApiPlugin::Jwt(b)),
        None => None,
    }
}

fn jwt_validator_entry(setting: PluginSetting<JwtValidatorConfig>) -> (entry: Option<ApiPlugin>)
    ensures
        entry.deep_view() == match resolved(setting.deep_view()) {
            Some(b) => Some(ApiPluginView::JwtValidator(b)),
            None => None,
        },
{
    match resolve_setting(setting) {
        Some(b) => Some(ApiPlugin::JwtValidator(b)),
        None => None,
    }
}

fn json_cookies_to_headers_entry(setting: PluginSetting<JsonCookiesToHeadersConfig>) -> (entry: Option<ApiPlugin>)
    ensures
        entry.deep_view() == match resolved(setting.deep_view()) {
            Some(b) => Some(ApiPluginView::JsonCookiesToHeaders(b)),
            None => None,
        },
{
    match resolve_setting(setting) {
        Some(b) => Some(ApiPlugin::JsonCookiesToHeaders(b)),
        None => None,
    }
}

fn json_cookies_csrf_entry(setting: PluginSetting<JsonCookiesCsrfConfig>) -> (entry: Option<ApiPlugin>)
    ensures
        entry.deep_view() == match resolved(setting.deep_view()) {
            Some(b) => Some(ApiPluginView::JsonCookiesCsrf(b)),
            None => None,
        },
{
    match resolve_setting(setting) {
        Some(b) => Some(ApiPlugin::JsonCookiesCsrf(b)),
        None => None,
    }
}

fn transformer_entry(
    setting: PluginSetting<RequestTransformerConfig>,
    configured: bool,
    service: &str,
) -> (entry: Option<ApiPlugin>)
    ensures
        entry.deep_view() == if configured {
            Some(
                ApiPluginView::RequestTransformer(
                    PluginBase::spec_new(
                        with_upstream_header(
                            match setting.deep_view() {
                                PluginSetting::Present(config) => config,
                                _ => RequestTransformerConfigView::empty(),
                            },
                            service@,
                        ),
                    ),
                ),
            )
        } else {
            None
        },
{
    if configured {
        let explicit = match setting {
            PluginSetting::Present(config) => config,
            _ => RequestTransformerConfig::default(),
        };
        Some(ApiPlugin::RequestTransformer(PluginBase::new(add_upstream_header(explicit, service))))
    } else {
        None
    }
}

fn uri_list(uris: Option<String>) -> (list: Option<Vec<String>>)
    ensures
        list.deep_view() == match uris.deep_view() {
            Some(uri) => Some(seq![uri]),
            None => None,
        },
{
    match uris {
        Some(uri) => {
            let mut list: Vec<String> = Vec::new();
            list.push(uri);
            assert(list.deep_view() =~= seq![uri@]);
            Some(list)
        },
        None => None,
    }
}

/// Derives the API of one route.
///
/// The plugin entries come in the fixed order of the kinds. A kind of which
/// no layer speaks has no entry, a kind that the winning layer removes has a
/// removal, and a present kind has its attributes, switched on. Header
/// transformation is present whenever any plugin is configured, and carries
/// the header `Upstream-Service: <service>` among those it adds and among
/// those it replaces.
pub fn api_of(route: Kong) -> (api: Api)
    ensures
        api.deep_view() == api_view(route.deep_view()),
{
    let ghost k = route.deep_view();
    let configured = route.correlation_id.configured() || route.tcp_log.configured()
        || route.oauth2.configured() || route.jwt.configured() || route.jwt_validator.configured()
        || route.json_cookies_to_headers.configured() || route.json_cookies_csrf.configured()
        || route.request_transformer.configured();
    assert(configured == any_configured(k));
    let Kong {
        name,
        upstream_url,
        uris,
        hosts,
        strip_uri,
        preserve_host,
        correlation_id,
        tcp_log,
        oauth2,
        jwt,
        jwt_validator,
        json_cookies_to_headers,
        json_cookies_csrf,
        request_transformer,
    } = route;
    let mut plugins: Vec<ApiPlugin> = Vec::new();
    assert(plugins.deep_view() =~= plugin_prefix(k, 0));
    push_entry(&mut plugins, correlation_id_entry(correlation_id));
    assert(plugins.deep_view() == plugin_prefix(k, 1));
    push_entry(&mut plugins, tcp_log_entry(tcp_log));
    assert(plugins.deep_view() == plugin_prefix(k, 2));
    push_entry(&mut plugins, oauth2_entry(oauth2));
    assert(plugins.deep_view() == plugin_prefix(k, 3));
    push_entry(&mut plugins, jwt_entry(jwt));
    assert(plugins.deep_view() == plugin_prefix(k, 4));
    push_entry(&mut plugins, jwt_validator_entry(jwt_validator));
    assert(plugins.deep_view() == plugin_prefix(k, 5));
    push_entry(&mut plugins, json_cookies_to_headers_entry(json_cookies_to_headers));
    assert(plugins.deep_view() == plugin_prefix(k, 6));
    push_entry(&mut plugins, json_cookies_csrf_entry(json_cookies_csrf));
    assert(plugins.deep_view() == plugin_prefix(k, 7));
    push_entry(&mut plugins, transformer_entry(request_transformer, configured, name.as_str()));
    assert(plugins.deep_view() == plugin_prefix(k, 8));
    Api {
        name,
        plugins,
        attributes: ApiAttributes { hosts, uris: uri_list(uris), strip_uri, preserve_host, upstream_url },
    }
}

/// The APIs of a list of routes, in the order of the routes.
pub open spec fn apis_view(routes: Seq<KongView>) -> Seq<ApiView> {
    routes.map_values(|k: KongView| api_view(k))
}

/// Derives the APIs of the gateway, one per route and in the order of the
/// routes.
pub fn kongfig_apis(routes: &Vec<Kong>) -> (apis: Vec<Api>)
    ensures
        apis.deep_view() == apis_view(routes.deep_view()),
{
    let mut apis: Vec<Api> = Vec::new();
    let mut i: usize = 0;
    while i < routes.len()
        invariant
            i <= routes.len(),
            apis.deep_view() =~= apis_view(routes.deep_view().take(i as int)),
        decreases routes.len() - i,
    {
        let ghost before = apis.deep_view();
        let api = api_of(routes[i].clone());
        apis.push(api);
        assert(apis.deep_view() =~= before.push(api.deep_view()));
        i = i + 1;
    }
    assert(routes.deep_view().take(i as int) =~= routes.deep_view());
    apis
}

/// The consumer that stands for callers without credentials.
pub open spec fn anonymous_consumer() -> ConsumerView {
    ConsumerView { username: "anonymous"@, credentials: Seq::empty() }
}

/// The credentials of a directory entry: its OAuth2 client, if it has one,
/// then its JWT issuer, if it has one. Tokens are signed with RS256.
pub open spec fn credentials_of(entry: ConsumerSourceView) -> Seq<ConsumerCredentialsView> {
    (match entry.oauth2 {
        Some(client) => seq![
            ConsumerCredentialsView::OAuth2(
                OAuth2CredentialsView {
                    name: entry.name,
                    client_id: client.client_id,
                    client_secret: client.client_secret,
                },
            ),
        ],
        None => Seq::empty(),
    }) + (match entry.jwt {
        Some(issuer) => seq![
            ConsumerCredentialsView::Jwt(
                JwtCredentialsView { key: issuer.kid, algorithm: "RS256"@, rsa_public_key: issuer.public_key },
            ),
        ],
        None => Seq::empty(),
    })
}

/// The consumer of a directory entry.
pub open spec fn consumer_of(entry: ConsumerSourceView) -> ConsumerView {
    ConsumerView { username: entry.name, credentials: credentials_of(entry) }
}

/// The consumers of the gateway: one per entry of the directory, in its
/// order, and the anonymous consumer last.
pub open spec fn consumers_view(directory: Seq<ConsumerSourceView>) -> Seq<ConsumerView> {
    directory.map_values(|entry: ConsumerSourceView| consumer_of(entry)).push(anonymous_consumer())
}

fn consumer_from(entry: &ConsumerSource) -> (consumer: Consumer)
    ensures
        consumer.deep_view() == consumer_of(entry.deep_view()),
{
    let mut credentials: Vec<ConsumerCredentials> = Vec::new();
    assert(credentials.deep_view() =~= Seq::<ConsumerCredentialsView>::empty());
    match &entry.oauth2 {
        Some(client) => {
            let c = ConsumerCredentials::OAuth2(
                OAuth2Credentials {
                    name: entry.name.clone(),
                    client_id: client.client_id.clone(),
                    client_secret: client.client_secret.clone(),
                },
            );
            credentials.push(c);
            assert(credentials.deep_view() =~= seq![c.deep_view()]);
        },
        None => {},
    }
    let ghost first = credentials.deep_view();
    match &entry.jwt {
        Some(issuer) => {
            let c = ConsumerCredentials::Jwt(
                JwtCredentials {
                    key: issuer.kid.clone(),
                    algorithm: String::from_str("RS256"),
                    rsa_public_key: issuer.public_key.clone(),
                },
            );
            credentials.push(c);
            assert(credentials.deep_view() =~= first + seq![c.deep_view()]);
        },
        None => {
            assert(credentials.deep_view() =~= first + Seq::<ConsumerCredentialsView>::empty());
        },
    }
    Consumer { username: entry.name.clone(), credentials }
}

/// Derives the consumers of the gateway from the consumer directory. The
/// anonymous consumer, which has no credentials, is always there, and last.
pub fn kongfig_consumers(directory: &Vec<ConsumerSource>) -> (consumers: Vec<Consumer>)
    ensures
        consumers.deep_view() == consumers_view(directory.deep_view()),
{
    let mut consumers: Vec<Consumer> = Vec::new();
    let mut i: usize = 0;
    while i < directory.len()
        invariant
            i <= directory.len(),
            consumers.deep_view() =~= directory.deep_view().take(i as int).map_values(
                |entry: ConsumerSourceView| consumer_of(entry),
            ),
        decreases directory.len() - i,
    {
        let ghost before = consumers.deep_view();
        let c = consumer_from(&directory[i]);
        consumers.push(c);
        assert(consumers.deep_view() =~= before.push(c.deep_view()));
        i = i + 1;
    }
    assert(directory.deep_view().take(i as int) =~= directory.deep_view());
    let ghost before = consumers.deep_view();
    let anonymous = Consumer { username: String::from_str("anonymous"), credentials: Vec::new() };
    assert(anonymous.credentials.deep_view() =~= Seq::<ConsumerCredentialsView>::empty());
    consumers.push(anonymous);
    assert(consumers.deep_view() =~= before.push(anonymous_consumer()));
    consumers
}

/// What a layer, or a route, says of a kind of plugin, without the
/// attributes.
pub open spec fn shape<T>(setting: PluginSetting<T>) -> PluginSetting<()> {
    match setting {
        PluginSetting::Unspecified => PluginSetting::Unspecified,
        PluginSetting::Removed => PluginSetting::Removed,
        PluginSetting::Present(_) => PluginSetting::Present(()),
    }
}

/// What a route says of a kind of plugin.
pub open spec fn route_state(k: KongView, kind: PluginKind) -> PluginSetting<()> {
    match kind {
        PluginKind::CorrelationId => shape(k.correlation_id),
        PluginKind::TcpLog => shape(k.tcp_log),
        PluginKind::Oauth2 => shape(k.oauth2),
        PluginKind::Jwt => shape(k.jwt),
        PluginKind::JwtValidator => shape(k.jwt_validator),
        PluginKind::JsonCookiesToHeaders => shape(k.json_cookies_to_headers),
        PluginKind::JsonCookiesCsrf => shape(k.json_cookies_csrf),
        PluginKind::RequestTransformer => shape(k.request_transformer),
    }
}

/// What a layer says of a kind of plugin.
pub open spec fn layer_state(layer: KongSourceView, kind: PluginKind) -> PluginSetting<()> {
    match kind {
        PluginKind::CorrelationId => shape(layer.correlation_id),
        PluginKind::TcpLog => shape(layer.tcp_log),
        PluginKind::Oauth2 => shape(layer.oauth2),
        PluginKind::Jwt => shape(layer.jwt),
        PluginKind::JwtValidator => shape(layer.jwt_validator),
        PluginKind::JsonCookiesToHeaders => shape(layer.json_cookies_to_headers),
        PluginKind::JsonCookiesCsrf => shape(layer.json_cookies_csrf),
        PluginKind::RequestTransformer => shape(layer.request_transformer),
    }
}

/// The entry of a kind is an entry of that kind.
pub proof fn lemma_entry_kind(k: KongView, kind: PluginKind)
    ensures
        entry_for(k, kind) matches Some(p) ==> p.kind() == kind,
{
}

/// The places of the fixed order and the kinds correspond one to one.
pub proof fn lemma_kind_rank(kind: PluginKind)
    ensures
        0 <= kind.rank() < 8,
        PluginKind::at(kind.rank()) == kind,
{
}

/// Of the first `n` kinds, the list holds exactly the entries that they
/// have, in the order of the kinds.
pub proof fn lemma_plugin_prefix(k: KongView, n: nat)
    requires
        n <= 8,
    ensures
        forall|p: ApiPluginView|
            plugin_prefix(k, n).contains(p) <==> (p.kind().rank() < n && entry_for(k, p.kind()) == Some(p)),
        forall|i: int, j: int|
            0 <= i < j < plugin_prefix(k, n).len() ==> (#[trigger] plugin_prefix(k, n)[i]).kind().rank() < (
            #[trigger] plugin_prefix(k, n)[j]).kind().rank(),
    decreases n,
{
    if n > 0 {
        let m = (n - 1) as nat;
        lemma_plugin_prefix(k, m);
        let prev = plugin_prefix(k, m);
        let kind = PluginKind::at(n - 1);
        let e = entry_for(k, kind);
        let cur = plugin_prefix(k, n);
        assert(cur == prev + entry_seq(e));
        lemma_entry_kind(k, kind);
        assert(kind.rank() == n - 1);
        assert forall|p: ApiPluginView| cur.contains(p) <==> (p.kind().rank() < n && entry_for(k, p.kind())
            == Some(p)) by {
            lemma_kind_rank(p.kind());
            if cur.contains(p) {
                let i = choose|i: int| 0 <= i < cur.len() && cur[i] == p;
                if i < prev.len() {
                    assert(prev[i] == p);
                    assert(prev.contains(p));
                } else {
                    assert(e == Some(p));
                }
            }
            if p.kind().rank() < n && entry_for(k, p.kind()) == Some(p) {
                if p.kind().rank() < m {
                    assert(prev.contains(p));
                    let i = choose|i: int| 0 <= i < prev.len() && prev[i] == p;
                    assert(cur[i] == p);
                } else {
                    assert(p.kind() == kind);
                    assert(cur[prev.len() as int] == p);
                }
            }
        }
        assert forall|i: int, j: int| 0 <= i < j < cur.len() implies (#[trigger] cur[i]).kind().rank() < (
        #[trigger] cur[j]).kind().rank() by {
            if j < prev.len() {
                assert(cur[i] == prev[i]);
                assert(cur[j] == prev[j]);
            } else {
                assert(cur[i] == prev[i]);
                assert(prev.contains(prev[i]));
            }
        }
    }
}

/// The plugin entries of an API come in the fixed order of the kinds, so
/// that no kind has two.
pub proof fn lemma_plugin_order(k: KongView)
    ensures
        forall|i: int, j: int|
            0 <= i < j < plugin_list(k).len() ==> (#[trigger] plugin_list(k)[i]).kind().rank() < (
            #[trigger] plugin_list(k)[j]).kind().rank(),
{
    lemma_plugin_prefix(k, 8);
}

/// The plugin entries of an API are the entries that the kinds have, and
/// no others.
pub proof fn lemma_plugin_entries(k: KongView, p: ApiPluginView)
    ensures
        plugin_list(k).contains(p) <==> entry_for(k, p.kind()) == Some(p),
{
    lemma_plugin_prefix(k, 8);
    lemma_kind_rank(p.kind());
}

/// The tri-state rule, for every kind but header transformation. A kind
/// that the route leaves unspecified has no entry in the API. A kind that
/// it removes has one entry, a removal. A kind that it has present has one
/// entry, which is no removal.
pub proof fn lemma_plugin_tristate(k: KongView, kind: PluginKind)
    requires
        kind != PluginKind::RequestTransformer,
    ensures
        route_state(k, kind) is Unspecified ==> forall|q: ApiPluginView|
            plugin_list(k).contains(q) ==> q.kind() != kind,
        route_state(k, kind) is Removed ==> entry_for(k, kind) is Some && entry_for(k, kind)->0.is_removal(),
        route_state(k, kind) is Present ==> entry_for(k, kind) is Some && !entry_for(k, kind)->0.is_removal(),
        route_state(k, kind).is_configured() ==> plugin_list(k).contains(entry_for(k, kind)->0)
            && forall|q: ApiPluginView|
            plugin_list(k).contains(q) && q.kind() == kind ==> q == entry_for(k, kind)->0,
{
    lemma_entry_kind(k, kind);
    assert forall|q: ApiPluginView| plugin_list(k).contains(q) && q.kind() == kind implies entry_for(k, kind)
        == Some(q) by {
        lemma_plugin_entries(k, q);
    }
    if route_state(k, kind).is_configured() {
        lemma_plugin_entries(k, entry_for(k, kind)->0);
    }
}

/// A removal in a higher layer suppresses a presence in a lower one: when
/// the higher layer removes a kind of plugin, the API of the route of the
/// merged layers holds a removal for the kind, and no other entry of it,
/// whatever the lower layer says. This holds of every kind but header
/// transformation.
pub proof fn lemma_removal_overrides_presence(
    base: KongSourceView,
    over: KongSourceView,
    service: Seq<char>,
    region: RegionView,
    hosts: Option<Seq<Seq<char>>>,
    kind: PluginKind,
)
    requires
        kind != PluginKind::RequestTransformer,
        layer_state(over, kind) is Removed,
    ensures
        ({
            let k = built_kong(base.merge(over), service, region, hosts);
            &&& entry_for(k, kind) is Some
            &&& entry_for(k, kind)->0.is_removal()
            &&& plugin_list(k).contains(entry_for(k, kind)->0)
            &&& forall|q: ApiPluginView| plugin_list(k).contains(q) && q.kind() == kind ==> q.is_removal()
        }),
{
    let k = built_kong(base.merge(over), service, region, hosts);
    assert(route_state(k, kind) is Removed);
    lemma_plugin_tristate(k, kind);
}

/// A kind of plugin that no layer mentions has no entry in the API of the
/// route of the merged layers. This holds of every kind but header
/// transformation.
pub proof fn lemma_unmentioned_plugin_absent(
    base: KongSourceView,
    over: KongSourceView,
    service: Seq<char>,
    region: RegionView,
    hosts: Option<Seq<Seq<char>>>,
    kind: PluginKind,
)
    requires
        kind != PluginKind::RequestTransformer,
        layer_state(base, kind) is Unspecified,
        layer_state(over, kind) is Unspecified,
    ensures
        forall|q: ApiPluginView|
            plugin_list(built_kong(base.merge(over), service, region, hosts)).contains(q) ==> q.kind() != kind,
{
    let k = built_kong(base.merge(over), service, region, hosts);
    assert(route_state(k, kind) is Unspecified);
    lemma_plugin_tristate(k, kind);
}

/// The headers of a part, as a list.
pub open spec fn headers_of(part: HeadersQueryBodyView) -> Seq<Seq<char>> {
    match part.headers {
        Some(list) => list,
        None => Seq::empty(),
    }
}

/// Every route of which any plugin is configured has header transformation
/// present and switched on, as the last entry of its API. Among the headers
/// that it adds, and among those that it replaces, are the ones that the
/// layers ask for and then `Upstream-Service: <service>`; when the layers
/// ask for no header transformation, that header is all there is.
pub proof fn lemma_upstream_header_injected(k: KongView)
    requires
        any_configured(k),
    ensures
        plugin_list(k).len() > 0,
        plugin_list(k).last() matches ApiPluginView::RequestTransformer(PluginBase::Present(attributes))
            && attributes.enabled && attributes.config.add.headers == Some(
            headers_of(explicit_transformer(k).add).push(upstream_service_header(k.name)),
        ) && attributes.config.replace.headers == Some(
            headers_of(explicit_transformer(k).replace).push(upstream_service_header(k.name)),
        ) && (!(k.request_transformer is Present) ==> attributes.config == RequestTransformerConfigView {
            http_method: None,
            remove: HeadersQueryBodyView::empty(),
            replace: HeadersQueryBodyView {
                headers: Some(seq![upstream_service_header(k.name)]),
                querystring: None,
                body: None,
            },
            add: HeadersQueryBodyView {
                headers: Some(seq![upstream_service_header(k.name)]),
                querystring: None,
                body: None,
            },
            append: HeadersQueryBodyView::empty(),
            rename: HeadersQueryBodyView::empty(),
        }),
{
    let e = entry_for(k, PluginKind::RequestTransformer);
    assert(plugin_list(k) == plugin_prefix(k, 7) + entry_seq(e));
    assert(Seq::<Seq<char>>::empty().push(upstream_service_header(k.name)) =~= seq![
        upstream_service_header(k.name),
    ]);
}

impl ConsumerCredentialsView {
    /// The members of the JSON object that stands for a credential: the
    /// name of its scheme, and its attributes.
    pub open spec fn doc(self) -> Map<Seq<char>, JsonDoc> {
        match self {
            ConsumerCredentialsView::OAuth2(c) => no_fields().insert("name"@, JsonDoc::Text("oauth2"@)).insert(
                "attributes"@,
                JsonDoc::Object(c.doc()),
            ),
            ConsumerCredentialsView::Jwt(c) => no_fields().insert("name"@, JsonDoc::Text("jwt"@)).insert(
                "attributes"@,
                JsonDoc::Object(c.doc()),
            ),
        }
    }

    /// A list of credentials as a JSON document.
    pub open spec fn list_doc(list: Seq<ConsumerCredentialsView>) -> JsonDoc {
        JsonDoc::List(list.map_values(|item: ConsumerCredentialsView| JsonDoc::Object(item.doc())))
    }
}

impl ConsumerCredentials {
    /// The JSON object that stands for a credential.
    pub fn to_json(&self) -> (object: JsonObject)
        ensures
            object_fields(object) == self.deep_view().doc(),
    {
        let mut object = object_new();
        match self {
            ConsumerCredentials::OAuth2(c) => {
                object_put_text(&mut object, "name", "oauth2");
                object_put_object(&mut object, "attributes", c.to_json());
            },
            ConsumerCredentials::Jwt(c) => {
                object_put_text(&mut object, "name", "jwt");
                object_put_object(&mut object, "attributes", c.to_json());
            },
        }
        object
    }

    /// The JSON objects that stand for a list of credentials, in order.
    pub fn list_to_json(list: &Vec<ConsumerCredentials>) -> (objects: Vec<JsonObject>)
        ensures
            objects_doc(objects@) == ConsumerCredentialsView::list_doc(list.deep_view()),
    {
        let mut objects: Vec<JsonObject> = Vec::new();
        let mut i: usize = 0;
        while i < list.len()
            invariant
                i <= list.len(),
                objects.len() == i,
                forall|j: int|
                    0 <= j < i ==> object_fields(#[trigger] objects@[j]) == list.deep_view()[j].doc(),
            decreases list.len() - i,
        {
            objects.push(list[i].to_json());
            i = i + 1;
        }
        assert(objects@.map_values(|item: JsonObject| JsonDoc::Object(object_fields(item)))
            =~= list.deep_view().map_values(|item: ConsumerCredentialsView| JsonDoc::Object(item.doc())));
        objects
    }
}

} // verus!
