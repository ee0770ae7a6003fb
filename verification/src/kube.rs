//! Deployments: the context that a deployment template is rendered with,
//! and the commands that ship a version.
//!
//! Rendering is not done here. A renderer is handed in, and asked for each
//! text; the context that it is given is a `tera::Context`.

use vstd::prelude::*;
use crate::context::{
    context_fields, context_insert_list, context_insert_object, context_insert_opt_text,
    context_insert_text, context_new, opt_text_doc,
};
use crate::error::ShipcatError;
use crate::json::{
    no_fields, object_fields, object_new, object_put_list, object_put_text, objects_doc, texts_doc,
    texts_object, with_doc, JsonDoc, JsonObject,
};
use crate::manifest::{Manifest, ManifestView};
use crate::strings::{join2, join3, same_text};
use crate::structs::{AutoScalingView, ConfigMap, ConfigMapView, Port, PortView};

verus! {

/// A configuration file with its content rendered.
#[derive(Debug, PartialEq, Eq)]
pub struct RenderedConfig {
    /// The file name under the mount point.
    pub name: String,
    pub rendered: String,
}

/// The content of [`RenderedConfig`], as a mathematical value.
pub struct RenderedConfigView {
    pub name: Seq<char>,
    pub rendered: Seq<char>,
}

impl DeepView for RenderedConfig {
    type V = RenderedConfigView;

    open spec fn deep_view(&self) -> RenderedConfigView {
        RenderedConfigView {
            name: self.name.deep_view(),
            rendered: self.rendered.deep_view(),
        }
    }
}

impl Clone for RenderedConfig {
    fn clone(&self) -> (copy: Self)
        ensures
            copy.deep_view() == self.deep_view(),
    {
        let copy = RenderedConfig {
            name: self.name.clone(),
            rendered: self.rendered.clone(),
        };
        copy
    }
}

impl RenderedConfigView {
    /// The members of the JSON object that stands for a rendered file. A field that
    /// is unset has no member.
    pub open spec fn doc(self) -> Map<Seq<char>, JsonDoc> {
        let fields = no_fields();
        let fields = fields.insert("name"@, JsonDoc::Text(self.name));
        let fields = fields.insert("rendered"@, JsonDoc::Text(self.rendered));
        fields
    }

    /// A list of such values as a JSON document.
    pub open spec fn list_doc(list: Seq<RenderedConfigView>) -> JsonDoc {
        JsonDoc::List(list.map_values(|item: RenderedConfigView| JsonDoc::Object(item.doc())))
    }
}

impl RenderedConfig {
    /// The JSON object that stands for a rendered file.
    pub fn to_json(&self) -> (object: JsonObject)
        ensures
            object_fields(object) == self.deep_view().doc(),
    {
        let mut object = object_new();
        object_put_text(&mut object, "name", self.name.as_str());
        object_put_text(&mut object, "rendered", self.rendered.as_str());
        object
    }

    /// The JSON objects that stand for a list of such values, in order.
    pub fn list_to_json(list: &Vec<RenderedConfig>) -> (objects: Vec<JsonObject>)
        ensures
            objects_doc(objects@) == RenderedConfigView::list_doc(list.deep_view()),
    {
        let mut objects: Vec<JsonObject> = Vec::new();
        let mut i: usize = 0;
        while i < list.len()
            invariant
                i <= list.len(),
                objects.len() == i,
                forall|j: int|
                    0 <= j < i ==> object_fields(#[trigger] objects@[j]) == list.deep_view()[j].doc(),
            decreases list.len() - i,
        {
            objects.push(list[i].to_json());
            i = i + 1;
        }
        assert(objects@.map_values(|item: JsonObject| JsonDoc::Object(object_fields(item)))
            =~= list.deep_view().map_values(|item: RenderedConfigView| JsonDoc::Object(item.doc())));
        objects
    }
}

/// The configuration files of a service with their content rendered.
#[derive(Debug, PartialEq, Eq)]
pub struct ConfigMapRendered {
    pub name: String,
    /// The directory the files are mounted under.
    pub path: String,
    pub files: Vec<RenderedConfig>,
}

/// The content of [`ConfigMapRendered`], as a mathematical value.
pub struct ConfigMapRenderedView {
    pub name: Seq<char>,
    pub path: Seq<char>,
    pub files: Seq<RenderedConfigView>,
}

impl DeepView for ConfigMapRendered {
    type V = ConfigMapRenderedView;

    open spec fn deep_view(&self) -> ConfigMapRenderedView {
        ConfigMapRenderedView {
            name: self.name.deep_view(),
            path: self.path.deep_view(),
            files: self.files.deep_view(),
        }
    }
}

impl Clone for ConfigMapRendered {
    fn clone(&self) -> (copy: Self)
        ensures
            copy.deep_view() == self.deep_view(),
    {
        let copy = ConfigMapRendered {
            name: self.name.clone(),
            path: self.path.clone(),
            files: self.files.clone(),
        };
        proof {
            assert(copy.files.deep_view() =~= self.files.deep_view());
        }
        copy
    }
}

impl ConfigMapRenderedView {
    /// The members of the JSON object that stands for rendered configuration files. A field that
    /// is unset has no member.
    pub open spec fn doc(self) -> Map<Seq<char>, JsonDoc> {
        let fields = no_fields();
        let fields = fields.insert("name"@, JsonDoc::Text(self.name));
        let fields = fields.insert("path"@, JsonDoc::Text(self.path));
        let fields = fields.insert("files"@, RenderedConfigView::list_doc(self.files));
        fields
    }
}

impl ConfigMapRendered {
    /// The JSON object that stands for rendered configuration files.
    pub fn to_json(&self) -> (object: JsonObject)
        ensures
            object_fields(object) == self.deep_view().doc(),
    {
        let mut object = object_new();
        object_put_text(&mut object, "name", self.name.as_str());
        object_put_text(&mut object, "path", self.path.as_str());
        object_put_list(&mut object, "files", RenderedConfig::list_to_json(&self.files));
        object
    }
}

/// What is deployed: a service, where it goes, and its manifest.
#[derive(Debug, PartialEq, Eq)]
pub struct Deployment {
    /// The service; the name of the manifest.
    pub service: String,
    /// The environment, such as `dev` or `prod`.
    pub environment: String,
    /// The location, such as `uk`.
    pub location: String,
    pub manifest: Manifest,
}

/// The content of [`Deployment`], as a mathematical value.
pub struct DeploymentView {
    pub service: Seq<char>,
    pub environment: Seq<char>,
    pub location: Seq<char>,
    pub manifest: ManifestView,
}

impl DeepView for Deployment {
    type V = DeploymentView;

    open spec fn deep_view(&self) -> DeploymentView {
        DeploymentView {
            service: self.service.deep_view(),
            environment: self.environment.deep_view(),
            location: self.location.deep_view(),
            manifest: self.manifest.deep_view(),
        }
    }
}

impl Default for RenderedConfig {
    fn default() -> (file: Self)
        ensures
            file.deep_view() == (RenderedConfigView { name: Seq::empty(), rendered: Seq::empty() }),
    {
        RenderedConfig { name: String::new(), rendered: String::new() }
    }
}

impl Default for ConfigMapRendered {
    fn default() -> (config: Self)
        ensures
            config.deep_view() == (ConfigMapRenderedView {
                name: Seq::empty(),
                path: Seq::empty(),
                files: Seq::empty(),
            }),
    {
        let files: Vec<RenderedConfig> = Vec::new();
        assert(files.deep_view() =~= Seq::<RenderedConfigView>::empty());
        ConfigMapRendered { name: String::new(), path: String::new(), files }
    }
}

impl Deployment {
    /// Checks that the deployment is of the service that its manifest is
    /// for.
    pub fn check(&self) -> (checked: Result<(), ShipcatError>)
        ensures
            checked is Ok <==> self.deep_view().service == self.deep_view().manifest.name,
            checked matches Err(e) ==> e == ShipcatError::NameMismatch,
    {
        if same_text(self.service.as_str(), self.manifest.name.as_str()) {
            Ok(())
        } else {
            Err(ShipcatError::NameMismatch)
        }
    }
}

/// The name of the region of a deployment: its environment, a hyphen, its
/// location.
pub open spec fn region_label(environment: Seq<char>, location: Seq<char>) -> Seq<char> {
    environment + "-"@ + location
}

/// What the base context of a deployment holds: the environment variables
/// under `env`, the service under `service` and the region under `region`.
pub open spec fn base_context_fields(dep: DeploymentView) -> Map<Seq<char>, JsonDoc> {
    no_fields().insert("env"@, JsonDoc::Object(texts_doc(dep.manifest.env))).insert(
        "service"@,
        JsonDoc::Text(dep.service),
    ).insert("region"@, JsonDoc::Text(region_label(dep.environment, dep.location)))
}

/// The base context of a deployment, with the variables that every
/// template may use.
pub fn make_base_context(dep: &Deployment) -> (ctx: tera::Context)
    ensures
        context_fields(ctx) == base_context_fields(dep.deep_view()),
{
    let region = join3(dep.environment.as_str(), "-", dep.location.as_str());
    let mut ctx = context_new();
    context_insert_object(&mut ctx, "env", &texts_object(&dep.manifest.env));
    context_insert_text(&mut ctx, "service", dep.service.as_str());
    context_insert_text(&mut ctx, "region", region.as_str());
    ctx
}

/// The rendered configuration files of a configuration map, given the
/// rendered text of each file in order.
pub open spec fn assembled_config(config: ConfigMapView, texts: Seq<Seq<char>>) -> ConfigMapRenderedView {
    ConfigMapRenderedView {
        name: config.name->0,
        path: config.mount,
        files: Seq::new(
            config.files.len(),
            |i: int| RenderedConfigView { name: config.files[i].dest, rendered: texts[i] },
        ),
    }
}

/// Assembles the rendered configuration files of a configuration map from
/// the rendered text of each file, in order. The map must have its name.
pub fn assemble_config(config: &ConfigMap, texts: Vec<String>) -> (rendered: ConfigMapRendered)
    requires
        config.name is Some,
        texts.len() == config.files.len(),
    ensures
        rendered.deep_view() == assembled_config(config.deep_view(), texts.deep_view()),
{
    let mut files: Vec<RenderedConfig> = Vec::new();
    let mut i: usize = 0;
    while i < config.files.len()
        invariant
            i <= config.files.len(),
            texts.len() == config.files.len(),
            files.len() == i,
            forall|j: int|
                0 <= j < i ==> (#[trigger] files.deep_view()[j]) == (RenderedConfigView {
                    name: config.files.deep_view()[j].dest,
                    rendered: texts.deep_view()[j],
                }),
        decreases config.files.len() - i,
    {
        let ghost before = files.deep_view();
        let file = RenderedConfig { name: config.files[i].dest.clone(), rendered: texts[i].clone() };
        files.push(file);
        assert(files.deep_view() =~= before.push(file.deep_view()));
        i = i + 1;
    }
    let name = match &config.name {
        Some(name) => name.clone(),
        None => String::new(),
    };
    assert(files.deep_view() =~= assembled_config(config.deep_view(), texts.deep_view()).files);
    ConfigMapRendered { name, path: config.mount.clone(), files }
}

/// Whether `text` is what the renderer gave for the template `template`
/// with the base context of the deployment.
pub open spec fn rendered_by<F: Fn(&str, &tera::Context) -> Result<String, ShipcatError>>(
    render: F,
    dep: DeploymentView,
    template: Seq<char>,
    text: Seq<char>,
) -> bool {
    exists|name: &str, ctx: &tera::Context, out: String|
        name@ == template && context_fields(*ctx) == base_context_fields(dep) && out@ == text
            && #[trigger] call_ensures(render, (name, ctx), Ok::<String, ShipcatError>(out))
}

/// Whether `e` is the failure that the renderer gave for the template
/// `template` with the base context of the deployment.
pub open spec fn refused_by<F: Fn(&str, &tera::Context) -> Result<String, ShipcatError>>(
    render: F,
    dep: DeploymentView,
    template: Seq<char>,
    e: ShipcatError,
) -> bool {
    exists|name: &str, ctx: &tera::Context|
        name@ == template && context_fields(*ctx) == base_context_fields(dep) && #[trigger] call_ensures(
            render,
            (name, ctx),
            Err::<String, ShipcatError>(e),
        )
}

/// Whether `config` is what the renderer makes of the configuration files
/// of the deployment: nothing where it has none, and else its files
/// assembled from texts that the renderer gave, each for its own template
/// with the base context.
pub open spec fn is_rendering<F: Fn(&str, &tera::Context) -> Result<String, ShipcatError>>(
    render: F,
    dep: DeploymentView,
    config: Option<ConfigMapRenderedView>,
) -> bool {
    match dep.manifest.configs {
        None => config is None,
        Some(c) => config is Some && exists|texts: Seq<Seq<char>>|
            texts.len() == c.files.len() && config->0 == #[trigger] assembled_config(c, texts)
                && forall|i: int|
                0 <= i < texts.len() ==> rendered_by(render, dep, c.files[i].name, #[trigger] texts[i]),
    }
}

/// Whether the renderer gave a text for the template `template` with the
/// base context of the deployment.
pub open spec fn was_rendered<F: Fn(&str, &tera::Context) -> Result<String, ShipcatError>>(
    render: F,
    dep: DeploymentView,
    template: Seq<char>,
) -> bool {
    exists|text: Seq<char>| #[trigger] rendered_by(render, dep, template, text)
}

/// Whether `e` is the failure on which rendering the configuration files
/// of the deployment stopped: the renderer gave it for one of the files,
/// and gave a text for every file before that one.
pub open spec fn config_refused<F: Fn(&str, &tera::Context) -> Result<String, ShipcatError>>(
    render: F,
    dep: DeploymentView,
    e: ShipcatError,
) -> bool {
    dep.manifest.configs matches Some(c) && exists|i: int|
        0 <= i < c.files.len() && refused_by(render, dep, (#[trigger] c.files[i]).name, e) && forall|j: int|
            0 <= j < i ==> was_rendered(render, dep, (#[trigger] c.files[j]).name)
}

/// Whether the renderer refuses nothing: whatever it is asked, it gives a
/// text.
pub open spec fn never_refuses<F: Fn(&str, &tera::Context) -> Result<String, ShipcatError>>(
    render: F,
) -> bool {
    forall|name: &str, ctx: &tera::Context, e: ShipcatError|
        !#[trigger] call_ensures(render, (name, ctx), Err::<String, ShipcatError>(e))
}

/// Renders the configuration files of a deployment by the given renderer:
/// each file in order, its template by name, with the base context. The
/// first file that the renderer fails on decides the failure: the files
/// before it were rendered, and its failure is what comes back.
///
/// What comes back when all are rendered is assembled from the rendered
/// texts as [`assemble_config`] says; what the texts are is for the renderer
/// to say. A deployment without configuration files has none rendered.
pub fn render_configs<F: Fn(&str, &tera::Context) -> Result<String, ShipcatError>>(
    dep: &Deployment,
    render: &F,
) -> (rendered: Result<Option<ConfigMapRendered>, ShipcatError>)
    requires
        forall|name: &str, ctx: &tera::Context| call_requires(*render, (name, ctx)),
        dep.manifest.configs matches Some(c) ==> c.name is Some,
    ensures
        dep.manifest.configs is None ==> rendered matches Ok(None),
        rendered matches Ok(None) ==> dep.manifest.configs is None,
        rendered matches Ok(Some(r)) ==> dep.manifest.configs is Some && exists|texts: Seq<Seq<char>>|
            texts.len() == dep.manifest.configs->0.files.len() && r.deep_view() == assembled_config(
                dep.manifest.configs->0.deep_view(),
                texts,
            ) && forall|i: int|
                0 <= i < texts.len() ==> rendered_by(
                    *render,
                    dep.deep_view(),
                    dep.manifest.configs->0.deep_view().files[i].name,
                    #[trigger] texts[i],
                ),
        rendered matches Ok(r) ==> is_rendering(*render, dep.deep_view(), r.deep_view()),
        rendered matches Err(e) ==> config_refused(*render, dep.deep_view(), e),
{
    match &dep.manifest.configs {
        None => Ok(None),
        Some(config) => {
            let ghost files = config.deep_view().files;
            let mut texts: Vec<String> = Vec::new();
            let mut i: usize = 0;
            while i < config.files.len()
                invariant
                    i <= config.files.len(),
                    texts.len() == i,
                    dep.manifest.configs == Some(*config),
                    files == config.deep_view().files,
                    forall|name: &str, ctx: &tera::Context| call_requires(*render, (name, ctx)),
                    forall|j: int|
                        0 <= j < i ==> rendered_by(
                            *render,
                            dep.deep_view(),
                            files[j].name,
                            #[trigger] texts.deep_view()[j],
                        ),
                decreases config.files.len() - i,
            {
                let ctx = make_base_context(dep);
                let ghost before = texts.deep_view();
                match render(config.files[i].name.as_str(), &ctx) {
                    Ok(text) => {
                        texts.push(text);
                        proof {
                            assert(texts.deep_view() =~= before.push(text@));
                            assert(rendered_by(*render, dep.deep_view(), files[i as int].name, text@));
                        }
                    },
                    Err(e) => {
                        proof {
                            assert(refused_by(*render, dep.deep_view(), files[i as int].name, e));
                            assert forall|j: int| 0 <= j < i implies was_rendered(
                                *render,
                                dep.deep_view(),
                                (#[trigger] files[j]).name,
                            ) by {
                                assert(rendered_by(*render, dep.deep_view(), files[j].name, before[j]));
                            }
                            assert(config_refused(*render, dep.deep_view(), e));
                        }
                        return Err(e);
                    },
                }
                i = i + 1;
            }
            let ghost all = texts.deep_view();
            let rendered = assemble_config(config, texts);
            assert(all.len() == config.files.len());
            assert(rendered.deep_view() == assembled_config(config.deep_view(), all));
            assert(is_rendering(*render, dep.deep_view(), Some(rendered.deep_view())));
            Ok(Some(rendered))
        },
    }
}

/// How the replicas of a deployment are replaced: one after another when
/// their number can vary, and not said otherwise.
pub open spec fn replication_strategy(scaling: Option<AutoScalingView>) -> Option<Seq<char>> {
    match scaling {
        Some(s) => if s.max_replicas != s.min_replicas {
            Some("rolling"@)
        } else {
            None
        },
        None => None,
    }
}

/// What the full context of a deployment holds: what the base context
/// holds, and the rendered configuration files under `config` when there
/// are any, the image under `image`, the ports under `ports`, the health
/// check under `health` when there is one, the replication strategy, or
/// null, under `replication_strategy`, and the whole manifest under `mf`.
pub open spec fn full_context_fields(
    dep: DeploymentView,
    config: Option<ConfigMapRenderedView>,
) -> Map<Seq<char>, JsonDoc> {
    with_doc(
        with_doc(
            base_context_fields(dep),
            "config"@,
            match config {
                Some(c) => Some(JsonDoc::Object(c.doc())),
                None => None,
            },
        ).insert("image"@, JsonDoc::Text(dep.manifest.image->0)).insert(
            "ports"@,
            PortView::list_doc(dep.manifest.ports),
        ),
        "health"@,
        match dep.manifest.health {
            Some(h) => Some(JsonDoc::Object(h.doc())),
            None => None,
        },
    ).insert("replication_strategy"@, opt_text_doc(replication_strategy(dep.manifest.auto_scaling))).insert(
        "mf"@,
        JsonDoc::Object(dep.manifest.doc()),
    )
}

/// The full context of a deployment, with the variables that the
/// deployment template may use. `config` holds the rendered configuration
/// files, if the deployment has any. The manifest must have its image.
pub fn full_context(dep: &Deployment, config: &Option<ConfigMapRendered>) -> (ctx: tera::Context)
    requires
        dep.manifest.image is Some,
    ensures
        context_fields(ctx) == full_context_fields(dep.deep_view(), config.deep_view()),
{
    let mut ctx = make_base_context(dep);
    match config {
        Some(c) => context_insert_object(&mut ctx, "config", &c.to_json()),
        None => {},
    }
    match &dep.manifest.image {
        Some(image) => context_insert_text(&mut ctx, "image", image.as_str()),
        None => {},
    }
    context_insert_list(&mut ctx, "ports", &Port::list_to_json(&dep.manifest.ports));
    match &dep.manifest.health {
        Some(h) => context_insert_object(&mut ctx, "health", &h.to_json()),
        None => {},
    }
    let strategy = match &dep.manifest.auto_scaling {
        Some(s) => if s.max_replicas != s.min_replicas {
            Some(String::from_str("rolling"))
        } else {
            None
        },
        None => None,
    };
    context_insert_opt_text(&mut ctx, "replication_strategy", &strategy);
    context_insert_object(&mut ctx, "mf", &dep.manifest.to_json());
    ctx
}

/// Whether `fields` is what the full context of the deployment holds, with
/// its configuration files as the renderer rendered them.
pub open spec fn is_full_context<F: Fn(&str, &tera::Context) -> Result<String, ShipcatError>>(
    render: F,
    dep: DeploymentView,
    fields: Map<Seq<char>, JsonDoc>,
) -> bool {
    exists|config: Option<ConfigMapRenderedView>|
        is_rendering(render, dep, config) && fields == #[trigger] full_context_fields(dep, config)
}

/// Whether `answer` is what the renderer gave for the deployment template
/// with the full context of the deployment.
pub open spec fn generated_by<F: Fn(&str, &tera::Context) -> Result<String, ShipcatError>>(
    render: F,
    dep: DeploymentView,
    answer: Result<String, ShipcatError>,
) -> bool {
    exists|name: &str, ctx: &tera::Context|
        name@ == deployment_template() && is_full_context(render, dep, context_fields(*ctx))
            && #[trigger] call_ensures(render, (name, ctx), answer)
}

/// Builds the full context of a deployment: renders its configuration
/// files by the given renderer, then assembles the context as
/// [`full_context`] says.
///
/// The context holds the configuration files as the renderer rendered
/// them. The only failure is the renderer's, of a configuration file: a
/// deployment without configuration files always has its context, and so
/// has any deployment when the renderer refuses nothing.
pub fn make_full_deployment_context<F: Fn(&str, &tera::Context) -> Result<String, ShipcatError>>(
    dep: &Deployment,
    render: &F,
) -> (ctx: Result<tera::Context, ShipcatError>)
    requires
        forall|name: &str, ctx: &tera::Context| call_requires(*render, (name, ctx)),
        dep.manifest.configs matches Some(c) ==> c.name is Some,
        dep.manifest.image is Some,
    ensures
        ctx matches Ok(c) ==> is_full_context(*render, dep.deep_view(), context_fields(c)),
        ctx matches Err(e) ==> config_refused(*render, dep.deep_view(), e),
        (dep.manifest.configs matches Some(c) ==> c.files.len() == 0) ==> ctx is Ok,
        never_refuses(*render) ==> ctx is Ok,
{
    match render_configs(dep, render) {
        Ok(config) => Ok(full_context(dep, &config)),
        Err(e) => Err(e),
    }
}

/// The name of the template that a deployment is generated from.
pub open spec fn deployment_template() -> Seq<char> {
    "deployment.yaml.j2"@
}

/// Generates the deployment of a service: builds the full context and
/// renders the deployment template with it, by the given renderer. What the
/// text is, is for the renderer to say; where it goes is for the caller.
///
/// The text is what the renderer gives for the deployment template with the
/// full context. A failure is the renderer's: of a configuration file, or of
/// the deployment template. When the renderer refuses nothing, there is a
/// text.
pub fn generate<F: Fn(&str, &tera::Context) -> Result<String, ShipcatError>>(dep: &Deployment, render: &F) -> (text:
    Result<String, ShipcatError>)
    requires
        forall|name: &str, ctx: &tera::Context| call_requires(*render, (name, ctx)),
        dep.manifest.configs matches Some(c) ==> c.name is Some,
        dep.manifest.image is Some,
    ensures
        text is Ok ==> generated_by(*render, dep.deep_view(), text),
        text matches Err(e) ==> config_refused(*render, dep.deep_view(), e) || generated_by(
            *render,
            dep.deep_view(),
            text,
        ),
        never_refuses(*render) ==> text is Ok,
{
    match make_full_deployment_context(dep, render) {
        Ok(ctx) => {
            let text = render("deployment.yaml.j2", &ctx);
            text
        },
        Err(e) => Err(e),
    }
}

/// Whether a deployment can be generated: its manifest has its image, and
/// its configuration files, if any, have their name.
pub fn can_generate(dep: &Deployment) -> (ready: bool)
    ensures
        ready == (dep.manifest.image is Some && (dep.manifest.configs matches Some(c) ==> c.name is Some)),
{
    dep.manifest.image.is_some() && match &dep.manifest.configs {
        Some(c) => c.name.is_some(),
        None => true,
    }
}

/// Where a generated deployment is written, and what is written there: the
/// text and a line end.
pub fn output_file(text: &str) -> (file: (String, String))
    ensures
        file.0@ == "./OUTPUT/values.yaml"@,
        file.1@ == text@ + "\n"@,
{
    (String::from_str("./OUTPUT/values.yaml"), join2(text, "\n"))
}

/// The commands, each a list of arguments to the cluster's command-line
/// tool, that ship a version of a service: a check that a context is set,
/// then the change of the image of the deployment.
pub open spec fn ship_commands(env: Seq<char>, tag: Seq<char>, mf: ManifestView) -> Seq<Seq<Seq<char>>> {
    seq![
        seq!["config"@, "current-context"@],
        seq![
            "set"@,
            "image"@,
            "deployment/"@ + mf.name,
            mf.name + "="@ + mf.image->0 + ":"@ + tag,
            "-n"@,
            env,
        ],
    ]
}

fn push_arg(args: &mut Vec<String>, arg: String)
    ensures
        final(args).deep_view() == old(args).deep_view().push(arg@),
{
    let ghost before = args.deep_view();
    args.push(arg);
    assert(args.deep_view() =~= before.push(arg@));
}

/// The commands that ship the version `tag` of a service to the namespace
/// `env`, in the order in which they are to be run. The manifest must have
/// its image.
pub fn ship(env: &str, tag: &str, mf: &Manifest) -> (commands: Vec<Vec<String>>)
    requires
        mf.image is Some,
    ensures
        commands.deep_view() == ship_commands(env@, tag@, mf.deep_view()),
{
    let mut sanity: Vec<String> = Vec::new();
    assert(sanity.deep_view() =~= Seq::<Seq<char>>::empty());
    push_arg(&mut sanity, String::from_str("config"));
    push_arg(&mut sanity, String::from_str("current-context"));
    let mut image = join2(mf.name.as_str(), "=");
    match &mf.image {
        Some(i) => image.append(i.as_str()),
        None => {},
    }
    image.append(":");
    image.append(tag);
    let mut set: Vec<String> = Vec::new();
    assert(set.deep_view() =~= Seq::<Seq<char>>::empty());
    push_arg(&mut set, String::from_str("set"));
    push_arg(&mut set, String::from_str("image"));
    push_arg(&mut set, join2("deployment/", mf.name.as_str()));
    push_arg(&mut set, image);
    push_arg(&mut set, String::from_str("-n"));
    push_arg(&mut set, String::from_str(env));
    let mut commands: Vec<Vec<String>> = Vec::new();
    commands.push(sanity);
    commands.push(set);
    assert(sanity.deep_view() =~= ship_commands(env@, tag@, mf.deep_view())[0]);
    assert(set.deep_view() =~= ship_commands(env@, tag@, mf.deep_view())[1]);
    assert(commands.deep_view() =~= ship_commands(env@, tag@, mf.deep_view()));
    commands
}

/// The commands that ship a version of a service, or none for a manifest
/// without an image.
pub fn try_ship(env: &str, tag: &str, mf: &Manifest) -> (commands: Option<Vec<Vec<String>>>)
    ensures
        commands is Some <==> mf.image is Some,
        commands matches Some(c) ==> c.deep_view() == ship_commands(env@, tag@, mf.deep_view()),
{
    if mf.image.is_some() {
        Some(ship(env, tag, mf))
    } else {
        None
    }
}

} // verus!
