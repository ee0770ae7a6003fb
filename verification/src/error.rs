//! The ways in which resolving a manifest, or deriving from it, can fail.

use vstd::prelude::*;
use crate::strings::{join2, join3};
use crate::structs::Metadata;

verus! {

/// A field that every manifest must set.
#[derive(Clone, Copy, Debug, PartialEq, Eq)]
pub enum Field {
    Name,
    Metadata,
    Version,
}

impl Field {
    /// The field's name as it is written in a manifest.
    pub open spec fn spec_label(self) -> Seq<char> {
        match self {
            Field::Name => "name"@,
            Field::Metadata => "metadata"@,
            Field::Version => "version"@,
        }
    }

    /// The field's name as it is written in a manifest.
    pub fn label(&self) -> (text: &'static str)
        ensures
            text@ == self.spec_label(),
    {
        match self {
            Field::Name => "name",
            Field::Metadata => "metadata",
            Field::Version => "version",
        }
    }
}

/// A failure. None is recovered from inside the library: each reaches the
/// caller as the result of the call that met it.
#[derive(Debug, PartialEq, Eq)]
pub enum ShipcatError {
    /// A required field is set in no layer.
    MissingField(Field),
    /// The metadata names a team that the team directory does not hold.
    UnknownTeam(String),
    /// Neither an image nor an image prefix is set.
    ImagePrefixUndefined,
    /// A configuration file's template is at neither of the two places where
    /// it is looked for.
    MissingTemplate { template: String, service_path: String, shared_path: String },
    /// A gateway route is switched on, and matches neither a path nor a host.
    EmptyRoute(String),
    /// A gateway route of the named service has an empty host label.
    MalformedHost(String),
    /// A deployment's service name is not its manifest's name.
    NameMismatch,
    /// A document could not be written as JSON; the text is the writer's.
    Json(String),
    /// A region has no cluster to log in to.
    NoCluster(String),
    /// The tool that logs in to a cluster is not installed.
    TshNotFound,
    /// A template could not be rendered; the text is the renderer's.
    Template(String),
}

/// The content of [`ShipcatError`], as a mathematical value.
pub enum ShipcatErrorView {
    MissingField(Field),
    UnknownTeam(Seq<char>),
    ImagePrefixUndefined,
    MissingTemplate { template: Seq<char>, service_path: Seq<char>, shared_path: Seq<char> },
    EmptyRoute(Seq<char>),
    MalformedHost(Seq<char>),
    NameMismatch,
    Json(Seq<char>),
    NoCluster(Seq<char>),
    TshNotFound,
    Template(Seq<char>),
}

impl DeepView for ShipcatError {
    type V = ShipcatErrorView;

    open spec fn deep_view(&self) -> ShipcatErrorView {
        match self {
            ShipcatError::MissingField(f) => ShipcatErrorView::MissingField(*f),
            ShipcatError::UnknownTeam(t) => ShipcatErrorView::UnknownTeam(t@),
            ShipcatError::ImagePrefixUndefined => ShipcatErrorView::ImagePrefixUndefined,
            ShipcatError::MissingTemplate { template, service_path, shared_path } => ShipcatErrorView::MissingTemplate {
                template: template@,
                service_path: service_path@,
                shared_path: shared_path@,
            },
            ShipcatError::EmptyRoute(s) => ShipcatErrorView::EmptyRoute(s@),
            ShipcatError::MalformedHost(s) => ShipcatErrorView::MalformedHost(s@),
            ShipcatError::NameMismatch => ShipcatErrorView::NameMismatch,
            ShipcatError::Json(s) => ShipcatErrorView::Json(s@),
            ShipcatError::NoCluster(s) => ShipcatErrorView::NoCluster(s@),
            ShipcatError::TshNotFound => ShipcatErrorView::TshNotFound,
            ShipcatError::Template(s) => ShipcatErrorView::Template(s@),
        }
    }
}

impl ShipcatErrorView {
    /// The message shown to the user.
    pub open spec fn text(self) -> Seq<char> {
        match self {
            ShipcatErrorView::MissingField(f) => f.spec_label() + " is required"@,
            ShipcatErrorView::UnknownTeam(_) => "The team name must match one of the team names in shipcat.conf"@,
            ShipcatErrorView::ImagePrefixUndefined => "image prefix is not defined"@,
            ShipcatErrorView::MissingTemplate { template, service_path, shared_path } => "Template "@ + template
                + " does not exist in neither "@ + service_path + " nor "@ + shared_path,
            ShipcatErrorView::EmptyRoute(s) => "Gateway route of "@ + s + " matches neither a path nor a host"@,
            ShipcatErrorView::MalformedHost(s) => "Gateway route of "@ + s + " has an empty host label"@,
            ShipcatErrorView::NameMismatch => "manifest name does not match service name"@,
            ShipcatErrorView::Json(s) => s,
            ShipcatErrorView::NoCluster(region) => "Region "@ + region + " does not have a cluster"@,
            ShipcatErrorView::TshNotFound => "tsh not found. please install tsh --> https://gravitational.com/teleport/download/\nDownload link for MacOS --> https://get.gravitational.com/teleport-v4.4.9-darwin-amd64-bin.tar.gz\nYou must install version 4.4.9 and not higher versions"@,
            ShipcatErrorView::Template(s) => s,
        }
    }
}

impl ShipcatError {
    /// The message shown to the user. It names the field, the team, the
    /// paths or the service that the failure is about.
    pub fn message(&self) -> (text: String)
        ensures
            text@ == self.deep_view().text(),
    {
        match self {
            ShipcatError::MissingField(f) => join2(f.label(), " is required"),
            ShipcatError::UnknownTeam(_) => String::from_str(
                "The team name must match one of the team names in shipcat.conf",
            ),
            ShipcatError::ImagePrefixUndefined => String::from_str("image prefix is not defined"),
            ShipcatError::MissingTemplate { template, service_path, shared_path } => {
                let mut text = join3("Template ", template.as_str(), " does not exist in neither ");
                text.append(service_path.as_str());
                text.append(" nor ");
                text.append(shared_path.as_str());
                text
            },
            ShipcatError::EmptyRoute(s) => join3("Gateway route of ", s.as_str(), " matches neither a path nor a host"),
            ShipcatError::MalformedHost(s) => join3("Gateway route of ", s.as_str(), " has an empty host label"),
            ShipcatError::NameMismatch => String::from_str("manifest name does not match service name"),
            ShipcatError::Json(s) => s.clone(),
            ShipcatError::NoCluster(region) => join3("Region ", region.as_str(), " does not have a cluster"),
            ShipcatError::TshNotFound => String::from_str(
                "tsh not found. please install tsh --> https://gravitational.com/teleport/download/\nDownload link for MacOS --> https://get.gravitational.com/teleport-v4.4.9-darwin-amd64-bin.tar.gz\nYou must install version 4.4.9 and not higher versions",
            ),
            ShipcatError::Template(s) => s.clone(),
        }
    }
}

/// The content of a result, on either side.
pub open spec fn result_view<T: DeepView, E: DeepView>(r: Result<T, E>) -> Result<T::V, E::V> {
    match r {
        Ok(t) => Ok(t.deep_view()),
        Err(e) => Err(e.deep_view()),
    }
}

} // verus!
