//! The discovery surface: the manifest, the API description and the icon,
//! with the routes they are served on.

use crate::http::{Body, BodyView, ContentType, Response, ResponseView, Status};
use crate::manifest::{Manifest, ManifestView};
use crate::text::text_view;
use utoipa::openapi::OpenApi;
use vstd::prelude::*;
use vstd::string::*;

verus! {

/// The fixed route of the manifest.
pub const MANIFEST_ROUTE: &'static str = "/.well-known/ai-plugin.json";

/// `utoipa`'s OpenAPI document, carried through as an opaque value.
#[verifier::external_type_specification]
#[verifier::external_body]
pub struct ExOpenApi(OpenApi);

/// The path component of `input` read as an absolute URL, or `None` where
/// `input` is not one: what `url::Url::parse` followed by `url::Url::path`
/// gives.
pub uninterp spec fn url_path(input: Seq<char>) -> Option<Seq<char>>;

/// Calls `url::Url::parse` on `input` and, where that succeeds,
/// `url::Url::path` on the parsed URL. The contract only gives the outcome
/// its name, [`url_path`]: parsing succeeds exactly where the name is
/// `Some`, and the path returned is the one it holds.
#[verifier::external_body]
fn parse_url_path(input: &str) -> (r: Option<String>)
    ensures
        match r {
            Some(p) => url_path(input@) == Some(p@),
            None => url_path(input@) is None,
        },
{
    match url::Url::parse(input) {
        Ok(parsed) => Some(parsed.path().to_string()),
        Err(_) => None,
    }
}

/// The YAML text of `document`, or `None` where the document cannot be
/// written as YAML: what `utoipa::openapi::OpenApi::to_yaml` gives.
pub uninterp spec fn yaml_of(document: OpenApi) -> Option<Seq<char>>;

/// Calls `utoipa::openapi::OpenApi::to_yaml`, which hands the document to
/// `serde_yaml::to_string`. The contract only gives the outcome its name,
/// [`yaml_of`]: the text where serialization succeeds, `None` where it
/// fails.
#[verifier::external_body]
fn render_yaml(document: &OpenApi) -> (r: Option<String>)
    ensures
        text_view(r) == yaml_of(*document),
{
    document.to_yaml().ok()
}

/// Why the discovery surface could not be set up.
#[derive(Debug, Clone, Copy, PartialEq, Eq, Structural)]
pub enum DiscoveryError {
    /// The manifest's `api.url` is not an absolute URL.
    MalformedApiUrl,
    /// The manifest's `logo_url` is not an absolute URL.
    MalformedLogoUrl,
    /// The icon could not be read.
    UnreadableIcon,
}

/// Everything the discovery routes serve, fixed once at startup.
pub struct DiscoverySurface {
    manifest: Manifest,
    openapi: OpenApi,
    logo: Vec<u8>,
    api_route: String,
    icon_route: String,
}

/// Mathematical content of a [`DiscoverySurface`].
pub struct SurfaceView {
    pub manifest: ManifestView,
    pub openapi: OpenApi,
    pub logo: Seq<u8>,
    pub api_route: Seq<char>,
    pub icon_route: Seq<char>,
}

impl View for DiscoverySurface {
    type V = SurfaceView;

    closed spec fn view(&self) -> SurfaceView {
        SurfaceView {
            manifest: self.manifest@,
            openapi: self.openapi,
            logo: self.logo@,
            api_route: self.api_route@,
            icon_route: self.icon_route@,
        }
    }
}

/// The surface put together from a manifest, the API description, the two
/// paths found in the manifest's URLs and the icon, each of the last three
/// possibly missing. The first thing missing, in that order, decides the
/// failure.
pub open spec fn assembled(
    manifest: ManifestView,
    openapi: OpenApi,
    api_path: Option<Seq<char>>,
    icon_path: Option<Seq<char>>,
    icon: Option<Seq<u8>>,
) -> Result<SurfaceView, DiscoveryError> {
    if api_path is None {
        Err(DiscoveryError::MalformedApiUrl)
    } else if icon_path is None {
        Err(DiscoveryError::MalformedLogoUrl)
    } else if icon is None {
        Err(DiscoveryError::UnreadableIcon)
    } else {
        Ok(
            SurfaceView {
                manifest,
                openapi,
                logo: icon->0,
                api_route: api_path->0,
                icon_route: icon_path->0,
            },
        )
    }
}

/// The surface that startup yields for a manifest, an API description and
/// the outcome of reading the icon: the API description is served on the
/// path of `api.url`, the icon on the path of `logo_url`.
pub open spec fn startup(manifest: ManifestView, openapi: OpenApi, icon: Option<Seq<u8>>) -> Result<
    SurfaceView,
    DiscoveryError,
> {
    assembled(manifest, openapi, url_path(manifest.api.url()), url_path(manifest.logo_url), icon)
}

/// View of optional bytes.
pub open spec fn bytes_view(s: Option<Vec<u8>>) -> Option<Seq<u8>> {
    match s {
        Some(b) => Some(b@),
        None => None,
    }
}

impl DiscoverySurface {
    /// Puts the surface together from its parts, or says which part is
    /// missing: the route of the API description, the route of the icon, or
    /// the icon itself, in that order.
    pub fn from_parts(
        manifest: Manifest,
        openapi: OpenApi,
        api_path: Option<String>,
        icon_path: Option<String>,
        icon: Option<Vec<u8>>,
    ) -> (r: Result<DiscoverySurface, DiscoveryError>)
        ensures
            match r {
                Ok(s) => assembled(
                    manifest@,
                    openapi,
                    text_view(api_path),
                    text_view(icon_path),
                    bytes_view(icon),
                ) == Ok::<SurfaceView, DiscoveryError>(s@),
                Err(e) => assembled(
                    manifest@,
                    openapi,
                    text_view(api_path),
                    text_view(icon_path),
                    bytes_view(icon),
                ) == Err::<SurfaceView, DiscoveryError>(e),
            },
    {
        let api_route = match api_path {
            Some(p) => p,
            None => { return Err(DiscoveryError::MalformedApiUrl); },
        };
        let icon_route = match icon_path {
            Some(p) => p,
            None => { return Err(DiscoveryError::MalformedLogoUrl); },
        };
        let logo = match icon {
            Some(b) => b,
            None => { return Err(DiscoveryError::UnreadableIcon); },
        };
        Ok(DiscoverySurface { manifest, openapi, logo, api_route, icon_route })
    }
}

/// Sets up the discovery surface for `manifest`: derives the route of the
/// API description from `api.url` and that of the icon from `logo_url`, and
/// takes in the icon, `None` standing for a file that could not be read.
/// Fails on the first of: a malformed `api.url`, a malformed `logo_url`, an
/// unreadable icon.
pub fn serve_plugin_info(manifest: Manifest, api: OpenApi, icon: Option<Vec<u8>>) -> (r: Result<
    DiscoverySurface,
    DiscoveryError,
>)
    ensures
        match r {
            Ok(s) => startup(manifest@, api, bytes_view(icon)) == Ok::<SurfaceView, DiscoveryError>(
                s@,
            ),
            Err(e) => startup(manifest@, api, bytes_view(icon)) == Err::<
                SurfaceView,
                DiscoveryError,
            >(e),
        },
{
    let api_path = parse_url_path(manifest.api().url());
    let icon_path = parse_url_path(manifest.logo_url());
    DiscoverySurface::from_parts(manifest, api, api_path, icon_path, icon)
}

impl DiscoverySurface {
    /// The manifest the surface was set up with.
    pub fn manifest(&self) -> (r: &Manifest)
        ensures
            r@ == self@.manifest,
    {
        &self.manifest
    }

    /// The API description the surface was set up with.
    pub fn openapi(&self) -> (r: &OpenApi)
        ensures
            *r == self@.openapi,
    {
        &self.openapi
    }

    /// The bytes of the icon.
    pub fn logo(&self) -> (r: &Vec<u8>)
        ensures
            r@ == self@.logo,
    {
        &self.logo
    }

    /// The route on which the API description is served.
    pub fn api_route(&self) -> (r: &str)
        ensures
            r@ == self@.api_route,
    {
        self.api_route.as_str()
    }

    /// The route on which the icon is served.
    pub fn icon_route(&self) -> (r: &str)
        ensures
            r@ == self@.icon_route,
    {
        self.icon_route.as_str()
    }
}

/// The response on the manifest route: the manifest, as JSON.
pub open spec fn manifest_response(surface: SurfaceView) -> ResponseView {
    ResponseView {
        status: Status::Success,
        content_type: ContentType::Json,
        body: BodyView::Manifest(surface.manifest),
    }
}

/// The response made of the outcome of rendering a document as YAML: the
/// text, or a server error where rendering failed.
pub open spec fn api_docs_outcome(rendered: Option<Seq<char>>) -> Result<ResponseView, Status> {
    match rendered {
        Some(text) => Ok(
            ResponseView {
                status: Status::Success,
                content_type: ContentType::Yaml,
                body: BodyView::Text(text),
            },
        ),
        None => Err(Status::InternalServerError),
    }
}

/// The response on the API description's route: the document held, written
/// as YAML.
pub open spec fn api_docs_reply(surface: SurfaceView) -> Result<ResponseView, Status> {
    api_docs_outcome(yaml_of(surface.openapi))
}

/// The response on the icon's route: the icon's bytes, as a PNG image.
pub open spec fn icon_response(surface: SurfaceView) -> ResponseView {
    ResponseView {
        status: Status::Success,
        content_type: ContentType::Png,
        body: BodyView::Bytes(surface.logo),
    }
}

/// View of a handler's outcome.
pub open spec fn outcome_view(r: Result<Response, Status>) -> Result<ResponseView, Status> {
    match r {
        Ok(response) => Ok(response@),
        Err(status) => Err(status),
    }
}

/// Answers a GET on the manifest route with the manifest held by `state`.
pub fn serve_manifest(state: &DiscoverySurface) -> (r: Response)
    ensures
        r@ == manifest_response(state@),
{
    Response {
        status: Status::Success,
        content_type: ContentType::Json,
        body: Body::Manifest(state.manifest.clone()),
    }
}

/// Turns the outcome of rendering the API description into the response:
/// the rendered text with the YAML media type, or a server error where
/// there is none.
pub fn api_docs_response(rendered: Option<String>) -> (r: Result<Response, Status>)
    ensures
        outcome_view(r) == api_docs_outcome(text_view(rendered)),
{
    match rendered {
        Some(text) => Ok(
            Response {
                status: Status::Success,
                content_type: ContentType::Yaml,
                body: Body::Text(text),
            },
        ),
        None => Err(Status::InternalServerError),
    }
}

/// Answers a GET on the API description's route: renders the document held
/// by `state` as YAML and serves the text, or a server error where the
/// document cannot be rendered.
pub fn serve_api_docs(state: &DiscoverySurface) -> (r: Result<Response, Status>)
    ensures
        outcome_view(r) == api_docs_reply(state@),
{
    api_docs_response(render_yaml(&state.openapi))
}

/// Answers a GET on the icon's route with the icon's bytes.
pub fn serve_icon(state: &DiscoverySurface) -> (r: Result<Response, Status>)
    ensures
        outcome_view(r) == Ok::<ResponseView, Status>(icon_response(state@)),
{
    Ok(
        Response {
            status: Status::Success,
            content_type: ContentType::Png,
            body: Body::Bytes(state.logo.clone()),
        },
    )
}

/// A surface exists exactly when both URLs of the manifest are absolute
/// URLs and the icon was read; a malformed `api.url` or `logo_url` always
/// prevents startup.
pub proof fn lemma_startup_succeeds_iff_inputs_good(
    manifest: ManifestView,
    openapi: OpenApi,
    icon: Option<Seq<u8>>,
)
    ensures
        startup(manifest, openapi, icon) is Ok <==> url_path(manifest.api.url()) is Some
            && url_path(manifest.logo_url) is Some && icon is Some,
        url_path(manifest.api.url()) is None ==> startup(manifest, openapi, icon) == Err::<
            SurfaceView,
            DiscoveryError,
        >(DiscoveryError::MalformedApiUrl),
        url_path(manifest.api.url()) is Some && url_path(manifest.logo_url) is None ==> startup(
            manifest,
            openapi,
            icon,
        ) == Err::<SurfaceView, DiscoveryError>(DiscoveryError::MalformedLogoUrl),
{
}

/// Whatever startup was given is what the routes serve: the API description
/// on the path of `api.url`, the icon's bytes on the path of `logo_url`,
/// and on the manifest route the very manifest that was supplied. No
/// operation changes a surface once it exists.
pub proof fn lemma_routes_serve_what_startup_was_given(
    manifest: ManifestView,
    openapi: OpenApi,
    icon: Option<Seq<u8>>,
)
    requires
        startup(manifest, openapi, icon) is Ok,
    ensures
        ({
            let surface = startup(manifest, openapi, icon)->Ok_0;
            &&& Some(surface.api_route) == url_path(manifest.api.url())
            &&& Some(surface.icon_route) == url_path(manifest.logo_url)
            &&& api_docs_reply(surface) == api_docs_outcome(yaml_of(openapi))
            &&& manifest_response(surface).status == Status::Success
            &&& manifest_response(surface).content_type == ContentType::Json
            &&& manifest_response(surface).body == BodyView::Manifest(manifest)
            &&& icon_response(surface).status == Status::Success
            &&& icon_response(surface).content_type == ContentType::Png
            &&& Some(icon_response(surface).body) == Some(BodyView::Bytes(icon->0))
        }),
{
}

} // verus!
