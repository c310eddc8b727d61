use llm_plugin_utils::{
    api_docs_response, serve_api_docs, serve_icon, serve_manifest, serve_plugin_info, Body,
    ContentType, DiscoveryError, DiscoverySurface, Manifest, ManifestApi, ManifestAuth, Response,
    Status, MANIFEST_ROUTE,
};
use utoipa::openapi::{Info, OpenApi, Paths};

fn manifest(name: &str, api_url: &str, logo_url: &str) -> Manifest {
    Manifest::builder()
        .schema_version("v1")
        .name_for_human(name)
        .name_for_model("todo")
        .description_for_human("Manage a to-do list.")
        .description_for_model("Manage a to-do list: add, remove and view items.")
        .auth(ManifestAuth::NoAuth)
        .api(ManifestApi::Openapi { url: api_url.to_string(), is_user_authenticated: false })
        .logo_url(logo_url)
        .contact_email("support@example.com")
        .legal_info_url("http://example.com/legal")
        .build()
        .unwrap()
}

fn document() -> OpenApi {
    OpenApi::new(Info::new("todo", "0.1.0"), Paths::new())
}

fn png() -> Vec<u8> {
    vec![0x89, 0x50, 0x4E, 0x47]
}

fn surface(api_url: &str, logo_url: &str) -> DiscoverySurface {
    serve_plugin_info(manifest("Todo", api_url, logo_url), document(), Some(png())).unwrap()
}

#[test]
fn manifest_route_is_the_well_known_one() {
    assert_eq!(MANIFEST_ROUTE, "/.well-known/ai-plugin.json");
}

#[test]
fn api_route_is_the_path_of_the_api_url() {
    let s = surface("http://localhost:3030/openapi.yaml", "http://localhost:3030/logo.png");
    assert_eq!(s.api_route(), "/openapi.yaml");
}

#[test]
fn icon_route_is_the_path_of_the_logo_url() {
    let s = surface("http://localhost:3030/openapi.yaml", "http://localhost:3030/logo.png");
    assert_eq!(s.icon_route(), "/logo.png");
}

#[test]
fn routes_leave_out_query_and_fragment() {
    let s = surface("https://example.com/api/versions?page=2", "https://example.com/a/b.png#top");
    assert_eq!(s.api_route(), "/api/versions");
    assert_eq!(s.icon_route(), "/a/b.png");
}

#[test]
fn url_without_a_path_gives_the_root_route() {
    let s = surface("https://example.com", "https://example.com/");
    assert_eq!(s.api_route(), "/");
    assert_eq!(s.icon_route(), "/");
}

#[test]
fn api_docs_are_served_as_yaml() {
    let s = surface("http://localhost:3030/openapi.yaml", "http://localhost:3030/logo.png");
    let expected = document().to_yaml().unwrap();
    assert!(expected.contains("openapi"));
    assert_eq!(
        serve_api_docs(&s),
        Ok(Response {
            status: Status::Success,
            content_type: ContentType::Yaml,
            body: Body::Text(expected),
        })
    );
}

#[test]
fn icon_is_served_byte_for_byte() {
    let bytes: Vec<u8> = vec![0x89, 0x50, 0x4E, 0x47, 0x0D, 0x0A, 0x1A, 0x0A, 0, 255];
    let s = serve_plugin_info(
        manifest("Todo", "http://localhost:3030/openapi.yaml", "http://localhost:3030/logo.png"),
        document(),
        Some(bytes.clone()),
    )
    .unwrap();
    assert_eq!(s.icon_route(), "/logo.png");
    assert_eq!(
        serve_icon(&s),
        Ok(Response {
            status: Status::Success,
            content_type: ContentType::Png,
            body: Body::Bytes(bytes.clone()),
        })
    );
    assert_eq!(s.logo(), &bytes);
}

#[test]
fn empty_icon_is_served_empty() {
    let s = serve_plugin_info(
        manifest("Todo", "http://x/openapi.json", "http://x/logo.png"),
        document(),
        Some(Vec::new()),
    )
    .unwrap();
    assert_eq!(
        serve_icon(&s),
        Ok(Response {
            status: Status::Success,
            content_type: ContentType::Png,
            body: Body::Bytes(Vec::new()),
        })
    );
}

#[test]
fn manifest_route_serves_the_manifest_supplied() {
    let supplied = manifest("Todo", "http://x/openapi.json", "http://x/logo.png");
    let s = serve_plugin_info(supplied.clone(), document(), Some(png())).unwrap();
    let first = serve_manifest(&s);
    assert_eq!(
        first,
        Response {
            status: Status::Success,
            content_type: ContentType::Json,
            body: Body::Manifest(supplied.clone()),
        }
    );
    assert_eq!(s.manifest(), &supplied);
    let _ = serve_icon(&s);
    let _ = serve_api_docs(&s);
    assert_eq!(serve_manifest(&s), first);
}

#[test]
fn surface_holds_the_document_supplied() {
    let s = surface("http://x/openapi.json", "http://x/logo.png");
    assert!(s.openapi() == &document());
}

#[test]
fn malformed_api_url_prevents_startup() {
    let r = serve_plugin_info(
        manifest("Todo", "/openapi.yaml", "http://localhost:3030/logo.png"),
        document(),
        Some(png()),
    );
    assert_eq!(r.err(), Some(DiscoveryError::MalformedApiUrl));
}

#[test]
fn malformed_logo_url_prevents_startup() {
    let r = serve_plugin_info(
        manifest("Todo", "http://localhost:3030/openapi.yaml", "logo.png"),
        document(),
        Some(png()),
    );
    assert_eq!(r.err(), Some(DiscoveryError::MalformedLogoUrl));
}

#[test]
fn empty_url_prevents_startup() {
    let r = serve_plugin_info(manifest("Todo", "", "http://x/logo.png"), document(), Some(png()));
    assert_eq!(r.err(), Some(DiscoveryError::MalformedApiUrl));
}

#[test]
fn api_url_is_judged_before_logo_url_and_icon() {
    let r = serve_plugin_info(manifest("Todo", "no", "neither"), document(), None);
    assert_eq!(r.err(), Some(DiscoveryError::MalformedApiUrl));
    let r = serve_plugin_info(manifest("Todo", "http://x/a", "neither"), document(), None);
    assert_eq!(r.err(), Some(DiscoveryError::MalformedLogoUrl));
}

#[test]
fn unreadable_icon_prevents_startup() {
    let r = serve_plugin_info(
        manifest("Todo", "http://x/openapi.json", "http://x/logo.png"),
        document(),
        None,
    );
    assert_eq!(r.err(), Some(DiscoveryError::UnreadableIcon));
}

#[test]
fn surface_from_parts_keeps_the_parts() {
    let m = manifest("Todo", "http://x/openapi.json", "http://x/logo.png");
    let s = DiscoverySurface::from_parts(
        m.clone(),
        document(),
        Some("/docs".to_string()),
        Some("/icon".to_string()),
        Some(vec![1, 2, 3]),
    )
    .unwrap();
    assert_eq!(s.api_route(), "/docs");
    assert_eq!(s.icon_route(), "/icon");
    assert_eq!(s.logo(), &vec![1u8, 2, 3]);
    assert_eq!(s.manifest(), &m);
}

#[test]
fn surface_from_parts_names_the_first_part_missing() {
    let m = manifest("Todo", "http://x/openapi.json", "http://x/logo.png");
    let r = DiscoverySurface::from_parts(m.clone(), document(), None, None, None);
    assert_eq!(r.err(), Some(DiscoveryError::MalformedApiUrl));
    let r = DiscoverySurface::from_parts(m.clone(), document(), Some("/a".to_string()), None, None);
    assert_eq!(r.err(), Some(DiscoveryError::MalformedLogoUrl));
    let r = DiscoverySurface::from_parts(
        m,
        document(),
        Some("/a".to_string()),
        Some("/b".to_string()),
        None,
    );
    assert_eq!(r.err(), Some(DiscoveryError::UnreadableIcon));
}

#[test]
fn rendered_document_becomes_a_yaml_response() {
    assert_eq!(
        api_docs_response(Some("openapi: 3.0.3\n".to_string())),
        Ok(Response {
            status: Status::Success,
            content_type: ContentType::Yaml,
            body: Body::Text("openapi: 3.0.3\n".to_string()),
        })
    );
}

#[test]
fn document_that_cannot_be_rendered_is_a_server_error() {
    assert_eq!(api_docs_response(None), Err(Status::InternalServerError));
}

#[test]
fn statuses_have_their_codes() {
    assert_eq!(Status::Success.code(), 200);
    assert_eq!(Status::Created.code(), 201);
    assert_eq!(Status::Forbidden.code(), 403);
    assert_eq!(Status::NotFound.code(), 404);
    assert_eq!(Status::InternalServerError.code(), 500);
}

#[test]
fn media_types_have_their_header_values() {
    assert_eq!(ContentType::Json.header_value(), "application/json");
    assert_eq!(ContentType::Yaml.header_value(), "application/yaml");
    assert_eq!(ContentType::Png.header_value(), "image/png");
}

#[test]
fn todo_manifest_is_served_on_all_three_routes() {
    let supplied = manifest("Todo", "http://x/openapi.json", "http://x/logo.png");
    let stub = OpenApi::default();
    let s = serve_plugin_info(supplied, stub.clone(), Some(vec![0x89, 0x50, 0x4E, 0x47])).unwrap();
    assert_eq!(s.api_route(), "/openapi.json");
    assert_eq!(s.icon_route(), "/logo.png");
    for _ in 0..3 {
        let served = serve_manifest(&s);
        assert_eq!(served.status, Status::Success);
        assert_eq!(served.content_type, ContentType::Json);
        match &served.body {
            Body::Manifest(m) => {
                assert_eq!(m.schema_version(), "v1");
                assert_eq!(m.name_for_human(), "Todo");
                assert_eq!(m.api().url(), "http://x/openapi.json");
            }
            _ => panic!("the manifest route serves the manifest"),
        }
        let docs = serve_api_docs(&s).unwrap();
        assert_eq!(docs.status, Status::Success);
        assert_eq!(docs.content_type, ContentType::Yaml);
        assert_eq!(docs.body, Body::Text(stub.to_yaml().unwrap()));
        let icon = serve_icon(&s).unwrap();
        assert_eq!(icon.status, Status::Success);
        assert_eq!(icon.content_type, ContentType::Png);
        assert_eq!(icon.body, Body::Bytes(vec![0x89, 0x50, 0x4E, 0x47]));
    }
}
