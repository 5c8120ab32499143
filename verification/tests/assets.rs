use engine::resources::{build_file_reference, format_url, resolve_on, AssetLocation, AssetResolver};
use engine::start;

#[test]
fn empty_source_starts_nothing() {
    assert_eq!(start(""), None);
}

#[test]
fn directory_source_starts_with_a_local_resolver() {
    assert_eq!(start("duck"), Some(AssetResolver::Local { base_path: String::from("duck") }));
}

#[test]
fn url_source_starts_with_a_remote_resolver() {
    let source = "https://example.net/models/duck";
    assert_eq!(start(source), Some(AssetResolver::Remote { base_url: String::from(source) }));
}

#[test]
fn resolver_is_selected_by_whether_the_source_parses_as_a_url() {
    assert_eq!(AssetResolver::for_source("models/duck"), AssetResolver::Local { base_path: String::from("models/duck") });
    assert_eq!(AssetResolver::for_source("//example.net/duck"), AssetResolver::Local { base_path: String::from("//example.net/duck") });
    assert_eq!(AssetResolver::for_source("http://example.net"), AssetResolver::Remote { base_url: String::from("http://example.net") });
    assert_eq!(AssetResolver::select("x", true), AssetResolver::Remote { base_url: String::from("x") });
    assert_eq!(AssetResolver::select("x", false), AssetResolver::Local { base_path: String::from("x") });
}

#[test]
fn file_reference_joins_path_and_name_with_a_slash() {
    assert_eq!(build_file_reference("https://example.net/duck", "scene.gltf"), "https://example.net/duck/scene.gltf");
    assert_eq!(build_file_reference("", ""), "/");
}

#[test]
fn remote_file_url_lies_below_the_scene_url() {
    let url = format_url("https://example.net/models/duck", "scene.gltf");
    assert_eq!(url, Some(String::from("https://example.net/models/duck/scene.gltf")));
}

#[test]
fn remote_file_url_is_normalized() {
    let url = format_url("https://EXAMPLE.net/a/../models", "textures/./wood.png");
    assert_eq!(url, Some(String::from("https://example.net/models/textures/wood.png")));
}

#[test]
fn no_url_for_a_file_below_a_path_that_is_no_url() {
    assert_eq!(format_url("models/duck", "scene.gltf"), None);
    assert_eq!(format_url("", "scene.gltf"), None);
}

#[test]
fn local_resolver_locates_files_in_its_directory() {
    let resolver = AssetResolver::for_source("duck");
    assert_eq!(resolver.base(), "duck");
    let location = resolver.locate("scene.bin");
    assert_eq!(location, Some(AssetLocation::File { base_path: String::from("duck"), name: String::from("scene.bin") }));
}

#[test]
fn remote_resolver_locates_files_by_url() {
    let resolver = AssetResolver::for_source("https://example.net/duck");
    assert_eq!(resolver.base(), "https://example.net/duck");
    let location = resolver.locate("scene.bin");
    assert_eq!(location, Some(AssetLocation::Url { url: String::from("https://example.net/duck/scene.bin") }));
}

#[test]
fn location_follows_the_url_of_the_file() {
    let remote = AssetResolver::select("base", true);
    assert_eq!(remote.locate_at("a.bin", None), None);
    let url = Some(String::from("https://example.net/a.bin"));
    assert_eq!(remote.locate_at("a.bin", url), Some(AssetLocation::Url { url: String::from("https://example.net/a.bin") }));
    let local = AssetResolver::select("base", false);
    let expected = Some(AssetLocation::File { base_path: String::from("base"), name: String::from("a.bin") });
    assert_eq!(local.locate_at("a.bin", None), expected);
    assert_eq!(local.locate_at("a.bin", Some(String::from("ignored"))), expected);
}

#[test]
fn nothing_is_resolved_where_parsing_gave_no_url() {
    assert_eq!(resolve_on(None, "https://example.net/a.bin"), None);
}

#[test]
fn references_are_resolved_on_the_parsed_url() {
    let base = Some(String::from("https://example.net/a/b.html"));
    assert_eq!(resolve_on(base, "c.png"), Some(String::from("https://example.net/a/c.png")));
    let base = Some(String::from("https://example.net/a/b/"));
    assert_eq!(resolve_on(base, "../c.png"), Some(String::from("https://example.net/a/c.png")));
    let base = Some(String::from("https://alice.com/a"));
    assert_eq!(resolve_on(base, "http://eve.com/b"), Some(String::from("http://eve.com/b")));
    let base = Some(String::from("mailto:someone@example.net"));
    assert_eq!(resolve_on(base, "c.png"), None);
}

#[test]
fn remote_resolver_with_an_unusable_base_locates_nothing() {
    let remote = AssetResolver::select("not a url", true);
    assert_eq!(remote.locate("a.bin"), None);
}
