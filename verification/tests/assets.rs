use deutron::webview::serve::{resolve_request, ServePlan};
use deutron::webview::window_config::WindowConfig;

#[test]
fn static_files_get_a_content_type() {
    match resolve_request("/index.html") {
        ServePlan::Static(path, mime) => {
            assert_eq!(path, "index.html");
            assert_eq!(mime, "text/html");
        },
        other => panic!("expected a static file, got {:?}", other),
    }
    match resolve_request("/style.css") {
        ServePlan::Static(path, mime) => {
            assert_eq!(path, "style.css");
            assert_eq!(mime, "text/css");
        },
        other => panic!("expected a static file, got {:?}", other),
    }
}

#[test]
fn unknown_extension_falls_back_to_text_plain() {
    match resolve_request("/data.unknownext") {
        ServePlan::Static(path, mime) => {
            assert_eq!(path, "data.unknownext");
            assert_eq!(mime, "text/plain");
        },
        other => panic!("expected a static file, got {:?}", other),
    }
}

#[test]
fn empty_path_means_the_index_page() {
    match resolve_request("/") {
        ServePlan::Static(path, mime) => {
            assert_eq!(path, "index.html");
            assert_eq!(mime, "text/html");
        },
        other => panic!("expected the index page, got {:?}", other),
    }
}

#[test]
fn typescript_sources_are_transpiled() {
    match resolve_request("/app.ts") {
        ServePlan::Transpile(path) => assert_eq!(path, "app.ts"),
        other => panic!("expected a transpile, got {:?}", other),
    }
}

#[test]
fn declaration_files_become_an_empty_script() {
    assert!(matches!(resolve_request("/types.d.ts"), ServePlan::EmptyScript));
}

#[test]
fn double_slash_paths_are_rejected() {
    assert!(matches!(resolve_request("//etc/passwd"), ServePlan::Reject));
}

#[test]
fn window_config_defaults() {
    let c = WindowConfig::default();
    assert_eq!(c.title, "WebView");
    assert_eq!(c.url, "index.html");
    assert!(c.icon.is_none());
    assert!(!c.no_decorations);
    assert!(!c.dev_tools);
    assert!(!c.transparent);
    assert_eq!(c.width, 680);
    assert_eq!(c.height, 480);
}
