use pokeproxy::asset::{
    file_extension, get_content_type, has_file_extension, resolve, should_cache, AssetReply,
    AssetRequest, AssetResponse, CacheDirective, Resolution, CACHE_DURATION,
};
use std::path::Path;

fn request(path: &str) -> AssetRequest {
    AssetRequest { path: String::from(path) }
}

#[test]
fn content_type_of_a_stylesheet_under_assets() {
    assert_eq!(get_content_type("assets/app.css"), "text/css; charset=utf-8");
}

#[test]
fn content_type_of_every_known_extension() {
    let table = [
        ("index.html", "text/html; charset=utf-8"),
        ("page.htm", "text/html; charset=utf-8"),
        ("app.css", "text/css; charset=utf-8"),
        ("app.js", "application/javascript; charset=utf-8"),
        ("app.mjs", "application/javascript; charset=utf-8"),
        ("data.json", "application/json"),
        ("a.png", "image/png"),
        ("a.jpg", "image/jpeg"),
        ("a.jpeg", "image/jpeg"),
        ("a.gif", "image/gif"),
        ("a.webp", "image/webp"),
        ("a.svg", "image/svg+xml"),
        ("favicon.ico", "image/x-icon"),
        ("f.woff", "font/woff"),
        ("f.woff2", "font/woff2"),
        ("f.ttf", "font/ttf"),
        ("robots.txt", "text/plain; charset=utf-8"),
    ];
    for (path, expected) in table {
        assert_eq!(get_content_type(path), expected, "{path}");
    }
}

#[test]
fn content_type_of_unknown_or_missing_extensions() {
    for path in ["a.bin", "a.", "dashboard", "", ".css", "dir.css/file", "a.CSS", "a.Html", "a.css2"] {
        assert_eq!(get_content_type(path), "application/octet-stream", "{path:?}");
    }
}

#[test]
fn content_type_goes_by_the_last_extension() {
    assert_eq!(get_content_type("bundle.min.js"), "application/javascript; charset=utf-8");
    assert_eq!(get_content_type("archive.tar.gz"), "application/octet-stream");
    assert_eq!(get_content_type("_app/immutable/chunks/index.4f2a.css"), "text/css; charset=utf-8");
}

#[test]
fn content_type_looks_through_trailing_slashes_and_dots() {
    assert_eq!(get_content_type("app.css/"), "text/css; charset=utf-8");
    assert_eq!(get_content_type("app.css//"), "text/css; charset=utf-8");
    assert_eq!(get_content_type("app.css/."), "text/css; charset=utf-8");
    assert_eq!(get_content_type("app.css/./"), "text/css; charset=utf-8");
    assert_eq!(get_content_type("app.css/.."), "application/octet-stream");
}

#[test]
fn extensions_of_some_paths() {
    let table = [
        ("app.css", Some("css")),
        ("archive.tar.gz", Some("gz")),
        ("dir/file.txt", Some("txt")),
        ("dir.d/file", None),
        ("dir.d/", Some("d")),
        ("a.", Some("")),
        ("...", Some("")),
        ("..a", Some("a")),
        (".gitignore", None),
        ("a/.hidden.txt", Some("txt")),
        ("a/b.txt/.", Some("txt")),
        ("a/b.txt/..", None),
        ("..", None),
        (".", None),
        ("", None),
        ("é.ü", Some("ü")),
        ("a. b", Some(" b")),
    ];
    for (path, expected) in table {
        assert_eq!(file_extension(path).as_deref(), expected, "{path:?}");
    }
}

#[test]
fn extensions_hold_neither_dot_nor_slash() {
    for path in ["a.b.c", "a/b.c/d.e", "x.y/", "..z", "a.b/."] {
        let ext = file_extension(path).unwrap();
        assert!(!ext.contains('.') && !ext.contains('/'), "{path:?}");
    }
}

#[test]
fn paths_with_an_extension() {
    for path in [
        "app.css", "a.b", "archive.tar.gz", "dir/file.txt", "dir/file.txt/", "a/b.txt/.", "..a",
        "...", "a.", "a..", ".a.b", "x/.y.z", "missing.png", "dir.d/",
    ] {
        assert!(has_file_extension(path), "{path:?}");
    }
}

#[test]
fn paths_without_an_extension() {
    for path in [
        "", "dashboard", "users/42", ".gitignore", "a/.hidden", ".", "..", "a/..", "a/../", "/",
        "//", "./", "dir.d/file", "a.b/c", ".a", "./.a", "a.b/..",
    ] {
        assert!(!has_file_extension(path), "{path:?}");
    }
}

#[test]
fn extension_rule_agrees_with_the_standard_library_on_slash_paths() {
    let parts = ["", "a", ".", "..", "a.b", ".a", "a.", "..a", "...", "a.b.c", "/", "//", "/.", "/.."];
    for first in parts {
        for second in parts {
            for third in parts {
                for joint in ["", "/"] {
                    let path = format!("{first}{joint}{second}{joint}{third}");
                    if path.contains('\\') {
                        continue;
                    }
                    let expected = Path::new(&path).extension().and_then(|e| e.to_str());
                    assert_eq!(has_file_extension(&path), expected.is_some(), "{path:?}");
                    assert_eq!(file_extension(&path).as_deref(), expected, "{path:?}");
                }
            }
        }
    }
}

#[test]
fn content_type_agrees_with_a_table_over_the_standard_extension() {
    for name in ["x.css", "x.js/", "y/x.png/.", "x.y.svg", ".svg", "x.ttf/..", "a/b/c.woff2"] {
        let ext = Path::new(name).extension().and_then(|e| e.to_str());
        let expected = match ext {
            Some("css") => "text/css; charset=utf-8",
            Some("js") => "application/javascript; charset=utf-8",
            Some("png") => "image/png",
            Some("svg") => "image/svg+xml",
            Some("woff2") => "font/woff2",
            _ => "application/octet-stream",
        };
        assert_eq!(get_content_type(name), expected, "{name:?}");
    }
}

#[test]
fn long_lived_by_prefix() {
    for path in ["_app/version.json", "_app/x", "assets/readme.txt", "assets/", "static/", "static/a/b"] {
        assert!(should_cache(path), "{path:?}");
    }
}

#[test]
fn long_lived_by_extension() {
    for path in [
        "a.css", "a.js", "a.mjs", "a.png", "a.jpg", "a.jpeg", "a.gif", "a.webp", "a.svg", "a.ico",
        "a.woff", "a.woff2", "a.ttf", "deep/down/a.css",
    ] {
        assert!(should_cache(path), "{path:?}");
    }
}

#[test]
fn not_long_lived() {
    for path in [
        "index.html", "page.htm", "data.json", "robots.txt", "a.bin", "dashboard", "", "staticfile",
        "assets", "_app", "static", "x/assets/readme.txt", "Assets/readme.txt", "a.CSS", ".css",
    ] {
        assert!(!should_cache(path), "{path:?}");
    }
}

#[test]
fn request_path_loses_its_leading_slashes() {
    assert_eq!(AssetRequest::from_request_path("/assets/app.css").path, "assets/app.css");
    assert_eq!(AssetRequest::from_request_path("///x").path, "x");
    assert_eq!(AssetRequest::from_request_path("x").path, "x");
    assert_eq!(AssetRequest::from_request_path("/").path, "");
    assert_eq!(AssetRequest::from_request_path("").path, "");
    assert_eq!(AssetRequest::from_request_path("/a/b/").path, "a/b/");
    assert_eq!(AssetRequest::from_request_path("/a//b").path, "a//b");
    assert_eq!(AssetRequest::from_request_path("/é/ü.png").path, "é/ü.png");
}

#[test]
fn stripping_twice_is_stripping_once() {
    for raw in ["", "/", "//a", "a//", "/a/b", "///"] {
        let once = AssetRequest::from_request_path(raw).path;
        let twice = AssetRequest::from_request_path(&once).path;
        assert_eq!(once, twice);
        assert!(!once.starts_with('/'));
        assert!(raw.ends_with(once.as_str()));
    }
}

#[test]
fn static_assets_and_routes() {
    for path in ["assets/app.css", "_app/x", "static/", "favicon.ico", "a/b.txt", "assets/noext"] {
        assert!(request(path).is_static_asset(), "{path:?}");
    }
    for path in ["", "dashboard", "users/42", ".well-known", "assetsx", "a.b/c"] {
        assert!(!request(path).is_static_asset(), "{path:?}");
    }
}

#[test]
fn the_file_of_a_request() {
    assert_eq!(request("assets/app.css").file(), "assets/app.css");
    assert_eq!(request("favicon.ico").file(), "favicon.ico");
    assert_eq!(request("assets/missing.png").file(), "assets/missing.png");
    assert_eq!(request("dashboard").file(), "index.html");
    assert_eq!(request("users/42").file(), "index.html");
    assert_eq!(request("").file(), "index.html");
}

#[test]
fn stylesheet_under_assets_is_served_long_lived() {
    let asked = request("assets/app.css");
    assert_eq!(asked.file(), "assets/app.css");
    match resolve(&asked, Some(vec![1, 2, 3])) {
        Resolution::StaticAsset(AssetResponse { bytes, content_type, cache }) => {
            assert_eq!(bytes, vec![1, 2, 3]);
            assert_eq!(content_type, "text/css; charset=utf-8");
            assert_eq!(cache, CacheDirective::LongLivedImmutable);
        }
        _ => panic!("not served as a static asset"),
    }
}

#[test]
fn route_is_served_the_shell_without_caching() {
    let asked = request("dashboard");
    assert_eq!(asked.file(), "index.html");
    match resolve(&asked, Some(vec![60, 104, 116, 109, 108, 62])) {
        Resolution::SpaFallback(AssetResponse { bytes, content_type, cache }) => {
            assert_eq!(bytes, vec![60, 104, 116, 109, 108, 62]);
            assert_eq!(content_type, "text/html; charset=utf-8");
            assert_eq!(cache, CacheDirective::NoCache);
        }
        _ => panic!("not served the shell"),
    }
}

#[test]
fn missing_asset_is_not_found_and_never_the_shell() {
    let asked = request("assets/missing.png");
    assert!(asked.is_static_asset());
    assert_ne!(asked.file(), "index.html");
    assert!(matches!(resolve(&asked, None), Resolution::NotFound));
    let reply = asked.reply(Resolution::NotFound);
    assert_eq!(reply.status, 404);
}

#[test]
fn missing_shell_is_not_found() {
    assert!(matches!(resolve(&request("dashboard"), None), Resolution::NotFound));
    assert!(matches!(resolve(&request(""), None), Resolution::NotFound));
}

#[test]
fn asset_without_hashed_extension_outside_the_asset_directories_is_not_cached() {
    match resolve(&request("robots.txt"), Some(Vec::new())) {
        Resolution::StaticAsset(asset) => {
            assert_eq!(asset.content_type, "text/plain; charset=utf-8");
            assert_eq!(asset.cache, CacheDirective::NoCache);
            assert!(asset.bytes.is_empty());
        }
        _ => panic!("not served as a static asset"),
    }
    match resolve(&request("index.html"), Some(vec![7])) {
        Resolution::StaticAsset(asset) => {
            assert_eq!(asset.content_type, "text/html; charset=utf-8");
            assert_eq!(asset.cache, CacheDirective::NoCache);
        }
        _ => panic!("not served as a static asset"),
    }
}

#[test]
fn asset_without_extension_under_an_asset_directory() {
    match resolve(&request("_app/env"), Some(vec![9])) {
        Resolution::StaticAsset(asset) => {
            assert_eq!(asset.content_type, "application/octet-stream");
            assert_eq!(asset.cache, CacheDirective::LongLivedImmutable);
        }
        _ => panic!("not served as a static asset"),
    }
}

#[test]
fn cache_control_values() {
    assert_eq!(CACHE_DURATION, 86400);
    assert_eq!(
        CacheDirective::LongLivedImmutable.header_value(),
        "public, max-age=86400, immutable"
    );
    assert_eq!(CacheDirective::NoCache.header_value(), "no-cache");
}

#[test]
fn reply_for_a_found_asset() {
    let asked = request("assets/app.css");
    let reply: AssetReply = asked.reply(resolve(&asked, Some(vec![1, 2])));
    assert_eq!(reply.status, 200);
    assert_eq!(reply.content_type, "text/css; charset=utf-8");
    assert_eq!(reply.cache_control.as_deref(), Some("public, max-age=86400, immutable"));
    assert_eq!(reply.body, vec![1, 2]);
}

#[test]
fn reply_for_the_shell() {
    let asked = request("dashboard");
    let reply = asked.reply(resolve(&asked, Some(vec![5])));
    assert_eq!(reply.status, 200);
    assert_eq!(reply.content_type, "text/html; charset=utf-8");
    assert_eq!(reply.cache_control.as_deref(), Some("no-cache"));
    assert_eq!(reply.body, vec![5]);
}

#[test]
fn reply_for_a_missing_asset() {
    let asked = request("assets/missing.png");
    let reply = asked.reply(resolve(&asked, None));
    assert_eq!(reply.status, 404);
    assert_eq!(reply.content_type, "text/plain");
    assert_eq!(reply.cache_control, None);
    assert_eq!(reply.body, b"File not found".to_vec());
}

#[test]
fn reply_for_a_missing_shell() {
    let asked = request("dashboard");
    let reply = asked.reply(resolve(&asked, None));
    assert_eq!(reply.status, 404);
    assert_eq!(reply.content_type, "text/html; charset=utf-8");
    assert_eq!(reply.cache_control, None);
    assert_eq!(reply.body, b"<h1>404 - Page Not Found</h1>".to_vec());
}

#[test]
fn whole_way_from_a_raw_path() {
    let asked = AssetRequest::from_request_path("//static/logo.svg");
    assert_eq!(asked.file(), "static/logo.svg");
    let reply = asked.reply(resolve(&asked, Some(vec![0; 4])));
    assert_eq!(reply.status, 200);
    assert_eq!(reply.content_type, "image/svg+xml");
    assert_eq!(reply.cache_control.as_deref(), Some("public, max-age=86400, immutable"));
    assert_eq!(reply.body.len(), 4);
}
