use oag::github::{
    fetch_verdict, known_packs, not_found_message, pack_toml_url, parse_pack_specifier, template_file_names,
    template_file_url, templates_api_url, FetchVerdict, GitHubContent,
};

#[test]
fn parses_pack_specifiers() {
    assert_eq!(parse_pack_specifier("node-client@v0.15.0"), ("node-client", "v0.15.0"));
    assert_eq!(parse_pack_specifier("node-client"), ("node-client", "main"));
    assert_eq!(parse_pack_specifier("node-client@"), ("node-client@", "main"));
    assert_eq!(parse_pack_specifier("a@b@c"), ("a", "b@c"));
    assert_eq!(parse_pack_specifier("@x"), ("", "x"));
}

#[test]
fn builds_download_urls() {
    assert_eq!(
        pack_toml_url("node-client", "main"),
        "https://raw.githubusercontent.com/urmzd/oag/main/packs/node-client/oag.pack.toml"
    );
    assert_eq!(
        templates_api_url("node-client", "v1"),
        "https://api.github.com/repos/urmzd/oag/contents/packs/node-client/templates?ref=v1"
    );
    assert_eq!(
        template_file_url("node-client", "v1", "types.ts.j2"),
        "https://raw.githubusercontent.com/urmzd/oag/v1/packs/node-client/templates/types.ts.j2"
    );
    assert_eq!(known_packs(), vec!["node-client", "react-swr-client", "fastapi-server"]);
}

#[test]
fn lists_template_files() {
    let entries = vec![
        GitHubContent { name: "a.j2".into(), entry_type: "file".into(), download_url: None, url: "u".into() },
        GitHubContent { name: "sub".into(), entry_type: "dir".into(), download_url: None, url: "u".into() },
        GitHubContent { name: "b.j2".into(), entry_type: "file".into(), download_url: None, url: "u".into() },
    ];
    assert_eq!(template_file_names(&entries), vec!["a.j2", "b.j2"]);
}

#[test]
fn classifies_http_status() {
    assert_eq!(fetch_verdict(200), FetchVerdict::Fetched);
    assert_eq!(fetch_verdict(302), FetchVerdict::Fetched);
    assert_eq!(fetch_verdict(404), FetchVerdict::NotFound);
    assert_eq!(fetch_verdict(400), FetchVerdict::HttpError);
    assert_eq!(fetch_verdict(503), FetchVerdict::HttpError);
    assert_eq!(not_found_message("https://x"), "not found (404): https://x");
}
