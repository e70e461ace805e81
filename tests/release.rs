use maple_cli::release::{accept_json_header, target_filename, ReleaseSource, OWNER, REPO};

#[test]
fn latest_release_url_of_the_source() {
    let source = ReleaseSource::new(OWNER, REPO);
    assert_eq!(
        source.latest_release_url(),
        "https://api.github.com/repos/liuchengxu/vim-clap/releases/latest"
    );
    let other = ReleaseSource::new("someone", "tool");
    assert_eq!(other.latest_release_url(), "https://api.github.com/repos/someone/tool/releases/latest");
}

#[test]
fn request_headers() {
    let source = ReleaseSource::new(OWNER, REPO);
    assert_eq!(source.user_agent_header(), "User-Agent: liuchengxu");
    assert_eq!(accept_json_header(), "Accept: application/json");
}

#[test]
fn download_url_of_an_asset() {
    let source = ReleaseSource::new(OWNER, REPO);
    assert_eq!(
        source.download_url("v0.13", "maple-x86_64-unknown-linux-musl"),
        "https://github.com/liuchengxu/vim-clap/releases/download/v0.13/maple-x86_64-unknown-linux-musl"
    );
}

#[test]
fn target_filename_per_platform() {
    assert_eq!(target_filename(true), "maple.exe");
    assert_eq!(target_filename(false), "maple");
}
