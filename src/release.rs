//! Where releases live: the metadata endpoint, the request headers, the
//! download URL of an asset, and the file name that an install replaces.
use vstd::prelude::*;
use vstd::string::*;

verus! {

/// The owner whose repository publishes the releases.
pub const OWNER: &'static str = "liuchengxu";

/// The repository that publishes the releases.
pub const REPO: &'static str = "vim-clap";

/// Where the asset `asset` of the release `tag` of `owner`'s `repo` is downloaded from.
pub open spec fn asset_url(
    owner: Seq<char>,
    repo: Seq<char>,
    tag: Seq<char>,
    asset: Seq<char>,
) -> Seq<char> {
    "https://github.com/"@ + owner + "/"@ + repo + "/releases/download/"@ + tag + "/"@ + asset
}

/// The repository whose releases an update check looks at.
pub struct ReleaseSource {
    pub owner: String,
    pub repo: String,
}

impl ReleaseSource {
    /// A source for the releases of `owner`'s `repo`.
    pub fn new(owner: &str, repo: &str) -> (r: ReleaseSource)
        ensures
            r.owner@ == owner@,
            r.repo@ == repo@,
    {
        ReleaseSource { owner: String::from_str(owner), repo: String::from_str(repo) }
    }

    /// The endpoint that describes the latest release:
    /// `https://api.github.com/repos/<owner>/<repo>/releases/latest`.
    pub fn latest_release_url(&self) -> (r: String)
        ensures
            r@ == "https://api.github.com/repos/"@ + self.owner@ + "/"@ + self.repo@
                + "/releases/latest"@,
    {
        let mut r = String::from_str("https://api.github.com/repos/");
        r.append(self.owner.as_str());
        r.append("/");
        r.append(self.repo.as_str());
        r.append("/releases/latest");
        r
    }

    /// The header that names the requesting agent: `User-Agent: <owner>`.
    pub fn user_agent_header(&self) -> (r: String)
        ensures
            r@ == "User-Agent: "@ + self.owner@,
    {
        let mut r = String::from_str("User-Agent: ");
        r.append(self.owner.as_str());
        r
    }

    /// Where the asset `asset` of the release `tag` is downloaded from:
    /// `https://github.com/<owner>/<repo>/releases/download/<tag>/<asset>`.
    pub fn download_url(&self, tag: &str, asset: &str) -> (r: String)
        ensures
            r@ == asset_url(self.owner@, self.repo@, tag@, asset@),
    {
        let mut r = String::from_str("https://github.com/");
        r.append(self.owner.as_str());
        r.append("/");
        r.append(self.repo.as_str());
        r.append("/releases/download/");
        r.append(tag);
        r.append("/");
        r.append(asset);
        r
    }
}

/// The header that asks for a JSON response.
pub fn accept_json_header() -> (r: String)
    ensures
        r@ == "Accept: application/json"@,
{
    String::from_str("Accept: application/json")
}

/// The file name that an install replaces in the `bin` directory: `maple.exe`
/// on Windows, `maple` elsewhere.
pub fn target_filename(windows: bool) -> (r: String)
    ensures
        r@ == (if windows {
            "maple.exe"@
        } else {
            "maple"@
        }),
{
    if windows {
        String::from_str("maple.exe")
    } else {
        String::from_str("maple")
    }
}

} // verus!
