//! Self-update rules of the agent: which release asset fits the machine
//! and when a published release is newer than the running one.

use vstd::prelude::*;
use vstd::string::StringExecFns;
use semver::Version;
use crate::text::{trim_start_char, trim_start_text};
use crate::transport::same_text;

verus! {

#[verifier::external_type_specification]
#[verifier::external_body]
pub struct ExVersion(Version);

/// The operating-system part of an asset name for a target OS name.
pub open spec fn asset_os(os: Seq<char>) -> Seq<char> {
    if os == "macos"@ {
        "darwin"@
    } else if os == "linux"@ {
        "linux"@
    } else {
        "unknown"@
    }
}

/// The architecture part of an asset name for a target architecture name.
pub open spec fn asset_arch(arch: Seq<char>) -> Seq<char> {
    if arch == "x86_64"@ {
        "amd64"@
    } else if arch == "aarch64"@ {
        "arm64"@
    } else {
        "unknown"@
    }
}

/// The name of the release asset built for a target.
pub open spec fn asset_name_spec(os: Seq<char>, arch: Seq<char>) -> Seq<char> {
    "portal-agent-"@ + asset_os(os) + "-"@ + asset_arch(arch)
}

/// The architecture part of an asset name depends on the architecture
/// alone: on every operating system, `x86_64` gets an asset ending in
/// `-amd64` and `aarch64` one ending in `-arm64`; and the name starts
/// with `portal-agent-darwin-` on macOS and `portal-agent-linux-` on Linux,
/// whatever the architecture.
pub proof fn law_asset_arch_follows_arch(os: Seq<char>, arch: Seq<char>)
    ensures
        ({
            let name = asset_name_spec(os, arch);
            &&& arch == "x86_64"@ ==> name.len() >= 6 && name.subrange(name.len() - 6, name.len() as int) == "-amd64"@
            &&& arch == "aarch64"@ ==> name.len() >= 6 && name.subrange(name.len() - 6, name.len() as int) == "-arm64"@
            &&& os == "macos"@ ==> name.len() >= 20 && name.subrange(0, 20) == "portal-agent-darwin-"@
            &&& os == "linux"@ ==> name.len() >= 19 && name.subrange(0, 19) == "portal-agent-linux-"@
        }),
{
    reveal_strlit("portal-agent-");
    reveal_strlit("-");
    reveal_strlit("x86_64");
    reveal_strlit("aarch64");
    reveal_strlit("amd64");
    reveal_strlit("arm64");
    reveal_strlit("-amd64");
    reveal_strlit("-arm64");
    reveal_strlit("macos");
    reveal_strlit("linux");
    reveal_strlit("darwin");
    reveal_strlit("unknown");
    reveal_strlit("portal-agent-darwin-");
    reveal_strlit("portal-agent-linux-");
    let name = asset_name_spec(os, arch);
    let head = "portal-agent-"@ + asset_os(os) + "-"@;
    assert(name == head + asset_arch(arch));
    if arch == "x86_64"@ {
        assert(asset_arch(arch) == "amd64"@);
        assert(name.subrange(name.len() - 6, name.len() as int) =~= "-amd64"@);
    }
    if arch == "aarch64"@ {
        assert("aarch64"@[0] != "x86_64"@[0]);
        assert(asset_arch(arch) == "arm64"@);
        assert(name.subrange(name.len() - 6, name.len() as int) =~= "-arm64"@);
    }
    if os == "macos"@ {
        assert(asset_os(os) == "darwin"@);
        assert(name.subrange(0, 20) =~= "portal-agent-darwin-"@);
    }
    if os == "linux"@ {
        assert("linux"@[0] != "macos"@[0]);
        assert(asset_os(os) == "linux"@);
        assert(name.subrange(0, 19) =~= "portal-agent-linux-"@);
    }
}

/// The release asset for the machine the agent runs on, given by its
/// target OS (`macos`, `linux`, ...) and architecture (`x86_64`,
/// `aarch64`, ...): `portal-agent-<os>-<arch>`.
pub fn get_asset_name(os: &str, arch: &str) -> (name: String)
    ensures
        name@ == asset_name_spec(os@, arch@),
{
    let os_part: &str = if same_text(os, "macos") {
        "darwin"
    } else if same_text(os, "linux") {
        "linux"
    } else {
        "unknown"
    };
    let arch_part: &str = if same_text(arch, "x86_64") {
        "amd64"
    } else if same_text(arch, "aarch64") {
        "arm64"
    } else {
        "unknown"
    };
    proof {
        reveal_strlit("macos");
        reveal_strlit("linux");
        reveal_strlit("darwin");
        reveal_strlit("unknown");
        reveal_strlit("x86_64");
        reveal_strlit("aarch64");
        reveal_strlit("amd64");
        reveal_strlit("arm64");
    }
    let mut name = "portal-agent-".to_string();
    name.append(os_part);
    name.append("-");
    name.append(arch_part);
    name
}

/// Whether `text` is a version in the SemVer 2.0 grammar that
/// `semver::Version::parse` accepts; where it is, its major, minor and
/// patch numbers.
pub uninterp spec fn semver_parse(text: Seq<char>) -> Option<(u64, u64, u64)>;

/// Whether the version written `a` has higher precedence than the one
/// written `b`, as `semver::Version` orders them.
pub uninterp spec fn semver_newer(a: Seq<char>, b: Seq<char>) -> bool;

/// A version read from its text.  It is only made by `parse_version`, so
/// the held `semver::Version` is always the one its text denotes.
pub struct ParsedVersion {
    text: String,
    major: u64,
    minor: u64,
    patch: u64,
    version: Version,
}

impl ParsedVersion {
    pub closed spec fn text_view(&self) -> Seq<char> {
        self.text@
    }

    pub closed spec fn numbers(&self) -> (u64, u64, u64) {
        (self.major, self.minor, self.patch)
    }
}

/// `semver::Version::parse`: a version exactly where the text is one, with
/// the major, minor and patch numbers that the text gives.
#[verifier::external_body]
fn parse_version(text: &str) -> (r: Option<ParsedVersion>)
    ensures
        r is Some <==> semver_parse(text@) is Some,
        r matches Some(v) ==> v.text_view() == text@ && semver_parse(text@) == Some(v.numbers()),
{
    match Version::parse(text) {
        Ok(v) => Some(ParsedVersion { text: text.to_string(), major: v.major, minor: v.minor, patch: v.patch, version: v }),
        Err(_) => None,
    }
}

/// How the major, minor and patch numbers alone order two versions:
/// `Some(true)` where the first is higher, `Some(false)` where it is
/// lower, and `None` where they are equal and the pre-release and build
/// parts decide.
pub open spec fn precedence_by_numbers(a: (u64, u64, u64), b: (u64, u64, u64)) -> Option<bool> {
    if a.0 != b.0 {
        Some(a.0 > b.0)
    } else if a.1 != b.1 {
        Some(a.1 > b.1)
    } else if a.2 != b.2 {
        Some(a.2 > b.2)
    } else {
        None
    }
}

/// `>` on `semver::Version`, whose order is derived field by field:
/// major, minor and patch numbers first, then the pre-release and build
/// parts.  Equal texts give equal versions, of which neither is newer;
/// being a total order (`Ord`), it never holds both ways.
#[verifier::external_body]
fn version_gt(a: &ParsedVersion, b: &ParsedVersion) -> (r: bool)
    ensures
        r == semver_newer(a.text_view(), b.text_view()),
        a.text_view() == b.text_view() ==> !r,
        r ==> !semver_newer(b.text_view(), a.text_view()),
        precedence_by_numbers(a.numbers(), b.numbers()) matches Some(n) ==> r == n,
{
    a.version > b.version
}

/// The order of two version texts: newer exactly when both parse and the
/// first has the higher precedence.
pub open spec fn is_newer_spec(latest: Seq<char>, current: Seq<char>) -> bool {
    &&& semver_parse(latest) is Some
    &&& semver_parse(current) is Some
    &&& semver_newer(latest, current)
}

/// Whether `latest` is a newer version than `current`.  A text that is no
/// version is never newer, nor older: the agent then keeps what it runs.
/// No version is newer than itself, of two versions at most one is newer
/// than the other, and where the numbers differ the higher major, then
/// minor, then patch number wins.
pub fn is_newer(latest: &str, current: &str) -> (r: bool)
    ensures
        r == is_newer_spec(latest@, current@),
        latest@ == current@ ==> !r,
        r ==> !is_newer_spec(current@, latest@),
        r ==> semver_parse(latest@) is Some && semver_parse(current@) is Some,
        semver_parse(latest@) is Some && semver_parse(current@) is Some ==> (
            precedence_by_numbers(semver_parse(latest@)->0, semver_parse(current@)->0) matches Some(n) ==> r == n),
{
    match (parse_version(latest), parse_version(current)) {
        (Some(l), Some(c)) => version_gt(&l, &c),
        _ => false,
    }
}

/// The version a release tag names: the tag without its leading `v`s.
pub fn tag_version(tag: &str) -> (v: String)
    ensures
        v@ == trim_start_char(tag@, 'v'),
{
    trim_start_text(tag, 'v')
}

/// Whether the agent running `current` updates to the release tagged `tag`.
pub fn should_update(tag: &str, current: &str) -> (r: bool)
    ensures
        r == is_newer_spec(trim_start_char(tag@, 'v'), current@),
{
    let latest = tag_version(tag);
    is_newer(latest.as_str(), current)
}

/// A published release asset.
pub struct GitHubAsset {
    pub name: String,
    pub browser_download_url: String,
}

/// A published release: its tag and its assets.
pub struct GitHubRelease {
    pub tag_name: String,
    pub assets: Vec<GitHubAsset>,
}

/// The position of the first asset named `name`, if any.
pub fn find_asset(release: &GitHubRelease, name: &str) -> (r: Option<usize>)
    ensures
        match r {
            Some(i) => i < release.assets@.len() && release.assets@[i as int].name@ == name@
                && forall|j: int| 0 <= j < i ==> release.assets@[j].name@ != name@,
            None => forall|j: int| 0 <= j < release.assets@.len() ==> release.assets@[j].name@ != name@,
        },
{
    let mut i: usize = 0;
    while i < release.assets.len()
        invariant
            i <= release.assets@.len(),
            forall|j: int| 0 <= j < i ==> release.assets@[j].name@ != name@,
        decreases release.assets@.len() - i,
    {
        if same_text(release.assets[i].name.as_str(), name) {
            return Some(i);
        }
        i = i + 1;
    }
    None
}

/// Where the latest release of `repo` is described.
pub fn latest_release_url(repo: &str) -> (u: String)
    ensures
        u@ == "https://api.github.com/repos/"@ + repo@ + "/releases/latest"@,
{
    let mut u = "https://api.github.com/repos/".to_string();
    u.append(repo);
    u.append("/releases/latest");
    u
}

/// The error of a release without an asset for this machine.
pub fn missing_asset_message(asset_name: &str) -> (m: String)
    ensures
        m@ == "No asset found for "@ + asset_name@,
{
    let mut m = "No asset found for ".to_string();
    m.append(asset_name);
    m
}

/// A program to run, with its arguments.
#[derive(Debug)]
pub struct ServiceCommand {
    pub program: String,
    pub args: Vec<String>,
}

fn command(program: &str, args: Vec<String>) -> (c: ServiceCommand)
    ensures
        c.program@ == program@,
        c.args == args,
{
    ServiceCommand { program: program.to_string(), args }
}

/// How the agent's service manager restarts it after an update, on the
/// target OS `os`: on macOS launchd unloads and loads the agent's plist
/// (at `plist_path`), on Linux the user's systemd restarts the
/// `portal-agent` unit; elsewhere nothing is run.
pub fn restart_commands(os: &str, plist_path: &str) -> (cmds: Vec<ServiceCommand>)
    ensures
        os@ == "macos"@ ==> cmds@.len() == 2
            && cmds@[0].program@ == "launchctl"@ && cmds@[0].args@.len() == 2
            && cmds@[0].args@[0]@ == "unload"@ && cmds@[0].args@[1]@ == plist_path@
            && cmds@[1].program@ == "launchctl"@ && cmds@[1].args@.len() == 2
            && cmds@[1].args@[0]@ == "load"@ && cmds@[1].args@[1]@ == plist_path@,
        os@ == "linux"@ ==> cmds@.len() == 1
            && cmds@[0].program@ == "systemctl"@ && cmds@[0].args@.len() == 3
            && cmds@[0].args@[0]@ == "--user"@ && cmds@[0].args@[1]@ == "restart"@
            && cmds@[0].args@[2]@ == "portal-agent"@,
        os@ != "macos"@ && os@ != "linux"@ ==> cmds@.len() == 0,
{
    proof {
        reveal_strlit("macos");
        reveal_strlit("linux");
        assert("linux"@[0] != "macos"@[0]);
    }
    let mut cmds: Vec<ServiceCommand> = Vec::new();
    if same_text(os, "macos") {
        cmds.push(command("launchctl", vec!["unload".to_string(), plist_path.to_string()]));
        cmds.push(command("launchctl", vec!["load".to_string(), plist_path.to_string()]));
    } else if same_text(os, "linux") {
        cmds.push(command("systemctl", vec!["--user".to_string(), "restart".to_string(), "portal-agent".to_string()]));
    }
    cmds
}

} // verus!
