//! What an agent reports of the system permissions its tools need.
//!
//! The probes themselves (opening protected files, asking the system
//! whether the process is trusted for accessibility) happen outside; the
//! functions here turn what they found into the report.

use vstd::prelude::*;
use crate::commands;
use crate::transport::same_text;

verus! {

/// Whether a permission is granted, as the agent sees it.
#[derive(Debug, Clone, Copy, PartialEq, Eq, Structural)]
pub enum PermissionStatus {
    Granted,
    Denied,
    Unknown,
    NotApplicable,
}

/// A permission, its status and where the user grants it.
#[derive(Debug)]
pub struct Permission {
    pub name: String,
    pub status: PermissionStatus,
    pub settings_url: Option<String>,
}

/// The operating system and the permissions checked on it.
#[derive(Debug)]
pub struct Diagnostics {
    pub os: String,
    pub permissions: Vec<Permission>,
}

/// What opening one protected file found.
#[derive(Debug, Clone, Copy, PartialEq, Eq, Structural)]
pub enum FileProbe {
    /// The file does not exist.
    Missing,
    /// The file could be opened.
    Readable,
    /// Opening it was refused for want of permission.
    PermissionDenied,
    /// Opening it failed otherwise.
    OtherError,
}

pub open spec fn probe_status(p: FileProbe) -> PermissionStatus {
    match p {
        FileProbe::Readable => PermissionStatus::Granted,
        FileProbe::PermissionDenied => PermissionStatus::Denied,
        _ => PermissionStatus::Unknown,
    }
}

/// The position of the first probe of a file that exists.
pub open spec fn first_present(probes: Seq<FileProbe>, i: int) -> bool {
    &&& 0 <= i < probes.len()
    &&& probes[i] != FileProbe::Missing
    &&& forall|j: int| 0 <= j < i ==> probes[j] == FileProbe::Missing
}

/// Full disk access as the protected files show it: the first of them
/// that exists decides; where none exists the status is unknown.
pub open spec fn full_disk_access_spec(probes: Seq<FileProbe>) -> PermissionStatus {
    if exists|i: int| first_present(probes, i) {
        probe_status(probes[choose|i: int| first_present(probes, i)])
    } else {
        PermissionStatus::Unknown
    }
}

proof fn lemma_first_present_unique(probes: Seq<FileProbe>, i: int, k: int)
    requires
        first_present(probes, i),
        first_present(probes, k),
    ensures
        i == k,
{
    if i < k {
        assert(probes[i] == FileProbe::Missing);
    } else if k < i {
        assert(probes[k] == FileProbe::Missing);
    }
}

/// The status that the probes of the protected files give.
pub fn full_disk_access_status(probes: &Vec<FileProbe>) -> (s: PermissionStatus)
    ensures
        s == full_disk_access_spec(probes@),
{
    let mut i: usize = 0;
    while i < probes.len()
        invariant
            i <= probes@.len(),
            forall|j: int| 0 <= j < i ==> probes@[j] == FileProbe::Missing,
        decreases probes@.len() - i,
    {
        if probes[i] != FileProbe::Missing {
            proof {
                assert(first_present(probes@, i as int));
                let k = choose|k: int| first_present(probes@, k);
                lemma_first_present_unique(probes@, i as int, k);
            }
            return match probes[i] {
                FileProbe::Readable => PermissionStatus::Granted,
                FileProbe::PermissionDenied => PermissionStatus::Denied,
                _ => PermissionStatus::Unknown,
            };
        }
        i = i + 1;
    }
    proof {
        assert forall|k: int| !first_present(probes@, k) by {
            if 0 <= k < probes@.len() {
                assert(probes@[k] == FileProbe::Missing);
            }
        }
    }
    PermissionStatus::Unknown
}

/// Where the user grants full disk access.
pub open spec fn full_disk_access_url() -> Seq<char> {
    "x-apple.systempreferences:com.apple.preference.security?Privacy_AllFiles"@
}

/// Where the user grants accessibility.
pub open spec fn accessibility_url() -> Seq<char> {
    "x-apple.systempreferences:com.apple.preference.security?Privacy_Accessibility"@
}

/// The protected files whose probes tell whether the agent has full disk
/// access, relative to the home directory, in the order they are probed.
pub fn protected_files() -> (f: Vec<&'static str>)
    ensures
        f@.len() == 3,
        f@[0]@ == "Library/Messages/chat.db"@,
        f@[1]@ == "Library/Safari/History.db"@,
        f@[2]@ == "Library/Mail/V10"@,
{
    let mut f: Vec<&'static str> = Vec::new();
    f.push("Library/Messages/chat.db");
    f.push("Library/Safari/History.db");
    f.push("Library/Mail/V10");
    f
}

/// The full-disk-access permission, from the probes of the Messages,
/// Safari history and Mail files in that order.
pub fn check_full_disk_access(probes: &Vec<FileProbe>) -> (p: Permission)
    ensures
        p.name@ == "full_disk_access"@,
        p.status == full_disk_access_spec(probes@),
        p.settings_url matches Some(u) && u@ == full_disk_access_url(),
{
    Permission {
        name: "full_disk_access".to_string(),
        status: full_disk_access_status(probes),
        settings_url: Some("x-apple.systempreferences:com.apple.preference.security?Privacy_AllFiles".to_string()),
    }
}

/// The accessibility permission: granted exactly when the system trusts
/// the process.
pub fn check_accessibility(trusted: bool) -> (p: Permission)
    ensures
        p.name@ == "accessibility"@,
        p.status == (if trusted { PermissionStatus::Granted } else { PermissionStatus::Denied }),
        p.settings_url matches Some(u) && u@ == accessibility_url(),
{
    Permission {
        name: "accessibility".to_string(),
        status: if trusted { PermissionStatus::Granted } else { PermissionStatus::Denied },
        settings_url: Some("x-apple.systempreferences:com.apple.preference.security?Privacy_Accessibility".to_string()),
    }
}

/// Whether a permission is no obstacle: granted, or not needed here.
pub open spec fn is_satisfied(s: PermissionStatus) -> bool {
    s == PermissionStatus::Granted || s == PermissionStatus::NotApplicable
}

/// How the command protocol reports a status: a permission that does
/// not apply is reported as unknown.
pub open spec fn reported_status(s: PermissionStatus) -> commands::PermissionStatus {
    match s {
        PermissionStatus::Granted => commands::PermissionStatus::Granted,
        PermissionStatus::Denied => commands::PermissionStatus::Denied,
        _ => commands::PermissionStatus::Unknown,
    }
}

/// The protocol's status for a status of the agent.
pub fn report_status(s: PermissionStatus) -> (r: commands::PermissionStatus)
    ensures
        r == reported_status(s),
{
    match s {
        PermissionStatus::Granted => commands::PermissionStatus::Granted,
        PermissionStatus::Denied => commands::PermissionStatus::Denied,
        _ => commands::PermissionStatus::Unknown,
    }
}

fn copy_text_option(o: &Option<String>) -> (r: Option<String>)
    ensures
        r is Some <==> o is Some,
        r matches Some(t) ==> t@ == o->0@,
{
    match o {
        Some(t) => Some(t.as_str().to_string()),
        None => None,
    }
}

impl Diagnostics {
    /// The diagnostics of an agent on the target OS `os`, from what the
    /// probes of the protected files found and whether the system trusts
    /// the process for accessibility.  Only macOS has such permissions.
    pub fn check(os: &str, probes: &Vec<FileProbe>, accessibility_trusted: bool) -> (d: Self)
        ensures
            os@ == "macos"@ ==> d.os@ == "macos"@ && d.permissions@.len() == 2
                && d.permissions@[0].name@ == "full_disk_access"@
                && d.permissions@[0].status == full_disk_access_spec(probes@)
                && d.permissions@[1].name@ == "accessibility"@
                && d.permissions@[1].status == (if accessibility_trusted { PermissionStatus::Granted } else { PermissionStatus::Denied }),
            os@ != "macos"@ ==> d.os@ == os@ && d.permissions@.len() == 0,
    {
        if same_text(os, "macos") {
            Self::check_macos(probes, accessibility_trusted)
        } else if same_text(os, "linux") {
            proof {
                reveal_strlit("linux");
            }
            Self::check_linux()
        } else {
            Diagnostics { os: os.to_string(), permissions: Vec::new() }
        }
    }

    /// On macOS: full disk access, then accessibility.
    pub fn check_macos(probes: &Vec<FileProbe>, accessibility_trusted: bool) -> (d: Self)
        ensures
            d.os@ == "macos"@,
            d.permissions@.len() == 2,
            d.permissions@[0].name@ == "full_disk_access"@,
            d.permissions@[0].status == full_disk_access_spec(probes@),
            d.permissions@[0].settings_url matches Some(u) && u@ == full_disk_access_url(),
            d.permissions@[1].name@ == "accessibility"@,
            d.permissions@[1].status == (if accessibility_trusted { PermissionStatus::Granted } else { PermissionStatus::Denied }),
            d.permissions@[1].settings_url matches Some(u) && u@ == accessibility_url(),
    {
        let mut permissions: Vec<Permission> = Vec::new();
        permissions.push(check_full_disk_access(probes));
        permissions.push(check_accessibility(accessibility_trusted));
        Diagnostics { os: "macos".to_string(), permissions }
    }

    /// On Linux no system permission gates the tools.
    pub fn check_linux() -> (d: Self)
        ensures
            d.os@ == "linux"@,
            d.permissions@.len() == 0,
    {
        Diagnostics { os: "linux".to_string(), permissions: Vec::new() }
    }

    /// Whether every permission is granted or does not apply.
    pub fn all_granted(&self) -> (b: bool)
        ensures
            b == forall|i: int| 0 <= i < self.permissions@.len() ==> is_satisfied(#[trigger] self.permissions@[i].status),
    {
        let mut i: usize = 0;
        while i < self.permissions.len()
            invariant
                i <= self.permissions@.len(),
                forall|j: int| 0 <= j < i ==> is_satisfied(#[trigger] self.permissions@[j].status),
            decreases self.permissions@.len() - i,
        {
            let s = self.permissions[i].status;
            if !(s == PermissionStatus::Granted || s == PermissionStatus::NotApplicable) {
                return false;
            }
            i = i + 1;
        }
        true
    }

    /// The settings page of the first permission named `name`, if it has
    /// one: what the agent opens when asked to.
    pub fn settings_url_for(&self, name: &str) -> (r: Option<String>)
        ensures
            match r {
                Some(u) => exists|i: int| {
                    &&& 0 <= i < self.permissions@.len()
                    &&& #[trigger] self.permissions@[i].name@ == name@
                    &&& (forall|j: int| 0 <= j < i ==> self.permissions@[j].name@ != name@)
                    &&& self.permissions@[i].settings_url matches Some(s) && s@ == u@
                },
                None => forall|i: int| 0 <= i < self.permissions@.len() && #[trigger] self.permissions@[i].name@ == name@
                    ==> (self.permissions@[i].settings_url is None
                        || exists|j: int| 0 <= j < i && self.permissions@[j].name@ == name@),
            },
    {
        let mut i: usize = 0;
        while i < self.permissions.len()
            invariant
                i <= self.permissions@.len(),
                forall|j: int| 0 <= j < i ==> self.permissions@[j].name@ != name@,
            decreases self.permissions@.len() - i,
        {
            if same_text(self.permissions[i].name.as_str(), name) {
                let r = copy_text_option(&self.permissions[i].settings_url);
                proof {
                    if self.permissions@[i as int].settings_url is None {
                    assert forall|k: int| 0 <= k < self.permissions@.len() && #[trigger] self.permissions@[k].name@ == name@
                        implies (self.permissions@[k].settings_url is None
                            || exists|j: int| 0 <= j < k && self.permissions@[j].name@ == name@) by {
                        if k > i {
                            assert(self.permissions@[i as int].name@ == name@);
                        }
                    }
                    }
                }
                return r;
            }
            i = i + 1;
        }
        None
    }

    /// The diagnostics as the command protocol reports them.
    pub fn to_response(&self) -> (r: commands::DiagnosticsResponse)
        ensures
            r.os@ == self.os@,
            r.permissions@.len() == self.permissions@.len(),
            forall|i: int| 0 <= i < self.permissions@.len() ==> {
                &&& (#[trigger] r.permissions@[i]).name@ == self.permissions@[i].name@
                &&& r.permissions@[i].status == reported_status(self.permissions@[i].status)
                &&& (r.permissions@[i].settings_url is Some <==> self.permissions@[i].settings_url is Some)
                &&& (r.permissions@[i].settings_url matches Some(u) ==> u@ == self.permissions@[i].settings_url->0@)
            },
    {
        let mut out: Vec<commands::Permission> = Vec::new();
        let mut i: usize = 0;
        while i < self.permissions.len()
            invariant
                i <= self.permissions@.len(),
                out@.len() == i,
                forall|k: int| 0 <= k < i ==> {
                    &&& (#[trigger] out@[k]).name@ == self.permissions@[k].name@
                    &&& out@[k].status == reported_status(self.permissions@[k].status)
                    &&& (out@[k].settings_url is Some <==> self.permissions@[k].settings_url is Some)
                    &&& (out@[k].settings_url matches Some(u) ==> u@ == self.permissions@[k].settings_url->0@)
                },
            decreases self.permissions@.len() - i,
        {
            let p = &self.permissions[i];
            out.push(commands::Permission {
                name: p.name.as_str().to_string(),
                status: report_status(p.status),
                settings_url: copy_text_option(&p.settings_url),
            });
            i = i + 1;
        }
        commands::DiagnosticsResponse { os: self.os.as_str().to_string(), permissions: out }
    }
}

} // verus!
