//! Pages and scripts the server hands out: the base URL it is reached
//! at, the rule for device aliases, and the agent install scripts.

use vstd::prelude::*;
use vstd::string::StringExecFns;
use crate::text::{chars_of, lowercase_of, string_of, to_lowercase};

verus! {

/// The address the server is reached at: the forwarded host, else the
/// `Host` header, else `localhost:8080`, after the forwarded protocol, else
/// `http`.  A header is `Some` when present, holding `Some` text when its
/// value is readable as text; an unreadable forwarded host is not replaced
/// by the `Host` header.
pub open spec fn base_url_spec(
    forwarded_host: Option<Option<Seq<char>>>,
    host: Option<Option<Seq<char>>>,
    forwarded_proto: Option<Seq<char>>,
) -> Seq<char> {
    let h = match forwarded_host {
        Some(v) => v,
        None => match host {
            Some(v) => v,
            None => None,
        },
    };
    let host_text = match h {
        Some(t) => t,
        None => "localhost:8080"@,
    };
    let proto = match forwarded_proto {
        Some(p) => p,
        None => "http"@,
    };
    proto + "://"@ + host_text
}

/// The host part of the base URL: a readable `x-forwarded-host` wins; when
/// that header is absent, a readable `Host` header gives it; the scheme is
/// `x-forwarded-proto` where given, else `http`.
pub proof fn law_base_url_host(
    forwarded_host: Option<Option<Seq<char>>>,
    host: Option<Option<Seq<char>>>,
    forwarded_proto: Option<Seq<char>>,
)
    ensures
        ({
            let scheme = match forwarded_proto {
                Some(p) => p,
                None => "http"@,
            };
            &&& forwarded_host matches Some(Some(f)) ==> base_url_spec(forwarded_host, host, forwarded_proto)
                == scheme + "://"@ + f
            &&& forwarded_host is None ==> (host matches Some(Some(h)) ==> base_url_spec(
                forwarded_host,
                host,
                forwarded_proto,
            ) == scheme + "://"@ + h)
        }),
{
}

/// The view of an optional header.
pub open spec fn header_view(h: Option<Option<&str>>) -> Option<Option<Seq<char>>> {
    match h {
        Some(Some(t)) => Some(Some(t@)),
        Some(None) => Some(None),
        None => None,
    }
}

/// The address the server is reached at (see `base_url_spec`).
pub fn extract_base_url(
    forwarded_host: Option<Option<&str>>,
    host: Option<Option<&str>>,
    forwarded_proto: Option<&str>,
) -> (u: String)
    ensures
        u@ == base_url_spec(
            header_view(forwarded_host),
            header_view(host),
            match forwarded_proto {
                Some(p) => Some(p@),
                None => None,
            },
        ),
{
    let h = match forwarded_host {
        Some(v) => v,
        None => match host {
            Some(v) => v,
            None => None,
        },
    };
    let host_text = match h {
        Some(t) => t,
        None => "localhost:8080",
    };
    let proto = match forwarded_proto {
        Some(p) => p,
        None => "http",
    };
    let mut u = proto.to_string();
    u.append("://");
    u.append(host_text);
    u
}

/// A device alias: two to eight ASCII letters or digits.
pub open spec fn alias_ok(a: Seq<char>) -> bool {
    &&& 2 <= a.len() <= 8
    &&& forall|i: int| 0 <= i < a.len() ==> #[trigger] is_alnum(a[i])
}

/// An ASCII letter or digit.
pub open spec fn is_alnum(c: char) -> bool {
    ('0' <= c <= '9') || ('a' <= c <= 'z') || ('A' <= c <= 'Z')
}

/// The alias a new device gets from what was typed: the text in lower
/// case, when that is a valid alias.
pub fn normalize_alias(alias: &str) -> (r: Option<String>)
    ensures
        match r {
            Some(a) => alias_ok(lowercase_of(alias@)) && a@ == lowercase_of(alias@),
            None => !alias_ok(lowercase_of(alias@)),
        },
{
    let lower = to_lowercase(alias);
    let cs = chars_of(lower.as_str());
    if cs.len() < 2 || cs.len() > 8 {
        return None;
    }
    let mut i: usize = 0;
    while i < cs.len()
        invariant
            i <= cs.len(),
            cs@ == lowercase_of(alias@),
            lower@ == cs@,
            forall|j: int| 0 <= j < i ==> #[trigger] is_alnum(cs@[j]),
        decreases cs.len() - i,
    {
        let c = cs[i];
        if !(('0' <= c && c <= '9') || ('a' <= c && c <= 'z') || ('A' <= c && c <= 'Z')) {
            assert(!is_alnum(cs@[i as int]));
            return None;
        }
        i = i + 1;
    }
    Some(lower)
}

/// Why an install script cannot be served.
#[derive(Debug, Clone, Copy, PartialEq, Eq, Structural)]
pub enum InstallError {
    /// The server has no `github.repo` to download the agent from.
    RepoNotConfigured,
}

impl InstallError {
    /// The text the server answers with (status 503).
    pub fn message(&self) -> (m: &'static str)
        ensures
            m@ == "Install script not available: github.repo not configured"@,
    {
        "Install script not available: github.repo not configured"
    }
}



/// The generic install script: it downloads the agent for the machine's
/// system from the latest release of `github_repo` and shows how to start
/// it against `base_url`.
pub open spec fn install_script_text(github_repo: Seq<char>, base_url: Seq<char>) -> Seq<char> {
    "#!/bin/bash\nset -e\n\n# Portal Agent Installer\n# Downloads from GitHub releases: "@
        + github_repo
        + "\n\nREPO=\""@
        + github_repo
        + "\"\n\nOS=$(uname -s | tr '[:upper:]' '[:lower:]')\nARCH=$(uname -m)\n\ncase \"$ARCH\" in\n    x86_64|amd64)\n        ARCH=\"amd64\"\n        ;;\n    aarch64|arm64)\n        ARCH=\"arm64\"\n        ;;\n    *)\n        echo \"Unsupported architecture: $ARCH\"\n        exit 1\n        ;;\nesac\n\ncase \"$OS\" in\n    linux|darwin)\n        ;;\n    *)\n        echo \"Unsupported OS: $OS\"\n        exit 1\n        ;;\nesac\n\nASSET_NAME=\"portal-agent-${OS}-${ARCH}\"\nINSTALL_DIR=\"/usr/local/bin\"\n\necho \"Fetching latest release from $REPO...\"\n\n# Get latest release download URL\nRELEASE_URL=$(curl -fsSL \"https://api.github.com/repos/$REPO/releases/latest\" \\\n    | grep \"browser_download_url.*$ASSET_NAME\\\"\" \\\n    | cut -d '\"' -f 4)\n\nif [ -z \"$RELEASE_URL\" ]; then\n    echo \"Error: Could not find release asset for $ASSET_NAME\"\n    echo \"Check releases at: https://github.com/$REPO/releases\"\n    exit 1\nfi\n\necho \"Downloading Portal agent...\"\necho \"  URL: $RELEASE_URL\"\n\nif command -v curl &> /dev/null; then\n    curl -fsSL \"$RELEASE_URL\" -o /tmp/portal-agent\nelif command -v wget &> /dev/null; then\n    wget -q \"$RELEASE_URL\" -O /tmp/portal-agent\nelse\n    echo \"Error: curl or wget required\"\n    exit 1\nfi\n\nchmod +x /tmp/portal-agent\n\nif [ -w \"$INSTALL_DIR\" ]; then\n    mv /tmp/portal-agent \"$INSTALL_DIR/portal-agent\"\nelse\n    echo \"Installing to $INSTALL_DIR (requires sudo)...\"\n    sudo mv /tmp/portal-agent \"$INSTALL_DIR/portal-agent\"\nfi\n\necho \"\"\necho \"Portal agent installed successfully!\"\necho \"\"\necho \"Usage:\"\necho \"  portal-agent --key YOUR_DEVICE_KEY --server "@
        + base_url
        + "\"\necho \"\"\n"@
}

/// The script, or an error when no repository is configured.
pub fn install_script(github_repo: Option<&str>, base_url: &str) -> (r: Result<String, InstallError>)
    ensures
        match github_repo {
            Some(g) => r matches Ok(s) && s@ == install_script_text(g@, base_url@),
            None => r == Err::<String, InstallError>(InstallError::RepoNotConfigured),
        },
{
    let repo = match github_repo {
        Some(r) => r,
        None => {
            return Err(InstallError::RepoNotConfigured);
        },
    };
    let mut s = "#!/bin/bash\nset -e\n\n# Portal Agent Installer\n# Downloads from GitHub releases: ".to_string();
    s.append(repo);
    s.append("\n\nREPO=\"");
    s.append(repo);
    s.append("\"\n\nOS=$(uname -s | tr '[:upper:]' '[:lower:]')\nARCH=$(uname -m)\n\ncase \"$ARCH\" in\n    x86_64|amd64)\n        ARCH=\"amd64\"\n        ;;\n    aarch64|arm64)\n        ARCH=\"arm64\"\n        ;;\n    *)\n        echo \"Unsupported architecture: $ARCH\"\n        exit 1\n        ;;\nesac\n\ncase \"$OS\" in\n    linux|darwin)\n        ;;\n    *)\n        echo \"Unsupported OS: $OS\"\n        exit 1\n        ;;\nesac\n\nASSET_NAME=\"portal-agent-${OS}-${ARCH}\"\nINSTALL_DIR=\"/usr/local/bin\"\n\necho \"Fetching latest release from $REPO...\"\n\n# Get latest release download URL\nRELEASE_URL=$(curl -fsSL \"https://api.github.com/repos/$REPO/releases/latest\" \\\n    | grep \"browser_download_url.*$ASSET_NAME\\\"\" \\\n    | cut -d '\"' -f 4)\n\nif [ -z \"$RELEASE_URL\" ]; then\n    echo \"Error: Could not find release asset for $ASSET_NAME\"\n    echo \"Check releases at: https://github.com/$REPO/releases\"\n    exit 1\nfi\n\necho \"Downloading Portal agent...\"\necho \"  URL: $RELEASE_URL\"\n\nif command -v curl &> /dev/null; then\n    curl -fsSL \"$RELEASE_URL\" -o /tmp/portal-agent\nelif command -v wget &> /dev/null; then\n    wget -q \"$RELEASE_URL\" -O /tmp/portal-agent\nelse\n    echo \"Error: curl or wget required\"\n    exit 1\nfi\n\nchmod +x /tmp/portal-agent\n\nif [ -w \"$INSTALL_DIR\" ]; then\n    mv /tmp/portal-agent \"$INSTALL_DIR/portal-agent\"\nelse\n    echo \"Installing to $INSTALL_DIR (requires sudo)...\"\n    sudo mv /tmp/portal-agent \"$INSTALL_DIR/portal-agent\"\nfi\n\necho \"\"\necho \"Portal agent installed successfully!\"\necho \"\"\necho \"Usage:\"\necho \"  portal-agent --key YOUR_DEVICE_KEY --server ");
    s.append(base_url);
    s.append("\"\necho \"\"\n");
    Ok(s)
}

/// The install script of one device: it downloads the agent, installs
/// it as a service started against `base_url` with `device_key`.
pub open spec fn device_install_script_text(github_repo: Seq<char>, base_url: Seq<char>, device_key: Seq<char>) -> Seq<char> {
    "#!/bin/bash\nset -e\n\n# Portal Agent Installer & Setup\n# Server: "@
        + base_url
        + "\n\nREPO=\""@
        + github_repo
        + "\"\nSERVER_URL=\""@
        + base_url
        + "\"\nDEVICE_KEY=\""@
        + device_key
        + "\"\n\nOS=$(uname -s | tr '[:upper:]' '[:lower:]')\nARCH=$(uname -m)\n\ncase \"$ARCH\" in\n    x86_64|amd64) ARCH=\"amd64\" ;;\n    aarch64|arm64) ARCH=\"arm64\" ;;\n    *)\n        echo \"Unsupported architecture: $ARCH\"\n        exit 1\n        ;;\nesac\n\ncase \"$OS\" in\n    linux|darwin) ;;\n    *)\n        echo \"Unsupported OS: $OS\"\n        exit 1\n        ;;\nesac\n\nASSET_NAME=\"portal-agent-${OS}-${ARCH}\"\nINSTALL_DIR=\"/usr/local/bin\"\n\necho \"==> Fetching latest release from $REPO...\"\n\nRELEASE_URL=$(curl -fsSL \"https://api.github.com/repos/$REPO/releases/latest\" \\\n    | grep \"browser_download_url.*$ASSET_NAME\\\"\" \\\n    | cut -d '\"' -f 4)\n\nif [ -z \"$RELEASE_URL\" ]; then\n    echo \"Error: Could not find release asset for $ASSET_NAME\"\n    echo \"Check releases at: https://github.com/$REPO/releases\"\n    exit 1\nfi\n\necho \"==> Downloading Portal agent...\"\ncurl -fsSL \"$RELEASE_URL\" -o /tmp/portal-agent\nchmod +x /tmp/portal-agent\n\nif [ -w \"$INSTALL_DIR\" ]; then\n    mv /tmp/portal-agent \"$INSTALL_DIR/portal-agent\"\nelse\n    echo \"==> Installing to $INSTALL_DIR (requires sudo)...\"\n    sudo mv /tmp/portal-agent \"$INSTALL_DIR/portal-agent\"\nfi\n\necho \"==> Setting up daemon...\"\n\nif [ \"$OS\" = \"darwin\" ]; then\n    # macOS: launchd\n    PLIST_PATH=\"$HOME/Library/LaunchAgents/com.portal.agent.plist\"\n    mkdir -p \"$HOME/Library/LaunchAgents\"\n\n    cat > \"$PLIST_PATH\" << 'PLIST'\n<?xml version=\"1.0\" encoding=\"UTF-8\"?>\n<!DOCTYPE plist PUBLIC \"-//Apple//DTD PLIST 1.0//EN\" \"http://www.apple.com/DTDs/PropertyList-1.0.dtd\">\n<plist version=\"1.0\">\n<dict>\n    <key>Label</key>\n    <string>com.portal.agent</string>\n    <key>ProgramArguments</key>\n    <array>\n        <string>/usr/local/bin/portal-agent</string>\n        <string>--server</string>\n        <string>SERVER_URL_PLACEHOLDER</string>\n        <string>--key</string>\n        <string>DEVICE_KEY_PLACEHOLDER</string>\n    </array>\n    <key>RunAtLoad</key>\n    <true/>\n    <key>KeepAlive</key>\n    <true/>\n    <key>StandardOutPath</key>\n    <string>/tmp/portal-agent.log</string>\n    <key>StandardErrorPath</key>\n    <string>/tmp/portal-agent.log</string>\n</dict>\n</plist>\nPLIST\n\n    sed -i '' \"s|SERVER_URL_PLACEHOLDER|$SERVER_URL|g\" \"$PLIST_PATH\"\n    sed -i '' \"s|DEVICE_KEY_PLACEHOLDER|$DEVICE_KEY|g\" \"$PLIST_PATH\"\n\n    launchctl unload \"$PLIST_PATH\" 2>/dev/null || true\n    launchctl load \"$PLIST_PATH\"\n\n    echo \"==> Daemon installed and started (launchd)\"\n    echo \"    Logs: /tmp/portal-agent.log\"\n    echo \"    Stop: launchctl unload $PLIST_PATH\"\n    echo \"\"\n    echo \"Portal agent is now running!\"\n\nelif [ \"$OS\" = \"linux\" ]; then\n    if command -v systemctl &> /dev/null && systemctl --user status &> /dev/null; then\n        # Linux with systemd\n        SERVICE_DIR=\"$HOME/.config/systemd/user\"\n        SERVICE_PATH=\"$SERVICE_DIR/portal-agent.service\"\n        mkdir -p \"$SERVICE_DIR\"\n\n        cat > \"$SERVICE_PATH\" << SYSTEMD\n[Unit]\nDescription=Portal Agent\nAfter=network.target\n\n[Service]\nExecStart=/usr/local/bin/portal-agent --server $SERVER_URL --key $DEVICE_KEY\nRestart=always\nRestartSec=10\n\n[Install]\nWantedBy=default.target\nSYSTEMD\n\n        systemctl --user daemon-reload\n        systemctl --user enable portal-agent\n        systemctl --user restart portal-agent\n\n        echo \"==> Daemon installed and started (systemd)\"\n        echo \"    Status: systemctl --user status portal-agent\"\n        echo \"    Logs: journalctl --user -u portal-agent -f\"\n        echo \"    Stop: systemctl --user stop portal-agent\"\n        echo \"\"\n        echo \"Portal agent is now running!\"\n    else\n        # Linux without systemd\n        echo \"\"\n        echo \"==> systemd not available\"\n        echo \"\"\n        echo \"To run manually:\"\n        echo \"  portal-agent --server $SERVER_URL --key $DEVICE_KEY\"\n        echo \"\"\n        echo \"Or install systemd and re-run this script:\"\n        echo \"  apt install systemd\"\n    fi\nfi\necho \"\"\n"@
}

/// The script, or an error when no repository is configured.
pub fn device_install_script(github_repo: Option<&str>, base_url: &str, device_key: &str) -> (r: Result<String, InstallError>)
    ensures
        match github_repo {
            Some(g) => r matches Ok(s) && s@ == device_install_script_text(g@, base_url@, device_key@),
            None => r == Err::<String, InstallError>(InstallError::RepoNotConfigured),
        },
{
    let repo = match github_repo {
        Some(r) => r,
        None => {
            return Err(InstallError::RepoNotConfigured);
        },
    };
    let mut s = "#!/bin/bash\nset -e\n\n# Portal Agent Installer & Setup\n# Server: ".to_string();
    s.append(base_url);
    s.append("\n\nREPO=\"");
    s.append(repo);
    s.append("\"\nSERVER_URL=\"");
    s.append(base_url);
    s.append("\"\nDEVICE_KEY=\"");
    s.append(device_key);
    s.append("\"\n\nOS=$(uname -s | tr '[:upper:]' '[:lower:]')\nARCH=$(uname -m)\n\ncase \"$ARCH\" in\n    x86_64|amd64) ARCH=\"amd64\" ;;\n    aarch64|arm64) ARCH=\"arm64\" ;;\n    *)\n        echo \"Unsupported architecture: $ARCH\"\n        exit 1\n        ;;\nesac\n\ncase \"$OS\" in\n    linux|darwin) ;;\n    *)\n        echo \"Unsupported OS: $OS\"\n        exit 1\n        ;;\nesac\n\nASSET_NAME=\"portal-agent-${OS}-${ARCH}\"\nINSTALL_DIR=\"/usr/local/bin\"\n\necho \"==> Fetching latest release from $REPO...\"\n\nRELEASE_URL=$(curl -fsSL \"https://api.github.com/repos/$REPO/releases/latest\" \\\n    | grep \"browser_download_url.*$ASSET_NAME\\\"\" \\\n    | cut -d '\"' -f 4)\n\nif [ -z \"$RELEASE_URL\" ]; then\n    echo \"Error: Could not find release asset for $ASSET_NAME\"\n    echo \"Check releases at: https://github.com/$REPO/releases\"\n    exit 1\nfi\n\necho \"==> Downloading Portal agent...\"\ncurl -fsSL \"$RELEASE_URL\" -o /tmp/portal-agent\nchmod +x /tmp/portal-agent\n\nif [ -w \"$INSTALL_DIR\" ]; then\n    mv /tmp/portal-agent \"$INSTALL_DIR/portal-agent\"\nelse\n    echo \"==> Installing to $INSTALL_DIR (requires sudo)...\"\n    sudo mv /tmp/portal-agent \"$INSTALL_DIR/portal-agent\"\nfi\n\necho \"==> Setting up daemon...\"\n\nif [ \"$OS\" = \"darwin\" ]; then\n    # macOS: launchd\n    PLIST_PATH=\"$HOME/Library/LaunchAgents/com.portal.agent.plist\"\n    mkdir -p \"$HOME/Library/LaunchAgents\"\n\n    cat > \"$PLIST_PATH\" << 'PLIST'\n<?xml version=\"1.0\" encoding=\"UTF-8\"?>\n<!DOCTYPE plist PUBLIC \"-//Apple//DTD PLIST 1.0//EN\" \"http://www.apple.com/DTDs/PropertyList-1.0.dtd\">\n<plist version=\"1.0\">\n<dict>\n    <key>Label</key>\n    <string>com.portal.agent</string>\n    <key>ProgramArguments</key>\n    <array>\n        <string>/usr/local/bin/portal-agent</string>\n        <string>--server</string>\n        <string>SERVER_URL_PLACEHOLDER</string>\n        <string>--key</string>\n        <string>DEVICE_KEY_PLACEHOLDER</string>\n    </array>\n    <key>RunAtLoad</key>\n    <true/>\n    <key>KeepAlive</key>\n    <true/>\n    <key>StandardOutPath</key>\n    <string>/tmp/portal-agent.log</string>\n    <key>StandardErrorPath</key>\n    <string>/tmp/portal-agent.log</string>\n</dict>\n</plist>\nPLIST\n\n    sed -i '' \"s|SERVER_URL_PLACEHOLDER|$SERVER_URL|g\" \"$PLIST_PATH\"\n    sed -i '' \"s|DEVICE_KEY_PLACEHOLDER|$DEVICE_KEY|g\" \"$PLIST_PATH\"\n\n    launchctl unload \"$PLIST_PATH\" 2>/dev/null || true\n    launchctl load \"$PLIST_PATH\"\n\n    echo \"==> Daemon installed and started (launchd)\"\n    echo \"    Logs: /tmp/portal-agent.log\"\n    echo \"    Stop: launchctl unload $PLIST_PATH\"\n    echo \"\"\n    echo \"Portal agent is now running!\"\n\nelif [ \"$OS\" = \"linux\" ]; then\n    if command -v systemctl &> /dev/null && systemctl --user status &> /dev/null; then\n        # Linux with systemd\n        SERVICE_DIR=\"$HOME/.config/systemd/user\"\n        SERVICE_PATH=\"$SERVICE_DIR/portal-agent.service\"\n        mkdir -p \"$SERVICE_DIR\"\n\n        cat > \"$SERVICE_PATH\" << SYSTEMD\n[Unit]\nDescription=Portal Agent\nAfter=network.target\n\n[Service]\nExecStart=/usr/local/bin/portal-agent --server $SERVER_URL --key $DEVICE_KEY\nRestart=always\nRestartSec=10\n\n[Install]\nWantedBy=default.target\nSYSTEMD\n\n        systemctl --user daemon-reload\n        systemctl --user enable portal-agent\n        systemctl --user restart portal-agent\n\n        echo \"==> Daemon installed and started (systemd)\"\n        echo \"    Status: systemctl --user status portal-agent\"\n        echo \"    Logs: journalctl --user -u portal-agent -f\"\n        echo \"    Stop: systemctl --user stop portal-agent\"\n        echo \"\"\n        echo \"Portal agent is now running!\"\n    else\n        # Linux without systemd\n        echo \"\"\n        echo \"==> systemd not available\"\n        echo \"\"\n        echo \"To run manually:\"\n        echo \"  portal-agent --server $SERVER_URL --key $DEVICE_KEY\"\n        echo \"\"\n        echo \"Or install systemd and re-run this script:\"\n        echo \"  apt install systemd\"\n    fi\nfi\necho \"\"\n");
    Ok(s)
}

} // verus!
