//! Daemon configuration: transport, security policy and privacy settings.
use vstd::prelude::*;
use crate::utils::text::{is_substring, lowercase, str_contains, to_lowercase, lemma_substring_of_self};

verus! {

/// How MCP clients reach the daemon.
#[derive(Debug, Clone, Copy, PartialEq, Eq, Structural)]
pub enum TransportMode {
    Stdio,
    UnixSocket,
    Network,
}

/// Settings of the Unix socket transport. `path` is the socket's file path.
#[derive(Debug, Clone)]
pub struct UnixSocketConfig {
    pub path: String,
    pub chmod: String,
}

/// The socket path used when the configuration names none.
pub fn default_socket_path() -> (r: String)
    ensures
        r@ == "/tmp/desktop-mcp.sock"@,
{
    String::from_str("/tmp/desktop-mcp.sock")
}

/// The socket permissions used when the configuration names none.
pub fn default_socket_chmod() -> (r: String)
    ensures
        r@ == "0600"@,
{
    String::from_str("0600")
}

/// Settings of the network (HTTP/SSE) transport. The file fields are paths.
#[derive(Debug, Clone)]
pub struct NetworkConfig {
    pub interface: String,
    pub port: u16,
    pub protocol: String,
    pub auth_token: String,
    pub enable_tls: bool,
    pub cert_file: Option<String>,
    pub key_file: Option<String>,
}

/// The interface the network transport binds when none is configured.
pub fn default_network_interface() -> (r: String)
    ensures
        r@ == "127.0.0.1"@,
{
    String::from_str("127.0.0.1")
}

/// The port the network transport binds when none is configured.
pub fn default_network_port() -> (r: u16)
    ensures
        r == 8443,
{
    8443
}

/// The network protocol used when none is configured.
pub fn default_network_protocol() -> (r: String)
    ensures
        r@ == "sse"@,
{
    String::from_str("sse")
}

/// The transport section of the configuration.
#[derive(Debug, Clone)]
pub struct ServerConfig {
    pub transport: TransportMode,
    pub unix_socket: Option<UnixSocketConfig>,
    pub network: Option<NetworkConfig>,
}

/// Whether the application list is a list of permitted or of refused applications.
#[derive(Debug, Clone, Copy, PartialEq, Eq, Structural)]
pub enum SecurityMode {
    Allowlist,
    Blocklist,
}

impl Default for SecurityMode {
    fn default() -> (r: Self)
        ensures
            r == SecurityMode::Allowlist,
    {
        SecurityMode::Allowlist
    }
}

/// The value of boolean settings that are on unless configured otherwise.
pub fn default_true() -> (r: bool)
    ensures
        r,
{
    true
}

/// The application policy: which applications the daemon may act on.
#[derive(Debug, Clone)]
pub struct SecurityConfig {
    pub mode: SecurityMode,
    pub enforce_focus_lock: bool,
    pub allowed_apps: Vec<String>,
    pub blocked_apps: Vec<String>,
}

/// The characters of each string of a sequence.
pub open spec fn strings_view(v: Seq<String>) -> Seq<Seq<char>> {
    Seq::new(v.len(), |i: int| v[i]@)
}

/// A policy entry names an application when, both lowercased, the entry occurs in the
/// application's identifier (an equal identifier included).
pub open spec fn pattern_matches(pattern: Seq<char>, app_id: Seq<char>) -> bool {
    is_substring(lowercase(pattern), lowercase(app_id))
}

/// Some entry of `patterns` names the application.
pub open spec fn listed(patterns: Seq<Seq<char>>, app_id: Seq<char>) -> bool {
    exists|i: int| 0 <= i < patterns.len() && #[trigger] pattern_matches(patterns[i], app_id)
}

/// The applications the default policy permits.
pub open spec fn default_allowed_apps() -> Seq<Seq<char>> {
    seq![
        "com.apple.calculator"@,
        "Calculator"@,
        "com.microsoft.Word"@,
        "Microsoft Word"@,
        "Word"@,
        "org.libreoffice.LibreOffice"@,
        "LibreOffice"@,
        "com.apple.Pages"@,
        "Pages"@,
        "com.apple.TextEdit"@,
        "TextEdit"@,
        "kcalc"@,
        "gnome-calculator"@,
        "org.kde.kcalc"@,
        "org.gnome.Calculator"@,
        "libreoffice-writer"@,
        "onlyoffice-desktopeditors"@,
    ]
}

/// The applications the default policy refuses.
pub open spec fn default_blocked_apps() -> Seq<Seq<char>> {
    seq![
        "com.apple.Terminal"@,
        "com.googlecode.iterm2"@,
        "org.gnome.Terminal"@,
        "com.1password.1password"@,
        "org.keepassxc.keepassxc"@,
        "com.apple.keychainaccess"@,
    ]
}

impl SecurityConfig {
    /// Some blocked entry names the application.
    pub open spec fn blocks(&self, app_id: Seq<char>) -> bool {
        listed(strings_view(self.blocked_apps@), app_id)
    }

    /// Some allowed entry names the application.
    pub open spec fn lists(&self, app_id: Seq<char>) -> bool {
        listed(strings_view(self.allowed_apps@), app_id)
    }

    /// The policy decision: a blocked application is refused in every mode; otherwise an
    /// allowlist permits only listed applications and a blocklist permits every application.
    pub open spec fn permits(&self, app_id: Seq<char>) -> bool {
        !self.blocks(app_id) && (self.mode == SecurityMode::Blocklist || self.lists(app_id))
    }

    /// Whether the policy lets the daemon act on the application `app_id`.
    pub fn is_allowed(&self, app_id: &str) -> (r: bool)
        ensures
            r == self.permits(app_id@),
    {
        let app_lower = to_lowercase(app_id);
        if any_entry_names(&self.blocked_apps, &app_lower, Ghost(app_id@)) {
            return false;
        }
        match self.mode {
            SecurityMode::Allowlist => any_entry_names(&self.allowed_apps, &app_lower, Ghost(app_id@)),
            SecurityMode::Blocklist => true,
        }
    }
}

/// Whether some entry of `patterns` names the application whose lowercased identifier is `app_lower`.
pub(crate) fn any_entry_names(patterns: &Vec<String>, app_lower: &String, Ghost(app_id): Ghost<Seq<char>>) -> (r: bool)
    requires
        app_lower@ == lowercase(app_id),
    ensures
        r == listed(strings_view(patterns@), app_id),
{
    let mut i: usize = 0;
    while i < patterns.len()
        invariant
            app_lower@ == lowercase(app_id),
            i <= patterns@.len(),
            forall|j: int| 0 <= j < i ==> !#[trigger] pattern_matches(patterns@[j]@, app_id),
        decreases patterns@.len() - i,
    {
        let entry_lower = to_lowercase(patterns[i].as_str());
        let equal = entry_lower == *app_lower;
        if equal || str_contains(app_lower.as_str(), entry_lower.as_str()) {
            proof {
                if equal {
                    lemma_substring_of_self(app_lower@);
                }
                assert(strings_view(patterns@)[i as int] == patterns@[i as int]@);
                assert(pattern_matches(strings_view(patterns@)[i as int], app_id));
            }
            return true;
        }
        i = i + 1;
    }
    proof {
        assert forall|j: int| 0 <= j < strings_view(patterns@).len() implies !#[trigger] pattern_matches(
            strings_view(patterns@)[j],
            app_id,
        ) by {
            assert(strings_view(patterns@)[j] == patterns@[j]@);
        }
    }
    false
}

impl Default for SecurityConfig {
    /// An allowlist of common calculators and word processors that blocks terminals and
    /// password managers, with the focus lock on.
    fn default() -> (r: Self)
        ensures
            r.mode == SecurityMode::Allowlist,
            r.enforce_focus_lock,
            strings_view(r.allowed_apps@) == default_allowed_apps(),
            strings_view(r.blocked_apps@) == default_blocked_apps(),
    {
        let mut allowed: Vec<String> = Vec::new();
        allowed.push(String::from_str("com.apple.calculator"));
        allowed.push(String::from_str("Calculator"));
        allowed.push(String::from_str("com.microsoft.Word"));
        allowed.push(String::from_str("Microsoft Word"));
        allowed.push(String::from_str("Word"));
        allowed.push(String::from_str("org.libreoffice.LibreOffice"));
        allowed.push(String::from_str("LibreOffice"));
        allowed.push(String::from_str("com.apple.Pages"));
        allowed.push(String::from_str("Pages"));
        allowed.push(String::from_str("com.apple.TextEdit"));
        allowed.push(String::from_str("TextEdit"));
        allowed.push(String::from_str("kcalc"));
        allowed.push(String::from_str("gnome-calculator"));
        allowed.push(String::from_str("org.kde.kcalc"));
        allowed.push(String::from_str("org.gnome.Calculator"));
        allowed.push(String::from_str("libreoffice-writer"));
        allowed.push(String::from_str("onlyoffice-desktopeditors"));
        let mut blocked: Vec<String> = Vec::new();
        blocked.push(String::from_str("com.apple.Terminal"));
        blocked.push(String::from_str("com.googlecode.iterm2"));
        blocked.push(String::from_str("org.gnome.Terminal"));
        blocked.push(String::from_str("com.1password.1password"));
        blocked.push(String::from_str("org.keepassxc.keepassxc"));
        blocked.push(String::from_str("com.apple.keychainaccess"));
        assert(strings_view(allowed@) =~= default_allowed_apps());
        assert(strings_view(blocked@) =~= default_blocked_apps());
        SecurityConfig {
            mode: SecurityMode::Allowlist,
            enforce_focus_lock: true,
            allowed_apps: allowed,
            blocked_apps: blocked,
        }
    }
}

/// Privacy settings of window capture and text inspection.
#[derive(Debug, Clone)]
pub struct PrivacyConfig {
    pub isolate_window_capture: bool,
    pub mask_sensitive_text_fields: bool,
}

impl Default for PrivacyConfig {
    /// Both protections on.
    fn default() -> (r: Self)
        ensures
            r.isolate_window_capture,
            r.mask_sensitive_text_fields,
    {
        PrivacyConfig { isolate_window_capture: true, mask_sensitive_text_fields: true }
    }
}

/// The whole daemon configuration.
#[derive(Debug, Clone)]
pub struct Config {
    pub server: ServerConfig,
    pub security: SecurityConfig,
    pub privacy: PrivacyConfig,
}

} // verus!
