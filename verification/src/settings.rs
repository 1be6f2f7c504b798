//! Server settings that the configuration file and the admin pages share:
//! the port and the administrator's credentials. A change is only
//! published when the value really differs.
use vstd::prelude::*;
use vstd::std_specs::cmp::PartialEqSpecImpl;
use crate::auth::password_verifies;
use crate::text::owned_string;

verus! {

/// The port the server listens on when the configuration names none.
pub const DEFAULT_PORT: u16 = 3000;

/// The administrator's name and password, as the configuration file
/// holds them.
pub struct AdminCredentials {
    pub username: String,
    password: String,
}

/// Administrator credentials as plain values.
pub struct AdminView {
    pub username: Seq<char>,
    pub password: Seq<char>,
}

impl View for AdminCredentials {
    type V = AdminView;

    closed spec fn view(&self) -> AdminView {
        AdminView { username: self.username@, password: self.password@ }
    }
}

impl PartialEq for AdminCredentials {
    fn eq(&self, other: &Self) -> (r: bool) {
        self.username == other.username && self.password == other.password
    }
}

impl PartialEqSpecImpl for AdminCredentials {
    open spec fn obeys_eq_spec() -> bool {
        true
    }

    open spec fn eq_spec(&self, other: &Self) -> bool {
        self@ == other@
    }
}

impl AdminCredentials {
    pub fn new(username: String, password: String) -> (r: Self)
        ensures
            r@ == (AdminView { username: username@, password: password@ }),
    {
        AdminCredentials { username, password }
    }

    pub fn password(&self) -> (r: &str)
        ensures
            r@ == self@.password,
    {
        self.password.as_str()
    }

    /// A copy of these credentials.
    pub fn duplicate(&self) -> (r: Self)
        ensures
            r@ == self@,
    {
        AdminCredentials { username: self.username.clone(), password: self.password.clone() }
    }
}

impl Default for AdminCredentials {
    /// `admin` / `admin`.
    fn default() -> (r: Self)
        ensures
            r@ == (AdminView { username: "admin"@, password: "admin"@ }),
    {
        AdminCredentials { username: owned_string("admin"), password: owned_string("admin") }
    }
}

/// The current settings.
pub struct ServerSettings {
    port: u16,
    admin: AdminCredentials,
}

/// The settings as plain values.
pub struct SettingsView {
    pub port: u16,
    pub admin: AdminView,
}

impl View for ServerSettings {
    type V = SettingsView;

    closed spec fn view(&self) -> SettingsView {
        SettingsView { port: self.port, admin: self.admin@ }
    }
}

impl ServerSettings {
    pub fn new(port: u16, admin: AdminCredentials) -> (r: Self)
        ensures
            r@ == (SettingsView { port, admin: admin@ }),
    {
        ServerSettings { port, admin }
    }

    /// The settings of a missing configuration file: port 3000 and the
    /// default administrator.
    pub fn defaults() -> (r: Self)
        ensures
            r@.port == DEFAULT_PORT,
            r@.admin == (AdminView { username: "admin"@, password: "admin"@ }),
    {
        ServerSettings { port: DEFAULT_PORT, admin: AdminCredentials::default() }
    }

    pub fn port(&self) -> (r: u16)
        ensures
            r == self@.port,
    {
        self.port
    }

    /// Sets the port; says whether it changed (a change takes effect after
    /// a restart).
    pub fn set_port(&mut self, port: u16) -> (changed: bool)
        ensures
            changed == (old(self)@.port != port),
            final(self)@ == (SettingsView { port, admin: old(self)@.admin }),
    {
        let changed = self.port != port;
        if changed {
            self.port = port;
        }
        changed
    }

    pub fn admin(&self) -> (r: AdminCredentials)
        ensures
            r@ == self@.admin,
    {
        self.admin.duplicate()
    }

    /// Sets the administrator's credentials; says whether they changed.
    pub fn set_admin(&mut self, admin: AdminCredentials) -> (changed: bool)
        ensures
            changed == (old(self)@.admin != admin@),
            final(self)@ == (SettingsView { port: old(self)@.port, admin: admin@ }),
    {
        let changed = !(self.admin == admin);
        if changed {
            self.admin = admin;
        }
        changed
    }

    /// Renames the administrator, keeping the password.
    pub fn update_admin_username(&mut self, username: &str) -> (changed: bool)
        ensures
            final(self)@.port == old(self)@.port,
            final(self)@.admin == (AdminView {
                username: username@,
                password: old(self)@.admin.password,
            }),
            changed == (old(self)@.admin.username != username@),
    {
        let pw = self.admin.password.clone();
        let name = owned_string(username);
        self.set_admin(AdminCredentials { username: name, password: pw })
    }

    /// Changes the administrator's password, keeping the name.
    pub fn update_admin_password(&mut self, password: &str) -> (changed: bool)
        ensures
            final(self)@.port == old(self)@.port,
            final(self)@.admin == (AdminView {
                username: old(self)@.admin.username,
                password: password@,
            }),
            changed == (old(self)@.admin.password != password@),
    {
        let name = self.admin.username.clone();
        let pw = owned_string(password);
        self.set_admin(AdminCredentials { username: name, password: pw })
    }

    /// Takes over the port and credentials of a configuration file; says
    /// which of the two changed.
    pub fn set_all(&mut self, port: u16, admin: AdminCredentials) -> (changed: (bool, bool))
        ensures
            changed.0 == (old(self)@.port != port),
            changed.1 == (old(self)@.admin != admin@),
            final(self)@ == (SettingsView { port, admin: admin@ }),
    {
        let p = self.set_port(port);
        let a = self.set_admin(admin);
        (p, a)
    }
}

/// Setting a value that is already set reports no change and keeps the
/// settings as they are.
pub proof fn setting_the_current_value_is_no_change(s: SettingsView, port: u16, admin: AdminView)
    requires
        s.port == port,
        s.admin == admin,
    ensures
        !(s.port != port),
        !(s.admin != admin),
        (SettingsView { port, admin: s.admin }) == s,
        (SettingsView { port: s.port, admin }) == s,
{
}

/// Whether the database's administrator account must be rewritten: when
/// the users table is empty, or the name or the password hash differs from
/// the last ones written.
pub fn admin_sync_needed(
    username: &str,
    password_hash: &str,
    last_username: &str,
    last_password_hash: &str,
    users_is_empty: bool,
) -> (r: bool)
    ensures
        r == (users_is_empty || username@ != last_username@ || password_hash@
            != last_password_hash@),
{
    let a = crate::text::to_chars(username);
    let b = crate::text::to_chars(last_username);
    let c = crate::text::to_chars(password_hash);
    let d = crate::text::to_chars(last_password_hash);
    let same = crate::text::chars_equal(a.as_slice(), b.as_slice()) && crate::text::chars_equal(
        c.as_slice(),
        d.as_slice(),
    );
    !(same && !users_is_empty)
}

/// `password_auth::generate_hash`: a PHC hash of the password with a fresh
/// random salt, made with the first algorithm that `verify_password` tries,
/// so the password verifies against it. Which hash comes out is not stated:
/// it depends on the salt. Hashing fails, and the call panics, for a
/// password of more than `u32::MAX` bytes (at most four bytes a character),
/// or when the system's random source fails, which no argument rules out.
#[verifier::external_body]
fn generate_hash(password: &str) -> (r: String)
    requires
        password@.len() < 0x4000_0000,
    ensures
        password_verifies(password@, r@),
{
    password_auth::generate_hash(password)
}

/// Whether the administrator account must be rewritten in the database,
/// hashing the current and the last written passwords afresh. An empty
/// users table or a changed name always needs it; otherwise the freshly
/// salted hashes decide. Each hash gets its own random salt, so two hashes
/// of even the same password almost never agree: with an unchanged name and
/// a non-empty table the account is, in practice, rewritten on every call.
/// That outcome rests on the salts and is not stated in the contract.
pub fn admin_needs_sync(admin: &AdminCredentials, last: &AdminCredentials, users_is_empty: bool) -> (r:
    bool)
    requires
        admin@.password.len() < 0x4000_0000,
        last@.password.len() < 0x4000_0000,
    ensures
        users_is_empty ==> r,
        admin@.username != last@.username ==> r,
{
    let hash = generate_hash(admin.password.as_str());
    let last_hash = generate_hash(last.password.as_str());
    admin_sync_needed(
        admin.username.as_str(),
        hash.as_str(),
        last.username.as_str(),
        last_hash.as_str(),
        users_is_empty,
    )
}

/// Where the watcher of the configuration file stands: whether the next
/// round writes the settings to the file, and whether the last change of
/// the settings came from the file.
#[derive(Clone, Copy, PartialEq, Eq, Structural, Debug)]
pub struct WatchFlags {
    pub update_file: bool,
    pub file_is_update_origin: bool,
}

/// What a round of the watcher does with the file.
#[derive(Clone, Copy, PartialEq, Eq, Structural, Debug)]
pub enum WatchAction {
    /// Writes the current settings to the file.
    WriteFile,
    /// Reads the file and takes over its settings.
    ReadFile,
}

/// What ends the watcher's wait.
#[derive(Clone, Copy, PartialEq, Eq, Structural, Debug)]
pub enum WatchEvent {
    /// A setting changed in the server.
    SettingsChanged,
    /// The file changed on disk.
    FileModified,
    /// The server shuts down.
    Shutdown,
}

/// The watcher starts by reading the file.
pub fn watch_start() -> (r: WatchFlags)
    ensures
        r == (WatchFlags { update_file: false, file_is_update_origin: false }),
{
    WatchFlags { update_file: false, file_is_update_origin: false }
}

/// The action of a round: a change that came from the file is not written
/// back; otherwise the file is written when the settings changed, and
/// read when it changed.
pub fn watch_round(flags: WatchFlags) -> (r: (WatchFlags, WatchAction))
    ensures
        flags.file_is_update_origin ==> r == (
            WatchFlags { update_file: false, file_is_update_origin: false },
            WatchAction::ReadFile,
        ),
        !flags.file_is_update_origin && flags.update_file ==> r == (flags, WatchAction::WriteFile),
        !flags.file_is_update_origin && !flags.update_file ==> r == (flags, WatchAction::ReadFile),
{
    let mut f = flags;
    if f.file_is_update_origin {
        f.file_is_update_origin = false;
        f.update_file = false;
    }
    if f.update_file {
        (f, WatchAction::WriteFile)
    } else {
        (f, WatchAction::ReadFile)
    }
}

/// After the file was read and its settings taken over, the change counts
/// as coming from the file.
pub fn watch_file_read(flags: WatchFlags) -> (r: WatchFlags)
    ensures
        r == (WatchFlags { update_file: flags.update_file, file_is_update_origin: true }),
{
    WatchFlags { update_file: flags.update_file, file_is_update_origin: true }
}

/// The flags after the wait: a change in the server makes the next round
/// write the file; a change of the file makes it read the file; a shutdown
/// ends the watcher.
pub fn watch_event(flags: WatchFlags, event: WatchEvent) -> (r: Option<WatchFlags>)
    ensures
        event == WatchEvent::Shutdown ==> r is None,
        event == WatchEvent::SettingsChanged ==> r == Some(
            WatchFlags { update_file: true, file_is_update_origin: false },
        ),
        event == WatchEvent::FileModified ==> r == Some(
            WatchFlags { update_file: false, file_is_update_origin: flags.file_is_update_origin },
        ),
{
    match event {
        WatchEvent::Shutdown => None,
        WatchEvent::SettingsChanged => Some(WatchFlags { update_file: true, file_is_update_origin: false }),
        WatchEvent::FileModified => Some(
            WatchFlags { update_file: false, file_is_update_origin: flags.file_is_update_origin },
        ),
    }
}

/// What reading the configuration file gave.
pub enum ConfigFileRead {
    /// The file could not be read.
    Missing,
    /// The file was read but does not hold valid settings.
    Unparsable,
    /// The settings the file holds.
    Parsed(ServerSettings),
}

/// The settings of a missing or broken configuration file.
pub open spec fn default_settings() -> SettingsView {
    SettingsView { port: DEFAULT_PORT, admin: AdminView { username: "admin"@, password: "admin"@ } }
}

/// The settings the server starts with, and whether it writes them to a
/// new configuration file.
pub struct StartupSettings {
    pub settings: ServerSettings,
    pub write_file: bool,
}

/// The server starts with the file's settings; with the defaults when the
/// file does not parse; and with the defaults, written to a new file, when
/// there is no file to read.
pub fn startup_settings(read: ConfigFileRead) -> (r: StartupSettings)
    ensures
        match read {
            ConfigFileRead::Parsed(s) => r.settings@ == s@ && !r.write_file,
            ConfigFileRead::Unparsable => r.settings@ == default_settings() && !r.write_file,
            ConfigFileRead::Missing => r.settings@ == default_settings() && r.write_file,
        },
{
    match read {
        ConfigFileRead::Parsed(s) => StartupSettings { settings: s, write_file: false },
        ConfigFileRead::Unparsable => StartupSettings { settings: ServerSettings::defaults(), write_file: false },
        ConfigFileRead::Missing => StartupSettings { settings: ServerSettings::defaults(), write_file: true },
    }
}

/// What the watcher does with the file it read: it takes over the file's
/// settings, or the defaults when the file does not parse; when the file
/// cannot be read it writes its own settings to it instead (`None`).
pub fn watched_file_settings(read: ConfigFileRead) -> (r: Option<ServerSettings>)
    ensures
        match read {
            ConfigFileRead::Parsed(s) => r matches Some(t) && t@ == s@,
            ConfigFileRead::Unparsable => r matches Some(t) && t@ == default_settings(),
            ConfigFileRead::Missing => r is None,
        },
{
    match read {
        ConfigFileRead::Parsed(s) => Some(s),
        ConfigFileRead::Unparsable => Some(ServerSettings::defaults()),
        ConfigFileRead::Missing => None,
    }
}

} // verus!
