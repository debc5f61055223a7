//! The settings of the application, their defaults, and the command-line
//! arguments that override them.

use crate::settings::settings_resolver::{ClapArgsType, SettingsType};
use vstd::prelude::*;
use vstd::string::*;

verus! {

/// What is needed at once, before anything else can be set up.
#[derive(Debug, Clone)]
pub struct Startup {
    pub config_file: String,
    pub tokens_file: String,
    pub log_dir: String,
    pub storage_dir: String,
    pub export_dir: String,
    pub unexport_dir: String,
    pub cache_dir: String,
    pub listen_addr: String,
}

/// A host whose paths are backed up, and how they are fetched.
#[derive(Debug, Clone)]
pub struct Source {
    pub hostname: String,
    pub paths: Vec<String>,
    pub paths_exclude: Vec<String>,
    pub method: SyncMethod,
}

/// How the files of a source are fetched.
#[derive(Debug, Clone)]
pub enum SyncMethod {
    Rsyncd(RsyncdSetup),
    RsyncSsh(RsyncSshSetup),
    RsyncLocal,
}

/// The credentials of an rsync daemon.
#[derive(Debug, Clone)]
pub struct RsyncdSetup {
    pub username: String,
    pub password: String,
}

/// How rsync reaches a source over ssh.
#[derive(Debug, Clone)]
pub struct RsyncSshSetup {
    pub creds: SshCreds,
    pub port: u16,
    pub remote_path_to_rsync_binary: Option<String>,
}

/// The credentials of an ssh login.
#[derive(Debug, Clone)]
pub enum SshCreds {
    Password(SshCredsPassword),
    Key(SshCredsKey),
}

/// An ssh login by password.
#[derive(Debug, Clone)]
pub struct SshCredsPassword {
    pub username: String,
    pub password: String,
}

/// An ssh login by key file.
#[derive(Debug, Clone)]
pub struct SshCredsKey {
    pub username: String,
    pub keyfile_path: String,
}

/// The credentials for dumping the MySQL databases of this host.
#[derive(Debug, Clone)]
pub struct Mysql {
    pub mysqldump_username: String,
    pub mysqldump_password: String,
}

/// The Dropbox account that takes the exports.
#[derive(Debug, Clone)]
pub struct Dropbox {
    pub dest_path: String,
    pub app_key: String,
    pub oauth_token: String,
}

/// The Google Drive account that takes the exports.
#[derive(Debug, Clone)]
pub struct GDrive {
    pub dest_path: String,
    pub client_id: String,
    pub client_secret: String,
}

/// What to do in one run.
#[derive(Debug, Clone)]
pub struct Action {
    pub sync: bool,
    pub export: bool,
    pub upload_dropbox: bool,
    pub auth_dropbox: bool,
    pub upload_gdrive: bool,
    pub mysql_dump: bool,
    pub source: String,
    pub unexport: bool,
}

/// All the configuration. The sources stand under their names, each name
/// once: see `names_distinct`.
#[derive(Debug, Clone)]
pub struct Settings {
    pub startup: Startup,
    pub sources: Vec<(String, Source)>,
    pub mysql: Mysql,
    pub action: Action,
    pub dropbox: Dropbox,
    pub gdrive: GDrive,
}

/// What the command line, or the environment, says. A text that is absent and
/// a flag that is not set leave the setting as it is.
#[derive(Debug, Clone)]
pub struct ClapArgs {
    /// The configuration file, which is created if it does not exist.
    pub startup_config_file: Option<String>,
    /// The tokens file, which is created if it does not exist.
    pub startup_tokens_file: Option<String>,
    /// The log directory, which is created if it does not exist.
    pub startup_log_dir: Option<String>,
    /// The local directory that holds all the backed up data.
    pub startup_storage_dir: Option<String>,
    /// The local directory that holds the compressed exports, ready for upload.
    pub startup_export_dir: Option<String>,
    /// The local directory for files extracted from exports.
    pub startup_unexport_dir: Option<String>,
    /// The local directory for cached data, such as access tokens.
    pub startup_cache_dir: Option<String>,
    /// The address and port on which the web interface listens.
    pub startup_listen_addr: Option<String>,
    /// The user name for mysqldump on this host.
    pub mysql_mysqldump_username: Option<String>,
    /// The password for mysqldump on this host.
    pub mysql_mysqldump_password: Option<String>,
    /// The app key of the Dropbox API.
    pub dropbox_app_key: Option<String>,
    /// The token that Dropbox handed out during interactive authorization.
    pub dropbox_oauth_token: Option<String>,
    /// The directory of the Dropbox account that takes the exports.
    pub dropbox_dest_path: Option<String>,
    /// The directory of the Google Drive account that takes the exports.
    pub gdrive_dest_path: Option<String>,
    /// The client id of the Google Drive API.
    pub gdrive_client_id: Option<String>,
    /// The client secret of the Google Drive API.
    pub gdrive_client_secret: Option<String>,
    /// Sync files from the sources to the storage directory.
    pub action_sync: bool,
    /// Export the storage directory to the export directory.
    pub action_export: bool,
    /// Extract the original files from an export.
    pub action_unexport: bool,
    /// Upload the exports to Dropbox.
    pub action_upload_dropbox: bool,
    /// Authorize interactively to Dropbox.
    pub action_auth_dropbox: bool,
    /// Upload the exports to Google Drive.
    pub action_upload_gdrive: bool,
    /// Dump the MySQL databases of this host into the storage directory.
    pub action_mysql_dump: bool,
    /// Act on the named source only; on all where it is empty.
    pub action_source: Option<String>,
}

/// The text `r` is the one given, or else the one that stood there.
pub open spec fn chosen(given: Option<String>, base: String, r: String) -> bool {
    r@ == match given {
        Some(text) => text@,
        None => base@,
    }
}

/// The settings `r` are `base` with each argument that is given put over it:
/// a text that is present replaces the setting, a flag that is set switches
/// the action on. The sources are not touched.
pub open spec fn overrides(args: ClapArgs, base: Settings, r: Settings) -> bool {
    &&& chosen(args.startup_config_file, base.startup.config_file, r.startup.config_file)
    &&& chosen(args.startup_tokens_file, base.startup.tokens_file, r.startup.tokens_file)
    &&& chosen(args.startup_log_dir, base.startup.log_dir, r.startup.log_dir)
    &&& chosen(args.startup_storage_dir, base.startup.storage_dir, r.startup.storage_dir)
    &&& chosen(args.startup_export_dir, base.startup.export_dir, r.startup.export_dir)
    &&& chosen(args.startup_unexport_dir, base.startup.unexport_dir, r.startup.unexport_dir)
    &&& chosen(args.startup_cache_dir, base.startup.cache_dir, r.startup.cache_dir)
    &&& chosen(args.startup_listen_addr, base.startup.listen_addr, r.startup.listen_addr)
    &&& chosen(args.mysql_mysqldump_username, base.mysql.mysqldump_username, r.mysql.mysqldump_username)
    &&& chosen(args.mysql_mysqldump_password, base.mysql.mysqldump_password, r.mysql.mysqldump_password)
    &&& chosen(args.dropbox_app_key, base.dropbox.app_key, r.dropbox.app_key)
    &&& chosen(args.dropbox_oauth_token, base.dropbox.oauth_token, r.dropbox.oauth_token)
    &&& chosen(args.dropbox_dest_path, base.dropbox.dest_path, r.dropbox.dest_path)
    &&& chosen(args.gdrive_dest_path, base.gdrive.dest_path, r.gdrive.dest_path)
    &&& chosen(args.gdrive_client_id, base.gdrive.client_id, r.gdrive.client_id)
    &&& chosen(args.gdrive_client_secret, base.gdrive.client_secret, r.gdrive.client_secret)
    &&& chosen(args.action_source, base.action.source, r.action.source)
    &&& r.action.sync == (args.action_sync || base.action.sync)
    &&& r.action.export == (args.action_export || base.action.export)
    &&& r.action.unexport == (args.action_unexport || base.action.unexport)
    &&& r.action.upload_dropbox == (args.action_upload_dropbox || base.action.upload_dropbox)
    &&& r.action.auth_dropbox == (args.action_auth_dropbox || base.action.auth_dropbox)
    &&& r.action.upload_gdrive == (args.action_upload_gdrive || base.action.upload_gdrive)
    &&& r.action.mysql_dump == (args.action_mysql_dump || base.action.mysql_dump)
    &&& r.sources == base.sources
}

/// The source named `name` is the host `hostname`, of which `path` is backed
/// up, with nothing left out.
pub open spec fn is_source(named: (String, Source), name: &str, hostname: &str, path: &str) -> bool {
    &&& named.0@ == name@
    &&& named.1.hostname@ == hostname@
    &&& named.1.paths@.len() == 1
    &&& named.1.paths@[0]@ == path@
    &&& named.1.paths_exclude@.len() == 0
}

/// The source is fetched over ssh, on port 22, with the login `user` and the password `pass`.
pub open spec fn by_ssh_password(source: Source) -> bool {
    source.method matches SyncMethod::RsyncSsh(setup) && setup.port == 22
        && setup.remote_path_to_rsync_binary is None && (setup.creds matches SshCreds::Password(
        creds,
    ) && creds.username@ == "user"@ && creds.password@ == "pass"@)
}

/// No two of the sources have the same name.
pub open spec fn names_distinct(sources: Seq<(String, Source)>) -> bool {
    forall|i: int, j: int|
        0 <= i < j < sources.len() ==> (#[trigger] sources[i]).0@ != (#[trigger] sources[j]).0@
}

/// The sources that the defaults name as examples.
pub open spec fn is_default_sources(sources: Seq<(String, Source)>) -> bool {
    &&& sources.len() == 5
    &&& is_source(sources[0], "localhost", "localhost", "/home/")
    &&& sources[0].1.method is RsyncLocal
    &&& is_source(sources[1], "client1", "client1", "/home/")
    &&& (sources[1].1.method matches SyncMethod::Rsyncd(setup) && setup.username@ == "user"@
        && setup.password@ == "pass"@)
    &&& is_source(sources[2], "client2", "client2", "/home/")
    &&& (sources[2].1.method matches SyncMethod::RsyncSsh(setup) && setup.port == 22 && (
    setup.remote_path_to_rsync_binary matches Some(binary) && binary@ == "/bin/rsync"@) && (
    setup.creds matches SshCreds::Key(creds) && creds.username@ == "user"@ && creds.keyfile_path@
        == "/home/user/client2.key"@))
    &&& is_source(sources[3], "client3_main", "client3", "/home/")
    &&& by_ssh_password(sources[3].1)
    &&& is_source(sources[4], "client3_hugefiles", "client3", "/mnt/archive/")
    &&& by_ssh_password(sources[4].1)
}

/// The example sources of the defaults have each a name of its own.
pub proof fn lemma_default_names_distinct(sources: Seq<(String, Source)>)
    requires
        is_default_sources(sources),
    ensures
        names_distinct(sources),
{
    reveal_strlit("localhost");
    reveal_strlit("client1");
    reveal_strlit("client2");
    reveal_strlit("client3_main");
    reveal_strlit("client3_hugefiles");
    assert(sources[0].0@.len() == 9);
    assert(sources[1].0@.len() == 7);
    assert(sources[2].0@.len() == 7);
    assert(sources[3].0@.len() == 12);
    assert(sources[4].0@.len() == 17);
    assert(sources[1].0@[6] == '1');
    assert(sources[2].0@[6] == '2');
}

/// The settings are the defaults, but for the sources.
pub open spec fn is_default_base(s: Settings) -> bool {
    &&& s.startup.config_file@ == "/etc/redundinator/config.json"@
    &&& s.startup.tokens_file@ == "/etc/redundinator/tokens.db"@
    &&& s.startup.log_dir@ == "/var/log/redundinator/"@
    &&& s.startup.storage_dir@ == "/var/redundinator/backups/"@
    &&& s.startup.export_dir@ == "/tmp/redundinator/exports/"@
    &&& s.startup.unexport_dir@ == "/tmp/redundinator/unexports/"@
    &&& s.startup.cache_dir@ == "/var/redundinator/cache/"@
    &&& s.startup.listen_addr@ == "0.0.0.0:80"@
    &&& s.mysql.mysqldump_username@ == ""@
    &&& s.mysql.mysqldump_password@ == ""@
    &&& s.dropbox.dest_path@ == "/Backup/redundinator"@
    &&& s.dropbox.app_key@ == ""@
    &&& s.dropbox.oauth_token@ == ""@
    &&& s.gdrive.dest_path@ == "Backup/redundinator"@
    &&& s.gdrive.client_id@ == ""@
    &&& s.gdrive.client_secret@ == ""@
    &&& !s.action.sync
    &&& !s.action.export
    &&& !s.action.unexport
    &&& !s.action.upload_dropbox
    &&& !s.action.auth_dropbox
    &&& !s.action.upload_gdrive
    &&& !s.action.mysql_dump
    &&& s.action.source@ == ""@
}

/// The settings are the defaults.
pub open spec fn is_default(s: Settings) -> bool {
    is_default_base(s) && is_default_sources(s.sources@)
}

/// The text given, or else the one that stood there.
fn pick(given: &Option<String>, base: String) -> (r: String)
    ensures
        chosen(*given, base, r),
{
    match given {
        Some(text) => text.clone(),
        None => base,
    }
}

/// A source with one path and nothing left out.
fn example_source(hostname: &str, path: &str, method: SyncMethod) -> (r: Source)
    ensures
        r.hostname@ == hostname@,
        r.paths@.len() == 1,
        r.paths@[0]@ == path@,
        r.paths_exclude@.len() == 0,
        r.method == method,
{
    let mut paths: Vec<String> = Vec::new();
    paths.push(String::from_str(path));
    Source { hostname: String::from_str(hostname), paths, paths_exclude: Vec::new(), method }
}

/// The ssh setup of the example sources that log in by password.
fn example_ssh_password() -> (r: SyncMethod)
    ensures
        r matches SyncMethod::RsyncSsh(setup) && setup.port == 22
            && setup.remote_path_to_rsync_binary is None && (setup.creds matches SshCreds::Password(
            creds,
        ) && creds.username@ == "user"@ && creds.password@ == "pass"@),
{
    SyncMethod::RsyncSsh(
        RsyncSshSetup {
            port: 22,
            remote_path_to_rsync_binary: None,
            creds: SshCreds::Password(
                SshCredsPassword {
                    username: String::from_str("user"),
                    password: String::from_str("pass"),
                },
            ),
        },
    )
}

impl Settings {
    /// The default settings, but for the sources, of which there are none.
    pub fn defaults_without_sources() -> (r: Settings)
        ensures
            is_default_base(r),
            r.sources@.len() == 0,
    {
        Settings {
            startup: Startup {
                config_file: String::from_str("/etc/redundinator/config.json"),
                tokens_file: String::from_str("/etc/redundinator/tokens.db"),
                log_dir: String::from_str("/var/log/redundinator/"),
                storage_dir: String::from_str("/var/redundinator/backups/"),
                export_dir: String::from_str("/tmp/redundinator/exports/"),
                unexport_dir: String::from_str("/tmp/redundinator/unexports/"),
                cache_dir: String::from_str("/var/redundinator/cache/"),
                listen_addr: String::from_str("0.0.0.0:80"),
            },
            sources: Vec::new(),
            mysql: Mysql {
                mysqldump_username: String::from_str(""),
                mysqldump_password: String::from_str(""),
            },
            action: Action {
                sync: false,
                export: false,
                upload_dropbox: false,
                auth_dropbox: false,
                upload_gdrive: false,
                mysql_dump: false,
                source: String::from_str(""),
                unexport: false,
            },
            dropbox: Dropbox {
                dest_path: String::from_str("/Backup/redundinator"),
                app_key: String::from_str(""),
                oauth_token: String::from_str(""),
            },
            gdrive: GDrive {
                dest_path: String::from_str("Backup/redundinator"),
                client_id: String::from_str(""),
                client_secret: String::from_str(""),
            },
        }
    }

    /// The default settings, as a new configuration file shows them.
    pub fn defaults() -> (r: Settings)
        ensures
            is_default(r),
            names_distinct(r.sources@),
    {
        let mut settings = Settings::defaults_without_sources();
        let mut sources: Vec<(String, Source)> = Vec::new();
        sources.push(
            (
                String::from_str("localhost"),
                example_source("localhost", "/home/", SyncMethod::RsyncLocal),
            ),
        );
        sources.push(
            (
                String::from_str("client1"),
                example_source(
                    "client1",
                    "/home/",
                    SyncMethod::Rsyncd(
                        RsyncdSetup {
                            username: String::from_str("user"),
                            password: String::from_str("pass"),
                        },
                    ),
                ),
            ),
        );
        sources.push(
            (
                String::from_str("client2"),
                example_source(
                    "client2",
                    "/home/",
                    SyncMethod::RsyncSsh(
                        RsyncSshSetup {
                            port: 22,
                            remote_path_to_rsync_binary: Some(String::from_str("/bin/rsync")),
                            creds: SshCreds::Key(
                                SshCredsKey {
                                    username: String::from_str("user"),
                                    keyfile_path: String::from_str("/home/user/client2.key"),
                                },
                            ),
                        },
                    ),
                ),
            ),
        );
        sources.push(
            (
                String::from_str("client3_main"),
                example_source("client3", "/home/", example_ssh_password()),
            ),
        );
        sources.push(
            (
                String::from_str("client3_hugefiles"),
                example_source("client3", "/mnt/archive/", example_ssh_password()),
            ),
        );
        settings.sources = sources;
        proof {
            lemma_default_names_distinct(settings.sources@);
        }
        settings
    }

    /// These settings with the given arguments put over them.
    pub fn apply(self, args: &ClapArgs) -> (r: Settings)
        ensures
            overrides(*args, self, r),
    {
        Settings {
            startup: Startup {
                config_file: pick(&args.startup_config_file, self.startup.config_file),
                tokens_file: pick(&args.startup_tokens_file, self.startup.tokens_file),
                log_dir: pick(&args.startup_log_dir, self.startup.log_dir),
                storage_dir: pick(&args.startup_storage_dir, self.startup.storage_dir),
                export_dir: pick(&args.startup_export_dir, self.startup.export_dir),
                unexport_dir: pick(&args.startup_unexport_dir, self.startup.unexport_dir),
                cache_dir: pick(&args.startup_cache_dir, self.startup.cache_dir),
                listen_addr: pick(&args.startup_listen_addr, self.startup.listen_addr),
            },
            sources: self.sources,
            mysql: Mysql {
                mysqldump_username: pick(
                    &args.mysql_mysqldump_username,
                    self.mysql.mysqldump_username,
                ),
                mysqldump_password: pick(
                    &args.mysql_mysqldump_password,
                    self.mysql.mysqldump_password,
                ),
            },
            action: Action {
                sync: args.action_sync || self.action.sync,
                export: args.action_export || self.action.export,
                upload_dropbox: args.action_upload_dropbox || self.action.upload_dropbox,
                auth_dropbox: args.action_auth_dropbox || self.action.auth_dropbox,
                upload_gdrive: args.action_upload_gdrive || self.action.upload_gdrive,
                mysql_dump: args.action_mysql_dump || self.action.mysql_dump,
                source: pick(&args.action_source, self.action.source),
                unexport: args.action_unexport || self.action.unexport,
            },
            dropbox: Dropbox {
                dest_path: pick(&args.dropbox_dest_path, self.dropbox.dest_path),
                app_key: pick(&args.dropbox_app_key, self.dropbox.app_key),
                oauth_token: pick(&args.dropbox_oauth_token, self.dropbox.oauth_token),
            },
            gdrive: GDrive {
                dest_path: pick(&args.gdrive_dest_path, self.gdrive.dest_path),
                client_id: pick(&args.gdrive_client_id, self.gdrive.client_id),
                client_secret: pick(&args.gdrive_client_secret, self.gdrive.client_secret),
            },
        }
    }

    /// The settings of a run: what the configuration file holds, or the
    /// defaults where there is none, with the command-line arguments put over it.
    pub fn load(args: &ClapArgs, stored: Option<Settings>) -> (r: Settings)
        ensures
            match stored {
                Some(base) => overrides(*args, base, r) && (names_distinct(base.sources@)
                    ==> names_distinct(r.sources@)),
                None => names_distinct(r.sources@) && exists|base: Settings|
                    is_default(base) && #[trigger] overrides(*args, base, r),
            },
    {
        match stored {
            Some(base) => base.apply(args),
            None => {
                let base = Settings::defaults();
                let ghost witness = base;
                let r = base.apply(args);
                assert(is_default(witness) && overrides(*args, witness, r));
                r
            },
        }
    }
}

impl ClapArgs {
    /// The arguments of a command line that says nothing.
    pub fn none() -> (r: ClapArgs)
        ensures
            r.startup_config_file is None,
            r.startup_tokens_file is None,
            r.startup_log_dir is None,
            r.startup_storage_dir is None,
            r.startup_export_dir is None,
            r.startup_unexport_dir is None,
            r.startup_cache_dir is None,
            r.startup_listen_addr is None,
            r.mysql_mysqldump_username is None,
            r.mysql_mysqldump_password is None,
            r.dropbox_app_key is None,
            r.dropbox_oauth_token is None,
            r.dropbox_dest_path is None,
            r.gdrive_dest_path is None,
            r.gdrive_client_id is None,
            r.gdrive_client_secret is None,
            r.action_source is None,
            !r.action_sync,
            !r.action_export,
            !r.action_unexport,
            !r.action_upload_dropbox,
            !r.action_auth_dropbox,
            !r.action_upload_gdrive,
            !r.action_mysql_dump,
    {
        ClapArgs {
            startup_config_file: None,
            startup_tokens_file: None,
            startup_log_dir: None,
            startup_storage_dir: None,
            startup_export_dir: None,
            startup_unexport_dir: None,
            startup_cache_dir: None,
            startup_listen_addr: None,
            mysql_mysqldump_username: None,
            mysql_mysqldump_password: None,
            dropbox_app_key: None,
            dropbox_oauth_token: None,
            dropbox_dest_path: None,
            gdrive_dest_path: None,
            gdrive_client_id: None,
            gdrive_client_secret: None,
            action_sync: false,
            action_export: false,
            action_unexport: false,
            action_upload_dropbox: false,
            action_auth_dropbox: false,
            action_upload_gdrive: false,
            action_mysql_dump: false,
            action_source: None,
        }
    }
}

impl SettingsType for Settings {
    fn get_log_dir_path(&self) -> (r: String)
        ensures
            r@ == self.startup.log_dir@,
    {
        self.startup.log_dir.clone()
    }

    fn get_config_file_path(&self) -> (r: String)
        ensures
            r@ == self.startup.config_file@,
    {
        self.startup.config_file.clone()
    }
}

impl ClapArgsType for ClapArgs {
    fn get_config_file_path(&self) -> (r: Option<String>)
        ensures
            match r {
                Some(path) => self.startup_config_file matches Some(given) && path@ == given@,
                None => self.startup_config_file is None,
            },
    {
        match &self.startup_config_file {
            Some(path) => Some(path.clone()),
            None => None,
        }
    }
}

} // verus!
