//! The daemon's settings and configuration, with their defaults, and how
//! the aria2 child process is configured and reached.
use vstd::prelude::*;
use crate::enums::FileCategory;
use crate::category::{CategoryExtensions, table_view, default_table};
use crate::aria2::joined_path;
use crate::text::{decimal, decimal_string, push_str, push_char};

verus! {

#[derive(Clone, Debug)]
pub struct ProxySettings {
    pub enabled: bool,
    pub host: Option<String>,
    pub port: Option<u16>,
    pub username: Option<String>,
    pub password: Option<String>,
}

impl Default for ProxySettings {
    fn default() -> (r: Self)
        ensures
            !r.enabled,
            r.host is None,
            r.port is None,
            r.username is None,
            r.password is None,
    {
        ProxySettings { enabled: false, host: None, port: None, username: None, password: None }
    }
}

/// Where downloads go, by category, and how categories are recognised.
#[derive(Clone, Debug)]
pub struct Settings {
    pub default_download_location: String,
    /// Download directory per category; a category without one uses
    /// `default_download_location`.
    pub category_locations: Vec<(FileCategory, String)>,
    pub category_extensions: CategoryExtensions,
    pub proxy: ProxySettings,
    pub start_daemon_on_login: bool,
    pub stop_daemon_on_close: bool,
}

pub open spec fn locations_view(v: Seq<(FileCategory, String)>) -> Seq<(FileCategory, Seq<char>)> {
    v.map_values(|e: (FileCategory, String)| (e.0, e.1@))
}

pub open spec fn default_locations() -> Seq<(FileCategory, Seq<char>)> {
    seq![
        (FileCategory::Music, "~/Downloads"@ + "/Musics"@),
        (FileCategory::Document, "~/Downloads"@ + "/Documents"@),
        (FileCategory::Archive, "~/Downloads"@ + "/Compressed"@),
        (FileCategory::Video, "~/Downloads"@ + "/Videos"@),
        (FileCategory::Program, "~/Downloads"@ + "/Programs"@),
    ]
}

fn under(base: &String, rest: &str) -> (r: String)
    ensures
        r@ == base@ + rest@,
{
    let mut r = base.clone();
    push_str(&mut r, rest);
    r
}

impl Default for Settings {
    fn default() -> (r: Self)
        ensures
            r.default_download_location@ == "~/Downloads"@,
            locations_view(r.category_locations@) == default_locations(),
            table_view(r.category_extensions@) == default_table(),
            !r.proxy.enabled && r.proxy.host is None && r.proxy.port is None,
            r.proxy.username is None && r.proxy.password is None,
            !r.start_daemon_on_login,
            !r.stop_daemon_on_close,
    {
        let base = "~/Downloads".to_owned();
        let mut locations: Vec<(FileCategory, String)> = Vec::new();
        locations.push((FileCategory::Music, under(&base, "/Musics")));
        locations.push((FileCategory::Document, under(&base, "/Documents")));
        locations.push((FileCategory::Archive, under(&base, "/Compressed")));
        locations.push((FileCategory::Video, under(&base, "/Videos")));
        locations.push((FileCategory::Program, under(&base, "/Programs")));
        proof {
            assert(locations_view(locations@) =~= default_locations());
        }
        Settings {
            default_download_location: base,
            category_locations: locations,
            category_extensions: FileCategory::default_extensions(),
            proxy: ProxySettings::default(),
            start_daemon_on_login: false,
            stop_daemon_on_close: false,
        }
    }
}

/// The directory configured for a category: its own entry (the first, if
/// listed twice), or the default location.
pub open spec fn location_for(locations: Seq<(FileCategory, Seq<char>)>, category: FileCategory, fallback: Seq<char>) -> Seq<char>
    decreases locations.len(),
{
    if locations.len() == 0 {
        fallback
    } else if locations[0].0 == category {
        locations[0].1
    } else {
        location_for(locations.drop_first(), category, fallback)
    }
}

impl Settings {
    /// The configured directory for downloads of `category`.
    pub fn location_of(&self, category: FileCategory) -> (r: String)
        ensures
            r@ == location_for(
                locations_view(self.category_locations@),
                category,
                self.default_download_location@,
            ),
    {
        let mut i: usize = 0;
        assert(locations_view(self.category_locations@).skip(0) =~= locations_view(
            self.category_locations@,
        ));
        while i < self.category_locations.len()
            invariant
                i <= self.category_locations@.len(),
                location_for(
                    locations_view(self.category_locations@),
                    category,
                    self.default_download_location@,
                ) == location_for(
                    locations_view(self.category_locations@).skip(i as int),
                    category,
                    self.default_download_location@,
                ),
            decreases self.category_locations@.len() - i,
        {
            proof {
                assert(locations_view(self.category_locations@).skip(i as int).drop_first()
                    =~= locations_view(self.category_locations@).skip(i + 1));
            }
            if self.category_locations[i].0 == category {
                return self.category_locations[i].1.clone();
            }
            i = i + 1;
        }
        self.default_download_location.clone()
    }
}

/// The `[aria2]` table of `server.toml`.
#[derive(Clone, Debug)]
pub struct Aria2Config {
    pub binary_path: String,
    pub rpc_port: u16,
    pub download_dir: String,
}

impl Default for Aria2Config {
    fn default() -> (r: Self)
        ensures
            r.binary_path@ == "aria2c"@,
            r.rpc_port == 6800,
            r.download_dir@ == "~/Downloads"@,
    {
        Aria2Config {
            binary_path: "aria2c".to_owned(),
            rpc_port: 6800,
            download_dir: "~/Downloads".to_owned(),
        }
    }
}

/// The whole of `server.toml`.
#[derive(Clone, Debug)]
pub struct ServerConfig {
    pub settings: Settings,
    pub aria2: Aria2Config,
}

impl Default for ServerConfig {
    fn default() -> (r: Self)
        ensures
            r.settings.default_download_location@ == "~/Downloads"@,
            locations_view(r.settings.category_locations@) == default_locations(),
            table_view(r.settings.category_extensions@) == default_table(),
            r.aria2.binary_path@ == "aria2c"@,
            r.aria2.rpc_port == 6800,
            r.aria2.download_dir@ == "~/Downloads"@,
    {
        ServerConfig { settings: Settings::default(), aria2: Aria2Config::default() }
    }
}

/// The home directory (`directories::BaseDirs::new()` and `home_dir`). What
/// it returns depends on the machine and the environment; nothing is stated.
#[verifier::external_body]
pub(crate) fn home_dir() -> (r: Option<String>) {
    match directories::BaseDirs::new() {
        Some(dirs) => Some(dirs.home_dir().to_string_lossy().into_owned()),
        None => None,
    }
}

/// The home directory could not be determined.
#[derive(Clone, Copy, Debug, PartialEq, Eq, Structural)]
pub enum HomeDirError {
    Unknown,
}

/// `~/rest` under `home`; any other path unchanged.
pub open spec fn tilde_expanded(path: Seq<char>, home: Option<Seq<char>>) -> Result<Seq<char>, HomeDirError> {
    if path.len() >= 2 && path[0] == '~' && path[1] == '/' {
        match home {
            Some(h) => Ok(joined_path(h, path.skip(2))),
            None => Err(HomeDirError::Unknown),
        }
    } else {
        Ok(path)
    }
}

pub open spec fn opt_string_view(s: Option<String>) -> Option<Seq<char>> {
    match s {
        Some(t) => Some(t@),
        None => None,
    }
}

/// Expands a leading `~/` against a given home directory.
pub fn expand_tilde_in(path: &str, home: Option<String>) -> (r: Result<String, HomeDirError>)
    ensures
        (match r {
            Ok(s) => Ok(s@),
            Err(e) => Err(e),
        }) == tilde_expanded(path@, opt_string_view(home)),
{
    let chars = crate::text::chars_of(path);
    if chars.len() >= 2 && chars[0] == '~' && chars[1] == '/' {
        match home {
            Some(h) => {
                let mut rest: Vec<char> = Vec::new();
                let mut i: usize = 2;
                while i < chars.len()
                    invariant
                        2 <= i <= chars@.len(),
                        rest@ == chars@.subrange(2, i as int),
                    decreases chars@.len() - i,
                {
                    rest.push(chars[i]);
                    i = i + 1;
                }
                let rest_s = crate::text::string_of(&rest);
                assert(rest_s@ =~= path@.skip(2));
                Ok(crate::aria2::join_path(h.as_str(), rest_s.as_str()))
            },
            None => Err(HomeDirError::Unknown),
        }
    } else {
        Ok(path.to_owned())
    }
}

/// Expands a leading `~/` against the user's home directory: whatever the
/// machine reports as home (or none), the answer is the path expanded
/// against it.
pub fn expand_tilde(path: &str) -> (r: Result<String, HomeDirError>)
    ensures
        !(path@.len() >= 2 && path@[0] == '~' && path@[1] == '/') ==> (r matches Ok(s) && s@
            == path@),
        exists|home: Option<Seq<char>>|
            (match r {
                Ok(s) => Ok(s@),
                Err(e) => Err(e),
            }) == #[trigger] tilde_expanded(path@, home),
{
    let home = home_dir();
    let ghost hv = opt_string_view(home);
    let r = expand_tilde_in(path, home);
    assert((match r {
        Ok(s) => Ok(s@),
        Err(e) => Err(e),
    }) == tilde_expanded(path@, hv));
    r
}

/// How the daemon runs its own aria2c.
#[derive(Clone, Debug)]
pub struct Aria2ProcessConfig {
    pub binary_path: String,
    pub rpc_port: u16,
    pub rpc_secret: String,
    pub session_path: String,
    pub log_path: String,
    pub download_dir: String,
}

/// One number drawn uniformly from `0..16` (`rand::random_range`, on the
/// thread-local generator). It lies in the range; which value comes is
/// chance.
#[verifier::external_body]
fn random_nibble() -> (r: u8)
    ensures
        r < 16,
{
    rand::random_range(0..16u8)
}

pub open spec fn is_hex_digit(c: char) -> bool {
    ('0' <= c && c <= '9') || ('a' <= c && c <= 'f')
}

fn hex_digit(d: u8) -> (c: char)
    requires
        d < 16,
    ensures
        is_hex_digit(c),
        d < 10 ==> c as int == '0' as int + d,
        d >= 10 ==> c as int == 'a' as int + d - 10,
{
    if d < 10 {
        (d + 48u8) as char
    } else {
        (d - 10 + 97u8) as char
    }
}

pub open spec fn rpc_url_text(port: u16) -> Seq<char> {
    "http://127.0.0.1:"@ + decimal(port as nat) + "/jsonrpc"@
}

impl Aria2ProcessConfig {
    /// A configuration with a fresh secret of 32 random lowercase hex
    /// digits, session and log files in `data_dir`, and aria2's default port.
    pub fn new_with_random_secret(data_dir: &str, download_dir: String) -> (r: Self)
        ensures
            r.binary_path@ == "aria2c"@,
            r.rpc_port == 6800,
            r.rpc_secret@.len() == 32,
            forall|i: int| 0 <= i < 32 ==> is_hex_digit(#[trigger] r.rpc_secret@[i]),
            r.session_path@ == joined_path(data_dir@, "aria2-session.txt"@),
            r.log_path@ == joined_path(data_dir@, "aria2.log"@),
            r.download_dir == download_dir,
    {
        let mut secret = String::new();
        let mut i: usize = 0;
        while i < 32
            invariant
                i <= 32,
                secret@.len() == i,
                forall|k: int| 0 <= k < i ==> is_hex_digit(#[trigger] secret@[k]),
            decreases 32 - i,
        {
            let c = hex_digit(random_nibble());
            push_char(&mut secret, c);
            i = i + 1;
        }
        Aria2ProcessConfig {
            binary_path: "aria2c".to_owned(),
            rpc_port: 6800,
            rpc_secret: secret,
            session_path: crate::aria2::join_path(data_dir, "aria2-session.txt"),
            log_path: crate::aria2::join_path(data_dir, "aria2.log"),
            download_dir,
        }
    }

    /// The JSON-RPC endpoint of the local aria2c.
    pub fn rpc_url(&self) -> (r: String)
        ensures
            r@ == rpc_url_text(self.rpc_port),
    {
        let mut url = "http://127.0.0.1:".to_owned();
        let port = decimal_string(self.rpc_port as u64);
        push_str(&mut url, port.as_str());
        push_str(&mut url, "/jsonrpc");
        url
    }
}

} // verus!
