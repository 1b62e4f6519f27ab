use crate::bang::Bang;
use vstd::prelude::*;
use vstd::std_specs::convert::FromSpecImpl;

verus! {

/// The port the server listens on when none is configured.
pub const DEFAULT_PORT: u16 = 3000;

/// Where the remote catalog is fetched from when no other place is configured.
pub const DEFAULT_BANGS_URL: &'static str = "https://duckduckgo.com/bang.js";

/// The search that answers a query without a known trigger, when none is
/// configured.
pub const DEFAULT_SEARCH: &'static str = "https://www.qwant.com/?q={}";

/// The suggestions service that is asked when none is configured.
pub const DEFAULT_SEARCH_SUGGESTIONS: &'static str = "https://search.brave.com/api/suggest?q={}";

/// An address to listen on, as plain numbers.
#[derive(Clone, Copy, Debug, PartialEq, Eq, Structural)]
pub enum IpAddress {
    /// An IPv4 address by its four octets, first octet first.
    V4(u8, u8, u8, u8),
    /// An IPv6 address as one number of 128 bits, first segment highest.
    V6(u128),
}

/// The address that stands for every interface of the machine.
pub open spec fn unspecified_address() -> IpAddress {
    IpAddress::V4(0, 0, 0, 0)
}

/// Configuration read from the file.
#[derive(Debug)]
pub struct FileConfig {
    pub port: Option<u16>,
    pub ip: Option<IpAddress>,
    pub bangs_url: Option<String>,
    pub default_search: Option<String>,
    pub search_suggestions: Option<String>,
    pub bangs: Option<Vec<Bang>>,
}

/// Configuration read from the command line.
#[derive(Debug)]
pub struct Config {
    pub port: Option<u16>,
    pub ip: Option<IpAddress>,
    pub bangs_url: Option<String>,
    pub default_search: Option<String>,
    pub search_suggestions: Option<String>,
}

/// Final application configuration.
#[derive(Clone, Debug)]
pub struct AppConfig {
    pub port: u16,
    pub ip: IpAddress,
    pub bangs_url: String,
    pub default_search: String,
    pub search_suggestions: String,
    pub bangs: Option<Vec<Bang>>,
}

/// What the command line asks the program to do.
#[derive(Debug)]
pub enum SubCommand {
    /// Run the server.
    Serve { port: Option<u16>, ip: Option<IpAddress> },
    /// Resolve one query and print the URL.
    Resolve { query: String },
    /// Print a completion script for a shell.
    Completions,
}

/// The command line as a whole.
#[derive(Debug)]
pub struct Cli {
    pub command: Option<SubCommand>,
    pub bangs_url: Option<String>,
    pub default_search: Option<String>,
    pub search_suggestions: Option<String>,
}

/// The first of two optional values that is present, or else the fallback.
pub open spec fn preferred<T>(first: Option<T>, second: Option<T>, fallback: T) -> T {
    match first {
        Some(v) => v,
        None => match second {
            Some(w) => w,
            None => fallback,
        },
    }
}

/// The text that the first present value holds, or else the fallback text.
pub open spec fn preferred_text(
    first: Option<String>,
    second: Option<String>,
    fallback: Seq<char>,
) -> Seq<char> {
    match first {
        Some(v) => v@,
        None => match second {
            Some(w) => w@,
            None => fallback,
        },
    }
}

fn prefer<T>(first: Option<T>, second: Option<T>, fallback: T) -> (r: T)
    ensures
        r == preferred(first, second, fallback),
{
    match first {
        Some(v) => v,
        None => match second {
            Some(w) => w,
            None => fallback,
        },
    }
}

fn prefer_text(first: Option<String>, second: Option<String>, fallback: &str) -> (r: String)
    ensures
        r@ == preferred_text(first, second, fallback@),
{
    match first {
        Some(v) => v,
        None => match second {
            Some(w) => w,
            None => fallback.to_owned(),
        },
    }
}

/// The file configuration that sets nothing.
pub open spec fn unset_file() -> FileConfig {
    FileConfig {
        port: None,
        ip: None,
        bangs_url: None,
        default_search: None,
        search_suggestions: None,
        bangs: None,
    }
}

/// The command-line configuration that sets nothing.
pub open spec fn unset_options() -> Config {
    Config { port: None, ip: None, bangs_url: None, default_search: None, search_suggestions: None }
}

impl Default for FileConfig {
    fn default() -> (r: Self)
        ensures
            r == unset_file(),
    {
        FileConfig {
            port: None,
            ip: None,
            bangs_url: None,
            default_search: None,
            search_suggestions: None,
            bangs: None,
        }
    }
}

impl Default for Config {
    fn default() -> (r: Self)
        ensures
            r == unset_options(),
    {
        Config { port: None, ip: None, bangs_url: None, default_search: None, search_suggestions: None }
    }
}

impl FileConfig {
    /// What the merge of a file configuration with the command line gives:
    /// each setting from the command line if it is there, else from the file,
    /// else the default; the overlay list from the file.
    pub open spec fn merged_with(self, config: Config, r: AppConfig) -> bool {
        &&& r.port == preferred(config.port, self.port, DEFAULT_PORT)
        &&& r.ip == preferred(config.ip, self.ip, unspecified_address())
        &&& r.bangs_url@ == preferred_text(config.bangs_url, self.bangs_url, DEFAULT_BANGS_URL@)
        &&& r.default_search@ == preferred_text(
            config.default_search,
            self.default_search,
            DEFAULT_SEARCH@,
        )
        &&& r.search_suggestions@ == preferred_text(
            config.search_suggestions,
            self.search_suggestions,
            DEFAULT_SEARCH_SUGGESTIONS@,
        )
        &&& r.bangs == self.bangs
    }

    /// Merges a file configuration with the command line. Command-line
    /// options take precedence over file values.
    #[must_use]
    pub fn merge(self, config: Config) -> (r: AppConfig)
        ensures
            self.merged_with(config, r),
    {
        AppConfig {
            port: prefer(config.port, self.port, DEFAULT_PORT),
            ip: prefer(config.ip, self.ip, IpAddress::V4(0, 0, 0, 0)),
            bangs_url: prefer_text(config.bangs_url, self.bangs_url, DEFAULT_BANGS_URL),
            default_search: prefer_text(config.default_search, self.default_search, DEFAULT_SEARCH),
            search_suggestions: prefer_text(
                config.search_suggestions,
                self.search_suggestions,
                DEFAULT_SEARCH_SUGGESTIONS,
            ),
            bangs: self.bangs,
        }
    }
}

impl Config {
    /// Merges the command line with an optional file configuration.
    /// Command-line options take precedence over file values and fall back on
    /// the defaults; without a file there is no overlay list.
    #[must_use]
    pub fn merge(self, file: Option<FileConfig>) -> (r: AppConfig)
        ensures
            match file {
                Some(f) => f.merged_with(self, r),
                None => unset_file().merged_with(self, r),
            },
    {
        match file {
            Some(f) => f.merge(self),
            None => {
                let f = FileConfig::default();
                f.merge(self)
            },
        }
    }
}

impl Default for AppConfig {
    fn default() -> (r: Self)
        ensures
            r.port == DEFAULT_PORT,
            r.ip == unspecified_address(),
            r.bangs_url@ == DEFAULT_BANGS_URL@,
            r.default_search@ == DEFAULT_SEARCH@,
            r.search_suggestions@ == DEFAULT_SEARCH_SUGGESTIONS@,
            r.bangs is None,
    {
        AppConfig {
            port: DEFAULT_PORT,
            ip: IpAddress::V4(0, 0, 0, 0),
            bangs_url: DEFAULT_BANGS_URL.to_owned(),
            default_search: DEFAULT_SEARCH.to_owned(),
            search_suggestions: DEFAULT_SEARCH_SUGGESTIONS.to_owned(),
            bangs: None,
        }
    }
}

impl AppConfig {
    /// A copy of the configuration.
    pub fn duplicate(&self) -> (r: Self)
        ensures
            r.port == self.port,
            r.ip == self.ip,
            r.bangs_url == self.bangs_url,
            r.default_search == self.default_search,
            r.search_suggestions == self.search_suggestions,
            r.bangs is Some <==> self.bangs is Some,
            self.bangs is Some ==> r.bangs->0@ == self.bangs->0@,
    {
        AppConfig {
            port: self.port,
            ip: self.ip,
            bangs_url: self.bangs_url.clone(),
            default_search: self.default_search.clone(),
            search_suggestions: self.search_suggestions.clone(),
            bangs: match &self.bangs {
                Some(list) => Some(crate::bang::copy_bangs(list)),
                None => None,
            },
        }
    }
}

impl From<Cli> for Config {
    fn from(cli: Cli) -> (r: Self) {
        match cli.command {
            Some(SubCommand::Serve { port, ip }) => Config {
                port,
                ip,
                bangs_url: cli.bangs_url,
                default_search: cli.default_search,
                search_suggestions: cli.search_suggestions,
            },
            Some(SubCommand::Resolve { query }) => Config {
                port: None,
                ip: None,
                bangs_url: cli.bangs_url,
                default_search: cli.default_search,
                search_suggestions: cli.search_suggestions,
            },
            _ => Config::default(),
        }
    }
}

impl FromSpecImpl<Cli> for Config {
    open spec fn obeys_from_spec() -> bool {
        true
    }

    /// Serving takes every option of the command line; resolving takes all
    /// but port and address; anything else takes none.
    open spec fn from_spec(cli: Cli) -> Config {
        match cli.command {
            Some(SubCommand::Serve { port, ip }) => Config {
                port,
                ip,
                bangs_url: cli.bangs_url,
                default_search: cli.default_search,
                search_suggestions: cli.search_suggestions,
            },
            Some(SubCommand::Resolve { query }) => Config {
                port: None,
                ip: None,
                bangs_url: cli.bangs_url,
                default_search: cli.default_search,
                search_suggestions: cli.search_suggestions,
            },
            _ => unset_options(),
        }
    }
}

} // verus!
