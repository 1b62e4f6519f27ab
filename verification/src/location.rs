use vstd::prelude::*;

verus! {

/// The name of the program's directory under the configuration directory.
pub const PROGRAM_DIRECTORY: &'static str = "redirector";

/// The name of the configuration file.
pub const CONFIG_FILE: &'static str = "config.toml";

/// The name of the configuration directory under the home directory.
pub const HOME_CONFIG_DIRECTORY: &'static str = ".config";

/// The directory that stands for the home directory where none is known.
pub const CURRENT_DIRECTORY: &'static str = ".";

/// The texts of a list of strings.
pub open spec fn texts(parts: Seq<String>) -> Seq<Seq<char>> {
    parts.map_values(|s: String| s@)
}

/// The home directory, or the current directory where none is known.
pub open spec fn home_or_current(home: Option<String>) -> Seq<char> {
    match home {
        Some(h) => h@,
        None => CURRENT_DIRECTORY@,
    }
}

/// The components of the configuration file's path below the home
/// directory.
pub open spec fn home_config_parts(home: Option<String>) -> Seq<Seq<char>> {
    seq![home_or_current(home), HOME_CONFIG_DIRECTORY@, PROGRAM_DIRECTORY@, CONFIG_FILE@]
}

/// The components of the configuration file's path: below the configuration
/// directory of the session where one is named and its name is not empty,
/// below the home directory otherwise.
pub open spec fn config_parts(session: Option<String>, home: Option<String>) -> Seq<Seq<char>> {
    match session {
        Some(dir) => if dir@.len() > 0 {
            seq![dir@, PROGRAM_DIRECTORY@, CONFIG_FILE@]
        } else {
            home_config_parts(home)
        },
        None => home_config_parts(home),
    }
}

/// The path of the configuration file below the home directory, component
/// by component.
pub fn home_config_location(home: Option<String>) -> (parts: Vec<String>)
    ensures
        texts(parts@) == home_config_parts(home),
{
    let base = match home {
        Some(h) => h,
        None => CURRENT_DIRECTORY.to_owned(),
    };
    let mut parts: Vec<String> = Vec::new();
    parts.push(base);
    parts.push(HOME_CONFIG_DIRECTORY.to_owned());
    parts.push(PROGRAM_DIRECTORY.to_owned());
    parts.push(CONFIG_FILE.to_owned());
    proof {
        assert(texts(parts@) =~= home_config_parts(home));
    }
    parts
}

/// The path of the configuration file, component by component, from the
/// session's configuration directory and the home directory as the
/// environment names them.
pub fn config_location(session: Option<String>, home: Option<String>) -> (parts: Vec<String>)
    ensures
        texts(parts@) == config_parts(session, home),
{
    match session {
        Some(dir) => {
            if !dir.as_str().is_empty() {
                let mut parts: Vec<String> = Vec::new();
                parts.push(dir);
                parts.push(PROGRAM_DIRECTORY.to_owned());
                parts.push(CONFIG_FILE.to_owned());
                proof {
                    assert(texts(parts@) =~= config_parts(session, home));
                }
                parts
            } else {
                home_config_location(home)
            }
        },
        None => home_config_location(home),
    }
}

} // verus!
