//! Where the configuration, data, lock file and working directories live.
//!
//! Paths are held as strings with `/` as the separator. The directory layout
//! is resolved from explicit locations first, then from the XDG base
//! directories, then from fixed places under the home directory.
use vstd::prelude::*;

verus! {

/// The name of the directory that holds this program's files under a base directory.
pub const APP_DIR: &'static str = "sheldon";

/// The name of the config file inside the config directory.
pub const CONFIG_FILE_NAME: &'static str = "plugins.toml";

/// Where the config base directory lies under the home directory.
pub const HOME_CONFIG: &'static str = ".config";

/// Where the data base directory lies under the home directory.
pub const HOME_DATA: &'static str = ".local/share";

/// The lock file name when no profile is in use.
pub const LOCK_FILE_NAME: &'static str = "plugins.lock";

/// The start of a profile's lock file name.
pub const LOCK_FILE_STEM: &'static str = "plugins.";

/// The end of a profile's lock file name.
pub const LOCK_FILE_EXT: &'static str = ".lock";

/// The subdirectory of the data directory that holds cloned repositories.
pub const CLONE_DIR_NAME: &'static str = "repos";

/// The subdirectory of the data directory that holds downloaded files.
pub const DOWNLOAD_DIR_NAME: &'static str = "downloads";

/// The start of the message of a config file path without a parent.
pub const PATH_ERROR_PREFIX: &'static str = "failed to get parent directory of config file path `";

/// The end of the message of a config file path without a parent.
pub const PATH_ERROR_SUFFIX: &'static str = "`";

/// The characters of an optional string.
pub open spec fn opt_chars(o: Option<String>) -> Option<Seq<char>> {
    match o {
        Some(s) => Some(s@),
        None => None,
    }
}

/// `base` extended by the relative path `name`.
pub open spec fn path_join(base: Seq<char>, name: Seq<char>) -> Seq<char> {
    if base.len() == 0 {
        name
    } else if base.last() == '/' {
        base + name
    } else {
        base + seq!['/'] + name
    }
}

/// `s` without the separators at its end.
pub open spec fn trim_trailing_seps(s: Seq<char>) -> Seq<char>
    decreases s.len(),
{
    if s.len() > 0 && s.last() == '/' {
        trim_trailing_seps(s.drop_last())
    } else {
        s
    }
}

/// The index of the last separator in `s`, or -1 where it has none.
pub open spec fn last_sep(s: Seq<char>) -> int
    decreases s.len(),
{
    if s.len() == 0 {
        -1
    } else if s.last() == '/' {
        s.len() - 1
    } else {
        last_sep(s.drop_last())
    }
}

/// The directory that holds the path `p`: what stands before its last
/// component. A path made of one component, or of none, has no parent.
pub open spec fn parent_dir(p: Seq<char>) -> Option<Seq<char>> {
    let t = trim_trailing_seps(p);
    let i = last_sep(t);
    if i < 0 {
        None
    } else {
        let d = trim_trailing_seps(t.subrange(0, i));
        if d.len() == 0 {
            Some(seq!['/'])
        } else {
            Some(d)
        }
    }
}

/// The program's directory under a base directory: the one that the
/// environment names if it does, else `fallback` under the home directory.
pub open spec fn default_dir(home: Seq<char>, env_base: Option<Seq<char>>, fallback: Seq<char>) -> Seq<char> {
    let base = match env_base {
        Some(b) => b,
        None => path_join(home, fallback),
    };
    path_join(base, APP_DIR@)
}

/// The default config directory.
pub open spec fn default_config_dir_of(home: Seq<char>, config_home: Option<Seq<char>>) -> Seq<char> {
    default_dir(home, config_home, HOME_CONFIG@)
}

/// The default data directory.
pub open spec fn default_data_dir_of(home: Seq<char>, data_home: Option<Seq<char>>) -> Seq<char> {
    default_dir(home, data_home, HOME_DATA@)
}

/// The config directory and config file, or `None` where only a config file
/// without a parent is given.
pub open spec fn config_paths(
    home: Seq<char>,
    config_home: Option<Seq<char>>,
    config_dir: Option<Seq<char>>,
    config_file: Option<Seq<char>>,
) -> Option<(Seq<char>, Seq<char>)> {
    match (config_dir, config_file) {
        (Some(dir), Some(file)) => Some((dir, file)),
        (None, Some(file)) => match parent_dir(file) {
            Some(dir) => Some((dir, file)),
            None => None,
        },
        (Some(dir), None) => Some((dir, path_join(dir, CONFIG_FILE_NAME@))),
        (None, None) => {
            let dir = default_config_dir_of(home, config_home);
            Some((dir, path_join(dir, CONFIG_FILE_NAME@)))
        },
    }
}

/// The data directory: the explicit one if given, else the default.
pub open spec fn data_dir_of(home: Seq<char>, data_home: Option<Seq<char>>, data_dir: Option<Seq<char>>) -> Seq<char> {
    match data_dir {
        Some(dir) => dir,
        None => default_data_dir_of(home, data_home),
    }
}

/// The lock file's name for an optional profile; the empty profile counts as none.
pub open spec fn lock_file_name(profile: Option<Seq<char>>) -> Seq<char> {
    match profile {
        Some(p) => if p.len() == 0 {
            LOCK_FILE_NAME@
        } else {
            LOCK_FILE_STEM@ + p + LOCK_FILE_EXT@
        },
        None => LOCK_FILE_NAME@,
    }
}

/// An explicit location is always used as given; a missing config directory
/// comes from the config file's parent, or else from the default; a missing
/// config file is `plugins.toml` in the config directory; a missing data
/// directory is the default one.
pub proof fn lemma_path_precedence(
    home: Seq<char>,
    config_home: Option<Seq<char>>,
    data_home: Option<Seq<char>>,
    config_dir: Option<Seq<char>>,
    data_dir: Option<Seq<char>>,
    config_file: Option<Seq<char>>,
)
    ensures
        data_dir matches Some(d) ==> data_dir_of(home, data_home, data_dir) == d,
        data_dir is None ==> data_dir_of(home, data_home, data_dir) == default_data_dir_of(home, data_home),
        config_paths(home, config_home, config_dir, config_file) is None <==> (config_dir is None
            && config_file is Some && parent_dir(config_file->Some_0) is None),
        config_paths(home, config_home, config_dir, config_file) matches Some((d, f)) ==> {
            &&& config_dir matches Some(cd) ==> d == cd
            &&& config_file matches Some(cf) ==> f == cf
            &&& config_dir is None ==> (config_file matches Some(cf) ==> Some(d) == parent_dir(cf))
            &&& config_file is None ==> f == path_join(d, CONFIG_FILE_NAME@)
            &&& (config_dir is None && config_file is None) ==> d == default_config_dir_of(home, config_home)
        },
{
}

/// No profile and the empty profile give the same lock file, `plugins.lock`;
/// any other profile `p` gives `plugins.<p>.lock`.
pub proof fn lemma_lock_file_profile(p: Seq<char>)
    ensures
        lock_file_name(None) == LOCK_FILE_NAME@,
        lock_file_name(Some(Seq::empty())) == LOCK_FILE_NAME@,
        p.len() > 0 ==> lock_file_name(Some(p)) == LOCK_FILE_STEM@ + p + LOCK_FILE_EXT@,
{
}

/// A config file path from which no config directory can be derived.
#[derive(Clone, Debug, PartialEq, Eq)]
pub struct PathError {
    /// The config file path as given.
    pub path: String,
}

impl PathError {
    /// The text of the error message.
    pub open spec fn message_of(path: Seq<char>) -> Seq<char> {
        PATH_ERROR_PREFIX@ + path + PATH_ERROR_SUFFIX@
    }

    /// A human-readable message that names the offending path.
    pub fn message(&self) -> (r: String)
        ensures
            r@ == Self::message_of(self.path@),
    {
        let r = String::from_str(PATH_ERROR_PREFIX);
        let r = r.concat(self.path.as_str());
        r.concat(PATH_ERROR_SUFFIX)
    }
}

proof fn lemma_prefix_drop_last(s: Seq<char>, n: int)
    requires
        0 < n <= s.len(),
    ensures
        s.subrange(0, n).drop_last() == s.subrange(0, n - 1),
        s.subrange(0, n).last() == s[n - 1],
{
    assert(s.subrange(0, n).drop_last() =~= s.subrange(0, n - 1));
}

/// The length of `s@.subrange(0, end)` once its trailing separators are removed.
fn trimmed_len(s: &str, end: usize) -> (n: usize)
    requires
        end <= s@.len(),
    ensures
        n <= end,
        s@.subrange(0, n as int) == trim_trailing_seps(s@.subrange(0, end as int)),
{
    let mut n: usize = end;
    while n > 0 && s.get_char(n - 1) == '/'
        invariant
            n <= end <= s@.len(),
            trim_trailing_seps(s@.subrange(0, n as int)) == trim_trailing_seps(
                s@.subrange(0, end as int),
            ),
        decreases n,
    {
        proof {
            lemma_prefix_drop_last(s@, n as int);
        }
        n = n - 1;
    }
    proof {
        if n > 0 {
            lemma_prefix_drop_last(s@, n as int);
        }
    }
    n
}

/// The index of the last separator in `s@.subrange(0, end)`, if any.
fn find_last_sep(s: &str, end: usize) -> (r: Option<usize>)
    requires
        end <= s@.len(),
    ensures
        match r {
            Some(i) => i < end && last_sep(s@.subrange(0, end as int)) == i as int,
            None => last_sep(s@.subrange(0, end as int)) == -1,
        },
{
    let mut n: usize = end;
    while n > 0
        invariant
            n <= end <= s@.len(),
            last_sep(s@.subrange(0, n as int)) == last_sep(s@.subrange(0, end as int)),
        decreases n,
    {
        proof {
            lemma_prefix_drop_last(s@, n as int);
        }
        if s.get_char(n - 1) == '/' {
            return Some(n - 1);
        }
        n = n - 1;
    }
    None
}

/// The parent directory of a path, or `None` where it has no directory part.
pub fn parent(p: &str) -> (r: Option<String>)
    ensures
        opt_chars(r) == parent_dir(p@),
{
    let len = p.unicode_len();
    let t = trimmed_len(p, len);
    assert(p@.subrange(0, len as int) =~= p@);
    match find_last_sep(p, t) {
        None => None,
        Some(i) => {
            let d = trimmed_len(p, i);
            assert(p@.subrange(0, t as int).subrange(0, i as int) =~= p@.subrange(0, i as int));
            if d == 0 {
                let r = String::from_str("/");
                proof {
                    reveal_strlit("/");
                    assert(r@ =~= seq!['/']);
                }
                Some(r)
            } else {
                Some(String::from_str(p.substring_char(0, d)))
            }
        },
    }
}

/// `base` extended by the relative path `name`.
pub fn join(base: &str, name: &str) -> (r: String)
    ensures
        r@ == path_join(base@, name@),
{
    let len = base.unicode_len();
    if len == 0 {
        String::from_str(name)
    } else if base.get_char(len - 1) == '/' {
        String::from_str(base).concat(name)
    } else {
        let r = String::from_str(base).concat("/");
        proof {
            reveal_strlit("/");
        }
        r.concat(name)
    }
}

/// The program's directory under the environment's base directory, or under
/// `fallback` in the home directory.
fn default_dir_exec(home: &str, env_base: &Option<String>, fallback: &str) -> (r: String)
    ensures
        r@ == default_dir(home@, opt_chars(*env_base), fallback@),
{
    let base = match env_base {
        Some(b) => b.clone(),
        None => join(home, fallback),
    };
    join(base.as_str(), APP_DIR)
}

/// The default config directory: `$XDG_CONFIG_HOME/sheldon` where the
/// variable is set, else `~/.config/sheldon`.
pub fn default_config_dir(home: &str, config_home: &Option<String>) -> (r: String)
    ensures
        r@ == default_config_dir_of(home@, opt_chars(*config_home)),
{
    default_dir_exec(home, config_home, HOME_CONFIG)
}

/// The default data directory: `$XDG_DATA_HOME/sheldon` where the variable
/// is set, else `~/.local/share/sheldon`.
pub fn default_data_dir(home: &str, data_home: &Option<String>) -> (r: String)
    ensures
        r@ == default_data_dir_of(home@, opt_chars(*data_home)),
{
    default_dir_exec(home, data_home, HOME_DATA)
}

/// Resolves the config directory, data directory and config file, in that
/// order, from the explicit locations and the environment's base
/// directories. Fails only where a config file is given alone and has no
/// parent directory.
pub fn resolve_paths(
    home: &str,
    config_home: &Option<String>,
    data_home: &Option<String>,
    config_dir: Option<String>,
    data_dir: Option<String>,
    config_file: Option<String>,
) -> (r: Result<(String, String, String), PathError>)
    ensures
        match config_paths(home@, opt_chars(*config_home), opt_chars(config_dir), opt_chars(config_file)) {
            Some((cd, cf)) => r matches Ok((rd, dd, rf)) && rd@ == cd && rf@ == cf
                && dd@ == data_dir_of(home@, opt_chars(*data_home), opt_chars(data_dir)),
            None => r matches Err(e) && Some(e.path) == config_file,
        },
{
    let (config_dir, config_file) = match (config_dir, config_file) {
        (Some(dir), Some(file)) => (dir, file),
        (None, Some(file)) => {
            match parent(file.as_str()) {
                Some(dir) => (dir, file),
                None => {
                    return Err(PathError { path: file });
                },
            }
        },
        (Some(dir), None) => {
            let file = join(dir.as_str(), CONFIG_FILE_NAME);
            (dir, file)
        },
        (None, None) => {
            let dir = default_config_dir(home, config_home);
            let file = join(dir.as_str(), CONFIG_FILE_NAME);
            (dir, file)
        },
    };
    let data_dir = match data_dir {
        Some(dir) => dir,
        None => default_data_dir(home, data_home),
    };
    Ok((config_dir, data_dir, config_file))
}

/// The lock file's path in the data directory for an optional profile:
/// `plugins.lock` without a profile or with the empty one, else
/// `plugins.<profile>.lock`.
pub fn lock_file_path(data_dir: &str, profile: &Option<String>) -> (r: String)
    ensures
        r@ == path_join(data_dir@, lock_file_name(opt_chars(*profile))),
{
    match profile {
        Some(p) if p.as_str().unicode_len() > 0 => {
            let name = String::from_str(LOCK_FILE_STEM).concat(p.as_str()).concat(LOCK_FILE_EXT);
            join(data_dir, name.as_str())
        },
        _ => join(data_dir, LOCK_FILE_NAME),
    }
}

} // verus!
