//! Effective session settings: command-line overrides over a loaded
//! configuration file over built-in defaults.

use vstd::prelude::*;

verus! {

/// Host used when neither the command line nor a configuration file names one.
pub const DEFAULT_HOST: &'static str = "http://127.0.0.1:8080";

/// Values given explicitly on the command line.
pub struct CliOverrides {
    pub host: Option<String>,
    pub username: Option<String>,
    pub password: Option<String>,
    pub dry_run: bool,
    pub verbose: bool,
}

/// The daemon section of a configuration file.
pub struct ServerSection {
    pub host: String,
    pub username: Option<String>,
    pub password: Option<String>,
}

/// What a configuration file provided; empty when no file could be loaded.
pub struct FileConfig {
    pub default_save_path: Option<String>,
    pub qbittorrent: Option<ServerSection>,
}

/// The effective settings of one invocation.
pub struct Settings {
    pub host: String,
    pub username: Option<String>,
    pub password: Option<String>,
    pub default_save_path: Option<String>,
    pub verbose: bool,
    pub dry_run: bool,
}

/// `s` without any of its trailing `/` characters.
pub open spec fn strip_slashes(s: Seq<char>) -> Seq<char>
    decreases s.len(),
{
    if s.len() > 0 && s.last() == '/' {
        strip_slashes(s.drop_last())
    } else {
        s
    }
}

/// The first present value of `first` and `second`.
pub open spec fn first_present(first: Option<String>, second: Option<String>) -> Option<String> {
    if first is Some {
        first
    } else {
        second
    }
}

/// The host that resolution yields, before normalization.
pub open spec fn chosen_host(cli: &CliOverrides, file: &FileConfig) -> Seq<char> {
    if cli.host is Some {
        cli.host->0@
    } else if file.qbittorrent is Some {
        file.qbittorrent->0.host@
    } else {
        DEFAULT_HOST@
    }
}

/// The username that resolution yields.
pub open spec fn chosen_username(cli: &CliOverrides, file: &FileConfig) -> Option<String> {
    first_present(
        cli.username,
        if file.qbittorrent is Some {
            file.qbittorrent->0.username
        } else {
            None
        },
    )
}

/// The password that resolution yields.
pub open spec fn chosen_password(cli: &CliOverrides, file: &FileConfig) -> Option<String> {
    first_present(
        cli.password,
        if file.qbittorrent is Some {
            file.qbittorrent->0.password
        } else {
            None
        },
    )
}

/// The save path: an explicit destination, else the configured default,
/// else the current directory.
pub open spec fn chosen_save_path(dest: Option<String>, settings: &Settings, cwd: Seq<char>) -> Seq<char> {
    if dest is Some {
        dest->0@
    } else if settings.default_save_path is Some {
        settings.default_save_path->0@
    } else {
        cwd
    }
}

fn copy_opt(v: &Option<String>) -> (r: Option<String>)
    ensures
        r == *v,
{
    match v {
        Some(s) => Some(s.clone()),
        None => None,
    }
}

impl FileConfig {
    /// The configuration that stands for a missing or unreadable file.
    pub fn empty() -> (r: FileConfig)
        ensures
            r.default_save_path is None,
            r.qbittorrent is None,
    {
        FileConfig { default_save_path: None, qbittorrent: None }
    }
}

/// Removes every trailing `/` from a host, so that paths can be appended
/// with a single `/`.
pub fn normalize_host(host: &str) -> (r: String)
    ensures
        r@ == strip_slashes(host@),
{
    let mut end = host.unicode_len();
    assert(host@.subrange(0, end as int) =~= host@);
    while end > 0 && host.get_char(end - 1) == '/'
        invariant
            end <= host@.len(),
            strip_slashes(host@) == strip_slashes(host@.subrange(0, end as int)),
        decreases end,
    {
        proof {
            assert(host@.subrange(0, end as int).drop_last() =~= host@.subrange(0, end - 1));
        }
        end = end - 1;
    }
    let r = String::from_str(host.substring_char(0, end));
    proof {
        assert(host@.subrange(0, end as int) == r@);
    }
    r
}

/// Merges command-line overrides, a loaded configuration file and the
/// built-in defaults, field by field, the first present value winning. The
/// host is stored without trailing slashes. Never fails.
pub fn resolve(cli: &CliOverrides, file: &FileConfig) -> (r: Settings)
    ensures
        r.host@ == strip_slashes(chosen_host(cli, file)),
        r.username == chosen_username(cli, file),
        r.password == chosen_password(cli, file),
        r.default_save_path == file.default_save_path,
        r.verbose == cli.verbose,
        r.dry_run == cli.dry_run,
{
    let host = match &cli.host {
        Some(h) => normalize_host(h.as_str()),
        None => match &file.qbittorrent {
            Some(q) => normalize_host(q.host.as_str()),
            None => normalize_host(DEFAULT_HOST),
        },
    };
    let (file_user, file_pass) = match &file.qbittorrent {
        Some(q) => (copy_opt(&q.username), copy_opt(&q.password)),
        None => (None, None),
    };
    let username = match &cli.username {
        Some(u) => Some(u.clone()),
        None => file_user,
    };
    let password = match &cli.password {
        Some(p) => Some(p.clone()),
        None => file_pass,
    };
    Settings {
        host,
        username,
        password,
        default_save_path: copy_opt(&file.default_save_path),
        verbose: cli.verbose,
        dry_run: cli.dry_run,
    }
}

/// Picks where added content goes: the explicit destination, else the
/// configured default save path, else the current directory `cwd`.
pub fn resolve_save_path(dest: Option<String>, settings: &Settings, cwd: String) -> (r: String)
    ensures
        r@ == chosen_save_path(dest, settings, cwd@),
{
    match dest {
        Some(d) => d,
        None => match &settings.default_save_path {
            Some(s) => s.clone(),
            None => cwd,
        },
    }
}

/// Stripping trailing slashes leaves none behind.
pub proof fn lemma_strip_no_trailing_slash(s: Seq<char>)
    ensures
        strip_slashes(s).len() > 0 ==> strip_slashes(s).last() != '/',
    decreases s.len(),
{
    if s.len() > 0 && s.last() == '/' {
        lemma_strip_no_trailing_slash(s.drop_last());
    }
}

/// Normalizing a host twice gives the same result as normalizing it once.
pub proof fn lemma_normalize_idempotent(s: Seq<char>)
    ensures
        strip_slashes(strip_slashes(s)) == strip_slashes(s),
{
    lemma_strip_no_trailing_slash(s);
}

/// Any number of trailing slashes normalizes to the same host as a single one:
/// adding one more slash does not change the result.
pub proof fn lemma_normalize_extra_slash(s: Seq<char>)
    ensures
        strip_slashes(s.push('/')) == strip_slashes(s),
{
    assert(s.push('/').drop_last() =~= s);
}

/// A host without a trailing slash is stored unchanged, and with one
/// trailing slash added it is stored without it.
pub proof fn lemma_normalize_one_slash(s: Seq<char>)
    requires
        s.len() == 0 || s.last() != '/',
    ensures
        strip_slashes(s) == s,
        strip_slashes(s.push('/')) == s,
{
    assert(s.push('/').drop_last() =~= s);
}

/// Without a host on the command line, a configuration that failed to load
/// still yields the built-in default host.
pub proof fn lemma_missing_file_default_host(cli: &CliOverrides, file: &FileConfig)
    requires
        cli.host is None,
        file.qbittorrent is None,
    ensures
        strip_slashes(chosen_host(cli, file)) == DEFAULT_HOST@,
{
    reveal_strlit("http://127.0.0.1:8080");
    assert(DEFAULT_HOST@.last() == '0');
}

} // verus!
