use vstd::prelude::*;

verus! {

#[verifier::external_type_specification]
#[verifier::external_body]
pub struct ExPathBuf(std::path::PathBuf);

/// How log lines are written.
#[derive(Clone, Copy, Debug, PartialEq, Eq, Structural)]
pub enum LogFormat {
    JSON,
    Pretty,
    Compact,
}

/// The server's settings, each one given or defaulted.
pub struct KesConfig {
    pub port: u16,
    pub workers: usize,
    pub log_format: LogFormat,
    pub log_level: String,
    pub posts_dir: String,
    pub assets_dir: String,
    pub home_template: Option<std::path::PathBuf>,
    pub post_template: Option<std::path::PathBuf>,
    pub not_found_template: Option<std::path::PathBuf>,
}

/// The settings as the configuration file and the environment give them:
/// `None` where neither names one.
pub struct ConfigSettings {
    pub port: Option<u16>,
    pub workers: Option<usize>,
    pub log_format: Option<LogFormat>,
    pub log_level: Option<String>,
    pub posts_dir: Option<String>,
    pub assets_dir: Option<String>,
    pub home_template: Option<std::path::PathBuf>,
    pub post_template: Option<std::path::PathBuf>,
    pub not_found_template: Option<std::path::PathBuf>,
}

/// A given text, or the default one.
pub open spec fn text_or(given: Option<String>, default: Seq<char>) -> Seq<char> {
    match given {
        Some(s) => s@,
        None => default,
    }
}

impl KesConfig {
    /// The port listened on when none is given.
    pub fn default_port() -> (r: u16)
        ensures
            r == 3000,
    {
        3000
    }

    /// The number of workers when none is given.
    pub fn default_workers() -> (r: usize)
        ensures
            r == 4,
    {
        4
    }

    /// The log format when none is given.
    pub fn default_log_format() -> (r: LogFormat)
        ensures
            r == LogFormat::JSON,
    {
        LogFormat::JSON
    }

    /// The log level when none is given.
    pub fn default_log_level() -> (r: String)
        ensures
            r@ == "error"@,
    {
        broadcast use vstd::string::to_string_from_display_ensures_for_str;

        "error".to_string()
    }

    /// The directory of the posts when none is given.
    pub fn default_posts_dir() -> (r: String)
        ensures
            r@ == "posts"@,
    {
        broadcast use vstd::string::to_string_from_display_ensures_for_str;

        "posts".to_string()
    }

    /// The directory of the static assets when none is given.
    pub fn default_assets_dir() -> (r: String)
        ensures
            r@ == "assets"@,
    {
        broadcast use vstd::string::to_string_from_display_ensures_for_str;

        "assets".to_string()
    }
}

/// The configuration: each setting as given, or its default where none is.
pub fn get_config(settings: ConfigSettings) -> (r: KesConfig)
    ensures
        r.port == (match settings.port {
            Some(p) => p,
            None => 3000,
        }),
        r.workers == (match settings.workers {
            Some(w) => w,
            None => 4,
        }),
        r.log_format == (match settings.log_format {
            Some(f) => f,
            None => LogFormat::JSON,
        }),
        r.log_level@ == text_or(settings.log_level, "error"@),
        r.posts_dir@ == text_or(settings.posts_dir, "posts"@),
        r.assets_dir@ == text_or(settings.assets_dir, "assets"@),
        r.home_template == settings.home_template,
        r.post_template == settings.post_template,
        r.not_found_template == settings.not_found_template,
{
    let port = match settings.port {
        Some(p) => p,
        None => KesConfig::default_port(),
    };
    let workers = match settings.workers {
        Some(w) => w,
        None => KesConfig::default_workers(),
    };
    let log_format = match settings.log_format {
        Some(f) => f,
        None => KesConfig::default_log_format(),
    };
    let log_level = match settings.log_level {
        Some(s) => s,
        None => KesConfig::default_log_level(),
    };
    let posts_dir = match settings.posts_dir {
        Some(s) => s,
        None => KesConfig::default_posts_dir(),
    };
    let assets_dir = match settings.assets_dir {
        Some(s) => s,
        None => KesConfig::default_assets_dir(),
    };
    KesConfig {
        port,
        workers,
        log_format,
        log_level,
        posts_dir,
        assets_dir,
        home_template: settings.home_template,
        post_template: settings.post_template,
        not_found_template: settings.not_found_template,
    }
}

} // verus!
