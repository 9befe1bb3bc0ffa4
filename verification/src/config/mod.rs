//! The settings of the server.

use crate::utils::number_utils::{parse_unsigned, parsed_unsigned};
use vstd::prelude::*;

verus! {

/// Every setting of the server.
#[derive(Debug)]
pub struct Config {
    pub db_path: String,
    pub stats_db_path: String,
    pub iploc_path: String,
    pub wordlist_path: String,
    pub bind_address: String,
    pub message_queue_size: usize,
    pub rl_max_requests: u32,
    pub rl_max_requests_time: u32,
    pub rl_block_duration: u32,
    pub import_path: String,
    pub template_dir: String,
    pub site_title: String,
    pub site_root: String,
    pub site_rss_full_url: String,
    pub site_articles_root: String,
    pub site_shorts_root: String,
    pub site_description: String,
}

/// What the pages and the feed say of the site. It holds none of the
/// settings that should stay with the server.
#[derive(Debug)]
pub struct SiteInfo {
    pub title: String,
    pub root: String,
    pub rss_full_url: String,
    pub articles_root: String,
    pub shorts_root: String,
    pub description: String,
}

impl SiteInfo {
    /// Keeps the settings that describe the site and drops the others.
    pub fn from_config(config: Config) -> (info: Self)
        ensures
            info.title == config.site_title,
            info.root == config.site_root,
            info.rss_full_url == config.site_rss_full_url,
            info.articles_root == config.site_articles_root,
            info.shorts_root == config.site_shorts_root,
            info.description == config.site_description,
    {
        Self {
            title: config.site_title,
            root: config.site_root,
            rss_full_url: config.site_rss_full_url,
            articles_root: config.site_articles_root,
            shorts_root: config.site_shorts_root,
            description: config.site_description,
        }
    }
}

impl From<Config> for SiteInfo {
    fn from(config: Config) -> (info: Self) {
        SiteInfo::from_config(config)
    }
}

impl vstd::std_specs::convert::FromSpecImpl<Config> for SiteInfo {
    open spec fn obeys_from_spec() -> bool {
        true
    }

    open spec fn from_spec(config: Config) -> Self {
        SiteInfo {
            title: config.site_title,
            root: config.site_root,
            rss_full_url: config.site_rss_full_url,
            articles_root: config.site_articles_root,
            shorts_root: config.site_shorts_root,
            description: config.site_description,
        }
    }
}

/// The settings as the environment holds them: each one as text, where it
/// is set.
#[derive(Debug)]
pub struct ConfigValues {
    pub db_path: Option<String>,
    pub stats_db_path: Option<String>,
    pub iploc_path: Option<String>,
    pub wordlist_path: Option<String>,
    pub bind_address: Option<String>,
    pub message_queue_size: Option<String>,
    pub rl_max_requests: Option<String>,
    pub rl_max_requests_time: Option<String>,
    pub rl_block_duration: Option<String>,
    pub import_path: Option<String>,
    pub template_dir: Option<String>,
    pub site_title: Option<String>,
    pub site_root: Option<String>,
    pub site_rss_full_url: Option<String>,
    pub site_articles_root: Option<String>,
    pub site_shorts_root: Option<String>,
    pub site_description: Option<String>,
}

/// A setting that keeps the server from starting.
#[derive(Debug, Clone, Copy, PartialEq, Eq, Structural)]
pub enum ConfigError {
    /// A path that has no default is not set.
    MissingPath,
    /// A number is not written as one, or is too large.
    InvalidNumber,
}

pub const DEFAULT_BIND_ADDRESS: &'static str = "127.0.0.1:8080";

pub const DEFAULT_MESSAGE_QUEUE_SIZE: usize = 30;

pub const DEFAULT_RL_MAX_REQUESTS: u32 = 120;

pub const DEFAULT_RL_MAX_REQUESTS_TIME: u32 = 60;

pub const DEFAULT_RL_BLOCK_DURATION: u32 = 60;

pub const DEFAULT_IMPORT_PATH: &'static str = "./import/";

pub const DEFAULT_TEMPLATE_DIR: &'static str = "./templates";

pub const DEFAULT_SITE_TITLE: &'static str = "Blog des gens compliqu\u{e9}s";

pub const DEFAULT_SITE_ROOT: &'static str = "https://dkvz.eu";

pub const DEFAULT_SITE_RSS_FULL_URL: &'static str = "https://dkvz.eu/rss.xml";

pub const DEFAULT_SITE_ARTICLES_ROOT: &'static str = "articles";

pub const DEFAULT_SITE_SHORTS_ROOT: &'static str = "breves";

pub const DEFAULT_SITE_DESCRIPTION: &'static str =
    "Blog bizarre d'un humble consultant en progress bars.";

/// The text of a setting, or its default where it is not set.
pub open spec fn text_setting(value: Option<String>, default: Seq<char>) -> Seq<char> {
    match value {
        Some(text) => text@,
        None => default,
    }
}

/// The number of a setting: its default where it is not set, and nothing
/// where it is set to what is no number up to `max`.
pub open spec fn number_setting(value: Option<String>, default: nat, max: nat) -> Option<nat> {
    match value {
        Some(text) => parsed_unsigned(text@, max),
        None => Some(default),
    }
}

fn text_or(value: Option<String>, default: &str) -> (text: String)
    ensures
        text@ == text_setting(value, default@),
{
    match value {
        Some(text) => text,
        None => default.to_owned(),
    }
}

fn number_or(value: &Option<String>, default: u64, max: u64) -> (number: Option<u64>)
    requires
        default <= max,
    ensures
        match number {
            Some(n) => number_setting(*value, default as nat, max as nat) == Some(n as nat),
            None => number_setting(*value, default as nat, max as nat) is None,
        },
{
    match value {
        Some(text) => parse_unsigned(text.as_str(), max),
        None => Some(default),
    }
}

/// Whether the four paths that have no default are set.
pub open spec fn paths_are_set(values: ConfigValues) -> bool {
    &&& values.db_path is Some
    &&& values.stats_db_path is Some
    &&& values.iploc_path is Some
    &&& values.wordlist_path is Some
}

/// Whether the four numbers are numbers, each within its type, where they
/// are set.
pub open spec fn numbers_are_valid(values: ConfigValues) -> bool {
    &&& number_setting(
        values.message_queue_size,
        DEFAULT_MESSAGE_QUEUE_SIZE as nat,
        usize::MAX as nat,
    ) is Some
    &&& number_setting(values.rl_max_requests, DEFAULT_RL_MAX_REQUESTS as nat, u32::MAX as nat)
        is Some
    &&& number_setting(
        values.rl_max_requests_time,
        DEFAULT_RL_MAX_REQUESTS_TIME as nat,
        u32::MAX as nat,
    ) is Some
    &&& number_setting(
        values.rl_block_duration,
        DEFAULT_RL_BLOCK_DURATION as nat,
        u32::MAX as nat,
    ) is Some
}

impl Config {
    /// The settings of the server, from what the environment holds. What is
    /// not set takes its default. The paths of the two databases, of the
    /// geographic database and of the word list have none and must be set;
    /// they are looked at first.
    pub fn from_values(values: ConfigValues) -> (config: Result<Config, ConfigError>)
        ensures
            match config {
                Ok(config) => {
                    &&& paths_are_set(values)
                    &&& numbers_are_valid(values)
                    &&& Some(config.db_path) == values.db_path
                    &&& Some(config.stats_db_path) == values.stats_db_path
                    &&& Some(config.iploc_path) == values.iploc_path
                    &&& Some(config.wordlist_path) == values.wordlist_path
                    &&& config.bind_address@ == text_setting(
                        values.bind_address,
                        DEFAULT_BIND_ADDRESS@,
                    )
                    &&& Some(config.message_queue_size as nat) == number_setting(
                        values.message_queue_size,
                        DEFAULT_MESSAGE_QUEUE_SIZE as nat,
                        usize::MAX as nat,
                    )
                    &&& Some(config.rl_max_requests as nat) == number_setting(
                        values.rl_max_requests,
                        DEFAULT_RL_MAX_REQUESTS as nat,
                        u32::MAX as nat,
                    )
                    &&& Some(config.rl_max_requests_time as nat) == number_setting(
                        values.rl_max_requests_time,
                        DEFAULT_RL_MAX_REQUESTS_TIME as nat,
                        u32::MAX as nat,
                    )
                    &&& Some(config.rl_block_duration as nat) == number_setting(
                        values.rl_block_duration,
                        DEFAULT_RL_BLOCK_DURATION as nat,
                        u32::MAX as nat,
                    )
                    &&& config.import_path@ == text_setting(
                        values.import_path,
                        DEFAULT_IMPORT_PATH@,
                    )
                    &&& config.template_dir@ == text_setting(
                        values.template_dir,
                        DEFAULT_TEMPLATE_DIR@,
                    )
                    &&& config.site_title@ == text_setting(values.site_title, DEFAULT_SITE_TITLE@)
                    &&& config.site_root@ == text_setting(values.site_root, DEFAULT_SITE_ROOT@)
                    &&& config.site_rss_full_url@ == text_setting(
                        values.site_rss_full_url,
                        DEFAULT_SITE_RSS_FULL_URL@,
                    )
                    &&& config.site_articles_root@ == text_setting(
                        values.site_articles_root,
                        DEFAULT_SITE_ARTICLES_ROOT@,
                    )
                    &&& config.site_shorts_root@ == text_setting(
                        values.site_shorts_root,
                        DEFAULT_SITE_SHORTS_ROOT@,
                    )
                    &&& config.site_description@ == text_setting(
                        values.site_description,
                        DEFAULT_SITE_DESCRIPTION@,
                    )
                },
                Err(ConfigError::MissingPath) => !paths_are_set(values),
                Err(ConfigError::InvalidNumber) => paths_are_set(values) && !numbers_are_valid(
                    values,
                ),
            },
    {
        let message_queue_size = number_or(
            &values.message_queue_size,
            DEFAULT_MESSAGE_QUEUE_SIZE as u64,
            usize::MAX as u64,
        );
        let rl_max_requests = number_or(
            &values.rl_max_requests,
            DEFAULT_RL_MAX_REQUESTS as u64,
            u32::MAX as u64,
        );
        let rl_max_requests_time = number_or(
            &values.rl_max_requests_time,
            DEFAULT_RL_MAX_REQUESTS_TIME as u64,
            u32::MAX as u64,
        );
        let rl_block_duration = number_or(
            &values.rl_block_duration,
            DEFAULT_RL_BLOCK_DURATION as u64,
            u32::MAX as u64,
        );
        match (values.db_path, values.stats_db_path, values.iploc_path, values.wordlist_path) {
            (Some(db_path), Some(stats_db_path), Some(iploc_path), Some(wordlist_path)) => {
                match (message_queue_size, rl_max_requests, rl_max_requests_time, rl_block_duration) {
                    (Some(queue), Some(requests), Some(time), Some(block)) => Ok(
                        Config {
                            db_path,
                            stats_db_path,
                            iploc_path,
                            wordlist_path,
                            bind_address: text_or(values.bind_address, DEFAULT_BIND_ADDRESS),
                            message_queue_size: queue as usize,
                            rl_max_requests: requests as u32,
                            rl_max_requests_time: time as u32,
                            rl_block_duration: block as u32,
                            import_path: text_or(values.import_path, DEFAULT_IMPORT_PATH),
                            template_dir: text_or(values.template_dir, DEFAULT_TEMPLATE_DIR),
                            site_title: text_or(values.site_title, DEFAULT_SITE_TITLE),
                            site_root: text_or(values.site_root, DEFAULT_SITE_ROOT),
                            site_rss_full_url: text_or(
                                values.site_rss_full_url,
                                DEFAULT_SITE_RSS_FULL_URL,
                            ),
                            site_articles_root: text_or(
                                values.site_articles_root,
                                DEFAULT_SITE_ARTICLES_ROOT,
                            ),
                            site_shorts_root: text_or(
                                values.site_shorts_root,
                                DEFAULT_SITE_SHORTS_ROOT,
                            ),
                            site_description: text_or(
                                values.site_description,
                                DEFAULT_SITE_DESCRIPTION,
                            ),
                        },
                    ),
                    _ => Err(ConfigError::InvalidNumber),
                }
            },
            _ => Err(ConfigError::MissingPath),
        }
    }
}

} // verus!
