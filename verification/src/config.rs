use vstd::prelude::*;

verus! {

/// The settings of a scan that the banner shows.
pub struct Configuration {
    /// status codes that count as a hit
    pub status_codes: Vec<u16>,
    /// status codes whose responses are filtered out
    pub filter_status: Vec<u16>,
    /// status codes whose responses are sent through the replay proxy
    pub replay_codes: Vec<u16>,
    /// extra request headers, as (name, value) pairs; each pair is one
    /// banner entry, in this order (a settings map gives each name once)
    pub headers: Vec<(String, String)>,
    /// response sizes that are filtered out
    pub filter_size: Vec<u64>,
    /// pages whose look-alikes are filtered out
    pub filter_similar: Vec<String>,
    /// word counts that are filtered out
    pub filter_word_count: Vec<usize>,
    /// line counts that are filtered out
    pub filter_line_count: Vec<usize>,
    /// regular expressions whose matches are filtered out
    pub filter_regex: Vec<String>,
    /// query parameters added to each request, as (name, value) pairs
    pub queries: Vec<(String, String)>,
    /// verbosity level
    pub verbosity: u8,
    /// whether to stay out of the directories found
    pub no_recursion: bool,
    /// how deep to recurse, 0 for no limit
    pub depth: usize,
    /// how many scans may run at once, 0 for no limit
    pub scan_limit: usize,
    /// proxy that the hits are replayed through
    pub replay_proxy: String,
    /// path of the configuration file that was read
    pub config: String,
    /// proxy for all requests
    pub proxy: String,
    /// number of concurrent requests
    pub threads: usize,
    /// path of the wordlist
    pub wordlist: String,
    /// request timeout in seconds
    pub timeout: u64,
    /// the User-Agent header sent
    pub user_agent: String,
    /// whether links are extracted from response bodies
    pub extract_links: bool,
    /// whether results are written as JSON
    pub json: bool,
    /// path of the output file
    pub output: String,
    /// path of the debugging log
    pub debug_log: String,
    /// file extensions appended to each word
    pub extensions: Vec<String>,
    /// whether certificate errors are ignored
    pub insecure: bool,
    /// whether redirects are followed
    pub redirects: bool,
    /// whether wildcard responses are kept
    pub dont_filter: bool,
    /// whether a slash is appended to each word
    pub add_slash: bool,
    /// limit on the running time of the whole scan
    pub time_limit: String,
}

} // verus!
