use vstd::prelude::*;

use crate::config::Configuration;
use crate::entry::{entry_model, entry_views, BannerEntry, EntryModel};
use crate::style::{colorized, emoji_or, paint, painted, status_colorizer, Paint};
use crate::update::{json_compact, json_tag_name, latest_tag, status_for_tag, update_status_for, UpdateCheckError};
use crate::text::{bool_text, bool_view, decimal, decimal_text, join, join_strings, views};

verus! {

/// The version of this tool, shown in the banner and compared with the
/// latest release.
pub const VERSION: &'static str = "2.0.0";

/// The artwork above the emoji of the author's line.
pub const ART_HEAD: &'static str = r#"
 ___  ___  __   __     __      __         __   ___
|__  |__  |__) |__) | /  `    /  \ \_/ | |  \ |__
|    |___ |  \ |  \ | \__,    \__/ / \ | |__/ |___
by Ben "epi" Risher "#;

/// What stands between the emoji and the version in the author's line.
pub const ART_VERSION: &'static str = r#"                 ver: "#;

/// The rule under the artwork.
pub const TOP_RULE: &'static str = "───────────────────────────┬──────────────────────";

/// The rule under the last entry.
pub const BOTTOM_RULE: &'static str = "───────────────────────────┴──────────────────────";

/// The closing rule under the instructions.
pub const CLOSING_RULE: &'static str = "──────────────────────────────────────────────────";
/// Where a newer release can be found.
pub const RELEASES_URL: &'static str = "https://github.com/epi052/feroxbuster/releases/latest";

/// What is known of the latest release.
#[derive(Debug, Clone, Copy, PartialEq, Eq, Structural)]
pub enum UpdateStatus {
    /// this version and the latest release are the same
    UpToDate,
    /// this version and the latest release differ
    OutOfDate,
    /// no check of the latest release has succeeded yet
    Unknown,
}

/// Everything that a banner holds: an entry for each setting, this version,
/// and what is known of the latest release.
pub struct BannerModel {
    pub targets: Seq<EntryModel>,
    pub status_codes: EntryModel,
    pub filter_status: EntryModel,
    pub threads: EntryModel,
    pub wordlist: EntryModel,
    pub timeout: EntryModel,
    pub user_agent: EntryModel,
    pub config: EntryModel,
    pub proxy: EntryModel,
    pub replay_proxy: EntryModel,
    pub replay_codes: EntryModel,
    pub headers: Seq<EntryModel>,
    pub filter_size: Seq<EntryModel>,
    pub filter_similar: Seq<EntryModel>,
    pub filter_word_count: Seq<EntryModel>,
    pub filter_line_count: Seq<EntryModel>,
    pub filter_regex: Seq<EntryModel>,
    pub extract_links: EntryModel,
    pub json: EntryModel,
    pub output: EntryModel,
    pub debug_log: EntryModel,
    pub extensions: EntryModel,
    pub insecure: EntryModel,
    pub redirects: EntryModel,
    pub dont_filter: EntryModel,
    pub queries: Seq<EntryModel>,
    pub verbosity: EntryModel,
    pub add_slash: EntryModel,
    pub no_recursion: EntryModel,
    pub scan_limit: EntryModel,
    pub time_limit: EntryModel,
    pub version: Seq<char>,
    pub update_status: UpdateStatus,
}

/// The banner shown at start-up: one entry per setting, and knows how to
/// lay itself out.
pub struct Banner {
    targets: Vec<BannerEntry>,
    status_codes: BannerEntry,
    filter_status: BannerEntry,
    threads: BannerEntry,
    wordlist: BannerEntry,
    timeout: BannerEntry,
    user_agent: BannerEntry,
    config: BannerEntry,
    proxy: BannerEntry,
    replay_proxy: BannerEntry,
    replay_codes: BannerEntry,
    headers: Vec<BannerEntry>,
    filter_size: Vec<BannerEntry>,
    filter_similar: Vec<BannerEntry>,
    filter_word_count: Vec<BannerEntry>,
    filter_line_count: Vec<BannerEntry>,
    filter_regex: Vec<BannerEntry>,
    extract_links: BannerEntry,
    json: BannerEntry,
    output: BannerEntry,
    debug_log: BannerEntry,
    extensions: BannerEntry,
    insecure: BannerEntry,
    redirects: BannerEntry,
    dont_filter: BannerEntry,
    queries: Vec<BannerEntry>,
    verbosity: BannerEntry,
    add_slash: BannerEntry,
    no_recursion: BannerEntry,
    scan_limit: BannerEntry,
    time_limit: BannerEntry,
    version: String,
    update_status: UpdateStatus,
}

impl View for Banner {
    type V = BannerModel;

    closed spec fn view(&self) -> BannerModel {
        BannerModel {
            targets: entry_views(self.targets@),
            status_codes: self.status_codes@,
            filter_status: self.filter_status@,
            threads: self.threads@,
            wordlist: self.wordlist@,
            timeout: self.timeout@,
            user_agent: self.user_agent@,
            config: self.config@,
            proxy: self.proxy@,
            replay_proxy: self.replay_proxy@,
            replay_codes: self.replay_codes@,
            headers: entry_views(self.headers@),
            filter_size: entry_views(self.filter_size@),
            filter_similar: entry_views(self.filter_similar@),
            filter_word_count: entry_views(self.filter_word_count@),
            filter_line_count: entry_views(self.filter_line_count@),
            filter_regex: entry_views(self.filter_regex@),
            extract_links: self.extract_links@,
            json: self.json@,
            output: self.output@,
            debug_log: self.debug_log@,
            extensions: self.extensions@,
            insecure: self.insecure@,
            redirects: self.redirects@,
            dont_filter: self.dont_filter@,
            queries: entry_views(self.queries@),
            verbosity: self.verbosity@,
            add_slash: self.add_slash@,
            no_recursion: self.no_recursion@,
            scan_limit: self.scan_limit@,
            time_limit: self.time_limit@,
            version: self.version@,
            update_status: self.update_status,
        }
    }
}

/// One entry per value, all with the same emoji and title.
pub open spec fn text_entries(emoji: Seq<char>, title: Seq<char>, values: Seq<Seq<char>>) -> Seq<EntryModel> {
    values.map_values(|v: Seq<char>| entry_model(emoji, title, v))
}

/// The decimal notations of a list of numbers.
pub open spec fn decimals_u64(values: Seq<u64>) -> Seq<Seq<char>> {
    values.map_values(|n: u64| decimal(n as nat))
}

/// The decimal notations of a list of numbers.
pub open spec fn decimals_usize(values: Seq<usize>) -> Seq<Seq<char>> {
    values.map_values(|n: usize| decimal(n as nat))
}

/// Each (name, value) pair written as name, `sep`, value.
pub open spec fn pair_texts(pairs: Seq<(String, String)>, sep: Seq<char>) -> Seq<Seq<char>> {
    pairs.map_values(|p: (String, String)| p.0@ + sep + p.1@)
}

/// A list of status codes as the banner shows it: in square brackets,
/// separated by a comma and a space, each in the colour of its class where
/// `colors_on` says so.
pub open spec fn code_list_view(codes: Seq<u16>, colors_on: Seq<bool>) -> Seq<char> {
    "["@ + join(
        Seq::new(codes.len(), |i: int| colorized(decimal(codes[i] as nat), colors_on[i])),
        ", "@,
    ) + "]"@
}

/// `text` shows the status codes `codes`, each coloured or not.
pub open spec fn is_code_list(text: Seq<char>, codes: Seq<u16>) -> bool {
    exists|colors_on: Seq<bool>|
        colors_on.len() == codes.len() && #[trigger] code_list_view(codes, colors_on) == text
}

/// The loudspeaker that stands for a verbosity level from 1 to 4.
pub open spec fn volume_emoji(level: u8) -> Seq<char> {
    if level == 1 {
        "🔈"@
    } else if level == 2 {
        "🔉"@
    } else if level == 3 {
        "🔊"@
    } else {
        "📢"@
    }
}

/// The verbosity entry: the level with its loudspeaker for levels 1 to 4,
/// else the empty entry.
pub open spec fn verbosity_entry(level: u8) -> EntryModel {
    if 1 <= level <= 4 {
        entry_model(volume_emoji(level), "Verbosity"@, decimal(level as nat))
    } else {
        entry_model(Seq::empty(), Seq::empty(), Seq::empty())
    }
}

/// The recursion entry: the depth (`INFINITE` for 0) when recursing, else
/// that recursion is off.
pub open spec fn recursion_entry(c: Configuration) -> EntryModel {
    if !c.no_recursion {
        entry_model(
            "🔃"@,
            "Recursion Depth"@,
            if c.depth == 0 { "INFINITE"@ } else { decimal(c.depth as nat) },
        )
    } else {
        entry_model("🚫"@, "Do Not Recurse"@, bool_view(c.no_recursion))
    }
}

/// `b` holds the entries made from the targets `tgts` and the settings `c`,
/// this version, and no knowledge of the latest release.
pub open spec fn built_from(b: BannerModel, tgts: Seq<String>, c: Configuration) -> bool {
    &&& b.targets == text_entries("🎯"@, "Target Url"@, views(tgts))
    &&& b.status_codes.emoji == "👌"@ && b.status_codes.title == "Status Codes"@
    &&& is_code_list(b.status_codes.value, c.status_codes@)
    &&& b.filter_status.emoji == "🗑"@ && b.filter_status.title == "Status Code Filters"@
    &&& is_code_list(b.filter_status.value, c.filter_status@)
    &&& b.replay_codes.emoji == "📼"@ && b.replay_codes.title == "Replay Proxy Codes"@
    &&& is_code_list(b.replay_codes.value, c.replay_codes@)
    &&& b.headers == text_entries("🤯"@, "Header"@, pair_texts(c.headers@, ": "@))
    &&& b.filter_size == text_entries("💢"@, "Size Filter"@, decimals_u64(c.filter_size@))
    &&& b.filter_similar == text_entries("💢"@, "Similarity Filter"@, views(c.filter_similar@))
    &&& b.filter_word_count == text_entries("💢"@, "Word Count Filter"@, decimals_usize(c.filter_word_count@))
    &&& b.filter_line_count == text_entries("💢"@, "Line Count Filter"@, decimals_usize(c.filter_line_count@))
    &&& b.filter_regex == text_entries("💢"@, "Regex Filter"@, views(c.filter_regex@))
    &&& b.queries == text_entries("🤔"@, "Query Parameter"@, pair_texts(c.queries@, "="@))
    &&& b.verbosity == verbosity_entry(c.verbosity)
    &&& b.no_recursion == recursion_entry(c)
    &&& b.scan_limit == entry_model("🦥"@, "Concurrent Scan Limit"@, decimal(c.scan_limit as nat))
    &&& b.replay_proxy == entry_model("🎥"@, "Replay Proxy"@, c.replay_proxy@)
    &&& b.config == entry_model("💉"@, "Config File"@, c.config@)
    &&& b.proxy == entry_model("💎"@, "Proxy"@, c.proxy@)
    &&& b.threads == entry_model("🚀"@, "Threads"@, decimal(c.threads as nat))
    &&& b.wordlist == entry_model("📖"@, "Wordlist"@, c.wordlist@)
    &&& b.timeout == entry_model("💥"@, "Timeout (secs)"@, decimal(c.timeout as nat))
    &&& b.user_agent == entry_model("🦡"@, "User-Agent"@, c.user_agent@)
    &&& b.extract_links == entry_model("🔎"@, "Extract Links"@, bool_view(c.extract_links))
    &&& b.json == entry_model("🧔"@, "JSON Output"@, bool_view(c.json))
    &&& b.output == entry_model("💾"@, "Output File"@, c.output@)
    &&& b.debug_log == entry_model("🪲"@, "Debugging Log"@, c.debug_log@)
    &&& b.extensions == entry_model("💲"@, "Extensions"@, "["@ + join(views(c.extensions@), ", "@) + "]"@)
    &&& b.insecure == entry_model("🔓"@, "Insecure"@, bool_view(c.insecure))
    &&& b.redirects == entry_model("📍"@, "Follow Redirects"@, bool_view(c.redirects))
    &&& b.dont_filter == entry_model("🤪"@, "Filter Wildcards"@, bool_view(!c.dont_filter))
    &&& b.add_slash == entry_model("🪓"@, "Add Slash"@, bool_view(c.add_slash))
    &&& b.time_limit == entry_model("🕖"@, "Time Limit"@, c.time_limit@)
    &&& b.version == VERSION@
    &&& b.update_status == UpdateStatus::Unknown
}

/// One entry per value, all with the given emoji and title.
fn text_entry_list(emoji: &str, title: &str, values: &[String]) -> (v: Vec<BannerEntry>)
    ensures
        entry_views(v@) == text_entries(emoji@, title@, views(values@)),
{
    let mut v: Vec<BannerEntry> = Vec::new();
    let mut i: usize = 0;
    while i < values.len()
        invariant
            i <= values@.len(),
            v@.len() == i,
            forall|j: int| 0 <= j < i ==> #[trigger] v@[j]@ == entry_model(emoji@, title@, values@[j]@),
        decreases values.len() - i,
    {
        v.push(BannerEntry::new(emoji, title, values[i].as_str()));
        i = i + 1;
    }
    assert(entry_views(v@) =~= text_entries(emoji@, title@, views(values@)));
    v
}

/// One entry per number, its value the decimal notation of the number.
fn u64_entry_list(emoji: &str, title: &str, values: &Vec<u64>) -> (v: Vec<BannerEntry>)
    ensures
        entry_views(v@) == text_entries(emoji@, title@, decimals_u64(values@)),
{
    let mut v: Vec<BannerEntry> = Vec::new();
    let mut i: usize = 0;
    while i < values.len()
        invariant
            i <= values@.len(),
            v@.len() == i,
            forall|j: int| 0 <= j < i ==> #[trigger] v@[j]@ == entry_model(emoji@, title@, decimal(values@[j] as nat)),
        decreases values.len() - i,
    {
        let text = decimal_text(values[i]);
        v.push(BannerEntry::new(emoji, title, text.as_str()));
        i = i + 1;
    }
    assert(entry_views(v@) =~= text_entries(emoji@, title@, decimals_u64(values@)));
    v
}

/// One entry per number, its value the decimal notation of the number.
fn usize_entry_list(emoji: &str, title: &str, values: &Vec<usize>) -> (v: Vec<BannerEntry>)
    ensures
        entry_views(v@) == text_entries(emoji@, title@, decimals_usize(values@)),
{
    let mut v: Vec<BannerEntry> = Vec::new();
    let mut i: usize = 0;
    while i < values.len()
        invariant
            i <= values@.len(),
            v@.len() == i,
            forall|j: int| 0 <= j < i ==> #[trigger] v@[j]@ == entry_model(emoji@, title@, decimal(values@[j] as nat)),
        decreases values.len() - i,
    {
        let text = decimal_text(values[i] as u64);
        v.push(BannerEntry::new(emoji, title, text.as_str()));
        i = i + 1;
    }
    assert(entry_views(v@) =~= text_entries(emoji@, title@, decimals_usize(values@)));
    v
}

/// One entry per pair, its value the name, `sep` and the value of the pair.
fn pair_entry_list(emoji: &str, title: &str, pairs: &Vec<(String, String)>, sep: &str) -> (v: Vec<BannerEntry>)
    ensures
        entry_views(v@) == text_entries(emoji@, title@, pair_texts(pairs@, sep@)),
{
    let mut v: Vec<BannerEntry> = Vec::new();
    let mut i: usize = 0;
    while i < pairs.len()
        invariant
            i <= pairs@.len(),
            v@.len() == i,
            forall|j: int|
                0 <= j < i ==> #[trigger] v@[j]@ == entry_model(emoji@, title@, pairs@[j].0@ + sep@ + pairs@[j].1@),
        decreases pairs.len() - i,
    {
        let mut text = pairs[i].0.clone();
        text.append(sep);
        text.append(pairs[i].1.as_str());
        v.push(BannerEntry::new(emoji, title, text.as_str()));
        i = i + 1;
    }
    assert(entry_views(v@) =~= text_entries(emoji@, title@, pair_texts(pairs@, sep@)));
    v
}

/// The status codes in square brackets, each in the colour of its class.
fn code_list(codes: &Vec<u16>) -> (s: String)
    ensures
        is_code_list(s@, codes@),
{
    let mut parts: Vec<String> = Vec::new();
    let ghost mut colors_on: Seq<bool> = Seq::empty();
    let mut i: usize = 0;
    while i < codes.len()
        invariant
            i <= codes@.len(),
            parts@.len() == i,
            colors_on.len() == i,
            forall|j: int|
                0 <= j < i ==> #[trigger] parts@[j]@ == colorized(decimal(codes@[j] as nat), colors_on[j]),
        decreases codes.len() - i,
    {
        let code_text = decimal_text(codes[i] as u64);
        let shown = status_colorizer(code_text.as_str());
        proof {
            let on = if shown@ == colorized(code_text@, true) { true } else { false };
            colors_on = colors_on.push(on);
        }
        parts.push(shown);
        i = i + 1;
    }
    let joined = join_strings(&parts, ", ");
    let mut s = String::new();
    s.append("[");
    s.append(joined.as_str());
    s.append("]");
    proof {
        let items = Seq::new(codes@.len(), |k: int| colorized(decimal(codes@[k] as nat), colors_on[k]));
        assert(views(parts@) =~= items);
        assert(code_list_view(codes@, colors_on) == s@);
    }
    s
}

/// The list of extensions in square brackets, separated by a comma and a
/// space.
fn bracket_list(items: &Vec<String>) -> (s: String)
    ensures
        s@ == "["@ + join(views(items@), ", "@) + "]"@,
{
    let joined = join_strings(items, ", ");
    let mut s = String::new();
    s.append("[");
    s.append(joined.as_str());
    s.append("]");
    s
}

impl Banner {
    /// Create a new Banner from a Configuration and live targets
    pub fn new(tgts: &[String], config: &Configuration) -> (b: Self)
        ensures
            built_from(b@, tgts@, *config),
            b@.filter_size.len() == config.filter_size@.len(),
            forall|i: int|
                0 <= i < config.filter_size@.len() ==> #[trigger] b@.filter_size[i].value == decimal(
                    config.filter_size@[i] as nat,
                ) && b@.filter_size[i].title == "Size Filter"@,
            b@.filter_word_count.len() == config.filter_word_count@.len(),
            forall|i: int|
                0 <= i < config.filter_word_count@.len() ==> #[trigger] b@.filter_word_count[i].value == decimal(
                    config.filter_word_count@[i] as nat,
                ) && b@.filter_word_count[i].title == "Word Count Filter"@,
            b@.filter_line_count.len() == config.filter_line_count@.len(),
            forall|i: int|
                0 <= i < config.filter_line_count@.len() ==> #[trigger] b@.filter_line_count[i].value == decimal(
                    config.filter_line_count@[i] as nat,
                ) && b@.filter_line_count[i].title == "Line Count Filter"@,
    {
        let targets = text_entry_list("🎯", "Target Url", tgts);

        let status_codes = BannerEntry::new("👌", "Status Codes", code_list(&config.status_codes).as_str());
        let filter_status = BannerEntry::new(
            "🗑",
            "Status Code Filters",
            code_list(&config.filter_status).as_str(),
        );
        let replay_codes = BannerEntry::new(
            "📼",
            "Replay Proxy Codes",
            code_list(&config.replay_codes).as_str(),
        );

        let headers = pair_entry_list("🤯", "Header", &config.headers, ": ");
        let filter_size = u64_entry_list("💢", "Size Filter", &config.filter_size);
        let filter_similar = text_entry_list("💢", "Similarity Filter", config.filter_similar.as_slice());
        let filter_word_count = usize_entry_list("💢", "Word Count Filter", &config.filter_word_count);
        let filter_line_count = usize_entry_list("💢", "Line Count Filter", &config.filter_line_count);
        let filter_regex = text_entry_list("💢", "Regex Filter", config.filter_regex.as_slice());
        let queries = pair_entry_list("🤔", "Query Parameter", &config.queries, "=");

        let volume = ["🔈", "🔉", "🔊", "📢"];
        let verbosity = if 1 <= config.verbosity && config.verbosity <= 4 {
            let level = decimal_text(config.verbosity as u64);
            let speaker = volume[(config.verbosity - 1) as usize];
            BannerEntry::new(speaker, "Verbosity", level.as_str())
        } else {
            BannerEntry::default()
        };

        let no_recursion = if !config.no_recursion {
            let depth = if config.depth == 0 {
                "INFINITE".to_owned()
            } else {
                decimal_text(config.depth as u64)
            };
            BannerEntry::new("🔃", "Recursion Depth", depth.as_str())
        } else {
            BannerEntry::new("🚫", "Do Not Recurse", bool_text(config.no_recursion))
        };

        let scan_limit = BannerEntry::new(
            "🦥",
            "Concurrent Scan Limit",
            decimal_text(config.scan_limit as u64).as_str(),
        );

        let replay_proxy = BannerEntry::new("🎥", "Replay Proxy", config.replay_proxy.as_str());
        let cfg = BannerEntry::new("💉", "Config File", config.config.as_str());
        let proxy = BannerEntry::new("💎", "Proxy", config.proxy.as_str());
        let threads = BannerEntry::new("🚀", "Threads", decimal_text(config.threads as u64).as_str());
        let wordlist = BannerEntry::new("📖", "Wordlist", config.wordlist.as_str());
        let timeout = BannerEntry::new("💥", "Timeout (secs)", decimal_text(config.timeout).as_str());
        let user_agent = BannerEntry::new("🦡", "User-Agent", config.user_agent.as_str());
        let extract_links = BannerEntry::new("🔎", "Extract Links", bool_text(config.extract_links));
        let json = BannerEntry::new("🧔", "JSON Output", bool_text(config.json));
        let output = BannerEntry::new("💾", "Output File", config.output.as_str());
        let debug_log = BannerEntry::new("🪲", "Debugging Log", config.debug_log.as_str());
        let extensions = BannerEntry::new("💲", "Extensions", bracket_list(&config.extensions).as_str());
        let insecure = BannerEntry::new("🔓", "Insecure", bool_text(config.insecure));
        let redirects = BannerEntry::new("📍", "Follow Redirects", bool_text(config.redirects));
        let dont_filter = BannerEntry::new("🤪", "Filter Wildcards", bool_text(!config.dont_filter));
        let add_slash = BannerEntry::new("🪓", "Add Slash", bool_text(config.add_slash));
        let time_limit = BannerEntry::new("🕖", "Time Limit", config.time_limit.as_str());

        Banner {
            targets,
            status_codes,
            threads,
            wordlist,
            filter_status,
            timeout,
            user_agent,
            proxy,
            replay_codes,
            replay_proxy,
            headers,
            filter_size,
            filter_similar,
            filter_word_count,
            filter_line_count,
            filter_regex,
            extract_links,
            json,
            queries,
            output,
            debug_log,
            extensions,
            insecure,
            dont_filter,
            redirects,
            verbosity,
            add_slash,
            no_recursion,
            scan_limit,
            time_limit,
            config: cfg,
            version: VERSION.to_owned(),
            update_status: UpdateStatus::Unknown,
        }
    }
}


/// The header: the artwork with the author's line, which shows an emoji (or
/// two spaces where the terminal takes none) and the version, then the rule.
pub open spec fn header_view(version: Seq<char>, emoji_shown: bool) -> Seq<char> {
    ART_HEAD@ + (if emoji_shown { "🤓"@ } else { "  "@ }) + ART_VERSION@ + version + "\n"@ + TOP_RULE@
}

/// `text` is the header for `version`, with or without the emoji.
pub open spec fn is_header(text: Seq<char>, version: Seq<char>) -> bool {
    text == header_view(version, true) || text == header_view(version, false)
}

/// The footer: the rule, the instructions for the scan cancel menu with the
/// key and the menu's name each coloured or not, then the closing rule.
pub open spec fn footer_view(key_colored: bool, menu_colored: bool) -> Seq<char> {
    BOTTOM_RULE@ + "\n"@ + " 🏁  Press ["@ + painted("ENTER"@, Paint::Yellow, key_colored)
        + "] to use the "@ + painted("Scan Cancel Menu"@, Paint::BrightYellow, menu_colored) + "™"@
        + "\n"@ + CLOSING_RULE@
}

/// `text` is the footer, coloured in any of the ways the terminal allows.
pub open spec fn is_footer(text: Seq<char>) -> bool {
    ||| text == footer_view(false, false)
    ||| text == footer_view(false, true)
    ||| text == footer_view(true, false)
    ||| text == footer_view(true, true)
}

/// A line of the laid-out banner: fixed text, or an entry.
pub enum BannerLine {
    Text(String),
    Entry(BannerEntry),
}

/// What a line of the laid-out banner holds.
pub enum LineModel {
    Text(Seq<char>),
    Entry(EntryModel),
}

impl View for BannerLine {
    type V = LineModel;

    open spec fn view(&self) -> LineModel {
        match self {
            BannerLine::Text(t) => LineModel::Text(t@),
            BannerLine::Entry(e) => LineModel::Entry(e@),
        }
    }
}

/// The views of a list of lines.
#[verifier::opaque]
pub open spec fn line_views(lines: Seq<BannerLine>) -> Seq<LineModel> {
    lines.map_values(|l: BannerLine| l@)
}

/// Entries as lines.
#[verifier::opaque]
pub open spec fn as_lines(entries: Seq<EntryModel>) -> Seq<LineModel> {
    entries.map_values(|e: EntryModel| LineModel::Entry(e))
}

/// The entry as a line where `shown` holds, else nothing.
#[verifier::opaque]
pub open spec fn line_if(shown: bool, e: EntryModel) -> Seq<LineModel> {
    if shown { seq![LineModel::Entry(e)] } else { Seq::empty() }
}

/// The entry that tells of a newer release.
pub open spec fn new_version_entry() -> EntryModel {
    entry_model("🎉"@, "New Version Available"@, RELEASES_URL@)
}

/// The banner laid out for the settings `c`, between the header and the
/// footer given: the targets, threads, wordlist and status codes always; the
/// status code filters where there are any; timeout and user agent always;
/// then each optional setting where it is set (the replay codes together
/// with the replay proxy); the recursion setting always; the scan limit
/// where it is above 0; and the newer release where one is known.
pub open spec fn banner_lines(b: BannerModel, c: Configuration, header: Seq<char>, footer: Seq<char>) -> Seq<LineModel> {
    setting_lines(b, c, header)
        + line_if(b.update_status == UpdateStatus::OutOfDate, new_version_entry())
        + seq![LineModel::Text(footer)]
}

/// The header and the entries for the settings `c`, the first part of
/// `banner_lines`.
pub open spec fn setting_lines(b: BannerModel, c: Configuration, header: Seq<char>) -> Seq<LineModel> {
    seq![LineModel::Text(header)]
        + as_lines(b.targets)
        + line_if(true, b.threads)
        + line_if(true, b.wordlist)
        + line_if(true, b.status_codes)
        + line_if(c.filter_status@.len() != 0, b.filter_status)
        + line_if(true, b.timeout)
        + line_if(true, b.user_agent)
        + line_if(c.config@.len() != 0, b.config)
        + line_if(c.proxy@.len() != 0, b.proxy)
        + line_if(c.replay_proxy@.len() != 0, b.replay_proxy)
        + line_if(c.replay_proxy@.len() != 0, b.replay_codes)
        + as_lines(b.headers)
        + as_lines(b.filter_size)
        + as_lines(b.filter_similar)
        + as_lines(b.filter_word_count)
        + as_lines(b.filter_line_count)
        + as_lines(b.filter_regex)
        + line_if(c.extract_links, b.extract_links)
        + line_if(c.json, b.json)
        + as_lines(b.queries)
        + line_if(c.output@.len() != 0, b.output)
        + line_if(c.debug_log@.len() != 0, b.debug_log)
        + line_if(c.extensions@.len() != 0, b.extensions)
        + line_if(c.insecure, b.insecure)
        + line_if(c.redirects, b.redirects)
        + line_if(c.dont_filter, b.dont_filter)
        + line_if(1 <= c.verbosity <= 4, b.verbosity)
        + line_if(c.add_slash, b.add_slash)
        + line_if(true, b.no_recursion)
        + line_if(c.scan_limit > 0, b.scan_limit)
        + line_if(c.time_limit@.len() != 0, b.time_limit)
}

/// Appends a line of text.
fn push_text(lines: &mut Vec<BannerLine>, text: String)
    ensures
        line_views(final(lines)@) == line_views(old(lines)@) + seq![LineModel::Text(text@)],
{
    lines.push(BannerLine::Text(text));
    reveal(line_views);
    assert(line_views(lines@) =~= line_views(old(lines)@) + seq![LineModel::Text(text@)]);
}

/// Appends the entry where `shown` holds.
fn push_entry_if(lines: &mut Vec<BannerLine>, shown: bool, e: &BannerEntry)
    ensures
        line_views(final(lines)@) == line_views(old(lines)@) + line_if(shown, e@),
{
    reveal(line_views);
    reveal(line_if);
    if shown {
        lines.push(BannerLine::Entry(e.duplicate()));
        assert(line_views(lines@) =~= line_views(old(lines)@) + line_if(shown, e@));
    } else {
        assert(line_views(lines@) =~= line_views(old(lines)@) + line_if(shown, e@));
    }
}

/// Appends each of the entries.
fn push_entries(lines: &mut Vec<BannerLine>, entries: &Vec<BannerEntry>)
    ensures
        line_views(final(lines)@) == line_views(old(lines)@) + as_lines(entry_views(entries@)),
{
    reveal(line_views);
    reveal(as_lines);
    let ghost start = line_views(lines@);
    let mut i: usize = 0;
    while i < entries.len()
        invariant
            i <= entries@.len(),
            line_views(lines@) == start + as_lines(entry_views(entries@.take(i as int))),
        decreases entries.len() - i,
    {
        reveal(line_views);
        reveal(as_lines);
        let ghost before = line_views(lines@);
        lines.push(BannerLine::Entry(entries[i].duplicate()));
        assert(as_lines(entry_views(entries@.take(i + 1))) =~= as_lines(entry_views(entries@.take(i as int)))
            + seq![LineModel::Entry(entries@[i as int]@)]);
        assert(line_views(lines@) =~= before + seq![LineModel::Entry(entries@[i as int]@)]);
        i = i + 1;
    }
    assert(entries@.take(entries@.len() as int) =~= entries@);
}

impl Banner {
    /// get a fancy header for the banner
    pub fn header(&self) -> (h: String)
        ensures
            is_header(h@, self@.version),
    {
        let emoji = emoji_or("🤓", "  ");
        let mut h = String::new();
        h.append(ART_HEAD);
        h.append(emoji.as_str());
        h.append(ART_VERSION);
        h.append(self.version.as_str());
        h.append("\n");
        h.append(TOP_RULE);
        h
    }

    /// get a fancy footer for the banner
    pub fn footer(&self) -> (f: String)
        ensures
            is_footer(f@),
    {
        let key = paint("ENTER", Paint::Yellow);
        let menu = paint("Scan Cancel Menu", Paint::BrightYellow);
        let mut f = String::new();
        f.append(BOTTOM_RULE);
        f.append("\n");
        f.append(" 🏁  Press [");
        f.append(key.as_str());
        f.append("] to use the ");
        f.append(menu.as_str());
        f.append("™");
        f.append("\n");
        f.append(CLOSING_RULE);
        f
    }

    /// The lines of the banner, in the order in which they are written for
    /// the settings `config`: the header, the entries that `config` calls
    /// for, and the footer.
    pub fn print_to(&self, config: &Configuration) -> (lines: Vec<BannerLine>)
        ensures
            exists|header: Seq<char>, footer: Seq<char>|
                is_header(header, self@.version) && is_footer(footer)
                    && line_views(lines@) == #[trigger] banner_lines(self@, *config, header, footer),
    {
        let mut lines: Vec<BannerLine> = Vec::new();
        let header = self.header();
        let ghost h = header@;
        push_text(&mut lines, header);
        assert(line_views(lines@) =~= seq![LineModel::Text(h)]) by {
            reveal(line_views);
        }

        push_entries(&mut lines, &self.targets);
        push_entry_if(&mut lines, true, &self.threads);
        push_entry_if(&mut lines, true, &self.wordlist);
        push_entry_if(&mut lines, true, &self.status_codes);
        push_entry_if(&mut lines, config.filter_status.len() != 0, &self.filter_status);
        push_entry_if(&mut lines, true, &self.timeout);
        push_entry_if(&mut lines, true, &self.user_agent);
        push_entry_if(&mut lines, !config.config.as_str().is_empty(), &self.config);
        push_entry_if(&mut lines, !config.proxy.as_str().is_empty(), &self.proxy);
        let replaying = !config.replay_proxy.as_str().is_empty();
        push_entry_if(&mut lines, replaying, &self.replay_proxy);
        push_entry_if(&mut lines, replaying, &self.replay_codes);
        push_entries(&mut lines, &self.headers);
        push_entries(&mut lines, &self.filter_size);
        push_entries(&mut lines, &self.filter_similar);
        push_entries(&mut lines, &self.filter_word_count);
        push_entries(&mut lines, &self.filter_line_count);
        push_entries(&mut lines, &self.filter_regex);
        push_entry_if(&mut lines, config.extract_links, &self.extract_links);
        push_entry_if(&mut lines, config.json, &self.json);
        push_entries(&mut lines, &self.queries);
        push_entry_if(&mut lines, !config.output.as_str().is_empty(), &self.output);
        push_entry_if(&mut lines, !config.debug_log.as_str().is_empty(), &self.debug_log);
        push_entry_if(&mut lines, config.extensions.len() != 0, &self.extensions);
        push_entry_if(&mut lines, config.insecure, &self.insecure);
        push_entry_if(&mut lines, config.redirects, &self.redirects);
        push_entry_if(&mut lines, config.dont_filter, &self.dont_filter);
        push_entry_if(&mut lines, 1 <= config.verbosity && config.verbosity <= 4, &self.verbosity);
        push_entry_if(&mut lines, config.add_slash, &self.add_slash);
        push_entry_if(&mut lines, true, &self.no_recursion);
        push_entry_if(&mut lines, config.scan_limit > 0, &self.scan_limit);
        push_entry_if(&mut lines, !config.time_limit.as_str().is_empty(), &self.time_limit);
        let out_of_date = match self.update_status {
            UpdateStatus::OutOfDate => true,
            _ => false,
        };
        let update = BannerEntry::new("🎉", "New Version Available", RELEASES_URL);
        push_entry_if(&mut lines, out_of_date, &update);

        let footer = self.footer();
        let ghost f = footer@;
        push_text(&mut lines, footer);
        assert(line_views(lines@) == banner_lines(self@, *config, h, f));
        lines
    }
}


/// The banner after the reply `body` of the releases API: where the reply
/// names a tag, what is known of the latest release follows from that tag
/// and this version; else the banner stays as it is.
pub open spec fn after_reply(b: BannerModel, body: Seq<char>) -> BannerModel {
    match json_tag_name(body) {
        Some(Some(tag)) => BannerModel { update_status: status_for_tag(tag, b.version), ..b },
        _ => b,
    }
}

impl Banner {
    /// The version that the banner shows.
    pub fn version(&self) -> (v: &str)
        ensures
            v@ == self@.version,
    {
        self.version.as_str()
    }

    /// What is known of the latest release.
    pub fn update_status(&self) -> (s: UpdateStatus)
        ensures
            s == self@.update_status,
    {
        self.update_status
    }

    /// Records the latest release, whose tag is `tag`: up to date when the
    /// tag without its leading `v`s is this version, else out of date.
    pub fn apply_latest_tag(&mut self, tag: &str)
        ensures
            final(self)@ == (BannerModel { update_status: status_for_tag(tag@, old(self)@.version), ..old(self)@ }),
    {
        self.update_status = update_status_for(tag, self.version.as_str());
    }

    /// Records the latest release from the JSON reply `body` of the
    /// releases API, whose `tag_name` holds the tag, e.g. `v1.1.0`. Where the
    /// reply is no JSON or has no tag nothing changes and the error says so;
    /// the error for a reply without a tag holds the reply's JSON value.
    pub fn apply_release_reply(&mut self, body: &str) -> (res: Result<(), UpdateCheckError>)
        ensures
            final(self)@ == after_reply(old(self)@, body@),
            match json_tag_name(body@) {
                None => res matches Err(UpdateCheckError::Json(_)),
                Some(None) => res matches Err(UpdateCheckError::MissingTagName(j)) && json_compact(body@) == Some(j@),
                Some(Some(tag)) => res is Ok,
            },
    {
        match latest_tag(body) {
            Ok(tag) => {
                self.apply_latest_tag(tag.as_str());
                Ok(())
            },
            Err(e) => Err(e),
        }
    }
}

} // verus!
