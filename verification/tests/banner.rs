use feroxbuster::banner::{BannerLine, UpdateStatus};
use feroxbuster::entry::emoji_fallback;
use feroxbuster::update::UpdateCheckError;
use feroxbuster::{
    bool_text, decimal_text, missing_tag_message, release_url, join_strings, latest_tag, paint, status_colorizer, trim_version_prefix,
    update_status_for, Banner, BannerEntry, Configuration, Paint, VERSION,
};

fn plain_config() -> Configuration {
    Configuration {
        status_codes: vec![200, 301],
        filter_status: vec![],
        replay_codes: vec![200, 301],
        headers: vec![],
        filter_size: vec![],
        filter_similar: vec![],
        filter_word_count: vec![],
        filter_line_count: vec![],
        filter_regex: vec![],
        queries: vec![],
        verbosity: 0,
        no_recursion: false,
        depth: 4,
        scan_limit: 0,
        replay_proxy: String::new(),
        config: String::new(),
        proxy: String::new(),
        threads: 50,
        wordlist: "/wordlists/common.txt".to_string(),
        timeout: 7,
        user_agent: "feroxbuster/2.0.0".to_string(),
        extract_links: false,
        json: false,
        output: String::new(),
        debug_log: String::new(),
        extensions: vec![],
        insecure: false,
        redirects: false,
        dont_filter: false,
        add_slash: false,
        time_limit: String::new(),
    }
}

fn busy_config() -> Configuration {
    let mut c = plain_config();
    c.filter_status = vec![404];
    c.headers = vec![("Accept".to_string(), "text/html".to_string())];
    c.filter_size = vec![5120];
    c.filter_similar = vec!["http://a/b".to_string()];
    c.filter_word_count = vec![12];
    c.filter_line_count = vec![3];
    c.filter_regex = vec!["^ignore".to_string()];
    c.queries = vec![("token".to_string(), "abc".to_string())];
    c.verbosity = 3;
    c.no_recursion = true;
    c.scan_limit = 2;
    c.replay_proxy = "http://127.0.0.1:8081".to_string();
    c.config = "/etc/ferox.toml".to_string();
    c.proxy = "http://127.0.0.1:8080".to_string();
    c.extract_links = true;
    c.json = true;
    c.output = "out.txt".to_string();
    c.debug_log = "debug.log".to_string();
    c.extensions = vec!["php".to_string(), "txt".to_string()];
    c.insecure = true;
    c.redirects = true;
    c.dont_filter = true;
    c.add_slash = true;
    c.time_limit = "10m".to_string();
    c
}

fn targets() -> Vec<String> {
    vec!["http://one.example".to_string(), "http://two.example".to_string()]
}

/// (title, value) of each entry line; header and footer as ("", text).
fn titles(lines: &[BannerLine]) -> Vec<String> {
    lines
        .iter()
        .map(|l| match l {
            BannerLine::Text(_) => "<text>".to_string(),
            BannerLine::Entry(e) => e.title().to_string(),
        })
        .collect()
}

fn value_of(lines: &[BannerLine], title: &str) -> String {
    for l in lines {
        if let BannerLine::Entry(e) = l {
            if e.title() == title {
                return console::strip_ansi_codes(e.value()).to_string();
            }
        }
    }
    panic!("no entry titled {}", title)
}

fn emoji_of(lines: &[BannerLine], title: &str) -> String {
    for l in lines {
        if let BannerLine::Entry(e) = l {
            if e.title() == title {
                return e.emoji().to_string();
            }
        }
    }
    panic!("no entry titled {}", title)
}

#[test]
fn decimal_text_writes_decimal() {
    assert_eq!(decimal_text(0), "0");
    assert_eq!(decimal_text(7), "7");
    assert_eq!(decimal_text(1234), "1234");
    assert_eq!(decimal_text(u64::MAX), u64::MAX.to_string());
}

#[test]
fn bool_text_writes_words() {
    assert_eq!(bool_text(true), "true");
    assert_eq!(bool_text(false), "false");
}

#[test]
fn join_strings_puts_separator_between() {
    let parts = vec!["a".to_string(), "b".to_string(), "c".to_string()];
    assert_eq!(join_strings(&parts, ", "), "a, b, c");
    assert_eq!(join_strings(&vec![], ", "), "");
    assert_eq!(join_strings(&vec!["x".to_string()], ", "), "x");
}

#[test]
fn colours_follow_status_class() {
    console::set_colors_enabled(true);
    assert_eq!(status_colorizer("100"), "\x1b[34m100\x1b[0m");
    assert_eq!(status_colorizer("200"), "\x1b[32m200\x1b[0m");
    assert_eq!(status_colorizer("301"), "\x1b[33m301\x1b[0m");
    assert_eq!(status_colorizer("404"), "\x1b[31m404\x1b[0m");
    assert_eq!(status_colorizer("500"), "\x1b[31m500\x1b[0m");
    assert_eq!(status_colorizer("ERR"), "\x1b[31mERR\x1b[0m");
    assert_eq!(status_colorizer("WLD"), "\x1b[36mWLD\x1b[0m");
    assert_eq!(status_colorizer("600"), "600");
    assert_eq!(status_colorizer(""), "");
    assert_eq!(paint("ENTER", Paint::BrightYellow), "\x1b[38;5;11mENTER\x1b[0m");
    let mut c = plain_config();
    c.status_codes = vec![200, 404];
    let lines = Banner::new(&targets(), &c).print_to(&c);
    let mut shown = String::new();
    for l in &lines {
        if let BannerLine::Entry(e) = l {
            if e.title() == "Status Codes" {
                shown = e.value().to_string();
            }
        }
    }
    assert_eq!(shown, "[\x1b[32m200\x1b[0m, \x1b[31m404\x1b[0m]");
    console::set_colors_enabled(false);
    assert_eq!(status_colorizer("404"), "404");
    assert_eq!(paint("ENTER", Paint::Yellow), "ENTER");
}

#[test]
fn banner_entry_holds_its_parts() {
    let e = BannerEntry::new("🚀", "Threads", "50");
    assert_eq!(e.emoji(), "🚀");
    assert_eq!(e.title(), "Threads");
    assert_eq!(e.value(), "50");
    let d = BannerEntry::default();
    assert_eq!((d.emoji(), d.title(), d.value()), ("", "", ""));
}

#[test]
fn plain_banner_shows_always_printed_entries_only() {
    let banner = Banner::new(&targets(), &plain_config());
    let lines = banner.print_to(&plain_config());
    assert_eq!(
        titles(&lines),
        vec![
            "<text>",
            "Target Url",
            "Target Url",
            "Threads",
            "Wordlist",
            "Status Codes",
            "Timeout (secs)",
            "User-Agent",
            "Recursion Depth",
            "<text>",
        ]
    );
    assert_eq!(value_of(&lines, "Threads"), "50");
    assert_eq!(value_of(&lines, "Status Codes"), "[200, 301]");
    assert_eq!(value_of(&lines, "Recursion Depth"), "4");
    assert_eq!(value_of(&lines, "Timeout (secs)"), "7");
    assert_eq!(emoji_of(&lines, "Target Url"), "🎯");
}

#[test]
fn busy_banner_shows_every_entry_in_order() {
    let banner = Banner::new(&targets(), &busy_config());
    let lines = banner.print_to(&busy_config());
    assert_eq!(
        titles(&lines),
        vec![
            "<text>",
            "Target Url",
            "Target Url",
            "Threads",
            "Wordlist",
            "Status Codes",
            "Status Code Filters",
            "Timeout (secs)",
            "User-Agent",
            "Config File",
            "Proxy",
            "Replay Proxy",
            "Replay Proxy Codes",
            "Header",
            "Size Filter",
            "Similarity Filter",
            "Word Count Filter",
            "Line Count Filter",
            "Regex Filter",
            "Extract Links",
            "JSON Output",
            "Query Parameter",
            "Output File",
            "Debugging Log",
            "Extensions",
            "Insecure",
            "Follow Redirects",
            "Filter Wildcards",
            "Verbosity",
            "Add Slash",
            "Do Not Recurse",
            "Concurrent Scan Limit",
            "Time Limit",
            "<text>",
        ]
    );
    assert_eq!(value_of(&lines, "Header"), "Accept: text/html");
    assert_eq!(value_of(&lines, "Query Parameter"), "token=abc");
    assert_eq!(value_of(&lines, "Size Filter"), "5120");
    assert_eq!(value_of(&lines, "Extensions"), "[php, txt]");
    assert_eq!(value_of(&lines, "Filter Wildcards"), "false");
    assert_eq!(value_of(&lines, "Do Not Recurse"), "true");
    assert_eq!(value_of(&lines, "Verbosity"), "3");
    assert_eq!(emoji_of(&lines, "Verbosity"), "🔊");
    assert_eq!(value_of(&lines, "Status Code Filters"), "[404]");
    assert_eq!(value_of(&lines, "Replay Proxy Codes"), "[200, 301]");
    assert_eq!(value_of(&lines, "Concurrent Scan Limit"), "2");
}

#[test]
fn infinite_depth_when_depth_is_zero() {
    let mut c = plain_config();
    c.depth = 0;
    let lines = Banner::new(&targets(), &c).print_to(&c);
    assert_eq!(value_of(&lines, "Recursion Depth"), "INFINITE");
}

#[test]
fn verbosity_out_of_range_is_not_shown() {
    let mut c = plain_config();
    c.verbosity = 5;
    let lines = Banner::new(&targets(), &c).print_to(&c);
    assert!(!titles(&lines).contains(&"Verbosity".to_string()));
    c.verbosity = 1;
    let lines = Banner::new(&targets(), &c).print_to(&c);
    assert_eq!(emoji_of(&lines, "Verbosity"), "🔈");
    c.verbosity = 4;
    let lines = Banner::new(&targets(), &c).print_to(&c);
    assert_eq!(emoji_of(&lines, "Verbosity"), "📢");
}

#[test]
fn header_and_footer_frame_the_banner() {
    let c = plain_config();
    let banner = Banner::new(&targets(), &c);
    let lines = banner.print_to(&c);
    let header = match &lines[0] {
        BannerLine::Text(t) => t.clone(),
        _ => panic!("header expected"),
    };
    let footer = match lines.last().unwrap() {
        BannerLine::Text(t) => t.clone(),
        _ => panic!("footer expected"),
    };
    assert!(header.starts_with("\n ___  ___  __   __     __      __         __   ___\n"));
    let with_emoji = format!("by Ben \"epi\" Risher 🤓                 ver: {}\n", VERSION);
    let without = format!("by Ben \"epi\" Risher                   ver: {}\n", VERSION);
    assert!(header.contains(&with_emoji) || header.contains(&without));
    assert!(header.ends_with("───────────────────────────┬──────────────────────"));
    assert_eq!(
        console::strip_ansi_codes(&footer),
        "───────────────────────────┴──────────────────────\n 🏁  Press [ENTER] to use the Scan Cancel Menu™\n──────────────────────────────────────────────────"
    );
    assert_eq!(banner.version(), VERSION);
}

#[test]
fn tag_prefix_is_trimmed() {
    assert_eq!(trim_version_prefix("v1.1.0"), "1.1.0");
    assert_eq!(trim_version_prefix("vvv2"), "2");
    assert_eq!(trim_version_prefix("1.0v"), "1.0v");
    assert_eq!(trim_version_prefix("vvv"), "");
    assert_eq!(trim_version_prefix(""), "");
}

#[test]
fn tag_comparison_gives_status() {
    assert_eq!(update_status_for("v2.0.0", "2.0.0"), UpdateStatus::UpToDate);
    assert_eq!(update_status_for("2.0.0", "2.0.0"), UpdateStatus::UpToDate);
    assert_eq!(update_status_for("v2.1.0", "2.0.0"), UpdateStatus::OutOfDate);
}

#[test]
fn release_reply_sets_status() {
    let c = plain_config();
    let mut banner = Banner::new(&targets(), &c);
    assert_eq!(banner.update_status(), UpdateStatus::Unknown);
    let same = format!("{{\"tag_name\": \"v{}\", \"name\": \"x\"}}", VERSION);
    assert!(banner.apply_release_reply(&same).is_ok());
    assert_eq!(banner.update_status(), UpdateStatus::UpToDate);
    assert!(banner.apply_release_reply("{\"tag_name\": \"v99.0.0\"}").is_ok());
    assert_eq!(banner.update_status(), UpdateStatus::OutOfDate);
    let lines = banner.print_to(&c);
    assert_eq!(
        value_of(&lines, "New Version Available"),
        "https://github.com/epi052/feroxbuster/releases/latest"
    );
    assert_eq!(emoji_of(&lines, "New Version Available"), "🎉");
}

#[test]
fn bad_release_replies_leave_status() {
    let c = plain_config();
    let mut banner = Banner::new(&targets(), &c);
    match banner.apply_release_reply("not json at all") {
        Err(UpdateCheckError::Json(_)) => {}
        other => panic!("unexpected {:?}", other),
    }
    match banner.apply_release_reply("{ \"name\" : \"v1\" }") {
        Err(UpdateCheckError::MissingTagName(json)) => {
            assert_eq!(json, "{\"name\":\"v1\"}");
            assert_eq!(missing_tag_message(&json), "JSON has no tag_name: {\"name\":\"v1\"}");
        }
        other => panic!("unexpected {:?}", other),
    }
    match banner.apply_release_reply("{\"tag_name\": 7}") {
        Err(UpdateCheckError::MissingTagName(json)) => assert_eq!(json, "{\"tag_name\":7}"),
        other => panic!("unexpected {:?}", other),
    }
    match banner.apply_release_reply("[1, 2]") {
        Err(UpdateCheckError::MissingTagName(json)) => assert_eq!(json, "[1,2]"),
        other => panic!("unexpected {:?}", other),
    }
    assert_eq!(banner.update_status(), UpdateStatus::Unknown);
    banner.apply_latest_tag("v0.0.1");
    assert_eq!(banner.update_status(), UpdateStatus::OutOfDate);
}

#[test]
fn latest_tag_reads_tag_name() {
    assert_eq!(latest_tag("{\"tag_name\": \"v1.2.3\"}").unwrap(), "v1.2.3");
    assert!(latest_tag("[1, 2]").is_err());
}

#[test]
fn entry_line_pads_columns() {
    let e = BannerEntry::new("🎯", "Target Url", "http://a");
    assert_eq!(e.line("🎯"), " 🎯  Target Url            │ http://a");
    assert_eq!(e.line("    "), "     Target Url            │ http://a");
    let long = BannerEntry::new("x", "A title that is longer than the column", "v");
    assert_eq!(long.line("x"), " x  A title that is longer than the column│ v");
    assert_eq!(BannerEntry::default().line(""), format!(" {}{}│ ", " ".repeat(3), " ".repeat(22)));
}

#[test]
fn last_successful_check_decides_status() {
    let c = plain_config();
    let mut banner = Banner::new(&targets(), &c);
    assert!(banner.apply_release_reply("garbage").is_err());
    assert_eq!(banner.update_status(), UpdateStatus::Unknown);
    assert!(banner.apply_release_reply("{\"tag_name\": \"v99.0.0\"}").is_ok());
    assert!(banner.apply_release_reply("{}").is_err());
    assert_eq!(banner.update_status(), UpdateStatus::OutOfDate);
    let same = format!("{{\"tag_name\": \"{}\"}}", VERSION);
    assert!(banner.apply_release_reply(&same).is_ok());
    assert!(banner.apply_release_reply("not json").is_err());
    assert_eq!(banner.update_status(), UpdateStatus::UpToDate);
    assert_eq!(banner.version(), VERSION);
}

#[test]
fn release_url_parses_addresses() {
    assert!(release_url("https://api.github.com/repos/epi052/feroxbuster/releases/latest").is_ok());
    match release_url("not a url") {
        Err(UpdateCheckError::InvalidUrl(m)) => assert_eq!(m, "relative URL without a base"),
        other => panic!("unexpected {:?}", other.is_ok()),
    }
}

#[test]
fn emoji_fallback_is_square_of_width() {
    assert_eq!(emoji_fallback(2), "    ");
    assert_eq!(emoji_fallback(1), " ");
    assert_eq!(emoji_fallback(0), " ");
    assert_eq!(emoji_fallback(3), " ".repeat(9));
}

#[test]
fn terminal_line_shows_emoji_or_blanks() {
    let e = BannerEntry::new("🎯", "Target Url", "http://a");
    let line = e.terminal_line().unwrap();
    assert!(line == " 🎯  Target Url            │ http://a" || line == "     Target Url            │ http://a");
    let ascii = BannerEntry::new("ab", "T", "v");
    let line = ascii.terminal_line().unwrap();
    assert!(line == format!(" ab {}│ v", format!("{:<22}", "T")) || line == format!(" {}{}│ v", " ".repeat(4), format!("{:<22}", "T")));
}

#[test]
fn notice_is_last_before_footer() {
    let c = busy_config();
    let mut banner = Banner::new(&targets(), &c);
    let fresh = banner.print_to(&c);
    assert!(!titles(&fresh).contains(&"New Version Available".to_string()));
    assert!(banner.apply_release_reply("{\"tag_name\": \"v99.0.0\"}").is_ok());
    let t = titles(&banner.print_to(&c));
    assert_eq!(t[t.len() - 2], "New Version Available");
    assert_eq!(t[t.len() - 1], "<text>");
}
