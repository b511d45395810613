use vstd::prelude::*;

use crate::banner::{after_reply, built_from, header_view, new_version_entry, setting_lines, as_lines, banner_lines, line_if, BannerModel, LineModel, UpdateStatus};
use crate::config::Configuration;
use crate::entry::{entry_line, EntryModel};
use crate::text::{bool_view, decimal};
use crate::update::{json_tag_name, status_for_tag, strip_leading_v};

verus! {

/// Appending keeps what a sequence holds.
proof fn lemma_append_keeps_all()
    ensures
        forall|a: Seq<LineModel>, b: Seq<LineModel>, x: LineModel|
            a.contains(x) ==> #[trigger] (a + b).contains(x),
{
    assert forall|a: Seq<LineModel>, b: Seq<LineModel>, x: LineModel|
        a.contains(x) implies #[trigger] (a + b).contains(x) by {
        let i = choose|i: int| 0 <= i < a.len() && a[i] == x;
        assert((a + b)[i] == x);
    }
}

/// Whatever the settings, the laid-out banner opens with the header and
/// closes with the footer.
pub proof fn law_header_first_footer_last(b: BannerModel, c: Configuration, header: Seq<char>, footer: Seq<char>)
    ensures
        banner_lines(b, c, header, footer).len() >= 2,
        banner_lines(b, c, header, footer)[0] == LineModel::Text(header),
        banner_lines(b, c, header, footer).last() == LineModel::Text(footer),
{
}

/// Whatever the settings, the banner shows the threads, the wordlist, the
/// status codes, the timeout, the user agent and the recursion setting.
pub proof fn law_always_shown(b: BannerModel, c: Configuration, header: Seq<char>, footer: Seq<char>)
    ensures
        banner_lines(b, c, header, footer).contains(LineModel::Entry(b.threads)),
        banner_lines(b, c, header, footer).contains(LineModel::Entry(b.wordlist)),
        banner_lines(b, c, header, footer).contains(LineModel::Entry(b.status_codes)),
        banner_lines(b, c, header, footer).contains(LineModel::Entry(b.timeout)),
        banner_lines(b, c, header, footer).contains(LineModel::Entry(b.user_agent)),
        banner_lines(b, c, header, footer).contains(LineModel::Entry(b.no_recursion)),
{
    lemma_append_keeps_all();
    reveal(line_if);
    assert forall|a: Seq<LineModel>, e: crate::entry::EntryModel|
        #[trigger] (a + line_if(true, e)).contains(LineModel::Entry(e)) by {
        assert((a + line_if(true, e))[a.len() as int] == LineModel::Entry(e));
    }
}


/// Where status codes are filtered, their filter is shown right after the
/// status codes that count as hits.
pub proof fn law_filters_follow_status_codes(b: BannerModel, c: Configuration, header: Seq<char>, footer: Seq<char>)
    requires
        c.filter_status@.len() != 0,
    ensures
        exists|i: int|
            0 <= i && i + 1 < banner_lines(b, c, header, footer).len()
                && banner_lines(b, c, header, footer)[i] == LineModel::Entry(b.status_codes)
                && #[trigger] banner_lines(b, c, header, footer)[i + 1] == LineModel::Entry(b.filter_status),
{
    let lines = banner_lines(b, c, header, footer);
    let p = seq![LineModel::Text(header)] + as_lines(b.targets) + line_if(true, b.threads) + line_if(true, b.wordlist)
        + line_if(true, b.status_codes);
    let q = p + line_if(c.filter_status@.len() != 0, b.filter_status);
    let i = p.len() - 1;
    assert(q[i] == LineModel::Entry(b.status_codes) && q[i + 1] == LineModel::Entry(b.filter_status)
        && q.len() == p.len() + 1) by {
        reveal(line_if);
    }
    assert(lines[i] == q[i]);
    assert(lines[i + 1] == q[i + 1]);
}

/// Where hits are replayed through a proxy, the replay codes are shown right
/// after the replay proxy.
pub proof fn law_replay_codes_follow_proxy(b: BannerModel, c: Configuration, header: Seq<char>, footer: Seq<char>)
    requires
        c.replay_proxy@.len() != 0,
    ensures
        exists|i: int|
            0 <= i && i + 1 < banner_lines(b, c, header, footer).len()
                && banner_lines(b, c, header, footer)[i] == LineModel::Entry(b.replay_proxy)
                && #[trigger] banner_lines(b, c, header, footer)[i + 1] == LineModel::Entry(b.replay_codes),
{
    let lines = banner_lines(b, c, header, footer);
    let o = seq![LineModel::Text(header)] + as_lines(b.targets) + line_if(true, b.threads) + line_if(true, b.wordlist)
        + line_if(true, b.status_codes) + line_if(c.filter_status@.len() != 0, b.filter_status)
        + line_if(true, b.timeout) + line_if(true, b.user_agent) + line_if(c.config@.len() != 0, b.config)
        + line_if(c.proxy@.len() != 0, b.proxy);
    let p = o + line_if(c.replay_proxy@.len() != 0, b.replay_proxy);
    let q = p + line_if(c.replay_proxy@.len() != 0, b.replay_codes);
    let i = o.len() as int;
    assert(q[i] == LineModel::Entry(b.replay_proxy) && q[i + 1] == LineModel::Entry(b.replay_codes)
        && q.len() == o.len() + 2) by {
        reveal(line_if);
    }
    assert(lines[i] == q[i]);
    assert(lines[i + 1] == q[i + 1]);
}

/// The verbosity, the replay settings and every other optional entry stand
/// in the banner only where their setting asks for them: the banner for
/// settings that ask for none of them holds, between header and footer,
/// the targets, threads, wordlist, status codes, timeout, user agent and
/// recursion setting, in this order, and nothing else.
pub proof fn law_plain_settings_plain_banner(b: BannerModel, c: Configuration, header: Seq<char>, footer: Seq<char>)
    requires
        c.filter_status@.len() == 0,
        c.config@.len() == 0,
        c.proxy@.len() == 0,
        c.replay_proxy@.len() == 0,
        b.headers.len() == 0,
        b.filter_size.len() == 0,
        b.filter_similar.len() == 0,
        b.filter_word_count.len() == 0,
        b.filter_line_count.len() == 0,
        b.filter_regex.len() == 0,
        b.queries.len() == 0,
        !c.extract_links,
        !c.json,
        c.output@.len() == 0,
        c.debug_log@.len() == 0,
        c.extensions@.len() == 0,
        !c.insecure,
        !c.redirects,
        !c.dont_filter,
        !(1 <= c.verbosity <= 4),
        !c.add_slash,
        c.scan_limit == 0,
        c.time_limit@.len() == 0,
        b.update_status != UpdateStatus::OutOfDate,
    ensures
        banner_lines(b, c, header, footer) == seq![LineModel::Text(header)] + as_lines(b.targets) + seq![
            LineModel::Entry(b.threads),
            LineModel::Entry(b.wordlist),
            LineModel::Entry(b.status_codes),
            LineModel::Entry(b.timeout),
            LineModel::Entry(b.user_agent),
            LineModel::Entry(b.no_recursion),
            LineModel::Text(footer),
        ],
{
    reveal(line_if);
    reveal(as_lines);
    assert(banner_lines(b, c, header, footer) =~= seq![LineModel::Text(header)] + as_lines(b.targets) + seq![
        LineModel::Entry(b.threads),
        LineModel::Entry(b.wordlist),
        LineModel::Entry(b.status_codes),
        LineModel::Entry(b.timeout),
        LineModel::Entry(b.user_agent),
        LineModel::Entry(b.no_recursion),
        LineModel::Text(footer),
    ]);
}

/// A release tag is compared without its leading `v`: the tag `v` followed
/// by this version means up to date, and so does the bare version.
pub proof fn law_tag_prefix_ignored(version: Seq<char>)
    requires
        version.len() == 0 || version[0] != 'v',
    ensures
        status_for_tag(seq!['v'] + version, version) == UpdateStatus::UpToDate,
        status_for_tag(version, version) == UpdateStatus::UpToDate,
{
    assert((seq!['v'] + version).drop_first() =~= version);
    assert(strip_leading_v(version) == version);
}

/// A tag that differs from this version in anything but leading `v`s means
/// out of date.
pub proof fn law_other_tag_out_of_date(tag: Seq<char>, version: Seq<char>)
    requires
        strip_leading_v(tag) != version,
    ensures
        status_for_tag(tag, version) == UpdateStatus::OutOfDate,
{
}

/// The banner after the replies `bodies` of the releases API, checked one
/// after the other.
pub open spec fn after_replies(b: BannerModel, bodies: Seq<Seq<char>>) -> BannerModel
    decreases bodies.len(),
{
    if bodies.len() == 0 {
        b
    } else {
        after_reply(after_replies(b, bodies.drop_last()), bodies.last())
    }
}

/// The tag named by the last of the replies `bodies` that names one.
pub open spec fn last_tag(bodies: Seq<Seq<char>>) -> Option<Seq<char>>
    decreases bodies.len(),
{
    if bodies.len() == 0 {
        None
    } else {
        match json_tag_name(bodies.last()) {
            Some(Some(tag)) => Some(tag),
            _ => last_tag(bodies.drop_last()),
        }
    }
}

/// Over any number of checks, only what is known of the latest release
/// changes: it follows from the tag of the last reply that named one, and
/// stays as it was where none did; a banner that knew nothing of the latest
/// release still knows nothing exactly when no reply named a tag.
pub proof fn law_checks_over_time(b: BannerModel, bodies: Seq<Seq<char>>)
    ensures
        after_replies(b, bodies) == (BannerModel {
            update_status: match last_tag(bodies) {
                None => b.update_status,
                Some(tag) => status_for_tag(tag, b.version),
            },
            ..b
        }),
        b.update_status == UpdateStatus::Unknown ==> (after_replies(b, bodies).update_status
            == UpdateStatus::Unknown <==> last_tag(bodies) is None),
    decreases bodies.len(),
{
    if bodies.len() > 0 {
        law_checks_over_time(b, bodies.drop_last());
    }
}

/// Under one emoji setting the header depends on the banner only through
/// its version: two banners have the same header exactly when they have the
/// same version.
pub proof fn law_header_by_version(v1: Seq<char>, v2: Seq<char>, emoji_shown: bool)
    ensures
        header_view(v1, emoji_shown) == header_view(v2, emoji_shown) <==> v1 == v2,
{
    if header_view(v1, emoji_shown) == header_view(v2, emoji_shown) {
        let h1 = header_view(v1, emoji_shown);
        let h2 = header_view(v2, emoji_shown);
        let p = crate::banner::ART_HEAD@ + (if emoji_shown { "🤓"@ } else { "  "@ }) + crate::banner::ART_VERSION@;
        let t = "\n"@ + crate::banner::TOP_RULE@;
        assert(h1 =~= p + v1 + t);
        assert(h2 =~= p + v2 + t);
        assert(v1.len() == v2.len());
        assert(v1 =~= h1.subrange(p.len() as int, (p.len() + v1.len()) as int));
        assert(v2 =~= h2.subrange(p.len() as int, (p.len() + v2.len()) as int));
    }
}

/// A banner just built shows no notice of a newer release: its lines are
/// the header and the setting entries, then the footer.
pub proof fn law_fresh_banner_has_no_notice(
    b: BannerModel,
    tgts: Seq<String>,
    c: Configuration,
    header: Seq<char>,
    footer: Seq<char>,
)
    requires
        built_from(b, tgts, c),
    ensures
        banner_lines(b, c, header, footer) == setting_lines(b, c, header) + seq![LineModel::Text(footer)],
{
    law_no_notice_unless_out_of_date(b, c, header, footer);
}

/// Where a newer release is known, its notice is the last line before the
/// footer.
pub proof fn law_notice_before_footer(b: BannerModel, c: Configuration, header: Seq<char>, footer: Seq<char>)
    requires
        b.update_status == UpdateStatus::OutOfDate,
    ensures
        banner_lines(b, c, header, footer) == setting_lines(b, c, header) + seq![
            LineModel::Entry(new_version_entry()),
            LineModel::Text(footer),
        ],
{
    reveal(line_if);
    assert(banner_lines(b, c, header, footer) =~= setting_lines(b, c, header) + seq![
        LineModel::Entry(new_version_entry()),
        LineModel::Text(footer),
    ]);
}

/// Where no newer release is known, no notice stands before the footer.
pub proof fn law_no_notice_unless_out_of_date(b: BannerModel, c: Configuration, header: Seq<char>, footer: Seq<char>)
    requires
        b.update_status != UpdateStatus::OutOfDate,
    ensures
        banner_lines(b, c, header, footer) == setting_lines(b, c, header) + seq![LineModel::Text(footer)],
{
    reveal(line_if);
    assert(setting_lines(b, c, header) + line_if(false, new_version_entry()) =~= setting_lines(b, c, header));
}

/// A banner built from the targets `tgts` and the settings `c` shows each
/// setting under its own title: one entry per target, header, filter value
/// and query parameter, the i-th showing the i-th value (numbers in
/// decimal, pairs joined by `: ` or `=`), and each single setting's entry
/// showing that setting's value.
pub proof fn law_entries_show_their_settings(b: BannerModel, tgts: Seq<String>, c: Configuration)
    requires
        built_from(b, tgts, c),
    ensures
        b.targets.len() == tgts.len(),
        forall|i: int|
            0 <= i < tgts.len() ==> #[trigger] b.targets[i].emoji == "🎯"@ && b.targets[i].title == "Target Url"@
                && b.targets[i].value == tgts[i]@,
        b.headers.len() == c.headers@.len(),
        forall|i: int|
            0 <= i < c.headers@.len() ==> #[trigger] b.headers[i].emoji == "🤯"@ && b.headers[i].title == "Header"@
                && b.headers[i].value == c.headers@[i].0@ + ": "@ + c.headers@[i].1@,
        b.filter_size.len() == c.filter_size@.len(),
        forall|i: int|
            0 <= i < c.filter_size@.len() ==> #[trigger] b.filter_size[i].emoji == "💢"@ && b.filter_size[i].title == "Size Filter"@
                && b.filter_size[i].value == decimal(c.filter_size@[i] as nat),
        b.filter_similar.len() == c.filter_similar@.len(),
        forall|i: int|
            0 <= i < c.filter_similar@.len() ==> #[trigger] b.filter_similar[i].emoji == "💢"@ && b.filter_similar[i].title == "Similarity Filter"@
                && b.filter_similar[i].value == c.filter_similar@[i]@,
        b.filter_word_count.len() == c.filter_word_count@.len(),
        forall|i: int|
            0 <= i < c.filter_word_count@.len() ==> #[trigger] b.filter_word_count[i].emoji == "💢"@ && b.filter_word_count[i].title == "Word Count Filter"@
                && b.filter_word_count[i].value == decimal(c.filter_word_count@[i] as nat),
        b.filter_line_count.len() == c.filter_line_count@.len(),
        forall|i: int|
            0 <= i < c.filter_line_count@.len() ==> #[trigger] b.filter_line_count[i].emoji == "💢"@ && b.filter_line_count[i].title == "Line Count Filter"@
                && b.filter_line_count[i].value == decimal(c.filter_line_count@[i] as nat),
        b.filter_regex.len() == c.filter_regex@.len(),
        forall|i: int|
            0 <= i < c.filter_regex@.len() ==> #[trigger] b.filter_regex[i].emoji == "💢"@ && b.filter_regex[i].title == "Regex Filter"@
                && b.filter_regex[i].value == c.filter_regex@[i]@,
        b.queries.len() == c.queries@.len(),
        forall|i: int|
            0 <= i < c.queries@.len() ==> #[trigger] b.queries[i].emoji == "🤔"@ && b.queries[i].title == "Query Parameter"@
                && b.queries[i].value == c.queries@[i].0@ + "="@ + c.queries@[i].1@,
        b.threads.title == "Threads"@ && b.threads.value == decimal(c.threads as nat),
        b.wordlist.title == "Wordlist"@ && b.wordlist.value == c.wordlist@,
        b.timeout.title == "Timeout (secs)"@ && b.timeout.value == decimal(c.timeout as nat),
        b.user_agent.title == "User-Agent"@ && b.user_agent.value == c.user_agent@,
        b.config.title == "Config File"@ && b.config.value == c.config@,
        b.proxy.title == "Proxy"@ && b.proxy.value == c.proxy@,
        b.replay_proxy.title == "Replay Proxy"@ && b.replay_proxy.value == c.replay_proxy@,
        b.extract_links.title == "Extract Links"@ && b.extract_links.value == bool_view(c.extract_links),
        b.json.title == "JSON Output"@ && b.json.value == bool_view(c.json),
        b.output.title == "Output File"@ && b.output.value == c.output@,
        b.debug_log.title == "Debugging Log"@ && b.debug_log.value == c.debug_log@,
        b.insecure.title == "Insecure"@ && b.insecure.value == bool_view(c.insecure),
        b.redirects.title == "Follow Redirects"@ && b.redirects.value == bool_view(c.redirects),
        b.dont_filter.title == "Filter Wildcards"@ && b.dont_filter.value == bool_view(!c.dont_filter),
        b.add_slash.title == "Add Slash"@ && b.add_slash.value == bool_view(c.add_slash),
        b.scan_limit.title == "Concurrent Scan Limit"@ && b.scan_limit.value == decimal(c.scan_limit as nat),
        b.time_limit.title == "Time Limit"@ && b.time_limit.value == c.time_limit@,
{
}

/// The width of a column of at least `width` characters holding `len` of
/// them.
pub open spec fn column(len: nat, width: nat) -> int {
    if len >= width { len as int } else { width as int }
}

/// The terminal line of an entry is a space, the shown emoji padded with
/// spaces to its column of 3, the title padded with spaces to its column of
/// 22, a bar, a space and the whole value: nothing is cut, whatever the
/// lengths.
pub proof fn law_entry_line_layout(shown: Seq<char>, e: EntryModel)
    ensures
        entry_line(shown, e).len() == 1 + column(shown.len(), 3) + column(e.title.len(), 22) + 2 + e.value.len(),
        entry_line(shown, e)[0] == ' ',
        entry_line(shown, e).subrange(1, 1 + shown.len() as int) == shown,
        forall|i: int|
            1 + shown.len() as int <= i < 1 + column(shown.len(), 3) ==> #[trigger] entry_line(shown, e)[i] == ' ',
        entry_line(shown, e).subrange(1 + column(shown.len(), 3), 1 + column(shown.len(), 3) + e.title.len() as int)
            == e.title,
        forall|i: int|
            1 + column(shown.len(), 3) + e.title.len() as int <= i < 1 + column(shown.len(), 3) + column(e.title.len(), 22)
                ==> #[trigger] entry_line(shown, e)[i] == ' ',
        entry_line(shown, e)[1 + column(shown.len(), 3) + column(e.title.len(), 22)] == '│',
        entry_line(shown, e)[2 + column(shown.len(), 3) + column(e.title.len(), 22)] == ' ',
        entry_line(shown, e).subrange(
            3 + column(shown.len(), 3) + column(e.title.len(), 22),
            entry_line(shown, e).len() as int,
        ) == e.value,
{
    reveal_strlit(" ");
    reveal_strlit("│ ");
    let w1 = column(shown.len(), 3);
    let w2 = column(e.title.len(), 22);
    let line = entry_line(shown, e);
    assert(" "@ =~= seq![' ']);
    assert("│ "@ =~= seq!['│', ' ']);
    assert(line.subrange(1, 1 + shown.len() as int) =~= shown);
    assert(line.subrange(1 + w1, 1 + w1 + e.title.len() as int) =~= e.title);
    assert(line.subrange(3 + w1 + w2, line.len() as int) =~= e.value);
}
} // verus!
