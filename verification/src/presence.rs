use vstd::prelude::*;

use crate::banner::{as_lines, banner_lines, line_if, new_version_entry, BannerModel, LineModel, UpdateStatus};
use crate::config::Configuration;

verus! {

/// The lines of the blocks, one block after the other.
pub open spec fn concat_all(blocks: Seq<Seq<LineModel>>) -> Seq<LineModel>
    decreases blocks.len(),
{
    if blocks.len() == 0 {
        Seq::empty()
    } else {
        concat_all(blocks.drop_last()) + blocks.last()
    }
}

/// Block `i` of the laid-out banner: the header, then one block per
/// setting (empty where the setting leaves its entry out), the notice block
/// and the footer.
pub open spec fn banner_block(b: BannerModel, c: Configuration, header: Seq<char>, footer: Seq<char>, i: int) -> Seq<LineModel> {
    if i == 0 {
        seq![LineModel::Text(header)]
    } else if i == 1 {
        as_lines(b.targets)
    } else if i == 2 {
        line_if(true, b.threads)
    } else if i == 3 {
        line_if(true, b.wordlist)
    } else if i == 4 {
        line_if(true, b.status_codes)
    } else if i == 5 {
        line_if(c.filter_status@.len() != 0, b.filter_status)
    } else if i == 6 {
        line_if(true, b.timeout)
    } else if i == 7 {
        line_if(true, b.user_agent)
    } else if i == 8 {
        line_if(c.config@.len() != 0, b.config)
    } else if i == 9 {
        line_if(c.proxy@.len() != 0, b.proxy)
    } else if i == 10 {
        line_if(c.replay_proxy@.len() != 0, b.replay_proxy)
    } else if i == 11 {
        line_if(c.replay_proxy@.len() != 0, b.replay_codes)
    } else if i == 12 {
        as_lines(b.headers)
    } else if i == 13 {
        as_lines(b.filter_size)
    } else if i == 14 {
        as_lines(b.filter_similar)
    } else if i == 15 {
        as_lines(b.filter_word_count)
    } else if i == 16 {
        as_lines(b.filter_line_count)
    } else if i == 17 {
        as_lines(b.filter_regex)
    } else if i == 18 {
        line_if(c.extract_links, b.extract_links)
    } else if i == 19 {
        line_if(c.json, b.json)
    } else if i == 20 {
        as_lines(b.queries)
    } else if i == 21 {
        line_if(c.output@.len() != 0, b.output)
    } else if i == 22 {
        line_if(c.debug_log@.len() != 0, b.debug_log)
    } else if i == 23 {
        line_if(c.extensions@.len() != 0, b.extensions)
    } else if i == 24 {
        line_if(c.insecure, b.insecure)
    } else if i == 25 {
        line_if(c.redirects, b.redirects)
    } else if i == 26 {
        line_if(c.dont_filter, b.dont_filter)
    } else if i == 27 {
        line_if(1 <= c.verbosity <= 4, b.verbosity)
    } else if i == 28 {
        line_if(c.add_slash, b.add_slash)
    } else if i == 29 {
        line_if(true, b.no_recursion)
    } else if i == 30 {
        line_if(c.scan_limit > 0, b.scan_limit)
    } else if i == 31 {
        line_if(c.time_limit@.len() != 0, b.time_limit)
    } else if i == 32 {
        line_if(b.update_status == UpdateStatus::OutOfDate, new_version_entry())
    } else {
        seq![LineModel::Text(footer)]
    }
}

/// The laid-out banner cut into its blocks.
pub open spec fn banner_blocks(b: BannerModel, c: Configuration, header: Seq<char>, footer: Seq<char>) -> Seq<Seq<LineModel>> {
    Seq::new(34, |i: int| banner_block(b, c, header, footer, i))
}

proof fn lemma_concat_take(s: Seq<Seq<LineModel>>)
    ensures
        forall|k: int| 0 < k <= s.len() ==> #[trigger] concat_all(s.take(k)) == concat_all(s.take(k - 1)) + s[k - 1],
{
    assert forall|k: int| 0 < k <= s.len() implies #[trigger] concat_all(s.take(k)) == concat_all(s.take(k - 1)) + s[k - 1] by {
        assert(s.take(k).drop_last() =~= s.take(k - 1));
    }
}

/// The blocks put together are the laid-out banner.
pub proof fn lemma_lines_are_blocks(b: BannerModel, c: Configuration, header: Seq<char>, footer: Seq<char>)
    ensures
        banner_lines(b, c, header, footer) == concat_all(banner_blocks(b, c, header, footer)),
{
    let s = banner_blocks(b, c, header, footer);
    lemma_concat_take(s);
    assert(s.take(s.len() as int) =~= s);
    assert(s.take(0) =~= Seq::<Seq<LineModel>>::empty());
    assert(Seq::<LineModel>::empty() + seq![LineModel::Text(header)] =~= seq![LineModel::Text(header)]);
    assert(concat_all(s.take(34)) == banner_lines(b, c, header, footer));
}


/// Filling one empty block with a single line inserts that line into the
/// whole, after the lines of the blocks before it.
proof fn lemma_fill_block(s: Seq<Seq<LineModel>>, j: int, x: LineModel)
    requires
        0 <= j < s.len(),
        s[j] == Seq::<LineModel>::empty(),
    ensures
        concat_all(s.update(j, seq![x])) == concat_all(s).insert(concat_all(s.take(j)).len() as int, x),
        concat_all(s.take(j)).len() <= concat_all(s).len(),
    decreases s.len(),
{
    let t = s.update(j, seq![x]);
    if j == s.len() - 1 {
        assert(t.drop_last() =~= s.drop_last());
        assert(s.take(j) =~= s.drop_last());
        assert(concat_all(t) =~= concat_all(s).insert(concat_all(s.take(j)).len() as int, x));
    } else {
        lemma_fill_block(s.drop_last(), j, x);
        assert(t.drop_last() =~= s.drop_last().update(j, seq![x]));
        assert(s.drop_last().take(j) =~= s.take(j));
        assert(concat_all(t) =~= concat_all(s).insert(concat_all(s.take(j)).len() as int, x));
    }
}

/// Turning one block from empty to a single line inserts that line into the
/// laid-out banner and changes nothing else.
proof fn lemma_toggle(off: Seq<Seq<LineModel>>, on: Seq<Seq<LineModel>>, j: int, x: LineModel)
    requires
        0 <= j < off.len(),
        off[j] == Seq::<LineModel>::empty(),
        on == off.update(j, seq![x]),
    ensures
        exists|k: int| 0 <= k <= concat_all(off).len() && #[trigger] concat_all(off).insert(k, x) == concat_all(on),
{
    lemma_fill_block(off, j, x);
    let k = concat_all(off.take(j)).len() as int;
    assert(concat_all(off).insert(k, x) == concat_all(on));
}

/// Where the blocks for `on` are those for `off` with block `j` filled by
/// the single line `x`, the banner for `on` is the one for `off` with `x`
/// inserted.
proof fn lemma_banner_toggle(b: BannerModel, off: Configuration, on: Configuration, header: Seq<char>, footer: Seq<char>, j: int, x: LineModel)
    requires
        0 <= j < banner_blocks(b, off, header, footer).len(),
        banner_blocks(b, off, header, footer)[j] == Seq::<LineModel>::empty(),
        banner_blocks(b, on, header, footer) == banner_blocks(b, off, header, footer).update(j, seq![x]),
    ensures
        exists|k: int| 0 <= k <= banner_lines(b, off, header, footer).len()
            && #[trigger] banner_lines(b, off, header, footer).insert(k, x) == banner_lines(b, on, header, footer),
{
    lemma_lines_are_blocks(b, on, header, footer);
    lemma_lines_are_blocks(b, off, header, footer);
    lemma_toggle(banner_blocks(b, off, header, footer), banner_blocks(b, on, header, footer), j, x);
}

/// The Extract Links entry is shown exactly where links are extracted: with
/// everything else the same, turning the setting on inserts that entry
/// into the banner and changes nothing else, whatever the other settings.
pub proof fn law_extract_links_shown_by_its_setting(b: BannerModel, c: Configuration, header: Seq<char>, footer: Seq<char>)
    ensures
        exists|k: int| 0 <= k <= banner_lines(b, Configuration { extract_links: false, ..c }, header, footer).len()
            && #[trigger] banner_lines(b, Configuration { extract_links: false, ..c }, header, footer).insert(k, LineModel::Entry(b.extract_links))
                == banner_lines(b, Configuration { extract_links: true, ..c }, header, footer),
{
    let on = Configuration { extract_links: true, ..c };
    let off = Configuration { extract_links: false, ..c };
    let x = LineModel::Entry(b.extract_links);
    assert(banner_blocks(b, on, header, footer) == banner_blocks(b, off, header, footer).update(18, seq![x])
        && banner_blocks(b, off, header, footer)[18] == Seq::<LineModel>::empty()
        && banner_blocks(b, off, header, footer).len() == 34) by {
        reveal(line_if);
        assert(banner_blocks(b, on, header, footer) =~= banner_blocks(b, off, header, footer).update(18, seq![x]));
    }
    lemma_banner_toggle(b, off, on, header, footer, 18, x);
}


/// The JSON Output entry is shown exactly where results are written as JSON: with everything else
/// the same, turning the setting on inserts that entry into the banner and
/// changes nothing else, whatever the other settings.
pub proof fn law_json_shown_by_its_setting(b: BannerModel, c: Configuration, header: Seq<char>, footer: Seq<char>)
    ensures
        exists|k: int| 0 <= k <= banner_lines(b, Configuration { json: false, ..c }, header, footer).len()
            && #[trigger] banner_lines(b, Configuration { json: false, ..c }, header, footer).insert(k, LineModel::Entry(b.json))
                == banner_lines(b, Configuration { json: true, ..c }, header, footer),
{
    let on = Configuration { json: true, ..c };
    let off = Configuration { json: false, ..c };
    let x = LineModel::Entry(b.json);
    assert(banner_blocks(b, on, header, footer) == banner_blocks(b, off, header, footer).update(19, seq![x])
        && banner_blocks(b, off, header, footer)[19] == Seq::<LineModel>::empty()) by {
        reveal(line_if);
        assert(banner_blocks(b, on, header, footer) =~= banner_blocks(b, off, header, footer).update(19, seq![x]));
    }
    lemma_banner_toggle(b, off, on, header, footer, 19, x);
}

/// The Insecure entry is shown exactly where certificate errors are ignored: with everything else
/// the same, turning the setting on inserts that entry into the banner and
/// changes nothing else, whatever the other settings.
pub proof fn law_insecure_shown_by_its_setting(b: BannerModel, c: Configuration, header: Seq<char>, footer: Seq<char>)
    ensures
        exists|k: int| 0 <= k <= banner_lines(b, Configuration { insecure: false, ..c }, header, footer).len()
            && #[trigger] banner_lines(b, Configuration { insecure: false, ..c }, header, footer).insert(k, LineModel::Entry(b.insecure))
                == banner_lines(b, Configuration { insecure: true, ..c }, header, footer),
{
    let on = Configuration { insecure: true, ..c };
    let off = Configuration { insecure: false, ..c };
    let x = LineModel::Entry(b.insecure);
    assert(banner_blocks(b, on, header, footer) == banner_blocks(b, off, header, footer).update(24, seq![x])
        && banner_blocks(b, off, header, footer)[24] == Seq::<LineModel>::empty()) by {
        reveal(line_if);
        assert(banner_blocks(b, on, header, footer) =~= banner_blocks(b, off, header, footer).update(24, seq![x]));
    }
    lemma_banner_toggle(b, off, on, header, footer, 24, x);
}

/// The Follow Redirects entry is shown exactly where redirects are followed: with everything else
/// the same, turning the setting on inserts that entry into the banner and
/// changes nothing else, whatever the other settings.
pub proof fn law_redirects_shown_by_its_setting(b: BannerModel, c: Configuration, header: Seq<char>, footer: Seq<char>)
    ensures
        exists|k: int| 0 <= k <= banner_lines(b, Configuration { redirects: false, ..c }, header, footer).len()
            && #[trigger] banner_lines(b, Configuration { redirects: false, ..c }, header, footer).insert(k, LineModel::Entry(b.redirects))
                == banner_lines(b, Configuration { redirects: true, ..c }, header, footer),
{
    let on = Configuration { redirects: true, ..c };
    let off = Configuration { redirects: false, ..c };
    let x = LineModel::Entry(b.redirects);
    assert(banner_blocks(b, on, header, footer) == banner_blocks(b, off, header, footer).update(25, seq![x])
        && banner_blocks(b, off, header, footer)[25] == Seq::<LineModel>::empty()) by {
        reveal(line_if);
        assert(banner_blocks(b, on, header, footer) =~= banner_blocks(b, off, header, footer).update(25, seq![x]));
    }
    lemma_banner_toggle(b, off, on, header, footer, 25, x);
}

/// The Filter Wildcards entry is shown exactly where wildcard responses are kept: with everything else
/// the same, turning the setting on inserts that entry into the banner and
/// changes nothing else, whatever the other settings.
pub proof fn law_dont_filter_shown_by_its_setting(b: BannerModel, c: Configuration, header: Seq<char>, footer: Seq<char>)
    ensures
        exists|k: int| 0 <= k <= banner_lines(b, Configuration { dont_filter: false, ..c }, header, footer).len()
            && #[trigger] banner_lines(b, Configuration { dont_filter: false, ..c }, header, footer).insert(k, LineModel::Entry(b.dont_filter))
                == banner_lines(b, Configuration { dont_filter: true, ..c }, header, footer),
{
    let on = Configuration { dont_filter: true, ..c };
    let off = Configuration { dont_filter: false, ..c };
    let x = LineModel::Entry(b.dont_filter);
    assert(banner_blocks(b, on, header, footer) == banner_blocks(b, off, header, footer).update(26, seq![x])
        && banner_blocks(b, off, header, footer)[26] == Seq::<LineModel>::empty()) by {
        reveal(line_if);
        assert(banner_blocks(b, on, header, footer) =~= banner_blocks(b, off, header, footer).update(26, seq![x]));
    }
    lemma_banner_toggle(b, off, on, header, footer, 26, x);
}

/// The Add Slash entry is shown exactly where a slash is appended to each word: with everything else
/// the same, turning the setting on inserts that entry into the banner and
/// changes nothing else, whatever the other settings.
pub proof fn law_add_slash_shown_by_its_setting(b: BannerModel, c: Configuration, header: Seq<char>, footer: Seq<char>)
    ensures
        exists|k: int| 0 <= k <= banner_lines(b, Configuration { add_slash: false, ..c }, header, footer).len()
            && #[trigger] banner_lines(b, Configuration { add_slash: false, ..c }, header, footer).insert(k, LineModel::Entry(b.add_slash))
                == banner_lines(b, Configuration { add_slash: true, ..c }, header, footer),
{
    let on = Configuration { add_slash: true, ..c };
    let off = Configuration { add_slash: false, ..c };
    let x = LineModel::Entry(b.add_slash);
    assert(banner_blocks(b, on, header, footer) == banner_blocks(b, off, header, footer).update(28, seq![x])
        && banner_blocks(b, off, header, footer)[28] == Seq::<LineModel>::empty()) by {
        reveal(line_if);
        assert(banner_blocks(b, on, header, footer) =~= banner_blocks(b, off, header, footer).update(28, seq![x]));
    }
    lemma_banner_toggle(b, off, on, header, footer, 28, x);
}

/// The Status Code Filters entry is shown exactly where status codes are filtered: for settings `d` that
/// differ from `c` only there, the banner for `d` is the one for `c` with
/// that entry inserted, whatever the other settings.
pub proof fn law_filter_status_shown_by_its_setting(b: BannerModel, c: Configuration, d: Configuration, header: Seq<char>, footer: Seq<char>)
    requires
        d == (Configuration { filter_status: d.filter_status, ..c }),
        c.filter_status@.len() == 0,
        d.filter_status@.len() != 0,
    ensures
        exists|k: int| 0 <= k <= banner_lines(b, c, header, footer).len()
            && #[trigger] banner_lines(b, c, header, footer).insert(k, LineModel::Entry(b.filter_status)) == banner_lines(b, d, header, footer),
{
    let x = LineModel::Entry(b.filter_status);
    assert(banner_blocks(b, d, header, footer) == banner_blocks(b, c, header, footer).update(5, seq![x])
        && banner_blocks(b, c, header, footer)[5] == Seq::<LineModel>::empty()) by {
        reveal(line_if);
        assert(banner_blocks(b, d, header, footer) =~= banner_blocks(b, c, header, footer).update(5, seq![x]));
    }
    lemma_banner_toggle(b, c, d, header, footer, 5, x);
}

/// The Config File entry is shown exactly where a configuration file was read: for settings `d` that
/// differ from `c` only there, the banner for `d` is the one for `c` with
/// that entry inserted, whatever the other settings.
pub proof fn law_config_shown_by_its_setting(b: BannerModel, c: Configuration, d: Configuration, header: Seq<char>, footer: Seq<char>)
    requires
        d == (Configuration { config: d.config, ..c }),
        c.config@.len() == 0,
        d.config@.len() != 0,
    ensures
        exists|k: int| 0 <= k <= banner_lines(b, c, header, footer).len()
            && #[trigger] banner_lines(b, c, header, footer).insert(k, LineModel::Entry(b.config)) == banner_lines(b, d, header, footer),
{
    let x = LineModel::Entry(b.config);
    assert(banner_blocks(b, d, header, footer) == banner_blocks(b, c, header, footer).update(8, seq![x])
        && banner_blocks(b, c, header, footer)[8] == Seq::<LineModel>::empty()) by {
        reveal(line_if);
        assert(banner_blocks(b, d, header, footer) =~= banner_blocks(b, c, header, footer).update(8, seq![x]));
    }
    lemma_banner_toggle(b, c, d, header, footer, 8, x);
}

/// The Proxy entry is shown exactly where requests go through a proxy: for settings `d` that
/// differ from `c` only there, the banner for `d` is the one for `c` with
/// that entry inserted, whatever the other settings.
pub proof fn law_proxy_shown_by_its_setting(b: BannerModel, c: Configuration, d: Configuration, header: Seq<char>, footer: Seq<char>)
    requires
        d == (Configuration { proxy: d.proxy, ..c }),
        c.proxy@.len() == 0,
        d.proxy@.len() != 0,
    ensures
        exists|k: int| 0 <= k <= banner_lines(b, c, header, footer).len()
            && #[trigger] banner_lines(b, c, header, footer).insert(k, LineModel::Entry(b.proxy)) == banner_lines(b, d, header, footer),
{
    let x = LineModel::Entry(b.proxy);
    assert(banner_blocks(b, d, header, footer) == banner_blocks(b, c, header, footer).update(9, seq![x])
        && banner_blocks(b, c, header, footer)[9] == Seq::<LineModel>::empty()) by {
        reveal(line_if);
        assert(banner_blocks(b, d, header, footer) =~= banner_blocks(b, c, header, footer).update(9, seq![x]));
    }
    lemma_banner_toggle(b, c, d, header, footer, 9, x);
}

/// The Output File entry is shown exactly where results are written to a file: for settings `d` that
/// differ from `c` only there, the banner for `d` is the one for `c` with
/// that entry inserted, whatever the other settings.
pub proof fn law_output_shown_by_its_setting(b: BannerModel, c: Configuration, d: Configuration, header: Seq<char>, footer: Seq<char>)
    requires
        d == (Configuration { output: d.output, ..c }),
        c.output@.len() == 0,
        d.output@.len() != 0,
    ensures
        exists|k: int| 0 <= k <= banner_lines(b, c, header, footer).len()
            && #[trigger] banner_lines(b, c, header, footer).insert(k, LineModel::Entry(b.output)) == banner_lines(b, d, header, footer),
{
    let x = LineModel::Entry(b.output);
    assert(banner_blocks(b, d, header, footer) == banner_blocks(b, c, header, footer).update(21, seq![x])
        && banner_blocks(b, c, header, footer)[21] == Seq::<LineModel>::empty()) by {
        reveal(line_if);
        assert(banner_blocks(b, d, header, footer) =~= banner_blocks(b, c, header, footer).update(21, seq![x]));
    }
    lemma_banner_toggle(b, c, d, header, footer, 21, x);
}

/// The Debugging Log entry is shown exactly where a debugging log is written: for settings `d` that
/// differ from `c` only there, the banner for `d` is the one for `c` with
/// that entry inserted, whatever the other settings.
pub proof fn law_debug_log_shown_by_its_setting(b: BannerModel, c: Configuration, d: Configuration, header: Seq<char>, footer: Seq<char>)
    requires
        d == (Configuration { debug_log: d.debug_log, ..c }),
        c.debug_log@.len() == 0,
        d.debug_log@.len() != 0,
    ensures
        exists|k: int| 0 <= k <= banner_lines(b, c, header, footer).len()
            && #[trigger] banner_lines(b, c, header, footer).insert(k, LineModel::Entry(b.debug_log)) == banner_lines(b, d, header, footer),
{
    let x = LineModel::Entry(b.debug_log);
    assert(banner_blocks(b, d, header, footer) == banner_blocks(b, c, header, footer).update(22, seq![x])
        && banner_blocks(b, c, header, footer)[22] == Seq::<LineModel>::empty()) by {
        reveal(line_if);
        assert(banner_blocks(b, d, header, footer) =~= banner_blocks(b, c, header, footer).update(22, seq![x]));
    }
    lemma_banner_toggle(b, c, d, header, footer, 22, x);
}

/// The Extensions entry is shown exactly where extensions are appended: for settings `d` that
/// differ from `c` only there, the banner for `d` is the one for `c` with
/// that entry inserted, whatever the other settings.
pub proof fn law_extensions_shown_by_its_setting(b: BannerModel, c: Configuration, d: Configuration, header: Seq<char>, footer: Seq<char>)
    requires
        d == (Configuration { extensions: d.extensions, ..c }),
        c.extensions@.len() == 0,
        d.extensions@.len() != 0,
    ensures
        exists|k: int| 0 <= k <= banner_lines(b, c, header, footer).len()
            && #[trigger] banner_lines(b, c, header, footer).insert(k, LineModel::Entry(b.extensions)) == banner_lines(b, d, header, footer),
{
    let x = LineModel::Entry(b.extensions);
    assert(banner_blocks(b, d, header, footer) == banner_blocks(b, c, header, footer).update(23, seq![x])
        && banner_blocks(b, c, header, footer)[23] == Seq::<LineModel>::empty()) by {
        reveal(line_if);
        assert(banner_blocks(b, d, header, footer) =~= banner_blocks(b, c, header, footer).update(23, seq![x]));
    }
    lemma_banner_toggle(b, c, d, header, footer, 23, x);
}

/// The Verbosity entry is shown exactly where the verbosity is 1 to 4: for settings `d` that
/// differ from `c` only there, the banner for `d` is the one for `c` with
/// that entry inserted, whatever the other settings.
pub proof fn law_verbosity_shown_by_its_setting(b: BannerModel, c: Configuration, d: Configuration, header: Seq<char>, footer: Seq<char>)
    requires
        d == (Configuration { verbosity: d.verbosity, ..c }),
        !(1 <= c.verbosity <= 4),
        1 <= d.verbosity <= 4,
    ensures
        exists|k: int| 0 <= k <= banner_lines(b, c, header, footer).len()
            && #[trigger] banner_lines(b, c, header, footer).insert(k, LineModel::Entry(b.verbosity)) == banner_lines(b, d, header, footer),
{
    let x = LineModel::Entry(b.verbosity);
    assert(banner_blocks(b, d, header, footer) == banner_blocks(b, c, header, footer).update(27, seq![x])
        && banner_blocks(b, c, header, footer)[27] == Seq::<LineModel>::empty()) by {
        reveal(line_if);
        assert(banner_blocks(b, d, header, footer) =~= banner_blocks(b, c, header, footer).update(27, seq![x]));
    }
    lemma_banner_toggle(b, c, d, header, footer, 27, x);
}

/// The Concurrent Scan Limit entry is shown exactly where the scans are limited: for settings `d` that
/// differ from `c` only there, the banner for `d` is the one for `c` with
/// that entry inserted, whatever the other settings.
pub proof fn law_scan_limit_shown_by_its_setting(b: BannerModel, c: Configuration, d: Configuration, header: Seq<char>, footer: Seq<char>)
    requires
        d == (Configuration { scan_limit: d.scan_limit, ..c }),
        c.scan_limit == 0,
        d.scan_limit > 0,
    ensures
        exists|k: int| 0 <= k <= banner_lines(b, c, header, footer).len()
            && #[trigger] banner_lines(b, c, header, footer).insert(k, LineModel::Entry(b.scan_limit)) == banner_lines(b, d, header, footer),
{
    let x = LineModel::Entry(b.scan_limit);
    assert(banner_blocks(b, d, header, footer) == banner_blocks(b, c, header, footer).update(30, seq![x])
        && banner_blocks(b, c, header, footer)[30] == Seq::<LineModel>::empty()) by {
        reveal(line_if);
        assert(banner_blocks(b, d, header, footer) =~= banner_blocks(b, c, header, footer).update(30, seq![x]));
    }
    lemma_banner_toggle(b, c, d, header, footer, 30, x);
}

/// The Time Limit entry is shown exactly where the scan has a time limit: for settings `d` that
/// differ from `c` only there, the banner for `d` is the one for `c` with
/// that entry inserted, whatever the other settings.
pub proof fn law_time_limit_shown_by_its_setting(b: BannerModel, c: Configuration, d: Configuration, header: Seq<char>, footer: Seq<char>)
    requires
        d == (Configuration { time_limit: d.time_limit, ..c }),
        c.time_limit@.len() == 0,
        d.time_limit@.len() != 0,
    ensures
        exists|k: int| 0 <= k <= banner_lines(b, c, header, footer).len()
            && #[trigger] banner_lines(b, c, header, footer).insert(k, LineModel::Entry(b.time_limit)) == banner_lines(b, d, header, footer),
{
    let x = LineModel::Entry(b.time_limit);
    assert(banner_blocks(b, d, header, footer) == banner_blocks(b, c, header, footer).update(31, seq![x])
        && banner_blocks(b, c, header, footer)[31] == Seq::<LineModel>::empty()) by {
        reveal(line_if);
        assert(banner_blocks(b, d, header, footer) =~= banner_blocks(b, c, header, footer).update(31, seq![x]));
    }
    lemma_banner_toggle(b, c, d, header, footer, 31, x);
}

/// The replay proxy and its codes are shown exactly where hits are replayed
/// through a proxy: for settings `d` that differ from `c` only there, the
/// banner for `d` is the one for `c` with the two entries inserted one after
/// the other.
pub proof fn law_replay_shown_by_its_setting(b: BannerModel, c: Configuration, d: Configuration, header: Seq<char>, footer: Seq<char>)
    requires
        d == (Configuration { replay_proxy: d.replay_proxy, ..c }),
        c.replay_proxy@.len() == 0,
        d.replay_proxy@.len() != 0,
    ensures
        exists|k: int| 0 <= k <= banner_lines(b, c, header, footer).len()
            && #[trigger] banner_lines(b, c, header, footer).insert(k, LineModel::Entry(b.replay_proxy)).insert(
                k + 1,
                LineModel::Entry(b.replay_codes),
            ) == banner_lines(b, d, header, footer),
{
    let rp = LineModel::Entry(b.replay_proxy);
    let rc = LineModel::Entry(b.replay_codes);
    let s = banner_blocks(b, c, header, footer);
    let m = s.update(10, seq![rp]);
    let t = banner_blocks(b, d, header, footer);
    assert(t == m.update(11, seq![rc]) && s[10] == Seq::<LineModel>::empty() && m[11] == Seq::<LineModel>::empty()) by {
        reveal(line_if);
        assert(t =~= m.update(11, seq![rc]));
    }
    lemma_lines_are_blocks(b, c, header, footer);
    lemma_lines_are_blocks(b, d, header, footer);
    lemma_fill_block(s, 10, rp);
    lemma_fill_block(m, 11, rc);
    let k = concat_all(s.take(10)).len() as int;
    assert(m.take(11).drop_last() =~= s.take(10));
    assert(m.take(11).last() == seq![rp]);
    assert(concat_all(m.take(11)).len() == k + 1);
    assert(banner_lines(b, c, header, footer).insert(k, rp).insert(k + 1, rc) == banner_lines(b, d, header, footer));
}
} // verus!
