//! The ZFS module: reading `zpool list` output and the metrics it yields.
use vstd::prelude::*;
use vstd::arithmetic::power::pow;
use crate::model::{is_sample, label_views, Metric, ModuleMetadata, MonitorModule};
use crate::split::{is_listed, lines, split_lines, split_words, trim, trim_ws, views, words};
use crate::text::{append, chars_of, is_numeric, owned, push_char, same_text, to_uppercase, unicode_numeric, unicode_uppercase};

verus! {

/// The module's configuration.
pub struct ZfsConfig {
    /// The pools to report on.
    pub pools: Vec<String>,
    /// Report fixed sample values instead of running `zpool`.
    pub mock: bool,
}

/// The ZFS storage module.
pub struct ZfsModule;

impl ZfsModule {
    pub fn new() -> (m: ZfsModule) {
        ZfsModule
    }
}

impl MonitorModule for ZfsModule {
    fn metadata(&self) -> (m: ModuleMetadata)
        ensures
            m.name@ == "ZFS Storage"@,
            m.version@ == "0.1.0"@,
            m.author@ == "Metrics Core Team"@,
            m.description@ == "Check status and usage of local ZFS pools"@,
            m.default_config@ == "{\n  \"pools\": [\"tank\"],\n  \"mock\": true\n}"@,
    {
        ModuleMetadata {
            name: owned("ZFS Storage"),
            version: owned("0.1.0"),
            author: owned("Metrics Core Team"),
            description: owned("Check status and usage of local ZFS pools"),
            default_config: owned("{\n  \"pools\": [\"tank\"],\n  \"mock\": true\n}"),
        }
    }
}

// ---------------------------------------------------------------------------
// Sizes such as `1.81T`.
// ---------------------------------------------------------------------------
/// A size as `zpool` prints it: its number (still as text) and the unit's
/// factor. The size in bytes is the number times the factor; a number that
/// does not parse counts as zero.
pub struct SizeParts {
    pub number: String,
    pub multiplier: u64,
}

/// A character that belongs to the number of a size.
pub open spec fn number_char(c: char) -> bool {
    unicode_numeric(c) || c == '.'
}

/// The length of the run of number characters at the start of `t`.
pub open spec fn number_len(t: Seq<char>) -> nat
    decreases t.len(),
{
    if t.len() > 0 && number_char(t[0]) {
        1 + number_len(t.drop_first())
    } else {
        0
    }
}

/// The factor of a unit suffix: binary multiples for T, G, M and K (with or
/// without a trailing B), one for anything else.
pub open spec fn unit_factor(u: Seq<char>) -> u64 {
    if u == "T"@ || u == "TB"@ {
        1_099_511_627_776
    } else if u == "G"@ || u == "GB"@ {
        1_073_741_824
    } else if u == "M"@ || u == "MB"@ {
        1_048_576
    } else if u == "K"@ || u == "KB"@ {
        1_024
    } else {
        1
    }
}

/// The text of a size after trimming and upper-casing.
pub open spec fn size_text(s: Seq<char>) -> Seq<char> {
    unicode_uppercase(trim_ws(s))
}

proof fn lemma_number_len(t: Seq<char>, i: int)
    requires
        0 <= i <= t.len(),
        forall|j: int| 0 <= j < i ==> number_char(#[trigger] t[j]),
        i == t.len() || !number_char(t[i]),
    ensures
        number_len(t) == i,
    decreases i,
{
    if i > 0 {
        assert forall|j: int| 0 <= j < i - 1 implies number_char(#[trigger] t.drop_first()[j]) by {
            assert(t.drop_first()[j] == t[j + 1]);
        }
        if i < t.len() {
            assert(t.drop_first()[i - 1] == t[i]);
        }
        lemma_number_len(t.drop_first(), i - 1);
    }
}

fn unit_factor_of(u: &str) -> (f: u64)
    ensures
        f == unit_factor(u@),
{
    if same_text(u, "T") || same_text(u, "TB") {
        1_099_511_627_776
    } else if same_text(u, "G") || same_text(u, "GB") {
        1_073_741_824
    } else if same_text(u, "M") || same_text(u, "MB") {
        1_048_576
    } else if same_text(u, "K") || same_text(u, "KB") {
        1_024
    } else {
        1
    }
}

/// Splits a size into its number and its unit's factor.
pub fn split_size(s: &str) -> (r: SizeParts)
    ensures
        r.number@ == size_text(s@).take(number_len(size_text(s@)) as int),
        r.multiplier == unit_factor(size_text(s@).skip(number_len(size_text(s@)) as int)),
{
    let trimmed = trim(s);
    let upper = to_uppercase(trimmed.as_str());
    let ghost t = size_text(s@);
    let v = chars_of(upper.as_str());
    let n = v.len();
    let mut i: usize = 0;
    while i < n && (is_numeric(v[i]) || v[i] == '.')
        invariant
            n == v@.len(),
            v@ == t,
            i <= n,
            forall|j: int| 0 <= j < i ==> number_char(#[trigger] t[j]),
        decreases n - i,
    {
        i = i + 1;
    }
    proof {
        lemma_number_len(t, i as int);
    }
    let mut number = String::new();
    let mut unit = String::new();
    for j in 0..n
        invariant
            n == v@.len(),
            v@ == t,
            i <= n,
            number@ == t.take(if j < i { j as int } else { i as int }),
            unit@ == if j <= i { Seq::<char>::empty() } else { t.subrange(i as int, j as int) },
    {
        if j < i {
            push_char(&mut number, v[j]);
            assert(t.take(j + 1) == t.take(j as int).push(t[j as int]));
        } else {
            push_char(&mut unit, v[j]);
            assert(t.subrange(i as int, j + 1) == (if j <= i { Seq::<char>::empty() } else { t.subrange(i as int, j as int) }).push(t[j as int]));
        }
    }
    assert(unit@ == t.skip(i as int));
    SizeParts { number, multiplier: unit_factor_of(unit.as_str()) }
}

// ---------------------------------------------------------------------------
// `zpool list -H -o name,size,alloc,free,health`.
// ---------------------------------------------------------------------------
/// One pool as `zpool list` reports it.
pub struct PoolRow {
    pub name: String,
    pub size: String,
    pub alloc: String,
    pub free: String,
    /// The health column reads `ONLINE`.
    pub online: bool,
}

/// The word lists of the lines that describe a configured pool: lines with at
/// least five words whose first word is one of `pools`.
pub open spec fn selected_rows(ls: Seq<Seq<char>>, pools: Seq<Seq<char>>) -> Seq<Seq<Seq<char>>>
    decreases ls.len(),
{
    if ls.len() == 0 {
        Seq::empty()
    } else {
        let prev = selected_rows(ls.drop_last(), pools);
        let w = words(ls.last());
        if w.len() >= 5 && pools.contains(w[0]) {
            prev.push(w)
        } else {
            prev
        }
    }
}

/// `r` holds the first five words of a line.
pub open spec fn row_of(r: PoolRow, w: Seq<Seq<char>>) -> bool {
    &&& r.name@ == w[0]
    &&& r.size@ == w[1]
    &&& r.alloc@ == w[2]
    &&& r.free@ == w[3]
    &&& r.online == (w[4] == "ONLINE"@)
}

/// The configured pools that `zpool list -H -o name,size,alloc,free,health`
/// reported in `stdout`, in the order of its lines.
pub fn parse_zpool_list(stdout: &str, pools: &Vec<String>) -> (rows: Vec<PoolRow>)
    ensures
        rows@.len() == selected_rows(lines(stdout@), views(pools@)).len(),
        forall|i: int| 0 <= i < rows@.len() ==> row_of(#[trigger] rows@[i], selected_rows(lines(stdout@), views(pools@))[i]),
{
    let ls = split_lines(stdout);
    let ghost lv = lines(stdout@);
    let ghost pv = views(pools@);
    let mut rows: Vec<PoolRow> = Vec::new();
    let n = ls.len();
    for i in 0..n
        invariant
            n == ls@.len(),
            views(ls@) == lv,
            pv == views(pools@),
            rows@.len() == selected_rows(lv.take(i as int), pv).len(),
            forall|k: int| 0 <= k < rows@.len() ==> row_of(#[trigger] rows@[k], selected_rows(lv.take(i as int), pv)[k]),
    {
        let ghost prev = selected_rows(lv.take(i as int), pv);
        assert(lv.take(i + 1).drop_last() == lv.take(i as int));
        assert(lv.take(i + 1).last() == ls@[i as int]@);
        let w = split_words(ls[i].as_str());
        if w.len() >= 5 && is_listed(w[0].as_str(), pools) {
            let row = PoolRow {
                name: owned(w[0].as_str()),
                size: owned(w[1].as_str()),
                alloc: owned(w[2].as_str()),
                free: owned(w[3].as_str()),
                online: same_text(w[4].as_str(), "ONLINE"),
            };
            assert(views(w@)[0] == w@[0]@ && views(w@)[1] == w@[1]@ && views(w@)[2] == w@[2]@);
            assert(views(w@)[3] == w@[3]@ && views(w@)[4] == w@[4]@);
            rows.push(row);
            assert(selected_rows(lv.take(i + 1), pv) == prev.push(views(w@)));
            assert forall|k: int| 0 <= k < rows@.len() implies row_of(#[trigger] rows@[k], selected_rows(lv.take(i + 1), pv)[k]) by {
                if k < rows@.len() - 1 {
                    assert(rows@[k] == rows@.drop_last()[k]);
                }
            }
        } else {
            assert(views(w@).len() == w@.len());
            if w.len() >= 5 {
                assert(views(w@)[0] == w@[0]@);
            }
        }
    }
    assert(lv.take(n as int) == lv);
    rows
}

// ---------------------------------------------------------------------------
// Metrics.
// ---------------------------------------------------------------------------
/// The four samples of one pool at `ms[at..at + 4]`: size, used, free and
/// health (1 when online, else 0), each labelled with the pool.
pub open spec fn is_pool_block(
    ms: Seq<Metric>,
    at: int,
    pool: Seq<char>,
    size: Seq<char>,
    used: Seq<char>,
    free: Seq<char>,
    health: Seq<char>,
    ts: i64,
) -> bool {
    let labels = seq![("pool"@, pool)];
    &&& is_sample(ms[at], "zfs_pool_size_bytes"@, size, labels, ts)
    &&& is_sample(ms[at + 1], "zfs_pool_used_bytes"@, used, labels, ts)
    &&& is_sample(ms[at + 2], "zfs_pool_free_bytes"@, free, labels, ts)
    &&& is_sample(ms[at + 3], "zfs_pool_health"@, health, labels, ts)
}

/// The health sample's value.
pub open spec fn health_value(online: bool) -> Seq<char> {
    if online { "1"@ } else { "0"@ }
}

/// The `b`-th block of four samples in `ms` reports on one of `pools`: its
/// samples carry that pool as their label, and its health is 1 or 0.
pub open spec fn is_zfs_block(ms: Seq<Metric>, b: int, pools: Seq<Seq<char>>, ts: i64) -> bool {
    let at = 4 * b;
    let pool = label_views(ms[at].labels@)[0].1;
    &&& pools.contains(pool)
    &&& (ms[at + 3].value@ == "1"@ || ms[at + 3].value@ == "0"@)
    &&& is_pool_block(ms, at, pool, ms[at].value@, ms[at + 1].value@, ms[at + 2].value@, ms[at + 3].value@, ts)
}

/// `ms` is what a collection writes for the configured `pools` at `ts`:
/// consecutive blocks of size, used, free and health samples, each block about
/// one configured pool.
pub open spec fn is_zfs_report(ms: Seq<Metric>, pools: Seq<Seq<char>>, ts: i64) -> bool {
    &&& ms.len() % 4 == 0
    &&& forall|b: int| 0 <= b < ms.len() / 4 ==> #[trigger] is_zfs_block(ms, b, pools, ts)
}

/// Appends the four samples of one pool.
pub fn push_pool_metrics(
    out: &mut Vec<Metric>,
    pool: &str,
    size: &str,
    used: &str,
    free: &str,
    health: &str,
    ts: i64,
)
    ensures
        final(out)@.len() == old(out)@.len() + 4,
        final(out)@.take(old(out)@.len() as int) == old(out)@,
        is_pool_block(final(out)@, old(out)@.len() as int, pool@, size@, used@, free@, health@, ts),
{
    out.push(Metric::with_label("zfs_pool_size_bytes", size, "pool", pool, ts));
    out.push(Metric::with_label("zfs_pool_used_bytes", used, "pool", pool, ts));
    out.push(Metric::with_label("zfs_pool_free_bytes", free, "pool", pool, ts));
    out.push(Metric::with_label("zfs_pool_health", health, "pool", pool, ts));
    assert(final(out)@.take(old(out)@.len() as int) =~= old(out)@);
}

/// The samples of one pool reported by `zpool`, given its size, used and free
/// bytes already written as numbers.
pub fn pool_row_metrics(out: &mut Vec<Metric>, row: &PoolRow, size: &str, used: &str, free: &str, ts: i64)
    ensures
        final(out)@.len() == old(out)@.len() + 4,
        final(out)@.take(old(out)@.len() as int) == old(out)@,
        is_pool_block(final(out)@, old(out)@.len() as int, row.name@, size@, used@, free@, health_value(row.online), ts),
{
    let health = if row.online { "1" } else { "0" };
    push_pool_metrics(out, row.name.as_str(), size, used, free, health, ts);
}

/// The sizes of one reported pool, written as numbers: size, used and free bytes.
pub struct PoolSizes {
    pub size: String,
    pub used: String,
    pub free: String,
}

/// The samples of the pools `zpool` reported: four per row, in the order of
/// the rows, with each row's sizes.
pub fn zpool_metrics(rows: &Vec<PoolRow>, sizes: &Vec<PoolSizes>, ts: i64) -> (r: Vec<Metric>)
    requires
        sizes@.len() == rows@.len(),
    ensures
        r@.len() == 4 * rows@.len(),
        forall|i: int| 0 <= i < rows@.len() ==> #[trigger] is_pool_block(r@, 4 * i, rows@[i].name@,
            sizes@[i].size@, sizes@[i].used@, sizes@[i].free@, health_value(rows@[i].online), ts),
{
    let mut out: Vec<Metric> = Vec::new();
    let n = rows.len();
    for i in 0..n
        invariant
            n == rows@.len(),
            sizes@.len() == n,
            out@.len() == 4 * i,
            forall|k: int| 0 <= k < i ==> #[trigger] is_pool_block(out@, 4 * k, rows@[k].name@,
                sizes@[k].size@, sizes@[k].used@, sizes@[k].free@, health_value(rows@[k].online), ts),
    {
        let ghost before = out@;
        let s = &sizes[i];
        pool_row_metrics(&mut out, &rows[i], s.size.as_str(), s.used.as_str(), s.free.as_str(), ts);
        assert forall|k: int| 0 <= k < i + 1 implies #[trigger] is_pool_block(out@, 4 * k, rows@[k].name@,
            sizes@[k].size@, sizes@[k].used@, sizes@[k].free@, health_value(rows@[k].online), ts) by {
            if k < i {
                assert(is_pool_block(before, 4 * k, rows@[k].name@, sizes@[k].size@, sizes@[k].used@,
                    sizes@[k].free@, health_value(rows@[k].online), ts));
                assert(out@[4 * k] == before[4 * k]);
                assert(out@[4 * k + 1] == before[4 * k + 1]);
                assert(out@[4 * k + 2] == before[4 * k + 2]);
                assert(out@[4 * k + 3] == before[4 * k + 3]);
            }
        }
    }
    out
}

/// Sample values for testing: every pool 4 TiB large, 1 TiB used, 3 TiB free
/// and online.
pub fn mock_metrics(pools: &Vec<String>, ts: i64) -> (r: Vec<Metric>)
    ensures
        r@.len() == 4 * pools@.len(),
        forall|i: int| 0 <= i < pools@.len() ==> #[trigger] is_pool_block(r@, 4 * i, pools@[i]@,
            "4398046511104"@, "1099511627776"@, "3298534883328"@, "1"@, ts),
        is_zfs_report(r@, views(pools@), ts),
{
    let mut out: Vec<Metric> = Vec::new();
    let n = pools.len();
    for i in 0..n
        invariant
            n == pools@.len(),
            out@.len() == 4 * i,
            forall|k: int| 0 <= k < i ==> #[trigger] is_pool_block(out@, 4 * k, pools@[k]@,
                "4398046511104"@, "1099511627776"@, "3298534883328"@, "1"@, ts),
    {
        let ghost before = out@;
        push_pool_metrics(&mut out, pools[i].as_str(), "4398046511104", "1099511627776", "3298534883328", "1", ts);
        assert forall|k: int| 0 <= k < i + 1 implies #[trigger] is_pool_block(out@, 4 * k, pools@[k]@,
            "4398046511104"@, "1099511627776"@, "3298534883328"@, "1"@, ts) by {
            if k < i {
                assert(is_pool_block(before, 4 * k, pools@[k]@, "4398046511104"@, "1099511627776"@, "3298534883328"@, "1"@, ts));
                assert(out@[4 * k] == before[4 * k]);
                assert(out@[4 * k + 1] == before[4 * k + 1]);
                assert(out@[4 * k + 2] == before[4 * k + 2]);
                assert(out@[4 * k + 3] == before[4 * k + 3]);
            }
        }
    }
    proof {
        let pv = views(pools@);
        assert forall|b: int| 0 <= b < out@.len() / 4 implies #[trigger] is_zfs_block(out@, b, pv, ts) by {
            assert(is_pool_block(out@, 4 * b, pools@[b]@, "4398046511104"@, "1099511627776"@, "3298534883328"@, "1"@, ts));
            assert(pv[b] == pools@[b]@);
        }
    }
    out
}

/// Every selected line names a configured pool and has the five columns.
pub proof fn law_rows_are_configured(ls: Seq<Seq<char>>, pools: Seq<Seq<char>>)
    ensures
        forall|i: int| 0 <= i < selected_rows(ls, pools).len() ==> {
            let w = #[trigger] selected_rows(ls, pools)[i];
            w.len() >= 5 && pools.contains(w[0])
        },
    decreases ls.len(),
{
    if ls.len() > 0 {
        law_rows_are_configured(ls.drop_last(), pools);
        let prev = selected_rows(ls.drop_last(), pools);
        let sel = selected_rows(ls, pools);
        assert forall|i: int| 0 <= i < sel.len() implies ({
            let w = #[trigger] sel[i];
            w.len() >= 5 && pools.contains(w[0])
        }) by {
            if i < prev.len() {
                assert(sel[i] == prev[i]);
            }
        }
    }
}

/// Why a collection failed.
pub enum ZfsFailure {
    /// The configuration is not valid JSON for `ZfsConfig`.
    BadConfig(String),
    /// `zpool` could not be started.
    Launch(String),
    /// `zpool` exited unsuccessfully; its standard error.
    Status(String),
}

impl ZfsFailure {
    /// The message reported for the failure.
    pub fn message(&self) -> (r: String)
        ensures
            r@ == match self {
                ZfsFailure::BadConfig(e) => "Failed to parse config: "@ + e@,
                ZfsFailure::Launch(e) => "Failed to run zpool CLI: "@ + e@,
                ZfsFailure::Status(e) => "zpool command returned error: "@ + e@,
            },
    {
        let (prefix, detail) = match self {
            ZfsFailure::BadConfig(e) => ("Failed to parse config: ", e),
            ZfsFailure::Launch(e) => ("Failed to run zpool CLI: ", e),
            ZfsFailure::Status(e) => ("zpool command returned error: ", e),
        };
        let mut r = owned(prefix);
        append(&mut r, detail.as_str());
        r
    }
}

/// What a collection writes from `zpool` output is a report on the configured
/// pools: the rows read from the lines `ls` for `pools` (as `parse_zpool_list`
/// gives them), turned into samples with their sizes (as `zpool_metrics` does),
/// form blocks of four samples, each about one configured pool with a health
/// of 1 or 0.
pub proof fn law_zpool_report(
    ls: Seq<Seq<char>>,
    pools: Seq<Seq<char>>,
    rows: Seq<PoolRow>,
    sizes: Seq<PoolSizes>,
    ms: Seq<Metric>,
    ts: i64,
)
    requires
        rows.len() == selected_rows(ls, pools).len(),
        forall|i: int| 0 <= i < rows.len() ==> row_of(#[trigger] rows[i], selected_rows(ls, pools)[i]),
        sizes.len() == rows.len(),
        ms.len() == 4 * rows.len(),
        forall|i: int| 0 <= i < rows.len() ==> #[trigger] is_pool_block(ms, 4 * i, rows[i].name@,
            sizes[i].size@, sizes[i].used@, sizes[i].free@, health_value(rows[i].online), ts),
    ensures
        is_zfs_report(ms, pools, ts),
{
    law_rows_are_configured(ls, pools);
    let sel = selected_rows(ls, pools);
    assert forall|b: int| 0 <= b < ms.len() / 4 implies #[trigger] is_zfs_block(ms, b, pools, ts) by {
        assert(row_of(rows[b], sel[b]));
        assert(is_pool_block(ms, 4 * b, rows[b].name@, sizes[b].size@, sizes[b].used@, sizes[b].free@,
            health_value(rows[b].online), ts));
        let w = sel[b];
        assert(w.len() >= 5 && pools.contains(w[0]));
    }
}


/// The binary unit factors: `K`, `M`, `G` and `T` (each also with a trailing
/// `B`) stand for 1024 to the power 1, 2, 3 and 4; any other suffix, the empty
/// one included, for 1.
pub proof fn law_unit_factor_is_binary(u: Seq<char>)
    ensures
        (u == "K"@ || u == "KB"@) ==> unit_factor(u) == pow(1024, 1),
        (u == "M"@ || u == "MB"@) ==> unit_factor(u) == pow(1024, 2),
        (u == "G"@ || u == "GB"@) ==> unit_factor(u) == pow(1024, 3),
        (u == "T"@ || u == "TB"@) ==> unit_factor(u) == pow(1024, 4),
        !(u == "K"@ || u == "KB"@ || u == "M"@ || u == "MB"@ || u == "G"@ || u == "GB"@ || u == "T"@ || u == "TB"@)
            ==> unit_factor(u) == 1,
{
    reveal_strlit("K");
    reveal_strlit("KB");
    reveal_strlit("M");
    reveal_strlit("MB");
    reveal_strlit("G");
    reveal_strlit("GB");
    reveal_strlit("T");
    reveal_strlit("TB");
    if u == "K"@ || u == "KB"@ || u == "M"@ || u == "MB"@ {
        assert(u[0] == 'K' || u[0] == 'M');
        assert(u != "T"@ && u != "TB"@ && u != "G"@ && u != "GB"@) by {
            assert("T"@[0] == 'T' && "TB"@[0] == 'T' && "G"@[0] == 'G' && "GB"@[0] == 'G');
        }
        if u == "K"@ || u == "KB"@ {
            assert(u != "M"@ && u != "MB"@) by {
                assert("M"@[0] == 'M' && "MB"@[0] == 'M');
            }
        }
    }
    if u == "G"@ || u == "GB"@ {
        assert(u[0] == 'G');
        assert(u != "T"@ && u != "TB"@) by {
            assert("T"@[0] == 'T' && "TB"@[0] == 'T');
        }
    }
    reveal_with_fuel(pow, 5);
    assert(pow(1024, 0) == 1);
    assert(pow(1024, 1) == 1_024);
    assert(pow(1024, 2) == 1_048_576);
    assert(pow(1024, 3) == 1_073_741_824);
    assert(pow(1024, 4) == 1_099_511_627_776);
}

/// A size text made of a number followed by a suffix that does not start with
/// a digit or `.` splits into exactly that number and that suffix's factor.
pub proof fn law_size_splits_at_number(number: Seq<char>, suffix: Seq<char>)
    requires
        forall|i: int| 0 <= i < number.len() ==> number_char(#[trigger] number[i]),
        suffix.len() > 0 ==> !number_char(suffix[0]),
    ensures
        (number + suffix).take(number_len(number + suffix) as int) == number,
        unit_factor((number + suffix).skip(number_len(number + suffix) as int)) == unit_factor(suffix),
{
    let t = number + suffix;
    assert forall|j: int| 0 <= j < number.len() implies number_char(#[trigger] t[j]) by {
        assert(t[j] == number[j]);
    }
    if number.len() < t.len() {
        assert(t[number.len() as int] == suffix[0]);
    }
    lemma_number_len(t, number.len() as int);
    assert(t.take(number.len() as int) =~= number);
    assert(t.skip(number.len() as int) =~= suffix);
}


/// The number of a size is made of numeric characters and `.`, and of nothing
/// else.
pub proof fn law_number_chars(c: char)
    ensures
        number_char('.'),
        unicode_numeric(c) ==> number_char(c),
        !unicode_numeric(c) && c != '.' ==> !number_char(c),
{
}

} // verus!
