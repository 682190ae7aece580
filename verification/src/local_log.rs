//! Rotation of the local log files: each start of the port writes a new log
//! file named after a running index and the local time, keeps the index for
//! the next start in an index file, and removes the log written ten starts
//! before.

use vstd::prelude::*;
use vstd::string::{StringExecFns, StringSliceAdditionalSpecFns};
use crate::log_index::{
    decimal, format_log_index, format_padded_index, padded_decimal, padded_decimal_bytes,
    u16_from_str, all_digits, digits_value, lemma_decimal_bytes, lemma_padded_decimal_bytes,
    lemma_index_round_trip, decimal_bytes, parse_log_index,
};
use crate::local_time::{
    LocalDateTime, valid_date_time, log_stamp, log_stamp_spec, is_log_stamp, is_stamp_char,
    local_now, lemma_log_stamp_shape,
};

verus! {

/// The folder that holds the local logs.
pub const DJI_LOG_FOLDER_NAME: &'static str = "Logs";

/// The file, inside the log folder, that holds the index of the next log.
pub const DJI_LOG_INDEX_FILE_NAME: &'static str = "index";

/// The symbolic link, inside the log folder, to the most recent log file.
pub const DJI_LOG_LATEST_LINK_NAME: &'static str = "latest.log";

/// The name with which every log file starts.
pub const DJI_LOG_PATH: &'static str = "DJI";

/// How many of the most recent logs are kept.
pub const DJI_LOG_MAX_COUNT: i32 = 10;

/// The width to which a log index is zero-padded in file names.
pub const LOG_INDEX_WIDTH: usize = 4;

/// The index of a log as it stands in file names: four digits at least.
pub open spec fn index_text(index: nat) -> Seq<char> {
    padded_decimal(index, LOG_INDEX_WIDTH as nat)
}

/// The file name of the log of index `index` written at time `stamp`:
/// `DJI_<index>_<stamp>.log`.
pub open spec fn log_file_name_spec(index: nat, stamp: Seq<char>) -> Seq<char> {
    DJI_LOG_PATH@ + seq!['_'] + index_text(index) + seq!['_'] + stamp + seq!['.', 'l', 'o', 'g']
}

/// The path of that log file, inside the log folder.
pub open spec fn log_file_path_spec(index: nat, stamp: Seq<char>) -> Seq<char> {
    DJI_LOG_FOLDER_NAME@ + seq!['/'] + log_file_name_spec(index, stamp)
}

/// The path, up to the index, of every log file of index `index`.
pub open spec fn log_prefix_spec(index: nat) -> Seq<char> {
    DJI_LOG_FOLDER_NAME@ + seq!['/'] + DJI_LOG_PATH@ + seq!['_'] + index_text(index)
}

/// The glob pattern of the log files of index `index`: their prefix and `*`.
pub open spec fn log_pattern_spec(index: nat) -> Seq<char> {
    log_prefix_spec(index).push('*')
}

/// The paths that a glob pattern reaches, for a pattern whose one wildcard is
/// a final `*` (as every pattern built here): those that start with what
/// comes before the `*`.
pub open spec fn pattern_reaches(pattern: Seq<char>, path: Seq<char>) -> bool {
    &&& pattern.len() > 0
    &&& pattern.last() == '*'
    &&& pattern.drop_last().is_prefix_of(path)
}

/// What a start of the port does with its log files, computed from the index
/// read from the index file and the local time.
pub struct LocalLogPlan {
    /// The index of the log that this start writes.
    pub current_index: u16,
    /// The local date and time of this start.
    pub time: LocalDateTime,
    /// The time stamp in the name of that log.
    pub time_stamp: String,
    /// What is written to the index file: the index of the next start.
    pub next_index_text: String,
    /// The path of the new log file.
    pub log_file_path: String,
    /// The name of the new log file, the target of the `latest.log` link.
    pub log_file_name: String,
    /// The glob pattern of the log to remove, once more than ten logs exist.
    pub stale_log_pattern: Option<String>,
}

/// `plan` is what a start does when the index file holds `stored_index`
/// and the clock gives `time`.
pub open spec fn plan_spec(plan: LocalLogPlan, stored_index: u16, time: LocalDateTime) -> bool {
    let stamp = log_stamp_spec(time);
    &&& plan.current_index == stored_index
    &&& plan.time == time
    &&& plan.time_stamp@ == stamp
    &&& plan.next_index_text@ == decimal((stored_index + 1) as nat)
    &&& plan.log_file_name@ == log_file_name_spec(stored_index as nat, stamp)
    &&& plan.log_file_path@ == log_file_path_spec(stored_index as nat, stamp)
    &&& (plan.stale_log_pattern is Some <==> stored_index + 1 > DJI_LOG_MAX_COUNT)
    &&& (plan.stale_log_pattern matches Some(p) ==> p@ == log_pattern_spec(
        (stored_index - DJI_LOG_MAX_COUNT) as nat,
    ))
}

/// `format!("{}_{:04}", "Logs/DJI", index)`, the part that the path of a log
/// file and the pattern of its index share.
fn log_prefix(index: u16) -> (s: String)
    ensures
        s@ == log_prefix_spec(index as nat),
{
    let mut s = String::from_str(DJI_LOG_FOLDER_NAME);
    s.append("/");
    s.append(DJI_LOG_PATH);
    s.append("_");
    let digits = format_padded_index(index, LOG_INDEX_WIDTH);
    s.append(digits.as_str());
    proof {
        reveal_strlit("/");
        reveal_strlit("_");
        assert(s@ =~= log_prefix_spec(index as nat));
    }
    s
}

/// The name of the log of index `index` written at time `stamp`.
pub fn log_file_name(index: u16, stamp: &str) -> (s: String)
    ensures
        s@ == log_file_name_spec(index as nat, stamp@),
{
    let mut s = String::from_str(DJI_LOG_PATH);
    s.append("_");
    let digits = format_padded_index(index, LOG_INDEX_WIDTH);
    s.append(digits.as_str());
    s.append("_");
    s.append(stamp);
    s.append(".log");
    proof {
        reveal_strlit("_");
        reveal_strlit(".log");
        assert(s@ =~= log_file_name_spec(index as nat, stamp@));
    }
    s
}

/// The path of the log of index `index` written at time `stamp`.
pub fn log_file_path(index: u16, stamp: &str) -> (s: String)
    ensures
        s@ == log_file_path_spec(index as nat, stamp@),
{
    let mut s = String::from_str(DJI_LOG_FOLDER_NAME);
    s.append("/");
    let name = log_file_name(index, stamp);
    s.append(name.as_str());
    proof {
        reveal_strlit("/");
        assert(s@ =~= log_file_path_spec(index as nat, stamp@));
    }
    s
}

/// The glob pattern of the log files of index `index`.
pub fn log_pattern(index: u16) -> (s: String)
    ensures
        s@ == log_pattern_spec(index as nat),
{
    let mut s = log_prefix(index);
    s.append("*");
    proof {
        reveal_strlit("*");
        assert(s@ =~= log_pattern_spec(index as nat));
    }
    s
}

/// Plans a start of the local log: the index read from the index file (0
/// where there is none) names the new log, the next index is written back,
/// and once the next index passes ten, the log of ten starts before is
/// removed. The index file cannot hold more than `u16::MAX`, so an index of
/// `u16::MAX` has no successor and is left out.
pub fn plan_local_log(stored_index: u16, time: &LocalDateTime) -> (plan: LocalLogPlan)
    requires
        stored_index < u16::MAX,
        valid_date_time(*time),
    ensures
        plan_spec(plan, stored_index, *time),
{
    let time_stamp = log_stamp(time);
    let stamp = time_stamp.as_str();
    let current_index = stored_index;
    let next_index = stored_index + 1;
    let next_index_text = format_log_index(next_index);
    let log_file_path = log_file_path(current_index, stamp);
    let log_file_name = log_file_name(current_index, stamp);
    let stale_log_pattern = if next_index as i32 > DJI_LOG_MAX_COUNT {
        let stale = (current_index as i32 - DJI_LOG_MAX_COUNT) as u16;
        Some(log_pattern(stale))
    } else {
        None
    };
    LocalLogPlan {
        current_index,
        time: *time,
        time_stamp,
        next_index_text,
        log_file_path,
        log_file_name,
        stale_log_pattern,
    }
}

/// A string of digits extended by at least one digit is worth at least ten
/// times as much.
proof fn lemma_digits_value_extend(s: Seq<u8>, len: int)
    requires
        all_digits(s),
        0 <= len < s.len(),
    ensures
        digits_value(s) >= digits_value(s.take(len)) * 10,
    decreases s.len(),
{
    let d = s.drop_last();
    if len + 1 < s.len() {
        lemma_digits_value_extend(d, len);
        assert(d.take(len) =~= s.take(len));
        crate::log_index::lemma_digits_value_prefix(d, len + 1);
        assert(d.take(len + 1) =~= s.take(len + 1));
        assert(digits_value(s) >= digits_value(d));
    } else {
        assert(d =~= s.take(len));
    }
}

/// Where the index text of `k` starts the index text of `m` followed by `_`,
/// and `m` is at most ten above `k`, the two indexes are the same.
proof fn lemma_index_text_prefix(k: nat, m: nat, rest: Seq<char>)
    requires
        k <= 0xFFFF,
        m <= 0xFFFF,
        m <= k + 10,
        rest.len() > 0,
        rest[0] == '_',
        index_text(k).is_prefix_of(index_text(m) + rest),
    ensures
        m == k,
{
    let w = LOG_INDEX_WIDTH as nat;
    let pk = padded_decimal_bytes(k, w);
    let pm = padded_decimal_bytes(m, w);
    lemma_padded_decimal_bytes(k, w);
    lemma_padded_decimal_bytes(m, w);
    let ck = index_text(k);
    let cm = index_text(m);
    let whole = cm + rest;
    assert(ck.len() == pk.len());
    assert(cm.len() == pm.len());
    if pk.len() > pm.len() {
        let i = pm.len() as int;
        assert(whole[i] == rest[0]);
        assert(ck[i] == whole[i]);
        assert(ck[i] == pk[i] as char);
        assert(crate::log_index::is_digit_byte(pk[i]));
        assert(false);
    } else {
        assert forall|i: int| 0 <= i < pk.len() implies pk[i] == pm[i] by {
            assert(ck[i] == whole[i]);
            assert(whole[i] == cm[i]);
            assert(ck[i] == pk[i] as char);
            assert(cm[i] == pm[i] as char);
        }
        if pk.len() == pm.len() {
            assert(pk =~= pm);
        } else {
            assert(pk =~= pm.take(pk.len() as int));
            lemma_digits_value_extend(pm, pk.len() as int);
            lemma_decimal_bytes(m);
            assert(pm == decimal_bytes(m));
            assert(m >= 10000);
            assert(false);
        }
    }
}

/// The rotation keeps the ten most recent logs: when the log of index `k` is
/// removed, at the start that writes log `k + 10`, the pattern reaches the
/// log of index `k` whatever its time stamp, and no other log whose index is
/// at most `k + 10`.
pub proof fn lemma_rotation_removes_only_stale_log(k: u16, m: u16, stamp: Seq<char>)
    requires
        m <= k + 10,
    ensures
        pattern_reaches(log_pattern_spec(k as nat), log_file_path_spec(m as nat, stamp)) <==> m
            == k,
{
    let a = DJI_LOG_FOLDER_NAME@ + seq!['/'] + DJI_LOG_PATH@ + seq!['_'];
    let rest = seq!['_'] + stamp + seq!['.', 'l', 'o', 'g'];
    let path = log_file_path_spec(m as nat, stamp);
    let pat = log_pattern_spec(k as nat);
    assert(path =~= a + (index_text(m as nat) + rest));
    assert(pat.drop_last() =~= a + index_text(k as nat));
    if pattern_reaches(pat, path) {
        let ck = index_text(k as nat);
        let whole = index_text(m as nat) + rest;
        assert forall|i: int| 0 <= i < ck.len() implies ck[i] == whole[i] by {
            assert(pat.drop_last()[a.len() + i] == ck[i]);
            assert(path[a.len() + i] == whole[i]);
        }
        assert(ck.is_prefix_of(whole));
        lemma_index_text_prefix(k as nat, m as nat, rest);
    }
    if m == k {
        assert(pat.drop_last().is_prefix_of(path)) by {
            assert(path.take(pat.drop_last().len() as int) =~= pat.drop_last());
        }
    }
}

/// A log file and its name stay inside the log folder: for every time stamp
/// the clock can give, the file name holds no `/`.
pub proof fn lemma_log_file_name_has_no_separator(index: nat, stamp: Seq<char>)
    requires
        is_log_stamp(stamp),
    ensures
        !log_file_name_spec(index, stamp).contains('/'),
        log_file_path_spec(index, stamp) == DJI_LOG_FOLDER_NAME@ + seq!['/'] + log_file_name_spec(
            index,
            stamp,
        ),
{
    reveal_strlit("DJI");
    let w = LOG_INDEX_WIDTH as nat;
    lemma_padded_decimal_bytes(index, w);
    let name = log_file_name_spec(index, stamp);
    let it = index_text(index);
    if name.contains('/') {
        let j = choose|j: int| 0 <= j < name.len() && name[j] == '/';
        let p1 = DJI_LOG_PATH@.len() + 1;
        let p2 = p1 + it.len();
        let p3 = p2 + 1;
        let p4 = p3 + stamp.len();
        if j < DJI_LOG_PATH@.len() {
        } else if j < p1 {
        } else if j < p2 {
            assert(name[j] == it[j - p1]);
            assert(it[j - p1] == padded_decimal_bytes(index, w)[j - p1] as char);
            assert(crate::log_index::is_digit_byte(padded_decimal_bytes(index, w)[j - p1]));
        } else if j < p3 {
        } else if j < p4 {
            assert(name[j] == stamp[j - p3]);
            assert(is_stamp_char(stamp[j - p3]));
        } else {
        }
        assert(false);
    }
}

/// Consecutive starts write consecutive logs: the index text that a start
/// with index `k` writes is read back by the next start as `k + 1`. That text
/// is never shorter than the text of `k`, so where the index file holds the
/// text that the previous start wrote, writing the new text over it from the
/// start of the file leaves no old digit. (An index file edited by hand to
/// hold, say, `007` keeps its tail: `8` written over it gives `807`.)
pub proof fn lemma_next_start_reads_next_index(k: u16)
    requires
        k < u16::MAX,
    ensures
        u16_from_str(vstd::utf8::encode_utf8(decimal((k + 1) as nat))) == Some((k + 1) as u16),
        decimal(k as nat).len() <= decimal((k + 1) as nat).len(),
{
    lemma_index_round_trip((k + 1) as u16);
    lemma_decimal_bytes(k as nat);
    lemma_decimal_bytes((k + 1) as nat);
}

/// The index that a start reads: 0 where there is no index file yet, else the
/// content of the index file read as a `u16` (nothing where it is not one).
pub open spec fn stored_index_spec(index_file: Option<Seq<u8>>) -> Option<u16> {
    match index_file {
        None => Some(0u16),
        Some(content) => u16_from_str(content),
    }
}

/// The bytes of the index file's content, where there is an index file.
pub open spec fn index_file_bytes(index_file: Option<&str>) -> Option<Seq<u8>> {
    match index_file {
        None => None,
        Some(content) => Some(content.spec_bytes()),
    }
}

/// The index that a start reads from the index file, where there is one
/// (`None` stands for a missing file).
pub fn stored_log_index(index_file: Option<&str>) -> (r: Option<u16>)
    ensures
        r == stored_index_spec(index_file_bytes(index_file)),
{
    match index_file {
        None => Some(0),
        Some(content) => parse_log_index(content),
    }
}

/// What a start of the local log does, given the content of the index file
/// (`None` where there is no such file): the index read from it names the new
/// log, together with the local time; the next index is written back; once
/// the next index passes ten, the log of ten starts before is removed. An
/// index file that does not hold a `u16`, or holds `u16::MAX`, which has no
/// successor, is left out.
pub fn local_log_init(index_file: Option<&str>) -> (plan: LocalLogPlan)
    requires
        stored_index_spec(index_file_bytes(index_file)) matches Some(v) && v < u16::MAX,
    ensures
        stored_index_spec(index_file_bytes(index_file)) == Some(plan.current_index),
        valid_date_time(plan.time),
        plan_spec(plan, plan.current_index, plan.time),
        is_log_stamp(plan.time_stamp@),
        plan.time_stamp@.len() >= 17,
{
    let stored = match stored_log_index(index_file) {
        Some(v) => v,
        None => 0,
    };
    let now = local_now();
    proof {
        lemma_log_stamp_shape(now);
    }
    plan_local_log(stored, &now)
}

/// The log files in the log folder after a start that carried out `plan`:
/// the new log is created, then the logs that its stale pattern reaches are
/// removed.
pub open spec fn logs_after_plan(logs: Set<Seq<char>>, plan: LocalLogPlan) -> Set<Seq<char>> {
    let with_new = logs.insert(plan.log_file_path@);
    match plan.stale_log_pattern {
        Some(p) => with_new.filter(|path: Seq<char>| !pattern_reaches(p@, path)),
        None => with_new,
    }
}

/// The log files after the starts `plans`, one after another, from a log
/// folder without logs.
pub open spec fn logs_after_plans(plans: Seq<LocalLogPlan>) -> Set<Seq<char>>
    decreases plans.len(),
{
    if plans.len() == 0 {
        Set::empty()
    } else {
        logs_after_plan(logs_after_plans(plans.drop_last()), plans.last())
    }
}

/// The plans of successive starts from an empty log folder: start `i` reads
/// the index `i` and carries out what a start does with it.
pub open spec fn successive_starts(plans: Seq<LocalLogPlan>) -> bool {
    forall|i: int| 0 <= i < plans.len() ==> plan_spec(#[trigger] plans[i], i as u16, plans[i].time)
}

/// The index of the oldest log kept after `count` starts.
pub open spec fn oldest_kept(count: int) -> int {
    if count > DJI_LOG_MAX_COUNT {
        count - DJI_LOG_MAX_COUNT
    } else {
        0
    }
}

/// The paths of the log files of the starts `plans`, in order.
pub open spec fn log_paths(plans: Seq<LocalLogPlan>) -> Seq<Seq<char>> {
    plans.map_values(|plan: LocalLogPlan| plan.log_file_path@)
}

/// The paths of `paths` from `oldest_kept` on: those of the last ten starts.
pub open spec fn recent_paths(paths: Seq<Seq<char>>) -> Set<Seq<char>> {
    Set::new(
        |path: Seq<char>|
            exists|i: int| oldest_kept(paths.len() as int) <= i < paths.len() && path == #[trigger] paths[i],
    )
}

/// What a start with index `n` carries out, from its plan alone.
proof fn lemma_plan_facts(plan: LocalLogPlan, n: int)
    requires
        0 <= n < u16::MAX,
        plan_spec(plan, n as u16, plan.time),
    ensures
        plan.log_file_path@ == log_file_path_spec(n as nat, plan.time_stamp@),
        plan.next_index_text@ == decimal((n + 1) as nat),
        plan.stale_log_pattern is Some <==> n + 1 > DJI_LOG_MAX_COUNT,
        plan.stale_log_pattern matches Some(p) ==> p@ == log_pattern_spec(
            (n - DJI_LOG_MAX_COUNT) as nat,
        ),
{
}

/// One start, over the paths alone: where the folder holds the logs of the
/// last ten starts before start `n`, and the start's pattern reaches, among
/// the logs from `oldest_kept(n)` to `n`, only the log ten starts back, then
/// after creating log `n` and removing what the pattern reaches, the folder
/// holds the logs of the last ten starts up to `n`.
proof fn lemma_one_start(paths: Seq<Seq<char>>, logs: Set<Seq<char>>, pattern: Option<Seq<char>>)
    requires
        paths.len() > 0,
        logs == recent_paths(paths.drop_last()),
        pattern is Some <==> paths.len() > DJI_LOG_MAX_COUNT,
        pattern matches Some(p) ==> forall|i: int|
            oldest_kept(paths.len() - 1) <= i < paths.len() ==> (pattern_reaches(
                p,
                #[trigger] paths[i],
            ) <==> i == paths.len() - 1 - DJI_LOG_MAX_COUNT),
    ensures
        ({
            let with_new = logs.insert(paths.last());
            match pattern {
                Some(p) => with_new.filter(|path: Seq<char>| !pattern_reaches(p, path)),
                None => with_new,
            }
        }) == recent_paths(paths),
{
    let len = paths.len() as int;
    let n = len - 1;
    let prev = paths.drop_last();
    let with_new = logs.insert(paths.last());
    let result = match pattern {
        Some(p) => with_new.filter(|path: Seq<char>| !pattern_reaches(p, path)),
        None => with_new,
    };
    let target = recent_paths(paths);
    assert forall|path: Seq<char>| with_new.contains(path) implies exists|i: int|
        oldest_kept(n) <= i <= n && path == #[trigger] paths[i] by {
        if path != paths[n] {
            let i = choose|i: int| oldest_kept(n) <= i < n && path == #[trigger] prev[i];
            assert(prev[i] == paths[i]);
        }
    }
    assert forall|path: Seq<char>| result.contains(path) == target.contains(path) by {
        if result.contains(path) {
            assert(with_new.contains(path));
            let i = choose|i: int| oldest_kept(n) <= i <= n && path == #[trigger] paths[i];
            if pattern is Some {
                assert(i != n - DJI_LOG_MAX_COUNT);
            }
            assert(target.contains(path));
        }
        if target.contains(path) {
            let i = choose|i: int| oldest_kept(len) <= i < len && path == #[trigger] paths[i];
            if i < n {
                assert(prev[i] == paths[i]);
                assert(logs.contains(path));
            }
            assert(with_new.contains(path));
        }
    }
    assert(result =~= target);
}

/// Successive starts keep the ten most recent logs: after any number of
/// starts from an empty log folder, each reading the index that the start
/// before it wrote, the log folder holds exactly the log files of the last
/// ten starts (all of them, where there were fewer), the index file holds the
/// number of starts, and `latest.log` names the log of the last start.
pub proof fn lemma_successive_starts(plans: Seq<LocalLogPlan>)
    requires
        plans.len() <= u16::MAX,
        successive_starts(plans),
    ensures
        logs_after_plans(plans) == recent_paths(log_paths(plans)),
        forall|i: int|
            0 < i < plans.len() ==> stored_index_spec(
                Some(vstd::utf8::encode_utf8((#[trigger] plans[i - 1]).next_index_text@)),
            ) == Some(i as u16),
        plans.len() > 0 ==> plans.last().next_index_text@ == decimal(plans.len()),
        plans.len() > 0 ==> plans.last().log_file_name@ == log_file_name_spec(
            (plans.len() - 1) as nat,
            plans.last().time_stamp@,
        ),
    decreases plans.len(),
{
    let len = plans.len() as int;
    assert forall|i: int| 0 < i < len implies stored_index_spec(
        Some(vstd::utf8::encode_utf8((#[trigger] plans[i - 1]).next_index_text@)),
    ) == Some(i as u16) by {
        assert(plan_spec(plans[i - 1], (i - 1) as u16, plans[i - 1].time));
        lemma_plan_facts(plans[i - 1], i - 1);
        lemma_index_round_trip(i as u16);
    }
    if len == 0 {
        assert(logs_after_plans(plans) =~= recent_paths(log_paths(plans)));
    } else {
        let n = len - 1;
        let prev = plans.drop_last();
        let last = plans[n];
        assert(plan_spec(last, n as u16, last.time));
        lemma_plan_facts(last, n);
        assert forall|i: int| 0 <= i < prev.len() implies plan_spec(
            #[trigger] prev[i],
            i as u16,
            prev[i].time,
        ) by {
            assert(prev[i] == plans[i]);
            assert(plan_spec(plans[i], i as u16, plans[i].time));
        }
        lemma_successive_starts(prev);
        let paths = log_paths(plans);
        assert(log_paths(prev) =~= paths.drop_last());
        let pattern = match last.stale_log_pattern {
            Some(p) => Some(p@),
            None => None,
        };
        if n + 1 > DJI_LOG_MAX_COUNT {
            let k = (n - DJI_LOG_MAX_COUNT) as u16;
            assert forall|i: int| oldest_kept(n) <= i < len implies (pattern_reaches(
                pattern.unwrap(),
                #[trigger] paths[i],
            ) <==> i == len - 1 - DJI_LOG_MAX_COUNT) by {
                assert(plan_spec(plans[i], i as u16, plans[i].time));
                lemma_plan_facts(plans[i], i);
                lemma_rotation_removes_only_stale_log(k, i as u16, plans[i].time_stamp@);
            }
        }
        lemma_one_start(paths, logs_after_plans(prev), pattern);
        assert(paths.last() == last.log_file_path@);
        let with_new = logs_after_plans(prev).insert(last.log_file_path@);
        match last.stale_log_pattern {
            Some(p) => {
                assert(with_new.filter(|path: Seq<char>| !pattern_reaches(p@, path)) =~= with_new.filter(
                    |path: Seq<char>| !pattern_reaches(pattern.unwrap(), path),
                ));
            },
            None => {},
        }
    }
}

} // verus!
