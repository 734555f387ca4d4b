//! The memory accountant.
//!
//! Two historically distinct cgroup interfaces report container memory
//! usage; they differ only in file paths, not in derived semantics. The
//! accountant detects which variant is present, and computes the working
//! set — usage minus reclaimable inactive file-backed memory — in whole
//! megabytes from the contents of the variant's two accounting files.
//! Reading those files is the caller's task; every computation on their
//! contents is verified here.

use vstd::prelude::*;

use crate::hostpath;
use crate::text;

verus! {

/// The two accounting interface variants.
#[derive(Clone, Copy, PartialEq, Eq, Structural, Debug)]
pub enum CGroupVersion {
    V1,
    V2,
}

/// How the memory accountant fails: no variant's files are present at
/// startup, an accounting file did not hold the expected format, or the
/// stats table held neither inactive-file key.
#[derive(Clone, Copy, PartialEq, Eq, Structural, Debug)]
pub enum CGroupsError {
    NoVariantFound,
    ParseError,
    MissingStat,
}

pub open spec fn v1_usage_path() -> Seq<char> {
    "/sys/fs/cgroup/memory/memory.usage_in_bytes"@
}

pub open spec fn v1_stat_path() -> Seq<char> {
    "/sys/fs/cgroup/memory/memory.stat"@
}

pub open spec fn v2_usage_path() -> Seq<char> {
    "/sys/fs/cgroup/memory.current"@
}

pub open spec fn v2_stat_path() -> Seq<char> {
    "/sys/fs/cgroup/memory.stat"@
}

/// The memory accountant: the detected variant and its two file paths.
#[derive(Debug)]
pub struct CGroups {
    pub cgroup_ver: CGroupVersion,
    pub mem_usage_file: String,
    pub mem_stat_file: String,
}

/// Which variant detection selects, given whether each variant's file pair
/// is fully present: the first variant wins whenever its files exist, the
/// second is probed only after that, and detection fails only when neither
/// pair is complete. A function of the probe results alone, so repeating
/// detection on the same host state selects the same variant.
pub open spec fn detect_variant_spec(v1_present: bool, v2_present: bool) -> Option<
    CGroupVersion,
> {
    if v1_present {
        Some(CGroupVersion::V1)
    } else if v2_present {
        Some(CGroupVersion::V2)
    } else {
        None
    }
}

/// Detection checks the first variant before the second: where both file
/// sets exist the first is selected, the second is selected only where the
/// first's files are absent, and detection fails exactly where neither set
/// is complete.
pub proof fn lemma_detection_preference(v1_present: bool, v2_present: bool)
    ensures
        v1_present ==> detect_variant_spec(v1_present, v2_present) == Some(CGroupVersion::V1),
        !v1_present && v2_present ==> detect_variant_spec(v1_present, v2_present) == Some(
            CGroupVersion::V2,
        ),
        !v1_present && !v2_present ==> detect_variant_spec(v1_present, v2_present) is None,
{
}

/// The line `key value`, split at the first space.
pub open spec fn key_val_of(line: Seq<char>) -> Option<(Seq<char>, Seq<char>)> {
    match text::find_ch(line, ' ') {
        None => None,
        Some(i) => Some((line.take(i), line.skip(i + 1))),
    }
}

/// One stats line: its key, and its value as an unsigned decimal.
pub open spec fn parse_line_spec(line: Seq<char>) -> Option<(Seq<char>, usize)> {
    match key_val_of(line) {
        None => None,
        Some((key, val)) => match text::parse_usize_spec(val) {
            None => None,
            Some(n) => Some((key, n)),
        },
    }
}

/// All stats lines in order; `None` as soon as any line is malformed.
pub open spec fn parse_stats_lines(lines: Seq<Seq<char>>) -> Option<Seq<(Seq<char>, usize)>>
    decreases lines.len(),
{
    if lines.len() == 0 {
        Some(Seq::empty())
    } else {
        match parse_stats_lines(lines.drop_last()) {
            None => None,
            Some(pairs) => match parse_line_spec(lines.last()) {
                None => None,
                Some(pair) => Some(pairs.push(pair)),
            },
        }
    }
}

/// The stats table of a whole stats file: the file is trimmed, split into
/// lines, and every line must be a `key value` pair.
pub open spec fn stats_of_content(content: Seq<char>) -> Option<Seq<(Seq<char>, usize)>> {
    parse_stats_lines(text::split_ch(text::trim_spec(content), '\n'))
}

/// The character-sequence view of a parsed stats table.
pub open spec fn pairs_view(pairs: Seq<(String, usize)>) -> Seq<(Seq<char>, usize)> {
    pairs.map_values(|p: (String, usize)| (p.0@, p.1))
}

/// The value under `key`, where a key repeated later in the table replaces
/// an earlier entry.
pub open spec fn stat_lookup(pairs: Seq<(Seq<char>, usize)>, key: Seq<char>) -> Option<usize>
    decreases pairs.len(),
{
    if pairs.len() == 0 {
        None
    } else if pairs.last().0 == key {
        Some(pairs.last().1)
    } else {
        stat_lookup(pairs.drop_last(), key)
    }
}

/// The inactive-file counter the working set subtracts: the total key is
/// always preferred; the plain key is consulted only where the total key is
/// absent; where neither exists the stat is missing.
pub open spec fn inactive_file_of(stats: Seq<(Seq<char>, usize)>) -> Option<usize> {
    match stat_lookup(stats, "total_inactive_file"@) {
        Some(v) => Some(v),
        None => stat_lookup(stats, "inactive_file"@),
    }
}

/// The working set in bytes: usage minus the inactive-file counter, clamped
/// to zero by comparing before subtracting, never by wrapping.
pub open spec fn working_set_bytes_spec(usage: usize, inactive: usize) -> usize {
    if usage > inactive {
        (usage - inactive) as usize
    } else {
        0
    }
}

/// What the working-set query returns, given the parsed usage counter and
/// stats table.
pub open spec fn working_set_result(usage: usize, stats: Seq<(Seq<char>, usize)>) -> Result<
    usize,
    CGroupsError,
> {
    match inactive_file_of(stats) {
        Some(inactive) => Ok(working_set_bytes_spec(usage, inactive)),
        None => Err(CGroupsError::MissingStat),
    }
}

/// What the whole megabyte query returns, given the two file contents: the
/// stats file is parsed first, then the usage counter, then the working set
/// is computed and shifted to megabytes.
pub open spec fn mem_usage_mb_spec(usage_content: Seq<char>, stat_content: Seq<char>) -> Result<
    usize,
    CGroupsError,
> {
    match stats_of_content(stat_content) {
        None => Err(CGroupsError::ParseError),
        Some(stats) => match text::parse_usize_spec(text::trim_spec(usage_content)) {
            None => Err(CGroupsError::ParseError),
            Some(usage) => match working_set_result(usage, stats) {
                Ok(ws) => Ok(ws >> 20),
                Err(e) => Err(e),
            },
        },
    }
}

/// A malformed line keeps the whole table malformed however many lines
/// follow it.
proof fn lemma_parse_stats_lines_none(lines: Seq<Seq<char>>, i: int)
    requires
        0 <= i <= lines.len(),
        parse_stats_lines(lines.take(i)) is None,
    ensures
        parse_stats_lines(lines) is None,
    decreases lines.len() - i,
{
    if i == lines.len() {
        assert(lines.take(i) =~= lines);
    } else {
        assert(lines.take(i + 1).drop_last() =~= lines.take(i));
        lemma_parse_stats_lines_none(lines, i + 1);
    }
}

impl CGroups {
    /// The accountant's paths belong to its variant.
    pub open spec fn wf(self) -> bool {
        match self.cgroup_ver {
            CGroupVersion::V1 => self.mem_usage_file@ == v1_usage_path() && self.mem_stat_file@
                == v1_stat_path(),
            CGroupVersion::V2 => self.mem_usage_file@ == v2_usage_path() && self.mem_stat_file@
                == v2_stat_path(),
        }
    }

    fn v1() -> (c: Self)
        ensures
            c.cgroup_ver == CGroupVersion::V1,
            c.wf(),
    {
        CGroups {
            cgroup_ver: CGroupVersion::V1,
            mem_usage_file: String::from_str("/sys/fs/cgroup/memory/memory.usage_in_bytes"),
            mem_stat_file: String::from_str("/sys/fs/cgroup/memory/memory.stat"),
        }
    }

    fn v2() -> (c: Self)
        ensures
            c.cgroup_ver == CGroupVersion::V2,
            c.wf(),
    {
        CGroups {
            cgroup_ver: CGroupVersion::V2,
            mem_usage_file: String::from_str("/sys/fs/cgroup/memory.current"),
            mem_stat_file: String::from_str("/sys/fs/cgroup/memory.stat"),
        }
    }

    /// Whether both of this accountant's files exist on the host right now.
    fn cgroup_files_exist(&self) -> bool {
        hostpath::path_exists(self.mem_usage_file.as_str()) && hostpath::path_exists(
            self.mem_stat_file.as_str(),
        )
    }

    /// Selects the variant from the two probe results; the decision is
    /// exactly `detect_variant_spec`.
    pub fn detect_variant(v1_present: bool, v2_present: bool) -> (r: Option<CGroupVersion>)
        ensures
            r == detect_variant_spec(v1_present, v2_present),
    {
        if v1_present {
            Some(CGroupVersion::V1)
        } else if v2_present {
            Some(CGroupVersion::V2)
        } else {
            None
        }
    }

    /// Probes the first variant's file pair, then the second's, and keeps
    /// the first variant whose pair is fully present. Detection happens
    /// once, at startup; failure here is fatal, not a per-tick error.
    pub fn new() -> (r: Result<Self, CGroupsError>)
        ensures
            match r {
                Ok(c) => c.wf(),
                Err(e) => e == CGroupsError::NoVariantFound,
            },
    {
        let candidate_v1 = CGroups::v1();
        let v1_present = candidate_v1.cgroup_files_exist();
        let candidate_v2 = CGroups::v2();
        let v2_present = candidate_v2.cgroup_files_exist();
        match CGroups::detect_variant(v1_present, v2_present) {
            Some(CGroupVersion::V1) => Ok(candidate_v1),
            Some(CGroupVersion::V2) => Ok(candidate_v2),
            None => Err(CGroupsError::NoVariantFound),
        }
    }

    /// Parses a counter value: an optionally plus-signed decimal that fits
    /// the platform's word, as the accounting files write counters.
    pub fn parse_integer(value: &str) -> (r: Result<usize, CGroupsError>)
        ensures
            match r {
                Ok(n) => text::parse_usize_spec(value@) == Some(n),
                Err(e) => text::parse_usize_spec(value@) is None && e == CGroupsError::ParseError,
            },
    {
        match text::parse_usize(value) {
            Some(n) => Ok(n),
            None => Err(CGroupsError::ParseError),
        }
    }

    /// Splits a stats line at its first space into key and value.
    pub fn parse_key_val(value: &str) -> (r: Result<(&str, &str), CGroupsError>)
        ensures
            match r {
                Ok(kv) => key_val_of(value@) == Some((kv.0@, kv.1@)),
                Err(e) => key_val_of(value@) is None && e == CGroupsError::ParseError,
            },
    {
        let n = value.unicode_len();
        match text::find_char(value, ' ') {
            Some(i) => {
                proof {
                    text::lemma_find_ch(value@, ' ');
                }
                let key = value.substring_char(0, i);
                let val = value.substring_char(i + 1, n);
                proof {
                    assert(key@ =~= value@.take(i as int));
                    assert(val@ =~= value@.skip(i + 1));
                }
                Ok((key, val))
            },
            None => Err(CGroupsError::ParseError),
        }
    }

    /// Parses a whole stats file into its table of `key value` pairs, in
    /// file order.
    pub fn get_container_memory_stats(stat_content: &str) -> (r: Result<
        Vec<(String, usize)>,
        CGroupsError,
    >)
        ensures
            match r {
                Ok(stats) => stats_of_content(stat_content@) == Some(pairs_view(stats@)),
                Err(e) => stats_of_content(stat_content@) is None && e
                    == CGroupsError::ParseError,
            },
    {
        let trimmed = text::trim(stat_content);
        let lines = text::split_char(trimmed, '\n');
        let ghost lseq = text::split_ch(text::trim_spec(stat_content@), '\n');
        let mut stats: Vec<(String, usize)> = Vec::new();
        let mut idx: usize = 0;
        while idx < lines.len()
            invariant
                lseq == text::split_ch(text::trim_spec(stat_content@), '\n'),
                lines@.map_values(|p: String| p@) == lseq,
                lseq.len() == lines@.len(),
                0 <= idx <= lines.len(),
                parse_stats_lines(lseq.take(idx as int)) == Some(pairs_view(stats@)),
            decreases lines.len() - idx,
        {
            let line: &str = lines[idx].as_str();
            proof {
                assert(line@ == lseq[idx as int]);
                assert(lseq.take(idx + 1).drop_last() =~= lseq.take(idx as int));
                assert(lseq.take(idx + 1).last() == lseq[idx as int]);
            }
            let parsed = match CGroups::parse_key_val(line) {
                Ok(kv) => kv,
                Err(_) => {
                    proof {
                        lemma_parse_stats_lines_none(lseq, idx + 1);
                    }
                    return Err(CGroupsError::ParseError);
                },
            };
            let num = match CGroups::parse_integer(parsed.1) {
                Ok(n) => n,
                Err(_) => {
                    proof {
                        lemma_parse_stats_lines_none(lseq, idx + 1);
                    }
                    return Err(CGroupsError::ParseError);
                },
            };
            let ghost old_stats = stats@;
            stats.push((String::from_str(parsed.0), num));
            proof {
                assert(pairs_view(stats@) =~= pairs_view(old_stats).push(
                    (parsed.0@, num as usize),
                ));
            }
            idx += 1;
        }
        proof {
            assert(lseq.take(lseq.len() as int) =~= lseq);
        }
        Ok(stats)
    }

    /// Looks a key up in a parsed stats table, later entries replacing
    /// earlier ones.
    pub fn lookup_stat(stats: &Vec<(String, usize)>, key: &str) -> (r: Option<usize>)
        ensures
            r == stat_lookup(pairs_view(stats@), key@),
    {
        let mut j: usize = stats.len();
        proof {
            assert(pairs_view(stats@).take(j as int) =~= pairs_view(stats@));
        }
        while j > 0
            invariant
                0 <= j <= stats.len(),
                stat_lookup(pairs_view(stats@), key@) == stat_lookup(
                    pairs_view(stats@).take(j as int),
                    key@,
                ),
            decreases j,
        {
            proof {
                assert(pairs_view(stats@).take(j as int).last() == pairs_view(stats@)[j - 1]);
                assert(pairs_view(stats@).take(j as int).drop_last() =~= pairs_view(
                    stats@,
                ).take(j - 1));
            }
            let entry = &stats[j - 1];
            if text::str_eq(entry.0.as_str(), key) {
                return Some(entry.1);
            }
            j -= 1;
        }
        None
    }

    /// The working set in bytes, clamped to zero before subtracting: an
    /// inactive-file counter that transiently exceeds usage yields zero,
    /// never a wrapped value.
    pub fn working_set_bytes(usage: usize, inactive: usize) -> (ws: usize)
        ensures
            ws == working_set_bytes_spec(usage, inactive),
            inactive <= usage ==> ws == usage - inactive,
            inactive > usage ==> ws == 0,
    {
        if usage > inactive {
            usage - inactive
        } else {
            0
        }
    }

    /// The working set in bytes from the parsed usage counter and stats
    /// table. Fails with the missing-stat error exactly where the table
    /// holds neither inactive-file key; the total key is preferred wherever
    /// it is present.
    pub fn get_container_memory_working_set_in_bytes(
        usage: usize,
        stats: &Vec<(String, usize)>,
    ) -> (r: Result<usize, CGroupsError>)
        ensures
            r == working_set_result(usage, pairs_view(stats@)),
            stat_lookup(pairs_view(stats@), "total_inactive_file"@) matches Some(v) ==> r == Ok::<
                usize,
                CGroupsError,
            >(working_set_bytes_spec(usage, v)),
            inactive_file_of(pairs_view(stats@)) is None <==> r == Err::<usize, CGroupsError>(
                CGroupsError::MissingStat,
            ),
    {
        if let Some(value) = CGroups::lookup_stat(stats, "total_inactive_file") {
            return Ok(CGroups::working_set_bytes(usage, value));
        }
        if let Some(value) = CGroups::lookup_stat(stats, "inactive_file") {
            return Ok(CGroups::working_set_bytes(usage, value));
        }
        Err(CGroupsError::MissingStat)
    }

    /// The working set in whole megabytes, computed from the contents of
    /// the variant's two accounting files: the usage file as a trimmed
    /// decimal counter of bytes, the stats file as a `key value` table, the
    /// difference clamped at zero and shifted down to megabytes.
    pub fn get_mem_usage_mb(&self, usage_content: &str, stat_content: &str) -> (r: Result<
        usize,
        CGroupsError,
    >)
        ensures
            r == mem_usage_mb_spec(usage_content@, stat_content@),
    {
        let stats = match CGroups::get_container_memory_stats(stat_content) {
            Ok(stats) => stats,
            Err(_) => {
                return Err(CGroupsError::ParseError);
            },
        };
        let trimmed = text::trim(usage_content);
        let usage = match CGroups::parse_integer(trimmed) {
            Ok(n) => n,
            Err(_) => {
                return Err(CGroupsError::ParseError);
            },
        };
        match CGroups::get_container_memory_working_set_in_bytes(usage, &stats) {
            Ok(ws) => Ok(ws >> 20),
            Err(e) => Err(e),
        }
    }

    /// The detected variant.
    pub fn get_version(&self) -> (v: &CGroupVersion)
        ensures
            v == self.cgroup_ver,
    {
        &self.cgroup_ver
    }
}

} // verus!
