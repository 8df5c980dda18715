//! Properties of the extractor that relate several lines or several runs.
use crate::lines::lines_of;
use crate::search::{
    extraction, initial, next, run, servers_extra, servers_header, suffixes_extra, suffixes_header,
    Mode, SearchModel,
};
use vstd::prelude::*;

verus! {

/// Lines none of which is a header leave a `General` state as it is.
proof fn lemma_run_without_headers(s: SearchModel, lines: Seq<Seq<char>>)
    requires
        s.mode == Mode::General,
        forall|i: int|
            0 <= i < lines.len() ==> servers_header(#[trigger] lines[i]) is None
                && suffixes_header(lines[i]) is None,
    ensures
        run(s, lines) == s,
    decreases lines.len(),
{
    if lines.len() > 0 {
        lemma_run_without_headers(s, lines.drop_last());
        assert(servers_header(lines[lines.len() - 1]) is None);
    }
}

/// Text in which no line is a servers header or a suffixes header yields
/// no suffixes and no servers: continuation lines are only looked for after
/// a header, so text without any recognizable line yields nothing either.
pub proof fn lemma_nothing_recognized_nothing_found(text: Seq<char>)
    requires
        forall|i: int|
            0 <= i < lines_of(text).len() ==> servers_header(#[trigger] lines_of(text)[i]) is None
                && suffixes_header(lines_of(text)[i]) is None,
    ensures
        extraction(text).suffixes.len() == 0,
        extraction(text).servers.len() == 0,
{
    lemma_run_without_headers(initial(), lines_of(text));
}

/// One line appends at most one entry to each sequence and changes nothing
/// already there.
proof fn lemma_next_extends(s: SearchModel, line: Seq<char>)
    ensures
        s.servers.is_prefix_of(next(s, line).servers),
        s.suffixes.is_prefix_of(next(s, line).suffixes),
        next(s, line).servers.len() <= s.servers.len() + 1,
        next(s, line).suffixes.len() <= s.suffixes.len() + 1,
{
    assert(s.servers.is_prefix_of(s.servers));
    assert(s.suffixes.is_prefix_of(s.suffixes));
    assert forall|x: Seq<char>| s.servers.is_prefix_of(#[trigger] s.servers.push(x)) by {
        assert(s.servers.push(x).subrange(0, s.servers.len() as int) =~= s.servers);
    }
    assert forall|x: Seq<char>| s.suffixes.is_prefix_of(#[trigger] s.suffixes.push(x)) by {
        assert(s.suffixes.push(x).subrange(0, s.suffixes.len() as int) =~= s.suffixes);
    }
}

/// What `k` lines collect is a prefix of what `m >= k` lines collect.
proof fn lemma_run_extends(s: SearchModel, lines: Seq<Seq<char>>, k: int, m: int)
    requires
        0 <= k <= m <= lines.len(),
    ensures
        run(s, lines.take(k)).servers.is_prefix_of(run(s, lines.take(m)).servers),
        run(s, lines.take(k)).suffixes.is_prefix_of(run(s, lines.take(m)).suffixes),
    decreases m - k,
{
    if k == m {
        assert(run(s, lines.take(k)).servers.is_prefix_of(run(s, lines.take(m)).servers));
        assert(run(s, lines.take(k)).suffixes.is_prefix_of(run(s, lines.take(m)).suffixes));
    } else {
        lemma_run_extends(s, lines, k, m - 1);
        assert(lines.take(m).drop_last() =~= lines.take(m - 1));
        lemma_next_extends(run(s, lines.take(m - 1)), lines[m - 1]);
    }
}

/// Entries are only ever appended, in the order their lines come: line `k`
/// of `text` is fed after the lines before it; the servers and suffixes found
/// in the first `k` lines are the first ones found in the first `m >= k`
/// lines, in the same order; and those are the first ones of the whole
/// extraction.
pub proof fn lemma_order_preserved(text: Seq<char>, k: int, m: int)
    requires
        0 <= k <= m <= lines_of(text).len(),
    ensures
        k < lines_of(text).len() ==> run(initial(), lines_of(text).take(k + 1)) == next(
            run(initial(), lines_of(text).take(k)),
            lines_of(text)[k],
        ),
        run(initial(), lines_of(text).take(k)).servers.is_prefix_of(
            run(initial(), lines_of(text).take(m)).servers,
        ),
        run(initial(), lines_of(text).take(k)).suffixes.is_prefix_of(
            run(initial(), lines_of(text).take(m)).suffixes,
        ),
        run(initial(), lines_of(text).take(m)).servers.is_prefix_of(extraction(text).servers),
        run(initial(), lines_of(text).take(m)).suffixes.is_prefix_of(extraction(text).suffixes),
{
    let lines = lines_of(text);
    if k < lines.len() {
        assert(lines.take(k + 1).drop_last() =~= lines.take(k));
    }
    lemma_run_extends(initial(), lines, k, m);
    lemma_run_extends(initial(), lines, m, lines.len() as int);
    assert(lines.take(lines.len() as int) =~= lines);
}

/// In a list mode, a line that is neither a continuation of that list nor
/// the other list's header ends the list: the mode becomes `General` and
/// nothing is collected from that line.
pub proof fn lemma_mode_reset(s: SearchModel, line: Seq<char>)
    requires
        s.mode == Mode::InSuffixList ==> suffixes_extra(line) is None && servers_header(line) is None,
        s.mode == Mode::InServerList ==> servers_extra(line) is None && suffixes_header(line) is None,
        s.mode != Mode::General,
    ensures
        next(s, line).mode == Mode::General,
        next(s, line).suffixes == s.suffixes,
        next(s, line).servers == s.servers,
{
}

/// Extracting the same text twice gives the same suffixes and servers, in
/// the same order.
pub proof fn lemma_reextraction_identical(first: Seq<char>, second: Seq<char>)
    requires
        first == second,
    ensures
        extraction(first).suffixes == extraction(second).suffixes,
        extraction(first).servers == extraction(second).servers,
{
}

/// `x` is what `line` gives to the servers, as a header or a continuation.
pub open spec fn server_from(x: Seq<char>, line: Seq<char>) -> bool {
    servers_header(line) == Some(x) || servers_extra(line) == Some(x)
}

/// `x` is what `line` gives to the suffixes, as a header or a continuation.
pub open spec fn suffix_from(x: Seq<char>, line: Seq<char>) -> bool {
    suffixes_header(line) == Some(x) || suffixes_extra(line) == Some(x)
}

/// Strictly increasing line numbers below `n`.
pub open spec fn ascending(idx: Seq<int>, n: int) -> bool {
    &&& forall|k: int| 0 <= k < idx.len() ==> 0 <= #[trigger] idx[k] < n
    &&& forall|k: int, l: int| 0 <= k < l < idx.len() ==> #[trigger] idx[k] < #[trigger] idx[l]
}

/// Server `k` of `m` came from line `si[k]` of `lines` and suffix `k` from
/// line `fi[k]`; both numberings ascend, and no line gave both.
pub open spec fn traced(m: SearchModel, lines: Seq<Seq<char>>, si: Seq<int>, fi: Seq<int>) -> bool {
    &&& ascending(si, lines.len() as int)
    &&& ascending(fi, lines.len() as int)
    &&& si.len() == m.servers.len()
    &&& fi.len() == m.suffixes.len()
    &&& forall|k: int| 0 <= k < si.len() ==> server_from(#[trigger] m.servers[k], lines[si[k]])
    &&& forall|k: int| 0 <= k < fi.len() ==> suffix_from(#[trigger] m.suffixes[k], lines[fi[k]])
    &&& forall|k: int, l: int| 0 <= k < si.len() && 0 <= l < fi.len() ==> #[trigger] si[k] != #[trigger] fi[l]
}

/// The line numbers that what `lines` collect from the initial state came from.
proof fn lemma_trace(lines: Seq<Seq<char>>) -> (r: (Seq<int>, Seq<int>))
    ensures
        traced(run(initial(), lines), lines, r.0, r.1),
    decreases lines.len(),
{
    if lines.len() == 0 {
        (Seq::empty(), Seq::empty())
    } else {
        let prev = lines.drop_last();
        let (si, fi) = lemma_trace(prev);
        let n = lines.len() - 1;
        let s = run(initial(), prev);
        let m = run(initial(), lines);
        assert(m == next(s, lines[n]));
        assert forall|i: int| 0 <= i < n implies prev[i] == lines[i] by {}
        if m.servers.len() > s.servers.len() {
            let si2 = si.push(n);
            assert(m.suffixes == s.suffixes);
            assert(server_from(m.servers[s.servers.len() as int], lines[n]));
            assert forall|k: int| 0 <= k < si2.len() implies server_from(
                #[trigger] m.servers[k],
                lines[si2[k]],
            ) by {
                if k < si.len() {
                    assert(si[k] < n);
                }
            }
            assert forall|k: int, l: int| 0 <= k < si2.len() && 0 <= l < fi.len() implies #[trigger] si2[k]
                != #[trigger] fi[l] by {
                if k < si.len() {
                    assert(si2[k] == si[k]);
                } else {
                    assert(fi[l] < n);
                }
            }
            (si2, fi)
        } else if m.suffixes.len() > s.suffixes.len() {
            let fi2 = fi.push(n);
            assert(m.servers == s.servers);
            assert(suffix_from(m.suffixes[s.suffixes.len() as int], lines[n]));
            assert forall|k: int| 0 <= k < fi2.len() implies suffix_from(
                #[trigger] m.suffixes[k],
                lines[fi2[k]],
            ) by {
                if k < fi.len() {
                    assert(fi[k] < n);
                }
            }
            assert forall|k: int, l: int| 0 <= k < si.len() && 0 <= l < fi2.len() implies #[trigger] si[k]
                != #[trigger] fi2[l] by {
                if l < fi.len() {
                    assert(fi2[l] == fi[l]);
                } else {
                    assert(si[k] < n);
                }
            }
            (si, fi2)
        } else {
            assert(m.servers == s.servers);
            assert(m.suffixes == s.suffixes);
            assert forall|k: int| 0 <= k < si.len() implies server_from(
                #[trigger] m.servers[k],
                lines[si[k]],
            ) by {
                assert(si[k] < n);
            }
            assert forall|k: int| 0 <= k < fi.len() implies suffix_from(
                #[trigger] m.suffixes[k],
                lines[fi[k]],
            ) by {
                assert(fi[k] < n);
            }
            (si, fi)
        }
    }
}

/// Every entry can be traced to the line it came from: there are ascending
/// line numbers, one per server and one per suffix, such that each entry is
/// what its line gave, and no line gave more than one entry. So entries
/// follow the order of their lines in the text.
pub proof fn lemma_entries_follow_lines(text: Seq<char>)
    ensures
        exists|si: Seq<int>, fi: Seq<int>| traced(extraction(text), lines_of(text), si, fi),
{
    let (si, fi) = lemma_trace(lines_of(text));
    assert(traced(extraction(text), lines_of(text), si, fi));
}

} // verus!
