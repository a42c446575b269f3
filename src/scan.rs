use vstd::prelude::*;

use crate::text::{
    chars_of, contains, contains_exec, find_first, first_at, is_whitespace, is_ws, occurs_at,
};

verus! {

/// Position of the last `c` in `s[lo..hi)`.
pub open spec fn last_of(s: Seq<char>, c: char, lo: int, hi: int) -> Option<int>
    decreases hi - lo,
{
    if hi <= lo {
        None
    } else if s[hi - 1] == c {
        Some(hi - 1)
    } else {
        last_of(s, c, lo, hi - 1)
    }
}

/// Position of the last whitespace character in `s[lo..hi)`.
pub open spec fn last_ws(s: Seq<char>, lo: int, hi: int) -> Option<int>
    decreases hi - lo,
{
    if hi <= lo {
        None
    } else if is_ws(s[hi - 1]) {
        Some(hi - 1)
    } else {
        last_ws(s, lo, hi - 1)
    }
}

/// End of `s[lo..hi)` once trailing whitespace is dropped.
pub open spec fn trim_hi(s: Seq<char>, lo: int, hi: int) -> int
    decreases hi - lo,
{
    if lo < hi && is_ws(s[hi - 1]) {
        trim_hi(s, lo, hi - 1)
    } else {
        hi
    }
}

/// Start of `s[lo..hi)` once leading whitespace is dropped.
pub open spec fn trim_lo(s: Seq<char>, lo: int, hi: int) -> int
    decreases hi - lo,
{
    if lo < hi && is_ws(s[lo]) {
        trim_lo(s, lo + 1, hi)
    } else {
        lo
    }
}

pub open spec fn is_digit(c: char) -> bool {
    '0' <= c && c <= '9'
}

/// A parsed report line: the host's address and, where the scan named it, its name.
pub type InfoView = (Seq<char>, Option<Seq<char>>);

/// Where the name slot of a line begins, for a line whose last `(` stands at `open`:
/// right after the report marker where the marker ends before that `(`, else at the
/// start of the line.
pub open spec fn name_slot_start(s: Seq<char>, open: int) -> int {
    match first_at(s, report_marker(), 0) {
        Some(m) => if m + report_marker().len() <= open {
            m + report_marker().len()
        } else {
            0
        },
        None => 0,
    }
}

/// The host named by a scan report line.
///
/// `... for <name> (<address>)` gives the address inside the last pair of parentheses.
/// The name is the text between the report marker and that `(`, trimmed, and of it
/// only the last space-separated word; it is given where it is non-empty and
/// differs from the address. Without parentheses the last whitespace-separated
/// word is the address, taken only where it starts with a digit.
pub open spec fn device_info(s: Seq<char>) -> Option<InfoView> {
    let n = s.len() as int;
    match last_of(s, '(', 0, n) {
        Some(open) => match last_of(s, ')', 0, n) {
            Some(close) => if open < close {
                let ip = s.subrange(open + 1, close);
                let slot = name_slot_start(s, open);
                let hh = trim_hi(s, slot, open);
                let hl = trim_lo(s, slot, hh);
                let word = match last_of(s, ' ', hl, hh) {
                    Some(sp) => sp + 1,
                    None => hl,
                };
                let nh = trim_hi(s, word, hh);
                let nl = trim_lo(s, word, nh);
                let name = s.subrange(nl, nh);
                if name.len() > 0 && name != ip {
                    Some((ip, Some(name)))
                } else {
                    Some((ip, None))
                }
            } else {
                None
            },
            None => None,
        },
        None => {
            let te = trim_hi(s, 0, n);
            let start = match last_ws(s, 0, te) {
                Some(w) => w + 1,
                None => 0,
            };
            if te > 0 && is_digit(s[start]) {
                Some((s.subrange(start, te), None))
            } else {
                None
            }
        },
    }
}

pub open spec fn opt_view(o: Option<String>) -> Option<Seq<char>> {
    match o {
        Some(x) => Some(x@),
        None => None,
    }
}

pub open spec fn info_view(r: Option<(String, Option<String>)>) -> Option<InfoView> {
    match r {
        Some((ip, name)) => Some((ip@, opt_view(name))),
        None => None,
    }
}

pub open spec fn opt_int(o: Option<usize>) -> Option<int> {
    match o {
        Some(i) => Some(i as int),
        None => None,
    }
}

fn find_last(cs: &Vec<char>, c: char, lo: usize, hi: usize) -> (r: Option<usize>)
    requires
        lo <= hi <= cs@.len(),
    ensures
        opt_int(r) == last_of(cs@, c, lo as int, hi as int),
        r matches Some(i) ==> lo <= i < hi,
{
    let mut h: usize = hi;
    while h > lo
        invariant
            lo <= h <= hi,
            hi <= cs@.len(),
            last_of(cs@, c, lo as int, hi as int) == last_of(cs@, c, lo as int, h as int),
        decreases h,
    {
        if cs[h - 1] == c {
            return Some(h - 1);
        }
        h = h - 1;
    }
    None
}

fn find_last_ws(cs: &Vec<char>, lo: usize, hi: usize) -> (r: Option<usize>)
    requires
        lo <= hi <= cs@.len(),
    ensures
        opt_int(r) == last_ws(cs@, lo as int, hi as int),
        r matches Some(i) ==> lo <= i < hi && is_ws(cs@[i as int]),
{
    let mut h: usize = hi;
    while h > lo
        invariant
            lo <= h <= hi,
            hi <= cs@.len(),
            last_ws(cs@, lo as int, hi as int) == last_ws(cs@, lo as int, h as int),
        decreases h,
    {
        if is_whitespace(cs[h - 1]) {
            return Some(h - 1);
        }
        h = h - 1;
    }
    None
}

fn trim_end(cs: &Vec<char>, lo: usize, hi: usize) -> (r: usize)
    requires
        lo <= hi <= cs@.len(),
    ensures
        r == trim_hi(cs@, lo as int, hi as int),
        lo <= r <= hi,
        r > lo ==> !is_ws(cs@[r - 1]),
{
    let mut h: usize = hi;
    while h > lo && is_whitespace(cs[h - 1])
        invariant
            lo <= h <= hi,
            hi <= cs@.len(),
            trim_hi(cs@, lo as int, hi as int) == trim_hi(cs@, lo as int, h as int),
        decreases h,
    {
        h = h - 1;
    }
    h
}

fn trim_start(cs: &Vec<char>, lo: usize, hi: usize) -> (r: usize)
    requires
        lo <= hi <= cs@.len(),
    ensures
        r == trim_lo(cs@, lo as int, hi as int),
        lo <= r <= hi,
{
    let mut l: usize = lo;
    while l < hi && is_whitespace(cs[l])
        invariant
            lo <= l <= hi,
            hi <= cs@.len(),
            trim_lo(cs@, lo as int, hi as int) == trim_lo(cs@, l as int, hi as int),
        decreases hi - l,
    {
        l = l + 1;
    }
    l
}

fn is_ascii_digit(c: char) -> (r: bool)
    ensures
        r == is_digit(c),
{
    '0' <= c && c <= '9'
}

fn piece(line: &str, from: usize, to: usize) -> (r: String)
    requires
        from <= to <= line@.len(),
    ensures
        r@ == line@.subrange(from as int, to as int),
{
    String::from_str(line.substring_char(from, to))
}

/// Reads the address and, where given, the host name from a scan report line.
pub fn extract_device_info_from_nmap_line(line: &str) -> (r: Option<(String, Option<String>)>)
    ensures
        info_view(r) == device_info(line@),
{
    let cs = chars_of(line);
    let n: usize = cs.len();
    match find_last(&cs, '(', 0, n) {
        Some(open) => match find_last(&cs, ')', 0, n) {
            Some(close) => {
                if open >= close {
                    return None;
                }
                let ip = piece(line, open + 1, close);
                let marker = chars_of("Nmap scan report for");
                let slot: usize = match find_first(&cs, &marker) {
                    Some(m) => if m + marker.len() <= open {
                        m + marker.len()
                    } else {
                        0
                    },
                    None => 0,
                };
                let hh = trim_end(&cs, slot, open);
                let hl = trim_start(&cs, slot, hh);
                let word: usize = match find_last(&cs, ' ', hl, hh) {
                    Some(sp) => sp + 1,
                    None => hl,
                };
                let nh = trim_end(&cs, word, hh);
                let nl = trim_start(&cs, word, nh);
                let name = piece(line, nl, nh);
                if nl < nh && !(name == ip) {
                    Some((ip, Some(name)))
                } else {
                    Some((ip, None))
                }
            },
            None => None,
        },
        None => {
            let te = trim_end(&cs, 0, n);
            let start: usize = match find_last_ws(&cs, 0, te) {
                Some(w) => w + 1,
                None => 0,
            };
            if te > 0 && is_ascii_digit(cs[start]) {
                Some((piece(line, start, te), None))
            } else {
                None
            }
        },
    }
}

/// The marker that opens every host report line of the scan output.
pub open spec fn report_marker() -> Seq<char> {
    "Nmap scan report for"@
}

/// A line as it stands between two line feeds, with a carriage return before the
/// feed dropped.
pub open spec fn strip_cr(l: Seq<char>) -> Seq<char> {
    if l.len() > 0 && l.last() == '\r' {
        l.drop_last()
    } else {
        l
    }
}

/// The lines of `s` from position `i` on, where the current line began at `start`.
/// Lines end at a line feed; a final line without one is kept when it is not empty.
pub open spec fn lines_from(s: Seq<char>, start: int, i: int) -> Seq<Seq<char>>
    decreases s.len() - i,
{
    if i >= s.len() {
        if start < s.len() {
            seq![s.subrange(start, s.len() as int)]
        } else {
            seq![]
        }
    } else if s[i] == '\n' {
        seq![strip_cr(s.subrange(start, i))] + lines_from(s, i + 1, i + 1)
    } else {
        lines_from(s, start, i + 1)
    }
}

pub open spec fn lines_of(s: Seq<char>) -> Seq<Seq<char>> {
    lines_from(s, 0, 0)
}

/// The host that one line of scan output reports, if any.
pub open spec fn report_of(line: Seq<char>) -> Option<InfoView> {
    if contains(line, report_marker()) {
        device_info(line)
    } else {
        None
    }
}

/// The hosts that a sequence of lines reports, in line order.
pub open spec fn reports_of(lines: Seq<Seq<char>>) -> Seq<InfoView>
    decreases lines.len(),
{
    if lines.len() == 0 {
        seq![]
    } else {
        let prev = reports_of(lines.drop_last());
        match report_of(lines.last()) {
            Some(h) => prev.push(h),
            None => prev,
        }
    }
}

/// A host that a discovery scan reported.
#[derive(Clone, Debug, PartialEq, Eq)]
pub struct HostCandidate {
    pub address: String,
    pub display_name: Option<String>,
}

impl HostCandidate {
    pub open spec fn view(self) -> InfoView {
        (self.address@, opt_view(self.display_name))
    }
}

pub open spec fn candidates_view(hs: Seq<HostCandidate>) -> Seq<InfoView> {
    hs.map_values(|h: HostCandidate| h.view())
}

/// Splits text into its lines.
pub fn split_lines(text: &str) -> (r: Vec<String>)
    ensures
        r.deep_view() == lines_of(text@),
{
    let cs = chars_of(text);
    let n: usize = cs.len();
    let mut out: Vec<String> = Vec::new();
    let mut start: usize = 0;
    let mut i: usize = 0;
    while i < n
        invariant
            n == cs@.len(),
            cs@ == text@,
            start <= i <= n,
            out.deep_view() + lines_from(cs@, start as int, i as int) == lines_of(text@),
        decreases n - i,
    {
        if cs[i] == '\n' {
            let end: usize = if i > start && cs[i - 1] == '\r' {
                i - 1
            } else {
                i
            };
            let line = piece(text, start, end);
            assert(line@ == strip_cr(cs@.subrange(start as int, i as int)));
            let ghost before = out.deep_view();
            out.push(line);
            assert(out.deep_view() =~= before.push(line@));
            assert(before + lines_from(cs@, start as int, i as int) =~= out.deep_view()
                + lines_from(cs@, i + 1, i + 1));
            start = i + 1;
        }
        i = i + 1;
    }
    if start < n {
        let line = piece(text, start, n);
        let ghost before = out.deep_view();
        out.push(line);
        assert(out.deep_view() =~= before.push(line@));
        assert(before + lines_from(cs@, start as int, i as int) =~= out.deep_view());
    } else {
        assert(out.deep_view() + lines_from(cs@, start as int, i as int) =~= out.deep_view());
    }
    out
}

/// The hosts that a discovery scan's output reports, in output order.
pub fn parse_scan_output(text: &str) -> (r: Vec<HostCandidate>)
    ensures
        candidates_view(r@) == reports_of(lines_of(text@)),
{
    let lines = split_lines(text);
    let marker = chars_of("Nmap scan report for");
    let mut out: Vec<HostCandidate> = Vec::new();
    let mut j: usize = 0;
    while j < lines.len()
        invariant
            j <= lines@.len(),
            lines.deep_view() == lines_of(text@),
            marker@ == report_marker(),
            candidates_view(out@) == reports_of(lines.deep_view().take(j as int)),
        decreases lines@.len() - j,
    {
        let line = lines[j].as_str();
        let ghost ls = lines.deep_view();
        assert(ls.take(j + 1).drop_last() =~= ls.take(j as int));
        assert(ls.take(j + 1).last() == line@);
        let lc = chars_of(line);
        if contains_exec(&lc, &marker) {
            match extract_device_info_from_nmap_line(line) {
                Some((address, display_name)) => {
                    let ghost before = out@;
                    out.push(HostCandidate { address, display_name });
                    assert(candidates_view(out@) =~= candidates_view(before).push(
                        out@.last().view(),
                    ));
                },
                None => {},
            }
        }
        j = j + 1;
    }
    assert(lines.deep_view().take(j as int) =~= lines.deep_view());
    out
}

/// A line that reports a host puts that host among the output's reports.
pub proof fn reports_include(lines: Seq<Seq<char>>, i: int)
    requires
        0 <= i < lines.len(),
        report_of(lines[i]) is Some,
    ensures
        reports_of(lines).contains(report_of(lines[i])->0),
    decreases lines.len(),
{
    let h = report_of(lines[i])->0;
    let prev = reports_of(lines.drop_last());
    if i == lines.len() - 1 {
        assert(reports_of(lines) == prev.push(h));
        assert(reports_of(lines)[prev.len() as int] == h);
    } else {
        assert(lines.drop_last()[i] == lines[i]);
        reports_include(lines.drop_last(), i);
        let k = choose|k: int| 0 <= k < prev.len() && prev[k] == h;
        match report_of(lines.last()) {
            Some(x) => assert(prev.push(x)[k] == h),
            None => {},
        }
    }
}

proof fn marker_opens(line: Seq<char>)
    requires
        line.len() >= 20,
        line.subrange(0, 20) == report_marker(),
    ensures
        contains(line, report_marker()),
{
    assert(occurs_at(line, report_marker(), 0));
}

/// Every scan output with the line `Nmap scan report for router (192.168.1.1)`
/// reports the host `192.168.1.1` under the name `router`.
pub proof fn named_report_is_read(text: Seq<char>, i: int)
    requires
        0 <= i < lines_of(text).len(),
        lines_of(text)[i] == "Nmap scan report for router (192.168.1.1)"@,
    ensures
        reports_of(lines_of(text)).contains(("192.168.1.1"@, Some("router"@))),
{
    let s = "Nmap scan report for router (192.168.1.1)"@;
    reveal_strlit("Nmap scan report for router (192.168.1.1)");
    reveal_strlit("Nmap scan report for");
    reveal_strlit("192.168.1.1");
    reveal_strlit("router");
    assert(s.subrange(0, 20) =~= report_marker());
    marker_opens(s);
    reveal_with_fuel(last_of, 30);
    reveal_with_fuel(trim_hi, 3);
    reveal_with_fuel(trim_lo, 3);
    assert(last_of(s, '(', 0, 41) == Some(28int));
    assert(last_of(s, ')', 0, 41) == Some(40int));
    assert(first_at(s, report_marker(), 0) == Some(0int));
    assert(name_slot_start(s, 28) == 20);
    assert(trim_hi(s, 20, 28) == 27);
    assert(trim_lo(s, 20, 27) == 21);
    assert(last_of(s, ' ', 21, 27) is None);
    assert(trim_hi(s, 21, 27) == 27);
    assert(trim_lo(s, 21, 27) == 21);
    assert(s.subrange(29, 40) =~= "192.168.1.1"@);
    assert(s.subrange(21, 27) =~= "router"@);
    assert(device_info(s) == Some(("192.168.1.1"@, Some("router"@))));
    reports_include(lines_of(text), i);
}

/// Every scan output with the line `Nmap scan report for 10.0.0.5` reports the host
/// `10.0.0.5` without a name.
pub proof fn bare_report_is_read(text: Seq<char>, i: int)
    requires
        0 <= i < lines_of(text).len(),
        lines_of(text)[i] == "Nmap scan report for 10.0.0.5"@,
    ensures
        reports_of(lines_of(text)).contains(("10.0.0.5"@, None::<Seq<char>>)),
{
    let s = "Nmap scan report for 10.0.0.5"@;
    reveal_strlit("Nmap scan report for 10.0.0.5");
    reveal_strlit("Nmap scan report for");
    reveal_strlit("10.0.0.5");
    assert(s.subrange(0, 20) =~= report_marker());
    marker_opens(s);
    reveal_with_fuel(last_of, 31);
    reveal_with_fuel(last_ws, 10);
    reveal_with_fuel(trim_hi, 2);
    assert(last_of(s, '(', 0, 29) is None);
    assert(trim_hi(s, 0, 29) == 29);
    assert(last_ws(s, 0, 29) == Some(20int));
    assert(s.subrange(21, 29) =~= "10.0.0.5"@);
    assert(device_info(s) == Some(("10.0.0.5"@, None::<Seq<char>>)));
    reports_include(lines_of(text), i);
}

} // verus!
