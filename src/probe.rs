//! The port probe: reading the listings of the operating system's tools to
//! find the processes bound to a port, and reporting what was killed.

use vstd::prelude::*;
use crate::text::{
    char_rows, chars_of, contains_chars, contains_seq, decimal, decimal_text, lemma_pieces_nonempty,
    pieces, push_decimal, split_pieces, split_words, string_of, text_rows, words,
};

verus! {

pub open spec fn is_digit(c: char) -> bool {
    '0' <= c && c <= '9'
}

pub open spec fn digit_value(c: char) -> nat {
    (c as int - '0' as int) as nat
}

/// The value of a run of decimal digits.
pub open spec fn digits_value(s: Seq<char>) -> nat
    decreases s.len(),
{
    if s.len() == 0 {
        0
    } else {
        digits_value(s.drop_last()) * 10 + digit_value(s.last())
    }
}

/// The digits of an unsigned number: a leading `+` is allowed.
pub open spec fn unsigned_digits(t: Seq<char>) -> Seq<char> {
    if t.len() > 0 && t[0] == '+' {
        t.drop_first()
    } else {
        t
    }
}

/// `t` read as a `u32`, as `str::parse` reads it: an optional `+`, then one
/// or more decimal digits, with a value that fits.
pub open spec fn parse_u32(t: Seq<char>) -> Option<u32> {
    if valid_u32_digits(unsigned_digits(t)) {
        Some(digits_value(unsigned_digits(t)) as u32)
    } else {
        None
    }
}

/// One or more decimal digits whose value fits in a `u32`.
pub open spec fn valid_u32_digits(d: Seq<char>) -> bool {
    &&& d.len() > 0
    &&& forall|i: int| 0 <= i < d.len() ==> #[trigger] is_digit(d[i])
    &&& digits_value(d) <= u32::MAX
}

proof fn lemma_digits_value_grows(s: Seq<char>, k: int)
    requires
        0 <= k <= s.len(),
        forall|i: int| 0 <= i < s.len() ==> #[trigger] is_digit(s[i]),
    ensures
        digits_value(s.take(k)) <= digits_value(s),
    decreases s.len(),
{
    if k < s.len() {
        let t = s.drop_last();
        assert forall|i: int| 0 <= i < t.len() implies #[trigger] is_digit(t[i]) by {
            assert(t[i] == s[i]);
        }
        lemma_digits_value_grows(t, k);
        assert(t.take(k) =~= s.take(k));
    } else {
        assert(s.take(k) =~= s);
    }
}

/// Reads `t` as a `u32`.
pub fn parse_u32_chars(t: &Vec<char>) -> (r: Option<u32>)
    ensures
        r == parse_u32(t@),
{
    let start: usize = if t.len() > 0 && t[0] == '+' {
        1
    } else {
        0
    };
    let ghost d = unsigned_digits(t@);
    assert(d =~= t@.skip(start as int));
    if start >= t.len() {
        return None;
    }
    let mut value: u64 = 0;
    let mut i: usize = start;
    while i < t.len()
        invariant
            start <= i <= t@.len(),
            start < t@.len(),
            d =~= t@.skip(start as int),
            d == unsigned_digits(t@),
            forall|j: int| 0 <= j < i - start ==> #[trigger] is_digit(d[j]),
            value == digits_value(d.take(i - start)),
            value <= u32::MAX,
        decreases t@.len() - i,
    {
        let c = t[i];
        assert(d[i - start] == c);
        if !('0' <= c && c <= '9') {
            assert(!is_digit(d[i - start]));
            return None;
        }
        let v: u64 = value * 10 + (c as u64 - '0' as u64);
        assert(d.take(i - start + 1).drop_last() =~= d.take(i - start));
        assert(v == digits_value(d.take(i - start + 1)));
        if v > 0xffff_ffffu64 {
            proof {
                if forall|j: int| 0 <= j < d.len() ==> #[trigger] is_digit(d[j]) {
                    lemma_digits_value_grows(d, i - start + 1);
                }
            }
            return None;
        }
        value = v;
        i = i + 1;
    }
    assert(d.take(d.len() as int) =~= d);
    Some(value as u32)
}

/// The pid on one line of a pid listing: the line's only word, read as a
/// `u32`, as trimming the line and parsing it does.
pub open spec fn pid_of_line(line: Seq<char>) -> Option<u32> {
    if words(line).len() == 1 {
        parse_u32(words(line)[0])
    } else {
        None
    }
}

/// The pids of a listing with one pid per line; other lines are skipped.
pub open spec fn listed_pids(lines: Seq<Seq<char>>) -> Seq<u32>
    decreases lines.len(),
{
    if lines.len() == 0 {
        seq![]
    } else {
        let rest = listed_pids(lines.drop_last());
        match pid_of_line(lines.last()) {
            Some(p) => rest.push(p),
            None => rest,
        }
    }
}

/// Reads the pids out of a terse `lsof` listing, one pid per line.
pub fn lsof_pids(output: &str) -> (r: Vec<u32>)
    ensures
        r@ == listed_pids(pieces(output@)),
{
    let text = chars_of(output);
    let lines = split_pieces(&text);
    let mut pids: Vec<u32> = Vec::new();
    let mut i: usize = 0;
    while i < lines.len()
        invariant
            i <= lines@.len(),
            char_rows(lines@) == pieces(output@),
            pids@ == listed_pids(char_rows(lines@).take(i as int)),
        decreases lines@.len() - i,
    {
        let ws = split_words(&lines[i]);
        proof {
            assert(char_rows(lines@).take(i + 1).drop_last() =~= char_rows(lines@).take(i as int));
            assert(char_rows(lines@).take(i + 1).last() == lines@[i as int]@);
        }
        if ws.len() == 1 {
            assert(char_rows(ws@)[0] == ws@[0]@);
            match parse_u32_chars(&ws[0]) {
                Some(p) => {
                    pids.push(p);
                },
                None => {},
            }
        }
        i = i + 1;
    }
    assert(char_rows(lines@).take(lines@.len() as int) =~= char_rows(lines@));
    pids
}

/// The entry for one line of an `lsof` listing: its command and pid, the
/// first two words, where the line has two or more.
pub open spec fn listing_entry(line: Seq<char>) -> Option<Seq<char>> {
    let w = words(line);
    if w.len() >= 2 {
        Some(process_entry_text(w[0], w[1]))
    } else {
        None
    }
}

/// The description of a process: `name (PID: pid)`.
pub open spec fn process_entry_text(name: Seq<char>, pid: Seq<char>) -> Seq<char> {
    name + " (PID: "@ + pid + ")"@
}

/// The entries for the lines of a listing, in order.
pub open spec fn listing_entries(lines: Seq<Seq<char>>) -> Seq<Seq<char>>
    decreases lines.len(),
{
    if lines.len() == 0 {
        seq![]
    } else {
        let rest = listing_entries(lines.drop_last());
        match listing_entry(lines.last()) {
            Some(e) => rest.push(e),
            None => rest,
        }
    }
}

/// Describes a process by name and pid.
pub fn process_entry(name: &str, pid: &str) -> (r: String)
    ensures
        r@ == process_entry_text(name@, pid@),
{
    let mut r = String::from_str(name);
    r.append(" (PID: ");
    r.append(pid);
    r.append(")");
    r
}

/// The processes of an `lsof` listing: the header line is skipped, and each
/// later line with at least two words gives its command and pid.
pub fn lsof_entries(output: &str) -> (r: Vec<String>)
    ensures
        text_rows(r@) == listing_entries(pieces(output@).drop_first()),
{
    let text = chars_of(output);
    let lines = split_pieces(&text);
    proof {
        lemma_pieces_nonempty(output@);
    }
    let ghost body = char_rows(lines@).drop_first();
    let mut entries: Vec<String> = Vec::new();
    let mut i: usize = 1;
    while i < lines.len()
        invariant
            1 <= i <= lines@.len(),
            char_rows(lines@) == pieces(output@),
            body == char_rows(lines@).drop_first(),
            text_rows(entries@) == listing_entries(body.take(i - 1)),
        decreases lines@.len() - i,
    {
        let ws = split_words(&lines[i]);
        proof {
            assert(body.take(i as int).drop_last() =~= body.take(i - 1));
            assert(body.take(i as int).last() == lines@[i as int]@);
        }
        if ws.len() >= 2 {
            let name = string_of(&ws[0]);
            let pid = string_of(&ws[1]);
            assert(char_rows(ws@)[0] == ws@[0]@ && char_rows(ws@)[1] == ws@[1]@);
            let e = process_entry(name.as_str(), pid.as_str());
            let ghost before = entries@;
            entries.push(e);
            assert(text_rows(entries@) =~= text_rows(before).push(e@));
        }
        i = i + 1;
    }
    assert(body.take(body.len() as int) =~= body);
    entries
}

/// The text reporting the killed pids, in the order they were killed.
pub open spec fn kill_report_text(killed: Seq<u32>) -> Seq<char> {
    if killed.len() == 0 {
        "No processes found using the port"@
    } else {
        "Killed "@ + decimal(killed.len()) + " process(es) with PID(s): "@ + joined_pids(killed)
    }
}

/// The pids in decimal, separated by `, `.
pub open spec fn joined_pids(pids: Seq<u32>) -> Seq<char>
    decreases pids.len(),
{
    if pids.len() == 0 {
        seq![]
    } else if pids.len() == 1 {
        decimal(pids[0] as nat)
    } else {
        joined_pids(pids.drop_last()) + ", "@ + decimal(pids.last() as nat)
    }
}

/// Reports the pids that were killed.
pub fn kill_report(killed: &Vec<u32>) -> (r: String)
    ensures
        r@ == kill_report_text(killed@),
{
    if killed.len() == 0 {
        return String::from_str("No processes found using the port");
    }
    let mut r = String::from_str("Killed ");
    push_decimal(&mut r, killed.len() as u64);
    r.append(" process(es) with PID(s): ");
    let ghost head = r@;
    let mut i: usize = 0;
    while i < killed.len()
        invariant
            i <= killed@.len(),
            r@ == head + joined_pids(killed@.take(i as int)),
        decreases killed@.len() - i,
    {
        if i > 0 {
            r.append(", ");
        }
        push_decimal(&mut r, killed[i] as u64);
        proof {
            let t = killed@.take(i + 1);
            assert(t.drop_last() =~= killed@.take(i as int));
            if i == 0 {
                assert(joined_pids(killed@.take(0)) == Seq::<char>::empty());
            }
        }
        assert(r@ =~= head + joined_pids(killed@.take(i + 1)));
        i = i + 1;
    }
    assert(killed@.take(killed@.len() as int) =~= killed@);
    r
}

/// Reads a pid field, as `str::parse::<u32>` does.
pub fn parse_pid(field: &str) -> (r: Option<u32>)
    ensures
        r == parse_u32(field@),
{
    parse_u32_chars(&chars_of(field))
}

/// The pid field of a `netstat` line that shows a listener on `port`: its
/// last word.
pub open spec fn netstat_pid(line: Seq<char>, port: u16) -> Option<Seq<char>> {
    if contains_seq(line, seq![':'] + decimal(port as nat)) && contains_seq(line, "LISTENING"@)
        && words(line).len() > 0 {
        Some(words(line).last())
    } else {
        None
    }
}

/// The pid fields of the listeners on `port`, in order.
pub open spec fn netstat_pids(lines: Seq<Seq<char>>, port: u16) -> Seq<Seq<char>>
    decreases lines.len(),
{
    if lines.len() == 0 {
        seq![]
    } else {
        let rest = netstat_pids(lines.drop_last(), port);
        match netstat_pid(lines.last(), port) {
            Some(p) => rest.push(p),
            None => rest,
        }
    }
}

/// The pid fields of the lines of a `netstat -ano` listing that show a
/// listener on `port`.
pub fn netstat_listeners(output: &str, port: u16) -> (r: Vec<String>)
    ensures
        text_rows(r@) == netstat_pids(pieces(output@), port),
{
    let text = chars_of(output);
    let lines = split_pieces(&text);
    let mut pattern: Vec<char> = Vec::new();
    pattern.push(':');
    let mut digits = chars_of(decimal_text(port as u64).as_str());
    pattern.append(&mut digits);
    assert(pattern@ =~= seq![':'] + decimal(port as nat));
    let listening = chars_of("LISTENING");
    let mut pids: Vec<String> = Vec::new();
    let mut i: usize = 0;
    while i < lines.len()
        invariant
            i <= lines@.len(),
            char_rows(lines@) == pieces(output@),
            pattern@ == seq![':'] + decimal(port as nat),
            listening@ == "LISTENING"@,
            text_rows(pids@) == netstat_pids(char_rows(lines@).take(i as int), port),
        decreases lines@.len() - i,
    {
        proof {
            assert(char_rows(lines@).take(i + 1).drop_last() =~= char_rows(lines@).take(i as int));
            assert(char_rows(lines@).take(i + 1).last() == lines@[i as int]@);
        }
        if contains_chars(&lines[i], &pattern) && contains_chars(&lines[i], &listening) {
            let ws = split_words(&lines[i]);
            if ws.len() > 0 {
                let last = string_of(&ws[ws.len() - 1]);
                assert(char_rows(ws@).last() == ws@[ws@.len() - 1]@);
                let ghost before = pids@;
                pids.push(last);
                assert(text_rows(pids@) =~= text_rows(before).push(last@));
            }
        }
        i = i + 1;
    }
    assert(char_rows(lines@).take(lines@.len() as int) =~= char_rows(lines@));
    pids
}

/// The characters of `s` before the first `sep`, or all of them.
pub open spec fn before_sep(s: Seq<char>, sep: char) -> Seq<char>
    decreases s.len(),
{
    if s.len() == 0 {
        s
    } else if s[0] == sep {
        seq![]
    } else {
        seq![s[0]] + before_sep(s.drop_first(), sep)
    }
}

/// `s` without the characters `c` at its start.
pub open spec fn drop_leading(s: Seq<char>, c: char) -> Seq<char>
    decreases s.len(),
{
    if s.len() > 0 && s[0] == c {
        drop_leading(s.drop_first(), c)
    } else {
        s
    }
}

/// `s` without the characters `c` at its end.
pub open spec fn drop_trailing(s: Seq<char>, c: char) -> Seq<char>
    decreases s.len(),
{
    if s.len() > 0 && s.last() == c {
        drop_trailing(s.drop_last(), c)
    } else {
        s
    }
}

/// The first line of `s`, without its line ending; none for empty text.
pub open spec fn first_line(s: Seq<char>) -> Option<Seq<char>> {
    if s.len() == 0 {
        None
    } else {
        let p = pieces(s);
        if p.len() > 1 && p[0].len() > 0 && p[0].last() == '\r' {
            Some(p[0].drop_last())
        } else {
            Some(p[0])
        }
    }
}

/// The image name in the first line of a CSV `tasklist` listing: its first
/// field without the surrounding quotes.
pub open spec fn image_name(line: Seq<char>) -> Seq<char> {
    drop_trailing(drop_leading(before_sep(line, ','), '"'), '"')
}

/// The entry for a pid found by `netstat`: named after the `tasklist`
/// listing when the tool ran (nothing when it listed nothing), and unknown
/// when it did not run.
pub open spec fn tasklist_entry_text(listing: Option<Seq<char>>, pid: Seq<char>) -> Option<
    Seq<char>,
> {
    match listing {
        None => Some("Unknown process (PID: "@ + pid + ")"@),
        Some(out) => match first_line(out) {
            Some(line) => Some(process_entry_text(image_name(line), pid)),
            None => None,
        },
    }
}

/// The first field of `s` with the quote characters around it removed.
fn unquoted_first_field(s: &Vec<char>) -> (r: Vec<char>)
    ensures
        r@ == image_name(s@),
{
    let mut end: usize = 0;
    assert(s@.skip(0) =~= s@);
    assert(s@.take(0) + s@ =~= s@);
    while end < s.len() && s[end] != ','
        invariant
            end <= s@.len(),
            forall|j: int| 0 <= j < end ==> s@[j] != ',',
            before_sep(s@, ',') == s@.take(end as int) + before_sep(s@.skip(end as int), ','),
        decreases s@.len() - end,
    {
        proof {
            let rest = s@.skip(end as int);
            assert(rest.drop_first() =~= s@.skip(end + 1));
            assert(s@.take(end + 1) =~= s@.take(end as int) + seq![rest[0]]);
        }
        end = end + 1;
    }
    proof {
        let rest = s@.skip(end as int);
        if end < s@.len() {
            assert(rest[0] == ',');
        } else {
            assert(rest.len() == 0);
        }
        assert(before_sep(rest, ',') =~= seq![]);
    }
    let ghost field = s@.take(end as int);
    assert(before_sep(s@, ',') =~= field);
    let mut lo: usize = 0;
    while lo < end && s[lo] == '"'
        invariant
            lo <= end <= s@.len(),
            field == s@.take(end as int),
            drop_leading(field, '"') == drop_leading(s@.subrange(lo as int, end as int), '"'),
        decreases end - lo,
    {
        assert(s@.subrange(lo as int, end as int).drop_first() =~= s@.subrange(lo + 1, end as int));
        lo = lo + 1;
    }
    assert(drop_leading(s@.subrange(lo as int, end as int), '"') =~= s@.subrange(lo as int, end as int));
    let mut hi: usize = end;
    while hi > lo && s[hi - 1] == '"'
        invariant
            lo <= hi <= end <= s@.len(),
            drop_trailing(drop_leading(field, '"'), '"') == drop_trailing(s@.subrange(lo as int, hi as int), '"'),
        decreases hi - lo,
    {
        assert(s@.subrange(lo as int, hi as int).drop_last() =~= s@.subrange(lo as int, hi - 1));
        hi = hi - 1;
    }
    assert(drop_trailing(s@.subrange(lo as int, hi as int), '"') =~= s@.subrange(lo as int, hi as int));
    let mut r: Vec<char> = Vec::new();
    let mut k: usize = lo;
    while k < hi
        invariant
            lo <= k <= hi <= s@.len(),
            r@ == s@.subrange(lo as int, k as int),
        decreases hi - k,
    {
        r.push(s[k]);
        assert(r@ =~= s@.subrange(lo as int, k + 1));
        k = k + 1;
    }
    r
}

/// The entry for the pid `pid`, given the `tasklist` listing for it, or
/// `None` where the tool could not be run.
pub fn tasklist_entry(listing: Option<&str>, pid: &str) -> (r: Option<String>)
    ensures
        match tasklist_entry_text(
            match listing {
                Some(out) => Some(out@),
                None => None,
            },
            pid@,
        ) {
            Some(e) => r matches Some(s) && s@ == e,
            None => r is None,
        },
{
    match listing {
        None => {
            let mut r = String::from_str("Unknown process (PID: ");
            r.append(pid);
            r.append(")");
            Some(r)
        },
        Some(out) => {
            let text = chars_of(out);
            if text.len() == 0 {
                return None;
            }
            let lines = split_pieces(&text);
            proof {
                lemma_pieces_nonempty(out@);
            }
            let mut line = lines[0].clone();
            assert(line@ == pieces(out@)[0]);
            if lines.len() > 1 && line.len() > 0 && line[line.len() - 1] == '\r' {
                line.pop();
                assert(line@ =~= pieces(out@)[0].drop_last());
            }
            let name = string_of(&unquoted_first_field(&line));
            Some(process_entry(name.as_str(), pid))
        },
    }
}

/// The pids that a sweep of a port has killed, in order.
pub struct PortSweep {
    killed: Vec<u32>,
}

impl PortSweep {
    pub closed spec fn spec_killed(&self) -> Seq<u32> {
        self.killed@
    }

    pub fn new() -> (r: PortSweep)
        ensures
            r.spec_killed() == Seq::<u32>::empty(),
    {
        PortSweep { killed: Vec::new() }
    }

    /// Records `pid` as killed when the kill request could be issued.
    pub fn record(&mut self, pid: u32, issued: bool)
        ensures
            final(self).spec_killed() == (if issued {
                old(self).spec_killed().push(pid)
            } else {
                old(self).spec_killed()
            }),
    {
        if issued {
            self.killed.push(pid);
        }
    }

    /// The report of the sweep.
    pub fn report(&self) -> (r: String)
        ensures
            r@ == kill_report_text(self.spec_killed()),
    {
        kill_report(&self.killed)
    }
}

/// A process that was asked to terminate gets a forceful kill when the
/// liveness check ran and found it still alive.
pub fn needs_forceful_kill(check_ran: bool, still_alive: bool) -> (r: bool)
    ensures
        r == (check_ran && still_alive),
{
    check_ran && still_alive
}

} // verus!
