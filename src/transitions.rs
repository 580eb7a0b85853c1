//! Tailing the input-sharing tool's log: the hand-offs of the pointer between
//! machines, read from lines appended to the log.
use vstd::prelude::*;
use vstd::string::StringExecFns;
use vstd::utf8::{decode_utf8, valid_utf8};

verus! {

/// Which way the pointer went.
#[derive(Debug, Clone, Copy, PartialEq, Eq, Structural)]
pub enum TransitionType {
    /// The pointer left this machine for another.
    Left,
    /// The pointer came back to this machine from another.
    Returned,
}

/// A hand-off of the pointer, with the name of the other machine.
#[derive(Debug, Clone)]
pub struct CursorTransition {
    pub transition_type: TransitionType,
    pub screen_name: String,
}

impl View for CursorTransition {
    type V = (TransitionType, Seq<char>);

    open spec fn view(&self) -> (TransitionType, Seq<char>) {
        (self.transition_type, self.screen_name@)
    }
}

/// Why the monitor could not start.
#[derive(Debug, Clone, Copy, PartialEq, Eq, Structural)]
pub enum MonitorError {
    /// None of the candidate log locations exists.
    LogNotFound,
}

/// What `str::to_lowercase` makes of `s`.
pub uninterp spec fn lower_of(s: Seq<char>) -> Seq<char>;

/// Relies on `str::to_lowercase`: the result depends on the characters alone.
#[verifier::external_body]
fn lowercase(s: &str) -> (r: String)
    ensures
        r@ == lower_of(s@),
{
    s.to_lowercase()
}

/// Whether `needle` occurs in `hay` as a run of consecutive characters.
pub open spec fn has_substring(hay: Seq<char>, needle: Seq<char>) -> bool {
    exists|i: int|
        0 <= i && i + needle.len() <= hay.len() && #[trigger] hay.subrange(i, i + needle.len())
            == needle
}

/// Relies on `str::contains` with a string pattern: true exactly when the
/// pattern occurs in `hay`.
#[verifier::external_body]
fn contains(hay: &str, needle: &str) -> (r: bool)
    ensures
        r == has_substring(hay@, needle@),
{
    hay.contains(needle)
}

/// What the `regex` crate captures as group 1 of the leftmost match of
/// `pattern` in `text` (nothing when the pattern does not compile or match).
pub uninterp spec fn regex_group(pattern: Seq<char>, text: Seq<char>) -> Option<Seq<char>>;

pub open spec fn opt_view(o: Option<String>) -> Option<Seq<char>> {
    match o {
        Some(s) => Some(s@),
        None => None,
    }
}

/// Relies on `regex::Regex::new` and `Regex::captures`: group 1 of the leftmost
/// match, which depends on the pattern and the text alone.
#[verifier::external_body]
fn capture_group(pattern: &str, text: &str) -> (r: Option<String>)
    ensures
        opt_view(r) == regex_group(pattern@, text@),
{
    match regex::Regex::new(pattern) {
        Ok(re) => re.captures(text).and_then(|c| c.get(1)).map(|m| m.as_str().to_string()),
        Err(_) => None,
    }
}

/// Relies on `String::from_utf8`: the text when the bytes are valid UTF-8,
/// nothing otherwise.
#[verifier::external_body]
fn utf8_text(bytes: Vec<u8>) -> (r: Option<String>)
    ensures
        r is Some <==> valid_utf8(bytes@),
        r is Some ==> r->0@ == decode_utf8(bytes@),
{
    String::from_utf8(bytes).ok()
}

/// Patterns that name the machine the pointer goes to, tried in order.
pub open spec fn leaving_patterns() -> Seq<Seq<char>> {
    seq![
        "switching to ([\\w\\-\\.]+)"@,
        "switch to ([\\w\\-\\.]+)"@,
        "leaving .*?to ([\\w\\-\\.]+)"@,
        "-> ([\\w\\-\\.]+)"@,
    ]
}

/// Patterns that name the machine the pointer comes from, tried in order.
pub open spec fn entering_patterns() -> Seq<Seq<char>> {
    seq![
        "switching from ([\\w\\-\\.]+)"@,
        "switch from ([\\w\\-\\.]+)"@,
        "entering .*?from ([\\w\\-\\.]+)"@,
        "<- ([\\w\\-\\.]+)"@,
    ]
}

/// The capture of the first pattern in `patterns` that captures anything in `line`.
pub open spec fn first_capture(patterns: Seq<Seq<char>>, line: Seq<char>) -> Option<Seq<char>>
    decreases patterns.len(),
{
    if patterns.len() == 0 {
        None
    } else {
        match regex_group(patterns[0], line) {
            Some(name) => Some(name),
            None => first_capture(patterns.drop_first(), line),
        }
    }
}

/// The other machine's name in `line`, going by the leaving or the entering patterns.
pub open spec fn screen_name_in(line: Seq<char>, leaving: bool) -> Option<Seq<char>> {
    first_capture(if leaving { leaving_patterns() } else { entering_patterns() }, line)
}

/// Extracts the other machine's name from a log line.
pub fn extract_screen_name(line: &str, leaving: bool) -> (r: Option<String>)
    ensures
        opt_view(r) == screen_name_in(line@, leaving),
{
    let patterns: [&str; 4] = if leaving {
        [
            "switching to ([\\w\\-\\.]+)",
            "switch to ([\\w\\-\\.]+)",
            "leaving .*?to ([\\w\\-\\.]+)",
            "-> ([\\w\\-\\.]+)",
        ]
    } else {
        [
            "switching from ([\\w\\-\\.]+)",
            "switch from ([\\w\\-\\.]+)",
            "entering .*?from ([\\w\\-\\.]+)",
            "<- ([\\w\\-\\.]+)",
        ]
    };
    let ghost pats = if leaving { leaving_patterns() } else { entering_patterns() };
    assert(patterns@.map_values(|p: &str| p@) =~= pats);
    assert(pats.subrange(0, 4) =~= pats);
    let mut i: usize = 0;
    while i < 4
        invariant
            0 <= i <= 4,
            patterns@.map_values(|p: &str| p@) == pats,
            first_capture(pats.subrange(i as int, 4), line@) == screen_name_in(line@, leaving),
        decreases 4 - i,
    {
        assert(pats.subrange(i as int, 4)[0] == patterns@[i as int]@);
        let found = capture_group(patterns[i], line);
        if found.is_some() {
            return found;
        }
        assert(pats.subrange(i as int, 4).drop_first() =~= pats.subrange(i + 1, 4));
        i = i + 1;
    }
    None
}

/// Whether the lower-cased line says the pointer goes elsewhere.
pub open spec fn says_leaving(lower: Seq<char>) -> bool {
    has_substring(lower, "leaving"@) || has_substring(lower, "switch to"@) || has_substring(
        lower,
        "switching to"@,
    )
}

/// Whether the lower-cased line says the pointer comes back.
pub open spec fn says_entering(lower: Seq<char>) -> bool {
    has_substring(lower, "entering"@) || has_substring(lower, "switch from"@) || has_substring(
        lower,
        "switching from"@,
    )
}

/// The name found by the patterns, or `remote` when none captures one.
pub open spec fn name_or_remote(found: Option<Seq<char>>) -> Seq<char> {
    match found {
        Some(name) => name,
        None => "remote"@,
    }
}

/// The hand-off that a log line reports: leaving takes precedence over
/// entering; a line that reports neither gives nothing.
pub open spec fn transition_of(line: Seq<char>) -> Option<(TransitionType, Seq<char>)> {
    let lower = lower_of(line);
    if says_leaving(lower) {
        Some((TransitionType::Left, name_or_remote(screen_name_in(line, true))))
    } else if says_entering(lower) {
        Some((TransitionType::Returned, name_or_remote(screen_name_in(line, false))))
    } else {
        None
    }
}

pub open spec fn opt_transition_view(o: Option<CursorTransition>) -> Option<(TransitionType, Seq<char>)> {
    match o {
        Some(t) => Some(t@),
        None => None,
    }
}

fn name_or_default(found: Option<String>) -> (r: String)
    ensures
        r@ == name_or_remote(opt_view(found)),
{
    match found {
        Some(name) => name,
        None => String::from_str("remote"),
    }
}

/// Reads a hand-off of the pointer out of one log line.
pub fn parse_transition_event(line: &str) -> (r: Option<CursorTransition>)
    ensures
        opt_transition_view(r) == transition_of(line@),
{
    let lower = lowercase(line);
    if contains(&lower, "leaving") || contains(&lower, "switch to") || contains(
        &lower,
        "switching to",
    ) {
        let screen_name = name_or_default(extract_screen_name(line, true));
        return Some(CursorTransition { transition_type: TransitionType::Left, screen_name });
    }
    if contains(&lower, "entering") || contains(&lower, "switch from") || contains(
        &lower,
        "switching from",
    ) {
        let screen_name = name_or_default(extract_screen_name(line, false));
        return Some(CursorTransition { transition_type: TransitionType::Returned, screen_name });
    }
    None
}

/// `line` without one carriage return at its end.
pub open spec fn strip_cr(line: Seq<u8>) -> Seq<u8> {
    if line.len() > 0 && line.last() == 13 {
        line.drop_last()
    } else {
        line
    }
}

/// Reading `data` byte by byte: the lines finished by a newline (with a
/// carriage return before the newline dropped) and the unfinished rest.
pub open spec fn scan_lines(data: Seq<u8>) -> (Seq<Seq<u8>>, Seq<u8>)
    decreases data.len(),
{
    if data.len() == 0 {
        (seq![], seq![])
    } else {
        let (done, rest) = scan_lines(data.drop_last());
        if data.last() == 10 {
            (done.push(strip_cr(rest)), seq![])
        } else {
            (done, rest.push(data.last()))
        }
    }
}

/// The lines of `data`: those ended by a newline, then the unfinished rest if
/// it is not empty.
pub open spec fn lines_of(data: Seq<u8>) -> Seq<Seq<u8>> {
    let (done, rest) = scan_lines(data);
    if rest.len() > 0 {
        done.push(rest)
    } else {
        done
    }
}

/// The hand-off reported by one line of bytes; a line that is not valid UTF-8
/// reports none.
pub open spec fn line_transition(line: Seq<u8>) -> Option<(TransitionType, Seq<char>)> {
    if valid_utf8(line) {
        transition_of(decode_utf8(line))
    } else {
        None
    }
}

/// The hand-offs reported by `lines`, in line order.
pub open spec fn transitions_in(lines: Seq<Seq<u8>>) -> Seq<(TransitionType, Seq<char>)>
    decreases lines.len(),
{
    if lines.len() == 0 {
        seq![]
    } else {
        let before = transitions_in(lines.drop_last());
        match line_transition(lines.last()) {
            Some(t) => before.push(t),
            None => before,
        }
    }
}

pub open spec fn transitions_view(v: Seq<CursorTransition>) -> Seq<(TransitionType, Seq<char>)> {
    v.map_values(|t: CursorTransition| t@)
}

proof fn lemma_transitions_push(lines: Seq<Seq<u8>>, line: Seq<u8>)
    ensures
        transitions_in(lines.push(line)) == match line_transition(line) {
            Some(t) => transitions_in(lines).push(t),
            None => transitions_in(lines),
        },
{
    assert(lines.push(line).drop_last() =~= lines);
}

fn push_line_transition(out: &mut Vec<CursorTransition>, line: Vec<u8>)
    ensures
        transitions_view(final(out)@) == match line_transition(line@) {
            Some(t) => transitions_view(old(out)@).push(t),
            None => transitions_view(old(out)@),
        },
{
    if let Some(text) = utf8_text(line) {
        if let Some(t) = parse_transition_event(&text) {
            out.push(t);
            assert(transitions_view(out@) =~= transitions_view(old(out)@).push(t@));
        }
    }
}

/// The hand-offs reported by the lines of `data`, in line order.
pub fn transitions_in_bytes(data: &[u8]) -> (r: Vec<CursorTransition>)
    ensures
        transitions_view(r@) == transitions_in(lines_of(data@)),
{
    let mut out: Vec<CursorTransition> = Vec::new();
    let mut current: Vec<u8> = Vec::new();
    let mut i: usize = 0;
    assert(data@.subrange(0, 0) =~= Seq::<u8>::empty());
    while i < data.len()
        invariant
            0 <= i <= data@.len(),
            transitions_view(out@) == transitions_in(scan_lines(data@.subrange(0, i as int)).0),
            current@ == scan_lines(data@.subrange(0, i as int)).1,
        decreases data@.len() - i,
    {
        let b = data[i];
        let ghost before = data@.subrange(0, i as int);
        assert(data@.subrange(0, i + 1).drop_last() =~= before);
        let ghost (done, rest) = scan_lines(before);
        if b == 10 {
            let len = current.len();
            if len > 0 && current[len - 1] == 13 {
                current.pop();
                assert(current@ =~= rest.drop_last());
            }
            proof {
                lemma_transitions_push(done, strip_cr(rest));
            }
            push_line_transition(&mut out, current);
            current = Vec::new();
        } else {
            current.push(b);
        }
        i = i + 1;
    }
    assert(data@.subrange(0, data@.len() as int) =~= data@);
    if current.len() > 0 {
        proof {
            lemma_transitions_push(scan_lines(data@).0, current@);
        }
        push_line_transition(&mut out, current);
    }
    out
}

/// Where reading resumes after a change notification that found the log
/// `current_size` bytes long: the end of the log when it grew, else where it was.
pub open spec fn next_offset(offset: int, current_size: int) -> int {
    if current_size > offset {
        current_size
    } else {
        offset
    }
}

/// The bytes `[start, end)` that one notification reads; empty when the log did not grow.
pub open spec fn read_range(offset: int, current_size: int) -> (int, int) {
    if current_size > offset {
        (offset, current_size)
    } else {
        (offset, offset)
    }
}

/// Two notifications in a row never read a byte twice: the second starts
/// where the first ended, and the read offset never goes back.
pub proof fn lemma_reads_never_overlap(offset: int, first_size: int, second_size: int)
    ensures
        ({
            let (s1, e1) = read_range(offset, first_size);
            let (s2, e2) = read_range(next_offset(offset, first_size), second_size);
            &&& s1 <= e1 <= s2 <= e2
            &&& offset <= next_offset(offset, first_size) <= next_offset(
                next_offset(offset, first_size),
                second_size,
            )
        }),
{
}

/// Paths, below a known directory, where the input-sharing tool may keep its log.
#[derive(Debug, Clone, Copy, PartialEq, Eq, Structural)]
pub enum LogRoot {
    /// The user's local data directory.
    DataLocal,
    /// The user's home directory.
    Home,
    /// The file system root: the relative path is absolute.
    Absolute,
}

/// One place to look for the log.
#[derive(Debug, Clone, Copy)]
pub struct LogCandidate {
    pub root: LogRoot,
    pub relative: &'static str,
}

/// Number of places searched for the log.
pub const LOG_CANDIDATE_COUNT: usize = 6;

/// The places to look for the log, in the order they are tried: the local data
/// directory, the home directory (plain, XDG, snap and flatpak layouts) and the
/// system log directory.
pub fn log_candidates() -> (r: Vec<LogCandidate>)
    ensures
        r@.len() == LOG_CANDIDATE_COUNT,
        r@[0].root == LogRoot::DataLocal && r@[0].relative@ == "synergy/synergy.log"@,
        r@[1].root == LogRoot::Home && r@[1].relative@ == ".synergy/synergy.log"@,
        r@[2].root == LogRoot::Home && r@[2].relative@ == ".local/share/synergy/synergy.log"@,
        r@[3].root == LogRoot::Absolute && r@[3].relative@ == "/var/log/synergy.log"@,
        r@[4].root == LogRoot::Home && r@[4].relative@ == "snap/synergy/current/.synergy/synergy.log"@,
        r@[5].root == LogRoot::Home && r@[5].relative@
            == ".var/app/com.symless.Synergy/data/synergy/synergy.log"@,
{
    vec![
        LogCandidate { root: LogRoot::DataLocal, relative: "synergy/synergy.log" },
        LogCandidate { root: LogRoot::Home, relative: ".synergy/synergy.log" },
        LogCandidate { root: LogRoot::Home, relative: ".local/share/synergy/synergy.log" },
        LogCandidate { root: LogRoot::Absolute, relative: "/var/log/synergy.log" },
        LogCandidate { root: LogRoot::Home, relative: "snap/synergy/current/.synergy/synergy.log" },
        LogCandidate {
            root: LogRoot::Home,
            relative: ".var/app/com.symless.Synergy/data/synergy/synergy.log",
        },
    ]
}

/// Picks the first candidate that exists (`present[i]` tells whether candidate
/// `i` does), or fails with `LogNotFound` when none does.
pub fn find_synergy_log(present: &Vec<bool>) -> (r: Result<usize, MonitorError>)
    ensures
        match r {
            Ok(i) => i < present@.len() && present@[i as int] && forall|j: int|
                0 <= j < i ==> !#[trigger] present@[j],
            Err(e) => e == MonitorError::LogNotFound && forall|j: int|
                0 <= j < present@.len() ==> !#[trigger] present@[j],
        },
{
    let mut i: usize = 0;
    while i < present.len()
        invariant
            0 <= i <= present@.len(),
            forall|j: int| 0 <= j < i ==> !#[trigger] present@[j],
        decreases present@.len() - i,
    {
        if present[i] {
            return Ok(i);
        }
        i = i + 1;
    }
    Err(MonitorError::LogNotFound)
}

/// Watches the log for hand-offs of the pointer. Change notifications come
/// from outside; the monitor keeps the read offset and the pointer's whereabouts.
pub struct SynergyMonitor {
    last_position: u64,
    log_path: Option<String>,
    cursor_is_remote: bool,
    watching: bool,
}

/// What a monitor holds, as values.
pub struct MonitorView {
    pub last_position: int,
    pub log_path: Option<Seq<char>>,
    pub cursor_is_remote: bool,
    pub watching: bool,
}

impl View for SynergyMonitor {
    type V = MonitorView;

    closed spec fn view(&self) -> MonitorView {
        MonitorView {
            last_position: self.last_position as int,
            log_path: opt_view(self.log_path),
            cursor_is_remote: self.cursor_is_remote,
            watching: self.watching,
        }
    }
}

/// Whether the pointer is elsewhere after `ts`, given where it was before.
pub open spec fn remote_after(ts: Seq<(TransitionType, Seq<char>)>, before: bool) -> bool {
    if ts.len() == 0 {
        before
    } else {
        ts.last().0 == TransitionType::Left
    }
}

impl SynergyMonitor {
    /// An idle monitor at offset 0.
    pub fn new() -> (m: SynergyMonitor)
        ensures
            m@ == (MonitorView {
                last_position: 0,
                log_path: None,
                cursor_is_remote: false,
                watching: false,
            }),
    {
        SynergyMonitor { last_position: 0, log_path: None, cursor_is_remote: false, watching: false }
    }

    /// Whether the pointer is on another machine, as far as the log has told.
    pub fn is_cursor_remote(&self) -> (r: bool)
        ensures
            r == self@.cursor_is_remote,
    {
        self.cursor_is_remote
    }

    /// The offset in the log where the next read starts.
    pub fn last_position(&self) -> (r: u64)
        ensures
            r == self@.last_position,
    {
        self.last_position
    }

    /// Whether change notifications are being handled.
    pub fn is_watching(&self) -> (r: bool)
        ensures
            r == self@.watching,
    {
        self.watching
    }

    /// Starts watching the log at `log_path`, whose length was `current_size`
    /// (unknown when the file could not be opened): what the log already holds
    /// is not replayed.
    pub fn start(&mut self, log_path: String, current_size: Option<u64>)
        ensures
            final(self)@ == (MonitorView {
                last_position: match current_size {
                    Some(n) => n as int,
                    None => old(self)@.last_position,
                },
                log_path: Some(log_path@),
                cursor_is_remote: old(self)@.cursor_is_remote,
                watching: true,
            }),
    {
        if let Some(n) = current_size {
            self.last_position = n;
        }
        self.log_path = Some(log_path);
        self.watching = true;
    }

    /// Stops handling change notifications.
    pub fn stop(&mut self)
        ensures
            final(self)@ == (MonitorView { watching: false, ..old(self)@ }),
    {
        self.watching = false;
    }

    /// Handles a change notification after which the log is `current_size`
    /// bytes long and `data` holds its bytes from the read offset on. When the
    /// log grew, the offset moves to its end and the hand-offs in `data` come
    /// back in line order (nothing when there are none); when it did not (it
    /// was truncated or rotated), nothing is read and nothing changes.
    pub fn process_new_entries(&mut self, current_size: u64, data: &[u8]) -> (r: Option<
        Vec<CursorTransition>,
    >)
        ensures
            final(self)@.last_position == next_offset(old(self)@.last_position, current_size as int),
            final(self)@.log_path == old(self)@.log_path,
            final(self)@.watching == old(self)@.watching,
            current_size <= old(self)@.last_position ==> r is None && final(self)@ == old(self)@,
            current_size > old(self)@.last_position ==> ({
                let ts = transitions_in(lines_of(data@));
                &&& final(self)@.cursor_is_remote == remote_after(ts, old(self)@.cursor_is_remote)
                &&& match r {
                    Some(v) => ts.len() > 0 && transitions_view(v@) == ts,
                    None => ts.len() == 0,
                }
            }),
    {
        if current_size <= self.last_position {
            return None;
        }
        self.last_position = current_size;
        let transitions = transitions_in_bytes(data);
        let n = transitions.len();
        if n == 0 {
            return None;
        }
        assert(transitions_view(transitions@).last() == transitions@[n - 1]@);
        self.cursor_is_remote = match transitions[n - 1].transition_type {
            TransitionType::Left => true,
            TransitionType::Returned => false,
        };
        Some(transitions)
    }
}

impl Default for SynergyMonitor {
    fn default() -> (m: SynergyMonitor)
        ensures
            m@ == (MonitorView {
                last_position: 0,
                log_path: None,
                cursor_is_remote: false,
                watching: false,
            }),
    {
        SynergyMonitor::new()
    }
}

} // verus!
