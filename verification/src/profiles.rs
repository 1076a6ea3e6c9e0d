//! Profiles of the managed service: how a profile is named after its file,
//! when a profile's text counts as blank, and which interfaces the status
//! report of the service shows as active.

use crate::text::{chars_of, line_to_string, lines_of, rows, split_lines, string_rows};
use vstd::prelude::*;

verus! {

/// Whether `c` is white space, as `char::is_whitespace` tells it.
pub uninterp spec fn white_space(c: char) -> bool;

/// `char::is_whitespace` tells whether a character is white space in
/// Unicode's sense (`White_Space`). The contract claims no more than that
/// the answer depends on the character alone.
pub assume_specification[ char::is_whitespace ](c: char) -> (b: bool)
    ensures
        b == white_space(c),
;

/// `s` ends in `suffix`.
pub open spec fn has_suffix(s: Seq<char>, suffix: Seq<char>) -> bool {
    suffix.len() <= s.len() && s.skip(s.len() - suffix.len()) == suffix
}

/// `s` without `suffix` at its end, as often as it stands there.
pub open spec fn trim_suffix(s: Seq<char>, suffix: Seq<char>) -> Seq<char>
    decreases s.len(),
{
    if suffix.len() > 0 && has_suffix(s, suffix) {
        trim_suffix(s.take(s.len() - suffix.len()), suffix)
    } else {
        s
    }
}

/// The ending of a profile's file name.
pub open spec fn profile_suffix() -> Seq<char> {
    ".conf"@
}

/// The profile that a file of the configuration directory holds: none
/// unless the file's name ends in `.conf`, else the name without that
/// ending, as often as the name repeats it.
pub open spec fn profile_of(file_name: Seq<char>) -> Option<Seq<char>> {
    if has_suffix(file_name, profile_suffix()) {
        Some(trim_suffix(file_name, profile_suffix()))
    } else {
        None
    }
}

/// The profiles that files of these names hold, in the order of the names.
pub open spec fn profiles_among(file_names: Seq<Seq<char>>) -> Seq<Seq<char>>
    decreases file_names.len(),
{
    if file_names.len() == 0 {
        Seq::empty()
    } else {
        match profile_of(file_names.last()) {
            Some(name) => profiles_among(file_names.drop_last()).push(name),
            None => profiles_among(file_names.drop_last()),
        }
    }
}

/// `pattern` stands in `line` at offset `at`.
pub open spec fn occurs_at(line: Seq<char>, pattern: Seq<char>, at: int) -> bool {
    0 <= at && at + pattern.len() <= line.len() && line.subrange(at, at + pattern.len())
        == pattern
}

/// `pattern` stands somewhere in `line`.
pub open spec fn has_infix(line: Seq<char>, pattern: Seq<char>) -> bool {
    exists|at: int| occurs_at(line, pattern, at)
}

/// The run of characters other than white space that `s` ends in.
pub open spec fn open_word(s: Seq<char>) -> Seq<char>
    decreases s.len(),
{
    if s.len() == 0 || white_space(s.last()) {
        Seq::empty()
    } else {
        open_word(s.drop_last()).push(s.last())
    }
}

/// The words of `s` that white space follows, in order.
pub open spec fn closed_words(s: Seq<char>) -> Seq<Seq<char>>
    decreases s.len(),
{
    if s.len() == 0 {
        Seq::empty()
    } else if white_space(s.last()) && open_word(s.drop_last()).len() > 0 {
        closed_words(s.drop_last()).push(open_word(s.drop_last()))
    } else {
        closed_words(s.drop_last())
    }
}

/// The words of `s`: its longest runs of characters other than white space.
pub open spec fn words(s: Seq<char>) -> Seq<Seq<char>> {
    if open_word(s).len() > 0 {
        closed_words(s).push(open_word(s))
    } else {
        closed_words(s)
    }
}

/// What marks a line of the status report that names an interface.
pub open spec fn interface_marker() -> Seq<char> {
    "interface:"@
}

/// The second word of a line that holds `marker` and has two words.
pub open spec fn marked_name(line: Seq<char>, marker: Seq<char>) -> Option<Seq<char>> {
    if has_infix(line, marker) && words(line).len() >= 2 {
        Some(words(line)[1])
    } else {
        None
    }
}

/// The interface that a line of the status report names: the second word of
/// a line that holds the marker and has two words.
pub open spec fn interface_of(line: Seq<char>) -> Option<Seq<char>> {
    marked_name(line, interface_marker())
}

/// The interfaces that the lines name, in the order of the lines.
pub open spec fn interfaces_in(lines: Seq<Seq<char>>) -> Seq<Seq<char>>
    decreases lines.len(),
{
    if lines.len() == 0 {
        Seq::empty()
    } else {
        match interface_of(lines.last()) {
            Some(name) => interfaces_in(lines.drop_last()).push(name),
            None => interfaces_in(lines.drop_last()),
        }
    }
}

/// The interfaces that a status report shows as active.
pub open spec fn interfaces_shown(report: Seq<char>) -> Seq<Seq<char>> {
    interfaces_in(split_lines(report))
}

/// Every character of `s` is white space.
pub open spec fn blank(s: Seq<char>) -> bool {
    forall|i: int| 0 <= i < s.len() ==> white_space(#[trigger] s[i])
}

/// Whether `pattern` stands in `line` at offset `at`.
fn matches_at(line: &Vec<char>, pattern: &Vec<char>, at: usize) -> (found: bool)
    requires
        at + pattern@.len() <= line@.len(),
    ensures
        found == occurs_at(line@, pattern@, at as int),
{
    let n: usize = line.len();
    let m: usize = pattern.len();
    let mut j: usize = 0;
    while j < m
        invariant
            n == line@.len(),
            m == pattern@.len(),
            j <= m,
            at + m <= n,
            forall|k: int| 0 <= k < j ==> line@[at + k] == pattern@[k],
        decreases m - j,
    {
        if line[at + j] != pattern[j] {
            assert(line@.subrange(at as int, at + m)[j as int] != pattern@[j as int]);
            return false;
        }
        j = j + 1;
    }
    assert(line@.subrange(at as int, at + m) =~= pattern@);
    true
}

/// Whether `pattern` stands somewhere in `line`.
pub fn contains_pattern(line: &Vec<char>, pattern: &Vec<char>) -> (found: bool)
    ensures
        found == has_infix(line@, pattern@),
{
    let n: usize = line.len();
    let m: usize = pattern.len();
    if m > n {
        return false;
    }
    let last: usize = n - m;
    let mut i: usize = 0;
    loop
        invariant
            n == line@.len(),
            m == pattern@.len(),
            last == n - m,
            i <= last,
            forall|k: int| 0 <= k < i ==> !occurs_at(line@, pattern@, k),
        decreases last - i,
    {
        if matches_at(line, pattern, i) {
            return true;
        }
        if i == last {
            return false;
        }
        i = i + 1;
    }
}

/// The words of `line`.
pub fn words_of(line: &Vec<char>) -> (out: Vec<Vec<char>>)
    ensures
        rows(out@) == words(line@),
{
    let n: usize = line.len();
    let mut out: Vec<Vec<char>> = Vec::new();
    let mut cur: Vec<char> = Vec::new();
    let mut i: usize = 0;
    while i < n
        invariant
            n == line@.len(),
            i <= n,
            rows(out@) == closed_words(line@.take(i as int)),
            cur@ == open_word(line@.take(i as int)),
        decreases n - i,
    {
        let c = line[i];
        proof {
            let before = line@.take(i as int);
            let after = line@.take(i + 1);
            assert(after.drop_last() == before);
            assert(after.last() == c);
        }
        if c.is_whitespace() {
            if cur.len() > 0 {
                let ghost prev = rows(out@);
                out.push(cur);
                assert(rows(out@) == prev.push(cur@));
                cur = Vec::new();
            }
        } else {
            cur.push(c);
        }
        i = i + 1;
    }
    assert(line@.take(n as int) == line@);
    if cur.len() > 0 {
        let ghost prev = rows(out@);
        out.push(cur);
        assert(rows(out@) == prev.push(cur@));
    }
    out
}

/// The second word of `line`, if `line` holds `marker` and has two words.
pub fn marked_name_in(line: &Vec<char>, marker: &Vec<char>) -> (name: Option<Vec<char>>)
    ensures
        match marked_name(line@, marker@) {
            Some(found) => name is Some && name->0@ == found,
            None => name is None,
        },
{
    if contains_pattern(line, marker) {
        let mut found = words_of(line);
        if found.len() >= 2 {
            assert(rows(found@)[1] == found@[1]@);
            return Some(found.swap_remove(1));
        }
    }
    None
}

/// The interfaces that the status report `report` shows as active, in the
/// order in which it shows them.
pub fn active_interfaces(report: &str) -> (names: Vec<String>)
    ensures
        string_rows(names@) == interfaces_shown(report@),
{
    let lines = lines_of(report);
    let marker = chars_of("interface:");
    let n: usize = lines.len();
    let mut names: Vec<String> = Vec::new();
    let mut i: usize = 0;
    while i < n
        invariant
            n == lines@.len(),
            i <= n,
            marker@ == interface_marker(),
            string_rows(names@) == interfaces_in(rows(lines@.take(i as int))),
        decreases n - i,
    {
        proof {
            let before = rows(lines@.take(i as int));
            let after = rows(lines@.take(i + 1));
            assert(after.drop_last() == before);
            assert(after.last() == lines@[i as int]@);
        }
        match marked_name_in(&lines[i], &marker) {
            Some(name) => {
                let ghost prev = string_rows(names@);
                let s = line_to_string(&name);
                names.push(s);
                assert(string_rows(names@) == prev.push(s@));
            },
            None => {},
        }
        i = i + 1;
    }
    assert(lines@.take(n as int) == lines@);
    names
}

/// Whether `content` holds nothing but white space.
pub fn is_blank(content: &str) -> (b: bool)
    ensures
        b == blank(content@),
{
    for c in it: content.chars()
        invariant
            it.seq() == content@,
            forall|k: int| 0 <= k < it.index() ==> white_space(content@[k]),
    {
        if !c.is_whitespace() {
            assert(!white_space(content@[it.index()]));
            return false;
        }
    }
    true
}

/// Whether `s` ends in `suffix`.
fn ends_in(s: &Vec<char>, suffix: &Vec<char>) -> (b: bool)
    ensures
        b == has_suffix(s@, suffix@),
{
    let n: usize = s.len();
    let m: usize = suffix.len();
    if m > n {
        return false;
    }
    let found = matches_at(s, suffix, n - m);
    assert(s@.skip(n - m) == s@.subrange(n - m, n as int));
    found
}

/// The profile that the file `file_name` holds, if it is a profile's file.
pub fn profile_name(file_name: &str) -> (name: Option<String>)
    ensures
        match profile_of(file_name@) {
            Some(profile) => name is Some && name->0@ == profile,
            None => name is None,
        },
{
    let mut name = chars_of(file_name);
    let suffix = chars_of(".conf");
    proof {
        reveal_strlit(".conf");
    }
    let m: usize = suffix.len();
    if !ends_in(&name, &suffix) {
        return None;
    }
    while ends_in(&name, &suffix)
        invariant
            m == suffix@.len(),
            m > 0,
            suffix@ == profile_suffix(),
            trim_suffix(name@, suffix@) == trim_suffix(file_name@, suffix@),
        decreases name@.len(),
    {
        name.truncate(name.len() - m);
    }
    Some(line_to_string(&name))
}

/// The profiles among the files named `file_names`, in their order.
pub fn profile_names(file_names: &Vec<String>) -> (names: Vec<String>)
    ensures
        string_rows(names@) == profiles_among(string_rows(file_names@)),
{
    let n: usize = file_names.len();
    let mut names: Vec<String> = Vec::new();
    let mut i: usize = 0;
    while i < n
        invariant
            n == file_names@.len(),
            i <= n,
            string_rows(names@) == profiles_among(string_rows(file_names@.take(i as int))),
        decreases n - i,
    {
        proof {
            let before = string_rows(file_names@.take(i as int));
            let after = string_rows(file_names@.take(i + 1));
            assert(after.drop_last() == before);
            assert(after.last() == file_names@[i as int]@);
        }
        match profile_name(file_names[i].as_str()) {
            Some(name) => {
                let ghost prev = string_rows(names@);
                names.push(name);
                assert(string_rows(names@) == prev.push(name@));
            },
            None => {},
        }
        i = i + 1;
    }
    assert(file_names@.take(n as int) == file_names@);
    names
}

/// Whether two texts are the same.
fn same_text(a: &str, b: &str) -> (same: bool)
    ensures
        same == (a@ == b@),
{
    String::from_str(a) == String::from_str(b)
}

/// The directory that holds the profiles on the operating system `os`.
pub open spec fn config_dir_of(os: Seq<char>) -> Seq<char> {
    if os == "windows"@ {
        "C:\\ProgramData\\rustguard\\wireguard\\"@
    } else if os == "macos"@ {
        "/usr/local/etc/wireguard/"@
    } else {
        "/etc/wireguard/"@
    }
}

/// The file that the log is appended to on the operating system `os`.
pub open spec fn log_file_of(os: Seq<char>) -> Seq<char> {
    if os == "windows"@ {
        "C:\\ProgramData\\rustguard\\rustguard.log"@
    } else if os == "macos"@ {
        "/usr/local/var/log/rustguard.log"@
    } else {
        "/var/log/rustguard.log"@
    }
}

/// The directory that holds the profiles on the operating system `os`.
pub fn config_dir(os: &str) -> (dir: &'static str)
    ensures
        dir@ == config_dir_of(os@),
{
    if same_text(os, "windows") {
        "C:\\ProgramData\\rustguard\\wireguard\\"
    } else if same_text(os, "macos") {
        "/usr/local/etc/wireguard/"
    } else {
        "/etc/wireguard/"
    }
}

/// The file that the log is appended to on the operating system `os`.
pub fn log_file(os: &str) -> (file: &'static str)
    ensures
        file@ == log_file_of(os@),
{
    if same_text(os, "windows") {
        "C:\\ProgramData\\rustguard\\rustguard.log"
    } else if same_text(os, "macos") {
        "/usr/local/var/log/rustguard.log"
    } else {
        "/var/log/rustguard.log"
    }
}

/// The file of the profile `profile` in the directory `dir`, which ends in
/// its separator.
pub fn config_file(dir: &str, profile: &str) -> (file: String)
    ensures
        file@ == dir@ + profile@ + profile_suffix(),
{
    let mut file = String::from_str(dir);
    file.append(profile);
    file.append(".conf");
    file
}

/// The direction of a toggle.
#[derive(Clone, Copy, Debug, PartialEq, Eq)]
pub enum Toggle {
    Up,
    Down,
}

impl Toggle {
    /// The word by which the service's tool knows the direction.
    pub open spec fn word_of(self) -> Seq<char> {
        match self {
            Toggle::Up => "up"@,
            Toggle::Down => "down"@,
        }
    }

    /// The word by which the service's tool knows the direction.
    pub fn word(self) -> (word: &'static str)
        ensures
            word@ == self.word_of(),
    {
        match self {
            Toggle::Up => "up",
            Toggle::Down => "down",
        }
    }
}

/// Why the profile in `file` cannot be brought up, given what was read of
/// the file (`None` where it could not be read): it could not be read, or
/// it holds nothing but white space. `None` where it can be brought up.
pub open spec fn start_refusal_of(file: Seq<char>, content: Option<Seq<char>>) -> Option<
    Seq<char>,
> {
    match content {
        None => Some("\u{274c} Failed to read configuration file "@ + file + "."@),
        Some(text) => if blank(text) {
            Some(
                "\u{274c} Failed to start VPN: configuration file "@ + file + " is empty."@,
            )
        } else {
            None
        },
    }
}

/// The message that refuses to bring up the profile in `file`, if what was
/// read of the file gives a reason to.
pub fn start_refusal(file: &str, content: Option<&str>) -> (message: Option<String>)
    ensures
        match start_refusal_of(
            file@,
            match content {
                Some(text) => Some(text@),
                None => None,
            },
        ) {
            Some(text) => message is Some && message->0@ == text,
            None => message is None,
        },
{
    match content {
        None => {
            let mut message = String::from_str("\u{274c} Failed to read configuration file ");
            message.append(file);
            message.append(".");
            Some(message)
        },
        Some(text) => {
            if is_blank(text) {
                let mut message = String::from_str(
                    "\u{274c} Failed to start VPN: configuration file ",
                );
                message.append(file);
                message.append(" is empty.");
                Some(message)
            } else {
                None
            }
        },
    }
}

/// What is reported of a toggle that the service's tool has run: on success
/// the profile, the direction and what the tool printed; on failure the
/// direction, the profile and what the tool printed as its error.
pub open spec fn toggle_report_of(
    profile: Seq<char>,
    toggle: Toggle,
    success: bool,
    printed: Seq<char>,
    error: Seq<char>,
) -> Seq<char> {
    if success {
        "\u{2705} "@ + profile + " VPN "@ + toggle.word_of() + " successfully\n"@ + printed
    } else {
        "\u{274c} Failed to "@ + toggle.word_of() + " VPN "@ + profile + ":\n"@ + error
    }
}

/// The report of a toggle that the service's tool has run.
pub fn toggle_report(profile: &str, toggle: Toggle, success: bool, printed: &str, error: &str) -> (report: String)
    ensures
        report@ == toggle_report_of(profile@, toggle, success, printed@, error@),
{
    if success {
        let mut report = String::from_str("\u{2705} ");
        report.append(profile);
        report.append(" VPN ");
        report.append(toggle.word());
        report.append(" successfully\n");
        report.append(printed);
        report
    } else {
        let mut report = String::from_str("\u{274c} Failed to ");
        report.append(toggle.word());
        report.append(" VPN ");
        report.append(profile);
        report.append(":\n");
        report.append(error);
        report
    }
}

/// What is reported once an edited profile was written back, or could not
/// be, with the reason `failure`.
pub open spec fn save_report_of(profile: Seq<char>, file: Seq<char>, failure: Option<Seq<char>>) -> Seq<char> {
    match failure {
        Some(reason) => "Error saving file "@ + file + ": "@ + reason,
        None => "Updated config for "@ + profile,
    }
}

/// The report of writing an edited profile back.
pub fn save_report(profile: &str, file: &str, failure: Option<&str>) -> (report: String)
    ensures
        report@ == save_report_of(
            profile@,
            file@,
            match failure {
                Some(reason) => Some(reason@),
                None => None,
            },
        ),
{
    match failure {
        Some(reason) => {
            let mut report = String::from_str("Error saving file ");
            report.append(file);
            report.append(": ");
            report.append(reason);
            report
        },
        None => {
            let mut report = String::from_str("Updated config for ");
            report.append(profile);
            report
        },
    }
}

} // verus!
