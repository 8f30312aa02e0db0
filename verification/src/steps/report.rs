//! The status ledger and the dashboard rendered from it.

use crate::text::{chars_of, decimal, decimal_string, lemma_split_plain_tail, push_range,
    lemma_split_separator, lines, lines_of, split, split_on, texts, without_carriage_return};
use crate::util::{append_status, file_name, file_name_of, ledger_line};
use vstd::prelude::*;

verus! {

/// One line of the ledger: what became of one task.
#[derive(Debug)]
pub struct StatusEntry {
    pub stage: String,
    pub scope: String,
    pub target: String,
    pub status: String,
    pub log_path: String,
}

/// The text of a `StatusEntry`.
pub struct StatusEntryView {
    pub stage: Seq<char>,
    pub scope: Seq<char>,
    pub target: Seq<char>,
    pub status: Seq<char>,
    pub log_path: Seq<char>,
}

impl View for StatusEntry {
    type V = StatusEntryView;

    open spec fn view(&self) -> StatusEntryView {
        StatusEntryView {
            stage: self.stage@,
            scope: self.scope@,
            target: self.target@,
            status: self.status@,
            log_path: self.log_path@,
        }
    }
}

/// The views of a sequence of entries.
pub open spec fn entry_views(entries: Seq<StatusEntry>) -> Seq<StatusEntryView> {
    Seq::new(entries.len(), |i: int| entries[i]@)
}

impl StatusEntry {
    /// A copy of this entry.
    pub fn duplicate(&self) -> (copy: StatusEntry)
        ensures
            copy@ == self@,
    {
        StatusEntry {
            stage: self.stage.clone(),
            scope: self.scope.clone(),
            target: self.target.clone(),
            status: self.status.clone(),
            log_path: self.log_path.clone(),
        }
    }

    /// The line that records this entry in the ledger file.
    pub fn line(&self) -> (out: String)
        ensures
            out@ == status_line(self@),
    {
        append_status(
            self.stage.as_str(),
            self.scope.as_str(),
            self.target.as_str(),
            self.status.as_str(),
            self.log_path.as_str(),
        )
    }
}

/// The line of an entry in the ledger file.
pub open spec fn status_line(e: StatusEntryView) -> Seq<char> {
    ledger_line(e.stage, e.scope, e.target, e.status, e.log_path)
}

/// The entry that a line of the ledger holds: its first five fields. A line
/// with fewer than five fields holds none.
pub open spec fn entry_of_line(line: Seq<char>) -> Option<StatusEntryView> {
    let parts = split_on(line, '\t');
    if parts.len() < 5 {
        None
    } else {
        Some(
            StatusEntryView {
                stage: parts[0],
                scope: parts[1],
                target: parts[2],
                status: parts[3],
                log_path: parts[4],
            },
        )
    }
}

/// The entries that a sequence of lines holds, in the order of the lines.
pub open spec fn entries_of_lines(lines: Seq<Seq<char>>) -> Seq<StatusEntryView>
    decreases lines.len(),
{
    if lines.len() == 0 {
        Seq::empty()
    } else {
        let before = entries_of_lines(lines.drop_last());
        match entry_of_line(lines.last()) {
            Some(e) => before.push(e),
            None => before,
        }
    }
}

/// The entries that the text of a ledger file holds.
pub open spec fn ledger_entries(content: Seq<char>) -> Seq<StatusEntryView> {
    entries_of_lines(lines_of(content))
}

/// Reads the entries out of the text of a ledger file, in file order. Lines
/// that are too short are passed over.
pub fn load_status_entries(content: &str) -> (entries: Vec<StatusEntry>)
    ensures
        entry_views(entries@) == ledger_entries(content@),
{
    let all = lines(content);
    let mut entries: Vec<StatusEntry> = Vec::new();
    let mut i: usize = 0;
    while i < all.len()
        invariant
            i <= all.len(),
            entry_views(entries@) == entries_of_lines(texts(all@).take(i as int)),
        decreases all.len() - i,
    {
        let parts = split(all[i].as_str(), '\t');
        let ghost before = entry_views(entries@);
        assert(texts(all@).take(i + 1).drop_last() =~= texts(all@).take(i as int));
        assert(texts(all@).take(i + 1).last() == all@[i as int]@);
        if parts.len() >= 5 {
            let entry = StatusEntry {
                stage: parts[0].clone(),
                scope: parts[1].clone(),
                target: parts[2].clone(),
                status: parts[3].clone(),
                log_path: parts[4].clone(),
            };
            assert(texts(parts@)[0] == parts@[0]@);
            assert(texts(parts@)[1] == parts@[1]@);
            assert(texts(parts@)[2] == parts@[2]@);
            assert(texts(parts@)[3] == parts@[3]@);
            assert(texts(parts@)[4] == parts@[4]@);
            assert(Some(entry@) == entry_of_line(all@[i as int]@));
            entries.push(entry);
            assert(entry_views(entries@) =~= before.push(entry@));
        }
        i += 1;
    }
    assert(texts(all@).take(i as int) =~= texts(all@));
    entries
}

/// What stands for a character in markup.
pub open spec fn escaped_char(c: char) -> Seq<char> {
    if c == '&' {
        "&amp;"@
    } else if c == '<' {
        "&lt;"@
    } else if c == '>' {
        "&gt;"@
    } else if c == '"' {
        "&quot;"@
    } else {
        seq![c]
    }
}

/// `s` with the characters that markup gives a meaning replaced by their
/// entities.
pub open spec fn html_escaped(s: Seq<char>) -> Seq<char>
    decreases s.len(),
{
    if s.len() == 0 {
        Seq::empty()
    } else {
        html_escaped(s.drop_last()) + escaped_char(s.last())
    }
}

/// Appends the escaped form of `input` to `out`.
fn push_escaped(out: &mut String, input: &str)
    ensures
        final(out)@ == old(out)@ + html_escaped(input@),
{
    let v = chars_of(input);
    let mut i: usize = 0;
    assert(v@.take(0) =~= Seq::<char>::empty());
    assert(out@ =~= old(out)@ + html_escaped(v@.take(0)));
    while i < v.len()
        invariant
            i <= v.len(),
            out@ == old(out)@ + html_escaped(v@.take(i as int)),
        decreases v.len() - i,
    {
        let c = v[i];
        let ghost before = out@;
        if c == '&' {
            out.append("&amp;");
        } else if c == '<' {
            out.append("&lt;");
        } else if c == '>' {
            out.append("&gt;");
        } else if c == '"' {
            out.append("&quot;");
        } else {
            out.push(c);
        }
        assert(out@ =~= before + escaped_char(c));
        assert(v@.take(i + 1).drop_last() =~= v@.take(i as int));
        i += 1;
        assert(out@ =~= old(out)@ + html_escaped(v@.take(i as int)));
    }
    assert(v@.take(i as int) =~= v@);
}

/// Escapes text for use inside markup: `&`, `<`, `>` and `"` become entities.
pub fn html_escape(input: &str) -> (out: String)
    ensures
        out@ == html_escaped(input@),
{
    let mut out = String::new();
    push_escaped(&mut out, input);
    assert(out@ =~= html_escaped(input@));
    out
}

/// How much of a log the dashboard shows at most: so many bytes are read
/// from the file, and no more characters are shown.
pub const LOG_SNIPPET_LIMIT: usize = 100000;

/// How many entries the ledger holds, and how many of them passed and failed.
#[derive(Clone, Copy, Debug, PartialEq, Eq, Structural)]
pub struct Summary {
    pub total: usize,
    pub passed: usize,
    pub failed: usize,
}

/// How many of the entries have the given status.
pub open spec fn count_with_status(entries: Seq<StatusEntryView>, status: Seq<char>) -> nat
    decreases entries.len(),
{
    if entries.len() == 0 {
        0
    } else {
        count_with_status(entries.drop_last(), status) + if entries.last().status == status {
            1nat
        } else {
            0nat
        }
    }
}

/// How many of the entries belong to the given stage.
pub open spec fn count_in_stage(entries: Seq<StatusEntryView>, stage: Seq<char>) -> nat
    decreases entries.len(),
{
    if entries.len() == 0 {
        0
    } else {
        count_in_stage(entries.drop_last(), stage) + if entries.last().stage == stage {
            1nat
        } else {
            0nat
        }
    }
}

/// How many of the entries have the given status.
fn count_status(entries: &Vec<StatusEntry>, status: &str) -> (n: usize)
    ensures
        n == count_with_status(entry_views(entries@), status@),
{
    let mut n: usize = 0;
    let mut i: usize = 0;
    assert(entry_views(entries@).take(0) =~= Seq::<StatusEntryView>::empty());
    while i < entries.len()
        invariant
            i <= entries.len(),
            n <= i,
            n == count_with_status(entry_views(entries@).take(i as int), status@),
        decreases entries.len() - i,
    {
        assert(entry_views(entries@).take(i + 1).drop_last() =~= entry_views(entries@).take(
            i as int,
        ));
        if crate::text::equal(entries[i].status.as_str(), status) {
            n += 1;
        }
        i += 1;
    }
    assert(entry_views(entries@).take(i as int) =~= entry_views(entries@));
    n
}

/// The aggregate counts of a ledger: all entries, those with status `ok`, and
/// those with status `fail`.
pub fn summarize(entries: &Vec<StatusEntry>) -> (summary: Summary)
    ensures
        summary.total == entries@.len(),
        summary.passed == count_with_status(entry_views(entries@), "ok"@),
        summary.failed == count_with_status(entry_views(entries@), "fail"@),
{
    Summary {
        total: entries.len(),
        passed: count_status(entries, "ok"),
        failed: count_status(entries, "fail"),
    }
}

/// The texts of the logs that were read, entry by entry.
pub open spec fn log_texts(logs: Seq<Option<String>>) -> Seq<Option<Seq<char>>> {
    Seq::new(
        logs.len(),
        |i: int|
            match logs[i] {
                Some(s) => Some(s@),
                None => None,
            },
    )
}

/// The part of a log that is shown: all of it, or its beginning up to the
/// limit.
pub open spec fn log_excerpt(text: Seq<char>) -> Seq<char> {
    if text.len() <= LOG_SNIPPET_LIMIT {
        text
    } else {
        text.take(LOG_SNIPPET_LIMIT as int)
    }
}

/// What the dashboard shows as the log of entry `i`: the beginning of the
/// text that was read, or a notice that names the missing file.
pub open spec fn log_content(entry: StatusEntryView, logs: Seq<Option<Seq<char>>>, i: int) -> Seq<
    char,
> {
    if 0 <= i < logs.len() && logs[i].is_some() {
        log_excerpt(logs[i].unwrap())
    } else {
        "Log file not found: "@ + entry.log_path
    }
}

/// The name under which the dashboard lists a log.
pub open spec fn log_basename(log_path: Seq<char>) -> Seq<char> {
    match file_name_of(log_path) {
        Some(name) => name,
        None => "log"@,
    }
}

/// The summary block of the dashboard.
pub open spec fn stats_block(total: nat, passed: nat, failed: nat) -> Seq<char> {
    STATS_OPEN@ + decimal(total) + STATS_AFTER_TOTAL@ + decimal(passed) + STATS_AFTER_PASSED@
        + decimal(failed) + STATS_CLOSE@
}

/// The row of one entry.
pub open spec fn row(entry: StatusEntryView, log: Seq<char>) -> Seq<char> {
    ROW_OPEN@ + html_escaped(entry.scope) + ROW_AFTER_SCOPE@ + html_escaped(entry.target)
        + ROW_AFTER_TARGET@ + html_escaped(entry.status) + ROW_BADGE_TEXT@ + html_escaped(
        entry.status,
    ) + ROW_AFTER_BADGE@ + log_basename(entry.log_path) + ROW_AFTER_LOG_NAME@ + html_escaped(log)
        + ROW_CLOSE@
}

/// The rows of the entries of one stage among the first `n` entries.
pub open spec fn rows(
    entries: Seq<StatusEntryView>,
    logs: Seq<Option<Seq<char>>>,
    stage: Seq<char>,
    n: nat,
) -> Seq<char>
    decreases n,
{
    if n == 0 {
        Seq::empty()
    } else {
        let i = (n - 1) as nat;
        rows(entries, logs, stage, i) + if i < entries.len() && entries[i as int].stage == stage {
            row(entries[i as int], log_content(entries[i as int], logs, i as int))
        } else {
            Seq::empty()
        }
    }
}

/// The section of one stage: nothing where the ledger has no entry of it.
pub open spec fn section(
    entries: Seq<StatusEntryView>,
    logs: Seq<Option<Seq<char>>>,
    stage: Seq<char>,
    title: Seq<char>,
) -> Seq<char> {
    if count_in_stage(entries, stage) == 0 {
        Seq::empty()
    } else {
        SECTION_OPEN@ + title + SECTION_AFTER_TITLE@ + rows(entries, logs, stage, entries.len())
            + SECTION_CLOSE@
    }
}

/// The dashboard: head, summary block, the sections of lint, generate and
/// compile in this order, footer.
pub open spec fn dashboard(entries: Seq<StatusEntryView>, logs: Seq<Option<Seq<char>>>) -> Seq<
    char,
> {
    HTML_HEAD@ + stats_block(
        entries.len(),
        count_with_status(entries, "ok"@),
        count_with_status(entries, "fail"@),
    ) + section(entries, logs, "lint"@, "Lint"@) + section(
        entries,
        logs,
        "generate"@,
        "Generate"@,
    ) + section(entries, logs, "compile"@, "Compile"@) + HTML_FOOTER@
}

/// The summary block of the dashboard.
fn stats_html(summary: &Summary) -> (out: String)
    ensures
        out@ == stats_block(summary.total as nat, summary.passed as nat, summary.failed as nat),
{
    let mut out = String::from_str(STATS_OPEN);
    out.append(decimal_string(summary.total as u64).as_str());
    out.append(STATS_AFTER_TOTAL);
    out.append(decimal_string(summary.passed as u64).as_str());
    out.append(STATS_AFTER_PASSED);
    out.append(decimal_string(summary.failed as u64).as_str());
    out.append(STATS_CLOSE);
    out
}

/// What the dashboard shows as the log of an entry, escaped.
fn log_html(entry: &StatusEntry, logs: &Vec<Option<String>>, i: usize) -> (out: String)
    ensures
        out@ == html_escaped(log_content(entry@, log_texts(logs@), i as int)),
{
    if i < logs.len() {
        match &logs[i] {
            Some(text) => {
                let v = chars_of(text.as_str());
                if v.len() <= LOG_SNIPPET_LIMIT {
                    return html_escape(text.as_str());
                }
                let mut excerpt = String::new();
                push_range(&mut excerpt, &v, 0, LOG_SNIPPET_LIMIT);
                assert(excerpt@ =~= v@.take(LOG_SNIPPET_LIMIT as int));
                return html_escape(excerpt.as_str());
            },
            None => {},
        }
    }
    let mut notice = String::from_str("Log file not found: ");
    notice.append(entry.log_path.as_str());
    html_escape(notice.as_str())
}

/// The name under which the dashboard lists a log.
fn log_name(log_path: &str) -> (out: String)
    ensures
        out@ == log_basename(log_path@),
{
    match file_name(log_path) {
        Some(name) => name,
        None => String::from_str("log"),
    }
}

/// The row of one entry.
fn row_html(entry: &StatusEntry, logs: &Vec<Option<String>>, i: usize) -> (out: String)
    ensures
        out@ == row(entry@, log_content(entry@, log_texts(logs@), i as int)),
{
    let badge = html_escape(entry.status.as_str());
    let mut out = String::from_str(ROW_OPEN);
    out.append(html_escape(entry.scope.as_str()).as_str());
    out.append(ROW_AFTER_SCOPE);
    out.append(html_escape(entry.target.as_str()).as_str());
    out.append(ROW_AFTER_TARGET);
    out.append(badge.as_str());
    out.append(ROW_BADGE_TEXT);
    out.append(badge.as_str());
    out.append(ROW_AFTER_BADGE);
    out.append(log_name(entry.log_path.as_str()).as_str());
    out.append(ROW_AFTER_LOG_NAME);
    out.append(log_html(entry, logs, i).as_str());
    out.append(ROW_CLOSE);
    out
}

/// The section of one stage.
fn section_html(
    entries: &Vec<StatusEntry>,
    logs: &Vec<Option<String>>,
    stage: &str,
    title: &str,
) -> (out: String)
    ensures
        out@ == section(entry_views(entries@), log_texts(logs@), stage@, title@),
{
    let mut body = String::new();
    let mut found: usize = 0;
    let mut i: usize = 0;
    assert(entry_views(entries@).take(0) =~= Seq::<StatusEntryView>::empty());
    while i < entries.len()
        invariant
            i <= entries.len(),
            found <= i,
            found == count_in_stage(entry_views(entries@).take(i as int), stage@),
            body@ == rows(entry_views(entries@), log_texts(logs@), stage@, i as nat),
        decreases entries.len() - i,
    {
        assert(entry_views(entries@).take(i + 1).drop_last() =~= entry_views(entries@).take(
            i as int,
        ));
        let ghost before = body@;
        if crate::text::equal(entries[i].stage.as_str(), stage) {
            body.append(row_html(&entries[i], logs, i).as_str());
            found += 1;
        } else {
            assert(before + Seq::<char>::empty() =~= before);
        }
        i += 1;
    }
    assert(entry_views(entries@).take(i as int) =~= entry_views(entries@));
    if found == 0 {
        return String::new();
    }
    let mut out = String::from_str(SECTION_OPEN);
    out.append(title);
    out.append(SECTION_AFTER_TITLE);
    out.append(body.as_str());
    out.append(SECTION_CLOSE);
    out
}

/// Renders the dashboard from the entries of the ledger and the logs that were
/// read for them. `logs[i]` is the text read from the log of `entries[i]`; where
/// it is `None` or missing, the row carries a notice instead.
pub fn generate_html(entries: &Vec<StatusEntry>, logs: &Vec<Option<String>>) -> (html: String)
    ensures
        html@ == dashboard(entry_views(entries@), log_texts(logs@)),
{
    let summary = summarize(entries);
    let mut html = String::from_str(HTML_HEAD);
    html.append(stats_html(&summary).as_str());
    html.append(section_html(entries, logs, "lint", "Lint").as_str());
    html.append(section_html(entries, logs, "generate", "Generate").as_str());
    html.append(section_html(entries, logs, "compile", "Compile").as_str());
    html.append(HTML_FOOTER);
    html
}

/// Renders the dashboard from the text of the ledger file and the logs that
/// were read for its entries, `logs[i]` for the `i`-th entry that the text
/// holds.
pub fn run(ledger: &str, logs: &Vec<Option<String>>) -> (html: String)
    ensures
        html@ == dashboard(ledger_entries(ledger@), log_texts(logs@)),
{
    let entries = load_status_entries(ledger);
    generate_html(&entries, logs)
}

/// Whether a character opens or closes markup, or ends an attribute.
pub open spec fn is_markup(c: char) -> bool {
    c == '<' || c == '>' || c == '"'
}

/// Escaped text is inert: no character of it opens or closes markup or ends
/// an attribute, whatever the text was.
pub proof fn lemma_escaped_text_is_inert(s: Seq<char>)
    ensures
        forall|i: int| 0 <= i < html_escaped(s).len() ==> !is_markup(#[trigger] html_escaped(s)[i]),
    decreases s.len(),
{
    reveal_strlit("&amp;");
    reveal_strlit("&lt;");
    reveal_strlit("&gt;");
    reveal_strlit("&quot;");
    if s.len() > 0 {
        lemma_escaped_text_is_inert(s.drop_last());
        let head = html_escaped(s.drop_last());
        let tail = escaped_char(s.last());
        assert forall|i: int| 0 <= i < tail.len() implies !is_markup(#[trigger] tail[i]) by {}
        assert forall|i: int| 0 <= i < html_escaped(s).len() implies !is_markup(
            #[trigger] html_escaped(s)[i],
        ) by {
            if i < head.len() {
                assert(html_escaped(s)[i] == head[i]);
            } else {
                assert(html_escaped(s)[i] == tail[i - head.len()]);
            }
        }
    }
}

/// Text without `&`, `<`, `>` and `"` is escaped to itself.
pub proof fn lemma_plain_text_escapes_to_itself(s: Seq<char>)
    requires
        forall|i: int| 0 <= i < s.len() ==> s[i] != '&' && !is_markup(#[trigger] s[i]),
    ensures
        html_escaped(s) == s,
    decreases s.len(),
{
    if s.len() > 0 {
        lemma_plain_text_escapes_to_itself(s.drop_last());
        assert(s.drop_last().push(s.last()) =~= s);
        assert(html_escaped(s) =~= s);
    } else {
        assert(html_escaped(s) =~= s);
    }
}

/// Rendering can be repeated: ledgers and logs of the same text give the same
/// counts and the same dashboard.
pub proof fn lemma_rendering_repeats(
    entries: Seq<StatusEntry>,
    logs: Seq<Option<String>>,
    again: Seq<StatusEntry>,
    logs_again: Seq<Option<String>>,
)
    requires
        entry_views(entries) == entry_views(again),
        log_texts(logs) == log_texts(logs_again),
    ensures
        entries.len() == again.len(),
        count_with_status(entry_views(entries), "ok"@) == count_with_status(
            entry_views(again),
            "ok"@,
        ),
        count_with_status(entry_views(entries), "fail"@) == count_with_status(
            entry_views(again),
            "fail"@,
        ),
        dashboard(entry_views(entries), log_texts(logs)) == dashboard(
            entry_views(again),
            log_texts(logs_again),
        ),
{
    assert(entry_views(entries).len() == entry_views(again).len());
}

/// No entry is counted twice: those that passed and those that failed are
/// together no more than all.
pub proof fn lemma_passed_and_failed_are_apart(entries: Seq<StatusEntryView>)
    ensures
        count_with_status(entries, "ok"@) + count_with_status(entries, "fail"@) <= entries.len(),
    decreases entries.len(),
{
    reveal_strlit("ok");
    reveal_strlit("fail");
    assert("ok"@.len() != "fail"@.len());
    if entries.len() > 0 {
        lemma_passed_and_failed_are_apart(entries.drop_last());
    }
}

/// A ledger without entries has no section and counts nothing.
pub proof fn lemma_empty_ledger(logs: Seq<Option<Seq<char>>>)
    ensures
        dashboard(Seq::empty(), logs) == HTML_HEAD@ + stats_block(0, 0, 0) + HTML_FOOTER@,
{
    let none = Seq::<StatusEntryView>::empty();
    assert(section(none, logs, "lint"@, "Lint"@) =~= Seq::<char>::empty());
    assert(section(none, logs, "generate"@, "Generate"@) =~= Seq::<char>::empty());
    assert(section(none, logs, "compile"@, "Compile"@) =~= Seq::<char>::empty());
    assert(dashboard(none, logs) =~= HTML_HEAD@ + stats_block(0, 0, 0) + HTML_FOOTER@);
}

/// The text of the ledger file that holds the entries: their lines, one
/// behind the other.
pub open spec fn ledger_text(entries: Seq<StatusEntryView>) -> Seq<char>
    decreases entries.len(),
{
    if entries.len() == 0 {
        Seq::empty()
    } else {
        ledger_text(entries.drop_last()) + status_line(entries.last())
    }
}

/// The text of the ledger file that holds the entries.
pub fn render_ledger(entries: &Vec<StatusEntry>) -> (out: String)
    ensures
        out@ == ledger_text(entry_views(entries@)),
{
    let mut out = String::new();
    let mut i: usize = 0;
    assert(entry_views(entries@).take(0) =~= Seq::<StatusEntryView>::empty());
    while i < entries.len()
        invariant
            i <= entries.len(),
            out@ == ledger_text(entry_views(entries@).take(i as int)),
        decreases entries.len() - i,
    {
        assert(entry_views(entries@).take(i + 1).drop_last() =~= entry_views(entries@).take(
            i as int,
        ));
        out.append(entries[i].line().as_str());
        i += 1;
    }
    assert(entry_views(entries@).take(i as int) =~= entry_views(entries@));
    out
}

/// A field that a line of the ledger can carry: without tab and line feed.
pub open spec fn plain_field(field: Seq<char>) -> bool {
    forall|i: int| 0 <= i < field.len() ==> field[i] != '\t' && field[i] != '\n'
}

/// An entry that the ledger file gives back as it was: its fields are plain,
/// and its log path does not end in a carriage return.
pub open spec fn plain_entry(e: StatusEntryView) -> bool {
    &&& plain_field(e.stage)
    &&& plain_field(e.scope)
    &&& plain_field(e.target)
    &&& plain_field(e.status)
    &&& plain_field(e.log_path)
    &&& (e.log_path.len() == 0 || e.log_path.last() != '\r')
}

/// The line of an entry without its line feed.
pub open spec fn line_body(e: StatusEntryView) -> Seq<char> {
    e.stage + seq!['\t'] + e.scope + seq!['\t'] + e.target + seq!['\t'] + e.status + seq!['\t']
        + e.log_path
}

/// The line bodies of the entries.
pub open spec fn line_bodies(entries: Seq<StatusEntryView>) -> Seq<Seq<char>> {
    Seq::new(entries.len(), |i: int| line_body(entries[i]))
}

/// The line of a plain entry splits into its five fields, holds no line
/// feed, and does not end in a carriage return.
proof fn lemma_body_has_five_fields(e: StatusEntryView)
    requires
        plain_entry(e),
    ensures
        entry_of_line(line_body(e)) == Some(e),
        forall|i: int| 0 <= i < line_body(e).len() ==> line_body(e)[i] != '\n',
        without_carriage_return(line_body(e)) == line_body(e),
{
    let tab = '\t';
    let none = Seq::<char>::empty();
    let s0 = e.stage;
    assert(split_on(none, tab) =~= seq![none]);
    lemma_split_plain_tail(none, s0, tab);
    assert(none + s0 =~= s0);
    assert(split_on(s0, tab) =~= seq![e.stage]);
    let s1 = s0 + seq![tab];
    lemma_split_separator(s0, tab);
    assert(s0.push(tab) =~= s1);
    let s2 = s1 + e.scope;
    lemma_split_plain_tail(s1, e.scope, tab);
    assert(split_on(s2, tab) =~= seq![e.stage, e.scope]);
    let s3 = s2 + seq![tab];
    lemma_split_separator(s2, tab);
    assert(s2.push(tab) =~= s3);
    let s4 = s3 + e.target;
    lemma_split_plain_tail(s3, e.target, tab);
    assert(split_on(s4, tab) =~= seq![e.stage, e.scope, e.target]);
    let s5 = s4 + seq![tab];
    lemma_split_separator(s4, tab);
    assert(s4.push(tab) =~= s5);
    let s6 = s5 + e.status;
    lemma_split_plain_tail(s5, e.status, tab);
    assert(split_on(s6, tab) =~= seq![e.stage, e.scope, e.target, e.status]);
    let s7 = s6 + seq![tab];
    lemma_split_separator(s6, tab);
    assert(s6.push(tab) =~= s7);
    let s8 = s7 + e.log_path;
    lemma_split_plain_tail(s7, e.log_path, tab);
    assert(split_on(s8, tab) =~= seq![e.stage, e.scope, e.target, e.status, e.log_path]);
    assert(s8 == line_body(e));
}

/// The text of a ledger of plain entries splits at its line feeds into the
/// line bodies, with an empty piece behind the last.
proof fn lemma_ledger_text_splits(entries: Seq<StatusEntryView>)
    requires
        forall|i: int| 0 <= i < entries.len() ==> plain_entry(#[trigger] entries[i]),
    ensures
        split_on(ledger_text(entries), '\n') == line_bodies(entries).push(Seq::empty()),
    decreases entries.len(),
{
    let none = Seq::<char>::empty();
    if entries.len() == 0 {
        assert(split_on(none, '\n') =~= seq![none]);
        assert(line_bodies(entries).push(none) =~= seq![none]);
    } else {
        let before = entries.drop_last();
        let e = entries.last();
        lemma_ledger_text_splits(before);
        lemma_body_has_five_fields(e);
        let text = ledger_text(before);
        let body = line_body(e);
        lemma_split_plain_tail(text, body, '\n');
        lemma_split_separator(text + body, '\n');
        assert((text + body).push('\n') =~= text + status_line(e));
        assert(none + body =~= body);
        assert(split_on(ledger_text(entries), '\n') =~= line_bodies(entries).push(none));
    }
}

/// The line bodies of plain entries hold the entries.
proof fn lemma_bodies_hold_entries(entries: Seq<StatusEntryView>)
    requires
        forall|i: int| 0 <= i < entries.len() ==> plain_entry(#[trigger] entries[i]),
    ensures
        entries_of_lines(line_bodies(entries)) == entries,
    decreases entries.len(),
{
    if entries.len() == 0 {
        assert(entries =~= Seq::<StatusEntryView>::empty());
    } else {
        lemma_bodies_hold_entries(entries.drop_last());
        lemma_body_has_five_fields(entries.last());
        assert(line_bodies(entries).drop_last() =~= line_bodies(entries.drop_last()));
        assert(entries.drop_last().push(entries.last()) =~= entries);
    }
}

/// The ledger file gives back what was written to it: read from the text that
/// holds their lines, the entries come out as they went in, in their order.
/// This holds of entries whose fields are plain; a tab or a line feed in a
/// field would be taken for the end of the field or of the line.
pub proof fn lemma_ledger_round_trip(entries: Seq<StatusEntryView>)
    requires
        forall|i: int| 0 <= i < entries.len() ==> plain_entry(#[trigger] entries[i]),
    ensures
        ledger_entries(ledger_text(entries)) == entries,
{
    lemma_ledger_text_splits(entries);
    lemma_bodies_hold_entries(entries);
    let bodies = line_bodies(entries);
    let parts = split_on(ledger_text(entries), '\n');
    assert forall|i: int| 0 <= i < bodies.len() implies without_carriage_return(
        #[trigger] bodies[i],
    ) == bodies[i] by {
        lemma_body_has_five_fields(entries[i]);
    }
    assert(lines_of(ledger_text(entries)) =~= bodies);
}

/// A ledger that was emptied holds nothing: the empty text reads as no
/// entry, and no entries make the empty text.
pub proof fn lemma_emptied_ledger_holds_nothing()
    ensures
        ledger_entries(Seq::empty()) == Seq::<StatusEntryView>::empty(),
        ledger_text(Seq::empty()) == Seq::<char>::empty(),
{
    let none = Seq::<char>::empty();
    assert(split_on(none, '\n') =~= seq![none]);
    assert(lines_of(none) =~= Seq::<Seq<char>>::empty());
}

/// Appending keeps what is there: the text of a ledger with one entry more is
/// the text before with the line of the entry behind it, and so the file
/// holds the entries in the order in which their tasks ended.
pub proof fn lemma_append_keeps_order(entries: Seq<StatusEntryView>, entry: StatusEntryView)
    ensures
        ledger_text(entries.push(entry)) == ledger_text(entries) + status_line(entry),
{
    assert(entries.push(entry).drop_last() =~= entries);
}

/// The document up to the summary block.
pub const HTML_HEAD: &'static str = r#"<!DOCTYPE html>
<html lang="en">
<head>
  <meta charset="UTF-8">
  <meta name="viewport" content="width=device-width, initial-scale=1.0">
  <title>OpenAPI Validator Report</title>
  <style>
    :root {
      --bg: #0d1117; --fg: #c9d1d9; --border: #30363d;
      --green: #238636; --red: #da3633; --yellow: #d29922;
      --link: #58a6ff; --code-bg: #161b22;
    }
    * { box-sizing: border-box; }
    body { font-family: -apple-system, BlinkMacSystemFont, "Segoe UI", Helvetica, Arial, sans-serif;
           background: var(--bg); color: var(--fg); margin: 0; padding: 20px; line-height: 1.5; }
    h1, h2, h3 { margin-top: 0; font-weight: 600; }
    h1 { border-bottom: 1px solid var(--border); padding-bottom: 10px; }
    .summary { display: flex; gap: 20px; margin-bottom: 30px; flex-wrap: wrap; }
    .stat { background: var(--code-bg); border: 1px solid var(--border); border-radius: 6px;
            padding: 16px 24px; text-align: center; min-width: 120px; }
    .stat-value { font-size: 2em; font-weight: 600; }
    .stat-label { color: #8b949e; font-size: 0.9em; }
    .stat.pass .stat-value { color: var(--green); }
    .stat.fail .stat-value { color: var(--red); }
    .section { margin-bottom: 30px; }
    .result-table { width: 100%; border-collapse: collapse; background: var(--code-bg);
                   border: 1px solid var(--border); border-radius: 6px; overflow: hidden; }
    .result-table th, .result-table td { padding: 12px; text-align: left; border-bottom: 1px solid var(--border); }
    .result-table th { background: var(--bg); font-weight: 600; }
    .result-table tr:last-child td { border-bottom: none; }
    .badge { display: inline-block; padding: 2px 8px; border-radius: 12px; font-size: 0.85em; font-weight: 500; }
    .badge.ok { background: var(--green); color: #fff; }
    .badge.fail { background: var(--red); color: #fff; }
    details { background: var(--code-bg); border: 1px solid var(--border); border-radius: 6px; margin-top: 10px; }
    summary { padding: 12px; cursor: pointer; font-weight: 500; }
    summary:hover { background: var(--border); }
    pre { margin: 0; padding: 16px; overflow-x: auto; font-size: 0.85em;
          background: var(--bg); border-top: 1px solid var(--border); max-height: 500px; overflow-y: auto; }
    code { font-family: ui-monospace, SFMono-Regular, "SF Mono", Menlo, monospace; }
    a { color: var(--link); text-decoration: none; }
    a:hover { text-decoration: underline; }
    .empty { color: #8b949e; font-style: italic; }
  </style>
</head>
<body>
  <h1>OpenAPI Validator Report</h1>
  <div class="summary">
"#;

/// The summary block up to the number of entries.
pub const STATS_OPEN: &'static str = r#"    <div class="stat">
      <div class="stat-value">"#;

/// Between the number of entries and the number that passed.
pub const STATS_AFTER_TOTAL: &'static str = r#"</div>
      <div class="stat-label">Total</div>
    </div>
    <div class="stat pass">
      <div class="stat-value">"#;

/// Between the number that passed and the number that failed.
pub const STATS_AFTER_PASSED: &'static str = r#"</div>
      <div class="stat-label">Passed</div>
    </div>
    <div class="stat fail">
      <div class="stat-value">"#;

/// The end of the summary block.
pub const STATS_CLOSE: &'static str = r#"</div>
      <div class="stat-label">Failed</div>
    </div>
  </div>
"#;

/// A section up to its title.
pub const SECTION_OPEN: &'static str = r#"  <div class="section">
    <h2>"#;

/// From the title of a section to its first row.
pub const SECTION_AFTER_TITLE: &'static str = r#"</h2>
    <table class="result-table">
      <thead>
        <tr><th>Scope</th><th>Target</th><th>Status</th><th>Log</th></tr>
      </thead>
      <tbody>
"#;

/// The end of a section.
pub const SECTION_CLOSE: &'static str = r#"      </tbody>
    </table>
  </div>
"#;

/// A row up to the scope.
pub const ROW_OPEN: &'static str = r#"        <tr>
          <td>"#;

/// Between scope and target.
pub const ROW_AFTER_SCOPE: &'static str = r#"</td>
          <td>"#;

/// Between the target and the class of the badge.
pub const ROW_AFTER_TARGET: &'static str = r#"</td>
          <td><span class="badge "#;

/// Between the class of the badge and its text.
pub const ROW_BADGE_TEXT: &'static str = r#"">"#;

/// Between the badge and the name of the log.
pub const ROW_AFTER_BADGE: &'static str = r#"</span></td>
          <td>
            <details>
              <summary>"#;

/// Between the name of the log and its content.
pub const ROW_AFTER_LOG_NAME: &'static str = r#"</summary>
              <pre><code>"#;

/// The end of a row.
pub const ROW_CLOSE: &'static str = r#"</code></pre>
            </details>
          </td>
        </tr>
"#;

/// The document from the footer on.
pub const HTML_FOOTER: &'static str = r#"  <footer style="margin-top: 40px; padding-top: 20px; border-top: 1px solid var(--border); color: #8b949e; font-size: 0.85em;">
    Generated by OpenAPI Validator.
  </footer>
</body>
</html>
"#;

} // verus!
