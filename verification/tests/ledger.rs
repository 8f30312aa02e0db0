use openapi_validator::steps::report::{
    generate_html, html_escape, load_status_entries, render_ledger, run as render, summarize,
    StatusEntry, HTML_FOOTER, HTML_HEAD, LOG_SNIPPET_LIMIT,
};
use openapi_validator::util::{append_error, append_status, write_log_header};

fn entry(stage: &str, scope: &str, target: &str, status: &str, log_path: &str) -> StatusEntry {
    StatusEntry {
        stage: stage.to_string(),
        scope: scope.to_string(),
        target: target.to_string(),
        status: status.to_string(),
        log_path: log_path.to_string(),
    }
}

fn same(a: &StatusEntry, b: &StatusEntry) -> bool {
    a.stage == b.stage
        && a.scope == b.scope
        && a.target == b.target
        && a.status == b.status
        && a.log_path == b.log_path
}

fn stats(total: usize, passed: usize, failed: usize) -> String {
    format!(
        "    <div class=\"stat\">\n      <div class=\"stat-value\">{total}</div>\n      <div class=\"stat-label\">Total</div>\n    </div>\n    <div class=\"stat pass\">\n      <div class=\"stat-value\">{passed}</div>\n      <div class=\"stat-label\">Passed</div>\n    </div>\n    <div class=\"stat fail\">\n      <div class=\"stat-value\">{failed}</div>\n      <div class=\"stat-label\">Failed</div>\n    </div>\n  </div>\n"
    )
}

#[test]
fn line_has_five_fields_and_a_line_feed() {
    let e = entry("lint", "spec", "redocly", "ok", "/repo/.oav/reports/lint/redocly.log");
    assert_eq!(e.line(), "lint\tspec\tredocly\tok\t/repo/.oav/reports/lint/redocly.log\n");
}

#[test]
fn ledger_is_read_in_file_order() {
    let text = "lint\tspec\tredocly\tok\t/l.log\ngenerate\tserver\tspring\tfail\t/s.log\n";
    let entries = load_status_entries(text);
    assert_eq!(entries.len(), 2);
    assert!(same(&entries[0], &entry("lint", "spec", "redocly", "ok", "/l.log")));
    assert!(same(&entries[1], &entry("generate", "server", "spring", "fail", "/s.log")));
}

#[test]
fn short_lines_are_passed_over() {
    let text = "lint\tspec\tredocly\tok\n\ngenerate\tserver\tspring\tfail\t/s.log\ncompile\tserver";
    let entries = load_status_entries(text);
    assert_eq!(entries.len(), 1);
    assert!(same(&entries[0], &entry("generate", "server", "spring", "fail", "/s.log")));
}

#[test]
fn fields_behind_the_fifth_are_dropped_and_empty_fields_kept() {
    let entries = load_status_entries("a\t\tc\td\te\tf\tg\n");
    assert_eq!(entries.len(), 1);
    assert!(same(&entries[0], &entry("a", "", "c", "d", "e")));
}

#[test]
fn last_line_needs_no_line_feed() {
    let entries = load_status_entries("lint\tspec\tredocly\tok\t/l.log");
    assert_eq!(entries.len(), 1);
    assert_eq!(entries[0].log_path, "/l.log");
}

#[test]
fn empty_ledger_has_no_entries() {
    assert_eq!(load_status_entries("").len(), 0);
}

#[test]
fn ledger_read_back_gives_the_entries_in_order() {
    let written = vec![
        entry("lint", "spec", "redocly", "ok", "/repo/.oav/reports/lint/redocly.log"),
        entry("generate", "server", "spring", "ok", "/repo/x/spring.log"),
        entry("generate", "server", "_config_", "fail", "/repo/x/_errors.log"),
        entry("compile", "client", "go", "fail", ""),
    ];
    let text = render_ledger(&written);
    let read = load_status_entries(&text);
    assert_eq!(read.len(), written.len());
    for i in 0..written.len() {
        assert!(same(&read[i], &written[i]));
    }
}

#[test]
fn ledger_text_is_the_lines_in_order() {
    let a = entry("lint", "spec", "redocly", "ok", "/a");
    let b = entry("compile", "server", "spring", "fail", "/b");
    let text = render_ledger(&vec![a.duplicate(), b.duplicate()]);
    assert_eq!(text, format!("{}{}", a.line(), b.line()));
    assert_eq!(render_ledger(&Vec::new()), "");
}

#[test]
fn a_tab_in_a_field_is_not_given_back() {
    let written = vec![entry("lint", "spec", "a\tb", "ok", "/l.log")];
    let read = load_status_entries(&render_ledger(&written));
    assert_eq!(read.len(), 1);
    assert_eq!(read[0].target, "a");
    assert_eq!(read[0].status, "b");
}

#[test]
fn html_escape_replaces_the_four() {
    assert_eq!(html_escape("a<b>&\"c\""), "a&lt;b&gt;&amp;&quot;c&quot;");
    assert_eq!(html_escape("&amp;"), "&amp;amp;");
    assert_eq!(html_escape("plain 'text'"), "plain 'text'");
    assert_eq!(html_escape(""), "");
}

#[test]
fn html_escape_agrees_with_chained_replace() {
    for s in ["<script>alert(\"x\")</script>", "a && b", "&lt;", "<<>>", "\"&\""] {
        let expected = s
            .replace('&', "&amp;")
            .replace('<', "&lt;")
            .replace('>', "&gt;")
            .replace('"', "&quot;");
        assert_eq!(html_escape(s), expected);
    }
}

#[test]
fn summary_counts_ok_and_fail() {
    let entries = vec![
        entry("lint", "spec", "redocly", "ok", "/a"),
        entry("generate", "server", "spring", "fail", "/b"),
        entry("generate", "server", "go", "ok", "/c"),
        entry("compile", "server", "go", "skipped", "/d"),
    ];
    let summary = summarize(&entries);
    assert_eq!(summary.total, 4);
    assert_eq!(summary.passed, 2);
    assert_eq!(summary.failed, 1);
}

#[test]
fn empty_ledger_renders_zero_counts_and_no_section() {
    let entries: Vec<StatusEntry> = Vec::new();
    let summary = summarize(&entries);
    assert_eq!(summary.total, 0);
    assert_eq!(summary.passed, 0);
    assert_eq!(summary.failed, 0);
    let html = generate_html(&entries, &Vec::new());
    assert_eq!(html, format!("{}{}{}", HTML_HEAD, stats(0, 0, 0), HTML_FOOTER));
    assert!(!html.contains("<div class=\"section\">"));
    assert!(html.starts_with("<!DOCTYPE html>\n<html lang=\"en\">\n"));
    assert!(html.ends_with("</body>\n</html>\n"));
}

#[test]
fn dashboard_of_one_entry() {
    let entries = vec![entry("lint", "spec", "redocly", "ok", "/repo/.oav/reports/lint/redocly.log")];
    let logs = vec![Some("$ docker run\n\n<ok>\n".to_string())];
    let html = generate_html(&entries, &logs);
    let section = "  <div class=\"section\">\n    <h2>Lint</h2>\n    <table class=\"result-table\">\n      <thead>\n        <tr><th>Scope</th><th>Target</th><th>Status</th><th>Log</th></tr>\n      </thead>\n      <tbody>\n        <tr>\n          <td>spec</td>\n          <td>redocly</td>\n          <td><span class=\"badge ok\">ok</span></td>\n          <td>\n            <details>\n              <summary>redocly.log</summary>\n              <pre><code>$ docker run\n\n&lt;ok&gt;\n</code></pre>\n            </details>\n          </td>\n        </tr>\n      </tbody>\n    </table>\n  </div>\n";
    assert_eq!(html, format!("{}{}{}{}", HTML_HEAD, stats(1, 1, 0), section, HTML_FOOTER));
}

#[test]
fn sections_come_in_the_order_of_the_stages() {
    let entries = vec![
        entry("compile", "server", "spring", "fail", "/c.log"),
        entry("generate", "client", "go", "ok", "/g.log"),
        entry("lint", "spec", "redocly", "ok", "/l.log"),
        entry("other", "x", "y", "ok", "/o.log"),
    ];
    let logs = vec![None, None, None, None];
    let html = generate_html(&entries, &logs);
    let lint = html.find("<h2>Lint</h2>").unwrap();
    let generate = html.find("<h2>Generate</h2>").unwrap();
    let compile = html.find("<h2>Compile</h2>").unwrap();
    assert!(lint < generate && generate < compile);
    assert_eq!(html.matches("<div class=\"section\">").count(), 3);
    assert!(html.contains("<div class=\"stat-value\">4</div>"));
    assert!(html.contains("<div class=\"stat-value\">3</div>"));
    assert!(html.contains("<div class=\"stat-value\">1</div>"));
    assert!(!html.contains("/o.log"));
}

#[test]
fn missing_log_is_named_in_the_row() {
    let entries = vec![entry("generate", "server", "a<b", "fail", "/x/\"q\".log")];
    let html = generate_html(&entries, &vec![None]);
    assert!(html.contains("<pre><code>Log file not found: /x/&quot;q&quot;.log</code></pre>"));
    assert!(html.contains("<td>a&lt;b</td>"));
    assert!(html.contains("<span class=\"badge fail\">fail</span>"));
    let shorter = generate_html(&entries, &Vec::new());
    assert_eq!(shorter, html);
}

#[test]
fn log_without_file_name_is_called_log() {
    let entries = vec![entry("lint", "spec", "redocly", "ok", "..")];
    let html = generate_html(&entries, &vec![Some(String::new())]);
    assert!(html.contains("<summary>log</summary>"));
}

#[test]
fn rendering_twice_gives_the_same() {
    let entries = vec![
        entry("lint", "spec", "redocly", "ok", "/l.log"),
        entry("generate", "server", "spring", "fail", "/s.log"),
    ];
    let logs = vec![Some("one".to_string()), None];
    let first = generate_html(&entries, &logs);
    let second = generate_html(&entries, &logs);
    assert_eq!(first, second);
    let a = summarize(&entries);
    let b = summarize(&entries);
    assert_eq!(a, b);
    assert_eq!((a.total, a.passed, a.failed), (2, 1, 1));
}

#[test]
fn dashboard_from_the_text_of_the_ledger() {
    let text = "lint\tspec\tredocly\tok\t/l.log\nbroken line\ncompile\tserver\tgo\tfail\t/c.log\n";
    let logs = vec![Some("fine".to_string()), None];
    let html = render(text, &logs);
    assert_eq!(html, generate_html(&load_status_entries(text), &logs));
    assert!(html.contains("<pre><code>fine</code></pre>"));
    assert!(html.contains("<pre><code>Log file not found: /c.log</code></pre>"));
    assert_eq!(render("", &Vec::new()), generate_html(&Vec::new(), &Vec::new()));
}

#[test]
fn long_logs_are_cut() {
    assert_eq!(LOG_SNIPPET_LIMIT, 100000);
    let entries = vec![entry("lint", "spec", "redocly", "ok", "/l.log")];
    let long = "x".repeat(LOG_SNIPPET_LIMIT + 5);
    let html = generate_html(&entries, &vec![Some(long)]);
    let expected = format!("<pre><code>{}</code></pre>", "x".repeat(LOG_SNIPPET_LIMIT));
    assert!(html.contains(&expected));
    let full = "y".repeat(LOG_SNIPPET_LIMIT);
    let html = generate_html(&entries, &vec![Some(full.clone())]);
    assert!(html.contains(&format!("<pre><code>{full}</code></pre>")));
}

#[test]
fn lines_for_ledger_and_logs() {
    assert_eq!(
        append_status("compile", "client", "go", "fail", "/c.log"),
        "compile\tclient\tgo\tfail\t/c.log\n"
    );
    assert_eq!(write_log_header("$ docker run x"), "$ docker run x\n\n");
    assert_eq!(append_error("Missing config directory: /d"), "Missing config directory: /d\n");
}
