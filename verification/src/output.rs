//! What the console shows, decided here and printed by the caller.

use crate::text::{decimal, decimal_string};
use owo_colors::OwoColorize;
use vstd::prelude::*;

verus! {

/// How the console is written to.
#[derive(Clone, Copy, Debug, PartialEq, Eq, Structural)]
pub struct Output {
    pub verbose: bool,
    pub quiet: bool,
    pub color: bool,
    pub progress: bool,
}

/// Something for the console.
#[derive(Debug)]
pub enum Emit {
    /// Nothing.
    Nothing,
    /// A line.
    Line(String),
    /// Text without a line end of its own, shown at once.
    Inline(String),
}

/// The text of an `Emit`.
pub enum EmitView {
    Nothing,
    Line(Seq<char>),
    Inline(Seq<char>),
}

impl View for Emit {
    type V = EmitView;

    open spec fn view(&self) -> EmitView {
        match self {
            Emit::Nothing => EmitView::Nothing,
            Emit::Line(text) => EmitView::Line(text@),
            Emit::Inline(text) => EmitView::Inline(text@),
        }
    }
}

/// How a step opens on the console.
#[derive(Debug)]
pub enum Opening {
    /// A spinner with this message.
    Spinner(String),
    /// A line.
    Line(String),
    /// Nothing.
    Silent,
}

/// The text of an `Opening`.
pub enum OpeningView {
    Spinner(Seq<char>),
    Line(Seq<char>),
    Silent,
}

impl View for Opening {
    type V = OpeningView;

    open spec fn view(&self) -> OpeningView {
        match self {
            Opening::Spinner(text) => OpeningView::Spinner(text@),
            Opening::Line(text) => OpeningView::Line(text@),
            Opening::Silent => OpeningView::Silent,
        }
    }
}

/// The template of the spinner.
pub const SPINNER_TEMPLATE: &'static str = "{spinner} {msg}";

/// The frames of the spinner, one string of one character each.
pub const SPINNER_TICKS: &'static str = "-\\|/";

/// The time between two frames of the spinner, in milliseconds.
pub const SPINNER_INTERVAL_MS: u64 = 100;

/// `text` between the escape sequences that switch the green foreground on
/// and the foreground colour off.
pub open spec fn in_green(text: Seq<char>) -> Seq<char> {
    "\x1b[32m"@ + text + "\x1b[39m"@
}

/// `text` between the escape sequences that switch the red foreground on and
/// the foreground colour off.
pub open spec fn in_red(text: Seq<char>) -> Seq<char> {
    "\x1b[31m"@ + text + "\x1b[39m"@
}

/// `text` between the escape sequences that switch bold on and every
/// attribute off.
pub open spec fn in_bold(text: Seq<char>) -> Seq<char> {
    "\x1b[1m"@ + text + "\x1b[0m"@
}

/// `text` between the escape sequences that switch dim on and every attribute
/// off.
pub open spec fn in_dim(text: Seq<char>) -> Seq<char> {
    "\x1b[2m"@ + text + "\x1b[0m"@
}

/// `OwoColorize::green` of `owo_colors`, formatted: the text after `ESC[32m`
/// and before `ESC[39m`.
#[verifier::external_body]
fn green(text: &str) -> (out: String)
    ensures
        out@ == in_green(text@),
{
    text.green().to_string()
}

/// `OwoColorize::red` of `owo_colors`, formatted: the text after `ESC[31m` and
/// before `ESC[39m`.
#[verifier::external_body]
fn red(text: &str) -> (out: String)
    ensures
        out@ == in_red(text@),
{
    text.red().to_string()
}

/// `OwoColorize::bold` of `owo_colors`, formatted: the text after `ESC[1m` and
/// before `ESC[0m`.
#[verifier::external_body]
fn bold(text: &str) -> (out: String)
    ensures
        out@ == in_bold(text@),
{
    text.bold().to_string()
}

/// `OwoColorize::dimmed` of `owo_colors`, formatted: the text after `ESC[2m`
/// and before `ESC[0m`.
#[verifier::external_body]
fn dimmed(text: &str) -> (out: String)
    ensures
        out@ == in_dim(text@),
{
    text.dimmed().to_string()
}

/// The mark of an outcome: a coloured sign where colours are on, a word where
/// they are not.
pub open spec fn status_mark(color: bool, success: bool) -> Seq<char> {
    if color {
        if success {
            in_green("\u{2713}"@)
        } else {
            in_red("\u{2717}"@)
        }
    } else if success {
        "OK"@
    } else {
        "FAIL"@
    }
}

/// `passed` and `failed` as the summary names them.
pub open spec fn passed_text(passed: nat) -> Seq<char> {
    decimal(passed) + " passed"@
}

/// `passed` and `failed` as the summary names them.
pub open spec fn failed_text(failed: nat) -> Seq<char> {
    decimal(failed) + " failed"@
}

/// The line of the summary: the passed in green, the failed in red, or dim
/// where there are none; plain where colours are off.
pub open spec fn summary_text(color: bool, passed: nat, failed: nat) -> Seq<char> {
    if color {
        in_green(passed_text(passed)) + ", "@ + (if failed > 0 {
            in_red(failed_text(failed))
        } else {
            in_dim(failed_text(failed))
        })
    } else {
        passed_text(passed) + ", "@ + failed_text(failed)
    }
}

impl Output {
    /// The console for the two flags of the command line. `is_tty` says
    /// whether standard output is a terminal, `no_color` whether the
    /// environment sets `NO_COLOR`. Colours need a terminal and no `NO_COLOR`;
    /// progress display needs a terminal and neither flag.
    pub fn new(verbose: bool, quiet: bool, is_tty: bool, no_color: bool) -> (output: Output)
        ensures
            output == (Output {
                verbose,
                quiet,
                color: is_tty && !no_color,
                progress: is_tty && !verbose && !quiet,
            }),
    {
        Output { verbose, quiet, color: is_tty && !no_color, progress: is_tty && !verbose && !quiet }
    }

    /// The mark of an outcome.
    pub fn status_icon(&self, success: bool) -> (out: String)
        ensures
            out@ == status_mark(self.color, success),
    {
        if self.color {
            if success {
                green("\u{2713}")
            } else {
                red("\u{2717}")
            }
        } else if success {
            String::from_str("OK")
        } else {
            String::from_str("FAIL")
        }
    }

    /// How a step opens: with a spinner where progress is displayed, with a
    /// line where the console is verbose, else with nothing.
    pub fn start_spinner(&self, label: &str) -> (opening: Opening)
        ensures
            opening@ == (if self.progress {
                OpeningView::Spinner(label@)
            } else if self.verbose && !self.quiet {
                OpeningView::Line("==> "@ + label@)
            } else {
                OpeningView::Silent
            }),
    {
        if self.progress {
            Opening::Spinner(String::from_str(label))
        } else if self.verbose && !self.quiet {
            let mut line = String::from_str("==> ");
            line.append(label);
            Opening::Line(line)
        } else {
            Opening::Silent
        }
    }

    /// How a step closes, once its spinner is gone: with its mark and label,
    /// unless the console is quiet.
    pub fn finish_spinner(&self, label: &str, success: bool) -> (emit: Emit)
        ensures
            emit@ == (if self.quiet {
                EmitView::Nothing
            } else {
                EmitView::Line(status_mark(self.color, success) + " "@ + label@)
            }),
    {
        if self.quiet {
            return Emit::Nothing;
        }
        let mut line = self.status_icon(success);
        line.append(" ");
        line.append(label);
        Emit::Line(line)
    }

    /// The head of a phase: an empty line and the label, bold where colours
    /// are on. Nothing where the console is quiet.
    pub fn phase_header(&self, label: &str) -> (lines: Vec<String>)
        ensures
            crate::text::texts(lines@) == (if self.quiet {
                Seq::<Seq<char>>::empty()
            } else {
                seq![
                    Seq::<char>::empty(),
                    if self.color {
                        in_bold(label@)
                    } else {
                        label@
                    },
                ]
            }),
    {
        let mut lines: Vec<String> = Vec::new();
        if !self.quiet {
            lines.push(String::new());
            if self.color {
                lines.push(bold(label));
            } else {
                lines.push(String::from_str(label));
            }
        }
        assert(crate::text::texts(lines@) =~= (if self.quiet {
            Seq::<Seq<char>>::empty()
        } else {
            seq![
                Seq::<char>::empty(),
                if self.color {
                    in_bold(label@)
                } else {
                    label@
                },
            ]
        }));
        lines
    }

    /// How a task opens: on the line that its outcome will overwrite where
    /// progress is displayed, on a line of its own where the console is
    /// verbose.
    pub fn substep_start(&self, label: &str) -> (emit: Emit)
        ensures
            emit@ == (if self.quiet {
                EmitView::Nothing
            } else if self.progress {
                EmitView::Inline("  "@ + label@ + "..."@)
            } else if self.verbose {
                EmitView::Line(label@ + "..."@)
            } else {
                EmitView::Nothing
            }),
    {
        if self.quiet {
            Emit::Nothing
        } else if self.progress {
            let mut text = String::from_str("  ");
            text.append(label);
            text.append("...");
            Emit::Inline(text)
        } else if self.verbose {
            let mut text = String::from_str(label);
            text.append("...");
            Emit::Line(text)
        } else {
            Emit::Nothing
        }
    }

    /// How a task closes: its mark and label, over the line that opened it
    /// where progress is displayed.
    pub fn substep_finish(&self, label: &str, success: bool) -> (emit: Emit)
        ensures
            emit@ == (if self.quiet {
                EmitView::Nothing
            } else if self.progress {
                EmitView::Inline(
                    "\r"@ + status_mark(self.color, success) + "   "@ + label@ + "\x1B[K\n"@,
                )
            } else {
                EmitView::Line(status_mark(self.color, success) + "   "@ + label@)
            }),
    {
        if self.quiet {
            return Emit::Nothing;
        }
        let status = self.status_icon(success);
        if self.progress {
            let mut text = String::from_str("\r");
            text.append(status.as_str());
            text.append("   ");
            text.append(label);
            text.append("\x1B[K\n");
            Emit::Inline(text)
        } else {
            let mut text = status;
            text.append("   ");
            text.append(label);
            Emit::Line(text)
        }
    }

    /// A message, unless the console is quiet.
    pub fn println(&self, message: &str) -> (emit: Emit)
        ensures
            emit@ == (if self.quiet {
                EmitView::Nothing
            } else {
                EmitView::Line(message@)
            }),
    {
        if self.quiet {
            Emit::Nothing
        } else {
            Emit::Line(String::from_str(message))
        }
    }

    /// A message, whatever the console.
    pub fn println_always(&self, message: &str) -> (emit: Emit)
        ensures
            emit@ == EmitView::Line(message@),
    {
        Emit::Line(String::from_str(message))
    }

    /// The line that reports an error: `error:`, bold and red where colours
    /// are on, and the message.
    pub fn print_error(&self, message: &str) -> (line: String)
        ensures
            line@ == (if self.color {
                in_bold(in_red("error:"@)) + " "@ + message@
            } else {
                "error: "@ + message@
            }),
    {
        if self.color {
            let mut line = bold(red("error:").as_str());
            line.append(" ");
            line.append(message);
            line
        } else {
            let mut line = String::from_str("error: ");
            line.append(message);
            line
        }
    }

    /// The summary of a run: an empty line and the counts. Nothing where the
    /// console is quiet.
    pub fn print_summary(&self, passed: usize, failed: usize) -> (lines: Vec<String>)
        ensures
            crate::text::texts(lines@) == (if self.quiet {
                Seq::<Seq<char>>::empty()
            } else {
                seq![Seq::<char>::empty(), summary_text(self.color, passed as nat, failed as nat)]
            }),
    {
        let mut lines: Vec<String> = Vec::new();
        if !self.quiet {
            lines.push(String::new());
            let mut passed_part = decimal_string(passed as u64);
            passed_part.append(" passed");
            let mut failed_part = decimal_string(failed as u64);
            failed_part.append(" failed");
            let line = if self.color {
                let mut line = green(passed_part.as_str());
                line.append(", ");
                if failed > 0 {
                    line.append(red(failed_part.as_str()).as_str());
                } else {
                    line.append(dimmed(failed_part.as_str()).as_str());
                }
                line
            } else {
                let mut line = passed_part;
                line.append(", ");
                line.append(failed_part.as_str());
                line
            };
            lines.push(line);
        }
        assert(crate::text::texts(lines@) =~= (if self.quiet {
            Seq::<Seq<char>>::empty()
        } else {
            seq![Seq::<char>::empty(), summary_text(self.color, passed as nat, failed as nat)]
        }));
        lines
    }
}

} // verus!
