//! Turning events into output for a human reader.
use vstd::prelude::*;
use vstd::string::StrSliceExecFns;
use owo_colors::OwoColorize;
use crate::storyteller::event::action::{
    Action, ActionDetails, ActionStatus, spec_must_report, status_text,
};
use crate::storyteller::event::Event;
use crate::version::version_text;

verus! {

/// The width to which the status of a message is padded.
pub const STATUS_WIDTH: usize = 12;

/// The ANSI escape sequence that sets the foreground color `code`.
pub open spec fn ansi_fg(code: Seq<char>) -> Seq<char> {
    seq!['\u{1b}', '['] + code + seq!['m']
}

/// The ANSI escape sequence that restores the default foreground color.
pub open spec fn ansi_fg_default() -> Seq<char> {
    seq!['\u{1b}', '[', '3', '9', 'm']
}

/// `n` spaces.
pub open spec fn spaces(n: nat) -> Seq<char> {
    Seq::new(n, |i: int| ' ')
}

/// `text` right-aligned in a field of `width` characters: spaces on the left when it is
/// shorter, the text unchanged otherwise.
pub open spec fn pad_left(text: Seq<char>, width: nat) -> Seq<char> {
    if text.len() < width {
        spaces((width - text.len()) as nat) + text
    } else {
        text
    }
}

/// The foreground color of a status.
pub open spec fn status_color(status: ActionStatus) -> Seq<char> {
    match status {
        ActionStatus::Passed => seq!['3', '2'],
        ActionStatus::Failed => seq!['3', '1'],
        _ => seq!['9', '2'],
    }
}

/// A status message: the status, colored and right-aligned, a space, then the message.
pub open spec fn status_message(status: ActionStatus, message: Seq<char>) -> Seq<char> {
    ansi_fg(status_color(status)) + pad_left(status_text(status), STATUS_WIDTH as nat)
        + ansi_fg_default() + seq![' '] + message
}

/// `owo_colors`' `green`, formatted with a minimum width: the green foreground code, the text
/// padded on the left to `width` characters (std pads a `str` with spaces to that many
/// characters), then the code of the default foreground.
#[verifier::external_body]
fn paint_green(text: &str, width: usize) -> (s: String)
    ensures
        s@ == ansi_fg(seq!['3', '2']) + pad_left(text@, width as nat) + ansi_fg_default(),
{
    format!("{:>width$}", text.green(), width = width)
}

/// `owo_colors`' `red`, formatted with a minimum width, as [`paint_green`] with code 31.
#[verifier::external_body]
fn paint_red(text: &str, width: usize) -> (s: String)
    ensures
        s@ == ansi_fg(seq!['3', '1']) + pad_left(text@, width as nat) + ansi_fg_default(),
{
    format!("{:>width$}", text.red(), width = width)
}

/// `owo_colors`' `bright_green`, formatted with a minimum width, as [`paint_green`] with
/// code 92.
#[verifier::external_body]
fn paint_bright_green(text: &str, width: usize) -> (s: String)
    ensures
        s@ == ansi_fg(seq!['9', '2']) + pad_left(text@, width as nat) + ansi_fg_default(),
{
    format!("{:>width$}", text.bright_green(), width = width)
}

/// `text` right-aligned in a field of `width` characters.
fn pad_left_text(text: &str, width: usize) -> (s: String)
    ensures
        s@ == pad_left(text@, width as nat),
{
    proof {
        reveal_strlit(" ");
    }
    let len = text.unicode_len();
    let mut s = String::new();
    if len < width {
        let mut k: usize = 0;
        while k < width - len
            invariant
                len < width,
                k <= width - len,
                s@ == spaces(k as nat),
            decreases width - len - k,
        {
            proof {
                reveal_strlit(" ");
            }
            s.append(" ");
            k = k + 1;
            assert(s@ =~= spaces(k as nat));
        }
    }
    s.append(text);
    s
}

/// The text that `comfy_table` draws for a table of one cell holding `message` (trimmed), with
/// the full UTF-8 preset and dynamic content arrangement, laid out to `width` columns when a
/// width is given and not wrapped otherwise.
pub uninterp spec fn boxed_text(message: Seq<char>, width: Option<u16>) -> Seq<char>;

/// `comfy_table`: the message (trimmed) in a one-cell table with the full UTF-8 preset and
/// dynamic content arrangement. The table is told it is not printed to a terminal, so that it
/// neither looks up the terminal's width nor styles the cell: the layout follows `width`, when
/// one is given, and the text is a function of the arguments alone.
#[verifier::external_body]
fn message_box(message: &str, width: Option<u16>) -> (s: String)
    ensures
        s@ == boxed_text(message@, width),
{
    let mut table = comfy_table::Table::new();
    table.force_no_tty().load_style(comfy_table::presets::UTF8_FULL).set_content_arrangement(
        comfy_table::ContentArrangement::Dynamic,
    );
    if let Some(w) = width {
        table.set_width(w);
    }
    table.add_row(vec![message.trim()]);
    table.to_string()
}

/// A status message for a human reader.
pub struct HumanStatusMessage {
    status: ActionStatus,
}

impl HumanStatusMessage {
    pub fn new(status: ActionStatus) -> (m: HumanStatusMessage)
        ensures
            m.status() == status,
    {
        HumanStatusMessage { status }
    }

    pub closed spec fn status(&self) -> ActionStatus {
        self.status
    }

    /// The status, colored by kind and right-aligned, followed by the message.
    pub fn fmt(&self, message: &str) -> (s: String)
        ensures
            s@ == status_message(self.status(), message@),
    {
        proof {
            reveal_strlit(" ");
        }
        let text = self.status.as_str();
        let mut s = match self.status {
            ActionStatus::Passed => paint_green(text, STATUS_WIDTH),
            ActionStatus::Failed => paint_red(text, STATUS_WIDTH),
            _ => paint_bright_green(text, STATUS_WIDTH),
        };
        s.append(" ");
        s.append(message);
        s
    }
}

/// The text of an action for a human reader, without the status; the error of a failed check
/// is boxed to the terminal `width`.
pub open spec fn action_body(details: ActionDetails, width: Option<u16>) -> Seq<char> {
    match details {
        ActionDetails::FetchingIndex { .. } => "Obtaining rust-releases index"@,
        ActionDetails::RunToolchainCheck { version } => version_text(version),
        ActionDetails::RunToolchainCheckPass { version } => version_text(version),
        ActionDetails::RunToolchainCheckFail { version, error_message } => version_text(version)
            + seq!['\n'] + pad_left(boxed_text(error_message@, width), STATUS_WIDTH as nat),
    }
}

impl Action {
    /// The action as a status message: the release index being fetched, the version being
    /// checked, or the version and, boxed below it to the terminal `width`, the error of a
    /// failed check.
    pub fn to_message(&self, width: Option<u16>) -> (s: String)
        ensures
            s@ == status_message(self@.status, action_body(self@.details, width)),
    {
        proof {
            reveal_strlit("Obtaining rust-releases index");
            reveal_strlit("\n");
        }
        let message = HumanStatusMessage::new(self.status());
        match self.details() {
            ActionDetails::FetchingIndex { .. } => {
                let s = message.fmt("Obtaining rust-releases index");
                assert(s@ == status_message(self@.status, action_body(self@.details, width)));
                s
            },
            ActionDetails::RunToolchainCheck { version } => {
                let s = message.fmt(version.to_text().as_str());
                assert(s@ == status_message(self@.status, action_body(self@.details, width)));
                s
            },
            ActionDetails::RunToolchainCheckPass { version } => {
                let s = message.fmt(version.to_text().as_str());
                assert(s@ == status_message(self@.status, action_body(self@.details, width)));
                s
            },
            ActionDetails::RunToolchainCheckFail { version, error_message } => {
                let mut body = version.to_text();
                body.append("\n");
                let boxed = message_box(error_message.as_str(), width);
                body.append(pad_left_text(boxed.as_str(), STATUS_WIDTH).as_str());
                let s = message.fmt(body.as_str());
                assert(s@ == status_message(self@.status, action_body(self@.details, width)));
                s
            },
        }
    }
}

/// What a human reader is shown for an event: a line for a reported action or a free-form
/// message, nothing for progress, for output written to files, or for the end of an action's
/// scope. The error of a failed check is boxed to the terminal `width`.
pub fn human_progress_line(event: &Event, width: Option<u16>) -> (line: Option<String>)
    ensures
        match event {
            Event::Todo(msg) => line == Some(*msg),
            Event::Progress(_) => line is None,
            Event::AuxiliaryOutput(_) => line is None,
            Event::Action(action) => if spec_must_report(action@.scope) {
                line matches Some(l) && l@ == status_message(
                    action@.status,
                    action_body(action@.details, width),
                )
            } else {
                line is None
            },
        },
{
    match event {
        Event::Todo(msg) => Some(msg.clone()),
        Event::Progress(_) => None,
        Event::AuxiliaryOutput(_) => None,
        Event::Action(action) => {
            if action.must_report() {
                Some(action.to_message(width))
            } else {
                None
            }
        },
    }
}

/// A handler that shows nothing.
pub struct DiscardOutputHandler;

impl DiscardOutputHandler {
    /// Discards the event.
    pub fn handle(&self, _event: Event) {
    }
}

} // verus!
