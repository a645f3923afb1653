//! What the user typed, and what to do about it.

use vstd::prelude::*;
use crate::text::{same_text, texts};

verus! {

/// A line of input, read as a command.
#[derive(Debug, Clone)]
pub enum Cmd {
    Quit,
    Chat(String),
    RefreshAll,
    RefreshConversation,
    RefreshInstructions,
    RefreshFiles,
}

/// A [`Cmd`] as plain text.
pub enum CmdView {
    Quit,
    Chat(Seq<char>),
    RefreshAll,
    RefreshConversation,
    RefreshInstructions,
    RefreshFiles,
}

impl View for Cmd {
    type V = CmdView;

    open spec fn view(&self) -> CmdView {
        match self {
            Cmd::Quit => CmdView::Quit,
            Cmd::Chat(msg) => CmdView::Chat(msg@),
            Cmd::RefreshAll => CmdView::RefreshAll,
            Cmd::RefreshConversation => CmdView::RefreshConversation,
            Cmd::RefreshInstructions => CmdView::RefreshInstructions,
            Cmd::RefreshFiles => CmdView::RefreshFiles,
        }
    }
}

/// The command that `input` stands for: one of the words that begin with
/// a slash, or else a message to the assistant.
pub open spec fn command_of(input: Seq<char>) -> CmdView {
    if input == "/q"@ {
        CmdView::Quit
    } else if input == "/r"@ || input == "/ra"@ {
        CmdView::RefreshAll
    } else if input == "/ri"@ {
        CmdView::RefreshInstructions
    } else if input == "/rf"@ {
        CmdView::RefreshFiles
    } else if input == "/rc"@ {
        CmdView::RefreshConversation
    } else {
        CmdView::Chat(input)
    }
}

impl Cmd {
    /// Reads a line of input as a command.
    pub fn from_input(input: &str) -> (cmd: Cmd)
        ensures
            cmd@ == command_of(input@),
    {
        if same_text(input, "/q") {
            Cmd::Quit
        } else if same_text(input, "/r") || same_text(input, "/ra") {
            Cmd::RefreshAll
        } else if same_text(input, "/ri") {
            Cmd::RefreshInstructions
        } else if same_text(input, "/rf") {
            Cmd::RefreshFiles
        } else if same_text(input, "/rc") {
            Cmd::RefreshConversation
        } else {
            Cmd::Chat(input.to_owned())
        }
    }
}

/// What the prompt loop does with a command.
#[derive(Debug, Clone)]
pub enum ReplStep {
    /// Leave the loop.
    Stop,
    /// Send the message to the assistant and show the answer.
    Chat { msg: String },
    /// Tell the user that the command is not supported, and go on.
    Unsupported { cmd: Cmd },
}

/// A [`ReplStep`] as plain text.
pub enum ReplStepView {
    Stop,
    Chat { msg: Seq<char> },
    Unsupported { cmd: CmdView },
}

impl View for ReplStep {
    type V = ReplStepView;

    open spec fn view(&self) -> ReplStepView {
        match self {
            ReplStep::Stop => ReplStepView::Stop,
            ReplStep::Chat { msg } => ReplStepView::Chat { msg: msg@ },
            ReplStep::Unsupported { cmd } => ReplStepView::Unsupported { cmd: cmd@ },
        }
    }
}

/// What the prompt loop does with `cmd`: quitting and chatting are acted
/// on, the refresh commands are reported as unsupported.
pub open spec fn step_for(cmd: CmdView) -> ReplStepView {
    match cmd {
        CmdView::Quit => ReplStepView::Stop,
        CmdView::Chat(msg) => ReplStepView::Chat { msg },
        other => ReplStepView::Unsupported { cmd: other },
    }
}

/// Decides what the prompt loop does with `cmd`.
pub fn dispatch(cmd: Cmd) -> (step: ReplStep)
    ensures
        step@ == step_for(cmd@),
{
    match cmd {
        Cmd::Quit => ReplStep::Stop,
        Cmd::Chat(msg) => ReplStep::Chat { msg },
        other => ReplStep::Unsupported { cmd: other },
    }
}

/// Width to which an answer is wrapped for display.
pub const REPLY_WIDTH: usize = 80;

/// The lines that textwrap breaks `text` into at `width` columns.
pub uninterp spec fn wrapped(text: Seq<char>, width: usize) -> Seq<Seq<char>>;

/// `textwrap::wrap` with a plain width. The lines that come back are
/// [`wrapped`].
#[verifier::external_body]
fn wrap_text(text: &str, width: usize) -> (lines: Vec<String>)
    ensures
        texts(lines@) == wrapped(text@, width),
{
    textwrap::wrap(text, width).into_iter().map(|line| line.into_owned()).collect()
}

/// `lines` with a line feed between each two.
pub open spec fn joined_by_newline(lines: Seq<Seq<char>>) -> Seq<char>
    decreases lines.len(),
{
    if lines.len() == 0 {
        Seq::empty()
    } else if lines.len() == 1 {
        lines[0]
    } else {
        joined_by_newline(lines.drop_last()) + seq!['\n'] + lines.last()
    }
}

/// Joins `lines` into one text, a line feed between each two.
pub fn join_lines(lines: &Vec<String>) -> (text: String)
    ensures
        text@ == joined_by_newline(texts(lines@)),
{
    let ghost all = texts(lines@);
    let mut text = String::new();
    let mut i: usize = 0;
    while i < lines.len()
        invariant
            i <= lines.len(),
            all == texts(lines@),
            text@ == joined_by_newline(all.take(i as int)),
        decreases lines.len() - i,
    {
        proof {
            assert(all.take(i + 1).drop_last() == all.take(i as int));
            assert(all.take(i + 1).last() == lines[i as int]@);
            reveal_strlit("\n");
            assert("\n"@ == seq!['\n']);
        }
        if i > 0 {
            text.append("\n");
        }
        text.append(lines[i].as_str());
        i += 1;
    }
    assert(all.take(i as int) == all);
    text
}

/// An answer laid out for display: wrapped at [`REPLY_WIDTH`] columns.
pub fn format_reply(reply: &str) -> (text: String)
    ensures
        text@ == joined_by_newline(wrapped(reply@, REPLY_WIDTH)),
{
    let lines = wrap_text(reply, REPLY_WIDTH);
    join_lines(&lines)
}

} // verus!
