//! The command language: which handler a command word selects, and which
//! help page a topic selects.

use vstd::prelude::*;
use crate::text::same_text;

verus! {

/// The handler that a command word selects.
#[derive(Clone, Copy, Debug, PartialEq, Eq, Structural)]
pub enum CommandKind {
    /// An empty line.
    Blank,
    /// `exit`, `quit` or `:q!`.
    Exit,
    /// `af`: append a file to the current scroll.
    AppendFile,
    /// `cs`: change or show the current coordinate.
    ChangeScroll,
    /// `ds`: display the current scroll.
    DisplayScroll,
    /// `pi`: index the document.
    PhextIndex,
    /// `ps`: soundex map of the document.
    PhextSoundex,
    /// `ph`: checksum manifest of the document.
    PhextHash,
    /// `lp`: load a document.
    LoadPhext,
    /// `os`: overwrite the current scroll.
    OverwriteScroll,
    /// `rp`: clear the document.
    ResetPhext,
    /// `rs`: clear the current scroll.
    ResetScroll,
    /// `sp`: save the document.
    SavePhext,
    /// `help`.
    Help,
    /// Anything else: run it as a program.
    External,
}

pub open spec fn command_of(word: Seq<char>) -> CommandKind {
    if word.len() == 0 {
        CommandKind::Blank
    } else if word == "exit"@ || word == "quit"@ || word == ":q!"@ {
        CommandKind::Exit
    } else if word == "af"@ {
        CommandKind::AppendFile
    } else if word == "cs"@ {
        CommandKind::ChangeScroll
    } else if word == "ds"@ {
        CommandKind::DisplayScroll
    } else if word == "pi"@ {
        CommandKind::PhextIndex
    } else if word == "ps"@ {
        CommandKind::PhextSoundex
    } else if word == "ph"@ {
        CommandKind::PhextHash
    } else if word == "lp"@ {
        CommandKind::LoadPhext
    } else if word == "os"@ {
        CommandKind::OverwriteScroll
    } else if word == "rp"@ {
        CommandKind::ResetPhext
    } else if word == "rs"@ {
        CommandKind::ResetScroll
    } else if word == "sp"@ {
        CommandKind::SavePhext
    } else if word == "help"@ {
        CommandKind::Help
    } else {
        CommandKind::External
    }
}

/// The handler for a command word; the match is case-sensitive.
pub fn classify(word: &str) -> (r: CommandKind)
    ensures
        r == command_of(word@),
{
    if word.unicode_len() == 0 {
        CommandKind::Blank
    } else if same_text(word, "exit") || same_text(word, "quit") || same_text(word, ":q!") {
        CommandKind::Exit
    } else if same_text(word, "af") {
        CommandKind::AppendFile
    } else if same_text(word, "cs") {
        CommandKind::ChangeScroll
    } else if same_text(word, "ds") {
        CommandKind::DisplayScroll
    } else if same_text(word, "pi") {
        CommandKind::PhextIndex
    } else if same_text(word, "ps") {
        CommandKind::PhextSoundex
    } else if same_text(word, "ph") {
        CommandKind::PhextHash
    } else if same_text(word, "lp") {
        CommandKind::LoadPhext
    } else if same_text(word, "os") {
        CommandKind::OverwriteScroll
    } else if same_text(word, "rp") {
        CommandKind::ResetPhext
    } else if same_text(word, "rs") {
        CommandKind::ResetScroll
    } else if same_text(word, "sp") {
        CommandKind::SavePhext
    } else if same_text(word, "help") {
        CommandKind::Help
    } else {
        CommandKind::External
    }
}

/// The pages of built-in help.
#[derive(Clone, Copy, Debug, PartialEq, Eq, Structural)]
pub enum HelpTopic {
    Load,
    ChangeScroll,
    Coordinate,
    Delimiter,
    Exocortex,
    Phext,
    Subspace,
    Overview,
}

/// `c`, with ASCII case folded, equals `p`.
pub open spec fn folds_to(c: char, p: char) -> bool {
    if 'A' <= c && c <= 'Z' {
        (c as u32) + 32 == p as u32
    } else {
        c == p
    }
}

/// `s`, lowercased in ASCII, starts with `p`.
pub open spec fn starts_folded(s: Seq<char>, p: Seq<char>) -> bool {
    p.len() <= s.len() && forall|i: int| 0 <= i < p.len() ==> folds_to(#[trigger] s[i], p[i])
}

/// The help page for a topic: the first page whose name starts the topic,
/// ignoring ASCII case, or the overview.
pub open spec fn help_topic(area: Seq<char>) -> HelpTopic {
    if starts_folded(area, "lp"@) {
        HelpTopic::Load
    } else if starts_folded(area, "cs"@) {
        HelpTopic::ChangeScroll
    } else if starts_folded(area, "coordinate"@) {
        HelpTopic::Coordinate
    } else if starts_folded(area, "delimiter"@) {
        HelpTopic::Delimiter
    } else if starts_folded(area, "exocortex"@) {
        HelpTopic::Exocortex
    } else if starts_folded(area, "phext"@) {
        HelpTopic::Phext
    } else if starts_folded(area, "subspace"@) {
        HelpTopic::Subspace
    } else {
        HelpTopic::Overview
    }
}

fn has_folded_prefix(s: &str, n: usize, p: &str) -> (r: bool)
    requires
        n == s@.len(),
    ensures
        r == starts_folded(s@, p@),
{
    let m = p.unicode_len();
    if m > n {
        return false;
    }
    let mut i: usize = 0;
    while i < m
        invariant
            m == p@.len(),
            m <= n,
            n == s@.len(),
            i <= m,
            forall|j: int| 0 <= j < i ==> folds_to(#[trigger] s@[j], p@[j]),
        decreases m - i,
    {
        let c = s.get_char(i);
        let q = p.get_char(i);
        let same = if 'A' <= c && c <= 'Z' {
            (c as u32) + 32 == q as u32
        } else {
            c == q
        };
        if !same {
            return false;
        }
        i = i + 1;
    }
    true
}

/// The help page that `help <area>` shows.
pub fn select_help(area: &str) -> (r: HelpTopic)
    ensures
        r == help_topic(area@),
{
    let n = area.unicode_len();
    if has_folded_prefix(area, n, "lp") {
        HelpTopic::Load
    } else if has_folded_prefix(area, n, "cs") {
        HelpTopic::ChangeScroll
    } else if has_folded_prefix(area, n, "coordinate") {
        HelpTopic::Coordinate
    } else if has_folded_prefix(area, n, "delimiter") {
        HelpTopic::Delimiter
    } else if has_folded_prefix(area, n, "exocortex") {
        HelpTopic::Exocortex
    } else if has_folded_prefix(area, n, "phext") {
        HelpTopic::Phext
    } else if has_folded_prefix(area, n, "subspace") {
        HelpTopic::Subspace
    } else {
        HelpTopic::Overview
    }
}

} // verus!
