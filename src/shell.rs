//! The shell session: its state, the transition that one request line
//! makes, and the completions of the file and process work that a request
//! hands to its caller.

use vstd::prelude::*;
use crate::command::{classify, command_of, help_topic, select_help, CommandKind, HelpTopic};
use crate::coordinate::{accepted_address, read_address, Coordinate};
use crate::engine::{
    checksum, checksum_of, fetch, index, index_of, manifest, manifest_of, replace, scroll_at,
    soundex, soundex_of, text_map, text_map_of, with_scroll,
};
use crate::text::{
    decimal, decimal_text, head_word, joined, lossy_string, lossy_text, rest_after_space,
    split_once_space, split_words, texts, trim_text, trimmed, words,
};
use vstd::utf8::encode_utf8;

verus! {

/// The session as values: the last loaded file name, the cursor, whether
/// the shell goes on, the document, the scroll at the cursor and the
/// per-coordinate command log.
pub struct Session {
    pub filename: Seq<char>,
    pub coordinate: Coordinate,
    pub running: bool,
    pub document: Seq<char>,
    pub scroll: Seq<char>,
    pub history: Seq<char>,
}

impl Session {
    /// The cursor is a reachable coordinate and the scroll is what the
    /// document holds there.
    pub open spec fn wf(&self) -> bool {
        self.coordinate.valid() && self.scroll == scroll_at(self.document, self.coordinate)
    }
}

/// The mutable state of one running shell.
#[derive(Debug)]
pub struct ShellState {
    pub filename: String,
    pub coordinate: Coordinate,
    pub running: bool,
    pub document: String,
    pub scroll: String,
    pub history: String,
}

impl View for ShellState {
    type V = Session;

    open spec fn view(&self) -> Session {
        Session {
            filename: self.filename@,
            coordinate: self.coordinate,
            running: self.running,
            document: self.document@,
            scroll: self.scroll@,
            history: self.history@,
        }
    }
}

/// Work that a request leaves to the caller, as values.
pub enum Action {
    Nothing,
    ReadAppend(Seq<char>),
    Load(Seq<char>),
    Write(Seq<char>, Seq<char>, bool),
    ShowHelp(HelpTopic),
    Spawn(Seq<char>, Seq<Seq<char>>),
}

/// Work that a request leaves to the caller.
#[derive(Debug)]
pub enum Effect {
    Nothing,
    /// Read the file at `path` and hand it to `ShellState::finish_append`.
    ReadAppend { path: String },
    /// Read the file at `path`, if there is one, and hand the outcome to
    /// `ShellState::finish_load`.
    Load { path: String },
    /// Write `contents` to `path` and hand the outcome to `write_report`.
    Write { path: String, contents: String, announce: bool },
    /// Print a page of help.
    ShowHelp { topic: HelpTopic },
    /// Run `program` with `args`, capture its output and hand it to
    /// `ShellState::finish_capture`.
    Spawn { program: String, args: Vec<String> },
}

impl View for Effect {
    type V = Action;

    open spec fn view(&self) -> Action {
        match self {
            Effect::Nothing => Action::Nothing,
            Effect::ReadAppend { path } => Action::ReadAppend(path@),
            Effect::Load { path } => Action::Load(path@),
            Effect::Write { path, contents, announce } => Action::Write(
                path@,
                contents@,
                *announce,
            ),
            Effect::ShowHelp { topic } => Action::ShowHelp(*topic),
            Effect::Spawn { program, args } => Action::Spawn(program@, texts(args@)),
        }
    }
}

/// What a request prints, and the work it leaves to the caller.
#[derive(Debug)]
pub struct Response {
    pub lines: Vec<String>,
    pub effect: Effect,
}

/// What a file read for `lp` came to.
#[derive(Debug)]
pub enum LoadOutcome {
    /// No file at the path.
    Missing,
    /// The file's text.
    Loaded(String),
    /// The file is there but could not be read; the error text.
    Failed(String),
}

/// `s` with `line` appended, after a newline, to the log at its cursor.
pub open spec fn logged(s: Session, line: Seq<char>) -> Session {
    Session {
        history: with_scroll(
            s.history,
            s.coordinate,
            scroll_at(s.history, s.coordinate) + "\n"@ + line,
        ),
        ..s
    }
}

/// `s` holding `document`, with the scroll read again at the cursor.
pub open spec fn refreshed(s: Session, document: Seq<char>) -> Session {
    Session { document: document, scroll: scroll_at(document, s.coordinate), ..s }
}

/// The trimmed request line, its command word and its argument text.
pub open spec fn request_line(request: Seq<char>) -> Seq<char> {
    trimmed(request)
}

pub open spec fn request_word(request: Seq<char>) -> Seq<char> {
    head_word(trimmed(request))
}

pub open spec fn request_arg(request: Seq<char>) -> Seq<char> {
    rest_after_space(trimmed(request))
}

pub open spec fn expected_argument() -> Seq<char> {
    "Expected 1 argument"@
}

/// The state after one request line.
pub open spec fn step(s: Session, request: Seq<char>) -> Session {
    let arg = request_arg(request);
    let t = logged(s, request_line(request));
    match command_of(request_word(request)) {
        CommandKind::Exit => Session { running: false, ..t },
        CommandKind::ChangeScroll => if arg.len() > 0 && accepted_address(arg) is Some {
            let c = accepted_address(arg)->Some_0;
            Session { coordinate: c, scroll: scroll_at(t.document, c), ..t }
        } else {
            t
        },
        CommandKind::DisplayScroll => refreshed(t, t.document),
        CommandKind::LoadPhext => if arg.len() > 0 {
            Session { filename: arg, ..t }
        } else {
            t
        },
        CommandKind::OverwriteScroll => refreshed(t, with_scroll(t.document, t.coordinate, arg)),
        CommandKind::ResetPhext => refreshed(t, Seq::empty()),
        CommandKind::ResetScroll => refreshed(
            t,
            with_scroll(t.document, t.coordinate, Seq::empty()),
        ),
        _ => t,
    }
}

/// The lines that one request line prints.
pub open spec fn step_lines(s: Session, request: Seq<char>) -> Seq<Seq<char>> {
    let arg = request_arg(request);
    let u = step(s, request);
    match command_of(request_word(request)) {
        CommandKind::AppendFile | CommandKind::LoadPhext | CommandKind::SavePhext => if arg.len()
            == 0 {
            seq![expected_argument()]
        } else {
            seq![]
        },
        CommandKind::ChangeScroll => if arg.len() == 0 {
            seq!["Location: "@ + s.coordinate.text()]
        } else if accepted_address(arg) is None {
            seq!["Invalid coordinate '"@ + arg + "'"@]
        } else if s.document.len() > 0 {
            seq![u.scroll]
        } else {
            seq![]
        },
        CommandKind::DisplayScroll | CommandKind::OverwriteScroll | CommandKind::ResetPhext
        | CommandKind::ResetScroll => seq![u.scroll],
        CommandKind::PhextIndex => seq![text_map_of(index_of(s.document))],
        CommandKind::PhextSoundex => seq![text_map_of(soundex_of(s.document))],
        CommandKind::PhextHash => seq![
            "Checksum: "@ + checksum_of(manifest_of(s.document)) + " ("@ + s.filename
                + ".checksum"@ + ")."@,
        ],
        CommandKind::External => seq!["Executing '"@ + request_line(request) + "'..."@],
        _ => seq![],
    }
}

/// The work that one request line leaves to the caller.
pub open spec fn step_action(s: Session, request: Seq<char>) -> Action {
    let arg = request_arg(request);
    match command_of(request_word(request)) {
        CommandKind::AppendFile => if arg.len() > 0 {
            Action::ReadAppend(arg)
        } else {
            Action::Nothing
        },
        CommandKind::LoadPhext => if arg.len() > 0 {
            Action::Load(arg)
        } else {
            Action::Nothing
        },
        CommandKind::SavePhext => if arg.len() > 0 {
            Action::Write(arg, s.document, true)
        } else {
            Action::Nothing
        },
        CommandKind::PhextIndex => Action::Write(
            s.filename + ".index"@,
            index_of(s.document),
            false,
        ),
        CommandKind::PhextSoundex => Action::Write(
            s.filename + ".soundex"@,
            soundex_of(s.document),
            false,
        ),
        CommandKind::PhextHash => Action::Write(
            s.filename + ".checksum"@,
            manifest_of(s.document),
            false,
        ),
        CommandKind::Help => Action::ShowHelp(help_topic(arg)),
        CommandKind::External => Action::Spawn(request_word(request), words(arg)),
        _ => Action::Nothing,
    }
}

/// The lines printed once a file has been read for `af`.
pub open spec fn append_lines(path: Seq<char>, u: Session) -> Seq<Seq<char>> {
    seq!["Appended "@ + path, Seq::empty(), u.scroll]
}

/// The line that a failed read for `af` prints.
pub open spec fn append_failure(path: Seq<char>, e: Seq<char>) -> Seq<char> {
    "Error reading file '"@ + path + "': "@ + e
}

/// The line that `lp` prints for a path with no file.
pub open spec fn missing_file_notice(path: Seq<char>) -> Seq<char> {
    "No file for "@ + path + " found. Initializing an empty phext..."@
}

/// The length of `text` in UTF-8 bytes, as `str::len` reports it (a text
/// held in memory is never longer than `usize::MAX` bytes).
pub open spec fn byte_count(text: Seq<char>) -> nat {
    (encode_utf8(text).len() as usize) as nat
}

/// The first line printed once a program's output is captured: how many
/// bytes of text came in, and where they went.
pub open spec fn capture_notice(text: Seq<char>, c: Coordinate) -> Seq<char> {
    "Collected "@ + decimal(byte_count(text)) + " bytes into "@ + c.text()
}

fn one_line(s: String) -> (r: Vec<String>)
    ensures
        texts(r@) == seq![s@],
{
    let mut r: Vec<String> = Vec::new();
    r.push(s);
    assert(texts(r@) =~= seq![s@]);
    r
}

fn no_lines() -> (r: Vec<String>)
    ensures
        texts(r@) == Seq::<Seq<char>>::empty(),
{
    let r: Vec<String> = Vec::new();
    assert(texts(r@) =~= Seq::<Seq<char>>::empty());
    r
}

/// The text of `s` followed by that of `t`.
fn followed_by(mut s: String, t: &str) -> (r: String)
    ensures
        r@ == s@ + t@,
{
    s.append(t);
    s
}

/// The lines of a report on writing `path`: nothing, or the save notice
/// where `announce` holds, on success; the error otherwise.
pub open spec fn write_lines(path: Seq<char>, announce: bool, failure: Option<Seq<char>>) -> Seq<
    Seq<char>,
> {
    match failure {
        None => if announce {
            seq!["Saved "@ + path + "."@]
        } else {
            seq![]
        },
        Some(e) => seq!["Unable to locate "@ + path + ": "@ + e],
    }
}

/// What to print once `Effect::Write` has been carried out.
pub fn write_report(path: &str, announce: bool, outcome: Result<(), String>) -> (r: Vec<String>)
    ensures
        texts(r@) == write_lines(
            path@,
            announce,
            match outcome {
                Ok(_) => None,
                Err(e) => Some(e@),
            },
        ),
{
    match outcome {
        Ok(_) => if announce {
            one_line(followed_by(joined("Saved ", path), "."))
        } else {
            no_lines()
        },
        Err(e) => one_line(followed_by(followed_by(joined("Unable to locate ", path), ": "), e.as_str())),
    }
}

impl ShellState {
    /// A fresh session: no file, the cursor at `1.1.1/1.1.1/1.1.1`, an
    /// empty document and an empty log.
    pub fn new() -> (r: ShellState)
        ensures
            r@.wf(),
            r@.filename.len() == 0,
            r@.coordinate == Coordinate::spec_origin(),
            r@.running,
            r@.document.len() == 0,
            r@.scroll.len() == 0,
            r@.history.len() == 0,
    {
        let coordinate = Coordinate::origin();
        let document = String::new();
        let scroll = fetch(document.as_str(), coordinate);
        ShellState {
            filename: String::new(),
            coordinate,
            running: true,
            document,
            scroll,
            history: String::new(),
        }
    }

    /// Appends `line` to the log at the cursor.
    fn log_line(&mut self, line: &str)
        requires
            old(self)@.wf(),
        ensures
            final(self)@ == logged(old(self)@, line@),
    {
        let prior = fetch(self.history.as_str(), self.coordinate);
        let entry = followed_by(followed_by(prior, "\n"), line);
        self.history = replace(self.history.as_str(), self.coordinate, entry.as_str());
    }

    /// Puts `document` in place and reads the scroll at the cursor again.
    fn set_document(&mut self, document: String)
        requires
            old(self)@.wf(),
        ensures
            final(self)@ == refreshed(old(self)@, document@),
            final(self)@.wf(),
            document@.len() == 0 ==> final(self)@.scroll.len() == 0,
    {
        self.scroll = fetch(document.as_str(), self.coordinate);
        self.document = document;
    }

    /// Finishes `af`: appends the text read from `path` to the scroll at
    /// the cursor and prints it; a failed read changes nothing.
    pub fn finish_append(&mut self, path: &str, read: Result<String, String>) -> (r: Vec<String>)
        requires
            old(self)@.wf(),
        ensures
            final(self)@.wf(),
            match read {
                Ok(content) => {
                    let s = old(self)@;
                    &&& final(self)@ == refreshed(
                        s,
                        with_scroll(
                            s.document,
                            s.coordinate,
                            scroll_at(s.document, s.coordinate) + content@,
                        ),
                    )
                    &&& texts(r@) == append_lines(path@, final(self)@)
                },
                Err(e) => {
                    &&& final(self)@ == old(self)@
                    &&& texts(r@) == seq![append_failure(path@, e@)]
                },
            },
    {
        match read {
            Ok(content) => {
                let prior = fetch(self.document.as_str(), self.coordinate);
                let update = followed_by(prior, content.as_str());
                let document = replace(self.document.as_str(), self.coordinate, update.as_str());
                self.set_document(document);
                let mut lines = one_line(joined("Appended ", path));
                let blank = String::new();
                let ghost first = lines@;
                lines.push(blank);
                assert(texts(lines@) =~= texts(first).push(Seq::<char>::empty()));
                let ghost second = lines@;
                lines.push(self.scroll.clone());
                assert(texts(lines@) =~= texts(second).push(self.scroll@));
                assert(texts(lines@) =~= append_lines(path@, self@));
                lines
            },
            Err(e) => one_line(followed_by(followed_by(joined("Error reading file '", path), "': "), e.as_str())),
        }
    }

    /// Finishes `lp`: a file's text becomes the document and its coordinate
    /// map is printed; a missing file leaves an empty document; a failed
    /// read changes nothing.
    pub fn finish_load(&mut self, path: &str, outcome: LoadOutcome) -> (r: Vec<String>)
        requires
            old(self)@.wf(),
        ensures
            final(self)@.wf(),
            match outcome {
                LoadOutcome::Loaded(content) => {
                    &&& final(self)@ == refreshed(old(self)@, content@)
                    &&& texts(r@) == seq![text_map_of(content@)]
                },
                LoadOutcome::Missing => {
                    &&& final(self)@ == refreshed(old(self)@, Seq::empty())
                    &&& final(self)@.document.len() == 0
                    &&& final(self)@.scroll.len() == 0
                    &&& texts(r@) == seq![missing_file_notice(path@)]
                },
                LoadOutcome::Failed(e) => {
                    &&& final(self)@ == old(self)@
                    &&& texts(r@) == seq!["Unable to locate "@ + path@ + ": "@ + e@]
                },
            },
    {
        match outcome {
            LoadOutcome::Loaded(content) => {
                let shown = text_map(content.as_str());
                self.set_document(content);
                one_line(shown)
            },
            LoadOutcome::Missing => {
                self.set_document(String::new());
                one_line(followed_by(joined("No file for ", path), " found. Initializing an empty phext..."))
            },
            LoadOutcome::Failed(e) => one_line(
                followed_by(followed_by(joined("Unable to locate ", path), ": "), e.as_str()),
            ),
        }
    }

    /// Finishes a program run: its standard output, read as UTF-8 with
    /// invalid sequences replaced, becomes the scroll at the cursor; any
    /// standard error is printed. A program that did not start changes
    /// nothing.
    pub fn finish_capture(&mut self, outcome: Result<(Vec<u8>, Vec<u8>), String>) -> (r: Vec<
        String,
    >)
        requires
            old(self)@.wf(),
        ensures
            final(self)@.wf(),
            match outcome {
                Ok((out, err)) => {
                    let s = old(self)@;
                    let text = lossy_text(out@);
                    &&& final(self)@ == refreshed(s, with_scroll(s.document, s.coordinate, text))
                    &&& texts(r@) == seq![capture_notice(text, s.coordinate)] + if err@.len() > 0 {
                        seq!["Error: "@ + lossy_text(err@)]
                    } else {
                        Seq::<Seq<char>>::empty()
                    }
                },
                Err(e) => {
                    &&& final(self)@ == old(self)@
                    &&& texts(r@) == seq!["Failed to execute process: "@ + e@]
                },
            },
    {
        match outcome {
            Ok((out, err)) => {
                let text = lossy_string(&out);
                let document = replace(self.document.as_str(), self.coordinate, text.as_str());
                self.set_document(document);
                let count = decimal_text(text.as_str().len());
                let place = self.coordinate.to_text();
                let notice = followed_by(followed_by(joined("Collected ", count.as_str()), " bytes into "), place.as_str());
                let mut lines = one_line(notice);
                let ghost first = lines@;
                if err.len() > 0 {
                    let shown = lossy_string(&err);
                    lines.push(joined("Error: ", shown.as_str()));
                    assert(texts(lines@) =~= texts(first).push("Error: "@ + lossy_text(err@)));
                } else {
                    assert(texts(lines@) =~= texts(first));
                }
                assert(texts(lines@) =~= seq![capture_notice(text@, self.coordinate)] + if err@.len() > 0 {
                    seq!["Error: "@ + lossy_text(err@)]
                } else {
                    Seq::<Seq<char>>::empty()
                });
                lines
            },
            Err(e) => one_line(joined("Failed to execute process: ", e.as_str())),
        }
    }

    /// Where the log is kept when the shell ends: the file name with
    /// `.history` after it.
    pub fn history_path(&self) -> (r: String)
        ensures
            r@ == self.filename@ + ".history"@,
    {
        joined(self.filename.as_str(), ".history")
    }

    /// Carries out one request line: logs it at the cursor, then runs the
    /// command that its first word names, or hands it to a program.
    pub fn handle_request(&mut self, request: &str) -> (r: Response)
        requires
            old(self)@.wf(),
        ensures
            final(self)@ == step(old(self)@, request@),
            final(self)@.wf(),
            texts(r.lines@) == step_lines(old(self)@, request@),
            r.effect@ == step_action(old(self)@, request@),
    {
        let line = trim_text(request);
        let (word, arg) = match split_once_space(line) {
            Some(parts) => parts,
            None => {
                proof {
                    reveal_strlit("");
                    assert(line@.take(line@.len() as int) =~= line@);
                }
                (line, "")
            },
        };
        assert(word@ == request_word(request@));
        assert(arg@ == request_arg(request@));
        let ghost s = self@;
        self.log_line(line);
        let kind = classify(word);
        let has_arg = arg.unicode_len() > 0;
        match kind {
            CommandKind::Blank => Response { lines: no_lines(), effect: Effect::Nothing },
            CommandKind::Exit => {
                self.running = false;
                Response { lines: no_lines(), effect: Effect::Nothing }
            },
            CommandKind::AppendFile => {
                if has_arg {
                    Response { lines: no_lines(), effect: Effect::ReadAppend { path: arg.to_owned() } }
                } else {
                    Response { lines: one_line("Expected 1 argument".to_owned()), effect: Effect::Nothing }
                }
            },
            CommandKind::ChangeScroll => {
                if !has_arg {
                    let text = self.coordinate.to_text();
                    Response {
                        lines: one_line(joined("Location: ", text.as_str())),
                        effect: Effect::Nothing,
                    }
                } else {
                    match read_address(arg) {
                        Some(c) => {
                            self.coordinate = c;
                            self.scroll = fetch(self.document.as_str(), c);
                            let lines = if self.document.as_str().unicode_len() > 0 {
                                one_line(self.scroll.clone())
                            } else {
                                no_lines()
                            };
                            Response { lines, effect: Effect::Nothing }
                        },
                        None => Response {
                            lines: one_line(followed_by(joined("Invalid coordinate '", arg), "'")),
                            effect: Effect::Nothing,
                        },
                    }
                }
            },
            CommandKind::DisplayScroll => {
                let document = self.document.clone();
                self.set_document(document);
                Response { lines: one_line(self.scroll.clone()), effect: Effect::Nothing }
            },
            CommandKind::PhextIndex => {
                let built = index(self.document.as_str());
                let shown = text_map(built.as_str());
                Response {
                    lines: one_line(shown),
                    effect: Effect::Write {
                        path: joined(self.filename.as_str(), ".index"),
                        contents: built,
                        announce: false,
                    },
                }
            },
            CommandKind::PhextSoundex => {
                let built = soundex(self.document.as_str());
                let shown = text_map(built.as_str());
                Response {
                    lines: one_line(shown),
                    effect: Effect::Write {
                        path: joined(self.filename.as_str(), ".soundex"),
                        contents: built,
                        announce: false,
                    },
                }
            },
            CommandKind::PhextHash => {
                let built = manifest(self.document.as_str());
                let path = joined(self.filename.as_str(), ".checksum");
                let sum = checksum(built.as_str());
                let report = followed_by(
                    followed_by(followed_by(joined("Checksum: ", sum.as_str()), " ("), path.as_str()),
                    ").",
                );
                assert(report@ =~= "Checksum: "@ + sum@ + " ("@ + self.filename@ + ".checksum"@
                    + ")."@);
                Response {
                    lines: one_line(report),
                    effect: Effect::Write { path, contents: built, announce: false },
                }
            },
            CommandKind::LoadPhext => {
                if has_arg {
                    self.filename = arg.to_owned();
                    Response { lines: no_lines(), effect: Effect::Load { path: arg.to_owned() } }
                } else {
                    Response { lines: one_line("Expected 1 argument".to_owned()), effect: Effect::Nothing }
                }
            },
            CommandKind::OverwriteScroll => {
                let document = replace(self.document.as_str(), self.coordinate, arg);
                self.set_document(document);
                Response { lines: one_line(self.scroll.clone()), effect: Effect::Nothing }
            },
            CommandKind::ResetPhext => {
                self.set_document(String::new());
                Response { lines: one_line(self.scroll.clone()), effect: Effect::Nothing }
            },
            CommandKind::ResetScroll => {
                let document = replace(self.document.as_str(), self.coordinate, "");
                proof {
                    reveal_strlit("");
                    assert(""@ =~= Seq::<char>::empty());
                }
                self.set_document(document);
                Response { lines: one_line(self.scroll.clone()), effect: Effect::Nothing }
            },
            CommandKind::SavePhext => {
                if has_arg {
                    Response {
                        lines: no_lines(),
                        effect: Effect::Write {
                            path: arg.to_owned(),
                            contents: self.document.clone(),
                            announce: true,
                        },
                    }
                } else {
                    Response { lines: one_line("Expected 1 argument".to_owned()), effect: Effect::Nothing }
                }
            },
            CommandKind::Help => Response {
                lines: no_lines(),
                effect: Effect::ShowHelp { topic: select_help(arg) },
            },
            CommandKind::External => Response {
                lines: one_line(followed_by(joined("Executing '", line), "'...")),
                effect: Effect::Spawn { program: word.to_owned(), args: split_words(arg) },
            },
        }
    }
}

} // verus!
