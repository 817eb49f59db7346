//! The command line of the worker, which follows the path of its script, and
//! the reading of what a finished worker left behind.

use crate::fallback::Action;
use crate::text::texts;
use vstd::prelude::*;
use vstd::string::*;
use vstd::utf8::*;

verus! {

/// The commands that may run the worker, in the order in which they are
/// tried.
pub open spec fn candidate_commands() -> Seq<Seq<char>> {
    seq!["python"@, "python3"@, "py"@]
}

/// The commands that may run the worker, in the order in which they are
/// tried.
pub fn python_commands() -> (commands: Vec<String>)
    ensures
        texts(commands@) == candidate_commands(),
{
    let mut commands: Vec<String> = Vec::new();
    commands.push(String::from_str("python"));
    commands.push(String::from_str("python3"));
    commands.push(String::from_str("py"));
    assert(texts(commands@) =~= candidate_commands());
    commands
}

/// The arguments that ask the worker for the entries of the playlist at
/// `url`.
pub open spec fn playlist_command(url: Seq<char>, thumbnails: bool) -> Seq<Seq<char>> {
    if thumbnails {
        seq![Action::PlaylistInfo.verb(), url, "--enable-thumbnails"@]
    } else {
        seq![Action::PlaylistInfo.verb(), url]
    }
}

/// The arguments that ask the worker for the title of the media at `url`.
pub open spec fn title_command(url: Seq<char>) -> Seq<Seq<char>> {
    seq![Action::Title.verb(), url]
}

/// The arguments that ask the worker to download the media at `url` into
/// `destination`.
pub open spec fn download_command(
    url: Seq<char>,
    quality: Seq<char>,
    format: Seq<char>,
    destination: Seq<char>,
) -> Seq<Seq<char>> {
    seq![Action::Download.verb(), url, quality, format, destination]
}

/// The arguments that ask the worker for the entries of the playlist at
/// `url`, with thumbnails if `thumbnails` is set.
pub fn playlist_args(url: &String, thumbnails: bool) -> (args: Vec<String>)
    ensures
        texts(args@) == playlist_command(url@, thumbnails),
{
    let mut args: Vec<String> = Vec::new();
    args.push(Action::PlaylistInfo.word());
    args.push(url.clone());
    if thumbnails {
        args.push(String::from_str("--enable-thumbnails"));
    }
    assert(texts(args@) =~= playlist_command(url@, thumbnails));
    args
}

/// The arguments that ask the worker for the title of the media at `url`.
pub fn title_args(url: &String) -> (args: Vec<String>)
    ensures
        texts(args@) == title_command(url@),
{
    let mut args: Vec<String> = Vec::new();
    args.push(Action::Title.word());
    args.push(url.clone());
    assert(texts(args@) =~= title_command(url@));
    args
}

/// The arguments that ask the worker to download the media at `url`, in the
/// given quality and format, into `destination`.
pub fn download_args(url: &String, quality: &String, format: &String, destination: &String) -> (args:
    Vec<String>)
    ensures
        texts(args@) == download_command(url@, quality@, format@, destination@),
{
    let mut args: Vec<String> = Vec::new();
    args.push(Action::Download.word());
    args.push(url.clone());
    args.push(quality.clone());
    args.push(format.clone());
    args.push(destination.clone());
    assert(texts(args@) =~= download_command(url@, quality@, format@, destination@));
    args
}

/// What a worker that ran to its end left behind.
#[derive(Clone, Debug)]
pub struct Completed {
    /// Whether it exited with success.
    pub success: bool,
    /// The bytes it wrote to its standard output.
    pub stdout: Vec<u8>,
    /// What it wrote to its standard error, as text.
    pub diagnostic: String,
}

/// Why a worker that started gave no result.
#[derive(Clone, Debug)]
pub enum WorkerError {
    /// The worker exited without success; `diagnostic` is what it wrote to
    /// its standard error.
    Failed { command: String, diagnostic: String },
    /// The worker's output is not text.
    Unreadable { cause: String },
    /// The worker's output is text, but not of the expected form.
    Malformed { cause: String },
}

/// Why a worker that started gave no result, as plain values.
pub enum WorkerErrorView {
    Failed { command: Seq<char>, diagnostic: Seq<char> },
    Unreadable { cause: Seq<char> },
    Malformed { cause: Seq<char> },
}

impl View for WorkerError {
    type V = WorkerErrorView;

    open spec fn view(&self) -> WorkerErrorView {
        match self {
            WorkerError::Failed { command, diagnostic } => WorkerErrorView::Failed {
                command: command@,
                diagnostic: diagnostic@,
            },
            WorkerError::Unreadable { cause } => WorkerErrorView::Unreadable { cause: cause@ },
            WorkerError::Malformed { cause } => WorkerErrorView::Malformed { cause: cause@ },
        }
    }
}

/// The text of an error of the given action.
pub open spec fn worker_error_text(action: Action, error: WorkerErrorView) -> Seq<char> {
    match error {
        WorkerErrorView::Failed { command, diagnostic } => (match action {
            Action::Title => "Python script (get-title) failed with "@,
            _ => "Python script failed with "@,
        }) + command + ": "@ + diagnostic,
        WorkerErrorView::Unreadable { cause } => (match action {
            Action::Title => "Failed to read stdout from get-title script: "@,
            _ => "Failed to read stdout from python script: "@,
        }) + cause,
        WorkerErrorView::Malformed { cause } => "Failed to parse playlist JSON: "@ + cause,
    }
}

impl WorkerError {
    /// The text of the error, for the caller of the action.
    pub fn message(&self, action: Action) -> (text: String)
        ensures
            text@ == worker_error_text(action, self@),
    {
        match self {
            WorkerError::Failed { command, diagnostic } => {
                let head = match action {
                    Action::Title => "Python script (get-title) failed with ",
                    _ => "Python script failed with ",
                };
                String::from_str(head).concat(command.as_str()).concat(": ").concat(
                    diagnostic.as_str(),
                )
            },
            WorkerError::Unreadable { cause } => {
                let head = match action {
                    Action::Title => "Failed to read stdout from get-title script: ",
                    _ => "Failed to read stdout from python script: ",
                };
                String::from_str(head).concat(cause.as_str())
            },
            WorkerError::Malformed { cause } => String::from_str(
                "Failed to parse playlist JSON: ",
            ).concat(cause.as_str()),
        }
    }
}

/// Reads bytes as UTF-8 text, through `String::from_utf8`. The bytes are
/// accepted exactly where they are valid UTF-8, and the text is then what
/// they encode. Of the error only its presence is claimed; its text is the
/// one that the standard library gives.
#[verifier::external_body]
fn decode_text(bytes: Vec<u8>) -> (decoded: Result<String, String>)
    ensures
        decoded is Ok <==> valid_utf8(bytes@),
        decoded matches Ok(text) ==> text@ == decode_utf8(bytes@),
{
    match String::from_utf8(bytes) {
        Ok(text) => Ok(text),
        Err(error) => Err(error.to_string()),
    }
}

/// Whether a character is white space: the code points to which Unicode
/// gives the property White_Space.
pub open spec fn is_white_space(c: char) -> bool {
    let code = c as u32;
    ||| 0x9 <= code <= 0xD
    ||| code == 0x20
    ||| code == 0x85
    ||| code == 0xA0
    ||| code == 0x1680
    ||| 0x2000 <= code <= 0x200A
    ||| code == 0x2028
    ||| code == 0x2029
    ||| code == 0x202F
    ||| code == 0x205F
    ||| code == 0x3000
}

/// Whether a character is white space.
pub fn white_space(c: char) -> (yes: bool)
    ensures
        yes == is_white_space(c),
{
    let code = c as u32;
    (0x9 <= code && code <= 0xD) || code == 0x20 || code == 0x85 || code == 0xA0 || code == 0x1680
        || (0x2000 <= code && code <= 0x200A) || code == 0x2028 || code == 0x2029 || code
        == 0x202F || code == 0x205F || code == 0x3000
}

/// Whether `short` is the part of `text` from `from` to `to`, with nothing
/// but white space before and after it, and no white space at its own
/// beginning and end.
pub open spec fn trims_at(text: Seq<char>, short: Seq<char>, from: int, to: int) -> bool {
    &&& 0 <= from <= to <= text.len()
    &&& short == text.subrange(from, to)
    &&& forall|i: int| 0 <= i < from ==> is_white_space(#[trigger] text[i])
    &&& forall|i: int| to <= i < text.len() ==> is_white_space(#[trigger] text[i])
    &&& from < to ==> !is_white_space(text[from]) && !is_white_space(text[to - 1])
}

/// Whether `short` is `text` without the white space at its beginning and at
/// its end.
pub open spec fn is_trim_of(text: Seq<char>, short: Seq<char>) -> bool {
    exists|from: int, to: int| #[trigger] trims_at(text, short, from, to)
}

/// The first position at or after `at` that holds no white space, or the
/// length of the text where there is none.
pub open spec fn solid_from(text: Seq<char>, at: int) -> int
    decreases text.len() - at,
{
    if 0 <= at < text.len() && is_white_space(text[at]) {
        solid_from(text, at + 1)
    } else {
        at
    }
}

/// The position behind the last character before `at` that is no white
/// space, or zero where there is none.
pub open spec fn solid_until(text: Seq<char>, at: int) -> int
    decreases at,
{
    if 0 < at <= text.len() && is_white_space(text[at - 1]) {
        solid_until(text, at - 1)
    } else {
        at
    }
}

/// A text without the white space at its beginning and at its end.
pub open spec fn trimmed(text: Seq<char>) -> Seq<char> {
    let from = solid_from(text, 0);
    let to = solid_until(text, text.len() as int);
    if from < to {
        text.subrange(from, to)
    } else {
        Seq::empty()
    }
}

proof fn lemma_solid_from(text: Seq<char>, at: int)
    requires
        0 <= at <= text.len(),
    ensures
        at <= solid_from(text, at) <= text.len(),
        forall|i: int| at <= i < solid_from(text, at) ==> is_white_space(#[trigger] text[i]),
        solid_from(text, at) < text.len() ==> !is_white_space(text[solid_from(text, at)]),
    decreases text.len() - at,
{
    if at < text.len() && is_white_space(text[at]) {
        lemma_solid_from(text, at + 1);
    }
}

proof fn lemma_solid_until(text: Seq<char>, at: int)
    requires
        0 <= at <= text.len(),
    ensures
        0 <= solid_until(text, at) <= at,
        forall|i: int| solid_until(text, at) <= i < at ==> is_white_space(#[trigger] text[i]),
        solid_until(text, at) > 0 ==> !is_white_space(text[solid_until(text, at) - 1]),
    decreases at,
{
    if 0 < at && is_white_space(text[at - 1]) {
        lemma_solid_until(text, at - 1);
    }
}

/// Only one text is a given text without the white space around it.
pub proof fn law_trim_is_unique(text: Seq<char>, short: Seq<char>)
    requires
        is_trim_of(text, short),
    ensures
        short == trimmed(text),
{
    let (from, to) = choose|from: int, to: int| #[trigger] trims_at(text, short, from, to);
    let first = solid_from(text, 0);
    let end = solid_until(text, text.len() as int);
    lemma_solid_from(text, 0);
    lemma_solid_until(text, text.len() as int);
    if from < to {
        if first < from {
            assert(is_white_space(text[first]));
        }
        if first > from {
            assert(is_white_space(text[from]));
        }
        if end < to {
            assert(is_white_space(text[to - 1]));
        }
        if end > to {
            assert(is_white_space(text[end - 1]));
        }
    } else {
        if first < text.len() {
            assert(is_white_space(text[first]));
        }
        if end > 0 {
            assert(is_white_space(text[end - 1]));
        }
        assert(text.subrange(from, to) =~= Seq::<char>::empty());
    }
}

/// Every text has its trimmed form.
pub proof fn law_trimmed_is_trim(text: Seq<char>)
    ensures
        is_trim_of(text, trimmed(text)),
{
    let first = solid_from(text, 0);
    let end = solid_until(text, text.len() as int);
    lemma_solid_from(text, 0);
    lemma_solid_until(text, text.len() as int);
    if first < end {
        assert(trims_at(text, trimmed(text), first, end));
    } else {
        assert forall|i: int| 0 <= i < text.len() implies is_white_space(#[trigger] text[i]) by {
            if i >= first {
                assert(first < text.len());
                assert(end <= first);
            }
        }
        assert(text.subrange(0, 0) =~= Seq::<char>::empty());
        assert(trims_at(text, trimmed(text), 0, 0));
    }
}

/// A text without the white space at its beginning and at its end, through
/// `str::trim`: the result is a part of the text, everything before and
/// after it is white space, and it neither begins nor ends with white space.
#[verifier::external_body]
fn trim_text(text: &str) -> (short: String)
    ensures
        is_trim_of(text@, short@),
{
    text.trim().to_string()
}

/// A reading as plain values.
pub open spec fn reading(read: Result<String, WorkerError>) -> Result<Seq<char>, WorkerErrorView> {
    match read {
        Ok(text) => Ok(text@),
        Err(error) => Err(error@),
    }
}

/// What reading bytes as text gave, as plain values.
pub open spec fn decoding(decoded: Result<String, String>) -> Result<Seq<char>, Seq<char>> {
    match decoded {
        Ok(text) => Ok(text@),
        Err(cause) => Err(cause@),
    }
}

/// What the output of a finished worker says, given what reading its bytes
/// as text gave.
pub open spec fn output_of(
    command: Seq<char>,
    success: bool,
    diagnostic: Seq<char>,
    decoded: Result<Seq<char>, Seq<char>>,
) -> Result<Seq<char>, WorkerErrorView> {
    if !success {
        Err(WorkerErrorView::Failed { command, diagnostic })
    } else {
        match decoded {
            Ok(text) => Ok(text),
            Err(cause) => Err(WorkerErrorView::Unreadable { cause }),
        }
    }
}

/// What the output of a finished worker says, given what reading its bytes
/// as text gave. A worker that exited without success has failed, whatever
/// it wrote; it is not a reason to try another command.
pub fn judge_output(
    command: &String,
    success: bool,
    diagnostic: String,
    decoded: Result<String, String>,
) -> (read: Result<String, WorkerError>)
    ensures
        reading(read) == output_of(command@, success, diagnostic@, decoding(decoded)),
{
    if !success {
        return Err(WorkerError::Failed { command: command.clone(), diagnostic });
    }
    match decoded {
        Ok(text) => Ok(text),
        Err(cause) => Err(WorkerError::Unreadable { cause }),
    }
}

/// The text that the worker run by `command` wrote to its standard output.
/// It is there exactly where the worker exited with success and its output
/// is valid UTF-8; a worker that exited without success has failed with what
/// it wrote to its standard error.
pub fn read_output(command: &String, done: Completed) -> (read: Result<String, WorkerError>)
    ensures
        read is Ok <==> done.success && valid_utf8(done.stdout@),
        read matches Ok(text) ==> text@ == decode_utf8(done.stdout@),
        read matches Err(error) ==> (if done.success {
            error@ is Unreadable
        } else {
            error@ == (WorkerErrorView::Failed { command: command@, diagnostic: done.diagnostic@ })
        }),
{
    let Completed { success, stdout, diagnostic } = done;
    let decoded = decode_text(stdout);
    judge_output(command, success, diagnostic, decoded)
}

/// The title that the worker run by `command` wrote to its standard output:
/// its output as text, without the white space around it. It is there
/// exactly where the worker exited with success and its output is valid
/// UTF-8.
pub fn read_title(command: &String, done: Completed) -> (read: Result<String, WorkerError>)
    ensures
        read is Ok <==> done.success && valid_utf8(done.stdout@),
        read matches Ok(title) ==> title@ == trimmed(decode_utf8(done.stdout@)),
        read matches Err(error) ==> (if done.success {
            error@ is Unreadable
        } else {
            error@ == (WorkerErrorView::Failed { command: command@, diagnostic: done.diagnostic@ })
        }),
{
    match read_output(command, done) {
        Ok(text) => {
            let title = trim_text(text.as_str());
            proof {
                law_trim_is_unique(text@, title@);
            }
            Ok(title)
        },
        Err(error) => Err(error),
    }
}

/// Why the worker's script could not be found or put in place. A `String`
/// inside is the cause as the system gave it, or the path looked at.
#[derive(Clone, Debug)]
pub enum ScriptError {
    NoProjectRoot,
    NoCacheDir,
    CreateDirFailed(String),
    CreateFailed(String),
    WriteFailed(String),
    Missing(String),
    PathNotText,
}

/// Why the worker's script could not be found or put in place, as plain
/// values.
pub enum ScriptErrorView {
    NoProjectRoot,
    NoCacheDir,
    CreateDirFailed(Seq<char>),
    CreateFailed(Seq<char>),
    WriteFailed(Seq<char>),
    Missing(Seq<char>),
    PathNotText,
}

impl View for ScriptError {
    type V = ScriptErrorView;

    open spec fn view(&self) -> ScriptErrorView {
        match self {
            ScriptError::NoProjectRoot => ScriptErrorView::NoProjectRoot,
            ScriptError::NoCacheDir => ScriptErrorView::NoCacheDir,
            ScriptError::CreateDirFailed(cause) => ScriptErrorView::CreateDirFailed(cause@),
            ScriptError::CreateFailed(cause) => ScriptErrorView::CreateFailed(cause@),
            ScriptError::WriteFailed(cause) => ScriptErrorView::WriteFailed(cause@),
            ScriptError::Missing(path) => ScriptErrorView::Missing(path@),
            ScriptError::PathNotText => ScriptErrorView::PathNotText,
        }
    }
}

/// The text of an error.
pub open spec fn script_error_text(error: ScriptErrorView) -> Seq<char> {
    match error {
        ScriptErrorView::NoProjectRoot => "Failed to get project root from manifest dir"@,
        ScriptErrorView::NoCacheDir => "Failed to get app cache directory"@,
        ScriptErrorView::CreateDirFailed(cause) => "Failed to create temp directory: "@ + cause,
        ScriptErrorView::CreateFailed(cause) => "Failed to create temp Python script: "@ + cause,
        ScriptErrorView::WriteFailed(cause) => "Failed to write Python script: "@ + cause,
        ScriptErrorView::Missing(path) => "Python script not found at expected path: "@ + path,
        ScriptErrorView::PathNotText => "Invalid path characters"@,
    }
}

impl ScriptError {
    /// The text of the error, for the caller.
    pub fn message(&self) -> (text: String)
        ensures
            text@ == script_error_text(self@),
    {
        match self {
            ScriptError::NoProjectRoot => String::from_str(
                "Failed to get project root from manifest dir",
            ),
            ScriptError::NoCacheDir => String::from_str("Failed to get app cache directory"),
            ScriptError::CreateDirFailed(cause) => String::from_str(
                "Failed to create temp directory: ",
            ).concat(cause.as_str()),
            ScriptError::CreateFailed(cause) => String::from_str(
                "Failed to create temp Python script: ",
            ).concat(cause.as_str()),
            ScriptError::WriteFailed(cause) => String::from_str(
                "Failed to write Python script: ",
            ).concat(cause.as_str()),
            ScriptError::Missing(path) => String::from_str(
                "Python script not found at expected path: ",
            ).concat(path.as_str()),
            ScriptError::PathNotText => String::from_str("Invalid path characters"),
        }
    }
}

} // verus!
