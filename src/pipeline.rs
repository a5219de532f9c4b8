//! The two external programs of the pipeline: what each is asked to do, and
//! how its exit status becomes the next event of the session.
use vstd::prelude::*;
use crate::session::{Message, MessageModel};

verus! {

/// A program to start and the arguments to hand it, in order.
pub struct Invocation {
    pub program: String,
    pub args: Vec<String>,
}

/// What an [`Invocation`] stands for: the program's name and its arguments.
pub struct InvocationModel {
    pub program: Seq<char>,
    pub args: Seq<Seq<char>>,
}

impl View for Invocation {
    type V = InvocationModel;

    open spec fn view(&self) -> InvocationModel {
        InvocationModel { program: self.program@, args: self.args@.map_values(|a: String| a@) }
    }
}

/// The downloader fetches `url` and writes it, merged into an MP4
/// container, at `save_path`.
pub open spec fn downloader_invocation(url: Seq<char>, save_path: Seq<char>) -> InvocationModel {
    InvocationModel {
        program: "yt-dlp"@,
        args: seq!["--merge-output-format"@, "mp4"@, "-o"@, save_path, url],
    }
}

/// The converter reads `input` and writes it at `output` in the MOV format.
pub open spec fn converter_invocation(input: Seq<char>, output: Seq<char>) -> InvocationModel {
    InvocationModel { program: "ffmpeg"@, args: seq!["-i"@, input, "-f"@, "mov"@, output] }
}

/// The first stage: run the downloader on `url`, writing to `save_path`.
pub fn download_command(url: &String, save_path: &String) -> (r: Invocation)
    ensures
        r@ == downloader_invocation(url@, save_path@),
{
    let mut args: Vec<String> = Vec::new();
    args.push("--merge-output-format".to_owned());
    args.push("mp4".to_owned());
    args.push("-o".to_owned());
    args.push(save_path.clone());
    args.push(url.clone());
    let r = Invocation { program: "yt-dlp".to_owned(), args };
    assert(r@.args =~= downloader_invocation(url@, save_path@).args);
    r
}

/// The second stage: run the converter from `input` to `output`.
pub fn convert_command(input: &String, output: &String) -> (r: Invocation)
    ensures
        r@ == converter_invocation(input@, output@),
{
    let mut args: Vec<String> = Vec::new();
    args.push("-i".to_owned());
    args.push(input.clone());
    args.push("-f".to_owned());
    args.push("mov".to_owned());
    args.push(output.clone());
    let r = Invocation { program: "ffmpeg".to_owned(), args };
    assert(r@.args =~= converter_invocation(input@, output@).args);
    r
}

/// What std's `Path::with_extension` makes of `path` and `extension`.
pub uninterp spec fn with_extension_of(path: Seq<char>, extension: Seq<char>) -> Seq<char>;

/// No character of `s` separates path components.
pub open spec fn no_separator(s: Seq<char>) -> bool {
    forall|i: int| 0 <= i < s.len() ==> s[i] != '/' && s[i] != '\\'
}

/// `s` is non-empty and holds no separator and no drive or stream mark.
pub open spec fn plain_part(s: Seq<char>) -> bool {
    &&& s.len() > 0
    &&& no_separator(s)
    &&& forall|i: int| 0 <= i < s.len() ==> s[i] != ':'
}

/// `path` is the directory part `dir` (empty, or ending in `/`) followed by
/// the file name `stem.extension`, where `stem` is not `.` and `extension`
/// holds no dot; the path
/// holds no backslash or colon and does not start with two slashes, so no
/// platform reads a prefix into it.
pub open spec fn splits_at_extension(
    path: Seq<char>,
    dir: Seq<char>,
    stem: Seq<char>,
    extension: Seq<char>,
) -> bool {
    &&& path == dir + stem + seq!['.'] + extension
    &&& dir.len() == 0 || dir.last() == '/'
    &&& forall|i: int| 0 <= i < dir.len() ==> dir[i] != '\\' && dir[i] != ':'
    &&& !(dir.len() >= 2 && dir[0] == '/' && dir[1] == '/')
    &&& plain_part(stem)
    &&& stem != seq!['.']
    &&& plain_part(extension)
    &&& forall|i: int| 0 <= i < extension.len() ==> extension[i] != '.'
}

/// Relies on std's `Path::with_extension`: the path with the extension of
/// its file name replaced by `extension`. std panics on an extension that
/// holds a path separator.
#[verifier::external_body]
fn with_extension(path: &str, extension: &str) -> (r: String)
    requires
        no_separator(extension@),
    ensures
        r@ == with_extension_of(path@, extension@),
        forall|dir: Seq<char>, stem: Seq<char>, old_ext: Seq<char>|
            #[trigger] splits_at_extension(path@, dir, stem, old_ext) && extension@.len() > 0
                ==> r@ == dir + stem + seq!['.'] + extension@,
{
    std::path::Path::new(path).with_extension(extension).to_string_lossy().into_owned()
}

/// Where the second stage writes: the downloaded file's path with its
/// extension replaced by `mov`.
pub fn converted_path(input: &String) -> (r: String)
    ensures
        r@ == with_extension_of(input@, "mov"@),
        forall|dir: Seq<char>, stem: Seq<char>, old_ext: Seq<char>|
            #[trigger] splits_at_extension(input@, dir, stem, old_ext)
                ==> r@ == dir + stem + "."@ + "mov"@,
{
    proof {
        reveal_strlit("mov");
        reveal_strlit(".");
    }
    with_extension(input.as_str(), "mov")
}

/// The event that ends the first stage: the path written when the
/// downloader exited with status zero, a failure otherwise.
pub open spec fn downloader_outcome(save_path: Seq<char>, exited_zero: bool) -> MessageModel {
    if exited_zero {
        MessageModel::DownloadFirstPartDoneStartingSecond(Ok(save_path))
    } else {
        MessageModel::DownloadFirstPartDoneStartingSecond(Err(()))
    }
}

/// The event that ends the second stage. The converter's exit status does
/// not change it: the pipeline reports completion either way.
pub open spec fn converter_outcome(exited_zero: bool) -> MessageModel {
    MessageModel::DownloadEnd(Ok(()))
}

/// Turns the downloader's exit status into the session's next event.
/// `exited_zero` is false also when the program could not be started.
pub fn downloader_finished(save_path: String, exited_zero: bool) -> (r: Message)
    ensures
        r@ == downloader_outcome(save_path@, exited_zero),
{
    if exited_zero {
        Message::DownloadFirstPartDoneStartingSecond(Ok(save_path))
    } else {
        Message::DownloadFirstPartDoneStartingSecond(Err(()))
    }
}

/// Turns the converter's exit status into the session's next event.
pub fn converter_finished(exited_zero: bool) -> (r: Message)
    ensures
        r@ == converter_outcome(exited_zero),
{
    Message::DownloadEnd(Ok(()))
}

/// The line to report when the converter did not exit with status zero.
pub fn converter_note(exited_zero: bool) -> (r: Option<&'static str>)
    ensures
        exited_zero ==> r is None,
        !exited_zero ==> (r matches Some(t) && t@ == "ffmpeg return error"@),
{
    if exited_zero {
        None
    } else {
        Some("ffmpeg return error")
    }
}

} // verus!
