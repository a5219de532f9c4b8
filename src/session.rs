//! The session state and its one transition: an event comes in, the state
//! changes, and an action comes out for the caller to carry out.
use vstd::prelude::*;
use crate::pipeline::{
    convert_command, converted_path, converter_invocation, download_command,
    downloader_invocation, with_extension_of, Invocation, InvocationModel,
};

verus! {

/// An event of the session: user input, or the end of a piece of outside work.
#[derive(Debug)]
pub enum Message {
    /// The URL field now reads this text.
    InputUrl(String),
    /// The save-path field now reads this text.
    InputSavePath(String),
    /// The user asked for the save dialog.
    SaveFileDialog,
    /// The save dialog closed: the chosen path, or `None` when cancelled.
    SaveFilePicked(Option<String>),
    /// The user asked for the download.
    DownloadStart,
    /// The downloader finished: the path it wrote, or `Err` when it failed.
    DownloadFirstPartDoneStartingSecond(Result<String, ()>),
    /// The converter finished.
    DownloadEnd(Result<(), ()>),
}

impl Clone for Message {
    fn clone(&self) -> Self {
        match self {
            Message::InputUrl(t) => Message::InputUrl(t.clone()),
            Message::InputSavePath(t) => Message::InputSavePath(t.clone()),
            Message::SaveFileDialog => Message::SaveFileDialog,
            Message::SaveFilePicked(p) => Message::SaveFilePicked(
                match p {
                    Some(t) => Some(t.clone()),
                    None => None,
                },
            ),
            Message::DownloadStart => Message::DownloadStart,
            Message::DownloadFirstPartDoneStartingSecond(res) => {
                Message::DownloadFirstPartDoneStartingSecond(
                    match res {
                        Ok(t) => Ok(t.clone()),
                        Err(()) => Err(()),
                    },
                )
            },
            Message::DownloadEnd(res) => Message::DownloadEnd(
                match res {
                    Ok(()) => Ok(()),
                    Err(()) => Err(()),
                },
            ),
        }
    }
}

/// What a [`Message`] stands for, with text as character sequences.
pub enum MessageModel {
    InputUrl(Seq<char>),
    InputSavePath(Seq<char>),
    SaveFileDialog,
    SaveFilePicked(Option<Seq<char>>),
    DownloadStart,
    DownloadFirstPartDoneStartingSecond(Result<Seq<char>, ()>),
    DownloadEnd(Result<(), ()>),
}

impl View for Message {
    type V = MessageModel;

    open spec fn view(&self) -> MessageModel {
        match self {
            Message::InputUrl(t) => MessageModel::InputUrl(t@),
            Message::InputSavePath(t) => MessageModel::InputSavePath(t@),
            Message::SaveFileDialog => MessageModel::SaveFileDialog,
            Message::SaveFilePicked(p) => MessageModel::SaveFilePicked(
                match p {
                    Some(t) => Some(t@),
                    None => None,
                },
            ),
            Message::DownloadStart => MessageModel::DownloadStart,
            Message::DownloadFirstPartDoneStartingSecond(res) => {
                MessageModel::DownloadFirstPartDoneStartingSecond(
                    match res {
                        Ok(t) => Ok(t@),
                        Err(()) => Err(()),
                    },
                )
            },
            Message::DownloadEnd(res) => MessageModel::DownloadEnd(*res),
        }
    }
}

/// The system save dialog to show: its title, the file name it suggests,
/// and one filter, named `filter_name`, on the extensions `extensions`.
pub struct SaveDialog {
    pub title: String,
    pub file_name: String,
    pub filter_name: String,
    pub extensions: Vec<String>,
}

/// What a [`SaveDialog`] stands for.
pub struct SaveDialogModel {
    pub title: Seq<char>,
    pub file_name: Seq<char>,
    pub filter_name: Seq<char>,
    pub extensions: Seq<Seq<char>>,
}

impl View for SaveDialog {
    type V = SaveDialogModel;

    open spec fn view(&self) -> SaveDialogModel {
        SaveDialogModel {
            title: self.title@,
            file_name: self.file_name@,
            filter_name: self.filter_name@,
            extensions: self.extensions@.map_values(|e: String| e@),
        }
    }
}

/// The dialog for choosing where the video is saved: it suggests
/// `video.mp4` and shows MP4 files only.
pub open spec fn save_dialog_model() -> SaveDialogModel {
    SaveDialogModel {
        title: "Save youtube video"@,
        file_name: "video.mp4"@,
        filter_name: "Video"@,
        extensions: seq!["mp4"@],
    }
}

/// Builds the dialog for choosing where the video is saved.
pub fn save_dialog() -> (r: SaveDialog)
    ensures
        r@ == save_dialog_model(),
{
    let mut extensions: Vec<String> = Vec::new();
    extensions.push("mp4".to_owned());
    let r = SaveDialog {
        title: "Save youtube video".to_owned(),
        file_name: "video.mp4".to_owned(),
        filter_name: "Video".to_owned(),
        extensions,
    };
    assert(r@.extensions =~= save_dialog_model().extensions);
    r
}

/// What the caller is to do after a transition.
pub enum Action {
    /// Nothing.
    Nothing,
    /// Open the save dialog and hand its outcome back as
    /// [`Message::SaveFilePicked`].
    PickSavePath { dialog: SaveDialog },
    /// Run `command` in the background; hand back
    /// [`crate::pipeline::downloader_finished`] of `save_path` and its exit status.
    RunDownloader { save_path: String, command: Invocation },
    /// Run `command` in the background; hand back
    /// [`crate::pipeline::converter_finished`] of its exit status.
    RunConverter { command: Invocation },
}

/// What an [`Action`] stands for.
pub enum ActionModel {
    Nothing,
    PickSavePath { dialog: SaveDialogModel },
    RunDownloader { save_path: Seq<char>, command: InvocationModel },
    RunConverter { command: InvocationModel },
}

impl View for Action {
    type V = ActionModel;

    open spec fn view(&self) -> ActionModel {
        match self {
            Action::Nothing => ActionModel::Nothing,
            Action::PickSavePath { dialog } => ActionModel::PickSavePath { dialog: dialog@ },
            Action::RunDownloader { save_path, command } => ActionModel::RunDownloader {
                save_path: save_path@,
                command: command@,
            },
            Action::RunConverter { command } => ActionModel::RunConverter { command: command@ },
        }
    }
}

/// The state of one session: the two text fields, whether a download is
/// under way, and a log buffer that nothing writes yet.
pub struct YtDownloader {
    url: String,
    save_path: String,
    downloading: bool,
    logs: String,
}

/// What a [`YtDownloader`] stands for.
pub struct SessionModel {
    pub url: Seq<char>,
    pub save_path: Seq<char>,
    pub downloading: bool,
    pub logs: Seq<char>,
}

impl View for YtDownloader {
    type V = SessionModel;

    closed spec fn view(&self) -> SessionModel {
        SessionModel {
            url: self.url@,
            save_path: self.save_path@,
            downloading: self.downloading,
            logs: self.logs@,
        }
    }
}

/// The session a program starts with: everything empty, nothing under way.
pub open spec fn initial_session() -> SessionModel {
    SessionModel { url: Seq::empty(), save_path: Seq::empty(), downloading: false, logs: Seq::empty() }
}

/// One transition: the state after `m`, and the action it calls for.
pub open spec fn step(s: SessionModel, m: MessageModel) -> (SessionModel, ActionModel) {
    match m {
        MessageModel::InputUrl(t) => (SessionModel { url: t, ..s }, ActionModel::Nothing),
        MessageModel::InputSavePath(t) => (SessionModel { save_path: t, ..s }, ActionModel::Nothing),
        MessageModel::SaveFileDialog => (
            s,
            ActionModel::PickSavePath { dialog: save_dialog_model() },
        ),
        MessageModel::SaveFilePicked(p) => (
            match p {
                Some(t) => SessionModel { save_path: t, ..s },
                None => s,
            },
            ActionModel::Nothing,
        ),
        MessageModel::DownloadStart => (
            SessionModel { downloading: true, ..s },
            ActionModel::RunDownloader {
                save_path: s.save_path,
                command: downloader_invocation(s.url, s.save_path),
            },
        ),
        MessageModel::DownloadFirstPartDoneStartingSecond(Err(())) => (
            SessionModel { downloading: false, ..s },
            ActionModel::Nothing,
        ),
        MessageModel::DownloadFirstPartDoneStartingSecond(Ok(p)) => (
            s,
            ActionModel::RunConverter {
                command: converter_invocation(p, with_extension_of(p, "mov"@)),
            },
        ),
        MessageModel::DownloadEnd(_) => (SessionModel { downloading: false, ..s }, ActionModel::Nothing),
    }
}

/// The diagnostic line reported when `m` is handled, if any.
pub open spec fn diagnostic_of(m: MessageModel) -> Option<Seq<char>> {
    match m {
        MessageModel::DownloadStart => Some("running yt-dlp..."@),
        MessageModel::DownloadFirstPartDoneStartingSecond(Err(())) => Some("yt-dlp returned error"@),
        MessageModel::DownloadFirstPartDoneStartingSecond(Ok(_)) => Some("running ffmpeg..."@),
        MessageModel::DownloadEnd(Err(())) => Some("ffmpeg returned error"@),
        MessageModel::DownloadEnd(Ok(())) => Some("download & conversion successful!"@),
        _ => None,
    }
}

/// The diagnostic line to report when `message` is handled, if any.
pub fn diagnostic(message: &Message) -> (r: Option<&'static str>)
    ensures
        (match r {
            Some(t) => diagnostic_of(message@) == Some(t@),
            None => diagnostic_of(message@) is None,
        }),
{
    match message {
        Message::DownloadStart => Some("running yt-dlp..."),
        Message::DownloadFirstPartDoneStartingSecond(Err(())) => Some("yt-dlp returned error"),
        Message::DownloadFirstPartDoneStartingSecond(Ok(_)) => Some("running ffmpeg..."),
        Message::DownloadEnd(Err(())) => Some("ffmpeg returned error"),
        Message::DownloadEnd(Ok(())) => Some("download & conversion successful!"),
        _ => None,
    }
}

impl YtDownloader {
    /// A fresh session, and nothing to do yet.
    pub fn new() -> (r: (YtDownloader, Action))
        ensures
            r.0@ == initial_session(),
            r.1@ == ActionModel::Nothing,
    {
        (
            YtDownloader {
                url: String::new(),
                save_path: String::new(),
                downloading: false,
                logs: String::new(),
            },
            Action::Nothing,
        )
    }

    /// Applies `message` to the session and returns the action it calls for.
    pub fn update(&mut self, message: Message) -> (r: Action)
        ensures
            (final(self)@, r@) == step(old(self)@, message@),
    {
        match message {
            Message::InputUrl(new) => {
                self.url = new;
                Action::Nothing
            },
            Message::InputSavePath(new) => {
                self.save_path = new;
                Action::Nothing
            },
            Message::SaveFileDialog => Action::PickSavePath { dialog: save_dialog() },
            Message::SaveFilePicked(picked) => {
                if let Some(path) = picked {
                    self.save_path = path;
                }
                Action::Nothing
            },
            Message::DownloadStart => {
                self.downloading = true;
                let command = download_command(&self.url, &self.save_path);
                Action::RunDownloader { save_path: self.save_path.clone(), command }
            },
            Message::DownloadFirstPartDoneStartingSecond(res) => match res {
                Err(()) => {
                    self.downloading = false;
                    Action::Nothing
                },
                Ok(save_path) => {
                    let output = converted_path(&save_path);
                    Action::RunConverter { command: convert_command(&save_path, &output) }
                },
            },
            Message::DownloadEnd(_) => {
                self.downloading = false;
                Action::Nothing
            },
        }
    }

    /// Whether the download action is offered: exactly when no download is
    /// under way.
    pub fn download_enabled(&self) -> (r: bool)
        ensures
            r == !self@.downloading,
    {
        !self.downloading
    }

    /// The event that pressing the download button sends: the start of a
    /// download when one may start, none while one is under way.
    pub fn download_press(&self) -> (r: Option<Message>)
        ensures
            r is Some <==> !self@.downloading,
            r is Some ==> r->0@ == MessageModel::DownloadStart,
    {
        if self.downloading {
            None
        } else {
            Some(Message::DownloadStart)
        }
    }

    /// The text of the URL field.
    pub fn url(&self) -> (r: &String)
        ensures
            r@ == self@.url,
    {
        &self.url
    }

    /// The text of the save-path field.
    pub fn save_path(&self) -> (r: &String)
        ensures
            r@ == self@.save_path,
    {
        &self.save_path
    }

    /// Whether a download is under way.
    pub fn downloading(&self) -> (r: bool)
        ensures
            r == self@.downloading,
    {
        self.downloading
    }

    /// The log buffer.
    pub fn logs(&self) -> (r: &String)
        ensures
            r@ == self@.logs,
    {
        &self.logs
    }
}

} // verus!
