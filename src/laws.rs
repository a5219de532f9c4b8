//! Properties of the session that span several events.
use vstd::prelude::*;
use crate::pipeline::{converter_invocation, converter_outcome, downloader_invocation, downloader_outcome, with_extension_of};
use crate::session::{save_dialog_model, step, ActionModel, MessageModel, SessionModel};

verus! {

/// The session after each of `ms` has been applied in order, from `s`.
pub open spec fn run(s: SessionModel, ms: Seq<MessageModel>) -> SessionModel
    decreases ms.len(),
{
    if ms.len() == 0 {
        s
    } else {
        step(run(s, ms.drop_last()), ms.last()).0
    }
}

/// `m` edits one of the two text fields.
pub open spec fn is_field_edit(m: MessageModel) -> bool {
    m is InputUrl || m is InputSavePath
}

/// After a sequence of field edits, the URL field holds the text of the last
/// URL edit.
pub proof fn lemma_last_url_edit_wins(s: SessionModel, ms: Seq<MessageModel>, i: int)
    requires
        forall|j: int| 0 <= j < ms.len() ==> is_field_edit(#[trigger] ms[j]),
        0 <= i < ms.len(),
        ms[i] is InputUrl,
        forall|j: int| i < j < ms.len() ==> !(#[trigger] ms[j] is InputUrl),
    ensures
        run(s, ms).url == ms[i]->InputUrl_0,
    decreases ms.len(),
{
    if i < ms.len() - 1 {
        let front = ms.drop_last();
        assert(ms.last() == ms[ms.len() - 1]);
        assert forall|j: int| i < j < front.len() implies !(#[trigger] front[j] is InputUrl) by {
            assert(front[j] == ms[j]);
        }
        lemma_last_url_edit_wins(s, front, i);
    }
}

/// After a sequence of field edits, the save-path field holds the text of
/// the last save-path edit.
pub proof fn lemma_last_save_path_edit_wins(s: SessionModel, ms: Seq<MessageModel>, i: int)
    requires
        forall|j: int| 0 <= j < ms.len() ==> is_field_edit(#[trigger] ms[j]),
        0 <= i < ms.len(),
        ms[i] is InputSavePath,
        forall|j: int| i < j < ms.len() ==> !(#[trigger] ms[j] is InputSavePath),
    ensures
        run(s, ms).save_path == ms[i]->InputSavePath_0,
    decreases ms.len(),
{
    if i < ms.len() - 1 {
        let front = ms.drop_last();
        assert(ms.last() == ms[ms.len() - 1]);
        assert forall|j: int| i < j < front.len() implies !(#[trigger] front[j] is InputSavePath) by {
            assert(front[j] == ms[j]);
        }
        lemma_last_save_path_edit_wins(s, front, i);
    }
}

/// Field edits change nothing but the fields they edit: a field that no
/// edit of the sequence touches keeps its text, whether a download is
/// under way stays as it was, and no edit calls for any action.
pub proof fn lemma_field_edits_touch_only_their_field(s: SessionModel, ms: Seq<MessageModel>)
    requires
        forall|j: int| 0 <= j < ms.len() ==> is_field_edit(#[trigger] ms[j]),
    ensures
        (forall|j: int| 0 <= j < ms.len() ==> !(#[trigger] ms[j] is InputUrl)) ==> run(s, ms).url
            == s.url,
        (forall|j: int| 0 <= j < ms.len() ==> !(#[trigger] ms[j] is InputSavePath)) ==> run(
            s,
            ms,
        ).save_path == s.save_path,
        run(s, ms).downloading == s.downloading,
        run(s, ms).logs == s.logs,
        forall|t: SessionModel, j: int|
            0 <= j < ms.len() ==> (#[trigger] step(t, ms[j])).1 == ActionModel::Nothing,
    decreases ms.len(),
{
    if ms.len() > 0 {
        let front = ms.drop_last();
        assert(ms.last() == ms[ms.len() - 1]);
        assert forall|j: int| 0 <= j < front.len() implies is_field_edit(#[trigger] front[j]) by {
            assert(front[j] == ms[j]);
        }
        if forall|j: int| 0 <= j < ms.len() ==> !(#[trigger] ms[j] is InputUrl) {
            assert forall|j: int| 0 <= j < front.len() implies !(#[trigger] front[j] is InputUrl) by {
                assert(front[j] == ms[j]);
            }
        }
        if forall|j: int| 0 <= j < ms.len() ==> !(#[trigger] ms[j] is InputSavePath) {
            assert forall|j: int| 0 <= j < front.len() implies !(
            #[trigger] front[j] is InputSavePath) by {
                assert(front[j] == ms[j]);
            }
        }
        lemma_field_edits_touch_only_their_field(s, front);
    }
}

/// Asking for the save dialog changes nothing and calls for the dialog
/// titled "Save youtube video" that suggests `video.mp4` and shows MP4 files; a
/// cancelled dialog leaves the session as it was, and a confirmed one sets
/// the save path to the chosen path and nothing else.
pub proof fn lemma_file_picker(s: SessionModel, chosen: Seq<char>)
    ensures
        step(s, MessageModel::SaveFileDialog) == (
        s, ActionModel::PickSavePath { dialog: save_dialog_model() }),
        step(s, MessageModel::SaveFilePicked(None)) == (s, ActionModel::Nothing),
        step(s, MessageModel::SaveFilePicked(Some(chosen))) == (
        SessionModel { save_path: chosen, ..s }, ActionModel::Nothing),
{
}

/// Starting a download marks it under way in the same transition that asks
/// for the downloader, before any outside result exists.
pub proof fn lemma_start_marks_downloading(s: SessionModel)
    ensures
        step(s, MessageModel::DownloadStart).0 == (SessionModel { downloading: true, ..s }),
        step(s, MessageModel::DownloadStart).1 == (ActionModel::RunDownloader {
            save_path: s.save_path,
            command: downloader_invocation(s.url, s.save_path),
        }),
{
}

/// When the downloader fails, the download ends and the converter is never
/// asked for.
pub proof fn lemma_downloader_failure_ends_download(s: SessionModel)
    ensures
        ({
            let started = step(s, MessageModel::DownloadStart).0;
            let done = step(started, downloader_outcome(s.save_path, false));
            &&& !done.0.downloading
            &&& done.1 == ActionModel::Nothing
        }),
{
}

/// When the downloader succeeds and the converter fails, the download still
/// ends, with nothing more asked for.
pub proof fn lemma_converter_failure_still_ends_download(s: SessionModel)
    ensures
        ({
            let started = step(s, MessageModel::DownloadStart).0;
            let converting = step(started, downloader_outcome(s.save_path, true)).0;
            let done = step(converting, converter_outcome(false));
            &&& !done.0.downloading
            &&& done.1 == ActionModel::Nothing
        }),
{
}

/// When both stages succeed, the converter is asked to write beside the
/// downloaded file, under its path with the extension `mov`, and the
/// download ends.
pub proof fn lemma_pipeline_success(s: SessionModel)
    ensures
        ({
            let started = step(s, MessageModel::DownloadStart).0;
            let converting = step(started, downloader_outcome(s.save_path, true));
            let done = step(converting.0, converter_outcome(true));
            &&& converting.0.downloading
            &&& converting.1 == (ActionModel::RunConverter {
                command: converter_invocation(
                    s.save_path,
                    with_extension_of(s.save_path, "mov"@),
                ),
            })
            &&& !done.0.downloading
            &&& done.1 == ActionModel::Nothing
        }),
{
}

} // verus!
