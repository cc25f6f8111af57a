//! The control-connection dispatch decisions: which command a client
//! message names. The connection itself — the socket, the message framing,
//! the JSON field extraction — is the embedder's; the extracted message
//! kind and button action come here to be resolved.

use vstd::prelude::*;

verus! {

/// The kind of a client message, named by its `msg` field.
#[derive(Debug, Clone, Copy, PartialEq, Eq, Structural)]
pub enum MessageKind {
    /// `yt`: queue the track behind the attached link.
    TrackRequest,
    /// `btn`: a transport button was pressed; the `action` field says which.
    Button,
    /// `volume`: set the playback volume to the attached value.
    Volume,
    /// Anything else: logged and ignored.
    Unknown,
}

/// A transport button.
#[derive(Debug, Clone, Copy, PartialEq, Eq, Structural)]
pub enum ButtonAction {
    Pause,
    Resume,
    Skip,
}

/// Resolve a message's `msg` field to the message kind: `yt`, `btn` and
/// `volume` each name their command; every other value is unknown.
pub fn classify_message(msg: &String) -> (r: MessageKind)
    ensures
        msg@ == "yt"@ ==> r == MessageKind::TrackRequest,
        msg@ == "btn"@ ==> r == MessageKind::Button,
        msg@ == "volume"@ ==> r == MessageKind::Volume,
        (msg@ != "yt"@ && msg@ != "btn"@ && msg@ != "volume"@) ==> r == MessageKind::Unknown,
{
    proof {
        reveal_strlit("yt");
        reveal_strlit("btn");
        reveal_strlit("volume");
        assert("yt"@.len() == 2);
        assert("btn"@.len() == 3);
        assert("volume"@.len() == 6);
    }
    let yt_tag: String = "yt".to_owned();
    let btn_tag: String = "btn".to_owned();
    let volume_tag: String = "volume".to_owned();
    if msg.eq(&yt_tag) {
        MessageKind::TrackRequest
    } else if msg.eq(&btn_tag) {
        MessageKind::Button
    } else if msg.eq(&volume_tag) {
        MessageKind::Volume
    } else {
        MessageKind::Unknown
    }
}

/// Resolve a button message's `action` field: `pause`, `resume` and `skip`
/// each name their button; every other value is none — logged and ignored.
pub fn classify_button(action: &String) -> (r: Option<ButtonAction>)
    ensures
        action@ == "pause"@ ==> r == Some(ButtonAction::Pause),
        action@ == "resume"@ ==> r == Some(ButtonAction::Resume),
        action@ == "skip"@ ==> r == Some(ButtonAction::Skip),
        (action@ != "pause"@ && action@ != "resume"@ && action@ != "skip"@) ==> r is None,
{
    proof {
        reveal_strlit("pause");
        reveal_strlit("resume");
        reveal_strlit("skip");
        assert("pause"@.len() == 5);
        assert("resume"@.len() == 6);
        assert("skip"@.len() == 4);
    }
    let pause_tag: String = "pause".to_owned();
    let resume_tag: String = "resume".to_owned();
    let skip_tag: String = "skip".to_owned();
    if action.eq(&pause_tag) {
        Some(ButtonAction::Pause)
    } else if action.eq(&resume_tag) {
        Some(ButtonAction::Resume)
    } else if action.eq(&skip_tag) {
        Some(ButtonAction::Skip)
    } else {
        None
    }
}

} // verus!
