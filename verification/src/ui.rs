//! What the browser page decides: how transcripts and errors are shown, which action the
//! status tile offers, when the listening loop runs and restarts, what a page change pauses,
//! which navigation arrows show, how the model buttons behave, the activation meter, and the
//! labels and request URLs the page builds.

use vstd::prelude::*;
use crate::chars::{chars_of, trim, trim_chars, has_prefix, contains_seq, contains_chars, chars_eq, matches_at, string_from_chars};
use crate::state::{AssistantStatus, ServerView, with_voice_threshold, MIN_VOICE_THRESHOLD, MAX_VOICE_THRESHOLD};
use crate::json::{push_str, push_chars, decimal, decimal_chars};
use crate::query::{sanitize_extension, sanitize_extension_spec};
use crate::escape::{url_encode_component, url_encode_bytes};
use vstd::utf8::encode_utf8;

verus! {

/// What the page shows for a transcript that holds nothing.
pub open spec fn no_speech_text() -> Seq<char> {
    "[no speech detected]"@
}

/// Whether a transcript shown on the page is worth copying: something is left after trimming,
/// and it is neither the no-speech notice nor an upload progress note.
pub open spec fn copyable_transcript(text: Seq<char>) -> bool {
    let t = trim(text);
    &&& t.len() > 0
    &&& t != no_speech_text()
    &&& !has_prefix(t, "Uploading "@)
}

/// Whether the copy button is offered for `text`.
pub fn is_copyable_transcript(text: &str) -> (r: bool)
    ensures
        r == copyable_transcript(text@),
{
    let all = chars_of(text);
    let t = trim_chars(all.as_slice());
    if t.len() == 0 {
        return false;
    }
    let none = chars_of("[no speech detected]");
    if chars_eq(t.as_slice(), none.as_slice()) {
        return false;
    }
    let note = chars_of("Uploading ");
    let starts = matches_at(t.as_slice(), 0, note.as_slice());
    assert(t@.subrange(0, note@.len() as int) == t@.take(note@.len() as int));
    !starts
}

/// The transcript the page shows for a reply: the trimmed text, or the no-speech notice.
pub open spec fn shown_transcript(text: Seq<char>) -> Seq<char> {
    let t = trim(text);
    if t.len() == 0 {
        no_speech_text()
    } else {
        t
    }
}

/// The transcript the page shows for the text a listen or upload request answered with.
pub fn transcript_display(text: &str) -> (r: String)
    ensures
        r@ == shown_transcript(text@),
{
    let all = chars_of(text);
    let t = trim_chars(all.as_slice());
    if t.len() == 0 {
        String::from_str("[no speech detected]")
    } else {
        string_from_chars(t.as_slice())
    }
}

/// A request failed because the server could not be reached at all.
pub open spec fn fetch_failed(error: Seq<char>) -> bool {
    contains_seq(error, "Failed to fetch"@)
}

/// Whether a request error means the server could not be reached.
pub fn is_fetch_error(error: &str) -> (r: bool)
    ensures
        r == fetch_failed(error@),
{
    let e = chars_of(error);
    let p = chars_of("Failed to fetch");
    contains_chars(e.as_slice(), p.as_slice())
}

/// How the page shows a request error.
pub open spec fn shown_error(error: Seq<char>) -> Seq<char> {
    if fetch_failed(error) {
        "Server stopped"@
    } else {
        "Error: "@ + error
    }
}

/// The message shown for a failed request.
pub fn display_error(error: &str) -> (r: String)
    ensures
        r@ == shown_error(error@),
{
    if is_fetch_error(error) {
        String::from_str("Server stopped")
    } else {
        let mut out: Vec<char> = Vec::new();
        push_str(&mut out, "Error: ");
        push_str(&mut out, error);
        string_from_chars(out.as_slice())
    }
}

/// The action button on the status tiles.
#[derive(Clone, Copy, Debug, PartialEq, Eq, Structural)]
pub enum TileAction {
    Start,
    Stop,
}

impl TileAction {
    /// The button's text, which is also its style class.
    pub fn as_str(self) -> (r: &'static str)
        ensures
            r@ == (match self {
                TileAction::Start => "start"@,
                TileAction::Stop => "stop"@,
            }),
    {
        match self {
            TileAction::Start => "start",
            TileAction::Stop => "stop",
        }
    }
}

/// Which request a press of the tile button sends.
#[derive(Clone, Copy, Debug, PartialEq, Eq, Structural)]
pub enum HearingRequest {
    Pause,
    Resume,
}

/// The page's own flags: the status last shown, whether it listens, and what it is busy with.
#[derive(Clone, Copy, Debug, PartialEq, Eq, Structural)]
pub struct UiFlags {
    pub status: AssistantStatus,
    pub paused: bool,
    pub active: bool,
    pub uploading_file: bool,
    pub downloading_model: bool,
    pub in_flight: bool,
    pub can_listen: bool,
    pub pause_in_flight: bool,
    pub tts_synthesizing: bool,
    pub tts_downloading_model: bool,
    pub current_page: usize,
}

/// The flags when the page loads: listening wanted but not yet possible, on the first page.
pub open spec fn initial_flags() -> UiFlags {
    UiFlags {
        status: AssistantStatus::Idle,
        paused: false,
        active: true,
        uploading_file: false,
        downloading_model: false,
        in_flight: false,
        can_listen: false,
        pause_in_flight: false,
        tts_synthesizing: false,
        tts_downloading_model: false,
        current_page: 0,
    }
}

impl UiFlags {
    /// The flags when the page loads.
    pub fn new() -> (r: UiFlags)
        ensures
            r == initial_flags(),
    {
        UiFlags {
            status: AssistantStatus::Idle,
            paused: false,
            active: true,
            uploading_file: false,
            downloading_model: false,
            in_flight: false,
            can_listen: false,
            pause_in_flight: false,
            tts_synthesizing: false,
            tts_downloading_model: false,
            current_page: 0,
        }
    }
}

/// The tile button: none while a file uploads or a model downloads; `start` while hearing is
/// paused or off; `stop` while waiting for or hearing speech; none otherwise.
pub open spec fn tile_action_spec(f: UiFlags) -> Option<TileAction> {
    if f.uploading_file || f.downloading_model {
        None
    } else if f.paused || !f.active {
        Some(TileAction::Start)
    } else if f.status == AssistantStatus::Waiting || f.status == AssistantStatus::Speaking {
        Some(TileAction::Stop)
    } else {
        None
    }
}

/// Which action the tile button offers.
pub fn tile_action_label(f: &UiFlags) -> (r: Option<TileAction>)
    ensures
        r == tile_action_spec(*f),
{
    if f.uploading_file || f.downloading_model {
        None
    } else if f.paused || !f.active {
        Some(TileAction::Start)
    } else {
        match f.status {
            AssistantStatus::Waiting | AssistantStatus::Speaking => Some(TileAction::Stop),
            _ => None,
        }
    }
}

/// The flags once a pause request is sent.
pub open spec fn paused_flags(f: UiFlags) -> UiFlags {
    UiFlags { paused: true, active: false, pause_in_flight: true, ..f }
}

/// The flags once a resume request is sent.
pub open spec fn resumed_flags(f: UiFlags) -> UiFlags {
    UiFlags { paused: false, active: true, pause_in_flight: true, ..f }
}

/// Marks hearing paused and a pause request under way.
pub fn pause_hearing(f: &mut UiFlags)
    ensures
        *final(f) == paused_flags(*old(f)),
{
    f.paused = true;
    f.active = false;
    f.pause_in_flight = true;
}

/// Marks hearing resumed and a resume request under way.
pub fn resume_hearing(f: &mut UiFlags)
    ensures
        *final(f) == resumed_flags(*old(f)),
{
    f.paused = false;
    f.active = true;
    f.pause_in_flight = true;
}

/// What a press of the tile button does: nothing while the button is hidden or a request
/// is under way; otherwise resume when paused or off, pause when listening.
pub open spec fn toggle_spec(f: UiFlags) -> (Option<HearingRequest>, UiFlags) {
    if tile_action_spec(f) is None || f.pause_in_flight {
        (None, f)
    } else if f.paused || !f.active {
        (Some(HearingRequest::Resume), resumed_flags(f))
    } else {
        (Some(HearingRequest::Pause), paused_flags(f))
    }
}

/// A press of the tile button: the request to send, if any, with the flags updated.
pub fn toggle_hearing(f: &mut UiFlags) -> (r: Option<HearingRequest>)
    ensures
        (r, *final(f)) == toggle_spec(*old(f)),
{
    if tile_action_label(f).is_none() {
        return None;
    }
    if f.pause_in_flight {
        return None;
    }
    if f.paused || !f.active {
        resume_hearing(f);
        Some(HearingRequest::Resume)
    } else {
        pause_hearing(f);
        Some(HearingRequest::Pause)
    }
}

/// The pause or resume request has been answered (or failed).
pub fn hearing_request_done(f: &mut UiFlags)
    ensures
        *final(f) == (UiFlags { pause_in_flight: false, ..*old(f) }),
{
    f.pause_in_flight = false;
}

/// Stopping hearing from the tile button, then starting it again once each request is
/// answered, leaves the page's flags as they were.
pub proof fn tile_stop_then_start_restores_flags(f: UiFlags)
    requires
        tile_action_spec(f) == Some(TileAction::Stop),
        !f.pause_in_flight,
    ensures
        ({
            let (first, f1) = toggle_spec(f);
            let f2 = UiFlags { pause_in_flight: false, ..f1 };
            let (second, f3) = toggle_spec(f2);
            let f4 = UiFlags { pause_in_flight: false, ..f3 };
            &&& first == Some(HearingRequest::Pause)
            &&& tile_action_spec(f2) == Some(TileAction::Start)
            &&& second == Some(HearingRequest::Resume)
            &&& f4 == f
        }),
{
}

/// Starts the listening loop unless it already runs or listening is not possible; says
/// whether it started.
pub fn begin_listen_loop(f: &mut UiFlags) -> (r: bool)
    ensures
        r == (!old(f).in_flight && old(f).can_listen),
        *final(f) == (if r { UiFlags { in_flight: true, ..*old(f) } } else { *old(f) }),
{
    if f.in_flight || !f.can_listen {
        return false;
    }
    f.in_flight = true;
    true
}

/// Whether the listening loop sends another listen request.
pub fn listen_loop_continues(f: &UiFlags) -> (r: bool)
    ensures
        r == (f.active && f.can_listen),
{
    f.active && f.can_listen
}

/// What the listening loop does after a failed listen request.
#[derive(Debug)]
pub enum ListenFailure {
    /// Another listener holds the microphone: wait and ask again.
    Retry,
    /// Stop listening, showing this message if there is one.
    Stop(Option<String>),
}

/// The page's reaction to a failed listen request: a conflict is retried; any other error
/// stops listening and is shown unless the server is gone.
pub fn listen_failed(f: &mut UiFlags, error: &str) -> (r: ListenFailure)
    ensures
        error@ == "HTTP 409"@ ==> r is Retry && *final(f) == *old(f),
        error@ != "HTTP 409"@ ==> *final(f) == (UiFlags { active: false, ..*old(f) }) && (
        match r {
            ListenFailure::Retry => false,
            ListenFailure::Stop(m) => if fetch_failed(error@) {
                m is None
            } else {
                m matches Some(t) && t@ == shown_error(error@)
            },
        }),
{
    let e = chars_of(error);
    let conflict = chars_of("HTTP 409");
    if chars_eq(e.as_slice(), conflict.as_slice()) {
        return ListenFailure::Retry;
    }
    f.active = false;
    if is_fetch_error(error) {
        ListenFailure::Stop(None)
    } else {
        ListenFailure::Stop(Some(display_error(error)))
    }
}

/// Whether the loop starts again once it has stopped.
pub open spec fn listen_restarts(f: UiFlags) -> bool {
    f.active && f.can_listen && !f.paused && !f.uploading_file && !f.downloading_model
}

/// The listening loop has stopped: the page shows the idle status, and the loop is started
/// again if listening is still wanted and possible.
pub fn end_listen_loop(f: &mut UiFlags) -> (r: bool)
    ensures
        *final(f) == (UiFlags { in_flight: false, status: AssistantStatus::Idle, ..*old(f) }),
        r == listen_restarts(*final(f)),
{
    f.in_flight = false;
    f.status = AssistantStatus::Idle;
    f.active && f.can_listen && !f.paused && !f.uploading_file && !f.downloading_model
}

/// The last page.
pub const LAST_PAGE: usize = 2;

/// Moving to `page` (at most the last): leaving the first page while hearing is on and
/// waiting for or hearing speech pauses it.
pub open spec fn navigate_spec(f: UiFlags, page: usize) -> (bool, UiFlags) {
    let target = if page < LAST_PAGE { page } else { LAST_PAGE };
    if f.current_page == target {
        (false, f)
    } else {
        let pause = f.current_page == 0 && target > 0 && !f.paused && f.active && (f.status
            == AssistantStatus::Waiting || f.status == AssistantStatus::Speaking);
        let g = if pause { paused_flags(f) } else { f };
        (pause, UiFlags { current_page: target, ..g })
    }
}

/// Moves the page view; says whether hearing was paused on the way (the pause request is
/// then to be sent).
pub fn navigate_to_page(f: &mut UiFlags, page: usize) -> (r: bool)
    ensures
        (r, *final(f)) == navigate_spec(*old(f), page),
        final(f).current_page <= LAST_PAGE || final(f).current_page == old(f).current_page,
{
    let target = if page < LAST_PAGE { page } else { LAST_PAGE };
    if f.current_page == target {
        return false;
    }
    let pause = f.current_page == 0 && target > 0 && !f.paused && f.active && (match f.status {
        AssistantStatus::Waiting | AssistantStatus::Speaking => true,
        _ => false,
    });
    if pause {
        pause_hearing(f);
    }
    f.current_page = target;
    pause
}

/// Which navigation arrows are hidden: the left one on the first page; the right one on the
/// last page, on the first while speech or transcription, an upload or a model download is
/// under way, and on the second while speech is synthesized or a voice downloads.
pub open spec fn nav_hidden_spec(f: UiFlags) -> (bool, bool) {
    let stt_busy = f.status == AssistantStatus::Speaking || f.status
        == AssistantStatus::Transcribing || f.uploading_file || f.downloading_model;
    let tts_busy = f.tts_synthesizing || f.tts_downloading_model;
    (
        f.current_page == 0,
        f.current_page == LAST_PAGE || (f.current_page == 0 && stt_busy) || (f.current_page == 1
            && tts_busy),
    )
}

/// Whether the left and right navigation arrows are hidden.
pub fn nav_hidden(f: &UiFlags) -> (r: (bool, bool))
    ensures
        r == nav_hidden_spec(*f),
{
    let stt_busy = match f.status {
        AssistantStatus::Speaking | AssistantStatus::Transcribing => true,
        _ => false,
    } || f.uploading_file || f.downloading_model;
    let tts_busy = f.tts_synthesizing || f.tts_downloading_model;
    (
        f.current_page == 0,
        f.current_page == LAST_PAGE || (f.current_page == 0 && stt_busy) || (f.current_page == 1
            && tts_busy),
    )
}

/// Whether the upload button takes a click: not while a file uploads or a speech model
/// downloads (the page disables it then).
pub fn upload_enabled(f: &UiFlags) -> (r: bool)
    ensures
        r == (!f.uploading_file && !f.downloading_model),
{
    !f.uploading_file && !f.downloading_model
}

/// Starts a file upload unless one is under way; says whether it started.
pub fn begin_file_upload(f: &mut UiFlags) -> (r: bool)
    ensures
        r == !old(f).uploading_file,
        *final(f) == (if r {
            UiFlags { uploading_file: true, active: false, ..*old(f) }
        } else {
            *old(f)
        }),
{
    if f.uploading_file {
        return false;
    }
    f.uploading_file = true;
    f.active = false;
    true
}

/// An upload has been answered: hearing is on again.
pub fn finish_file_upload(f: &mut UiFlags)
    ensures
        *final(f) == (UiFlags { uploading_file: false, active: true, paused: false, ..*old(f) }),
{
    f.uploading_file = false;
    f.active = true;
    f.paused = false;
}


/// One entry of a model list as the page receives it.
#[derive(Debug)]
pub struct ModelChoice {
    pub model: String,
    pub available: bool,
    pub downloading: bool,
}

/// A model entry as plain values.
pub struct ModelChoiceView {
    pub model: Seq<char>,
    pub available: bool,
    pub downloading: bool,
}

impl ModelChoice {
    pub open spec fn view(&self) -> ModelChoiceView {
        ModelChoiceView { model: self.model@, available: self.available, downloading: self.downloading }
    }
}

/// The model entries as plain values.
pub open spec fn choices_view(ms: Seq<ModelChoice>) -> Seq<ModelChoiceView> {
    ms.map_values(|m: ModelChoice| m.view())
}

/// Some entry is downloading.
pub open spec fn any_downloading_spec(ms: Seq<ModelChoiceView>) -> bool {
    exists|i: int| 0 <= i < ms.len() && #[trigger] ms[i].downloading
}

/// Whether the first entry for `current` is available (false when there is none).
pub open spec fn current_available_spec(ms: Seq<ModelChoiceView>, current: Seq<char>) -> bool
    decreases ms.len(),
{
    if ms.len() == 0 {
        false
    } else if ms[0].model == current {
        ms[0].available
    } else {
        current_available_spec(ms.drop_first(), current)
    }
}

/// Whether any model in the list is downloading.
pub fn any_downloading(models: &Vec<ModelChoice>) -> (r: bool)
    ensures
        r == any_downloading_spec(choices_view(models@)),
{
    let mut i: usize = 0;
    while i < models.len()
        invariant
            i <= models@.len(),
            forall|j: int| 0 <= j < i ==> !(#[trigger] models@[j]).downloading,
        decreases models@.len() - i,
    {
        if models[i].downloading {
            assert(choices_view(models@)[i as int].downloading);
            return true;
        }
        i = i + 1;
    }
    assert forall|j: int| 0 <= j < choices_view(models@).len() implies !(#[trigger] choices_view(
        models@,
    )[j]).downloading by {
        assert(!models@[j].downloading);
    }
    false
}

/// Whether the current model is in the list and available.
pub fn current_model_available(models: &Vec<ModelChoice>, current: &str) -> (r: bool)
    ensures
        r == current_available_spec(choices_view(models@), current@),
{
    let cur = chars_of(current);
    let mut i: usize = 0;
    assert(choices_view(models@).skip(0) =~= choices_view(models@));
    while i < models.len()
        invariant
            i <= models@.len(),
            cur@ == current@,
            current_available_spec(choices_view(models@), current@) == current_available_spec(
                choices_view(models@).skip(i as int),
                current@,
            ),
        decreases models@.len() - i,
    {
        let ghost rest = choices_view(models@).skip(i as int);
        assert(rest[0] == models@[i as int].view());
        assert(rest.drop_first() =~= choices_view(models@).skip(i + 1));
        let name = chars_of(models[i].model.as_str());
        if chars_eq(name.as_slice(), cur.as_slice()) {
            return models[i].available;
        }
        i = i + 1;
    }
    assert(choices_view(models@).skip(i as int) =~= Seq::<ModelChoiceView>::empty());
    false
}

/// What a new model list does to the flags: downloading and listening possibility follow the
/// list; a download stops hearing and shows the idle status; and listening starts when it is
/// possible and nothing else holds it back.
pub open spec fn models_received_spec(f: UiFlags, any: bool, current_available: bool) -> (
    bool,
    UiFlags,
) {
    let g = UiFlags { downloading_model: any, can_listen: current_available && !any, ..f };
    let h = if any {
        UiFlags { active: false, status: AssistantStatus::Idle, ..g }
    } else {
        g
    };
    let start = h.can_listen && !h.in_flight && !h.paused && !h.uploading_file;
    (start, if start { UiFlags { active: true, ..h } } else { h })
}

/// Takes in a new speech-model list; says whether the listening loop is to be started.
pub fn models_received(f: &mut UiFlags, models: &Vec<ModelChoice>, current: &str) -> (r: bool)
    ensures
        (r, *final(f)) == models_received_spec(
            *old(f),
            any_downloading_spec(choices_view(models@)),
            current_available_spec(choices_view(models@), current@),
        ),
{
    let any = any_downloading(models);
    let available = current_model_available(models, current);
    f.downloading_model = any;
    f.can_listen = available && !any;
    if any {
        f.active = false;
        f.status = AssistantStatus::Idle;
    }
    let start = f.can_listen && !f.in_flight && !f.paused && !f.uploading_file;
    if start {
        f.active = true;
    }
    start
}

/// Takes in a new voice list: the page notes whether a voice downloads.
pub fn tts_models_received(f: &mut UiFlags, models: &Vec<ModelChoice>) -> (r: bool)
    ensures
        r == any_downloading_spec(choices_view(models@)),
        *final(f) == (UiFlags { tts_downloading_model: r, ..*old(f) }),
{
    let any = any_downloading(models);
    f.tts_downloading_model = any;
    any
}

/// How a model button looks.
#[derive(Clone, Copy, Debug, PartialEq, Eq, Structural)]
pub struct ButtonLook {
    pub unavailable: bool,
    pub downloading: bool,
    pub locked: bool,
    pub active: bool,
}

/// A model button's look: unavailable when neither there nor downloading; locked while
/// another entry downloads or the page is busy (`busy`: an upload for speech models; a
/// synthesis or the engine's installation for voices); active for the current entry.
pub open spec fn button_look_spec(available: bool, downloading: bool, any: bool, busy: bool, current: bool) -> ButtonLook {
    ButtonLook {
        unavailable: !available && !downloading,
        downloading: downloading,
        locked: (any && !downloading) || busy,
        active: current,
    }
}

/// The look of one model button.
pub fn button_look(choice: &ModelChoice, any: bool, busy: bool, current: &str) -> (r: ButtonLook)
    ensures
        r == button_look_spec(choice.available, choice.downloading, any, busy, choice.model@ == current@),
{
    let name = chars_of(choice.model.as_str());
    let cur = chars_of(current);
    ButtonLook {
        unavailable: !choice.available && !choice.downloading,
        downloading: choice.downloading,
        locked: (any && !choice.downloading) || busy,
        active: chars_eq(name.as_slice(), cur.as_slice()),
    }
}

/// What a click on a model button does.
#[derive(Clone, Copy, Debug, PartialEq, Eq, Structural)]
pub enum ModelClick {
    Ignore,
    Select,
    Download,
}

/// A click does nothing while some entry downloads or the page is busy; it selects an
/// available entry and asks to download a missing one.
pub open spec fn model_click_spec(available: bool, downloading: bool, any: bool, busy: bool) -> ModelClick {
    if any || downloading || busy {
        ModelClick::Ignore
    } else if available {
        ModelClick::Select
    } else {
        ModelClick::Download
    }
}

/// What clicking a model button does.
pub fn model_click(choice: &ModelChoice, any: bool, busy: bool) -> (r: ModelClick)
    ensures
        r == model_click_spec(choice.available, choice.downloading, any, busy),
{
    if any || choice.downloading || busy {
        ModelClick::Ignore
    } else if choice.available {
        ModelClick::Select
    } else {
        ModelClick::Download
    }
}


/// The number of blocks on the activation meter.
pub const METER_SEGMENTS: usize = 100;

/// A block number brought onto the meter (`1..=100`).
pub open spec fn meter_block_spec(b: int) -> int {
    if b < 1 {
        1
    } else if b > METER_SEGMENTS {
        METER_SEGMENTS as int
    } else {
        b
    }
}

/// The meter block a click or hover on block `block` selects.
pub fn meter_block(block: usize) -> (r: usize)
    ensures
        r == meter_block_spec(block as int),
{
    if block < 1 {
        1
    } else if block > METER_SEGMENTS {
        METER_SEGMENTS
    } else {
        block
    }
}

/// The voice threshold, in units of `1 / LEVEL_SCALE`, that a click on meter block `block`
/// sets: a thousandth of a full level per block.
pub fn block_threshold(block: usize) -> (r: u32)
    ensures
        r == meter_block_spec(block as int) * 100,
{
    let b = meter_block(block);
    (b as u32) * 100
}

/// The meter block that shows a voice threshold: a thousandth of a full level per block,
/// rounded half up, brought onto the meter.
pub open spec fn threshold_block_spec(t: int) -> int {
    meter_block_spec((t + 50) / 100)
}

/// The meter block that shows voice threshold `threshold`.
pub fn threshold_block(threshold: i64) -> (r: usize)
    ensures
        r == threshold_block_spec(threshold as int),
{
    if threshold <= 0 {
        1
    } else if threshold >= 10_000_000 {
        METER_SEGMENTS
    } else {
        let b = ((threshold + 50) / 100) as usize;
        meter_block(b)
    }
}

/// The threshold a meter click sets is shown on the block that was clicked.
pub proof fn meter_click_shows_clicked_block(block: int)
    ensures
        threshold_block_spec(meter_block_spec(block) * 100) == meter_block_spec(block),
{
    let b = meter_block_spec(block);
    assert((b * 100 + 50) / 100 == b);
}

/// The meter spans the server's threshold range: block 1 sets the lowest threshold the
/// server accepts, block 100 the highest, and the server keeps any block's threshold as it is.
pub proof fn meter_blocks_span_threshold_range(block: int)
    ensures
        MIN_VOICE_THRESHOLD <= meter_block_spec(block) * 100 <= MAX_VOICE_THRESHOLD,
        meter_block_spec(1) * 100 == MIN_VOICE_THRESHOLD,
        meter_block_spec(METER_SEGMENTS as int) * 100 == MAX_VOICE_THRESHOLD,
        forall|v: ServerView|
            #[trigger] with_voice_threshold(v, meter_block_spec(block) * 100).assistant.voice_threshold
                == meter_block_spec(block) * 100,
{
}

/// The hover text for meter block `block`.
pub fn activation_tooltip(block: usize) -> (r: String)
    ensures
        r@ == "Set activation level "@ + decimal(meter_block_spec(block as int) as nat),
{
    let mut out: Vec<char> = Vec::new();
    push_str(&mut out, "Set activation level ");
    let digits = decimal_chars(meter_block(block) as u64);
    push_chars(&mut out, digits.as_slice());
    string_from_chars(out.as_slice())
}

/// `n characters`, or `1 character`.
pub open spec fn char_count_text(n: nat) -> Seq<char> {
    if n == 1 {
        "1 character"@
    } else {
        decimal(n) + " characters"@
    }
}

/// The character count shown under the text to synthesize.
pub fn char_count_label(text: &str) -> (r: String)
    ensures
        r@ == char_count_text(text@.len()),
{
    let n = text.unicode_len();
    if n == 1 {
        String::from_str("1 character")
    } else {
        let mut out = decimal_chars(n as u64);
        push_str(&mut out, " characters");
        string_from_chars(out.as_slice())
    }
}

/// The character count shown under the voice-cloning texts (always in the plural form).
pub fn plain_char_count_label(text: &str) -> (r: String)
    ensures
        r@ == decimal(text@.len()) + " characters"@,
{
    let n = text.unicode_len();
    let mut out = decimal_chars(n as u64);
    push_str(&mut out, " characters");
    string_from_chars(out.as_slice())
}

/// The line describing the input device.
pub open spec fn device_details_spec(
    device: Seq<char>,
    channels: nat,
    bits: nat,
    sample_rate: nat,
    format: Seq<char>,
) -> Seq<char> {
    let c = if channels < 1 {
        1
    } else {
        channels
    };
    let channel_text = if c == 1 {
        "1 channel"@
    } else {
        decimal(c) + " channels"@
    };
    let rate_text = if sample_rate > 0 {
        decimal(sample_rate) + " Hz"@
    } else {
        "unknown Hz"@
    };
    device + " - "@ + channel_text + ", "@ + decimal(bits) + " bit, "@ + rate_text + " ("@
        + format + ")"@
}

/// Describes the input device: name, channels (at least one), sample size, rate, and format.
pub fn device_details_text(device: &str, channels: u32, bits: u32, sample_rate: u32, format: &str) -> (r: String)
    ensures
        r@ == device_details_spec(device@, channels as nat, bits as nat, sample_rate as nat, format@),
{
    let c: u32 = if channels < 1 {
        1
    } else {
        channels
    };
    let mut out: Vec<char> = Vec::new();
    push_str(&mut out, device);
    push_str(&mut out, " - ");
    if c == 1 {
        push_str(&mut out, "1 channel");
    } else {
        let d = decimal_chars(c as u64);
        push_chars(&mut out, d.as_slice());
        push_str(&mut out, " channels");
    }
    push_str(&mut out, ", ");
    let b = decimal_chars(bits as u64);
    push_chars(&mut out, b.as_slice());
    push_str(&mut out, " bit, ");
    if sample_rate > 0 {
        let r = decimal_chars(sample_rate as u64);
        push_chars(&mut out, r.as_slice());
        push_str(&mut out, " Hz");
    } else {
        push_str(&mut out, "unknown Hz");
    }
    push_str(&mut out, " (");
    push_str(&mut out, format);
    push_str(&mut out, ")");
    string_from_chars(out.as_slice())
}


/// What the voice page's status line does after a voice list arrives.
#[derive(Debug)]
pub enum TtsNotice {
    /// Show this message.
    Show(String),
    /// Show the progress of the voice that downloads.
    DownloadProgress,
    /// Leave the status line as it is.
    Keep,
}

/// The voice page's status line: an installation error first, then the installation under
/// way, a missing engine, and a download.
pub fn tts_notice(install_error: &Option<String>, installing: bool, available: bool, any_downloading: bool) -> (r: TtsNotice)
    ensures
        match install_error {
            Some(e) => r matches TtsNotice::Show(m) && m@ == "piper install failed: "@ + e@,
            None => if installing {
                r matches TtsNotice::Show(m) && m@
                    == "Installing piper-tts into .venv... (one-time setup, ~1-2 min)"@
            } else if !available {
                r matches TtsNotice::Show(m) && m@ == "piper-tts is not installed."@
            } else if any_downloading {
                r is DownloadProgress
            } else {
                r is Keep
            },
        },
{
    match install_error {
        Some(e) => {
            let mut out: Vec<char> = Vec::new();
            push_str(&mut out, "piper install failed: ");
            push_str(&mut out, e.as_str());
            TtsNotice::Show(string_from_chars(out.as_slice()))
        },
        None => if installing {
            TtsNotice::Show(String::from_str("Installing piper-tts into .venv... (one-time setup, ~1-2 min)"))
        } else if !available {
            TtsNotice::Show(String::from_str("piper-tts is not installed."))
        } else if any_downloading {
            TtsNotice::DownloadProgress
        } else {
            TtsNotice::Keep
        },
    }
}

/// Whether the voice page's synthesize button is disabled.
pub fn tts_combine_disabled(synthesizing: bool, any_downloading: bool, installing: bool, available: bool) -> (r: bool)
    ensures
        r == (synthesizing || any_downloading || installing || !available),
{
    synthesizing || any_downloading || installing || !available
}

/// The cloning page's status line after its status arrives: an installation error first, then
/// the installation under way, a missing engine, and, unless a synthesis runs, `Ready.`.
pub fn clone_notice(install_error: &str, installing: bool, available: bool, synthesizing: bool) -> (r: Option<String>)
    ensures
        install_error@.len() > 0 ==> (r matches Some(m) && m@ == "f5-tts install failed: "@
            + install_error@),
        install_error@.len() == 0 ==> (if installing {
            r matches Some(m) && m@
                == "Installing f5-tts and pulling deps (one-time, can take several minutes)..."@
        } else if !available {
            r matches Some(m) && m@ == "f5-tts is not installed yet."@
        } else if !synthesizing {
            r matches Some(m) && m@ == "Ready."@
        } else {
            r is None
        }),
{
    if install_error.unicode_len() > 0 {
        let mut out: Vec<char> = Vec::new();
        push_str(&mut out, "f5-tts install failed: ");
        push_str(&mut out, install_error);
        Some(string_from_chars(out.as_slice()))
    } else if installing {
        Some(String::from_str("Installing f5-tts and pulling deps (one-time, can take several minutes)..."))
    } else if !available {
        Some(String::from_str("f5-tts is not installed yet."))
    } else if !synthesizing {
        Some(String::from_str("Ready."))
    } else {
        None
    }
}

/// Whether the cloning page's synthesize button is disabled.
pub fn clone_combine_disabled(synthesizing: bool, installing: bool, available: bool) -> (r: bool)
    ensures
        r == (synthesizing || installing || !available),
{
    synthesizing || installing || !available
}

/// When the server has a saved reference and the page holds no reference file of its own:
/// whether to say so, and whether to fill the empty reference-text field with the saved text.
pub fn saved_reference_display(has_reference: bool, has_local_file: bool, field: &str, saved_text: &str) -> (r: (bool, bool))
    ensures
        r.0 == (has_reference && !has_local_file),
        r.1 == (has_reference && !has_local_file && trim(field@).len() == 0 && saved_text@.len() > 0),
{
    let shown = has_reference && !has_local_file;
    if !shown {
        return (false, false);
    }
    let f = chars_of(field);
    let t = trim_chars(f.as_slice());
    (true, t.len() == 0 && saved_text.unicode_len() > 0)
}

/// Why the voice page does not synthesize.
#[derive(Clone, Copy, Debug, PartialEq, Eq, Structural)]
pub enum TtsRefusal {
    /// A synthesis is already under way (nothing is shown).
    Busy,
    NoText,
    NoVoice,
}

impl TtsRefusal {
    /// The message shown, if any.
    pub fn message(self) -> (r: Option<&'static str>)
        ensures
            match self {
                TtsRefusal::Busy => r is None,
                TtsRefusal::NoText => r matches Some(m) && m@ == "Paste some text first."@,
                TtsRefusal::NoVoice => r matches Some(m) && m@ == "Pick a TTS voice first."@,
            },
    {
        match self {
            TtsRefusal::Busy => None,
            TtsRefusal::NoText => Some("Paste some text first."),
            TtsRefusal::NoVoice => Some("Pick a TTS voice first."),
        }
    }
}

/// Checks a synthesis request: the text to send (trimmed), or why none is sent.
pub fn tts_request(synthesizing: bool, text: &str, current_voice: &str) -> (r: Result<String, TtsRefusal>)
    ensures
        synthesizing ==> r == Err::<String, TtsRefusal>(TtsRefusal::Busy),
        !synthesizing && trim(text@).len() == 0 ==> r == Err::<String, TtsRefusal>(TtsRefusal::NoText),
        !synthesizing && trim(text@).len() > 0 && current_voice@.len() == 0 ==> r == Err::<
            String,
            TtsRefusal,
        >(TtsRefusal::NoVoice),
        !synthesizing && trim(text@).len() > 0 && current_voice@.len() > 0 ==> (r matches Ok(t)
            && t@ == trim(text@)),
{
    if synthesizing {
        return Err(TtsRefusal::Busy);
    }
    let all = chars_of(text);
    let t = trim_chars(all.as_slice());
    if t.len() == 0 {
        return Err(TtsRefusal::NoText);
    }
    if current_voice.unicode_len() == 0 {
        return Err(TtsRefusal::NoVoice);
    }
    Ok(string_from_chars(t.as_slice()))
}

/// Why the cloning page does not synthesize.
#[derive(Clone, Copy, Debug, PartialEq, Eq, Structural)]
pub enum CloneRefusal {
    /// A synthesis is already under way (nothing is shown).
    Busy,
    StillInstalling,
    NotReady,
    NoReference,
    NoReferenceText,
    NoText,
}

/// The message the cloning page shows for a refusal.
pub open spec fn clone_refusal_text(c: CloneRefusal) -> Option<Seq<char>> {
    match c {
        CloneRefusal::Busy => None,
        CloneRefusal::StillInstalling => Some("f5-tts is still installing \u{2014} please wait."@),
        CloneRefusal::NotReady => Some("f5-tts is not ready yet."@),
        CloneRefusal::NoReference => Some("Upload a reference voice first."@),
        CloneRefusal::NoReferenceText => Some("Type what is said in the reference audio."@),
        CloneRefusal::NoText => Some("Paste text to synthesize."@),
    }
}

impl CloneRefusal {
    /// The message shown, if any.
    pub fn message(self) -> (r: Option<&'static str>)
        ensures
            match r {
                Some(m) => clone_refusal_text(self) == Some(m@),
                None => clone_refusal_text(self) is None,
            },
    {
        match self {
            CloneRefusal::Busy => None,
            CloneRefusal::StillInstalling => Some("f5-tts is still installing \u{2014} please wait."),
            CloneRefusal::NotReady => Some("f5-tts is not ready yet."),
            CloneRefusal::NoReference => Some("Upload a reference voice first."),
            CloneRefusal::NoReferenceText => Some("Type what is said in the reference audio."),
            CloneRefusal::NoText => Some("Paste text to synthesize."),
        }
    }
}

/// What the cloning page checks, in order, before it uploads a reference and synthesizes.
pub open spec fn clone_check_spec(
    synthesizing: bool,
    available: bool,
    installing: bool,
    has_reference_file: bool,
    reference_text: Seq<char>,
    text: Seq<char>,
) -> Result<(Seq<char>, Seq<char>), CloneRefusal> {
    if synthesizing {
        Err(CloneRefusal::Busy)
    } else if !available {
        Err(if installing { CloneRefusal::StillInstalling } else { CloneRefusal::NotReady })
    } else if !has_reference_file {
        Err(CloneRefusal::NoReference)
    } else if trim(reference_text).len() == 0 {
        Err(CloneRefusal::NoReferenceText)
    } else if trim(text).len() == 0 {
        Err(CloneRefusal::NoText)
    } else {
        Ok((trim(reference_text), trim(text)))
    }
}

/// Checks a cloning request: the trimmed reference text and text to synthesize, or why
/// nothing is sent.
pub fn clone_request(
    synthesizing: bool,
    available: bool,
    installing: bool,
    has_reference_file: bool,
    reference_text: &str,
    text: &str,
) -> (r: Result<(String, String), CloneRefusal>)
    ensures
        match clone_check_spec(synthesizing, available, installing, has_reference_file, reference_text@, text@) {
            Ok((a, b)) => r matches Ok((x, y)) && x@ == a && y@ == b,
            Err(e) => r == Err::<(String, String), CloneRefusal>(e),
        },
{
    if synthesizing {
        return Err(CloneRefusal::Busy);
    }
    if !available {
        return Err(if installing { CloneRefusal::StillInstalling } else { CloneRefusal::NotReady });
    }
    if !has_reference_file {
        return Err(CloneRefusal::NoReference);
    }
    let rc = chars_of(reference_text);
    let rt = trim_chars(rc.as_slice());
    if rt.len() == 0 {
        return Err(CloneRefusal::NoReferenceText);
    }
    let tc = chars_of(text);
    let tt = trim_chars(tc.as_slice());
    if tt.len() == 0 {
        return Err(CloneRefusal::NoText);
    }
    Ok((string_from_chars(rt.as_slice()), string_from_chars(tt.as_slice())))
}

/// Position of the last `c` in `s`, or `-1`.
pub open spec fn last_index(s: Seq<char>, c: char) -> int
    decreases s.len(),
{
    if s.len() == 0 {
        -1
    } else if s.last() == c {
        s.len() - 1
    } else {
        last_index(s.drop_last(), c)
    }
}

/// The extension the page sends with a file: what follows the file name's last `.` (`wav`
/// when there is none), sanitized, and `wav` when nothing is left.
pub open spec fn file_extension_spec(name: Seq<char>) -> Seq<char> {
    let k = last_index(name, '.');
    let raw = if k < 0 {
        "wav"@
    } else {
        name.skip(k + 1)
    };
    let e = sanitize_extension_spec(raw);
    if e.len() == 0 {
        "wav"@
    } else {
        e
    }
}

/// The extension the page sends for a file named `name`.
pub fn file_extension(name: &str) -> (r: String)
    ensures
        r@ == file_extension_spec(name@),
{
    let s = chars_of(name);
    let n = s.len();
    let mut j: usize = n;
    assert(s@.take(n as int) =~= s@);
    while j > 0 && s[j - 1] != '.'
        invariant
            j <= n,
            n == s@.len(),
            last_index(s@, '.') == last_index(s@.take(j as int), '.'),
        decreases j,
    {
        assert(s@.take(j as int).drop_last() =~= s@.take(j - 1));
        j = j - 1;
    }
    let raw = if j == 0 {
        assert(last_index(s@.take(0), '.') == -1);
        String::from_str("wav")
    } else {
        assert(s@.take(j as int).last() == '.');
        let rest = crate::chars::copy_range(s.as_slice(), j, n);
        assert(rest@ =~= s@.skip(j as int));
        string_from_chars(rest.as_slice())
    };
    let e = sanitize_extension(raw.as_str());
    if e.as_str().unicode_len() == 0 {
        String::from_str("wav")
    } else {
        e
    }
}

/// Where the page uploads a file to transcribe.
pub open spec fn transcribe_upload_url_spec(name: Seq<char>) -> Seq<char> {
    "/api/transcribe-file?ext="@ + file_extension_spec(name)
}

/// The upload URL for a file named `name`.
pub fn transcribe_upload_url(name: &str) -> (r: String)
    ensures
        r@ == transcribe_upload_url_spec(name@),
{
    let mut out: Vec<char> = Vec::new();
    push_str(&mut out, "/api/transcribe-file?ext=");
    let e = file_extension(name);
    push_str(&mut out, e.as_str());
    string_from_chars(out.as_slice())
}

/// Where the page uploads a reference voice: its transcript, percent-encoded, and the
/// extension of the file.
pub open spec fn clone_reference_url_spec(text: Seq<char>, name: Seq<char>) -> Seq<char> {
    "/api/clone/reference?text="@ + url_encode_bytes(encode_utf8(text)) + "&ext="@
        + file_extension_spec(name)
}

/// The reference upload URL for reference text `text` and a file named `name`.
pub fn clone_reference_url(text: &str, name: &str) -> (r: String)
    ensures
        r@ == clone_reference_url_spec(text@, name@),
{
    let mut out: Vec<char> = Vec::new();
    push_str(&mut out, "/api/clone/reference?text=");
    let t = url_encode_component(text);
    push_str(&mut out, t.as_str());
    push_str(&mut out, "&ext=");
    let e = file_extension(name);
    push_str(&mut out, e.as_str());
    string_from_chars(out.as_slice())
}

/// Counts a failed status poll; says whether the page now reports the server as stopped
/// (from the fourth failure in a row on, when the server cannot be reached).
pub fn status_poll_failed(failures: &mut u32, error: &str) -> (r: bool)
    requires
        *old(failures) < u32::MAX,
    ensures
        *final(failures) == *old(failures) + 1,
        r == (*final(failures) >= 4 && fetch_failed(error@)),
{
    *failures = *failures + 1;
    *failures >= 4 && is_fetch_error(error)
}


/// The signature a model list is remembered by: whether the page is busy (a file upload
/// for speech models, a synthesis for voices), `|`, and the list's own signature, so the
/// buttons are redrawn when the page becomes busy or idle.
pub fn models_signature(busy: bool, signature: &str) -> (r: String)
    ensures
        r@ == (if busy { "true|"@ } else { "false|"@ }) + signature@,
{
    let mut out: Vec<char> = Vec::new();
    if busy {
        push_str(&mut out, "true|");
    } else {
        push_str(&mut out, "false|");
    }
    push_str(&mut out, signature);
    string_from_chars(out.as_slice())
}

/// Whether a document is new: a document whose signature equals the one remembered is
/// skipped; a new one is remembered and drawn.
pub fn document_changed(remembered: &mut String, signature: String) -> (r: bool)
    ensures
        r == (old(remembered)@ != signature@),
        final(remembered)@ == signature@,
{
    let a = chars_of(remembered.as_str());
    let b = chars_of(signature.as_str());
    if chars_eq(a.as_slice(), b.as_slice()) {
        false
    } else {
        *remembered = signature;
        true
    }
}

} // verus!
