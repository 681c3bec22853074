//! The request handlers: what each route answers, what it changes in the shared state, and
//! which outside work (recording, transcription, synthesis, downloads, files) it asks for.
//!
//! A request is handled in one step when the answer follows from the state and the facts
//! about the disk; otherwise the step names the work to do, and the matching `complete_*`
//! function turns the outcome of that work into the answer.

use vstd::prelude::*;
use vstd::string::StringSliceAdditionalSpecFns;
use vstd::utf8::encode_utf8;
use crate::chars::{has_suffix, chars_of, contains_chars as contains_text, chars_eq, contains_chars, contains_seq, has_prefix, matches_at, string_from_chars, trim, trim_chars};
use crate::body::{parse_string_value_from_body, parse_string_value_spec, config_value_text, config_inner_spec};
use crate::query::{parse_query_param, query_param_raw, sanitize_extension, sanitize_extension_spec};
use crate::escape::url_decode_bytes;
use crate::json::{push_str, push_quoted, quoted, decimal, level_text, tail_text, json_bool, assistant_state_json, assistant_state_json_spec, models_json, models_json_spec, tts_models_json, tts_models_json_spec, clone_status_json, clone_status_json_spec};
use crate::http::{HttpStatus, ContentType, Response, text_response, text_reply};
use crate::catalog::{model_catalog, tts_catalog, model_options, tts_model_options};
use crate::state::{
    ServerState, ServerView, AssistantStatus, DownloadStart, with_status, with_level, with_current_model, with_current_tts_model, with_voice_threshold, with_silence_tail, listening_available_spec, model_download_start, tts_download_start, opt_view, set_current_model, set_current_tts_model, set_assistant_status, set_assistant_level, listening_is_available, start_model_download, start_tts_model_download, set_hearing_paused, set_voice_threshold, set_silence_tail,
};

verus! {

/// The routes the server serves.
#[derive(Clone, Copy, Debug, PartialEq, Eq, Structural)]
pub enum Route {
    Index,
    StaticFile,
    Status,
    Models,
    Listen,
    SelectModel,
    DownloadModel,
    Threshold,
    SilenceTail,
    Pause,
    Resume,
    CloneStatus,
    CloneReference,
    CloneSynthesize,
    TtsModels,
    TtsSelectModel,
    TtsDownloadModel,
    TtsSynthesize,
    TranscribeFile,
    NotFound,
}

/// The route for a method and a path without its query string.
pub open spec fn route_spec(method: Seq<char>, p: Seq<char>) -> Route {
    let get = method == "GET"@;
    let post = method == "POST"@;
    if get && (p == "/"@ || p == "/index.html"@) {
        Route::Index
    } else if get && has_prefix(p, "/pkg/"@) {
        Route::StaticFile
    } else if get && p == "/api/status"@ {
        Route::Status
    } else if get && p == "/api/models"@ {
        Route::Models
    } else if post && p == "/api/listen"@ {
        Route::Listen
    } else if post && p == "/api/model"@ {
        Route::SelectModel
    } else if post && p == "/api/download-model"@ {
        Route::DownloadModel
    } else if post && p == "/api/threshold"@ {
        Route::Threshold
    } else if post && p == "/api/silence-tail"@ {
        Route::SilenceTail
    } else if post && p == "/api/pause"@ {
        Route::Pause
    } else if post && p == "/api/resume"@ {
        Route::Resume
    } else if get && p == "/api/clone/status"@ {
        Route::CloneStatus
    } else if post && p == "/api/clone/reference"@ {
        Route::CloneReference
    } else if post && p == "/api/clone/synthesize"@ {
        Route::CloneSynthesize
    } else if get && p == "/api/tts/models"@ {
        Route::TtsModels
    } else if post && p == "/api/tts/model"@ {
        Route::TtsSelectModel
    } else if post && p == "/api/tts/download-model"@ {
        Route::TtsDownloadModel
    } else if post && p == "/api/tts/synthesize"@ {
        Route::TtsSynthesize
    } else if post && p == "/api/transcribe-file"@ {
        Route::TranscribeFile
    } else {
        Route::NotFound
    }
}

fn text_is(a: &[char], lit: &str) -> (r: bool)
    ensures
        r == (a@ == lit@),
{
    let b = chars_of(lit);
    chars_eq(a, b.as_slice())
}

/// The route for a method and a path without its query string.
pub fn route(method: &str, path_only: &str) -> (r: Route)
    ensures
        r == route_spec(method@, path_only@),
{
    let m = chars_of(method);
    let p = chars_of(path_only);
    let get = text_is(m.as_slice(), "GET");
    let post = text_is(m.as_slice(), "POST");
    let pkg = chars_of("/pkg/");
    let is_pkg = matches_at(p.as_slice(), 0, pkg.as_slice());
    assert(is_pkg == has_prefix(p@, "/pkg/"@)) by {
        assert(p@.subrange(0, pkg@.len() as int) == p@.take(pkg@.len() as int));
    }
    if get && (text_is(p.as_slice(), "/") || text_is(p.as_slice(), "/index.html")) {
        Route::Index
    } else if get && is_pkg {
        Route::StaticFile
    } else if get && text_is(p.as_slice(), "/api/status") {
        Route::Status
    } else if get && text_is(p.as_slice(), "/api/models") {
        Route::Models
    } else if post && text_is(p.as_slice(), "/api/listen") {
        Route::Listen
    } else if post && text_is(p.as_slice(), "/api/model") {
        Route::SelectModel
    } else if post && text_is(p.as_slice(), "/api/download-model") {
        Route::DownloadModel
    } else if post && text_is(p.as_slice(), "/api/threshold") {
        Route::Threshold
    } else if post && text_is(p.as_slice(), "/api/silence-tail") {
        Route::SilenceTail
    } else if post && text_is(p.as_slice(), "/api/pause") {
        Route::Pause
    } else if post && text_is(p.as_slice(), "/api/resume") {
        Route::Resume
    } else if get && text_is(p.as_slice(), "/api/clone/status") {
        Route::CloneStatus
    } else if post && text_is(p.as_slice(), "/api/clone/reference") {
        Route::CloneReference
    } else if post && text_is(p.as_slice(), "/api/clone/synthesize") {
        Route::CloneSynthesize
    } else if get && text_is(p.as_slice(), "/api/tts/models") {
        Route::TtsModels
    } else if post && text_is(p.as_slice(), "/api/tts/model") {
        Route::TtsSelectModel
    } else if post && text_is(p.as_slice(), "/api/tts/download-model") {
        Route::TtsDownloadModel
    } else if post && text_is(p.as_slice(), "/api/tts/synthesize") {
        Route::TtsSynthesize
    } else if post && text_is(p.as_slice(), "/api/transcribe-file") {
        Route::TranscribeFile
    } else {
        Route::NotFound
    }
}

pub type ResponseView = (HttpStatus, ContentType, Seq<u8>);

/// A JSON answer.
pub open spec fn json_reply(status: HttpStatus, text: Seq<char>) -> ResponseView {
    text_response(status, ContentType::Json, text)
}

/// `{"success":false,"error":"…"}`.
pub open spec fn error_json_spec(msg: Seq<char>) -> Seq<char> {
    "{\"success\":false,\"error\":"@ + quoted(msg) + "}"@
}

/// `{"transcript":"…"}` with the transcript trimmed.
pub open spec fn transcript_json_spec(t: Seq<char>) -> Seq<char> {
    "{\"transcript\":"@ + quoted(trim(t)) + "}"@
}

/// The failure answer `{"success":false,"error":msg}`.
pub fn error_reply(status: HttpStatus, msg: &str) -> (r: Response)
    ensures
        r.view() == json_reply(status, error_json_spec(msg@)),
{
    let mut out: Vec<char> = Vec::new();
    push_str(&mut out, "{\"success\":false,\"error\":");
    let m = String::from_str(msg);
    push_quoted(&mut out, &m);
    push_str(&mut out, "}");
    assert(out@ =~= error_json_spec(msg@));
    let s = string_from_chars(out.as_slice());
    text_reply(status, ContentType::Json, s.as_str())
}

/// The answer carrying a transcript.
pub fn transcript_reply(transcript: &str) -> (r: Response)
    ensures
        r.view() == json_reply(HttpStatus::Success, transcript_json_spec(transcript@)),
{
    let t = chars_of(transcript);
    let tt = trim_chars(t.as_slice());
    let trimmed = string_from_chars(tt.as_slice());
    let mut out: Vec<char> = Vec::new();
    push_str(&mut out, "{\"transcript\":");
    push_quoted(&mut out, &trimmed);
    push_str(&mut out, "}");
    assert(out@ =~= transcript_json_spec(transcript@));
    let s = string_from_chars(out.as_slice());
    text_reply(HttpStatus::Success, ContentType::Json, s.as_str())
}

/// A fixed JSON answer.
fn json_text_reply(status: HttpStatus, text: &str) -> (r: Response)
    ensures
        r.view() == json_reply(status, text@),
{
    text_reply(status, ContentType::Json, text)
}

/// What the server knows about the disk when it handles a request.
pub struct ServerFacts {
    /// For each checkpoint on offer, whether it is on disk.
    pub model_available: Vec<bool>,
    /// Whether the selected checkpoint is on disk.
    pub current_model_available: bool,
    /// For each voice on offer, whether it is on disk.
    pub tts_available: Vec<bool>,
    /// Whether the selected voice is on disk.
    pub current_tts_available: bool,
    /// Whether piper is installed.
    pub piper_available: bool,
    /// Whether f5-tts is installed.
    pub f5_available: bool,
    /// Whether a reference recording and its transcript are saved.
    pub has_clone_reference: bool,
    /// The saved reference transcript.
    pub clone_reference_text: Option<String>,
}

pub struct FactsView {
    pub model_available: Seq<bool>,
    pub current_model_available: bool,
    pub tts_available: Seq<bool>,
    pub current_tts_available: bool,
    pub piper_available: bool,
    pub f5_available: bool,
    pub has_clone_reference: bool,
    pub clone_reference_text: Option<Seq<char>>,
}

impl ServerFacts {
    pub open spec fn view(&self) -> FactsView {
        FactsView {
            model_available: self.model_available@,
            current_model_available: self.current_model_available,
            tts_available: self.tts_available@,
            current_tts_available: self.current_tts_available,
            piper_available: self.piper_available,
            f5_available: self.f5_available,
            has_clone_reference: self.has_clone_reference,
            clone_reference_text: opt_view(self.clone_reference_text),
        }
    }
}

impl FactsView {
    /// One availability flag per catalogue entry.
    pub open spec fn wf(self) -> bool {
        &&& self.model_available.len() == model_catalog().len()
        &&& self.tts_available.len() == tts_catalog().len()
    }
}

/// A numeric setting the page can change.
#[derive(Clone, Copy, Debug, PartialEq, Eq, Structural)]
pub enum Setting {
    VoiceThreshold,
    SilenceTail,
}

/// Work that runs on after the answer is sent.
pub enum Background {
    /// Fetch checkpoint `model`.
    DownloadModel(String),
    /// Fetch voice `model` from these addresses.
    DownloadTts { model: String, onnx_url: String, json_url: String },
}

pub enum BackgroundView {
    DownloadModel(Seq<char>),
    DownloadTts(Seq<char>, Seq<char>, Seq<char>),
}

impl Background {
    pub open spec fn view(&self) -> BackgroundView {
        match self {
            Background::DownloadModel(m) => BackgroundView::DownloadModel(m@),
            Background::DownloadTts { model, onnx_url, json_url } => BackgroundView::DownloadTts(
                model@,
                onnx_url@,
                json_url@,
            ),
        }
    }
}

/// What handling a request comes to.
pub enum Step {
    /// Send this answer.
    Respond(Response),
    /// Send this answer, then start this work.
    RespondThenStart(Response, Background),
    /// Send the page.
    ServeIndex,
    /// Send the static file at this path, relative to the project root.
    ServeStatic(String),
    /// Record an utterance and transcribe it, then `complete_listen`.
    Listen,
    /// Read a number from these texts, then `complete_setting`.
    ReadSetting { setting: Setting, whole: String, inner: Option<String> },
    /// Save the request body as reference audio under this file name, with this
    /// transcript, then `complete_clone_reference`.
    SaveCloneReference { text: String, file_name: String },
    /// Speak this text in the reference voice, then `complete_synthesis`.
    SynthesizeClone(String),
    /// Speak this text with this voice, then `complete_synthesis`.
    SynthesizeTts { model: String, text: String },
    /// Transcribe the request body as a file with this extension, then
    /// `complete_transcription`.
    TranscribeUpload(String),
}

pub enum StepView {
    Respond(ResponseView),
    RespondThenStart(ResponseView, BackgroundView),
    ServeIndex,
    ServeStatic(Seq<char>),
    Listen,
    ReadSetting(Setting, Seq<char>, Option<Seq<char>>),
    SaveCloneReference(Seq<char>, Seq<char>),
    SynthesizeClone(Seq<char>),
    SynthesizeTts(Seq<char>, Seq<char>),
    TranscribeUpload(Seq<char>),
}

impl Step {
    pub open spec fn view(&self) -> StepView {
        match self {
            Step::Respond(r) => StepView::Respond(r.view()),
            Step::RespondThenStart(r, b) => StepView::RespondThenStart(r.view(), b.view()),
            Step::ServeIndex => StepView::ServeIndex,
            Step::ServeStatic(p) => StepView::ServeStatic(p@),
            Step::Listen => StepView::Listen,
            Step::ReadSetting { setting, whole, inner } => StepView::ReadSetting(*setting, whole@, opt_view(*inner)),
            Step::SaveCloneReference { text, file_name } => StepView::SaveCloneReference(text@, file_name@),
            Step::SynthesizeClone(t) => StepView::SynthesizeClone(t@),
            Step::SynthesizeTts { model, text } => StepView::SynthesizeTts(model@, text@),
            Step::TranscribeUpload(e) => StepView::TranscribeUpload(e@),
        }
    }
}

/// The ids of the checkpoints on offer.
pub open spec fn model_ids() -> Seq<Seq<char>> {
    Seq::new(model_catalog().len(), |i: int| model_catalog()[i].1)
}

/// The ids of the voices on offer.
pub open spec fn tts_ids() -> Seq<Seq<char>> {
    Seq::new(tts_catalog().len(), |i: int| tts_catalog()[i].1)
}

/// Position of the first `m` in `ids`, or -1.
pub open spec fn first_pos(ids: Seq<Seq<char>>, m: Seq<char>) -> int
    decreases ids.len(),
{
    if ids.len() == 0 {
        -1
    } else if ids.last() == m {
        let r = first_pos(ids.drop_last(), m);
        if r >= 0 { r } else { ids.len() - 1 }
    } else {
        first_pos(ids.drop_last(), m)
    }
}

/// Some entry with id `m` is on disk.
pub open spec fn selectable(ids: Seq<Seq<char>>, available: Seq<bool>, m: Seq<char>) -> bool {
    exists|i: int| 0 <= i < ids.len() && ids[i] == m && #[trigger] available[i]
}

/// Whether the entry with id `m` (the first one) is on disk.
pub open spec fn entry_available(ids: Seq<Seq<char>>, available: Seq<bool>, m: Seq<char>) -> bool {
    first_pos(ids, m) >= 0 && available[first_pos(ids, m)]
}

proof fn lemma_first_pos(ids: Seq<Seq<char>>, m: Seq<char>)
    ensures
        -1 <= first_pos(ids, m) < ids.len(),
        first_pos(ids, m) >= 0 ==> ids[first_pos(ids, m)] == m,
        forall|j: int| 0 <= j < ids.len() && (first_pos(ids, m) < 0 || j < first_pos(ids, m)) ==> ids[j] != m,
    decreases ids.len(),
{
    if ids.len() > 0 {
        lemma_first_pos(ids.drop_last(), m);
        assert forall|j: int| 0 <= j < ids.len() && (first_pos(ids, m) < 0 || j < first_pos(ids, m)) implies ids[j] != m by {
            if j < ids.len() - 1 {
                assert(ids[j] == ids.drop_last()[j]);
            }
        }
    }
}

proof fn lemma_first_pos_is(ids: Seq<Seq<char>>, m: Seq<char>, k: int)
    requires
        -1 <= k < ids.len(),
        k >= 0 ==> ids[k] == m,
        forall|j: int| 0 <= j < ids.len() && (k < 0 || j < k) ==> ids[j] != m,
    ensures
        first_pos(ids, m) == k,
{
    lemma_first_pos(ids, m);
    let f = first_pos(ids, m);
    if f >= 0 && k >= 0 {
        if f < k {
            assert(ids[f] != m);
        } else if k < f {
            assert(ids[k] != m);
        }
    } else if f >= 0 {
        assert(ids[f] != m);
    } else if k >= 0 {
        assert(ids[k] != m);
    }
}

/// Where checkpoint `model` is listed, and whether some listing of it is on disk.
fn find_model(facts: &ServerFacts, model: &str) -> (r: (Option<usize>, bool))
    requires
        facts@.wf(),
    ensures
        match r.0 {
            Some(i) => first_pos(model_ids(), model@) == i,
            None => first_pos(model_ids(), model@) == -1,
        },
        r.1 == selectable(model_ids(), facts@.model_available, model@),
{
    let options = model_options();
    let m = model.to_owned();
    let mut first: Option<usize> = None;
    let mut any = false;
    let mut i: usize = 0;
    while i < options.len()
        invariant
            i <= options@.len(),
            options@.len() == model_catalog().len(),
            facts@.wf(),
            m@ == model@,
            forall|j: int| 0 <= j < options@.len() ==> #[trigger] options@[j].view() == model_catalog()[j],
            match first {
                Some(k) => k < i && model_ids()[k as int] == model@ && forall|j: int| 0 <= j < k ==> model_ids()[j] != model@,
                None => forall|j: int| 0 <= j < i ==> model_ids()[j] != model@,
            },
            any == exists|j: int| 0 <= j < i && model_ids()[j] == model@ && #[trigger] facts@.model_available[j],
        decreases options@.len() - i,
    {
        assert(options@[i as int].view() == model_catalog()[i as int]);
        let same = options[i].model == m;
        assert(same == (model_ids()[i as int] == model@));
        if same && first.is_none() {
            first = Some(i);
        }
        if same && facts.model_available[i] {
            any = true;
        }
        assert(any == exists|j: int| 0 <= j < i + 1 && model_ids()[j] == model@ && #[trigger] facts@.model_available[j]) by {
            if any && !(same && facts@.model_available[i as int]) {
                let j = choose|j: int| 0 <= j < i && model_ids()[j] == model@ && #[trigger] facts@.model_available[j];
            }
        }
        i = i + 1;
    }
    proof {
        match first {
            Some(k) => lemma_first_pos_is(model_ids(), model@, k as int),
            None => lemma_first_pos_is(model_ids(), model@, -1),
        }
    }
    (first, any)
}

/// Where voice `model` is listed, and whether some listing of it is on disk.
fn find_tts_model(facts: &ServerFacts, model: &str) -> (r: (Option<usize>, bool))
    requires
        facts@.wf(),
    ensures
        match r.0 {
            Some(i) => first_pos(tts_ids(), model@) == i,
            None => first_pos(tts_ids(), model@) == -1,
        },
        r.1 == selectable(tts_ids(), facts@.tts_available, model@),
{
    let options = tts_model_options();
    let m = model.to_owned();
    let mut first: Option<usize> = None;
    let mut any = false;
    let mut i: usize = 0;
    while i < options.len()
        invariant
            i <= options@.len(),
            options@.len() == tts_catalog().len(),
            facts@.wf(),
            m@ == model@,
            forall|j: int| 0 <= j < options@.len() ==> #[trigger] options@[j].view() == tts_catalog()[j],
            match first {
                Some(k) => k < i && tts_ids()[k as int] == model@ && forall|j: int| 0 <= j < k ==> tts_ids()[j] != model@,
                None => forall|j: int| 0 <= j < i ==> tts_ids()[j] != model@,
            },
            any == exists|j: int| 0 <= j < i && tts_ids()[j] == model@ && #[trigger] facts@.tts_available[j],
        decreases options@.len() - i,
    {
        assert(options@[i as int].view() == tts_catalog()[i as int]);
        let same = options[i].model == m;
        assert(same == (tts_ids()[i as int] == model@));
        if same && first.is_none() {
            first = Some(i);
        }
        if same && facts.tts_available[i] {
            any = true;
        }
        assert(any == exists|j: int| 0 <= j < i + 1 && tts_ids()[j] == model@ && #[trigger] facts@.tts_available[j]) by {
            if any && !(same && facts@.tts_available[i as int]) {
                let j = choose|j: int| 0 <= j < i && tts_ids()[j] == model@ && #[trigger] facts@.tts_available[j];
            }
        }
        i = i + 1;
    }
    proof {
        match first {
            Some(k) => lemma_first_pos_is(tts_ids(), model@, k as int),
            None => lemma_first_pos_is(tts_ids(), model@, -1),
        }
    }
    (first, any)
}

/// `{"success":true}`.
pub open spec fn success_json() -> Seq<char> {
    "{\"success\":true}"@
}

/// `{"success":true,"started":true}`.
pub open spec fn started_json() -> Seq<char> {
    "{\"success\":true,\"started\":true}"@
}

/// A fixed JSON answer.
pub open spec fn respond_json(status: HttpStatus, text: Seq<char>) -> StepView {
    StepView::Respond(json_reply(status, text))
}

/// A failure answer.
pub open spec fn respond_error(status: HttpStatus, msg: Seq<char>) -> StepView {
    StepView::Respond(json_reply(status, error_json_spec(msg)))
}

/// Selecting a checkpoint: it must be on offer and on disk.
pub open spec fn select_model_spec(v: ServerView, f: FactsView, body: Seq<char>) -> (StepView, ServerView) {
    match parse_string_value_spec(body, "model"@) {
        Ok(m) => if selectable(model_ids(), f.model_available, m) {
            (respond_json(HttpStatus::Success, success_json()), with_current_model(v, m))
        } else {
            (respond_error(HttpStatus::BadRequest, "Model is not available"@), v)
        },
        Err(_) => (respond_error(HttpStatus::BadRequest, "Invalid model value"@), v),
    }
}

/// Downloading a checkpoint: it must be on offer; the answer is the same whether the
/// download begins, runs already, or is not needed.
pub open spec fn download_model_spec(v: ServerView, f: FactsView, body: Seq<char>) -> (StepView, ServerView) {
    match parse_string_value_spec(body, "model"@) {
        Ok(m) => if first_pos(model_ids(), m) >= 0 {
            let (s, v2) = model_download_start(v, m, entry_available(model_ids(), f.model_available, m));
            let r = json_reply(HttpStatus::Success, started_json());
            (if s == DownloadStart::Started {
                StepView::RespondThenStart(r, BackgroundView::DownloadModel(m))
            } else {
                StepView::Respond(r)
            }, v2)
        } else {
            (respond_error(HttpStatus::BadRequest, "Unknown model"@), v)
        },
        Err(_) => (respond_error(HttpStatus::BadRequest, "Invalid model value"@), v),
    }
}

/// The body key of a setting.
pub open spec fn setting_key(s: Setting) -> Seq<char> {
    match s {
        Setting::VoiceThreshold => "threshold"@,
        Setting::SilenceTail => "silence_tail"@,
    }
}

/// The error a setting answers with when no number can be read.
pub open spec fn setting_error(s: Setting) -> Seq<char> {
    match s {
        Setting::VoiceThreshold => "Invalid threshold value"@,
        Setting::SilenceTail => "Invalid silence tail value"@,
    }
}

/// Changing a setting: an empty body is refused, otherwise the number is read from it.
pub open spec fn setting_spec(setting: Setting, body: Seq<char>) -> StepView {
    let t = trim(body);
    if t.len() == 0 {
        respond_error(HttpStatus::BadRequest, setting_error(setting))
    } else {
        StepView::ReadSetting(setting, t, config_inner_spec(t, setting_key(setting)))
    }
}

/// A query parameter, URL-decoded.
pub open spec fn decoded_param(path: Seq<char>, key: Seq<char>) -> Option<Seq<char>> {
    match query_param_raw(path, key) {
        Some(raw) => Some(url_decode_bytes(encode_utf8(raw))),
        None => None,
    }
}

/// The file name reference audio is saved under: `reference.` and the sanitized
/// extension, `wav` when nothing is left of it.
pub open spec fn reference_file_name_spec(ext: Seq<char>) -> Seq<char> {
    let c = sanitize_extension_spec(ext);
    "reference."@ + if c.len() == 0 {
        "wav"@
    } else {
        c
    }
}

/// Saving a reference voice: the audio must not be empty and the transcript (query
/// parameter `text`) must not be blank.
pub open spec fn clone_reference_spec(path: Seq<char>, body_empty: bool) -> StepView {
    if body_empty {
        respond_error(HttpStatus::BadRequest, "Empty reference audio"@)
    } else {
        let text = trim(
            match decoded_param(path, "text"@) {
                Some(t) => t,
                None => Seq::empty(),
            },
        );
        if text.len() == 0 {
            respond_error(HttpStatus::BadRequest, "Missing reference transcript"@)
        } else {
            StepView::SaveCloneReference(
                text,
                reference_file_name_spec(
                    match decoded_param(path, "ext"@) {
                        Some(e) => e,
                        None => Seq::empty(),
                    },
                ),
            )
        }
    }
}

/// Speaking in the reference voice: the text must not be blank, f5-tts must not be
/// installing, and a reference must be saved.
pub open spec fn clone_synthesize_spec(v: ServerView, f: FactsView, body: Seq<char>) -> StepView {
    let t = trim(body);
    if t.len() == 0 {
        respond_error(HttpStatus::BadRequest, "Empty text"@)
    } else if v.f5_installing {
        respond_error(HttpStatus::Conflict, "f5-tts is still installing"@)
    } else if !f.has_clone_reference {
        respond_error(HttpStatus::Conflict, "Upload a reference voice first"@)
    } else {
        StepView::SynthesizeClone(t)
    }
}

/// Selecting a voice: it must be on offer and on disk.
pub open spec fn tts_select_spec(v: ServerView, f: FactsView, body: Seq<char>) -> (StepView, ServerView) {
    match parse_string_value_spec(body, "model"@) {
        Ok(m) => if selectable(tts_ids(), f.tts_available, m) {
            (respond_json(HttpStatus::Success, success_json()), with_current_tts_model(v, m))
        } else {
            (respond_error(HttpStatus::BadRequest, "TTS model is not available"@), v)
        },
        Err(_) => (respond_error(HttpStatus::BadRequest, "Invalid model value"@), v),
    }
}

/// Downloading a voice: it must be on offer.
pub open spec fn tts_download_spec(v: ServerView, f: FactsView, body: Seq<char>) -> (StepView, ServerView) {
    match parse_string_value_spec(body, "model"@) {
        Ok(m) => if first_pos(tts_ids(), m) >= 0 {
            let (so, v2) = tts_download_start(v, m, entry_available(tts_ids(), f.tts_available, m));
            let r = json_reply(HttpStatus::Success, started_json());
            let k = first_pos(tts_ids(), m);
            (match so {
                Some(DownloadStart::Started) => StepView::RespondThenStart(
                    r,
                    BackgroundView::DownloadTts(m, tts_catalog()[k].3, tts_catalog()[k].4),
                ),
                Some(_) => StepView::Respond(r),
                None => respond_error(HttpStatus::InternalServerError, "Unknown TTS model"@),
            }, v2)
        } else {
            (respond_error(HttpStatus::BadRequest, "Unknown TTS model"@), v)
        },
        Err(_) => (respond_error(HttpStatus::BadRequest, "Invalid model value"@), v),
    }
}

/// Speaking with the selected voice: the text must not be blank and the voice must be on
/// disk.
pub open spec fn tts_synthesize_spec(v: ServerView, f: FactsView, body: Seq<char>) -> StepView {
    let t = trim(body);
    if t.len() == 0 {
        respond_error(HttpStatus::BadRequest, "Empty text"@)
    } else if !f.current_tts_available {
        respond_error(HttpStatus::Conflict, "TTS model is not downloaded"@)
    } else {
        StepView::SynthesizeTts(v.current_tts_model, t)
    }
}

/// The extension an upload is saved with: query parameter `ext`, sanitized, `wav` when
/// missing or when nothing is left of it.
pub open spec fn upload_extension_spec(path: Seq<char>) -> Seq<char> {
    match decoded_param(path, "ext"@) {
        Some(raw) => {
            let e = sanitize_extension_spec(raw);
            if e.len() == 0 {
                "wav"@
            } else {
                e
            }
        },
        None => "wav"@,
    }
}

/// Transcribing an upload: the selected checkpoint must be on disk and the upload must not
/// be empty.
pub open spec fn transcribe_file_spec(f: FactsView, path: Seq<char>, body_empty: bool) -> StepView {
    if !f.current_model_available {
        respond_error(HttpStatus::Conflict, "Selected model is not ready"@)
    } else if body_empty {
        respond_error(HttpStatus::BadRequest, "Empty upload"@)
    } else {
        StepView::TranscribeUpload(upload_extension_spec(path))
    }
}

/// Listening: when listening is not available the listener is shown idle and silent.
pub open spec fn listen_spec(v: ServerView, f: FactsView) -> (StepView, ServerView) {
    if listening_available_spec(v, f.current_model_available) {
        (StepView::Listen, v)
    } else {
        (
            respond_error(HttpStatus::Conflict, "Selected model is not ready"@),
            with_level(with_status(v, AssistantStatus::Idle), 0),
        )
    }
}

/// `s` without its leading `c`s.
pub open spec fn strip_leading(s: Seq<char>, c: char) -> Seq<char>
    decreases s.len(),
{
    if s.len() > 0 && s[0] == c {
        strip_leading(s.drop_first(), c)
    } else {
        s
    }
}

/// A static file: the path relative to the project root, refused when it could leave it.
pub open spec fn static_file_spec(p: Seq<char>) -> StepView {
    let rel = crate::http::path_only_spec(strip_leading(p, '/'));
    if contains_seq(rel, ".."@) || contains_seq(rel, seq!['\\']) {
        StepView::Respond(text_response(HttpStatus::BadRequest, ContentType::PlainText, "Bad request"@))
    } else {
        StepView::ServeStatic(rel)
    }
}

/// The answer to a path the server does not serve.
pub open spec fn not_found_spec() -> ResponseView {
    text_response(HttpStatus::NotFound, ContentType::PlainText, "Not found"@)
}

/// How a request is handled: the step and the state after it.
pub open spec fn handle_request_spec(
    v: ServerView,
    f: FactsView,
    method: Seq<char>,
    path: Seq<char>,
    body: Seq<char>,
    body_empty: bool,
) -> (StepView, ServerView) {
    let p = crate::http::path_only_spec(path);
    match route_spec(method, p) {
        Route::Index => (StepView::ServeIndex, v),
        Route::StaticFile => (static_file_spec(p), v),
        Route::Status => (respond_json(HttpStatus::Success, assistant_state_json_spec(v)), v),
        Route::Models => (respond_json(HttpStatus::Success, models_json_spec(v, f.model_available)), v),
        Route::Listen => listen_spec(v, f),
        Route::SelectModel => select_model_spec(v, f, body),
        Route::DownloadModel => download_model_spec(v, f, body),
        Route::Threshold => (setting_spec(Setting::VoiceThreshold, body), v),
        Route::SilenceTail => (setting_spec(Setting::SilenceTail, body), v),
        Route::Pause => (respond_json(HttpStatus::Success, "{\"success\":true,\"paused\":true}"@), ServerView { hearing_paused: true, ..v }),
        Route::Resume => (respond_json(HttpStatus::Success, "{\"success\":true,\"paused\":false}"@), ServerView { hearing_paused: false, ..v }),
        Route::CloneStatus => (respond_json(HttpStatus::Success, clone_status_json_spec(v, f.f5_available, f.has_clone_reference, f.clone_reference_text)), v),
        Route::CloneReference => (clone_reference_spec(path, body_empty), v),
        Route::CloneSynthesize => (clone_synthesize_spec(v, f, body), v),
        Route::TtsModels => (respond_json(HttpStatus::Success, tts_models_json_spec(v, f.tts_available, f.piper_available)), v),
        Route::TtsSelectModel => tts_select_spec(v, f, body),
        Route::TtsDownloadModel => tts_download_spec(v, f, body),
        Route::TtsSynthesize => (tts_synthesize_spec(v, f, body), v),
        Route::TranscribeFile => (transcribe_file_spec(f, path, body_empty), v),
        Route::NotFound => (StepView::Respond(not_found_spec()), v),
    }
}

fn respond_error_step(status: HttpStatus, msg: &str) -> (r: Step)
    ensures
        r.view() == respond_error(status, msg@),
{
    Step::Respond(error_reply(status, msg))
}

fn select_model(state: &mut ServerState, facts: &ServerFacts, body: &str) -> (r: Step)
    requires
        facts@.wf(),
    ensures
        (r.view(), final(state)@) == select_model_spec(old(state)@, facts@, body@),
{
    match parse_string_value_from_body(body, "model") {
        Ok(model) => {
            let (_, any) = find_model(facts, model.as_str());
            if any {
                set_current_model(state, model.as_str());
                Step::Respond(json_text_reply(HttpStatus::Success, "{\"success\":true}"))
            } else {
                respond_error_step(HttpStatus::BadRequest, "Model is not available")
            }
        },
        Err(_) => respond_error_step(HttpStatus::BadRequest, "Invalid model value"),
    }
}

fn download_model(state: &mut ServerState, facts: &ServerFacts, body: &str) -> (r: Step)
    requires
        facts@.wf(),
    ensures
        (r.view(), final(state)@) == download_model_spec(old(state)@, facts@, body@),
{
    match parse_string_value_from_body(body, "model") {
        Ok(model) => {
            let (first, _) = find_model(facts, model.as_str());
            match first {
                Some(k) => {
                    proof {
                        lemma_first_pos(model_ids(), model@);
                    }
                    let available = facts.model_available[k];
                    let started = start_model_download(state, model.as_str(), available);
                    let reply = json_text_reply(HttpStatus::Success, "{\"success\":true,\"started\":true}");
                    if started == DownloadStart::Started {
                        Step::RespondThenStart(reply, Background::DownloadModel(model))
                    } else {
                        Step::Respond(reply)
                    }
                },
                None => respond_error_step(HttpStatus::BadRequest, "Unknown model"),
            }
        },
        Err(_) => respond_error_step(HttpStatus::BadRequest, "Invalid model value"),
    }
}

fn read_setting(setting: Setting, body: &str) -> (r: Step)
    ensures
        r.view() == setting_spec(setting, body@),
{
    let key = match setting {
        Setting::VoiceThreshold => "threshold",
        Setting::SilenceTail => "silence_tail",
    };
    match config_value_text(body, key) {
        Ok(t) => Step::ReadSetting { setting, whole: t.whole, inner: t.inner },
        Err(_) => match setting {
            Setting::VoiceThreshold => respond_error_step(HttpStatus::BadRequest, "Invalid threshold value"),
            Setting::SilenceTail => respond_error_step(HttpStatus::BadRequest, "Invalid silence tail value"),
        },
    }
}

/// The name a reference recording is saved under: `reference.` and the sanitized
/// extension, `wav` when nothing is left of it.
pub fn clone_reference_file_name(extension: &str) -> (r: String)
    ensures
        r@ == reference_file_name_spec(extension@),
{
    let clean = sanitize_extension(extension);
    let ext = if clean.as_str().unicode_len() == 0 { String::from_str("wav") } else { clean };
    String::from_str("reference.").concat(ext.as_str())
}

fn clone_reference(path: &str, body_empty: bool) -> (r: Step)
    ensures
        r.view() == clone_reference_spec(path@, body_empty),
{
    if body_empty {
        return respond_error_step(HttpStatus::BadRequest, "Empty reference audio");
    }
    let raw_text = match parse_query_param(path, "text") {
        Some(t) => t,
        None => String::new(),
    };
    let tc = chars_of(raw_text.as_str());
    let tt = trim_chars(tc.as_slice());
    if tt.len() == 0 {
        return respond_error_step(HttpStatus::BadRequest, "Missing reference transcript");
    }
    let raw_ext = match parse_query_param(path, "ext") {
        Some(e) => e,
        None => String::new(),
    };
    let file_name = clone_reference_file_name(raw_ext.as_str());
    Step::SaveCloneReference { text: string_from_chars(tt.as_slice()), file_name }
}

fn clone_synthesize(state: &ServerState, facts: &ServerFacts, body: &str) -> (r: Step)
    ensures
        r.view() == clone_synthesize_spec(state@, facts@, body@),
{
    let b = chars_of(body);
    let t = trim_chars(b.as_slice());
    if t.len() == 0 {
        respond_error_step(HttpStatus::BadRequest, "Empty text")
    } else if state.f5_installing {
        respond_error_step(HttpStatus::Conflict, "f5-tts is still installing")
    } else if !facts.has_clone_reference {
        respond_error_step(HttpStatus::Conflict, "Upload a reference voice first")
    } else {
        Step::SynthesizeClone(string_from_chars(t.as_slice()))
    }
}

fn tts_select(state: &mut ServerState, facts: &ServerFacts, body: &str) -> (r: Step)
    requires
        facts@.wf(),
    ensures
        (r.view(), final(state)@) == tts_select_spec(old(state)@, facts@, body@),
{
    match parse_string_value_from_body(body, "model") {
        Ok(model) => {
            let (_, any) = find_tts_model(facts, model.as_str());
            if any {
                set_current_tts_model(state, model.as_str());
                Step::Respond(json_text_reply(HttpStatus::Success, "{\"success\":true}"))
            } else {
                respond_error_step(HttpStatus::BadRequest, "TTS model is not available")
            }
        },
        Err(_) => respond_error_step(HttpStatus::BadRequest, "Invalid model value"),
    }
}

fn tts_download(state: &mut ServerState, facts: &ServerFacts, body: &str) -> (r: Step)
    requires
        facts@.wf(),
    ensures
        (r.view(), final(state)@) == tts_download_spec(old(state)@, facts@, body@),
{
    match parse_string_value_from_body(body, "model") {
        Ok(model) => {
            let (first, _) = find_tts_model(facts, model.as_str());
            match first {
                Some(k) => {
                    proof {
                        lemma_first_pos(tts_ids(), model@);
                    }
                    let available = facts.tts_available[k];
                    let reply = json_text_reply(HttpStatus::Success, "{\"success\":true,\"started\":true}");
                    match start_tts_model_download(state, model.as_str(), available) {
                        Ok((s, plan)) => match plan {
                            Some(p) => {
                                proof {
                                    let i = choose|i: int| 0 <= i < tts_catalog().len()
                                        && tts_catalog()[i].1 == model@
                                        && tts_catalog()[i].3 == p.onnx_url@
                                        && tts_catalog()[i].4 == p.json_url@
                                        && forall|j: int| 0 <= j < i ==> #[trigger] tts_catalog()[j].1 != model@;
                                    assert(tts_ids()[k as int] == model@);
                                    if k < i {
                                        assert(tts_catalog()[k as int].1 == model@);
                                    } else if i < k {
                                        assert(tts_ids()[i] == model@);
                                    }
                                }
                                Step::RespondThenStart(reply, Background::DownloadTts { model, onnx_url: p.onnx_url, json_url: p.json_url })
                            },
                            None => Step::Respond(reply),
                        },
                        Err(()) => respond_error_step(HttpStatus::InternalServerError, "Unknown TTS model"),
                    }
                },
                None => respond_error_step(HttpStatus::BadRequest, "Unknown TTS model"),
            }
        },
        Err(_) => respond_error_step(HttpStatus::BadRequest, "Invalid model value"),
    }
}

fn tts_synthesize(state: &ServerState, facts: &ServerFacts, body: &str) -> (r: Step)
    ensures
        r.view() == tts_synthesize_spec(state@, facts@, body@),
{
    let b = chars_of(body);
    let t = trim_chars(b.as_slice());
    if t.len() == 0 {
        respond_error_step(HttpStatus::BadRequest, "Empty text")
    } else if !facts.current_tts_available {
        respond_error_step(HttpStatus::Conflict, "TTS model is not downloaded")
    } else {
        Step::SynthesizeTts { model: state.current_tts_model.clone(), text: string_from_chars(t.as_slice()) }
    }
}

/// The extension an upload is saved with: query parameter `ext`, sanitized, `wav` when it
/// is missing or nothing is left of it.
pub fn upload_extension(path: &str) -> (r: String)
    ensures
        r@ == upload_extension_spec(path@),
{
    match parse_query_param(path, "ext") {
        Some(raw) => {
            let e = sanitize_extension(raw.as_str());
            if e.as_str().unicode_len() == 0 {
                String::from_str("wav")
            } else {
                e
            }
        },
        None => String::from_str("wav"),
    }
}

fn transcribe_file(facts: &ServerFacts, path: &str, body_empty: bool) -> (r: Step)
    ensures
        r.view() == transcribe_file_spec(facts@, path@, body_empty),
{
    if !facts.current_model_available {
        respond_error_step(HttpStatus::Conflict, "Selected model is not ready")
    } else if body_empty {
        respond_error_step(HttpStatus::BadRequest, "Empty upload")
    } else {
        Step::TranscribeUpload(upload_extension(path))
    }
}

fn listen(state: &mut ServerState, facts: &ServerFacts) -> (r: Step)
    ensures
        (r.view(), final(state)@) == listen_spec(old(state)@, facts@),
{
    if listening_is_available(state, facts.current_model_available) {
        Step::Listen
    } else {
        set_assistant_status(state, AssistantStatus::Idle);
        set_assistant_level(state, 0);
        respond_error_step(HttpStatus::Conflict, "Selected model is not ready")
    }
}

fn strip_leading_chars(s: &[char], c: char) -> (r: usize)
    ensures
        r <= s@.len(),
        s@.subrange(r as int, s@.len() as int) == strip_leading(s@, c),
{
    let n = s.len();
    let mut i: usize = 0;
    assert(s@.subrange(0, n as int) =~= s@);
    while i < n && s[i] == c
        invariant
            i <= n,
            n == s@.len(),
            strip_leading(s@, c) == strip_leading(s@.subrange(i as int, n as int), c),
        decreases n - i,
    {
        assert(s@.subrange(i as int, n as int).drop_first() =~= s@.subrange(i + 1, n as int));
        i = i + 1;
    }
    i
}

/// Where a static file request leads: the path relative to the project root, or a refusal
/// when the path contains `..` or a backslash.
pub fn static_file_step(path_only: &str) -> (r: Step)
    ensures
        r.view() == static_file_spec(path_only@),
{
    let p = chars_of(path_only);
    let start = strip_leading_chars(p.as_slice(), '/');
    let rest = crate::chars::copy_range(p.as_slice(), start, p.len());
    let rest_str = string_from_chars(rest.as_slice());
    let rel = crate::http::path_only(rest_str.as_str());
    let rc = chars_of(rel.as_str());
    let dots = chars_of("..");
    let slash: Vec<char> = vec!['\\'];
    assert(slash@ =~= seq!['\\']);
    if contains_chars(rc.as_slice(), dots.as_slice()) || contains_chars(rc.as_slice(), slash.as_slice()) {
        Step::Respond(text_reply(HttpStatus::BadRequest, ContentType::PlainText, "Bad request"))
    } else {
        Step::ServeStatic(rel)
    }
}

/// The answer to a path the server does not serve.
pub fn not_found_reply() -> (r: Response)
    ensures
        r.view() == not_found_spec(),
{
    text_reply(HttpStatus::NotFound, ContentType::PlainText, "Not found")
}

/// Handles a request, given its method, path (with query), body text (empty when it is not
/// UTF-8), whether the body has no bytes, and the facts about the disk.
pub fn handle_request(
    state: &mut ServerState,
    facts: &ServerFacts,
    method: &str,
    path: &str,
    body: &str,
    body_empty: bool,
) -> (r: Step)
    requires
        facts@.wf(),
    ensures
        (r.view(), final(state)@) == handle_request_spec(old(state)@, facts@, method@, path@, body@, body_empty),
{
    let p = crate::http::path_only(path);
    match route(method, p.as_str()) {
        Route::Index => Step::ServeIndex,
        Route::StaticFile => static_file_step(p.as_str()),
        Route::Status => {
            let doc = assistant_state_json(state);
            Step::Respond(json_text_reply(HttpStatus::Success, doc.as_str()))
        },
        Route::Models => {
            let doc = models_json(state, &facts.model_available);
            Step::Respond(json_text_reply(HttpStatus::Success, doc.as_str()))
        },
        Route::Listen => listen(state, facts),
        Route::SelectModel => select_model(state, facts, body),
        Route::DownloadModel => download_model(state, facts, body),
        Route::Threshold => read_setting(Setting::VoiceThreshold, body),
        Route::SilenceTail => read_setting(Setting::SilenceTail, body),
        Route::Pause => {
            set_hearing_paused(state, true);
            Step::Respond(json_text_reply(HttpStatus::Success, "{\"success\":true,\"paused\":true}"))
        },
        Route::Resume => {
            set_hearing_paused(state, false);
            Step::Respond(json_text_reply(HttpStatus::Success, "{\"success\":true,\"paused\":false}"))
        },
        Route::CloneStatus => {
            let doc = clone_status_json(state, facts.f5_available, facts.has_clone_reference, &facts.clone_reference_text);
            Step::Respond(json_text_reply(HttpStatus::Success, doc.as_str()))
        },
        Route::CloneReference => clone_reference(path, body_empty),
        Route::CloneSynthesize => clone_synthesize(state, facts, body),
        Route::TtsModels => {
            let doc = tts_models_json(state, &facts.tts_available, facts.piper_available);
            Step::Respond(json_text_reply(HttpStatus::Success, doc.as_str()))
        },
        Route::TtsSelectModel => tts_select(state, facts, body),
        Route::TtsDownloadModel => tts_download(state, facts, body),
        Route::TtsSynthesize => tts_synthesize(state, facts, body),
        Route::TranscribeFile => transcribe_file(facts, path, body_empty),
        Route::NotFound => Step::Respond(not_found_reply()),
    }
}

pub open spec fn result_view(r: Result<String, String>) -> Result<Seq<char>, Seq<char>> {
    match r {
        Ok(t) => Ok(t@),
        Err(e) => Err(e@),
    }
}

/// The answer to a listening request once recording and transcription are over: the
/// transcript; or, when listening has become unavailable meanwhile, the error (and the
/// listener shown idle and silent); or, when another listener was running, that; or no
/// answer at all for any other failure.
pub open spec fn complete_listen_spec(
    v: ServerView,
    result: Result<Seq<char>, Seq<char>>,
    current_model_available: bool,
) -> (Option<ResponseView>, ServerView) {
    match result {
        Ok(t) => (Some(json_reply(HttpStatus::Success, transcript_json_spec(t))), v),
        Err(e) => if !listening_available_spec(v, current_model_available) {
            (
                Some(json_reply(HttpStatus::Conflict, error_json_spec(e))),
                with_level(with_status(v, AssistantStatus::Idle), 0),
            )
        } else if contains_seq(e, "listener is already running"@) {
            (Some(json_reply(HttpStatus::Conflict, error_json_spec("Listener is already running"@))), v)
        } else {
            (None, v)
        },
    }
}

/// Turns the outcome of recording and transcribing into the answer; `None` means the
/// request fails without an answer.
pub fn complete_listen(
    state: &mut ServerState,
    result: Result<String, String>,
    current_model_available: bool,
) -> (r: Option<Response>)
    ensures
        ({
            let (resp, v) = complete_listen_spec(old(state)@, result_view(result), current_model_available);
            &&& final(state)@ == v
            &&& match r {
                Some(x) => resp == Some(x.view()),
                None => resp is None,
            }
        }),
{
    match result {
        Ok(t) => Some(transcript_reply(t.as_str())),
        Err(e) => {
            if !listening_is_available(state, current_model_available) {
                set_assistant_status(state, AssistantStatus::Idle);
                set_assistant_level(state, 0);
                Some(error_reply(HttpStatus::Conflict, e.as_str()))
            } else {
                let ec = chars_of(e.as_str());
                let pat = chars_of("listener is already running");
                if contains_text(ec.as_slice(), pat.as_slice()) {
                    Some(error_reply(HttpStatus::Conflict, "Listener is already running"))
                } else {
                    None
                }
            }
        },
    }
}

/// The answer to a setting once its number is read (`None` when it could not be); the
/// setting is stored clamped to its range.
pub open spec fn complete_setting_spec(v: ServerView, setting: Setting, value: Option<int>) -> (ResponseView, ServerView) {
    match value {
        Some(x) => (
            json_reply(HttpStatus::Success, success_json()),
            match setting {
                Setting::VoiceThreshold => with_voice_threshold(v, x),
                Setting::SilenceTail => with_silence_tail(v, x),
            },
        ),
        None => (json_reply(HttpStatus::BadRequest, error_json_spec(setting_error(setting))), v),
    }
}

/// Stores a setting read from a request: the voice threshold in hundred-thousandths, the
/// silence tail in milliseconds.
pub fn complete_setting(state: &mut ServerState, setting: Setting, value: Option<i64>) -> (r: Response)
    ensures
        (r.view(), final(state)@) == complete_setting_spec(
            old(state)@,
            setting,
            match value {
                Some(x) => Some(x as int),
                None => None,
            },
        ),
{
    match value {
        Some(x) => {
            match setting {
                Setting::VoiceThreshold => set_voice_threshold(state, x),
                Setting::SilenceTail => set_silence_tail(state, x),
            }
            json_text_reply(HttpStatus::Success, "{\"success\":true}")
        },
        None => match setting {
            Setting::VoiceThreshold => error_reply(HttpStatus::BadRequest, "Invalid threshold value"),
            Setting::SilenceTail => error_reply(HttpStatus::BadRequest, "Invalid silence tail value"),
        },
    }
}

/// The answer once reference audio is saved, or failed to be.
pub fn complete_clone_reference(result: Result<(), String>) -> (r: Response)
    ensures
        r.view() == match result {
            Ok(()) => json_reply(HttpStatus::Success, success_json()),
            Err(e) => json_reply(HttpStatus::InternalServerError, error_json_spec(e@)),
        },
{
    match result {
        Ok(()) => json_text_reply(HttpStatus::Success, "{\"success\":true}"),
        Err(e) => error_reply(HttpStatus::InternalServerError, e.as_str()),
    }
}

/// The answer once speech is synthesized: the WAV file, or the error.
pub fn complete_synthesis(result: Result<Vec<u8>, String>) -> (r: Response)
    ensures
        r.view() == match result {
            Ok(wav) => (HttpStatus::Success, ContentType::Wav, wav@),
            Err(e) => json_reply(HttpStatus::InternalServerError, error_json_spec(e@)),
        },
{
    match result {
        Ok(wav) => Response { status: HttpStatus::Success, content_type: ContentType::Wav, body: wav },
        Err(e) => error_reply(HttpStatus::InternalServerError, e.as_str()),
    }
}

/// The answer once an upload is transcribed: the transcript, or the error.
pub fn complete_transcription(result: Result<String, String>) -> (r: Response)
    ensures
        r.view() == match result {
            Ok(t) => json_reply(HttpStatus::Success, transcript_json_spec(t@)),
            Err(e) => json_reply(HttpStatus::InternalServerError, error_json_spec(e@)),
        },
{
    match result {
        Ok(t) => transcript_reply(t.as_str()),
        Err(e) => error_reply(HttpStatus::InternalServerError, e.as_str()),
    }
}


/// Every request, and every completion of the work a request started, keeps the shared
/// state well formed: levels within range, the threshold and silence tail within theirs,
/// at least one channel, and download progress at most 100 %.
#[verifier::rlimit(80)]
#[verifier::spinoff_prover]
pub proof fn requests_keep_state_well_formed(
    v: ServerView,
    f: FactsView,
    method: Seq<char>,
    path: Seq<char>,
    body: Seq<char>,
    body_empty: bool,
    result: Result<Seq<char>, Seq<char>>,
    current_model_available: bool,
    setting: Setting,
    value: Option<int>,
)
    requires
        v.wf(),
    ensures
        handle_request_spec(v, f, method, path, body, body_empty).1.wf(),
        complete_listen_spec(v, result, current_model_available).1.wf(),
        complete_setting_spec(v, setting, value).1.wf(),
{
    let m = match parse_string_value_spec(body, "model"@) {
        Ok(m) => m,
        Err(_) => Seq::empty(),
    };
    crate::state::updates_keep_state_well_formed(v, AssistantStatus::Idle, 0, 0, 0, m, Seq::empty(), 0, entry_available(model_ids(), f.model_available, m));
    crate::state::updates_keep_state_well_formed(v, AssistantStatus::Idle, 0, 0, 0, m, Seq::empty(), 0, entry_available(tts_ids(), f.tts_available, m));
    crate::state::updates_keep_state_well_formed(with_status(v, AssistantStatus::Idle), AssistantStatus::Idle, 0, 0, 0, m, Seq::empty(), 0, false);
    match value {
        Some(x) => {
            crate::state::updates_keep_state_well_formed(v, AssistantStatus::Idle, x, 0, 0, m, Seq::empty(), 0, false);
        },
        None => {},
    }
}


proof fn lemma_status_reports_paused(v: ServerView)
    requires
        v.hearing_paused,
    ensures
        has_suffix(assistant_state_json_spec(v), "\"paused\":true}"@),
{
    let a = v.assistant;
    let doc = assistant_state_json_spec(v);
    let tail = "{\"status\":\""@ + crate::state::status_name(a.status) + "\",\"level\":"@ + level_text(a.level)
        + ",\"left_level\":"@ + level_text(a.left_level) + ",\"right_level\":"@ + level_text(
        a.right_level,
    ) + ",\"channels\":"@ + decimal(a.channels as nat) + ",\"sample_rate\":"@ + decimal(
        a.sample_rate as nat,
    ) + ",\"bits_per_sample\":"@ + decimal(a.bits_per_sample as nat) + ",\"sample_format\":"@
        + quoted(a.sample_format) + ",\"device_name\":"@ + quoted(a.device_name)
        + ",\"voice_threshold\":"@ + level_text(a.voice_threshold) + ",\"silence_tail\":"@
        + tail_text(a.silence_tail_ms) + ",\"paused\":"@;
    {
        assert(doc == tail + json_bool(true) + "}"@);
        reveal_strlit("true");
        reveal_strlit("}");
        reveal_strlit("\"paused\":true}");
        reveal_strlit(",\"paused\":");
        assert(doc.skip(doc.len() - 14) =~= "\"paused\":true}"@);
    }
}


/// Pausing holds until resuming: after a pause every request but a resume leaves hearing
/// paused; while it is paused a listen request is refused with 409 and the status
/// document reports `"paused":true`; a pause request pauses and a resume request resumes.
#[verifier::rlimit(60)]
#[verifier::spinoff_prover]
pub proof fn pause_holds_until_resume(
    v: ServerView,
    f: FactsView,
    method: Seq<char>,
    path: Seq<char>,
    body: Seq<char>,
    body_empty: bool,
    result: Result<Seq<char>, Seq<char>>,
    current_model_available: bool,
    setting: Setting,
    value: Option<int>,
)
    ensures
        ({
            let route = route_spec(method, crate::http::path_only_spec(path));
            let (step, w) = handle_request_spec(v, f, method, path, body, body_empty);
            &&& route == Route::Pause ==> w.hearing_paused
            &&& route == Route::Resume ==> !w.hearing_paused
            &&& v.hearing_paused && route != Route::Resume ==> w.hearing_paused
            &&& v.hearing_paused && route == Route::Listen ==> step == respond_error(
                HttpStatus::Conflict,
                "Selected model is not ready"@,
            )
            &&& v.hearing_paused && route == Route::Status ==> step == respond_json(
                HttpStatus::Success,
                assistant_state_json_spec(v),
            ) && has_suffix(assistant_state_json_spec(v), "\"paused\":true}"@)
        }),
        v.hearing_paused ==> complete_listen_spec(v, result, current_model_available).1.hearing_paused,
        v.hearing_paused ==> complete_setting_spec(v, setting, value).1.hearing_paused,
{
    if v.hearing_paused {
        lemma_status_reports_paused(v);
    }
}


#[verifier::rlimit(60)]
#[verifier::spinoff_prover]
proof fn lemma_request_keeps_model(
    v: ServerView,
    f: FactsView,
    method: Seq<char>,
    path: Seq<char>,
    body: Seq<char>,
    body_empty: bool,
)
    ensures
        ({
            let route = route_spec(method, crate::http::path_only_spec(path));
            let w = handle_request_spec(v, f, method, path, body, body_empty).1;
            route != Route::SelectModel && route != Route::DownloadModel ==> w.current_model == v.current_model
        }),
{
    let route = route_spec(method, crate::http::path_only_spec(path));
    match route {
        Route::SelectModel => {},
        Route::DownloadModel => {},
        Route::TtsSelectModel => {},
        Route::TtsDownloadModel => {},
        _ => {},
    }
}

#[verifier::rlimit(60)]
#[verifier::spinoff_prover]
proof fn lemma_request_keeps_voice(
    v: ServerView,
    f: FactsView,
    method: Seq<char>,
    path: Seq<char>,
    body: Seq<char>,
    body_empty: bool,
)
    ensures
        ({
            let route = route_spec(method, crate::http::path_only_spec(path));
            let w = handle_request_spec(v, f, method, path, body, body_empty).1;
            route != Route::TtsSelectModel && route != Route::TtsDownloadModel ==> w.current_tts_model == v.current_tts_model
        }),
{
    let route = route_spec(method, crate::http::path_only_spec(path));
    match route {
        Route::SelectModel => {},
        Route::DownloadModel => {},
        Route::TtsSelectModel => {},
        Route::TtsDownloadModel => {},
        _ => {},
    }
}

#[verifier::rlimit(60)]
#[verifier::spinoff_prover]
proof fn lemma_request_keeps_download(
    v: ServerView,
    f: FactsView,
    method: Seq<char>,
    path: Seq<char>,
    body: Seq<char>,
    body_empty: bool,
)
    ensures
        ({
            let route = route_spec(method, crate::http::path_only_spec(path));
            let w = handle_request_spec(v, f, method, path, body, body_empty).1;
            crate::state::download_active(v.download) && route != Route::DownloadModel ==> crate::state::download_active(w.download)
        }),
{
    let route = route_spec(method, crate::http::path_only_spec(path));
    match route {
        Route::SelectModel => {},
        Route::DownloadModel => {},
        Route::TtsSelectModel => {},
        Route::TtsDownloadModel => {
            let m = match parse_string_value_spec(body, "model"@) {
                Ok(m) => m,
                Err(_) => Seq::empty(),
            };
            assert(tts_download_start(v, m, entry_available(tts_ids(), f.tts_available, m)).1.download
                == v.download);
        },
        _ => {},
    }
}

/// What requests leave in place. The selected checkpoint changes only through a
/// select-model or download-model request (the latter when the checkpoint is already on
/// disk), and the selected voice only through the voice counterparts; completions change
/// neither. A running checkpoint download stays running, and listening stays unavailable,
/// across every request but a download-model request (which, for a checkpoint already on
/// disk, records that one as finished) and across every completion: otherwise only the
/// download's own end (`download_finished` or `download_failed`) stops it.
pub proof fn requests_keep_selection_and_download(
    v: ServerView,
    f: FactsView,
    method: Seq<char>,
    path: Seq<char>,
    body: Seq<char>,
    body_empty: bool,
    result: Result<Seq<char>, Seq<char>>,
    current_model_available: bool,
    setting: Setting,
    value: Option<int>,
)
    ensures
        ({
            let route = route_spec(method, crate::http::path_only_spec(path));
            let w = handle_request_spec(v, f, method, path, body, body_empty).1;
            &&& route != Route::SelectModel && route != Route::DownloadModel ==> w.current_model
                == v.current_model
            &&& route != Route::TtsSelectModel && route != Route::TtsDownloadModel
                ==> w.current_tts_model == v.current_tts_model
            &&& crate::state::download_active(v.download) && route != Route::DownloadModel
                ==> crate::state::download_active(w.download) && !listening_available_spec(
                w,
                current_model_available,
            )
        }),
        complete_listen_spec(v, result, current_model_available).1.current_model == v.current_model,
        complete_listen_spec(v, result, current_model_available).1.current_tts_model == v.current_tts_model,
        complete_listen_spec(v, result, current_model_available).1.download == v.download,
        complete_setting_spec(v, setting, value).1.current_model == v.current_model,
        complete_setting_spec(v, setting, value).1.current_tts_model == v.current_tts_model,
        complete_setting_spec(v, setting, value).1.download == v.download,
{
    lemma_request_keeps_model(v, f, method, path, body, body_empty);
    lemma_request_keeps_voice(v, f, method, path, body, body_empty);
    lemma_request_keeps_download(v, f, method, path, body, body_empty);
}


/// Selecting a checkpoint or a voice takes effect exactly when it succeeds: when the answer
/// is `{"success":true}`, the model named in the body is one on offer and is the one
/// selected afterwards; any other answer leaves the selection as it was.
#[verifier::rlimit(60)]
#[verifier::spinoff_prover]
pub proof fn selection_takes_effect(
    v: ServerView,
    f: FactsView,
    method: Seq<char>,
    path: Seq<char>,
    body: Seq<char>,
    body_empty: bool,
)
    ensures
        ({
            let route = route_spec(method, crate::http::path_only_spec(path));
            let (step, w) = handle_request_spec(v, f, method, path, body, body_empty);
            let success = step == respond_json(HttpStatus::Success, success_json());
            &&& route == Route::SelectModel && success ==> (parse_string_value_spec(body, "model"@) matches Ok(m)
                && w.current_model == m && model_ids().contains(m))
            &&& route == Route::SelectModel && !success ==> w.current_model == v.current_model
            &&& route == Route::TtsSelectModel && success ==> (parse_string_value_spec(body, "model"@) matches Ok(m)
                && w.current_tts_model == m && tts_ids().contains(m))
            &&& route == Route::TtsSelectModel && !success ==> w.current_tts_model == v.current_tts_model
        }),
{
    reveal_strlit("{\"success\":true}");
    reveal_strlit("{\"success\":false,\"error\":");
    let route = route_spec(method, crate::http::path_only_spec(path));
    if route == Route::SelectModel || route == Route::TtsSelectModel {
        match parse_string_value_spec(body, "model"@) {
            Ok(m) => {
                if route == Route::SelectModel && selectable(model_ids(), f.model_available, m) {
                    let i = choose|i: int| 0 <= i < model_ids().len() && model_ids()[i] == m
                        && #[trigger] f.model_available[i];
                    assert(model_ids()[i] == m);
                }
                if route == Route::TtsSelectModel && selectable(tts_ids(), f.tts_available, m) {
                    let i = choose|i: int| 0 <= i < tts_ids().len() && tts_ids()[i] == m
                        && #[trigger] f.tts_available[i];
                    assert(tts_ids()[i] == m);
                }
            },
            Err(_) => {},
        }
        lemma_error_is_not_success("Model is not available"@);
        lemma_error_is_not_success("TTS model is not available"@);
        lemma_error_is_not_success("Invalid model value"@);
    }
}

proof fn lemma_error_is_not_success(msg: Seq<char>)
    ensures
        respond_error(HttpStatus::BadRequest, msg) != respond_json(HttpStatus::Success, success_json()),
{
}


/// The request each route is for: its method and path (for the page, `/`; for static
/// files, the `/pkg/` folder).
pub open spec fn endpoint(r: Route) -> (Seq<char>, Seq<char>) {
    match r {
        Route::Index => ("GET"@, "/"@),
        Route::StaticFile => ("GET"@, "/pkg/"@),
        Route::Status => ("GET"@, "/api/status"@),
        Route::Models => ("GET"@, "/api/models"@),
        Route::Listen => ("POST"@, "/api/listen"@),
        Route::SelectModel => ("POST"@, "/api/model"@),
        Route::DownloadModel => ("POST"@, "/api/download-model"@),
        Route::Threshold => ("POST"@, "/api/threshold"@),
        Route::SilenceTail => ("POST"@, "/api/silence-tail"@),
        Route::Pause => ("POST"@, "/api/pause"@),
        Route::Resume => ("POST"@, "/api/resume"@),
        Route::CloneStatus => ("GET"@, "/api/clone/status"@),
        Route::CloneReference => ("POST"@, "/api/clone/reference"@),
        Route::CloneSynthesize => ("POST"@, "/api/clone/synthesize"@),
        Route::TtsModels => ("GET"@, "/api/tts/models"@),
        Route::TtsSelectModel => ("POST"@, "/api/tts/model"@),
        Route::TtsDownloadModel => ("POST"@, "/api/tts/download-model"@),
        Route::TtsSynthesize => ("POST"@, "/api/tts/synthesize"@),
        Route::TranscribeFile => ("POST"@, "/api/transcribe-file"@),
        Route::NotFound => (""@, ""@),
    }
}

/// Every route of the API is reached by its own request, and an API route is reached by no
/// other: the router sends each method and path the server serves to its handler, never to
/// "not found", and sends nothing else to an API handler.
#[verifier::rlimit(80)]
#[verifier::spinoff_prover]
pub proof fn routes_serve_their_endpoints(r: Route, method: Seq<char>, p: Seq<char>)
    ensures
        r != Route::NotFound ==> route_spec(endpoint(r).0, endpoint(r).1) == r,
        route_spec(method, p) == r && r != Route::NotFound && r != Route::StaticFile && r
            != Route::Index ==> method == endpoint(r).0 && p == endpoint(r).1,
{
    reveal_strlit("/");
    reveal_strlit("/api/clone/reference");
    reveal_strlit("/api/clone/status");
    reveal_strlit("/api/clone/synthesize");
    reveal_strlit("/api/download-model");
    reveal_strlit("/api/listen");
    reveal_strlit("/api/model");
    reveal_strlit("/api/models");
    reveal_strlit("/api/pause");
    reveal_strlit("/api/resume");
    reveal_strlit("/api/silence-tail");
    reveal_strlit("/api/status");
    reveal_strlit("/api/threshold");
    reveal_strlit("/api/transcribe-file");
    reveal_strlit("/api/tts/download-model");
    reveal_strlit("/api/tts/model");
    reveal_strlit("/api/tts/models");
    reveal_strlit("/api/tts/synthesize");
    reveal_strlit("/index.html");
    reveal_strlit("/pkg/");
    reveal_strlit("GET");
    reveal_strlit("POST");
    assert("GET"@.len() != "POST"@.len());
    match r {
        Route::Index => {},
        Route::StaticFile => {
            assert("/pkg/"@.len() != "/"@.len());
            assert("/pkg/"@.len() != "/index.html"@.len());
            assert("/pkg/"@.take(5) =~= "/pkg/"@);
        },
        Route::Status => {
            assert("/api/status"@.len() != "/"@.len());
            assert("/api/status"@[1] != "/index.html"@[1]);
            assert("/api/status"@.take(5)[1] != "/pkg/"@[1]);
        },
        Route::Models => {
            assert("/api/models"@.len() != "/"@.len());
            assert("/api/models"@[1] != "/index.html"@[1]);
            assert("/api/models"@.take(5)[1] != "/pkg/"@[1]);
            assert("/api/models"@[5] != "/api/status"@[5]);
        },
        Route::Listen => {},
        Route::SelectModel => {
            assert("/api/model"@.len() != "/api/listen"@.len());
        },
        Route::DownloadModel => {
            assert("/api/download-model"@.len() != "/api/listen"@.len());
            assert("/api/download-model"@.len() != "/api/model"@.len());
        },
        Route::Threshold => {
            assert("/api/threshold"@.len() != "/api/listen"@.len());
            assert("/api/threshold"@.len() != "/api/model"@.len());
            assert("/api/threshold"@.len() != "/api/download-model"@.len());
        },
        Route::SilenceTail => {
            assert("/api/silence-tail"@.len() != "/api/listen"@.len());
            assert("/api/silence-tail"@.len() != "/api/model"@.len());
            assert("/api/silence-tail"@.len() != "/api/download-model"@.len());
            assert("/api/silence-tail"@.len() != "/api/threshold"@.len());
        },
        Route::Pause => {
            assert("/api/pause"@.len() != "/api/listen"@.len());
            assert("/api/pause"@[5] != "/api/model"@[5]);
            assert("/api/pause"@.len() != "/api/download-model"@.len());
            assert("/api/pause"@.len() != "/api/threshold"@.len());
            assert("/api/pause"@.len() != "/api/silence-tail"@.len());
        },
        Route::Resume => {
            assert("/api/resume"@[5] != "/api/listen"@[5]);
            assert("/api/resume"@.len() != "/api/model"@.len());
            assert("/api/resume"@.len() != "/api/download-model"@.len());
            assert("/api/resume"@.len() != "/api/threshold"@.len());
            assert("/api/resume"@.len() != "/api/silence-tail"@.len());
            assert("/api/resume"@.len() != "/api/pause"@.len());
        },
        Route::CloneStatus => {
            assert("/api/clone/status"@.len() != "/"@.len());
            assert("/api/clone/status"@.len() != "/index.html"@.len());
            assert("/api/clone/status"@.take(5)[1] != "/pkg/"@[1]);
            assert("/api/clone/status"@.len() != "/api/status"@.len());
            assert("/api/clone/status"@.len() != "/api/models"@.len());
        },
        Route::CloneReference => {
            assert("/api/clone/reference"@.len() != "/api/listen"@.len());
            assert("/api/clone/reference"@.len() != "/api/model"@.len());
            assert("/api/clone/reference"@.len() != "/api/download-model"@.len());
            assert("/api/clone/reference"@.len() != "/api/threshold"@.len());
            assert("/api/clone/reference"@.len() != "/api/silence-tail"@.len());
            assert("/api/clone/reference"@.len() != "/api/pause"@.len());
            assert("/api/clone/reference"@.len() != "/api/resume"@.len());
        },
        Route::CloneSynthesize => {
            assert("/api/clone/synthesize"@.len() != "/api/listen"@.len());
            assert("/api/clone/synthesize"@.len() != "/api/model"@.len());
            assert("/api/clone/synthesize"@.len() != "/api/download-model"@.len());
            assert("/api/clone/synthesize"@.len() != "/api/threshold"@.len());
            assert("/api/clone/synthesize"@.len() != "/api/silence-tail"@.len());
            assert("/api/clone/synthesize"@.len() != "/api/pause"@.len());
            assert("/api/clone/synthesize"@.len() != "/api/resume"@.len());
            assert("/api/clone/synthesize"@.len() != "/api/clone/reference"@.len());
        },
        Route::TtsModels => {
            assert("/api/tts/models"@.len() != "/"@.len());
            assert("/api/tts/models"@.len() != "/index.html"@.len());
            assert("/api/tts/models"@.take(5)[1] != "/pkg/"@[1]);
            assert("/api/tts/models"@.len() != "/api/status"@.len());
            assert("/api/tts/models"@.len() != "/api/models"@.len());
            assert("/api/tts/models"@.len() != "/api/clone/status"@.len());
        },
        Route::TtsSelectModel => {
            assert("/api/tts/model"@.len() != "/api/listen"@.len());
            assert("/api/tts/model"@.len() != "/api/model"@.len());
            assert("/api/tts/model"@.len() != "/api/download-model"@.len());
            assert("/api/tts/model"@[6] != "/api/threshold"@[6]);
            assert("/api/tts/model"@.len() != "/api/silence-tail"@.len());
            assert("/api/tts/model"@.len() != "/api/pause"@.len());
            assert("/api/tts/model"@.len() != "/api/resume"@.len());
            assert("/api/tts/model"@.len() != "/api/clone/reference"@.len());
            assert("/api/tts/model"@.len() != "/api/clone/synthesize"@.len());
        },
        Route::TtsDownloadModel => {
            assert("/api/tts/download-model"@.len() != "/api/listen"@.len());
            assert("/api/tts/download-model"@.len() != "/api/model"@.len());
            assert("/api/tts/download-model"@.len() != "/api/download-model"@.len());
            assert("/api/tts/download-model"@.len() != "/api/threshold"@.len());
            assert("/api/tts/download-model"@.len() != "/api/silence-tail"@.len());
            assert("/api/tts/download-model"@.len() != "/api/pause"@.len());
            assert("/api/tts/download-model"@.len() != "/api/resume"@.len());
            assert("/api/tts/download-model"@.len() != "/api/clone/reference"@.len());
            assert("/api/tts/download-model"@.len() != "/api/clone/synthesize"@.len());
            assert("/api/tts/download-model"@.len() != "/api/tts/model"@.len());
        },
        Route::TtsSynthesize => {
            assert("/api/tts/synthesize"@.len() != "/api/listen"@.len());
            assert("/api/tts/synthesize"@.len() != "/api/model"@.len());
            assert("/api/tts/synthesize"@[5] != "/api/download-model"@[5]);
            assert("/api/tts/synthesize"@.len() != "/api/threshold"@.len());
            assert("/api/tts/synthesize"@.len() != "/api/silence-tail"@.len());
            assert("/api/tts/synthesize"@.len() != "/api/pause"@.len());
            assert("/api/tts/synthesize"@.len() != "/api/resume"@.len());
            assert("/api/tts/synthesize"@.len() != "/api/clone/reference"@.len());
            assert("/api/tts/synthesize"@.len() != "/api/clone/synthesize"@.len());
            assert("/api/tts/synthesize"@.len() != "/api/tts/model"@.len());
            assert("/api/tts/synthesize"@.len() != "/api/tts/download-model"@.len());
        },
        Route::TranscribeFile => {
            assert("/api/transcribe-file"@.len() != "/api/listen"@.len());
            assert("/api/transcribe-file"@.len() != "/api/model"@.len());
            assert("/api/transcribe-file"@.len() != "/api/download-model"@.len());
            assert("/api/transcribe-file"@.len() != "/api/threshold"@.len());
            assert("/api/transcribe-file"@.len() != "/api/silence-tail"@.len());
            assert("/api/transcribe-file"@.len() != "/api/pause"@.len());
            assert("/api/transcribe-file"@.len() != "/api/resume"@.len());
            assert("/api/transcribe-file"@[5] != "/api/clone/reference"@[5]);
            assert("/api/transcribe-file"@.len() != "/api/clone/synthesize"@.len());
            assert("/api/transcribe-file"@.len() != "/api/tts/model"@.len());
            assert("/api/transcribe-file"@.len() != "/api/tts/download-model"@.len());
            assert("/api/transcribe-file"@.len() != "/api/tts/synthesize"@.len());
        },
        Route::NotFound => {},
    }
}

} // verus!
