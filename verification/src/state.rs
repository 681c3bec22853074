//! The server's shared state: what the microphone loop reports, which checkpoint and voice
//! are selected, the downloads in progress, and the flags that keep listening exclusive.
//!
//! Fractional settings are held as integers: levels and the voice threshold in
//! hundred-thousandths, the silence tail in milliseconds, download progress in tenths of a
//! percent.

use vstd::prelude::*;
use crate::catalog::default_tts_model_spec;
use crate::catalog::default_tts_model;

verus! {

/// One unit of level or threshold: a level of 1.0 is `LEVEL_SCALE`.
pub const LEVEL_SCALE: u32 = 100000;

/// Lowest voice threshold (0.001).
pub const MIN_VOICE_THRESHOLD: u32 = 100;

/// Highest voice threshold (0.1).
pub const MAX_VOICE_THRESHOLD: u32 = 10000;

/// Voice threshold before any is set (0.08).
pub const DEFAULT_VOICE_THRESHOLD: u32 = 8000;

/// Shortest silence tail, in milliseconds.
pub const MIN_SILENCE_TAIL_MS: u32 = 1000;

/// Longest silence tail, in milliseconds.
pub const MAX_SILENCE_TAIL_MS: u32 = 5000;

/// Silence tail before any is set, in milliseconds.
pub const DEFAULT_SILENCE_TAIL_MS: u32 = 1500;

/// A finished download, in tenths of a percent.
pub const FULL_PROGRESS: u32 = 1000;

/// What the listening loop is doing.
#[derive(Clone, Copy, Debug, PartialEq, Eq, Structural)]
pub enum AssistantStatus {
    Idle,
    Waiting,
    Speaking,
    Transcribing,
}

/// The name the status API reports for a status.
pub open spec fn status_name(s: AssistantStatus) -> Seq<char> {
    match s {
        AssistantStatus::Idle => "idle"@,
        AssistantStatus::Waiting => "waiting"@,
        AssistantStatus::Speaking => "speaking"@,
        AssistantStatus::Transcribing => "transcribing"@,
    }
}

impl AssistantStatus {
    /// The name the status API reports for this status.
    pub fn as_str(self) -> (r: &'static str)
        ensures
            r@ == status_name(self),
    {
        match self {
            AssistantStatus::Idle => "idle",
            AssistantStatus::Waiting => "waiting",
            AssistantStatus::Speaking => "speaking",
            AssistantStatus::Transcribing => "transcribing",
        }
    }
}

/// The sample encodings an input device may deliver.
#[derive(Clone, Copy, Debug, PartialEq, Eq, Structural)]
pub enum InputSampleFormat {
    F32,
    I16,
    U16,
    Other,
}

/// The microphone side of the state.
pub struct AssistantState {
    pub status: AssistantStatus,
    pub level: u32,
    pub left_level: u32,
    pub right_level: u32,
    pub channels: u16,
    pub sample_rate: u32,
    pub bits_per_sample: u16,
    pub sample_format: String,
    pub device_name: String,
    pub voice_threshold: u32,
    pub silence_tail_ms: u32,
}

/// A checkpoint or voice download.
pub struct DownloadState {
    pub model: String,
    pub progress: u32,
    pub active: bool,
    pub error: Option<String>,
}

/// Everything the request handlers share.
pub struct ServerState {
    pub assistant: AssistantState,
    pub current_model: String,
    pub download: Option<DownloadState>,
    pub current_tts_model: String,
    pub tts_download: Option<DownloadState>,
    pub listening_active: bool,
    pub upload_pending: bool,
    pub hearing_paused: bool,
    pub piper_installing: bool,
    pub piper_install_error: Option<String>,
    pub f5_installing: bool,
    pub f5_install_error: Option<String>,
    pub clone_synthesizing: bool,
}

pub struct AssistantView {
    pub status: AssistantStatus,
    pub level: u32,
    pub left_level: u32,
    pub right_level: u32,
    pub channels: u16,
    pub sample_rate: u32,
    pub bits_per_sample: u16,
    pub sample_format: Seq<char>,
    pub device_name: Seq<char>,
    pub voice_threshold: u32,
    pub silence_tail_ms: u32,
}

pub struct DownloadView {
    pub model: Seq<char>,
    pub progress: u32,
    pub active: bool,
    pub error: Option<Seq<char>>,
}

pub struct ServerView {
    pub assistant: AssistantView,
    pub current_model: Seq<char>,
    pub download: Option<DownloadView>,
    pub current_tts_model: Seq<char>,
    pub tts_download: Option<DownloadView>,
    pub listening_active: bool,
    pub upload_pending: bool,
    pub hearing_paused: bool,
    pub piper_installing: bool,
    pub piper_install_error: Option<Seq<char>>,
    pub f5_installing: bool,
    pub f5_install_error: Option<Seq<char>>,
    pub clone_synthesizing: bool,
}

pub open spec fn opt_view(o: Option<String>) -> Option<Seq<char>> {
    match o {
        Some(s) => Some(s@),
        None => None,
    }
}

impl AssistantState {
    pub open spec fn view(&self) -> AssistantView {
        AssistantView {
            status: self.status,
            level: self.level,
            left_level: self.left_level,
            right_level: self.right_level,
            channels: self.channels,
            sample_rate: self.sample_rate,
            bits_per_sample: self.bits_per_sample,
            sample_format: self.sample_format@,
            device_name: self.device_name@,
            voice_threshold: self.voice_threshold,
            silence_tail_ms: self.silence_tail_ms,
        }
    }
}

impl DownloadState {
    pub open spec fn view(&self) -> DownloadView {
        DownloadView {
            model: self.model@,
            progress: self.progress,
            active: self.active,
            error: opt_view(self.error),
        }
    }

    /// A copy of this download's state.
    pub fn duplicate(&self) -> (r: DownloadState)
        ensures
            r.view() == self.view(),
    {
        DownloadState {
            model: self.model.clone(),
            progress: self.progress,
            active: self.active,
            error: match &self.error {
                Some(e) => Some(e.clone()),
                None => None,
            },
        }
    }
}

pub open spec fn download_view(d: Option<DownloadState>) -> Option<DownloadView> {
    match d {
        Some(s) => Some(s.view()),
        None => None,
    }
}

impl ServerState {
    pub open spec fn view(&self) -> ServerView {
        ServerView {
            assistant: self.assistant.view(),
            current_model: self.current_model@,
            download: download_view(self.download),
            current_tts_model: self.current_tts_model@,
            tts_download: download_view(self.tts_download),
            listening_active: self.listening_active,
            upload_pending: self.upload_pending,
            hearing_paused: self.hearing_paused,
            piper_installing: self.piper_installing,
            piper_install_error: opt_view(self.piper_install_error),
            f5_installing: self.f5_installing,
            f5_install_error: opt_view(self.f5_install_error),
            clone_synthesizing: self.clone_synthesizing,
        }
    }

    /// The state the server starts in.
    pub fn new() -> (r: ServerState)
        ensures
            r@ == initial_view(),
            r@.wf(),
    {
        ServerState {
            assistant: AssistantState {
                status: AssistantStatus::Idle,
                level: 0,
                left_level: 0,
                right_level: 0,
                channels: 1,
                sample_rate: 0,
                bits_per_sample: 16,
                sample_format: String::from_str("unknown"),
                device_name: String::from_str("unknown input"),
                voice_threshold: DEFAULT_VOICE_THRESHOLD,
                silence_tail_ms: DEFAULT_SILENCE_TAIL_MS,
            },
            current_model: String::from_str("tiny.en"),
            download: None,
            current_tts_model: default_tts_model(),
            tts_download: None,
            listening_active: false,
            upload_pending: false,
            hearing_paused: false,
            piper_installing: false,
            piper_install_error: None,
            f5_installing: false,
            f5_install_error: None,
            clone_synthesizing: false,
        }
    }
}

/// The state the server starts in.
pub open spec fn initial_view() -> ServerView {
    ServerView {
        assistant: AssistantView {
            status: AssistantStatus::Idle,
            level: 0,
            left_level: 0,
            right_level: 0,
            channels: 1,
            sample_rate: 0,
            bits_per_sample: 16,
            sample_format: "unknown"@,
            device_name: "unknown input"@,
            voice_threshold: DEFAULT_VOICE_THRESHOLD,
            silence_tail_ms: DEFAULT_SILENCE_TAIL_MS,
        },
        current_model: "tiny.en"@,
        download: None,
        current_tts_model: default_tts_model_spec(),
        tts_download: None,
        listening_active: false,
        upload_pending: false,
        hearing_paused: false,
        piper_installing: false,
        piper_install_error: None,
        f5_installing: false,
        f5_install_error: None,
        clone_synthesizing: false,
    }
}

pub open spec fn download_wf(d: Option<DownloadView>) -> bool {
    d matches Some(x) ==> x.progress <= FULL_PROGRESS
}

impl ServerView {
    /// Every level is within 0..=1, the threshold and tail within their ranges, there is at
    /// least one channel, and download progress is at most 100 %.
    pub open spec fn wf(self) -> bool {
        &&& self.assistant.level <= LEVEL_SCALE
        &&& self.assistant.left_level <= LEVEL_SCALE
        &&& self.assistant.right_level <= LEVEL_SCALE
        &&& self.assistant.channels >= 1
        &&& MIN_VOICE_THRESHOLD <= self.assistant.voice_threshold <= MAX_VOICE_THRESHOLD
        &&& MIN_SILENCE_TAIL_MS <= self.assistant.silence_tail_ms <= MAX_SILENCE_TAIL_MS
        &&& download_wf(self.download)
        &&& download_wf(self.tts_download)
    }
}

/// `v` clamped into `lo..=hi`.
pub open spec fn clamp(v: int, lo: int, hi: int) -> int {
    if v < lo {
        lo
    } else if v > hi {
        hi
    } else {
        v
    }
}

fn clamp_i64(v: i64, lo: u32, hi: u32) -> (r: u32)
    requires
        lo <= hi,
    ensures
        r == clamp(v as int, lo as int, hi as int),
{
    if v < lo as i64 {
        lo
    } else if v > hi as i64 {
        hi
    } else {
        v as u32
    }
}

// ---------------------------------------------------------------- transitions, as views

pub open spec fn with_status(v: ServerView, status: AssistantStatus) -> ServerView {
    ServerView { assistant: AssistantView { status, ..v.assistant }, ..v }
}

pub open spec fn with_level(v: ServerView, level: int) -> ServerView {
    let l = clamp(level, 0, LEVEL_SCALE as int) as u32;
    ServerView { assistant: AssistantView { level: l, left_level: l, right_level: 0, ..v.assistant }, ..v }
}

pub open spec fn with_levels(v: ServerView, combined: int, left: int, right: int) -> ServerView {
    ServerView {
        assistant: AssistantView {
            level: clamp(combined, 0, LEVEL_SCALE as int) as u32,
            left_level: clamp(left, 0, LEVEL_SCALE as int) as u32,
            right_level: clamp(right, 0, LEVEL_SCALE as int) as u32,
            ..v.assistant
        },
        ..v
    }
}

pub open spec fn with_voice_threshold(v: ServerView, t: int) -> ServerView {
    ServerView {
        assistant: AssistantView {
            voice_threshold: clamp(t, MIN_VOICE_THRESHOLD as int, MAX_VOICE_THRESHOLD as int) as u32,
            ..v.assistant
        },
        ..v
    }
}

pub open spec fn with_silence_tail(v: ServerView, ms: int) -> ServerView {
    ServerView {
        assistant: AssistantView {
            silence_tail_ms: clamp(ms, MIN_SILENCE_TAIL_MS as int, MAX_SILENCE_TAIL_MS as int) as u32,
            ..v.assistant
        },
        ..v
    }
}

pub open spec fn with_current_model(v: ServerView, m: Seq<char>) -> ServerView {
    ServerView { current_model: m, ..v }
}

pub open spec fn with_current_tts_model(v: ServerView, m: Seq<char>) -> ServerView {
    ServerView { current_tts_model: m, ..v }
}

pub open spec fn download_record(m: Seq<char>, progress: u32, active: bool, error: Option<Seq<char>>) -> DownloadView {
    DownloadView { model: m, progress, active, error }
}

/// A checkpoint download begins: the listener shows idle and silent.
pub open spec fn download_started(v: ServerView, m: Seq<char>) -> ServerView {
    ServerView {
        download: Some(download_record(m, 0, true, None)),
        ..with_level(with_status(v, AssistantStatus::Idle), 0)
    }
}

/// Progress of the download of `m`, if that is the one on record.
pub open spec fn download_progressed(d: Option<DownloadView>, m: Seq<char>, progress: int) -> Option<DownloadView> {
    match d {
        Some(x) => if x.model == m {
            Some(DownloadView { progress: clamp(progress, 0, FULL_PROGRESS as int) as u32, ..x })
        } else {
            d
        },
        None => None,
    }
}

/// A checkpoint download completed: it becomes the selected checkpoint.
pub open spec fn download_finished(v: ServerView, m: Seq<char>) -> ServerView {
    ServerView {
        current_model: m,
        download: Some(download_record(m, FULL_PROGRESS, false, None)),
        ..v
    }
}

pub open spec fn download_failed(v: ServerView, m: Seq<char>, e: Seq<char>) -> ServerView {
    ServerView { download: Some(download_record(m, 0, false, Some(e))), ..v }
}

pub open spec fn tts_download_started(v: ServerView, m: Seq<char>) -> ServerView {
    ServerView { tts_download: Some(download_record(m, 0, true, None)), ..v }
}

/// A voice download completed: it becomes the selected voice.
pub open spec fn tts_download_finished(v: ServerView, m: Seq<char>) -> ServerView {
    ServerView {
        current_tts_model: m,
        tts_download: Some(download_record(m, FULL_PROGRESS, false, None)),
        ..v
    }
}

pub open spec fn tts_download_failed(v: ServerView, m: Seq<char>, e: Seq<char>) -> ServerView {
    ServerView { tts_download: Some(download_record(m, 0, false, Some(e))), ..v }
}

/// Whether a download is running.
pub open spec fn download_active(d: Option<DownloadView>) -> bool {
    d matches Some(x) && x.active
}

/// Listening may start: no upload waits, hearing is not paused, no checkpoint download
/// runs, and the selected checkpoint is on disk.
pub open spec fn listening_available_spec(v: ServerView, current_model_available: bool) -> bool {
    !v.upload_pending && !v.hearing_paused && !download_active(v.download) && current_model_available
}

// ---------------------------------------------------------------- operations

/// The selected checkpoint.
pub fn current_model_cell(state: &ServerState) -> (r: &String)
    ensures
        r@ == state@.current_model,
{
    &state.current_model
}

/// Selects checkpoint `model`.
pub fn set_current_model(state: &mut ServerState, model: &str)
    ensures
        final(state)@ == with_current_model(old(state)@, model@),
{
    state.current_model = String::from_str(model);
}

/// The selected checkpoint.
pub fn get_current_model(state: &ServerState) -> (r: String)
    ensures
        r@ == state@.current_model,
{
    state.current_model.clone()
}

/// The checkpoint download on record.
pub fn download_state(state: &ServerState) -> (r: Option<DownloadState>)
    ensures
        download_view(r) == state@.download,
{
    match &state.download {
        Some(d) => Some(d.duplicate()),
        None => None,
    }
}

/// Sets what the listener is doing.
pub fn set_assistant_status(state: &mut ServerState, status: AssistantStatus)
    ensures
        final(state)@ == with_status(old(state)@, status),
{
    state.assistant.status = status;
}

/// Sets the input level (one channel), clamped to 0..=1.
pub fn set_assistant_level(state: &mut ServerState, level: i64)
    ensures
        final(state)@ == with_level(old(state)@, level as int),
{
    let l = clamp_i64(level, 0, LEVEL_SCALE);
    state.assistant.level = l;
    state.assistant.left_level = l;
    state.assistant.right_level = 0;
}

/// Sets the combined, left and right input levels, each clamped to 0..=1.
pub fn set_assistant_levels(state: &mut ServerState, combined: i64, left: i64, right: i64)
    ensures
        final(state)@ == with_levels(old(state)@, combined as int, left as int, right as int),
{
    state.assistant.level = clamp_i64(combined, 0, LEVEL_SCALE);
    state.assistant.left_level = clamp_i64(left, 0, LEVEL_SCALE);
    state.assistant.right_level = clamp_i64(right, 0, LEVEL_SCALE);
}

/// The bits per sample reported for an input encoding.
pub open spec fn format_bits(f: InputSampleFormat) -> u16 {
    match f {
        InputSampleFormat::F32 => 32,
        InputSampleFormat::I16 => 16,
        InputSampleFormat::U16 => 16,
        InputSampleFormat::Other => 0,
    }
}

/// The encoding name reported for an input encoding.
pub open spec fn format_name(f: InputSampleFormat) -> Seq<char> {
    match f {
        InputSampleFormat::F32 => "float"@,
        InputSampleFormat::I16 => "signed int"@,
        InputSampleFormat::U16 => "unsigned int"@,
        InputSampleFormat::Other => "unknown"@,
    }
}

/// Records the input device: its channel count (at least one), sample rate, encoding and
/// name.
pub fn set_assistant_device(
    state: &mut ServerState,
    channels: u16,
    sample_rate: u32,
    format: InputSampleFormat,
    device_name: String,
)
    ensures
        final(state)@ == (ServerView {
            assistant: AssistantView {
                channels: if channels >= 1 { channels } else { 1 },
                sample_rate,
                bits_per_sample: format_bits(format),
                sample_format: format_name(format),
                device_name: device_name@,
                ..old(state)@.assistant
            },
            ..old(state)@
        }),
{
    state.assistant.channels = if channels >= 1 { channels } else { 1 };
    state.assistant.sample_rate = sample_rate;
    state.assistant.bits_per_sample = match format {
        InputSampleFormat::F32 => 32,
        InputSampleFormat::I16 => 16,
        InputSampleFormat::U16 => 16,
        InputSampleFormat::Other => 0,
    };
    state.assistant.sample_format = String::from_str(
        match format {
            InputSampleFormat::F32 => "float",
            InputSampleFormat::I16 => "signed int",
            InputSampleFormat::U16 => "unsigned int",
            InputSampleFormat::Other => "unknown",
        },
    );
    state.assistant.device_name = device_name;
}

/// Sets the voice threshold, clamped to 0.001..=0.1.
pub fn set_voice_threshold(state: &mut ServerState, threshold: i64)
    ensures
        final(state)@ == with_voice_threshold(old(state)@, threshold as int),
{
    state.assistant.voice_threshold = clamp_i64(threshold, MIN_VOICE_THRESHOLD, MAX_VOICE_THRESHOLD);
}

/// Sets the silence tail, clamped to 1..=5 seconds.
pub fn set_silence_tail(state: &mut ServerState, silence_tail_ms: i64)
    ensures
        final(state)@ == with_silence_tail(old(state)@, silence_tail_ms as int),
{
    state.assistant.silence_tail_ms = clamp_i64(silence_tail_ms, MIN_SILENCE_TAIL_MS, MAX_SILENCE_TAIL_MS);
}

/// The voice threshold.
pub fn get_voice_threshold(state: &ServerState) -> (r: u32)
    ensures
        r == state@.assistant.voice_threshold,
{
    state.assistant.voice_threshold
}

/// The silence tail in milliseconds.
pub fn get_silence_tail(state: &ServerState) -> (r: u32)
    ensures
        r == state@.assistant.silence_tail_ms,
{
    state.assistant.silence_tail_ms
}

/// Pauses or resumes hearing.
pub fn set_hearing_paused(state: &mut ServerState, paused: bool)
    ensures
        final(state)@ == (ServerView { hearing_paused: paused, ..old(state)@ }),
{
    state.hearing_paused = paused;
}

/// Records that a checkpoint download began.
pub fn set_download_started(state: &mut ServerState, model: &str)
    ensures
        final(state)@ == download_started(old(state)@, model@),
{
    set_assistant_status(state, AssistantStatus::Idle);
    set_assistant_level(state, 0);
    state.download = Some(DownloadState { model: String::from_str(model), progress: 0, active: true, error: None });
}

/// Records download progress for `model`, clamped to 100 %; ignored when another
/// checkpoint's download is on record.
pub fn set_download_progress(state: &mut ServerState, model: &str, progress: i64)
    ensures
        final(state)@ == (ServerView {
            download: download_progressed(old(state)@.download, model@, progress as int),
            ..old(state)@
        }),
{
    let m = String::from_str(model);
    match &mut state.download {
        Some(d) => {
            if d.model == m {
                d.progress = clamp_i64(progress, 0, FULL_PROGRESS);
            }
        },
        None => {},
    }
}

/// Records that the download of `model` completed, and selects it.
pub fn set_download_finished(state: &mut ServerState, model: &str)
    ensures
        final(state)@ == download_finished(old(state)@, model@),
{
    set_current_model(state, model);
    state.download = Some(DownloadState { model: String::from_str(model), progress: FULL_PROGRESS, active: false, error: None });
}

/// Records that the download of `model` failed with `error`.
pub fn set_download_error(state: &mut ServerState, model: &str, error: String)
    ensures
        final(state)@ == download_failed(old(state)@, model@, error@),
{
    state.download = Some(DownloadState { model: String::from_str(model), progress: 0, active: false, error: Some(error) });
}

/// Whether the listening loop may run, given whether the selected checkpoint is on disk.
pub fn listening_is_available(state: &ServerState, current_model_available: bool) -> (r: bool)
    ensures
        r == listening_available_spec(state@, current_model_available),
{
    if state.upload_pending {
        return false;
    }
    if state.hearing_paused {
        return false;
    }
    match &state.download {
        Some(d) => {
            if d.active {
                return false;
            }
        },
        None => {},
    }
    current_model_available
}

/// The selected voice.
pub fn current_tts_model_cell(state: &ServerState) -> (r: &String)
    ensures
        r@ == state@.current_tts_model,
{
    &state.current_tts_model
}

/// Selects voice `model`.
pub fn set_current_tts_model(state: &mut ServerState, model: &str)
    ensures
        final(state)@ == with_current_tts_model(old(state)@, model@),
{
    state.current_tts_model = String::from_str(model);
}

/// The selected voice.
pub fn get_current_tts_model(state: &ServerState) -> (r: String)
    ensures
        r@ == state@.current_tts_model,
{
    state.current_tts_model.clone()
}

/// The voice download on record.
pub fn tts_download_state(state: &ServerState) -> (r: Option<DownloadState>)
    ensures
        download_view(r) == state@.tts_download,
{
    match &state.tts_download {
        Some(d) => Some(d.duplicate()),
        None => None,
    }
}

/// Records that a voice download began.
pub fn set_tts_download_started(state: &mut ServerState, model: &str)
    ensures
        final(state)@ == tts_download_started(old(state)@, model@),
{
    state.tts_download = Some(DownloadState { model: String::from_str(model), progress: 0, active: true, error: None });
}

/// Records voice download progress for `model`, clamped to 100 %; ignored when another
/// voice's download is on record.
pub fn set_tts_download_progress(state: &mut ServerState, model: &str, progress: i64)
    ensures
        final(state)@ == (ServerView {
            tts_download: download_progressed(old(state)@.tts_download, model@, progress as int),
            ..old(state)@
        }),
{
    let m = String::from_str(model);
    match &mut state.tts_download {
        Some(d) => {
            if d.model == m {
                d.progress = clamp_i64(progress, 0, FULL_PROGRESS);
            }
        },
        None => {},
    }
}

/// Records that the download of voice `model` completed, and selects it.
pub fn set_tts_download_finished(state: &mut ServerState, model: &str)
    ensures
        final(state)@ == tts_download_finished(old(state)@, model@),
{
    set_current_tts_model(state, model);
    state.tts_download = Some(DownloadState { model: String::from_str(model), progress: FULL_PROGRESS, active: false, error: None });
}

/// Records that the download of voice `model` failed with `error`.
pub fn set_tts_download_error(state: &mut ServerState, model: &str, error: String)
    ensures
        final(state)@ == tts_download_failed(old(state)@, model@, error@),
{
    state.tts_download = Some(DownloadState { model: String::from_str(model), progress: 0, active: false, error: Some(error) });
}

/// The piper installation error on record.
pub fn piper_install_error_cell(state: &ServerState) -> (r: &Option<String>)
    ensures
        opt_view(*r) == state@.piper_install_error,
{
    &state.piper_install_error
}

/// Records (or clears) the piper installation error.
pub fn set_piper_install_error(state: &mut ServerState, error: Option<String>)
    ensures
        final(state)@ == (ServerView { piper_install_error: opt_view(error), ..old(state)@ }),
{
    state.piper_install_error = error;
}

/// The piper installation error on record.
pub fn get_piper_install_error(state: &ServerState) -> (r: Option<String>)
    ensures
        opt_view(r) == state@.piper_install_error,
{
    match &state.piper_install_error {
        Some(e) => Some(e.clone()),
        None => None,
    }
}

/// The f5-tts installation error on record.
pub fn f5_install_error_cell(state: &ServerState) -> (r: &Option<String>)
    ensures
        opt_view(*r) == state@.f5_install_error,
{
    &state.f5_install_error
}

/// Records (or clears) the f5-tts installation error.
pub fn set_f5_install_error(state: &mut ServerState, error: Option<String>)
    ensures
        final(state)@ == (ServerView { f5_install_error: opt_view(error), ..old(state)@ }),
{
    state.f5_install_error = error;
}

/// The f5-tts installation error on record.
pub fn get_f5_install_error(state: &ServerState) -> (r: Option<String>)
    ensures
        opt_view(r) == state@.f5_install_error,
{
    match &state.f5_install_error {
        Some(e) => Some(e.clone()),
        None => None,
    }
}

/// Claiming the listener: it succeeds when the listener is free, and leaves it busy.
pub open spec fn listen_claim(v: ServerView) -> (bool, ServerView) {
    (!v.listening_active, ServerView { listening_active: true, ..v })
}

/// Releasing the listener.
pub open spec fn listen_release(v: ServerView) -> ServerView {
    ServerView { listening_active: false, ..v }
}

/// Claims the listener: succeeds, and marks it busy, only when it is free.
pub fn begin_exclusive_listen(state: &mut ServerState) -> (r: bool)
    ensures
        (r, final(state)@) == listen_claim(old(state)@),
{
    if state.listening_active {
        false
    } else {
        state.listening_active = true;
        true
    }
}

/// Releases the listener.
pub fn end_exclusive_listen(state: &mut ServerState)
    ensures
        final(state)@ == listen_release(old(state)@),
{
    state.listening_active = false;
}

/// An upload announces itself, so that the listening loop yields.
pub fn begin_upload(state: &mut ServerState)
    ensures
        final(state)@ == (ServerView { upload_pending: true, ..old(state)@ }),
{
    state.upload_pending = true;
}

/// What claiming the listener for an upload does to the state.
pub open spec fn upload_claimed(v: ServerView) -> ServerView {
    if v.listening_active {
        ServerView { upload_pending: false, ..v }
    } else {
        ServerView { listening_active: true, ..v }
    }
}

/// Whether an upload's claim of the listener succeeds.
pub open spec fn upload_claim_succeeds(v: ServerView) -> bool {
    !v.listening_active
}

/// Claims the listener for an upload; when it is still busy the upload gives up and
/// withdraws its announcement.
pub fn claim_listener_for_upload(state: &mut ServerState) -> (r: bool)
    ensures
        r == upload_claim_succeeds(old(state)@),
        final(state)@ == upload_claimed(old(state)@),
{
    if state.listening_active {
        state.upload_pending = false;
        false
    } else {
        state.listening_active = true;
        true
    }
}

/// What finishing an upload does to the state.
pub open spec fn upload_finished(v: ServerView) -> ServerView {
    with_level(
        with_status(ServerView { listening_active: false, upload_pending: false, ..v }, AssistantStatus::Idle),
        0,
    )
}

/// An upload is done: the listener is free, no upload waits, and the listener shows idle.
pub fn finish_upload(state: &mut ServerState)
    ensures
        final(state)@ == upload_finished(old(state)@),
{
    state.listening_active = false;
    state.upload_pending = false;
    set_assistant_status(state, AssistantStatus::Idle);
    set_assistant_level(state, 0);
}

/// Records whether piper is being installed.
pub fn set_piper_installing(state: &mut ServerState, installing: bool)
    ensures
        final(state)@ == (ServerView { piper_installing: installing, ..old(state)@ }),
{
    state.piper_installing = installing;
}

/// Records whether f5-tts is being installed.
pub fn set_f5_installing(state: &mut ServerState, installing: bool)
    ensures
        final(state)@ == (ServerView { f5_installing: installing, ..old(state)@ }),
{
    state.f5_installing = installing;
}

/// Records whether a cloned-voice synthesis runs.
pub fn set_clone_synthesizing(state: &mut ServerState, synthesizing: bool)
    ensures
        final(state)@ == (ServerView { clone_synthesizing: synthesizing, ..old(state)@ }),
{
    state.clone_synthesizing = synthesizing;
}

/// What a request to download a checkpoint or voice came to.
#[derive(Clone, Copy, Debug, PartialEq, Eq, Structural)]
pub enum DownloadStart {
    /// It is on disk already; it is now selected.
    AlreadyAvailable,
    /// Another download runs; nothing changed.
    AlreadyRunning,
    /// The download is recorded as begun; the caller fetches it.
    Started,
}

/// What a checkpoint download request does, given whether `m` is on disk.
pub open spec fn model_download_start(v: ServerView, m: Seq<char>, available: bool) -> (DownloadStart, ServerView) {
    if available {
        (DownloadStart::AlreadyAvailable, download_finished(v, m))
    } else if download_active(v.download) {
        (DownloadStart::AlreadyRunning, v)
    } else {
        (DownloadStart::Started, download_started(v, m))
    }
}

/// Handles a request to download checkpoint `model`: one on disk is selected at once, a
/// running download is left alone, otherwise the download is recorded as begun.
pub fn start_model_download(state: &mut ServerState, model: &str, available: bool) -> (r: DownloadStart)
    ensures
        (r, final(state)@) == model_download_start(old(state)@, model@, available),
{
    if available {
        set_download_finished(state, model);
        return DownloadStart::AlreadyAvailable;
    }
    match &state.download {
        Some(d) => {
            if d.active {
                return DownloadStart::AlreadyRunning;
            }
        },
        None => {},
    }
    set_download_started(state, model);
    DownloadStart::Started
}

/// A voice download that was begun, with the addresses to fetch.
pub struct TtsDownloadPlan {
    pub onnx_url: String,
    pub json_url: String,
}

/// What a voice download request does, given whether `m` is on disk.
pub open spec fn tts_download_start(v: ServerView, m: Seq<char>, available: bool) -> (Option<DownloadStart>, ServerView) {
    if available {
        (Some(DownloadStart::AlreadyAvailable), tts_download_finished(v, m))
    } else if download_active(v.tts_download) {
        (Some(DownloadStart::AlreadyRunning), v)
    } else if !crate::catalog::is_tts_model_option(m) {
        (None, v)
    } else {
        (Some(DownloadStart::Started), tts_download_started(v, m))
    }
}

/// Handles a request to download voice `model`: one on disk is selected at once, a running
/// download is left alone, an unknown voice is refused (`Err`), otherwise the download is
/// recorded as begun and the voice's addresses are returned.
pub fn start_tts_model_download(state: &mut ServerState, model: &str, available: bool) -> (r: Result<(DownloadStart, Option<TtsDownloadPlan>), ()>)
    ensures
        match r {
            Ok((s, plan)) => tts_download_start(old(state)@, model@, available) == (Some(s), final(state)@)
                && (plan is Some <==> s == DownloadStart::Started)
                && (plan matches Some(p) ==> exists|i: int| 0 <= i < crate::catalog::tts_catalog().len()
                    && crate::catalog::tts_catalog()[i].1 == model@
                    && crate::catalog::tts_catalog()[i].3 == p.onnx_url@
                    && crate::catalog::tts_catalog()[i].4 == p.json_url@
                    && forall|j: int| 0 <= j < i ==> #[trigger] crate::catalog::tts_catalog()[j].1 != model@),
            Err(()) => tts_download_start(old(state)@, model@, available) == (None::<DownloadStart>, final(state)@),
        },
{
    if available {
        set_tts_download_finished(state, model);
        return Ok((DownloadStart::AlreadyAvailable, None));
    }
    match &state.tts_download {
        Some(d) => {
            if d.active {
                return Ok((DownloadStart::AlreadyRunning, None));
            }
        },
        None => {},
    }
    let options = crate::catalog::tts_model_options();
    match crate::catalog::find_tts_model_option(&options, model) {
        None => {
            proof {
                if crate::catalog::is_tts_model_option(model@) {
                    let i = choose|i: int| 0 <= i < crate::catalog::tts_catalog().len() && #[trigger] crate::catalog::tts_catalog()[i].1 == model@;
                    assert(options@[i].view() == crate::catalog::tts_catalog()[i]);
                }
            }
            Err(())
        },
        Some(i) => {
            let onnx_url = options[i].onnx_url.clone();
            let json_url = options[i].json_url.clone();
            proof {
                assert(options@[i as int].view() == crate::catalog::tts_catalog()[i as int]);
                assert(crate::catalog::tts_catalog()[i as int].1 == model@);
                assert(crate::catalog::is_tts_model_option(model@));
                assert forall|j: int| 0 <= j < i implies #[trigger] crate::catalog::tts_catalog()[j].1 != model@ by {
                    assert(options@[j].view() == crate::catalog::tts_catalog()[j]);
                }
            }
            set_tts_download_started(state, model);
            Ok((DownloadStart::Started, Some(TtsDownloadPlan { onnx_url, json_url })))
        },
    }
}

/// Every operation on the state keeps it well formed: levels, threshold and silence tail
/// stay in range, there is at least one input channel, and progress stays at most 100 %.
pub proof fn updates_keep_state_well_formed(
    v: ServerView,
    status: AssistantStatus,
    level: int,
    left: int,
    right: int,
    m: Seq<char>,
    e: Seq<char>,
    progress: int,
    available: bool,
)
    requires
        v.wf(),
    ensures
        with_status(v, status).wf(),
        with_level(v, level).wf(),
        with_levels(v, level, left, right).wf(),
        with_voice_threshold(v, level).wf(),
        with_silence_tail(v, level).wf(),
        with_current_model(v, m).wf(),
        with_current_tts_model(v, m).wf(),
        download_started(v, m).wf(),
        download_finished(v, m).wf(),
        download_failed(v, m, e).wf(),
        (ServerView { download: download_progressed(v.download, m, progress), ..v }).wf(),
        tts_download_started(v, m).wf(),
        tts_download_finished(v, m).wf(),
        tts_download_failed(v, m, e).wf(),
        (ServerView { tts_download: download_progressed(v.tts_download, m, progress), ..v }).wf(),
        upload_claimed(v).wf(),
        upload_finished(v).wf(),
        model_download_start(v, m, available).1.wf(),
        tts_download_start(v, m, available).1.wf(),
{
}

/// The listener is exclusive: once claimed, by the listening loop or by an upload, every
/// further claim fails until it is released; after release a claim succeeds.
pub proof fn listener_is_exclusive(v: ServerView)
    ensures
        listen_claim(v).0 ==> !listen_claim(listen_claim(v).1).0,
        listen_claim(v).0 ==> !upload_claim_succeeds(listen_claim(v).1),
        upload_claim_succeeds(v) ==> !listen_claim(upload_claimed(v)).0,
        upload_claim_succeeds(v) ==> !upload_claim_succeeds(upload_claimed(v)),
        listen_claim(listen_release(v)).0,
        upload_claim_succeeds(listen_release(v)),
{
}

/// While an upload waits, and while a checkpoint downloads, the listening loop may not
/// run.
pub proof fn uploads_and_downloads_stop_listening(v: ServerView, m: Seq<char>, available: bool)
    ensures
        !listening_available_spec(ServerView { upload_pending: true, ..v }, available),
        !listening_available_spec(download_started(v, m), available),
{
}


/// How many times an upload checks, 50 ms apart, whether the listener has finished before
/// it tries to claim it.
pub const UPLOAD_WAIT_POLLS: u32 = 200;

/// What an upload waiting for the listener does next.
#[derive(Clone, Copy, Debug, PartialEq, Eq, Structural)]
pub enum UploadWait {
    /// Wait 50 ms and look again.
    Wait,
    /// Try to claim the listener now.
    Claim,
}

/// The upload's next step after `polls` looks: claim once the listener is free or the looks
/// are used up, else wait.
pub fn upload_wait_step(state: &ServerState, polls: u32) -> (r: UploadWait)
    ensures
        r == (if !state@.listening_active || polls >= UPLOAD_WAIT_POLLS {
            UploadWait::Claim
        } else {
            UploadWait::Wait
        }),
{
    if !state.listening_active || polls >= UPLOAD_WAIT_POLLS {
        UploadWait::Claim
    } else {
        UploadWait::Wait
    }
}


/// A recorded download failure ends that download: afterwards no download of that kind is
/// running, the failure's model and message are on record, listening is possible again
/// unless an upload or a pause holds it, and the next download request starts a download.
pub proof fn failed_download_is_over(
    v: ServerView,
    m: Seq<char>,
    e: Seq<char>,
    next: Seq<char>,
    current_model_available: bool,
)
    ensures
        !download_active(download_failed(v, m, e).download),
        download_failed(v, m, e).download matches Some(d) && d.model == m && d.error == Some(e),
        listening_available_spec(download_failed(v, m, e), current_model_available) == (
        !v.upload_pending && !v.hearing_paused && current_model_available),
        model_download_start(download_failed(v, m, e), next, false).0 == DownloadStart::Started,
        !download_active(tts_download_failed(v, m, e).tts_download),
        tts_download_failed(v, m, e).tts_download matches Some(d) && d.model == m && d.error == Some(e),
        crate::catalog::is_tts_model_option(next) ==> tts_download_start(
            tts_download_failed(v, m, e),
            next,
            false,
        ).0 == Some(DownloadStart::Started),
{
}

} // verus!
