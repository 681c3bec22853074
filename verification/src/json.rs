//! The JSON documents the status, model and clone APIs answer with.

use vstd::prelude::*;
use crate::chars::{chars_of, string_from_chars};
use crate::escape::{json_escape_chars, json_escape_spec};
use crate::state::{
    status_name, ServerState, ServerView, DownloadView, opt_view,
};
use crate::catalog::{model_catalog, model_options, tts_catalog, tts_model_options};

verus! {

/// The decimal digit for `d < 10`.
pub open spec fn digit(d: int) -> char {
    (48 + d) as char
}

/// Decimal notation of `n`, without leading zeros.
pub open spec fn decimal(n: nat) -> Seq<char>
    decreases n,
{
    if n < 10 {
        seq![digit(n as int)]
    } else {
        decimal(n / 10) + seq![digit((n % 10) as int)]
    }
}

/// The last `places` decimal digits of `n`, zero-padded.
pub open spec fn padded(n: nat, places: nat) -> Seq<char>
    decreases places,
{
    if places == 0 {
        Seq::empty()
    } else {
        padded(n / 10, (places - 1) as nat) + seq![digit((n % 10) as int)]
    }
}

/// `10^p`.
pub open spec fn pow10(p: nat) -> nat
    decreases p,
{
    if p == 0 {
        1
    } else {
        10 * pow10((p - 1) as nat)
    }
}

/// `n / 10^places` written with `places` decimals.
pub open spec fn fixed_point(n: nat, places: nat) -> Seq<char> {
    decimal(n / pow10(places)) + seq!['.'] + padded(n % pow10(places), places)
}

/// A JSON string literal.
pub open spec fn quoted(s: Seq<char>) -> Seq<char> {
    seq!['"'] + json_escape_spec(s) + seq!['"']
}

/// A JSON boolean.
pub open spec fn json_bool(b: bool) -> Seq<char> {
    if b {
        "true"@
    } else {
        "false"@
    }
}

/// A JSON string literal, or `null`.
pub open spec fn json_opt(o: Option<Seq<char>>) -> Seq<char> {
    match o {
        Some(s) => quoted(s),
        None => "null"@,
    }
}

/// A level or threshold with five decimals.
pub open spec fn level_text(l: u32) -> Seq<char> {
    fixed_point(l as nat, 5)
}

/// The silence tail in seconds with one decimal, as `{:.1}` prints the `f32` holding it.
pub open spec fn tail_text(ms: u32) -> Seq<char> {
    fixed_point(crate::rounding::f32_tenths(ms as nat, 1000), 1)
}

/// A download progress (tenths of a percent) with one decimal.
pub open spec fn progress_text(p: u32) -> Seq<char> {
    fixed_point(p as nat, 1)
}

/// The status document.
pub open spec fn assistant_state_json_spec(v: ServerView) -> Seq<char> {
    let a = v.assistant;
    "{\"status\":\""@ + status_name(a.status) + "\",\"level\":"@ + level_text(a.level)
        + ",\"left_level\":"@ + level_text(a.left_level) + ",\"right_level\":"@ + level_text(
        a.right_level,
    ) + ",\"channels\":"@ + decimal(a.channels as nat) + ",\"sample_rate\":"@ + decimal(
        a.sample_rate as nat,
    ) + ",\"bits_per_sample\":"@ + decimal(a.bits_per_sample as nat) + ",\"sample_format\":"@
        + quoted(a.sample_format) + ",\"device_name\":"@ + quoted(a.device_name)
        + ",\"voice_threshold\":"@ + level_text(a.voice_threshold) + ",\"silence_tail\":"@
        + tail_text(a.silence_tail_ms) + ",\"paused\":"@ + json_bool(v.hearing_paused) + "}"@
}

/// Appends a text.
pub(crate) fn push_str(out: &mut Vec<char>, s: &str)
    ensures
        final(out)@ == old(out)@ + s@,
{
    let cs = chars_of(s);
    push_chars(out, cs.as_slice());
}

/// Appends characters.
pub fn push_chars(out: &mut Vec<char>, cs: &[char])
    ensures
        final(out)@ == old(out)@ + cs@,
{
    let ghost start = out@;
    let mut i: usize = 0;
    while i < cs.len()
        invariant
            i <= cs@.len(),
            out@ == start + cs@.subrange(0, i as int),
        decreases cs@.len() - i,
    {
        out.push(cs[i]);
        i = i + 1;
    }
    assert(cs@.subrange(0, cs@.len() as int) =~= cs@);
}

/// Decimal notation of `n`.
pub fn decimal_chars(n: u64) -> (r: Vec<char>)
    ensures
        r@ == decimal(n as nat),
    decreases n,
{
    if n < 10 {
        let mut v: Vec<char> = Vec::new();
        v.push(((48 + n) as u8) as char);
        assert(v@ =~= decimal(n as nat));
        v
    } else {
        let mut v = decimal_chars(n / 10);
        v.push(((48 + n % 10) as u8) as char);
        v
    }
}

fn padded_chars(n: u64, places: u64) -> (r: Vec<char>)
    ensures
        r@ == padded(n as nat, places as nat),
    decreases places,
{
    if places == 0 {
        let v: Vec<char> = Vec::new();
        assert(v@ =~= padded(n as nat, 0));
        v
    } else {
        let mut v = padded_chars(n / 10, places - 1);
        v.push(((48 + n % 10) as u8) as char);
        v
    }
}

fn fixed_chars(n: u64, places: u64, scale: u64) -> (r: Vec<char>)
    requires
        scale == pow10(places as nat),
        scale > 0,
    ensures
        r@ == fixed_point(n as nat, places as nat),
{
    let mut v = decimal_chars(n / scale);
    v.push('.');
    let p = padded_chars(n % scale, places);
    push_chars(&mut v, p.as_slice());
    v
}

proof fn lemma_pow10_small()
    ensures
        pow10(1) == 10,
        pow10(5) == 100000,
{
    reveal_with_fuel(pow10, 6);
}

fn push_level(out: &mut Vec<char>, l: u32)
    ensures
        final(out)@ == old(out)@ + level_text(l),
{
    proof {
        lemma_pow10_small();
    }
    let v = fixed_chars(l as u64, 5, 100000);
    push_chars(out, v.as_slice());
}

fn push_tenths(out: &mut Vec<char>, t: u64)
    ensures
        final(out)@ == old(out)@ + fixed_point(t as nat, 1),
{
    proof {
        lemma_pow10_small();
    }
    let v = fixed_chars(t, 1, 10);
    push_chars(out, v.as_slice());
}

fn push_decimal(out: &mut Vec<char>, n: u64)
    ensures
        final(out)@ == old(out)@ + decimal(n as nat),
{
    let v = decimal_chars(n);
    push_chars(out, v.as_slice());
}

pub(crate) fn push_quoted(out: &mut Vec<char>, s: &String)
    ensures
        final(out)@ == old(out)@ + quoted(s@),
{
    out.push('"');
    let cs = chars_of(s.as_str());
    let e = json_escape_chars(cs.as_slice());
    push_chars(out, e.as_slice());
    out.push('"');
}

pub(crate) fn push_bool(out: &mut Vec<char>, b: bool)
    ensures
        final(out)@ == old(out)@ + json_bool(b),
{
    if b {
        push_str(out, "true");
    } else {
        push_str(out, "false");
    }
}

pub(crate) fn push_opt(out: &mut Vec<char>, o: &Option<String>)
    ensures
        final(out)@ == old(out)@ + json_opt(opt_view(*o)),
{
    match o {
        Some(s) => push_quoted(out, s),
        None => push_str(out, "null"),
    }
}

/// The status document: what the listener does, its levels, the input device, the
/// settings, and whether hearing is paused.
pub fn assistant_state_json(state: &ServerState) -> (r: String)
    ensures
        r@ == assistant_state_json_spec(state@),
{
    let a = &state.assistant;
    let mut out: Vec<char> = Vec::new();
    push_str(&mut out, "{\"status\":\"");
    push_str(&mut out, a.status.as_str());
    push_str(&mut out, "\",\"level\":");
    push_level(&mut out, a.level);
    push_str(&mut out, ",\"left_level\":");
    push_level(&mut out, a.left_level);
    push_str(&mut out, ",\"right_level\":");
    push_level(&mut out, a.right_level);
    push_str(&mut out, ",\"channels\":");
    push_decimal(&mut out, a.channels as u64);
    push_str(&mut out, ",\"sample_rate\":");
    push_decimal(&mut out, a.sample_rate as u64);
    push_str(&mut out, ",\"bits_per_sample\":");
    push_decimal(&mut out, a.bits_per_sample as u64);
    push_str(&mut out, ",\"sample_format\":");
    push_quoted(&mut out, &a.sample_format);
    push_str(&mut out, ",\"device_name\":");
    push_quoted(&mut out, &a.device_name);
    push_str(&mut out, ",\"voice_threshold\":");
    push_level(&mut out, a.voice_threshold);
    push_str(&mut out, ",\"silence_tail\":");
    push_tenths(&mut out, crate::rounding::seconds_tenths(a.silence_tail_ms));
    push_str(&mut out, ",\"paused\":");
    push_bool(&mut out, state.hearing_paused);
    push_str(&mut out, "}");
    assert(out@ =~= assistant_state_json_spec(state@));
    string_from_chars(out.as_slice())
}

/// Entries separated by commas.
pub open spec fn join_commas(es: Seq<Seq<char>>) -> Seq<char>
    decreases es.len(),
{
    if es.len() == 0 {
        Seq::empty()
    } else if es.len() == 1 {
        es[0]
    } else {
        join_commas(es.drop_last()) + seq![','] + es.last()
    }
}

proof fn lemma_join_step(es: Seq<Seq<char>>, i: int)
    requires
        0 <= i < es.len(),
    ensures
        join_commas(es.take(i + 1)) == if i == 0 {
            es[0]
        } else {
            join_commas(es.take(i)) + seq![','] + es[i]
        },
{
    assert(es.take(i + 1).drop_last() =~= es.take(i));
    assert(es.take(i + 1).last() == es[i]);
    if i == 0 {
        assert(es.take(1).len() == 1);
    }
}

/// Whether the download on record concerns `model`.
pub open spec fn download_is_for(d: Option<DownloadView>, model: Seq<char>) -> bool {
    d matches Some(x) && x.model == model
}

/// One catalogue entry: its label, id, size, URL, whether it is on disk, and the progress
/// and error of its download when the download on record is for it.
pub open spec fn option_entry_json(
    label: Seq<char>,
    model: Seq<char>,
    size_mb: u32,
    url: Seq<char>,
    available: bool,
    d: Option<DownloadView>,
) -> Seq<char> {
    let mine = download_is_for(d, model);
    let downloading = mine && d->0.active;
    let progress = if mine {
        d->0.progress
    } else {
        0
    };
    let error = if mine {
        d->0.error
    } else {
        None
    };
    entry_head(label, model, size_mb, url, available) + entry_tail(downloading, progress, error)
}

/// The fixed part of a catalogue entry.
pub open spec fn entry_head(
    label: Seq<char>,
    model: Seq<char>,
    size_mb: u32,
    url: Seq<char>,
    available: bool,
) -> Seq<char> {
    "{\"label\":"@ + quoted(label) + ",\"model\":"@ + quoted(model) + ",\"size_mb\":"@ + decimal(
        size_mb as nat,
    ) + ",\"download_url\":"@ + quoted(url) + ",\"available\":"@ + json_bool(available)
}

/// The download part of a catalogue entry.
pub open spec fn entry_tail(downloading: bool, progress: u32, error: Option<Seq<char>>) -> Seq<char> {
    ",\"downloading\":"@ + json_bool(downloading) + ",\"progress\":"@ + progress_text(progress)
        + ",\"error\":"@ + json_opt(error) + "}"@
}

/// The checkpoint entries, given which checkpoints are on disk.
pub open spec fn model_entries(available: Seq<bool>, d: Option<DownloadView>) -> Seq<Seq<char>> {
    Seq::new(
        model_catalog().len(),
        |i: int|
            option_entry_json(
                model_catalog()[i].0,
                model_catalog()[i].1,
                model_catalog()[i].2,
                model_catalog()[i].3,
                available[i],
                d,
            ),
    )
}

/// The voice entries, given which voices are on disk.
pub open spec fn tts_entries(available: Seq<bool>, d: Option<DownloadView>) -> Seq<Seq<char>> {
    Seq::new(
        tts_catalog().len(),
        |i: int|
            option_entry_json(
                tts_catalog()[i].0,
                tts_catalog()[i].1,
                tts_catalog()[i].2,
                tts_catalog()[i].3,
                available[i],
                d,
            ),
    )
}

/// The checkpoint document.
pub open spec fn models_json_spec(v: ServerView, available: Seq<bool>) -> Seq<char> {
    "{\"current\":"@ + quoted(v.current_model) + ",\"models\":["@ + join_commas(
        model_entries(available, v.download),
    ) + "]}"@
}

/// The voice document.
pub open spec fn tts_models_json_spec(v: ServerView, available: Seq<bool>, piper_available: bool) -> Seq<char> {
    "{\"current\":"@ + quoted(v.current_tts_model) + ",\"piper_installing\":"@ + json_bool(
        v.piper_installing,
    ) + ",\"piper_install_error\":"@ + json_opt(v.piper_install_error) + ",\"piper_available\":"@
        + json_bool(piper_available) + ",\"models\":["@ + join_commas(
        tts_entries(available, v.tts_download),
    ) + "]}"@
}

/// The voice-cloning document.
pub open spec fn clone_status_json_spec(
    v: ServerView,
    available: bool,
    has_reference: bool,
    reference_text: Option<Seq<char>>,
) -> Seq<char> {
    "{\"installing\":"@ + json_bool(v.f5_installing) + ",\"install_error\":"@ + json_opt(
        v.f5_install_error,
    ) + ",\"available\":"@ + json_bool(available) + ",\"has_reference\":"@ + json_bool(
        has_reference,
    ) + ",\"reference_text\":"@ + json_opt(reference_text) + ",\"synthesizing\":"@ + json_bool(
        v.clone_synthesizing,
    ) + "}"@
}

#[verifier::rlimit(40)]
fn push_option_entry(
    out: &mut Vec<char>,
    label: &String,
    model: &String,
    size_mb: u32,
    url: &String,
    available: bool,
    d: &Option<crate::state::DownloadState>,
)
    ensures
        final(out)@ == old(out)@ + option_entry_json(
            label@,
            model@,
            size_mb,
            url@,
            available,
            crate::state::download_view(*d),
        ),
{
    let ghost dv = crate::state::download_view(*d);
    let ghost start = out@;
    let (mine, active, progress) = match d {
        Some(x) => {
            if x.model == *model {
                (true, x.active, x.progress)
            } else {
                (false, false, 0)
            }
        },
        None => (false, false, 0),
    };
    assert(mine == download_is_for(dv, model@));
    assert(mine ==> dv->0.progress == progress && dv->0.active == active);
    assert(!mine ==> progress == 0 && !active);
    push_str(out, "{\"label\":");
    push_quoted(out, label);
    push_str(out, ",\"model\":");
    push_quoted(out, model);
    push_str(out, ",\"size_mb\":");
    push_decimal(out, size_mb as u64);
    push_str(out, ",\"download_url\":");
    push_quoted(out, url);
    push_str(out, ",\"available\":");
    push_bool(out, available);
    assert(out@ =~= start + entry_head(label@, model@, size_mb, url@, available));
    let ghost mid = out@;
    push_str(out, ",\"downloading\":");
    push_bool(out, mine && active);
    push_str(out, ",\"progress\":");
    push_tenths(out, progress as u64);
    push_str(out, ",\"error\":");
    let ghost before_error = out@;
    if mine {
        match d {
            Some(x) => {
                push_opt(out, &x.error);
                assert(dv->0.error == opt_view(x.error));
            },
            None => {},
        }
    } else {
        push_str(out, "null");
    }
    assert(out@ == before_error + json_opt(if mine { dv->0.error } else { None }));
    push_str(out, "}");
    assert(out@ =~= mid + entry_tail(mine && active, progress, if mine { dv->0.error } else { None }));
}

/// The checkpoint document: the selected checkpoint and, for each checkpoint on offer,
/// whether it is on disk (`available[i]`) and how its download stands.
pub fn models_json(state: &ServerState, available: &Vec<bool>) -> (r: String)
    requires
        available@.len() == model_catalog().len(),
    ensures
        r@ == models_json_spec(state@, available@),
{
    let options = model_options();
    let ghost entries = model_entries(available@, state@.download);
    let mut out: Vec<char> = Vec::new();
    push_str(&mut out, "{\"current\":");
    push_quoted(&mut out, &state.current_model);
    push_str(&mut out, ",\"models\":[");
    let ghost start = out@;
    let mut i: usize = 0;
    while i < options.len()
        invariant
            i <= options@.len(),
            options@.len() == model_catalog().len(),
            available@.len() == model_catalog().len(),
            forall|j: int| 0 <= j < options@.len() ==> #[trigger] options@[j].view() == model_catalog()[j],
            entries == model_entries(available@, state@.download),
            out@ == start + join_commas(entries.take(i as int)),
        decreases options@.len() - i,
    {
        let ghost before = out@;
        if i > 0 {
            out.push(',');
        }
        let ghost mid = out@;
        let o = &options[i];
        assert(o.view() == model_catalog()[i as int]);
        push_option_entry(&mut out, &o.label, &o.model, o.size_mb, &o.download_url, available[i], &state.download);
        proof {
            lemma_join_step(entries, i as int);
            assert(out@ == mid + entries[i as int]);
            if i == 0 {
                assert(entries.take(0) =~= Seq::<Seq<char>>::empty());
                assert(before == start);
                assert(out@ =~= start + join_commas(entries.take(i + 1)));
            } else {
                assert(mid == start + join_commas(entries.take(i as int)) + seq![',']);
                assert(out@ =~= start + join_commas(entries.take(i + 1)));
            }
        }
        i = i + 1;
    }
    assert(entries.take(i as int) =~= entries);
    push_str(&mut out, "]}");
    assert(out@ =~= models_json_spec(state@, available@));
    string_from_chars(out.as_slice())
}

/// The voice document: the selected voice, piper's installation state, and, for each voice
/// on offer, whether it is on disk (`available[i]`) and how its download stands.
pub fn tts_models_json(state: &ServerState, available: &Vec<bool>, piper_available: bool) -> (r: String)
    requires
        available@.len() == tts_catalog().len(),
    ensures
        r@ == tts_models_json_spec(state@, available@, piper_available),
{
    let options = tts_model_options();
    let ghost entries = tts_entries(available@, state@.tts_download);
    let mut out: Vec<char> = Vec::new();
    push_str(&mut out, "{\"current\":");
    push_quoted(&mut out, &state.current_tts_model);
    push_str(&mut out, ",\"piper_installing\":");
    push_bool(&mut out, state.piper_installing);
    push_str(&mut out, ",\"piper_install_error\":");
    push_opt(&mut out, &state.piper_install_error);
    push_str(&mut out, ",\"piper_available\":");
    push_bool(&mut out, piper_available);
    push_str(&mut out, ",\"models\":[");
    let ghost start = out@;
    let mut i: usize = 0;
    while i < options.len()
        invariant
            i <= options@.len(),
            options@.len() == tts_catalog().len(),
            available@.len() == tts_catalog().len(),
            forall|j: int| 0 <= j < options@.len() ==> #[trigger] options@[j].view() == tts_catalog()[j],
            entries == tts_entries(available@, state@.tts_download),
            out@ == start + join_commas(entries.take(i as int)),
        decreases options@.len() - i,
    {
        let ghost before = out@;
        if i > 0 {
            out.push(',');
        }
        let ghost mid = out@;
        let o = &options[i];
        assert(o.view() == tts_catalog()[i as int]);
        push_option_entry(&mut out, &o.label, &o.model, o.size_mb, &o.onnx_url, available[i], &state.tts_download);
        proof {
            lemma_join_step(entries, i as int);
            assert(out@ == mid + entries[i as int]);
            if i == 0 {
                assert(entries.take(0) =~= Seq::<Seq<char>>::empty());
                assert(before == start);
                assert(out@ =~= start + join_commas(entries.take(i + 1)));
            } else {
                assert(mid == start + join_commas(entries.take(i as int)) + seq![',']);
                assert(out@ =~= start + join_commas(entries.take(i + 1)));
            }
        }
        i = i + 1;
    }
    assert(entries.take(i as int) =~= entries);
    push_str(&mut out, "]}");
    assert(out@ =~= tts_models_json_spec(state@, available@, piper_available));
    string_from_chars(out.as_slice())
}

/// The voice-cloning document: f5-tts installation, whether it is installed
/// (`available`), whether a reference recording is saved, its transcript, and whether a
/// synthesis runs.
pub fn clone_status_json(
    state: &ServerState,
    available: bool,
    has_reference: bool,
    reference_text: &Option<String>,
) -> (r: String)
    ensures
        r@ == clone_status_json_spec(state@, available, has_reference, opt_view(*reference_text)),
{
    let mut out: Vec<char> = Vec::new();
    push_str(&mut out, "{\"installing\":");
    push_bool(&mut out, state.f5_installing);
    push_str(&mut out, ",\"install_error\":");
    push_opt(&mut out, &state.f5_install_error);
    push_str(&mut out, ",\"available\":");
    push_bool(&mut out, available);
    push_str(&mut out, ",\"has_reference\":");
    push_bool(&mut out, has_reference);
    push_str(&mut out, ",\"reference_text\":");
    push_opt(&mut out, reference_text);
    push_str(&mut out, ",\"synthesizing\":");
    push_bool(&mut out, state.clone_synthesizing);
    push_str(&mut out, "}");
    assert(out@ =~= clone_status_json_spec(state@, available, has_reference, opt_view(*reference_text)));
    string_from_chars(out.as_slice())
}


/// The voice document lists every voice on offer exactly once, in catalogue order: the
/// ids are en_US-amy-low, en_US-amy-medium, en_US-ryan-medium, en_US-lessac-medium, en_US-libritts-high, ru_RU-irina-medium, ru_RU-denis-medium, ru_RU-dmitri-medium, ru_RU-ruslan-medium, all different, and entry `i` of the list is the entry of
/// voice `i`, whatever the state.
pub proof fn voice_document_lists_each_voice_once(v: ServerView, available: Seq<bool>)
    ensures
        tts_entries(available, v.tts_download).len() == 9,
        forall|i: int|
            0 <= i < 9 ==> #[trigger] tts_entries(available, v.tts_download)[i] == option_entry_json(
                tts_catalog()[i].0,
                tts_catalog()[i].1,
                tts_catalog()[i].2,
                tts_catalog()[i].3,
                available[i],
                v.tts_download,
            ),
        crate::server::tts_ids() == seq!["en_US-amy-low"@, "en_US-amy-medium"@, "en_US-ryan-medium"@, "en_US-lessac-medium"@, "en_US-libritts-high"@, "ru_RU-irina-medium"@, "ru_RU-denis-medium"@, "ru_RU-dmitri-medium"@, "ru_RU-ruslan-medium"@],
        forall|i: int, j: int|
            0 <= i < j < 9 ==> #[trigger] crate::server::tts_ids()[i] != #[trigger] crate::server::tts_ids()[j],
{
    reveal_strlit("en_US-amy-low");
    reveal_strlit("en_US-amy-medium");
    reveal_strlit("en_US-ryan-medium");
    reveal_strlit("en_US-lessac-medium");
    reveal_strlit("en_US-libritts-high");
    reveal_strlit("ru_RU-irina-medium");
    reveal_strlit("ru_RU-denis-medium");
    reveal_strlit("ru_RU-dmitri-medium");
    reveal_strlit("ru_RU-ruslan-medium");
    let ids = crate::server::tts_ids();
    assert(ids =~= seq!["en_US-amy-low"@, "en_US-amy-medium"@, "en_US-ryan-medium"@, "en_US-lessac-medium"@, "en_US-libritts-high"@, "ru_RU-irina-medium"@, "ru_RU-denis-medium"@, "ru_RU-dmitri-medium"@, "ru_RU-ruslan-medium"@]);
    assert(ids[0] != ids[1]) by { assert(ids[0].len() != ids[1].len()); }
    assert(ids[0] != ids[2]) by { assert(ids[0].len() != ids[2].len()); }
    assert(ids[0] != ids[3]) by { assert(ids[0].len() != ids[3].len()); }
    assert(ids[0] != ids[4]) by { assert(ids[0].len() != ids[4].len()); }
    assert(ids[0] != ids[5]) by { assert(ids[0].len() != ids[5].len()); }
    assert(ids[0] != ids[6]) by { assert(ids[0].len() != ids[6].len()); }
    assert(ids[0] != ids[7]) by { assert(ids[0].len() != ids[7].len()); }
    assert(ids[0] != ids[8]) by { assert(ids[0].len() != ids[8].len()); }
    assert(ids[1] != ids[2]) by { assert(ids[1].len() != ids[2].len()); }
    assert(ids[1] != ids[3]) by { assert(ids[1].len() != ids[3].len()); }
    assert(ids[1] != ids[4]) by { assert(ids[1].len() != ids[4].len()); }
    assert(ids[1] != ids[5]) by { assert(ids[1].len() != ids[5].len()); }
    assert(ids[1] != ids[6]) by { assert(ids[1].len() != ids[6].len()); }
    assert(ids[1] != ids[7]) by { assert(ids[1].len() != ids[7].len()); }
    assert(ids[1] != ids[8]) by { assert(ids[1].len() != ids[8].len()); }
    assert(ids[2] != ids[3]) by { assert(ids[2].len() != ids[3].len()); }
    assert(ids[2] != ids[4]) by { assert(ids[2].len() != ids[4].len()); }
    assert(ids[2] != ids[5]) by { assert(ids[2].len() != ids[5].len()); }
    assert(ids[2] != ids[6]) by { assert(ids[2].len() != ids[6].len()); }
    assert(ids[2] != ids[7]) by { assert(ids[2].len() != ids[7].len()); }
    assert(ids[2] != ids[8]) by { assert(ids[2].len() != ids[8].len()); }
    assert(ids[3] != ids[4]) by { assert(ids[3][7] != ids[4][7]); }
    assert(ids[3] != ids[5]) by { assert(ids[3].len() != ids[5].len()); }
    assert(ids[3] != ids[6]) by { assert(ids[3].len() != ids[6].len()); }
    assert(ids[3] != ids[7]) by { assert(ids[3][0] != ids[7][0]); }
    assert(ids[3] != ids[8]) by { assert(ids[3][0] != ids[8][0]); }
    assert(ids[4] != ids[5]) by { assert(ids[4].len() != ids[5].len()); }
    assert(ids[4] != ids[6]) by { assert(ids[4].len() != ids[6].len()); }
    assert(ids[4] != ids[7]) by { assert(ids[4][0] != ids[7][0]); }
    assert(ids[4] != ids[8]) by { assert(ids[4][0] != ids[8][0]); }
    assert(ids[5] != ids[6]) by { assert(ids[5][6] != ids[6][6]); }
    assert(ids[5] != ids[7]) by { assert(ids[5].len() != ids[7].len()); }
    assert(ids[5] != ids[8]) by { assert(ids[5].len() != ids[8].len()); }
    assert(ids[6] != ids[7]) by { assert(ids[6].len() != ids[7].len()); }
    assert(ids[6] != ids[8]) by { assert(ids[6].len() != ids[8].len()); }
    assert(ids[7] != ids[8]) by { assert(ids[7][6] != ids[8][6]); }
    assert forall|i: int, j: int| 0 <= i < j < 9 implies ids[i] != ids[j] by {
        assert(i == 0 || i == 1 || i == 2 || i == 3 || i == 4 || i == 5 || i == 6 || i == 7);
        assert(j == 1 || j == 2 || j == 3 || j == 4 || j == 5 || j == 6 || j == 7 || j == 8);
    }
}


proof fn lemma_contains_extend(s: Seq<char>, t: Seq<char>, y: Seq<char>)
    requires
        crate::chars::contains_seq(s, t),
    ensures
        crate::chars::contains_seq(s + y, t),
{
    let i = choose|i: int| 0 <= i && i + t.len() <= s.len() && #[trigger] s.subrange(i, i + t.len()) == t;
    assert((s + y).subrange(i, i + t.len()) =~= s.subrange(i, i + t.len()));
}

proof fn lemma_contains_middle(a: Seq<char>, t: Seq<char>, b: Seq<char>)
    ensures
        crate::chars::contains_seq(a + t + b, t),
{
    let s = a + t + b;
    assert(s.subrange(a.len() as int, a.len() + t.len() as int) =~= t);
}

/// The status document reports each channel's level under its own key: the number after
/// `"left_level":` is the state's left level and the number after `"right_level":` its
/// right level. A mono level puts the level on the left and 0 on the right.
pub proof fn status_document_reports_channel_levels(v: ServerView, level: int)
    ensures
        crate::chars::contains_seq(
            assistant_state_json_spec(v),
            "\"left_level\":"@ + level_text(v.assistant.left_level) + ","@,
        ),
        crate::chars::contains_seq(
            assistant_state_json_spec(v),
            "\"right_level\":"@ + level_text(v.assistant.right_level) + ","@,
        ),
        crate::state::with_level(v, level).assistant.left_level == crate::state::with_level(
            v,
            level,
        ).assistant.level,
        crate::state::with_level(v, level).assistant.right_level == 0,
{
    reveal_strlit(",\"left_level\":");
    reveal_strlit("\"left_level\":");
    reveal_strlit(",\"right_level\":");
    reveal_strlit("\"right_level\":");
    reveal_strlit(",\"channels\":");
    reveal_strlit("\"channels\":");
    reveal_strlit(",");
    let a = v.assistant;
    let h = "{\"status\":\""@ + status_name(a.status) + "\",\"level\":"@ + level_text(a.level);
    let lt = "\"left_level\":"@ + level_text(a.left_level) + ","@;
    let rt = "\"right_level\":"@ + level_text(a.right_level) + ","@;
    let q = h + ",\"left_level\":"@ + level_text(a.left_level) + ",\"right_level\":"@;
    let p0 = q + level_text(a.right_level) + ",\"channels\":"@;
    assert(q =~= (h + ","@) + lt + "\"right_level\":"@);
    lemma_contains_middle(h + ","@, lt, "\"right_level\":"@);
    lemma_contains_extend(q, lt, level_text(a.right_level));
    lemma_contains_extend(q + level_text(a.right_level), lt, ",\"channels\":"@);
    let q2 = h + ",\"left_level\":"@ + level_text(a.left_level) + ","@;
    assert(p0 =~= q2 + rt + "\"channels\":"@);
    lemma_contains_middle(q2, rt, "\"channels\":"@);
    lemma_contains_extend(p0, lt, decimal(a.channels as nat));
    lemma_contains_extend(p0, rt, decimal(a.channels as nat));
    lemma_contains_extend(p0 + decimal(a.channels as nat), lt, ",\"sample_rate\":"@);
    lemma_contains_extend(p0 + decimal(a.channels as nat), rt, ",\"sample_rate\":"@);
    lemma_contains_extend(p0 + decimal(a.channels as nat) + ",\"sample_rate\":"@, lt, decimal(a.sample_rate as nat));
    lemma_contains_extend(p0 + decimal(a.channels as nat) + ",\"sample_rate\":"@, rt, decimal(a.sample_rate as nat));
    lemma_contains_extend(p0 + decimal(a.channels as nat) + ",\"sample_rate\":"@ + decimal(a.sample_rate as nat), lt, ",\"bits_per_sample\":"@);
    lemma_contains_extend(p0 + decimal(a.channels as nat) + ",\"sample_rate\":"@ + decimal(a.sample_rate as nat), rt, ",\"bits_per_sample\":"@);
    lemma_contains_extend(p0 + decimal(a.channels as nat) + ",\"sample_rate\":"@ + decimal(a.sample_rate as nat) + ",\"bits_per_sample\":"@, lt, decimal(a.bits_per_sample as nat));
    lemma_contains_extend(p0 + decimal(a.channels as nat) + ",\"sample_rate\":"@ + decimal(a.sample_rate as nat) + ",\"bits_per_sample\":"@, rt, decimal(a.bits_per_sample as nat));
    lemma_contains_extend(p0 + decimal(a.channels as nat) + ",\"sample_rate\":"@ + decimal(a.sample_rate as nat) + ",\"bits_per_sample\":"@ + decimal(a.bits_per_sample as nat), lt, ",\"sample_format\":"@);
    lemma_contains_extend(p0 + decimal(a.channels as nat) + ",\"sample_rate\":"@ + decimal(a.sample_rate as nat) + ",\"bits_per_sample\":"@ + decimal(a.bits_per_sample as nat), rt, ",\"sample_format\":"@);
    lemma_contains_extend(p0 + decimal(a.channels as nat) + ",\"sample_rate\":"@ + decimal(a.sample_rate as nat) + ",\"bits_per_sample\":"@ + decimal(a.bits_per_sample as nat) + ",\"sample_format\":"@, lt, quoted(a.sample_format));
    lemma_contains_extend(p0 + decimal(a.channels as nat) + ",\"sample_rate\":"@ + decimal(a.sample_rate as nat) + ",\"bits_per_sample\":"@ + decimal(a.bits_per_sample as nat) + ",\"sample_format\":"@, rt, quoted(a.sample_format));
    lemma_contains_extend(p0 + decimal(a.channels as nat) + ",\"sample_rate\":"@ + decimal(a.sample_rate as nat) + ",\"bits_per_sample\":"@ + decimal(a.bits_per_sample as nat) + ",\"sample_format\":"@ + quoted(a.sample_format), lt, ",\"device_name\":"@);
    lemma_contains_extend(p0 + decimal(a.channels as nat) + ",\"sample_rate\":"@ + decimal(a.sample_rate as nat) + ",\"bits_per_sample\":"@ + decimal(a.bits_per_sample as nat) + ",\"sample_format\":"@ + quoted(a.sample_format), rt, ",\"device_name\":"@);
    lemma_contains_extend(p0 + decimal(a.channels as nat) + ",\"sample_rate\":"@ + decimal(a.sample_rate as nat) + ",\"bits_per_sample\":"@ + decimal(a.bits_per_sample as nat) + ",\"sample_format\":"@ + quoted(a.sample_format) + ",\"device_name\":"@, lt, quoted(a.device_name));
    lemma_contains_extend(p0 + decimal(a.channels as nat) + ",\"sample_rate\":"@ + decimal(a.sample_rate as nat) + ",\"bits_per_sample\":"@ + decimal(a.bits_per_sample as nat) + ",\"sample_format\":"@ + quoted(a.sample_format) + ",\"device_name\":"@, rt, quoted(a.device_name));
    lemma_contains_extend(p0 + decimal(a.channels as nat) + ",\"sample_rate\":"@ + decimal(a.sample_rate as nat) + ",\"bits_per_sample\":"@ + decimal(a.bits_per_sample as nat) + ",\"sample_format\":"@ + quoted(a.sample_format) + ",\"device_name\":"@ + quoted(a.device_name), lt, ",\"voice_threshold\":"@);
    lemma_contains_extend(p0 + decimal(a.channels as nat) + ",\"sample_rate\":"@ + decimal(a.sample_rate as nat) + ",\"bits_per_sample\":"@ + decimal(a.bits_per_sample as nat) + ",\"sample_format\":"@ + quoted(a.sample_format) + ",\"device_name\":"@ + quoted(a.device_name), rt, ",\"voice_threshold\":"@);
    lemma_contains_extend(p0 + decimal(a.channels as nat) + ",\"sample_rate\":"@ + decimal(a.sample_rate as nat) + ",\"bits_per_sample\":"@ + decimal(a.bits_per_sample as nat) + ",\"sample_format\":"@ + quoted(a.sample_format) + ",\"device_name\":"@ + quoted(a.device_name) + ",\"voice_threshold\":"@, lt, level_text(a.voice_threshold));
    lemma_contains_extend(p0 + decimal(a.channels as nat) + ",\"sample_rate\":"@ + decimal(a.sample_rate as nat) + ",\"bits_per_sample\":"@ + decimal(a.bits_per_sample as nat) + ",\"sample_format\":"@ + quoted(a.sample_format) + ",\"device_name\":"@ + quoted(a.device_name) + ",\"voice_threshold\":"@, rt, level_text(a.voice_threshold));
    lemma_contains_extend(p0 + decimal(a.channels as nat) + ",\"sample_rate\":"@ + decimal(a.sample_rate as nat) + ",\"bits_per_sample\":"@ + decimal(a.bits_per_sample as nat) + ",\"sample_format\":"@ + quoted(a.sample_format) + ",\"device_name\":"@ + quoted(a.device_name) + ",\"voice_threshold\":"@ + level_text(a.voice_threshold), lt, ",\"silence_tail\":"@);
    lemma_contains_extend(p0 + decimal(a.channels as nat) + ",\"sample_rate\":"@ + decimal(a.sample_rate as nat) + ",\"bits_per_sample\":"@ + decimal(a.bits_per_sample as nat) + ",\"sample_format\":"@ + quoted(a.sample_format) + ",\"device_name\":"@ + quoted(a.device_name) + ",\"voice_threshold\":"@ + level_text(a.voice_threshold), rt, ",\"silence_tail\":"@);
    lemma_contains_extend(p0 + decimal(a.channels as nat) + ",\"sample_rate\":"@ + decimal(a.sample_rate as nat) + ",\"bits_per_sample\":"@ + decimal(a.bits_per_sample as nat) + ",\"sample_format\":"@ + quoted(a.sample_format) + ",\"device_name\":"@ + quoted(a.device_name) + ",\"voice_threshold\":"@ + level_text(a.voice_threshold) + ",\"silence_tail\":"@, lt, tail_text(a.silence_tail_ms));
    lemma_contains_extend(p0 + decimal(a.channels as nat) + ",\"sample_rate\":"@ + decimal(a.sample_rate as nat) + ",\"bits_per_sample\":"@ + decimal(a.bits_per_sample as nat) + ",\"sample_format\":"@ + quoted(a.sample_format) + ",\"device_name\":"@ + quoted(a.device_name) + ",\"voice_threshold\":"@ + level_text(a.voice_threshold) + ",\"silence_tail\":"@, rt, tail_text(a.silence_tail_ms));
    lemma_contains_extend(p0 + decimal(a.channels as nat) + ",\"sample_rate\":"@ + decimal(a.sample_rate as nat) + ",\"bits_per_sample\":"@ + decimal(a.bits_per_sample as nat) + ",\"sample_format\":"@ + quoted(a.sample_format) + ",\"device_name\":"@ + quoted(a.device_name) + ",\"voice_threshold\":"@ + level_text(a.voice_threshold) + ",\"silence_tail\":"@ + tail_text(a.silence_tail_ms), lt, ",\"paused\":"@);
    lemma_contains_extend(p0 + decimal(a.channels as nat) + ",\"sample_rate\":"@ + decimal(a.sample_rate as nat) + ",\"bits_per_sample\":"@ + decimal(a.bits_per_sample as nat) + ",\"sample_format\":"@ + quoted(a.sample_format) + ",\"device_name\":"@ + quoted(a.device_name) + ",\"voice_threshold\":"@ + level_text(a.voice_threshold) + ",\"silence_tail\":"@ + tail_text(a.silence_tail_ms), rt, ",\"paused\":"@);
    lemma_contains_extend(p0 + decimal(a.channels as nat) + ",\"sample_rate\":"@ + decimal(a.sample_rate as nat) + ",\"bits_per_sample\":"@ + decimal(a.bits_per_sample as nat) + ",\"sample_format\":"@ + quoted(a.sample_format) + ",\"device_name\":"@ + quoted(a.device_name) + ",\"voice_threshold\":"@ + level_text(a.voice_threshold) + ",\"silence_tail\":"@ + tail_text(a.silence_tail_ms) + ",\"paused\":"@, lt, json_bool(v.hearing_paused));
    lemma_contains_extend(p0 + decimal(a.channels as nat) + ",\"sample_rate\":"@ + decimal(a.sample_rate as nat) + ",\"bits_per_sample\":"@ + decimal(a.bits_per_sample as nat) + ",\"sample_format\":"@ + quoted(a.sample_format) + ",\"device_name\":"@ + quoted(a.device_name) + ",\"voice_threshold\":"@ + level_text(a.voice_threshold) + ",\"silence_tail\":"@ + tail_text(a.silence_tail_ms) + ",\"paused\":"@, rt, json_bool(v.hearing_paused));
    lemma_contains_extend(p0 + decimal(a.channels as nat) + ",\"sample_rate\":"@ + decimal(a.sample_rate as nat) + ",\"bits_per_sample\":"@ + decimal(a.bits_per_sample as nat) + ",\"sample_format\":"@ + quoted(a.sample_format) + ",\"device_name\":"@ + quoted(a.device_name) + ",\"voice_threshold\":"@ + level_text(a.voice_threshold) + ",\"silence_tail\":"@ + tail_text(a.silence_tail_ms) + ",\"paused\":"@ + json_bool(v.hearing_paused), lt, "}"@);
    lemma_contains_extend(p0 + decimal(a.channels as nat) + ",\"sample_rate\":"@ + decimal(a.sample_rate as nat) + ",\"bits_per_sample\":"@ + decimal(a.bits_per_sample as nat) + ",\"sample_format\":"@ + quoted(a.sample_format) + ",\"device_name\":"@ + quoted(a.device_name) + ",\"voice_threshold\":"@ + level_text(a.voice_threshold) + ",\"silence_tail\":"@ + tail_text(a.silence_tail_ms) + ",\"paused\":"@ + json_bool(v.hearing_paused), rt, "}"@);
    assert(assistant_state_json_spec(v) == p0 + decimal(a.channels as nat) + ",\"sample_rate\":"@ + decimal(a.sample_rate as nat) + ",\"bits_per_sample\":"@ + decimal(a.bits_per_sample as nat) + ",\"sample_format\":"@ + quoted(a.sample_format) + ",\"device_name\":"@ + quoted(a.device_name) + ",\"voice_threshold\":"@ + level_text(a.voice_threshold) + ",\"silence_tail\":"@ + tail_text(a.silence_tail_ms) + ",\"paused\":"@ + json_bool(v.hearing_paused) + "}"@);
}


proof fn lemma_suffix_of_concat(a: Seq<char>, b: Seq<char>)
    ensures
        crate::chars::has_suffix(a + b, b),
{
    assert((a + b).skip((a + b).len() - b.len()) =~= b);
}

proof fn lemma_entry_error(
    label: Seq<char>,
    model: Seq<char>,
    size_mb: u32,
    url: Seq<char>,
    available: bool,
    d: Option<DownloadView>,
)
    ensures
        !(d matches Some(x) && x.model == model) ==> crate::chars::has_suffix(
            option_entry_json(label, model, size_mb, url, available, d),
            ",\"error\":null}"@,
        ),
        (d matches Some(x) && x.model == model) ==> crate::chars::has_suffix(
            option_entry_json(label, model, size_mb, url, available, d),
            ",\"error\":"@ + json_opt(d->0.error) + "}"@,
        ),
{
    reveal_strlit(",\"error\":null}");
    reveal_strlit(",\"error\":");
    reveal_strlit("null");
    reveal_strlit("}");
    let mine = download_is_for(d, model);
    let downloading = mine && d->0.active;
    let progress = if mine { d->0.progress } else { 0 };
    let error = if mine { d->0.error } else { None };
    let head = entry_head(label, model, size_mb, url, available) + ",\"downloading\":"@ + json_bool(
        downloading,
    ) + ",\"progress\":"@ + progress_text(progress);
    let tail = ",\"error\":"@ + json_opt(error) + "}"@;
    assert(option_entry_json(label, model, size_mb, url, available, d) =~= head + tail);
    lemma_suffix_of_concat(head, tail);
    if !mine {
        assert(tail =~= ",\"error\":null}"@);
    }
}

/// A catalogue entry carries a download error only when the download on record is for
/// that entry's model: every other entry, in the checkpoint and in the voice list, ends in
/// `"error":null`, and the entry whose model the download is for ends in that download's
/// error (or `null`).
pub proof fn entry_error_belongs_to_its_model(
    label: Seq<char>,
    model: Seq<char>,
    size_mb: u32,
    url: Seq<char>,
    available: bool,
    d: Option<DownloadView>,
    flags: Seq<bool>,
)
    ensures
        !(d matches Some(x) && x.model == model) ==> crate::chars::has_suffix(
            option_entry_json(label, model, size_mb, url, available, d),
            ",\"error\":null}"@,
        ),
        (d matches Some(x) && x.model == model) ==> crate::chars::has_suffix(
            option_entry_json(label, model, size_mb, url, available, d),
            ",\"error\":"@ + json_opt(d->0.error) + "}"@,
        ),
        forall|i: int|
            0 <= i < model_catalog().len() && !(d matches Some(x) && x.model == model_catalog()[i].1)
                ==> crate::chars::has_suffix(#[trigger] model_entries(flags, d)[i], ",\"error\":null}"@),
        forall|i: int|
            0 <= i < tts_catalog().len() && !(d matches Some(x) && x.model == tts_catalog()[i].1)
                ==> crate::chars::has_suffix(#[trigger] tts_entries(flags, d)[i], ",\"error\":null}"@),
{
    lemma_entry_error(label, model, size_mb, url, available, d);
    assert forall|i: int|
        0 <= i < model_catalog().len() && !(d matches Some(x) && x.model == model_catalog()[i].1)
            implies crate::chars::has_suffix(#[trigger] model_entries(flags, d)[i], ",\"error\":null}"@) by {
        let c = model_catalog()[i];
        lemma_entry_error(c.0, c.1, c.2, c.3, flags[i], d);
    }
    assert forall|i: int|
        0 <= i < tts_catalog().len() && !(d matches Some(x) && x.model == tts_catalog()[i].1)
            implies crate::chars::has_suffix(#[trigger] tts_entries(flags, d)[i], ",\"error\":null}"@) by {
        let c = tts_catalog()[i];
        lemma_entry_error(c.0, c.1, c.2, c.3, flags[i], d);
    }
}

} // verus!
