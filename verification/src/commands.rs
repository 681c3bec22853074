//! The arguments the server hands to Whisper, and what it reads back from download logs.

use vstd::prelude::*;
use crate::chars::{chars_of, find_char, first_index, is_whitespace_char, has_suffix, string_from_chars, trim_end, lemma_first_index};

verus! {

/// Characters of a progress number.
pub open spec fn is_number_char(c: char) -> bool {
    ('0' <= c && c <= '9') || c == '.'
}

/// The longest run of digits and dots that ends `t`.
pub open spec fn number_suffix(t: Seq<char>) -> Seq<char>
    decreases t.len(),
{
    if t.len() > 0 && is_number_char(t.last()) {
        number_suffix(t.drop_last()).push(t.last())
    } else {
        Seq::empty()
    }
}

/// The number text just before the first `%` of a progress line (white space between
/// them skipped); `None` when the line has no `%`.
pub open spec fn progress_digits_spec(text: Seq<char>) -> Option<Seq<char>> {
    let k = first_index(text, '%');
    if k < 0 {
        None
    } else {
        Some(number_suffix(trim_end(text.take(k))))
    }
}

/// The number text of a download progress line such as `" 42.5%|####"`.
pub fn progress_digits(text: &str) -> (r: Option<String>)
    ensures
        opt_chars(r) == progress_digits_spec(text@),
{
    let s = chars_of(text);
    let n = s.len();
    assert(s@.subrange(0, n as int) =~= s@);
    let k = match find_char(s.as_slice(), 0, n, '%') {
        Some(k) => k,
        None => return None,
    };
    proof {
        lemma_first_index(s@, '%');
    }
    let mut e = k;
    assert(s@.take(k as int) =~= s@.subrange(0, k as int));
    while e > 0 && is_whitespace_char(s[e - 1])
        invariant
            e <= k,
            k <= n,
            n == s@.len(),
            trim_end(s@.take(k as int)) == trim_end(s@.subrange(0, e as int)),
        decreases e,
    {
        assert(s@.subrange(0, e as int).drop_last() =~= s@.subrange(0, e - 1));
        e = e - 1;
    }
    let ghost t = s@.subrange(0, e as int);
    assert(trim_end(t) == t);
    let mut j = e;
    assert(t.subrange(e as int, e as int) =~= Seq::<char>::empty());
    while j > 0 && (('0' <= s[j - 1] && s[j - 1] <= '9') || s[j - 1] == '.')
        invariant
            j <= e,
            e <= n,
            n == s@.len(),
            t == s@.subrange(0, e as int),
            number_suffix(t) == number_suffix(s@.subrange(0, j as int)) + s@.subrange(j as int, e as int),
        decreases j,
    {
        let ghost pre = s@.subrange(0, j as int);
        assert(pre.drop_last() =~= s@.subrange(0, j - 1));
        assert(pre.last() == s@[j - 1]);
        assert(number_suffix(pre) == number_suffix(s@.subrange(0, j - 1)).push(s@[j - 1]));
        assert(s@.subrange(j - 1, e as int) =~= seq![s@[j - 1]] + s@.subrange(j as int, e as int));
        j = j - 1;
    }
    assert(number_suffix(s@.subrange(0, j as int)) =~= Seq::<char>::empty());
    let digits = crate::chars::copy_range(s.as_slice(), j, e);
    assert(digits@ =~= number_suffix(t));
    Some(string_from_chars(digits.as_slice()))
}

pub open spec fn opt_chars(o: Option<String>) -> Option<Seq<char>> {
    match o {
        Some(s) => Some(s@),
        None => None,
    }
}

/// The language flag Whisper gets: none when it detects the language; for an
/// English-only (`.en`) checkpoint always the language asked for; for a multilingual one
/// only a language other than English.
pub open spec fn language_arguments(current_model: Seq<char>, language: Seq<char>, detect_language: bool) -> Seq<Seq<char>> {
    if detect_language {
        Seq::empty()
    } else if has_suffix(current_model, ".en"@) || language != "en"@ {
        seq!["--language"@, language]
    } else {
        Seq::empty()
    }
}

/// Whisper's command line: the audio file, the checkpoint, text output into the transcript
/// folder, no half precision, quiet, and the language flag.
pub open spec fn whisper_arguments_spec(
    audio: Seq<char>,
    model: Seq<char>,
    transcript_dir: Seq<char>,
    current_model: Seq<char>,
    language: Seq<char>,
    detect_language: bool,
) -> Seq<Seq<char>> {
    seq![
        audio,
        "--model"@,
        model,
        "--output_format"@,
        "txt"@,
        "--output_dir"@,
        transcript_dir,
        "--fp16"@,
        "False"@,
        "--verbose"@,
        "False"@,
    ] + language_arguments(current_model, language, detect_language)
}

/// Whisper's command line for transcribing `audio` with checkpoint `model` (resolved from
/// the selected checkpoint `current_model`).
pub fn whisper_arguments(
    audio: &str,
    model: &str,
    transcript_dir: &str,
    current_model: &str,
    language: &str,
    detect_language: bool,
) -> (r: Vec<String>)
    ensures
        crate::paths::views(r@) == whisper_arguments_spec(audio@, model@, transcript_dir@, current_model@, language@, detect_language),
{
    let mut v: Vec<String> = Vec::new();
    v.push(String::from_str(audio));
    v.push(String::from_str("--model"));
    v.push(String::from_str(model));
    v.push(String::from_str("--output_format"));
    v.push(String::from_str("txt"));
    v.push(String::from_str("--output_dir"));
    v.push(String::from_str(transcript_dir));
    v.push(String::from_str("--fp16"));
    v.push(String::from_str("False"));
    v.push(String::from_str("--verbose"));
    v.push(String::from_str("False"));
    if !detect_language {
        let m = chars_of(current_model);
        let en = chars_of(".en");
        let english_only = m.len() >= en.len() && crate::chars::matches_at(m.as_slice(), m.len() - en.len(), en.as_slice());
        assert(english_only == has_suffix(current_model@, ".en"@)) by {
            if m@.len() >= en@.len() {
                assert(m@.subrange(m@.len() - en@.len(), m@.len() as int) == m@.skip(m@.len() - en@.len()));
            }
        }
        let l = chars_of(language);
        let english = chars_of("en");
        let asks_other = !crate::chars::chars_eq(l.as_slice(), english.as_slice());
        if english_only || asks_other {
            v.push(String::from_str("--language"));
            v.push(String::from_str(language));
        }
    }
    assert(crate::paths::views(v@) =~= whisper_arguments_spec(audio@, model@, transcript_dir@, current_model@, language@, detect_language));
    v
}


/// Installs a Python package into the environment with pip, upgrading it if present.
pub fn pip_install_arguments(package: &str) -> (r: Vec<String>)
    ensures
        crate::paths::views(r@) == seq!["-m"@, "pip"@, "install"@, "--upgrade"@, package@],
{
    let mut v: Vec<String> = Vec::new();
    v.push(String::from_str("-m"));
    v.push(String::from_str("pip"));
    v.push(String::from_str("install"));
    v.push(String::from_str("--upgrade"));
    v.push(String::from_str(package));
    assert(crate::paths::views(v@) =~= seq!["-m"@, "pip"@, "install"@, "--upgrade"@, package@]);
    v
}

/// The Python one-liner that makes Whisper fetch a checkpoint into its cache.
pub const MODEL_DOWNLOAD_SCRIPT: &'static str = "import sys, whisper; whisper.load_model(sys.argv[1])";

/// Python's command line for downloading Whisper checkpoint `model`.
pub fn model_download_arguments(model: &str) -> (r: Vec<String>)
    ensures
        crate::paths::views(r@) == seq!["-c"@, MODEL_DOWNLOAD_SCRIPT@, model@],
{
    let mut v: Vec<String> = Vec::new();
    v.push(String::from_str("-c"));
    v.push(String::from_str(MODEL_DOWNLOAD_SCRIPT));
    v.push(String::from_str(model));
    assert(crate::paths::views(v@) =~= seq!["-c"@, MODEL_DOWNLOAD_SCRIPT@, model@]);
    v
}

/// The Python script that downloads one file and reports its progress as `\r12.3%`.
pub const VOICE_DOWNLOAD_SCRIPT: &'static str = r#"
import sys, urllib.request
def progress(blocks, block_size, total):
    if total > 0:
        pct = min(100.0, blocks * block_size * 100.0 / total)
        sys.stderr.write(f"\r{pct:.1f}%")
        sys.stderr.flush()
url, output = sys.argv[1], sys.argv[2]
urllib.request.urlretrieve(url, output, progress)
"#;

/// Python's command line for downloading `url` into `output`.
pub fn voice_download_arguments(url: &str, output: &str) -> (r: Vec<String>)
    ensures
        crate::paths::views(r@) == seq!["-c"@, VOICE_DOWNLOAD_SCRIPT@, url@, output@],
{
    let mut v: Vec<String> = Vec::new();
    v.push(String::from_str("-c"));
    v.push(String::from_str(VOICE_DOWNLOAD_SCRIPT));
    v.push(String::from_str(url));
    v.push(String::from_str(output));
    assert(crate::paths::views(v@) =~= seq!["-c"@, VOICE_DOWNLOAD_SCRIPT@, url@, output@]);
    v
}

/// Progress reported once a voice's model file is in and its settings file downloads.
pub const VOICE_SETTINGS_PROGRESS: u32 = 960;

/// piper's command line: the voice model and the WAV file to write (the text comes on stdin).
pub fn piper_arguments(model_file: &str, output_file: &str) -> (r: Vec<String>)
    ensures
        crate::paths::views(r@) == seq!["--model"@, model_file@, "--output_file"@, output_file@],
{
    let mut v: Vec<String> = Vec::new();
    v.push(String::from_str("--model"));
    v.push(String::from_str(model_file));
    v.push(String::from_str("--output_file"));
    v.push(String::from_str(output_file));
    assert(crate::paths::views(v@) =~= seq!["--model"@, model_file@, "--output_file"@, output_file@]);
    v
}

/// The file the cloning script writes into the clone folder.
pub const CLONE_OUTPUT_FILE: &'static str = "output.wav";

/// The Python script that speaks a text in the reference voice through the f5-tts API.
pub const CLONE_SCRIPT: &'static str = r#"
import sys, os
from pathlib import Path
ref_audio, ref_text, gen_text, out_dir, out_file = sys.argv[1:6]
try:
    from f5_tts.api import F5TTS
except Exception as exc:
    print(f"failed to import f5_tts: {exc}", file=sys.stderr)
    sys.exit(2)

os.makedirs(out_dir, exist_ok=True)
out_path = str(Path(out_dir) / out_file)

try:
    f5 = F5TTS()
except Exception as exc:
    print(f"failed to init F5TTS: {exc}", file=sys.stderr)
    sys.exit(3)

try:
    f5.infer(
        ref_file=ref_audio,
        ref_text=ref_text,
        gen_text=gen_text,
        file_wave=out_path,
        seed=-1,
    )
except Exception as exc:
    print(f"f5 infer failed: {exc}", file=sys.stderr)
    sys.exit(4)
"#;

/// Python's command line for speaking `text` in the voice of `reference_audio`, whose
/// transcript is `reference_text`, into `output.wav` in `out_dir`.
pub fn clone_arguments(reference_audio: &str, reference_text: &str, text: &str, out_dir: &str) -> (r: Vec<String>)
    ensures
        crate::paths::views(r@) == seq![
            "-c"@,
            CLONE_SCRIPT@,
            reference_audio@,
            reference_text@,
            text@,
            out_dir@,
            CLONE_OUTPUT_FILE@,
        ],
{
    let mut v: Vec<String> = Vec::new();
    v.push(String::from_str("-c"));
    v.push(String::from_str(CLONE_SCRIPT));
    v.push(String::from_str(reference_audio));
    v.push(String::from_str(reference_text));
    v.push(String::from_str(text));
    v.push(String::from_str(out_dir));
    v.push(String::from_str(CLONE_OUTPUT_FILE));
    assert(crate::paths::views(v@) =~= seq![
        "-c"@,
        CLONE_SCRIPT@,
        reference_audio@,
        reference_text@,
        text@,
        out_dir@,
        CLONE_OUTPUT_FILE@,
    ]);
    v
}

} // verus!
