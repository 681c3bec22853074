//! The Whisper checkpoints and piper voices the server offers.

use vstd::prelude::*;

verus! {

/// A Whisper checkpoint the page can select or download.
pub struct ModelOption {
    pub label: String,
    pub model: String,
    pub size_mb: u32,
    pub download_url: String,
}

impl ModelOption {
    pub open spec fn view(&self) -> (Seq<char>, Seq<char>, u32, Seq<char>) {
        (self.label@, self.model@, self.size_mb, self.download_url@)
    }
}

/// A piper voice: its model file and the model's JSON description.
pub struct TtsModelOption {
    pub label: String,
    pub model: String,
    pub size_mb: u32,
    pub onnx_url: String,
    pub json_url: String,
}

impl TtsModelOption {
    pub open spec fn view(&self) -> (Seq<char>, Seq<char>, u32, Seq<char>, Seq<char>) {
        (self.label@, self.model@, self.size_mb, self.onnx_url@, self.json_url@)
    }
}

/// The checkpoints, in the order the page lists them: label, model id, size in MB, URL.
pub open spec fn model_catalog() -> Seq<(Seq<char>, Seq<char>, u32, Seq<char>)> {
    seq![
        ("tiny"@, "tiny.en"@, 75u32, "https://openaipublic.azureedge.net/main/whisper/models/d3dd57d32accea0b295c96e26691aa14d8822fac7d9d27d5dc00b4ca2826dd03/tiny.en.pt"@),
        ("base"@, "base.en"@, 142u32, "https://openaipublic.azureedge.net/main/whisper/models/25a8566e1d0c1e2231d1c762132cd20e0f96a85d16145c3a00adf5d1ac670ead/base.en.pt"@),
        ("small"@, "small.en"@, 466u32, "https://openaipublic.azureedge.net/main/whisper/models/f953ad0fd29cacd07d5a9eda5624af0f6bcf2258be67c92b79389873d91e0872/small.en.pt"@),
        ("medium"@, "medium.en"@, 1500u32, "https://openaipublic.azureedge.net/main/whisper/models/d7440d1dc186f76616474e0ff0b3b6b879abc9d1a4926b7adfa41db2d497ab4f/medium.en.pt"@),
        ("large"@, "large"@, 2900u32, "https://openaipublic.azureedge.net/main/whisper/models/e5b1a55b89c1367dacf97e3e19bfd829a01529dbfdeefa8caeb59b3f1b81dadb/large-v3.pt"@),
        ("turbo"@, "large-v3-turbo"@, 1550u32, "https://openaipublic.azureedge.net/main/whisper/models/aff26ae408abcba5fbf8813c21e62b0941638c5f6eebfb145be0c9839262a19a/large-v3-turbo.pt"@),
        ("any-tiny"@, "tiny"@, 75u32, "https://openaipublic.azureedge.net/main/whisper/models/65147644a518d12f04e32d6f3b26facc3f8dd46e54f811345b9bb1ace5d51b15/tiny.pt"@),
        ("any-base"@, "base"@, 142u32, "https://openaipublic.azureedge.net/main/whisper/models/ed3a0b6b1c0edf879ad9b11b1af5a0e6ab5db9205f891f668f8b0e6c6326e34e/base.pt"@),
        ("any-small"@, "small"@, 466u32, "https://openaipublic.azureedge.net/main/whisper/models/9ecf779972d90ba49c06d968637d720dd632c55bbf19c1b0bb1c4eb6e7b15b2c/small.pt"@),
        ("any-medium"@, "medium"@, 1500u32, "https://openaipublic.azureedge.net/main/whisper/models/345ae4da62f9b3d59415adc60127b97c714f32e89e936602e85993674d08dcb1/medium.pt"@),
    ]
}

/// The voices, in the order the page lists them: label, model id, size in MB, model URL,
/// description URL.
pub open spec fn tts_catalog() -> Seq<(Seq<char>, Seq<char>, u32, Seq<char>, Seq<char>)> {
    seq![
        ("amy"@, "en_US-amy-low"@, 22u32, "https://huggingface.co/rhasspy/piper-voices/resolve/main/en/en_US/amy/low/en_US-amy-low.onnx"@, "https://huggingface.co/rhasspy/piper-voices/resolve/main/en/en_US/amy/low/en_US-amy-low.onnx.json"@),
        ("amy-md"@, "en_US-amy-medium"@, 63u32, "https://huggingface.co/rhasspy/piper-voices/resolve/main/en/en_US/amy/medium/en_US-amy-medium.onnx"@, "https://huggingface.co/rhasspy/piper-voices/resolve/main/en/en_US/amy/medium/en_US-amy-medium.onnx.json"@),
        ("ryan"@, "en_US-ryan-medium"@, 63u32, "https://huggingface.co/rhasspy/piper-voices/resolve/main/en/en_US/ryan/medium/en_US-ryan-medium.onnx"@, "https://huggingface.co/rhasspy/piper-voices/resolve/main/en/en_US/ryan/medium/en_US-ryan-medium.onnx.json"@),
        ("lessac"@, "en_US-lessac-medium"@, 63u32, "https://huggingface.co/rhasspy/piper-voices/resolve/main/en/en_US/lessac/medium/en_US-lessac-medium.onnx"@, "https://huggingface.co/rhasspy/piper-voices/resolve/main/en/en_US/lessac/medium/en_US-lessac-medium.onnx.json"@),
        ("libritts"@, "en_US-libritts-high"@, 124u32, "https://huggingface.co/rhasspy/piper-voices/resolve/main/en/en_US/libritts/high/en_US-libritts-high.onnx"@, "https://huggingface.co/rhasspy/piper-voices/resolve/main/en/en_US/libritts/high/en_US-libritts-high.onnx.json"@),
        ("ru-irina"@, "ru_RU-irina-medium"@, 63u32, "https://huggingface.co/rhasspy/piper-voices/resolve/main/ru/ru_RU/irina/medium/ru_RU-irina-medium.onnx"@, "https://huggingface.co/rhasspy/piper-voices/resolve/main/ru/ru_RU/irina/medium/ru_RU-irina-medium.onnx.json"@),
        ("ru-denis"@, "ru_RU-denis-medium"@, 63u32, "https://huggingface.co/rhasspy/piper-voices/resolve/main/ru/ru_RU/denis/medium/ru_RU-denis-medium.onnx"@, "https://huggingface.co/rhasspy/piper-voices/resolve/main/ru/ru_RU/denis/medium/ru_RU-denis-medium.onnx.json"@),
        ("ru-dmitri"@, "ru_RU-dmitri-medium"@, 63u32, "https://huggingface.co/rhasspy/piper-voices/resolve/main/ru/ru_RU/dmitri/medium/ru_RU-dmitri-medium.onnx"@, "https://huggingface.co/rhasspy/piper-voices/resolve/main/ru/ru_RU/dmitri/medium/ru_RU-dmitri-medium.onnx.json"@),
        ("ru-ruslan"@, "ru_RU-ruslan-medium"@, 63u32, "https://huggingface.co/rhasspy/piper-voices/resolve/main/ru/ru_RU/ruslan/medium/ru_RU-ruslan-medium.onnx"@, "https://huggingface.co/rhasspy/piper-voices/resolve/main/ru/ru_RU/ruslan/medium/ru_RU-ruslan-medium.onnx.json"@),
    ]
}

/// The voice selected before any other is chosen.
pub open spec fn default_tts_model_spec() -> Seq<char> {
    "en_US-ryan-medium"@
}

/// The model id of the voice selected before any other is chosen.
pub fn default_tts_model() -> (r: String)
    ensures
        r@ == default_tts_model_spec(),
{
    String::from_str("en_US-ryan-medium")
}

fn model_entry(label: &str, model: &str, size_mb: u32, url: &str) -> (r: ModelOption)
    ensures
        r.view() == (label@, model@, size_mb, url@),
{
    ModelOption {
        label: String::from_str(label),
        model: String::from_str(model),
        size_mb,
        download_url: String::from_str(url),
    }
}

fn tts_entry(label: &str, model: &str, size_mb: u32, onnx: &str, json: &str) -> (r: TtsModelOption)
    ensures
        r.view() == (label@, model@, size_mb, onnx@, json@),
{
    TtsModelOption {
        label: String::from_str(label),
        model: String::from_str(model),
        size_mb,
        onnx_url: String::from_str(onnx),
        json_url: String::from_str(json),
    }
}

/// The Whisper checkpoints on offer.
pub fn model_options() -> (r: Vec<ModelOption>)
    ensures
        r@.len() == model_catalog().len(),
        forall|i: int| 0 <= i < r@.len() ==> #[trigger] r@[i].view() == model_catalog()[i],
{
    let mut v: Vec<ModelOption> = Vec::new();
    v.push(model_entry("tiny", "tiny.en", 75, "https://openaipublic.azureedge.net/main/whisper/models/d3dd57d32accea0b295c96e26691aa14d8822fac7d9d27d5dc00b4ca2826dd03/tiny.en.pt"));
    v.push(model_entry("base", "base.en", 142, "https://openaipublic.azureedge.net/main/whisper/models/25a8566e1d0c1e2231d1c762132cd20e0f96a85d16145c3a00adf5d1ac670ead/base.en.pt"));
    v.push(model_entry("small", "small.en", 466, "https://openaipublic.azureedge.net/main/whisper/models/f953ad0fd29cacd07d5a9eda5624af0f6bcf2258be67c92b79389873d91e0872/small.en.pt"));
    v.push(model_entry("medium", "medium.en", 1500, "https://openaipublic.azureedge.net/main/whisper/models/d7440d1dc186f76616474e0ff0b3b6b879abc9d1a4926b7adfa41db2d497ab4f/medium.en.pt"));
    v.push(model_entry("large", "large", 2900, "https://openaipublic.azureedge.net/main/whisper/models/e5b1a55b89c1367dacf97e3e19bfd829a01529dbfdeefa8caeb59b3f1b81dadb/large-v3.pt"));
    v.push(model_entry("turbo", "large-v3-turbo", 1550, "https://openaipublic.azureedge.net/main/whisper/models/aff26ae408abcba5fbf8813c21e62b0941638c5f6eebfb145be0c9839262a19a/large-v3-turbo.pt"));
    v.push(model_entry("any-tiny", "tiny", 75, "https://openaipublic.azureedge.net/main/whisper/models/65147644a518d12f04e32d6f3b26facc3f8dd46e54f811345b9bb1ace5d51b15/tiny.pt"));
    v.push(model_entry("any-base", "base", 142, "https://openaipublic.azureedge.net/main/whisper/models/ed3a0b6b1c0edf879ad9b11b1af5a0e6ab5db9205f891f668f8b0e6c6326e34e/base.pt"));
    v.push(model_entry("any-small", "small", 466, "https://openaipublic.azureedge.net/main/whisper/models/9ecf779972d90ba49c06d968637d720dd632c55bbf19c1b0bb1c4eb6e7b15b2c/small.pt"));
    v.push(model_entry("any-medium", "medium", 1500, "https://openaipublic.azureedge.net/main/whisper/models/345ae4da62f9b3d59415adc60127b97c714f32e89e936602e85993674d08dcb1/medium.pt"));
    assert forall|i: int| 0 <= i < v@.len() implies #[trigger] v@[i].view() == model_catalog()[i] by {

        if i == 0 {}
        if i == 1 {}
        if i == 2 {}
        if i == 3 {}
        if i == 4 {}
        if i == 5 {}
        if i == 6 {}
        if i == 7 {}
        if i == 8 {}
        if i == 9 {}
    }
    v
}

/// The piper voices on offer.
pub fn tts_model_options() -> (r: Vec<TtsModelOption>)
    ensures
        r@.len() == tts_catalog().len(),
        forall|i: int| 0 <= i < r@.len() ==> #[trigger] r@[i].view() == tts_catalog()[i],
{
    let mut v: Vec<TtsModelOption> = Vec::new();
    v.push(tts_entry("amy", "en_US-amy-low", 22, "https://huggingface.co/rhasspy/piper-voices/resolve/main/en/en_US/amy/low/en_US-amy-low.onnx", "https://huggingface.co/rhasspy/piper-voices/resolve/main/en/en_US/amy/low/en_US-amy-low.onnx.json"));
    v.push(tts_entry("amy-md", "en_US-amy-medium", 63, "https://huggingface.co/rhasspy/piper-voices/resolve/main/en/en_US/amy/medium/en_US-amy-medium.onnx", "https://huggingface.co/rhasspy/piper-voices/resolve/main/en/en_US/amy/medium/en_US-amy-medium.onnx.json"));
    v.push(tts_entry("ryan", "en_US-ryan-medium", 63, "https://huggingface.co/rhasspy/piper-voices/resolve/main/en/en_US/ryan/medium/en_US-ryan-medium.onnx", "https://huggingface.co/rhasspy/piper-voices/resolve/main/en/en_US/ryan/medium/en_US-ryan-medium.onnx.json"));
    v.push(tts_entry("lessac", "en_US-lessac-medium", 63, "https://huggingface.co/rhasspy/piper-voices/resolve/main/en/en_US/lessac/medium/en_US-lessac-medium.onnx", "https://huggingface.co/rhasspy/piper-voices/resolve/main/en/en_US/lessac/medium/en_US-lessac-medium.onnx.json"));
    v.push(tts_entry("libritts", "en_US-libritts-high", 124, "https://huggingface.co/rhasspy/piper-voices/resolve/main/en/en_US/libritts/high/en_US-libritts-high.onnx", "https://huggingface.co/rhasspy/piper-voices/resolve/main/en/en_US/libritts/high/en_US-libritts-high.onnx.json"));
    v.push(tts_entry("ru-irina", "ru_RU-irina-medium", 63, "https://huggingface.co/rhasspy/piper-voices/resolve/main/ru/ru_RU/irina/medium/ru_RU-irina-medium.onnx", "https://huggingface.co/rhasspy/piper-voices/resolve/main/ru/ru_RU/irina/medium/ru_RU-irina-medium.onnx.json"));
    v.push(tts_entry("ru-denis", "ru_RU-denis-medium", 63, "https://huggingface.co/rhasspy/piper-voices/resolve/main/ru/ru_RU/denis/medium/ru_RU-denis-medium.onnx", "https://huggingface.co/rhasspy/piper-voices/resolve/main/ru/ru_RU/denis/medium/ru_RU-denis-medium.onnx.json"));
    v.push(tts_entry("ru-dmitri", "ru_RU-dmitri-medium", 63, "https://huggingface.co/rhasspy/piper-voices/resolve/main/ru/ru_RU/dmitri/medium/ru_RU-dmitri-medium.onnx", "https://huggingface.co/rhasspy/piper-voices/resolve/main/ru/ru_RU/dmitri/medium/ru_RU-dmitri-medium.onnx.json"));
    v.push(tts_entry("ru-ruslan", "ru_RU-ruslan-medium", 63, "https://huggingface.co/rhasspy/piper-voices/resolve/main/ru/ru_RU/ruslan/medium/ru_RU-ruslan-medium.onnx", "https://huggingface.co/rhasspy/piper-voices/resolve/main/ru/ru_RU/ruslan/medium/ru_RU-ruslan-medium.onnx.json"));
    assert forall|i: int| 0 <= i < v@.len() implies #[trigger] v@[i].view() == tts_catalog()[i] by {

        if i == 0 {}
        if i == 1 {}
        if i == 2 {}
        if i == 3 {}
        if i == 4 {}
        if i == 5 {}
        if i == 6 {}
        if i == 7 {}
        if i == 8 {}
    }
    v
}

/// Whether `model` is the id of one of the checkpoints on offer.
pub open spec fn is_model_option(model: Seq<char>) -> bool {
    exists|i: int| 0 <= i < model_catalog().len() && #[trigger] model_catalog()[i].1 == model
}

/// Whether `model` is the id of one of the voices on offer.
pub open spec fn is_tts_model_option(model: Seq<char>) -> bool {
    exists|i: int| 0 <= i < tts_catalog().len() && #[trigger] tts_catalog()[i].1 == model
}

/// Position of the first checkpoint whose id is `model`.
pub fn find_model_option(options: &Vec<ModelOption>, model: &str) -> (r: Option<usize>)
    ensures
        match r {
            Some(i) => i < options@.len() && options@[i as int].model@ == model@ && forall|j: int|
                0 <= j < i ==> #[trigger] options@[j].model@ != model@,
            None => forall|j: int| 0 <= j < options@.len() ==> #[trigger] options@[j].model@ != model@,
        },
{
    let m = model.to_owned();
    let mut i: usize = 0;
    while i < options.len()
        invariant
            i <= options@.len(),
            m@ == model@,
            forall|j: int| 0 <= j < i ==> #[trigger] options@[j].model@ != model@,
        decreases options@.len() - i,
    {
        if options[i].model == m {
            return Some(i);
        }
        i = i + 1;
    }
    None
}

/// Position of the first voice whose id is `model`.
pub fn find_tts_model_option(options: &Vec<TtsModelOption>, model: &str) -> (r: Option<usize>)
    ensures
        match r {
            Some(i) => i < options@.len() && options@[i as int].model@ == model@ && forall|j: int|
                0 <= j < i ==> #[trigger] options@[j].model@ != model@,
            None => forall|j: int| 0 <= j < options@.len() ==> #[trigger] options@[j].model@ != model@,
        },
{
    let m = model.to_owned();
    let mut i: usize = 0;
    while i < options.len()
        invariant
            i <= options@.len(),
            m@ == model@,
            forall|j: int| 0 <= j < i ==> #[trigger] options@[j].model@ != model@,
        decreases options@.len() - i,
    {
        if options[i].model == m {
            return Some(i);
        }
        i = i + 1;
    }
    None
}

} // verus!
