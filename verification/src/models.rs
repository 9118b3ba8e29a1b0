//! Local transcription models: the models on offer, where they are kept, and the checksum of
//! a downloaded file.

use vstd::prelude::*;
use crate::codec::{hex_encode, hex_lower, sha256, sha256_of};
use crate::error::{error_detail, AppError};
use crate::platform::{app_dir, app_dir_path, join_path, opt_text, path_join, HostEnvironment};
use crate::text::{owned, push_str, str_eq};

verus! {

/// What a model is used for.
#[derive(Debug, Clone, Copy, PartialEq, Eq, Structural)]
pub enum ModelCategory {
    Transcription,
    Embedding,
}

/// A model that can be downloaded.
#[derive(Debug, Clone)]
pub struct ModelInfo {
    pub name: String,
    pub size: String,
    /// Approximate size of the download, in bytes.
    pub file_size: u64,
    pub download_url: Option<String>,
    pub checksum: Option<String>,
    pub is_downloaded: bool,
    pub dimensions: Option<u32>,
    pub category: ModelCategory,
}

/// A transcription waiting in the queue: the audio's media id, the provider to use and the
/// transcription record to fill.
#[derive(Debug, Clone)]
pub struct TranscriptionJob {
    pub media_id: String,
    pub provider_name: String,
    pub transcription_id: String,
}

/// The file a Whisper model of this size is stored in.
pub open spec fn model_file(size: Seq<char>) -> Seq<char> {
    "ggml-"@ + size + ".bin"@
}

/// Where a Whisper model of this size is downloaded from.
pub open spec fn model_url(size: Seq<char>) -> Seq<char> {
    "https://huggingface.co/ggerganov/whisper.cpp/resolve/main/"@ + model_file(size)
}

/// The Whisper models on offer: name, size and approximate download size.
pub open spec fn offered_models() -> Seq<(Seq<char>, Seq<char>, u64)> {
    seq![("Tiny"@, "tiny"@, 150_000_000u64), ("Base"@, "base"@, 290_000_000u64), ("Small"@, "small"@, 970_000_000u64)]
}

/// A model entry describes the offered model `(name, size, bytes)`: not downloaded, no
/// checksum, no dimensions, for transcription, downloaded from its URL.
pub open spec fn describes(m: ModelInfo, offered: (Seq<char>, Seq<char>, u64)) -> bool {
    &&& m.name@ == offered.0
    &&& m.size@ == offered.1
    &&& m.file_size == offered.2
    &&& (m.download_url matches Some(u) && u@ == model_url(offered.1))
    &&& m.checksum is None
    &&& !m.is_downloaded
    &&& m.dimensions is None
    &&& m.category == ModelCategory::Transcription
}

/// The name of the file a Whisper model of this size is stored in (`ggml-base.bin`).
pub fn model_file_name(size: &str) -> (r: String)
    ensures
        r@ == model_file(size@),
{
    let mut r = owned("ggml-");
    push_str(&mut r, size);
    push_str(&mut r, ".bin");
    r
}

fn whisper_model(name: &str, size: &str, file_size: u64) -> (r: ModelInfo)
    ensures
        describes(r, (name@, size@, file_size)),
{
    let mut url = owned("https://huggingface.co/ggerganov/whisper.cpp/resolve/main/");
    let file = model_file_name(size);
    push_str(&mut url, file.as_str());
    ModelInfo {
        name: owned(name),
        size: owned(size),
        file_size,
        download_url: Some(url),
        checksum: None,
        is_downloaded: false,
        dimensions: None,
        category: ModelCategory::Transcription,
    }
}

/// The Whisper models on offer, smallest first.
pub fn list_available_models() -> (r: Vec<ModelInfo>)
    ensures
        r@.len() == offered_models().len(),
        forall|i: int| 0 <= i < r@.len() ==> describes(#[trigger] r@[i], offered_models()[i]),
{
    let mut r: Vec<ModelInfo> = Vec::new();
    r.push(whisper_model("Tiny", "tiny", 150_000_000));
    r.push(whisper_model("Base", "base", 290_000_000));
    r.push(whisper_model("Small", "small", 970_000_000));
    proof {
        reveal_strlit("Tiny");
        reveal_strlit("tiny");
        reveal_strlit("Base");
        reveal_strlit("base");
        reveal_strlit("Small");
        reveal_strlit("small");
    }
    r
}

/// The index of the first model of this size, if there is one.
pub fn find_model(models: &Vec<ModelInfo>, size: &str) -> (r: Option<usize>)
    ensures
        r matches Some(i) ==> i < models@.len() && models@[i as int].size@ == size@
            && forall|k: int| 0 <= k < i ==> models@[k].size@ != size@,
        r is None ==> forall|k: int| 0 <= k < models@.len() ==> models@[k].size@ != size@,
{
    let mut i: usize = 0;
    while i < models.len()
        invariant
            i <= models@.len(),
            forall|k: int| 0 <= k < i ==> models@[k].size@ != size@,
        decreases models@.len() - i,
    {
        if str_eq(models[i].size.as_str(), size) {
            return Some(i);
        }
        i = i + 1;
    }
    None
}

/// The directory transcription models are kept in on this host: the application's `models`
/// directory in the place of `platform::app_dir_path`; an `Internal` error when the variable it
/// lives under is not set.
pub fn get_models_directory(host: &HostEnvironment) -> (r: Result<String, AppError>)
    ensures
        match app_dir_path(host.os, opt_text(host.home), opt_text(host.appdata), "models"@) {
            Ok(m) => r matches Ok(p) && p@ == m,
            Err(m) => r matches Err(e) && e is Internal && error_detail(e) == m,
        },
{
    app_dir(host.os, &host.home, &host.appdata, "models")
}

/// The path a Whisper model of this size is stored at, below the models directory.
pub fn model_path_in(models_dir: &str, size: &str) -> (r: String)
    ensures
        r@ == path_join(models_dir@, model_file(size@)),
{
    let file = model_file_name(size);
    join_path(models_dir, file.as_str())
}

/// The SHA-256 checksum of a file's contents, in lower-case hexadecimal (64 characters).
pub fn calculate_checksum(contents: &[u8]) -> (r: String)
    ensures
        r@ == hex_lower(sha256_of(contents@)),
{
    let digest = sha256(contents);
    hex_encode(digest.as_slice())
}

/// The Whisper model size the local provider uses: the configured one, `base` by default.
pub fn whisper_model_size(setting: Option<String>) -> (r: String)
    ensures
        r@ == (match setting { Some(s) => s@, None => "base"@ }),
{
    match setting {
        Some(s) => s,
        None => owned("base"),
    }
}

/// The home directory the local Whisper provider uses: `HOME`, or `~` when it is not set.
pub open spec fn whisper_home(home: Option<Seq<char>>) -> Option<Seq<char>> {
    match home {
        Some(h) => Some(h),
        None => Some("~"@),
    }
}

/// The application-data directory the local Whisper provider uses on Windows: `APPDATA`, or
/// `.` when it is not set.
pub open spec fn whisper_appdata(appdata: Option<Seq<char>>) -> Option<Seq<char>> {
    match appdata {
        Some(a) => Some(a),
        None => Some("."@),
    }
}

/// The directory the local Whisper provider reads models from: the `models` directory of
/// `platform::app_dir_path`, with `~` standing for an unset `HOME` and `.` for an unset
/// `APPDATA`.
pub fn local_whisper_models_directory(host: &HostEnvironment) -> (r: String)
    ensures
        app_dir_path(host.os, whisper_home(opt_text(host.home)), whisper_appdata(opt_text(host.appdata)), "models"@) == Ok::<Seq<char>, Seq<char>>(r@),
{
    let home = match &host.home {
        Some(h) => Some(h.clone()),
        None => Some(owned("~")),
    };
    let appdata = match &host.appdata {
        Some(a) => Some(a.clone()),
        None => Some(owned(".")),
    };
    match app_dir(host.os, &home, &appdata, "models") {
        Ok(d) => d,
        Err(_) => owned("models"),
    }
}

} // verus!
