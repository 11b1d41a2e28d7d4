//! The speech models that can be had, and where each is kept.

use vstd::prelude::*;
use vstd::string::*;

use crate::paths::{
    app_dir_of, app_dir_under, copy_path, join_path, joined_path, path_exists, user_data_dir,
};

verus! {

/// A model as shown to the user.
#[derive(Debug, PartialEq, Eq)]
pub struct WhisperModel {
    /// Identifier of the model.
    pub id: String,
    /// Name shown for it.
    pub name: String,
    /// Size of the model file in MB.
    pub size: u64,
    /// Whether the model file is on disk.
    pub downloaded: bool,
}

/// The models on offer: identifier, name and size in MB of each, in the
/// order in which they are shown.
pub open spec fn catalogue() -> Seq<(Seq<char>, Seq<char>, u64)> {
    seq![
        ("tiny"@, "Tiny (75 MB)"@, 75u64),
        ("base"@, "Base (142 MB)"@, 142u64),
        ("small"@, "Small (466 MB)"@, 466u64),
        ("medium"@, "Medium (1.5 GB)"@, 1500u64),
        ("large"@, "Large (2.9 GB)"@, 2900u64),
        ("turbo"@, "Turbo (809 MB)"@, 809u64),
    ]
}

/// Identifier and address of each model file.
pub open spec fn whisper_models() -> Seq<(Seq<char>, Seq<char>)> {
    seq![
        ("tiny"@, "https://huggingface.co/ggerganov/whisper.cpp/resolve/main/ggml-tiny.bin"@),
        ("base"@, "https://huggingface.co/ggerganov/whisper.cpp/resolve/main/ggml-base.bin"@),
        ("small"@, "https://huggingface.co/ggerganov/whisper.cpp/resolve/main/ggml-small.bin"@),
        ("medium"@, "https://huggingface.co/ggerganov/whisper.cpp/resolve/main/ggml-medium.bin"@),
        ("large"@, "https://huggingface.co/ggerganov/whisper.cpp/resolve/main/ggml-large-v3.bin"@),
        ("turbo"@, "https://huggingface.co/ggerganov/whisper.cpp/resolve/main/ggml-large-v3-turbo.bin"@),
    ]
}

/// Models of a table of identifiers and addresses.
pub open spec fn url_models(table: Seq<(String, String)>) -> Seq<(Seq<char>, Seq<char>)> {
    table.map_values(|entry: (String, String)| (entry.0@, entry.1@))
}

/// The address that the first `n` entries of `table` give for `id`: that of
/// the last entry among them with this id.
pub open spec fn url_of(table: Seq<(Seq<char>, Seq<char>)>, id: Seq<char>, n: nat) -> Option<Seq<char>>
    decreases n,
{
    if n == 0 {
        None
    } else if table[n - 1].0 == id {
        Some(table[n - 1].1)
    } else {
        url_of(table, id, (n - 1) as nat)
    }
}

/// The name of the file that holds the model `model_id`.
pub open spec fn file_name_of(model_id: Seq<char>) -> Seq<char> {
    "ggml-"@ + model_id + ".bin"@
}

/// The directory of the model files, given the user's local data directory:
/// the part `models` joined to the application's directory under it.
pub open spec fn models_dir_under(data_dir: Option<std::path::PathBuf>) -> std::path::PathBuf {
    joined_path(app_dir_of(data_dir), "models"@)
}

/// The name of the file that holds the model `model_id`.
pub fn model_file_name(model_id: &str) -> (name: String)
    ensures
        name@ == file_name_of(model_id@),
{
    let mut name = String::from_str("ggml-");
    name.append(model_id);
    name.append(".bin");
    name
}

/// What is to be done to have a model on disk.
#[derive(Debug, PartialEq, Eq)]
pub enum DownloadPlan {
    /// The file is there already, at this path.
    AlreadyPresent(std::path::PathBuf),
    /// The file is to be fetched from `url` and written to `target`.
    Fetch { url: String, target: std::path::PathBuf },
}

/// Why a model cannot be had.
#[derive(Clone, Copy, Debug, PartialEq, Eq)]
pub enum DownloadError {
    /// No model has this identifier.
    UnknownModel,
}

impl DownloadError {
    /// The message for the user.
    pub fn message(&self) -> (text: String)
        ensures
            text@ == "Unknown model ID"@,
    {
        String::from_str("Unknown model ID")
    }
}

/// What is to be done for a model, given its address if it has one, the
/// path of its file, and whether the file is there. A model without an
/// address is unknown, whatever is on disk.
pub fn decide_download(url: Option<String>, target: std::path::PathBuf, present: bool) -> (plan: Result<DownloadPlan, DownloadError>)
    ensures
        match url {
            None => plan == Err::<DownloadPlan, DownloadError>(DownloadError::UnknownModel),
            Some(address) => if present {
                plan == Ok::<DownloadPlan, DownloadError>(DownloadPlan::AlreadyPresent(target))
            } else {
                plan == Ok::<DownloadPlan, DownloadError>(DownloadPlan::Fetch { url: address, target: target })
            },
        },
{
    match url {
        None => Err(DownloadError::UnknownModel),
        Some(address) => if present {
            Ok(DownloadPlan::AlreadyPresent(target))
        } else {
            Ok(DownloadPlan::Fetch { url: address, target })
        },
    }
}

/// Knows the models and the directory in which their files are kept.
#[derive(Debug)]
pub struct ModelDownloader {
    model_urls: Vec<(String, String)>,
    models_dir: std::path::PathBuf,
}

impl ModelDownloader {
    /// Identifier and address of each model that the downloader knows.
    pub closed spec fn urls(&self) -> Seq<(Seq<char>, Seq<char>)> {
        url_models(self.model_urls@)
    }

    /// The directory in which the model files are kept.
    pub closed spec fn models_dir(&self) -> std::path::PathBuf {
        self.models_dir
    }

    /// The path of the file of the model `id`: the file named after the
    /// model, joined to the models directory.
    pub open spec fn model_path_of(&self, id: Seq<char>) -> std::path::PathBuf {
        joined_path(self.models_dir(), file_name_of(id))
    }

    /// The address of the model `id`, if the downloader knows it.
    pub open spec fn address_of(&self, id: Seq<char>) -> Option<Seq<char>> {
        url_of(self.urls(), id, self.urls().len())
    }

    /// A downloader for the models on offer, with the default directory.
    pub fn new() -> (downloader: Self)
        ensures
            downloader.urls() == whisper_models(),
    {
        ModelDownloader::with_models_dir(ModelDownloader::get_default_models_dir())
    }

    /// A downloader for the models on offer that keeps them in `models_dir`.
    pub fn with_models_dir(models_dir: std::path::PathBuf) -> (downloader: Self)
        ensures
            downloader.urls() == whisper_models(),
            downloader.models_dir() == models_dir,
    {
        let mut model_urls: Vec<(String, String)> = Vec::new();
        model_urls.push(
            (
                String::from_str("tiny"),
                String::from_str("https://huggingface.co/ggerganov/whisper.cpp/resolve/main/ggml-tiny.bin"),
            ),
        );
        model_urls.push(
            (
                String::from_str("base"),
                String::from_str("https://huggingface.co/ggerganov/whisper.cpp/resolve/main/ggml-base.bin"),
            ),
        );
        model_urls.push(
            (
                String::from_str("small"),
                String::from_str("https://huggingface.co/ggerganov/whisper.cpp/resolve/main/ggml-small.bin"),
            ),
        );
        model_urls.push(
            (
                String::from_str("medium"),
                String::from_str("https://huggingface.co/ggerganov/whisper.cpp/resolve/main/ggml-medium.bin"),
            ),
        );
        model_urls.push(
            (
                String::from_str("large"),
                String::from_str("https://huggingface.co/ggerganov/whisper.cpp/resolve/main/ggml-large-v3.bin"),
            ),
        );
        model_urls.push(
            (
                String::from_str("turbo"),
                String::from_str(
                    "https://huggingface.co/ggerganov/whisper.cpp/resolve/main/ggml-large-v3-turbo.bin",
                ),
            ),
        );
        assert(url_models(model_urls@) =~= whisper_models());
        ModelDownloader { model_urls, models_dir }
    }

    /// The directory for the model files, given the user's local data
    /// directory: in the application's directory under it, or under the
    /// current directory where the system names none.
    pub fn models_dir_in(data_dir: Option<std::path::PathBuf>) -> (dir: std::path::PathBuf)
        ensures
            dir == models_dir_under(data_dir),
    {
        join_path(&app_dir_under(data_dir), "models")
    }

    /// The default directory for the model files: what [`Self::models_dir_in`]
    /// gives for the local data directory that the system names, if it names
    /// one.
    pub fn get_default_models_dir() -> (dir: std::path::PathBuf)
        ensures
            exists|data_dir: Option<std::path::PathBuf>| dir == #[trigger] models_dir_under(data_dir),
    {
        ModelDownloader::models_dir_in(user_data_dir())
    }

    /// The number of models that the downloader knows.
    pub fn model_count(&self) -> (count: usize)
        ensures
            count == self.urls().len(),
    {
        self.model_urls.len()
    }

    /// The address of the model file for `model_id`, or nothing where the
    /// downloader knows no such model.
    pub fn url_for(&self, model_id: &str) -> (url: Option<String>)
        ensures
            match url {
                Some(address) => self.address_of(model_id@) == Some(address@),
                None => self.address_of(model_id@) is None,
            },
    {
        let wanted = String::from_str(model_id);
        let mut n: usize = self.model_urls.len();
        while n > 0
            invariant
                n <= self.model_urls.len(),
                wanted@ == model_id@,
                self.address_of(model_id@) == url_of(self.urls(), model_id@, n as nat),
            decreases n,
        {
            if self.model_urls[n - 1].0 == wanted {
                return Some(self.model_urls[n - 1].1.clone());
            }
            n -= 1;
        }
        None
    }

    /// Whether the downloader knows a model `model_id`.
    pub fn knows(&self, model_id: &str) -> (known: bool)
        ensures
            known == self.address_of(model_id@).is_some(),
    {
        self.url_for(model_id).is_some()
    }

    /// The path where the file of the model `model_id` is or would be kept:
    /// the file named by [`model_file_name`] in the models directory.
    pub fn get_model_path(&self, model_id: &str) -> (path: std::path::PathBuf)
        ensures
            path == self.model_path_of(model_id@),
    {
        let name = model_file_name(model_id);
        join_path(&self.models_dir, name.as_str())
    }

    /// Whether the file of the model `model_id` is on disk now: the word of
    /// the file system on the path that [`Self::get_model_path`] gives.
    pub fn is_downloaded(&self, model_id: &str) -> (found: bool) {
        let path = self.get_model_path(model_id);
        path_exists(&path)
    }

    /// The directory in which the model files are kept.
    pub fn get_models_dir(&self) -> (dir: std::path::PathBuf)
        ensures
            dir == self.models_dir(),
    {
        copy_path(&self.models_dir)
    }

    /// What is to be done to have the model `model_id` on disk. An unknown
    /// identifier is an error, whatever is on disk; a file that is there is
    /// not fetched again.
    pub fn plan_download(&self, model_id: &str) -> (plan: Result<DownloadPlan, DownloadError>)
        ensures
            plan is Err <==> self.address_of(model_id@) is None,
            plan matches Ok(DownloadPlan::Fetch { url, .. }) ==> self.address_of(model_id@) == Some(url@),
    {
        let url = self.url_for(model_id);
        let target = self.get_model_path(model_id);
        let present = path_exists(&target);
        decide_download(url, target, present)
    }
}

impl Default for ModelDownloader {
    fn default() -> (downloader: Self)
        ensures
            downloader.urls() == whisper_models(),
    {
        ModelDownloader::new()
    }
}

/// The entry of the list for one model.
fn listed(downloader: &ModelDownloader, id: &str, name: &str, size: u64) -> (model: WhisperModel)
    ensures
        model.id@ == id@,
        model.name@ == name@,
        model.size == size,
{
    WhisperModel {
        id: String::from_str(id),
        name: String::from_str(name),
        size,
        downloaded: downloader.is_downloaded(id),
    }
}

/// Whether `models` lists the models on offer, in order, with the name and
/// the size of each.
pub open spec fn lists_catalogue(models: Seq<WhisperModel>) -> bool {
    &&& models.len() == catalogue().len()
    &&& forall|i: int|
        0 <= i < models.len() ==> (#[trigger] models[i].id@, models[i].name@, models[i].size)
            == catalogue()[i]
}

/// The models on offer, each with the word of the file system on whether its
/// file is on disk.
pub fn get_available_models(downloader: &ModelDownloader) -> (models: Vec<WhisperModel>)
    ensures
        lists_catalogue(models@),
{
    let mut models: Vec<WhisperModel> = Vec::new();
    models.push(listed(downloader, "tiny", "Tiny (75 MB)", 75));
    models.push(listed(downloader, "base", "Base (142 MB)", 142));
    models.push(listed(downloader, "small", "Small (466 MB)", 466));
    models.push(listed(downloader, "medium", "Medium (1.5 GB)", 1500));
    models.push(listed(downloader, "large", "Large (2.9 GB)", 2900));
    models.push(listed(downloader, "turbo", "Turbo (809 MB)", 809));
    models
}

} // verus!
