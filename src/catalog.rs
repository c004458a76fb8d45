use vstd::prelude::*;
use vstd::string::*;

verus! {

/// A downloadable model.
#[derive(Clone, Debug)]
pub struct ModelEntry {
    pub id: String,
    pub name: String,
    pub url: String,
    pub filename: String,
    pub approx_size_mb: u64,
}

/// A catalog model with what is known of its file on disk.
#[derive(Clone, Debug)]
pub struct ModelStatusItem {
    pub id: String,
    pub name: String,
    pub filename: String,
    pub installed: bool,
    pub size_bytes: Option<u64>,
    pub approx_size_mb: u64,
}

/// Every catalog model's status, and the selected model's id.
#[derive(Clone, Debug)]
pub struct ModelsStatus {
    pub available: Vec<ModelStatusItem>,
    pub selected_id: Option<String>,
}

/// Progress of a model download.
#[derive(Clone, Debug)]
pub struct DownloadProgress {
    pub id: String,
    pub received_bytes: u64,
    pub total_bytes: Option<u64>,
}

/// The models offered for download, by id.
pub fn model_catalog() -> (r: Vec<ModelEntry>)
    ensures
        r@.len() == 2,
        r@[0].id@ == "large-v3-turbo"@,
        r@[0].name@ == "Large v3 Turbo"@,
        r@[0].url@ == "https://huggingface.co/ggerganov/whisper.cpp/resolve/main/ggml-large-v3-turbo.bin?download=true"@,
        r@[0].filename@ == "ggml-large-v3-turbo.bin"@,
        r@[0].approx_size_mb == 6000,
        r@[1].id@ == "large-v3-turbo-q5_0"@,
        r@[1].name@ == "Large v3 Turbo (Q5_0)"@,
        r@[1].url@ == "https://huggingface.co/ggerganov/whisper.cpp/resolve/main/ggml-large-v3-turbo-q5_0.bin?download=true"@,
        r@[1].filename@ == "ggml-large-v3-turbo-q5_0.bin"@,
        r@[1].approx_size_mb == 3500,
{
    let mut r: Vec<ModelEntry> = Vec::new();
    r.push(
        ModelEntry {
            id: String::from_str("large-v3-turbo"),
            name: String::from_str("Large v3 Turbo"),
            url: String::from_str(
                "https://huggingface.co/ggerganov/whisper.cpp/resolve/main/ggml-large-v3-turbo.bin?download=true",
            ),
            filename: String::from_str("ggml-large-v3-turbo.bin"),
            approx_size_mb: 6000,
        },
    );
    r.push(
        ModelEntry {
            id: String::from_str("large-v3-turbo-q5_0"),
            name: String::from_str("Large v3 Turbo (Q5_0)"),
            url: String::from_str(
                "https://huggingface.co/ggerganov/whisper.cpp/resolve/main/ggml-large-v3-turbo-q5_0.bin?download=true",
            ),
            filename: String::from_str("ggml-large-v3-turbo-q5_0.bin"),
            approx_size_mb: 3500,
        },
    );
    r
}

/// The first catalog entry with the given id.
pub fn find_model(catalog: &Vec<ModelEntry>, id: &str) -> (r: Option<usize>)
    ensures
        match r {
            Some(i) => i < catalog@.len() && catalog@[i as int].id@ == id@ && forall|k: int|
                0 <= k < i ==> #[trigger] catalog@[k].id@ != id@,
            None => forall|k: int| 0 <= k < catalog@.len() ==> #[trigger] catalog@[k].id@ != id@,
        },
{
    let mut i: usize = 0;
    while i < catalog.len()
        invariant
            i <= catalog@.len(),
            forall|k: int| 0 <= k < i ==> #[trigger] catalog@[k].id@ != id@,
        decreases catalog@.len() - i,
    {
        if crate::text::str_eq(catalog[i].id.as_str(), id) {
            return Some(i);
        }
        i = i + 1;
    }
    None
}

/// The status of one catalog model, given whether its file is present and its size.
pub fn status_item(entry: &ModelEntry, installed: bool, size_bytes: Option<u64>) -> (s: ModelStatusItem)
    ensures
        s.id@ == entry.id@,
        s.name@ == entry.name@,
        s.filename@ == entry.filename@,
        s.installed == installed,
        s.size_bytes == (if installed { size_bytes } else { None }),
        s.approx_size_mb == entry.approx_size_mb,
{
    ModelStatusItem {
        id: entry.id.clone(),
        name: entry.name.clone(),
        filename: entry.filename.clone(),
        installed,
        size_bytes: if installed { size_bytes } else { None },
        approx_size_mb: entry.approx_size_mb,
    }
}

} // verus!
