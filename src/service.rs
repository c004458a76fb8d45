use vstd::prelude::*;
use vstd::string::*;

verus! {

/// Which compute path the inference engine is likely to use.
#[derive(Clone, Debug)]
pub struct BackendInfo {
    pub target_os: String,
    pub ggml_metal_path_resources: Option<String>,
    pub metallib_present: bool,
    pub likely_using_metal: bool,
    pub model_path: String,
}

/// Milliseconds spent in each stage of one transcription.
#[derive(Clone, Copy, Debug, PartialEq, Eq)]
pub struct ServiceTimings {
    pub sample_to_mono_ms: u128,
    pub resample_ms: u128,
    pub create_state_ms: u128,
    pub inference_ms: u128,
    pub collect_segments_ms: u128,
    pub total_ms: u128,
}

/// Milliseconds spent by the service on one request.
#[derive(Clone, Copy, Debug, PartialEq, Eq)]
pub struct ServerTimings {
    pub read_body_ms: u128,
    pub transcribe_ms: u128,
    pub total_ms: u128,
}

/// Body of a successful transcription response: the transcript, the service's timings and
/// backend, and the engine's stage timings.
#[derive(Clone, Debug)]
pub struct TranscribeResponse {
    pub text: String,
    pub server: ServerTimings,
    pub backend: BackendInfo,
    pub whisper: ServiceTimings,
}

/// Describes the backend: the GPU kernels are likely in use only on macOS with the kernel
/// library present in the resources directory.
pub fn backend_info_from(
    is_macos: bool,
    resources_dir: Option<String>,
    metallib_present: bool,
    model_path: String,
) -> (b: BackendInfo)
    ensures
        b.target_os@ == (if is_macos {
            "macos"@
        } else {
            "other"@
        }),
        b.metallib_present == (resources_dir is Some && metallib_present),
        b.likely_using_metal == (is_macos && resources_dir is Some && metallib_present),
        b.ggml_metal_path_resources == resources_dir,
        b.model_path == model_path,
{
    let present = resources_dir.is_some() && metallib_present;
    BackendInfo {
        target_os: if is_macos {
            String::from_str("macos")
        } else {
            String::from_str("other")
        },
        ggml_metal_path_resources: resources_dir,
        metallib_present: present,
        likely_using_metal: is_macos && present,
        model_path,
    }
}

} // verus!
