//! Which speech model to load, and from where.

use vstd::prelude::*;
use vstd::string::*;
use vstd::utf8::encode_utf8;

use crate::listener::error::ListenerError;
use crate::paths::{under, FilePath};
use crate::text::{trim, trimmed};

verus! {

/// Size of a Moonshine model.
#[derive(Debug, Clone, Copy, PartialEq, Eq, Structural)]
pub enum MoonshineVariant {
    /// 26 M parameters.
    Tiny,
    /// 58 M parameters.
    Base,
}

/// Selects the speech model.
#[derive(Debug, Clone)]
pub enum AudioModel {
    /// The best one at hand: Moonshine base before Whisper.
    Default,
    /// A Moonshine directory.
    Moonshine { model_dir: FilePath, variant: MoonshineVariant },
    /// A Whisper GGML file.
    Whisper { model_path: FilePath },
    /// A whisperfile server; reserved.
    Whisperfile { model_path: FilePath },
    /// A SenseVoice ONNX directory; reserved.
    Onnx { model_dir: FilePath },
}

/// The backends of this build.
#[derive(Debug, Clone, Copy)]
pub struct Backends {
    pub onnx: bool,
    pub whisper: bool,
    pub whisperfile: bool,
}

/// What was found on disk.
#[derive(Debug, Clone, Copy)]
pub struct Found {
    /// The path that the selector names; a directory where it names one.
    pub named: bool,
    /// The default Moonshine directory.
    pub moonshine_dir: bool,
    /// The default Whisper file.
    pub whisper_file: bool,
}

/// A model to load.
#[derive(Debug)]
pub enum LoadPlan {
    Moonshine { model_dir: FilePath, variant: MoonshineVariant },
    Whisper { model_path: FilePath },
}

impl AudioModel {
    /// Whether the backend is part of the build and its files are there.
    pub open spec fn is_available(self, backends: Backends, found: Found) -> bool {
        match self {
            AudioModel::Default => (backends.onnx && found.moonshine_dir) || (backends.whisper
                && found.whisper_file),
            AudioModel::Moonshine { .. } => backends.onnx && found.named,
            AudioModel::Whisper { .. } => backends.whisper && found.named,
            AudioModel::Whisperfile { .. } => backends.whisperfile && found.named,
            AudioModel::Onnx { .. } => backends.onnx && found.named,
        }
    }

    /// Whether the backend is part of the build and its files are there.
    pub fn available(&self, backends: Backends, found: Found) -> (yes: bool)
        ensures
            yes == self.is_available(backends, found),
    {
        match self {
            AudioModel::Default => (backends.onnx && found.moonshine_dir) || (backends.whisper
                && found.whisper_file),
            AudioModel::Moonshine { .. } => backends.onnx && found.named,
            AudioModel::Whisper { .. } => backends.whisper && found.named,
            AudioModel::Whisperfile { .. } => backends.whisperfile && found.named,
            AudioModel::Onnx { .. } => backends.onnx && found.named,
        }
    }

    /// This model if it is available, else the default one.
    pub open spec fn resolved(self, backends: Backends, found: Found) -> AudioModel {
        if self.is_available(backends, found) {
            self
        } else {
            AudioModel::Default
        }
    }

    /// This model if it is available, else the default one.
    pub fn resolve(self, backends: Backends, found: Found) -> (model: AudioModel)
        ensures
            model == self.resolved(backends, found),
    {
        if self.available(backends, found) {
            return self;
        }
        AudioModel::Default
    }

    /// The model to load.
    ///
    /// The default is the first one that is available; where none is, the first one of
    /// the build is tried all the same, so that its loader says what is missing.
    pub fn load(
        self,
        backends: Backends,
        found: Found,
        moonshine_dir: FilePath,
        whisper_path: FilePath,
    ) -> (plan: Result<LoadPlan, ListenerError>)
        ensures
            match self {
                AudioModel::Default => {
                    let moonshine_there = backends.onnx && found.moonshine_dir;
                    let whisper_there = backends.whisper && found.whisper_file;
                    if moonshine_there || (backends.onnx && !whisper_there) {
                        plan == Ok::<_, ListenerError>(
                            (LoadPlan::Moonshine {
                                model_dir: moonshine_dir,
                                variant: MoonshineVariant::Base,
                            }),
                        )
                    } else if backends.whisper {
                        plan == Ok::<_, ListenerError>(
                            (LoadPlan::Whisper { model_path: whisper_path }),
                        )
                    } else {
                        plan matches Err(ListenerError::BackendNotCompiled(m)) && m@
                            == "no STT backend compiled — enable the 'onnx' or 'whisper' feature"@
                    }
                },
                AudioModel::Moonshine { model_dir, variant } => if backends.onnx {
                    plan == Ok::<_, ListenerError>((LoadPlan::Moonshine { model_dir, variant }))
                } else {
                    plan matches Err(ListenerError::BackendNotCompiled(m)) && m@
                        == "onnx — enable the 'onnx' feature"@
                },
                AudioModel::Whisper { model_path } => if backends.whisper {
                    plan == Ok::<_, ListenerError>((LoadPlan::Whisper { model_path }))
                } else {
                    plan matches Err(ListenerError::BackendNotCompiled(m)) && m@
                        == "whisper — enable the 'whisper' feature"@
                },
                AudioModel::Whisperfile { .. } => plan matches Err(
                    ListenerError::BackendNotCompiled(m),
                ) && m@ == "whisperfile — enable the 'whisperfile' feature"@,
                AudioModel::Onnx { .. } => plan matches Err(ListenerError::BackendNotCompiled(m))
                    && m@ == "onnx — enable the 'onnx' feature"@,
            },
    {
        match self {
            AudioModel::Default => {
                let moonshine_there: bool = backends.onnx && found.moonshine_dir;
                let whisper_there: bool = backends.whisper && found.whisper_file;
                if moonshine_there || (backends.onnx && !whisper_there) {
                    Ok(
                        LoadPlan::Moonshine {
                            model_dir: moonshine_dir,
                            variant: MoonshineVariant::Base,
                        },
                    )
                } else if backends.whisper {
                    Ok(LoadPlan::Whisper { model_path: whisper_path })
                } else {
                    Err(
                        ListenerError::BackendNotCompiled(
                            "no STT backend compiled — enable the 'onnx' or 'whisper' feature",
                        ),
                    )
                }
            },
            AudioModel::Moonshine { model_dir, variant } => if backends.onnx {
                Ok(LoadPlan::Moonshine { model_dir, variant })
            } else {
                Err(ListenerError::BackendNotCompiled("onnx — enable the 'onnx' feature"))
            },
            AudioModel::Whisper { model_path } => if backends.whisper {
                Ok(LoadPlan::Whisper { model_path })
            } else {
                Err(ListenerError::BackendNotCompiled("whisper — enable the 'whisper' feature"))
            },
            AudioModel::Whisperfile { .. } => Err(
                ListenerError::BackendNotCompiled("whisperfile — enable the 'whisperfile' feature"),
            ),
            AudioModel::Onnx { .. } => Err(
                ListenerError::BackendNotCompiled("onnx — enable the 'onnx' feature"),
            ),
        }
    }

    /// The default Moonshine directory: the one that is named in the environment, else
    /// the one among the user's data.
    pub fn default_moonshine_dir(
        named: Option<String>,
        data_home: Option<String>,
        home: Option<String>,
    ) -> (dir: FilePath)
        ensures
            dir@ == default_place(named, data_home, home, "kitetsu/models/moonshine-base"@),
    {
        match named {
            Some(p) => FilePath::of(p.as_str()),
            None => xdg_data_base(data_home, home).join("kitetsu/models/moonshine-base"),
        }
    }

    /// The default Whisper file: the one that is named in the environment, else the one
    /// among the user's data.
    pub fn default_whisper_path(
        named: Option<String>,
        data_home: Option<String>,
        home: Option<String>,
    ) -> (path: FilePath)
        ensures
            path@ == default_place(named, data_home, home, "kitetsu/models/ggml-base.en.bin"@),
    {
        match named {
            Some(p) => FilePath::of(p.as_str()),
            None => xdg_data_base(data_home, home).join("kitetsu/models/ggml-base.en.bin"),
        }
    }
}

/// The directory of the user's data.
pub open spec fn data_base(data_home: Option<String>, home: Option<String>) -> Seq<u8> {
    match data_home {
        Some(d) => encode_utf8(d@),
        None => match home {
            Some(h) => under(encode_utf8(h@), encode_utf8(".local/share"@)),
            None => encode_utf8("/tmp"@),
        },
    }
}

/// The place that is named, else `rel` among the user's data.
pub open spec fn default_place(
    named: Option<String>,
    data_home: Option<String>,
    home: Option<String>,
    rel: Seq<char>,
) -> Seq<u8> {
    match named {
        Some(p) => encode_utf8(p@),
        None => under(data_base(data_home, home), encode_utf8(rel)),
    }
}

fn xdg_data_base(data_home: Option<String>, home: Option<String>) -> (dir: FilePath)
    ensures
        dir@ == data_base(data_home, home),
{
    match data_home {
        Some(d) => FilePath::of(d.as_str()),
        None => match home {
            Some(h) => FilePath::of(h.as_str()).join(".local/share"),
            None => FilePath::of("/tmp"),
        },
    }
}

/// Inference threads of a model: the number asked for, else one per core up to 8.
pub fn inference_threads(asked: Option<i32>, cores: i32) -> (n: i32)
    ensures
        n == (match asked {
            Some(k) => k as int,
            None => if cores < 8 {
                cores as int
            } else {
                8
            },
        }),
{
    match asked {
        Some(k) => k,
        None => if cores < 8 {
            cores
        } else {
            8
        },
    }
}

/// The transcript of a model that gives its text in one piece.
pub fn whole_transcript(text: &str) -> (transcript: String)
    ensures
        transcript@ == trimmed(text@),
{
    trim(text).to_owned()
}

// ── Laws ──────────────────────────────────────────────────────────────────────

/// Resolving settles the choice: a second time changes nothing.
pub proof fn law_resolve_is_settled(model: AudioModel, backends: Backends, found: Found)
    ensures
        model.resolved(backends, found).resolved(backends, found) == model.resolved(
            backends,
            found,
        ),
{
}

/// A model is there exactly if its backend is built and its files are: those that the
/// selector names, or for the default those of one of the two that it stands for. One that
/// is there is taken, and for any other the default stands in.
pub proof fn law_models_need_backend_and_files(
    model: AudioModel,
    backends: Backends,
    found: Found,
)
    ensures
        model is Moonshine || model is Onnx ==> (model.is_available(backends, found)
            <==> backends.onnx && found.named),
        model is Whisper ==> (model.is_available(backends, found) <==> backends.whisper
            && found.named),
        model is Whisperfile ==> (model.is_available(backends, found) <==> backends.whisperfile
            && found.named),
        model is Default ==> (model.is_available(backends, found) <==> backends.onnx
            && found.moonshine_dir || backends.whisper && found.whisper_file),
        model.is_available(backends, found) ==> model.resolved(backends, found) == model,
        !model.is_available(backends, found) ==> model.resolved(backends, found) is Default,
{
}

/// A place that is named is where the model lies, whatever else is set. Else it lies below the
/// user's data: where the environment says those are, else below the home directory, else
/// below the temporary one.
pub proof fn law_models_lie_in_the_first_place(
    named: Option<String>,
    data_home: Option<String>,
    home: Option<String>,
    rel: Seq<char>,
)
    ensures
        ({
            let place = default_place(named, data_home, home, rel);
            &&& named is Some ==> place == encode_utf8(named->0@)
            &&& named is None && data_home is Some ==> place == under(
                encode_utf8(data_home->0@),
                encode_utf8(rel),
            )
            &&& named is None && data_home is None && home is Some ==> place == under(
                under(encode_utf8(home->0@), encode_utf8(".local/share"@)),
                encode_utf8(rel),
            )
            &&& named is None && data_home is None && home is None ==> place == under(
                encode_utf8("/tmp"@),
                encode_utf8(rel),
            )
        }),
{
}

} // verus!
