use vstd::prelude::*;

use crate::error::VoicevoxError;
use crate::info::SupportedFeatures;
use crate::models::{SpeakerMeta, SpeakerMetaView, StyleId};
use crate::open_jtalk::OpenJtalkRc;
use crate::voice_model::{
    clone_metas, meta_views, metas_have_style, share_style, VoiceModel, VoiceModelView,
};

verus! {

/// ABI code of `AccelerationMode::Auto`.
pub const ACCELERATION_MODE_AUTO: i32 = 0;

/// ABI code of `AccelerationMode::Cpu`.
pub const ACCELERATION_MODE_CPU: i32 = 1;

/// ABI code of `AccelerationMode::Gpu`.
pub const ACCELERATION_MODE_GPU: i32 = 2;

/// Hardware acceleration mode of a synthesizer.
#[derive(Debug, PartialEq, Eq, Clone, Copy, Structural)]
pub enum AccelerationMode {
    /// Picks the GPU where one is available, else the CPU.
    Auto,
    /// Runs on the CPU.
    Cpu,
    /// Runs on the GPU.
    Gpu,
}

/// The ABI code of an acceleration mode.
pub open spec fn acceleration_mode_code(m: AccelerationMode) -> i32 {
    match m {
        AccelerationMode::Auto => ACCELERATION_MODE_AUTO,
        AccelerationMode::Cpu => ACCELERATION_MODE_CPU,
        AccelerationMode::Gpu => ACCELERATION_MODE_GPU,
    }
}

impl Default for AccelerationMode {
    fn default() -> (r: Self)
        ensures
            r == AccelerationMode::Auto,
    {
        AccelerationMode::Auto
    }
}

impl AccelerationMode {
    /// The mode's ABI code.
    pub fn to_raw(self) -> (r: i32)
        ensures
            r == acceleration_mode_code(self),
    {
        match self {
            AccelerationMode::Auto => ACCELERATION_MODE_AUTO,
            AccelerationMode::Cpu => ACCELERATION_MODE_CPU,
            AccelerationMode::Gpu => ACCELERATION_MODE_GPU,
        }
    }

    /// The mode with ABI code `raw`, or `None` for a code that names none.
    pub fn from_raw(raw: i32) -> (r: Option<AccelerationMode>)
        ensures
            r matches Some(m) ==> acceleration_mode_code(m) == raw,
            r is None <==> !(0 <= raw <= 2),
    {
        if raw == ACCELERATION_MODE_AUTO {
            Some(AccelerationMode::Auto)
        } else if raw == ACCELERATION_MODE_CPU {
            Some(AccelerationMode::Cpu)
        } else if raw == ACCELERATION_MODE_GPU {
            Some(AccelerationMode::Gpu)
        } else {
            None
        }
    }
}

/// Options of `Synthesizer::new`.
#[derive(Debug, Clone, Copy, PartialEq, Eq, Structural)]
pub struct InitializeOptions {
    pub acceleration_mode: AccelerationMode,
    /// Number of CPU threads; zero lets the engine choose.
    pub cpu_num_threads: u16,
}

impl Default for InitializeOptions {
    fn default() -> (r: Self)
        ensures
            r.acceleration_mode == AccelerationMode::Auto,
            r.cpu_num_threads == 0,
    {
        InitializeOptions { acceleration_mode: AccelerationMode::Auto, cpu_num_threads: 0 }
    }
}

/// Options of `Synthesizer::synthesis`.
#[derive(Debug, Clone, Copy, PartialEq, Eq, Structural)]
pub struct SynthesisOptions {
    pub enable_interrogative_upspeak: bool,
}

impl Default for SynthesisOptions {
    fn default() -> (r: Self)
        ensures
            r.enable_interrogative_upspeak,
    {
        SynthesisOptions { enable_interrogative_upspeak: true }
    }
}

/// Options of `Synthesizer::tts`.
#[derive(Debug, Clone, Copy, PartialEq, Eq, Structural)]
pub struct TtsOptions {
    pub enable_interrogative_upspeak: bool,
}

impl Default for TtsOptions {
    fn default() -> (r: Self)
        ensures
            r.enable_interrogative_upspeak,
    {
        TtsOptions { enable_interrogative_upspeak: true }
    }
}

/// Whether a model with identifier `id` is among `models`.
pub open spec fn is_model_loaded(models: Seq<VoiceModelView>, id: Seq<char>) -> bool {
    exists|i: int| 0 <= i < models.len() && #[trigger] models[i].id == id
}

/// The position of the model with identifier `id` among `models`.
pub open spec fn model_position(models: Seq<VoiceModelView>, id: Seq<char>) -> int {
    choose|i: int| 0 <= i < models.len() && #[trigger] models[i].id == id
}

/// Whether some model of `models` has the style `style_id`.
pub open spec fn has_loaded_style(models: Seq<VoiceModelView>, style_id: StyleId) -> bool {
    exists|i: int| 0 <= i < models.len() && metas_have_style(#[trigger] models[i].metas, style_id)
}

/// Loaded models have distinct identifiers and no style in common.
pub open spec fn valid_registry(models: Seq<VoiceModelView>) -> bool {
    &&& forall|i: int, j: int|
        0 <= i < j < models.len() ==> #[trigger] models[i].id != #[trigger] models[j].id
    &&& forall|i: int, j: int|
        0 <= i < j < models.len() ==> !share_style(#[trigger] models[i], #[trigger] models[j])
}

/// The speakers of all models, in the order the models were loaded.
pub open spec fn all_metas(models: Seq<VoiceModelView>) -> Seq<SpeakerMetaView>
    decreases models.len(),
{
    if models.len() == 0 {
        Seq::empty()
    } else {
        all_metas(models.drop_last()) + models.last().metas
    }
}

/// The mode a synthesizer runs in, GPU or not, for a requested acceleration
/// mode; `None` where a GPU is requested and the host has none.
pub open spec fn gpu_choice(mode: AccelerationMode, gpu_available: bool) -> Option<bool> {
    match mode {
        AccelerationMode::Auto => Some(gpu_available),
        AccelerationMode::Cpu => Some(false),
        AccelerationMode::Gpu => if gpu_available {
            Some(true)
        } else {
            None
        },
    }
}

/// Result and loaded models after loading `m`.
pub open spec fn load_outcome(models: Seq<VoiceModelView>, m: VoiceModelView) -> (
    Result<(), VoicevoxError>,
    Seq<VoiceModelView>,
) {
    if is_model_loaded(models, m.id) {
        (Err(VoicevoxError::ModelAlreadyLoaded), models)
    } else if exists|i: int| 0 <= i < models.len() && share_style(#[trigger] models[i], m) {
        (Err(VoicevoxError::StyleAlreadyLoaded), models)
    } else {
        (Ok(()), models.push(m))
    }
}

/// Result and loaded models after unloading the model with identifier `id`.
pub open spec fn unload_outcome(models: Seq<VoiceModelView>, id: Seq<char>) -> (
    Result<(), VoicevoxError>,
    Seq<VoiceModelView>,
) {
    if is_model_loaded(models, id) {
        (Ok(()), models.remove(model_position(models, id)))
    } else {
        (Err(VoicevoxError::ModelNotFound), models)
    }
}

/// The voice synthesizer: its acceleration mode, the analyzer it is bound
/// to, and the voice models loaded into it, in load order.
pub struct Synthesizer {
    gpu_mode: bool,
    dict_dir: String,
    models: Vec<VoiceModel>,
}

/// What a `Synthesizer` holds, as plain values.
pub struct SynthesizerView {
    pub gpu_mode: bool,
    pub dict_dir: Seq<char>,
    pub models: Seq<VoiceModelView>,
}

/// The plain values of a sequence of models.
pub open spec fn model_views(s: Seq<VoiceModel>) -> Seq<VoiceModelView> {
    s.map_values(|m: VoiceModel| m@)
}

impl View for Synthesizer {
    type V = SynthesizerView;

    closed spec fn view(&self) -> SynthesizerView {
        SynthesizerView {
            gpu_mode: self.gpu_mode,
            dict_dir: self.dict_dir@,
            models: model_views(self.models@),
        }
    }
}

impl Synthesizer {
    /// Distinct model identifiers, disjoint styles.
    pub open spec fn wf(&self) -> bool {
        valid_registry(self@.models)
    }

    /// A synthesizer bound to `open_jtalk`, with no model loaded. `Auto`
    /// runs on the GPU where `features` reports one; `Gpu` on a host without
    /// one fails with `GpuSupport`.
    pub fn new(open_jtalk: &OpenJtalkRc, options: InitializeOptions, features: &SupportedFeatures) -> (r: Result<
        Synthesizer,
        VoicevoxError,
    >)
        ensures
            gpu_choice(options.acceleration_mode, features.spec_gpu()) is None ==> r
                == Err::<Synthesizer, VoicevoxError>(VoicevoxError::GpuSupport),
            gpu_choice(options.acceleration_mode, features.spec_gpu()) matches Some(g) ==> (r matches Ok(
                s,
            ) && s.wf() && s@.gpu_mode == g && s@.dict_dir == open_jtalk@.dict_dir && s@.models
                == Seq::<VoiceModelView>::empty()),
    {
        let gpu = features.gpu();
        let gpu_mode = match options.acceleration_mode {
            AccelerationMode::Auto => gpu,
            AccelerationMode::Cpu => false,
            AccelerationMode::Gpu => {
                if !gpu {
                    return Err(VoicevoxError::GpuSupport);
                }
                true
            },
        };
        let s = Synthesizer {
            gpu_mode,
            dict_dir: open_jtalk.dict_dir().to_string(),
            models: Vec::new(),
        };
        proof {
            assert(model_views(s.models@) =~= Seq::<VoiceModelView>::empty());
        }
        Ok(s)
    }

    /// Whether the synthesizer runs on the GPU.
    pub fn is_gpu_mode(&self) -> (r: bool)
        ensures
            r == self@.gpu_mode,
    {
        self.gpu_mode
    }

    /// The position of the loaded model with the identifier of `model`.
    fn find_model(&self, model: &VoiceModel) -> (r: Option<usize>)
        requires
            self.wf(),
        ensures
            r matches Some(i) ==> i < self@.models.len() && i == model_position(
                self@.models,
                model@.id,
            ),
            r is None <==> !is_model_loaded(self@.models, model@.id),
    {
        let ghost mv = self@.models;
        let mut i: usize = 0;
        while i < self.models.len()
            invariant
                i <= self.models@.len(),
                mv == self@.models,
                mv.len() == self.models@.len(),
                valid_registry(mv),
                forall|j: int| 0 <= j < i ==> mv[j].id != model@.id,
            decreases self.models@.len() - i,
        {
            if self.models[i].same_id(model) {
                proof {
                    assert(mv[i as int].id == model@.id);
                    let p = model_position(mv, model@.id);
                    if p != i {
                        if p < i {
                            assert(mv[p].id != mv[i as int].id);
                        } else {
                            assert(mv[i as int].id != mv[p].id);
                        }
                    }
                }
                return Some(i);
            }
            i = i + 1;
        }
        None
    }

    /// Loads `model`. Fails with `ModelAlreadyLoaded` where a model with its
    /// identifier is loaded, and with `StyleAlreadyLoaded` where one of its
    /// styles belongs to a loaded model.
    pub fn load_voice_model(&mut self, model: &VoiceModel) -> (r: Result<(), VoicevoxError>)
        requires
            old(self).wf(),
        ensures
            final(self).wf(),
            (r, final(self)@.models) == load_outcome(old(self)@.models, model@),
            final(self)@.gpu_mode == old(self)@.gpu_mode,
            final(self)@.dict_dir == old(self)@.dict_dir,
    {
        if self.find_model(model).is_some() {
            return Err(VoicevoxError::ModelAlreadyLoaded);
        }
        let ghost mv = self@.models;
        let mut i: usize = 0;
        while i < self.models.len()
            invariant
                i <= self.models@.len(),
                mv == self@.models,
                mv.len() == self.models@.len(),
                valid_registry(mv),
                !is_model_loaded(mv, model@.id),
                forall|j: int| 0 <= j < i ==> !share_style(#[trigger] mv[j], model@),
            decreases self.models@.len() - i,
        {
            if self.models[i].shares_style_with(model) {
                proof {
                    assert(share_style(mv[i as int], model@));
                }
                return Err(VoicevoxError::StyleAlreadyLoaded);
            }
            i = i + 1;
        }
        let copy = VoiceModel::new(model.id(), model.metas());
        proof {
            assert(copy@ == model@);
        }
        self.models.push(copy);
        // A vector's length always fits in `usize`.
        let _ = self.models.len();
        proof {
            let after = self@.models;
            assert(after =~= mv.push(model@));
            assert forall|a: int, b: int| 0 <= a < b < after.len() implies #[trigger] after[a].id
                != #[trigger] after[b].id by {
                if b == mv.len() {
                    assert(mv[a].id != model@.id);
                }
            }
            assert forall|a: int, b: int| 0 <= a < b < after.len() implies !share_style(
                #[trigger] after[a],
                #[trigger] after[b],
            ) by {
                if b == mv.len() {
                    assert(!share_style(mv[a], model@));
                }
            }
        }
        Ok(())
    }

    /// Unloads the model with the identifier of `model`; fails with
    /// `ModelNotFound` where none is loaded.
    pub fn unload_voice_model(&mut self, model: &VoiceModel) -> (r: Result<(), VoicevoxError>)
        requires
            old(self).wf(),
        ensures
            final(self).wf(),
            (r, final(self)@.models) == unload_outcome(old(self)@.models, model@.id),
            final(self)@.gpu_mode == old(self)@.gpu_mode,
            final(self)@.dict_dir == old(self)@.dict_dir,
    {
        match self.find_model(model) {
            Some(i) => {
                let ghost mv = self@.models;
                let _ = self.models.remove(i);
                proof {
                    let after = self@.models;
                    assert(after =~= mv.remove(i as int));
                    assert forall|a: int, b: int| 0 <= a < b < after.len() implies #[trigger] after[a].id
                        != #[trigger] after[b].id by {
                        if a >= i {
                            assert(mv[a + 1].id != mv[b + 1].id);
                        } else if b >= i {
                            assert(mv[a].id != mv[b + 1].id);
                        }
                    }
                    assert forall|a: int, b: int| 0 <= a < b < after.len() implies !share_style(
                        #[trigger] after[a],
                        #[trigger] after[b],
                    ) by {
                        if a >= i {
                            assert(!share_style(mv[a + 1], mv[b + 1]));
                        } else if b >= i {
                            assert(!share_style(mv[a], mv[b + 1]));
                        }
                    }
                }
                Ok(())
            },
            None => Err(VoicevoxError::ModelNotFound),
        }
    }

    /// Whether a model with the identifier of `model` is loaded.
    pub fn is_loaded_voice_model(&self, model: &VoiceModel) -> (r: bool)
        requires
            self.wf(),
        ensures
            r == is_model_loaded(self@.models, model@.id),
    {
        self.find_model(model).is_some()
    }

    /// The speakers of all loaded models, in load order.
    pub fn get_metas(&self) -> (r: Result<Vec<SpeakerMeta>, VoicevoxError>)
        ensures
            r matches Ok(v) && meta_views(v@) == all_metas(self@.models),
    {
        let mut r: Vec<SpeakerMeta> = Vec::new();
        let mut i: usize = 0;
        while i < self.models.len()
            invariant
                i <= self.models@.len(),
                meta_views(r@) == all_metas(self@.models.take(i as int)),
            decreases self.models@.len() - i,
        {
            let mut more = clone_metas(self.models[i].metas_slice());
            let ghost prev = r@;
            r.append(&mut more);
            proof {
                assert(self@.models.take(i as int + 1).drop_last() =~= self@.models.take(i as int));
                assert(meta_views(r@) =~= meta_views(prev) + self@.models[i as int].metas);
            }
            i = i + 1;
        }
        proof {
            assert(self@.models.take(self@.models.len() as int) =~= self@.models);
        }
        Ok(r)
    }

    /// Whether some loaded model has the style `style_id`.
    pub fn is_style_loaded(&self, style_id: StyleId) -> (r: bool)
        ensures
            r == has_loaded_style(self@.models, style_id),
    {
        let ghost mv = self@.models;
        let mut i: usize = 0;
        while i < self.models.len()
            invariant
                i <= self.models@.len(),
                mv == self@.models,
                mv.len() == self.models@.len(),
                forall|j: int| 0 <= j < i ==> !metas_have_style(#[trigger] mv[j].metas, style_id),
            decreases self.models@.len() - i,
        {
            if self.models[i].has_style(style_id) {
                proof {
                    assert(metas_have_style(mv[i as int].metas, style_id));
                }
                return true;
            }
            i = i + 1;
        }
        false
    }

    /// Resolves `style_id` against the models loaded now: `Ok` where one of
    /// them has that style, else `StyleNotFound`. Every query and synthesis
    /// call resolves its style this way before it reaches the engine.
    pub fn resolve_style(&self, style_id: StyleId) -> (r: Result<(), VoicevoxError>)
        ensures
            r is Ok <==> has_loaded_style(self@.models, style_id),
            r is Err ==> r == Err::<(), VoicevoxError>(VoicevoxError::StyleNotFound),
    {
        if self.is_style_loaded(style_id) {
            Ok(())
        } else {
            Err(VoicevoxError::StyleNotFound)
        }
    }
}

/// A synthesizer with no model loaded has no speaker metadata, and no style
/// identifier resolves against it.
pub proof fn lemma_no_models_no_styles(s: SynthesizerView, style_id: StyleId)
    requires
        s.models.len() == 0,
    ensures
        all_metas(s.models) == Seq::<SpeakerMetaView>::empty(),
        !has_loaded_style(s.models, style_id),
{
}

/// Loading a model that was just loaded fails with `ModelAlreadyLoaded`;
/// unloading a model that is not loaded fails with `ModelNotFound`; after a
/// model is unloaded it is no longer loaded, and none of its styles
/// resolves.
pub proof fn lemma_model_loading_rules(
    models: Seq<VoiceModelView>,
    m: VoiceModelView,
    style_id: StyleId,
)
    requires
        valid_registry(models),
    ensures
        load_outcome(models, m).0 is Ok ==> load_outcome(load_outcome(models, m).1, m).0 == Err::<
            (),
            VoicevoxError,
        >(VoicevoxError::ModelAlreadyLoaded),
        !is_model_loaded(models, m.id) ==> unload_outcome(models, m.id).0 == Err::<
            (),
            VoicevoxError,
        >(VoicevoxError::ModelNotFound),
        is_model_loaded(models, m.id) ==> {
            let after = unload_outcome(models, m.id).1;
            let gone = models[model_position(models, m.id)];
            &&& unload_outcome(models, m.id).0 is Ok
            &&& !is_model_loaded(after, m.id)
            &&& metas_have_style(gone.metas, style_id) ==> !has_loaded_style(after, style_id)
        },
{
    if load_outcome(models, m).0 is Ok {
        let loaded = models.push(m);
        assert(loaded[models.len() as int].id == m.id);
    }
    if is_model_loaded(models, m.id) {
        let p = model_position(models, m.id);
        let after = models.remove(p);
        assert forall|a: int| 0 <= a < after.len() implies #[trigger] after[a].id != m.id by {
            if a < p {
                assert(models[a].id != models[p].id);
            } else {
                assert(models[p].id != models[a + 1].id);
            }
        }
        if metas_have_style(models[p].metas, style_id) {
            assert forall|a: int| 0 <= a < after.len() implies !metas_have_style(
                #[trigger] after[a].metas,
                style_id,
            ) by {
                if a < p {
                    assert(!share_style(models[a], models[p]));
                } else {
                    assert(!share_style(models[p], models[a + 1]));
                }
            }
        }
    }
}

} // verus!
