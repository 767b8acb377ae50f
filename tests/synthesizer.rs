use voicevox_core_rs::{
    get_dict_path, get_vvm_path, AccelerationMode, InitializeOptions, OpenJtalkRc, SpeakerMeta,
    StyleMeta, SupportedFeatures, SynthesisOptions, Synthesizer, TtsOptions, VoiceModel,
    VoicevoxError,
};

fn speaker(name: &str, style_ids: &[u32]) -> SpeakerMeta {
    let styles = style_ids.iter().map(|&id| StyleMeta::new(id, format!("style{}", id))).collect();
    SpeakerMeta::new(name.to_string(), styles, "0.1.0".to_string(), format!("uuid-{}", name))
}

fn model(id: &str, style_ids: &[u32]) -> VoiceModel {
    VoiceModel::new(id.to_string(), vec![speaker(id, style_ids)])
}

fn cpu_only() -> SupportedFeatures {
    SupportedFeatures::new(true, false, false)
}

fn synthesizer() -> Synthesizer {
    let analyzer = OpenJtalkRc::new("/dict").unwrap();
    Synthesizer::new(&analyzer, InitializeOptions::default(), &cpu_only()).unwrap()
}

#[test]
fn meta_getters() {
    let s = speaker("alice", &[3, 4]);
    assert_eq!(s.name(), "alice");
    assert_eq!(s.version(), "0.1.0");
    assert_eq!(s.speaker_uuid(), "uuid-alice");
    assert_eq!(s.styles().len(), 2);
    assert_eq!(s.styles()[1].id(), 4);
    assert_eq!(s.styles()[1].name(), "style4");
}

#[test]
fn feature_flags() {
    let f = SupportedFeatures::new(true, false, true);
    assert!(f.cpu());
    assert!(!f.cuda());
    assert!(f.dml());
    assert!(f.gpu());
    assert!(!cpu_only().gpu());
}

#[test]
fn option_defaults_and_codes() {
    let init = InitializeOptions::default();
    assert_eq!(init.acceleration_mode, AccelerationMode::Auto);
    assert_eq!(init.cpu_num_threads, 0);
    assert!(SynthesisOptions::default().enable_interrogative_upspeak);
    assert!(TtsOptions::default().enable_interrogative_upspeak);
    assert_eq!(AccelerationMode::Gpu.to_raw(), 2);
    assert_eq!(AccelerationMode::from_raw(1), Some(AccelerationMode::Cpu));
    assert_eq!(AccelerationMode::from_raw(3), None);
}

#[test]
fn acceleration_mode_choice() {
    let analyzer = OpenJtalkRc::new("/dict").unwrap();
    let gpu = SupportedFeatures::new(true, true, false);
    let opts = |mode| InitializeOptions { acceleration_mode: mode, cpu_num_threads: 2 };
    assert!(!Synthesizer::new(&analyzer, opts(AccelerationMode::Auto), &cpu_only()).unwrap().is_gpu_mode());
    assert!(Synthesizer::new(&analyzer, opts(AccelerationMode::Auto), &gpu).unwrap().is_gpu_mode());
    assert!(!Synthesizer::new(&analyzer, opts(AccelerationMode::Cpu), &gpu).unwrap().is_gpu_mode());
    assert!(Synthesizer::new(&analyzer, opts(AccelerationMode::Gpu), &gpu).unwrap().is_gpu_mode());
    assert!(matches!(
        Synthesizer::new(&analyzer, opts(AccelerationMode::Gpu), &cpu_only()),
        Err(VoicevoxError::GpuSupport)
    ));
}

#[test]
fn fresh_synthesizer_has_no_styles() {
    let s = synthesizer();
    assert!(s.get_metas().unwrap().is_empty());
    assert_eq!(s.resolve_style(0), Err(VoicevoxError::StyleNotFound));
}

#[test]
fn loading_twice_fails() {
    let mut s = synthesizer();
    let m = model("m0", &[0, 1]);
    s.load_voice_model(&m).unwrap();
    assert!(s.is_loaded_voice_model(&m));
    assert_eq!(s.load_voice_model(&m), Err(VoicevoxError::ModelAlreadyLoaded));
    assert_eq!(s.resolve_style(1), Ok(()));
}

#[test]
fn loading_a_taken_style_fails() {
    let mut s = synthesizer();
    s.load_voice_model(&model("m0", &[0, 1])).unwrap();
    let other = model("m1", &[1, 2]);
    assert_eq!(s.load_voice_model(&other), Err(VoicevoxError::StyleAlreadyLoaded));
    assert!(!s.is_loaded_voice_model(&other));
    assert_eq!(s.resolve_style(2), Err(VoicevoxError::StyleNotFound));
}

#[test]
fn unloading_forgets_model_and_styles() {
    let mut s = synthesizer();
    let m0 = model("m0", &[0, 1]);
    let m1 = model("m1", &[5]);
    assert_eq!(s.unload_voice_model(&m0), Err(VoicevoxError::ModelNotFound));
    s.load_voice_model(&m0).unwrap();
    s.load_voice_model(&m1).unwrap();
    let names: Vec<String> = s.get_metas().unwrap().iter().map(|m| m.name().to_string()).collect();
    assert_eq!(names, vec!["m0".to_string(), "m1".to_string()]);
    s.unload_voice_model(&m0).unwrap();
    assert!(!s.is_loaded_voice_model(&m0));
    assert_eq!(s.resolve_style(0), Err(VoicevoxError::StyleNotFound));
    assert_eq!(s.resolve_style(5), Ok(()));
    assert_eq!(s.get_metas().unwrap().len(), 1);
    assert_eq!(s.unload_voice_model(&m0), Err(VoicevoxError::ModelNotFound));
}

#[test]
fn model_accessors() {
    let m = model("m7", &[7]);
    assert_eq!(m.id(), "m7");
    assert_eq!(m.metas().len(), 1);
    assert!(m.has_style(7));
    assert!(!m.has_style(8));
}

#[test]
fn resource_paths() {
    assert_eq!(get_dict_path("/r"), "/r/downloaded/dict/open_jtalk_dic_utf_8-1.11");
    assert_eq!(get_vvm_path("/r"), "/r/downloaded/0.vvm");
}
