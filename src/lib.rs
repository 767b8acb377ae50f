//! Safe, verified core of a binding to a native text-to-speech engine: the
//! status-code translator, option records and their ABI codes, speaker
//! metadata, the user dictionary, the text analyzer's lexicon snapshot and the
//! synthesizer's registry of loaded voice models.
pub mod error;
pub mod info;
pub mod models;
pub mod open_jtalk;
pub mod resources;
pub mod synthesizer;
pub mod user_dict;
pub mod voice_model;

pub use error::{i32_to_result, VoicevoxError};
pub use info::SupportedFeatures;
pub use models::{SpeakerMeta, StyleId, StyleMeta, StyleVersion};
pub use open_jtalk::OpenJtalkRc;
pub use resources::{get_dict_path, get_vvm_path};
pub use synthesizer::{AccelerationMode, InitializeOptions, SynthesisOptions, Synthesizer, TtsOptions};
pub use user_dict::{UserDict, UserDictWord, UserDictWordType};
pub use voice_model::VoiceModel;
