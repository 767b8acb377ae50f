use vstd::prelude::*;

verus! {

/// Error reported by the engine, one variant per non-zero status code.
#[derive(Debug, Clone, Copy, PartialEq, Eq, Structural)]
pub enum VoicevoxError {
    /// The analyzer's system dictionary is not loaded.
    NotLoadedOpenjtalkDict,
    /// Querying the supported devices failed.
    GetSupportedDevices,
    /// GPU mode is not supported on this host.
    GpuSupport,
    /// No loaded model holds the requested style.
    StyleNotFound,
    /// No loaded model has the requested identifier.
    ModelNotFound,
    /// Inference failed.
    Inference,
    /// Extracting full-context labels failed.
    ExtractFullContextLabel,
    /// The phonetic notation could not be parsed.
    ParseKana,
    /// The audio query is malformed.
    InvalidAudioQuery,
    /// An accent phrase is malformed.
    InvalidAccentPhrase,
    /// The model archive could not be opened.
    OpenZipFile,
    /// An entry of the model archive could not be read.
    ReadZipEntry,
    /// The voice model is already loaded.
    ModelAlreadyLoaded,
    /// A style of the model is already loaded.
    StyleAlreadyLoaded,
    /// The model data is invalid.
    InvalidModelData,
    /// The user dictionary could not be loaded.
    LoadUserDict,
    /// The user dictionary could not be saved.
    SaveUserDict,
    /// No word of the user dictionary has the given identifier.
    UserDictWordNotFound,
    /// Attaching the user dictionary to the analyzer failed.
    UseUserDict,
    /// A user dictionary word failed validation.
    InvalidUserDictWord,
    /// An identifier could not be converted to a UUID.
    InvalidUuid,
}

/// The status code with which the engine reports `e`.
pub open spec fn code_of(e: VoicevoxError) -> i32 {
    match e {
        VoicevoxError::NotLoadedOpenjtalkDict => 1,
        VoicevoxError::GetSupportedDevices => 3,
        VoicevoxError::GpuSupport => 4,
        VoicevoxError::StyleNotFound => 6,
        VoicevoxError::ModelNotFound => 7,
        VoicevoxError::Inference => 8,
        VoicevoxError::ExtractFullContextLabel => 11,
        VoicevoxError::ParseKana => 13,
        VoicevoxError::InvalidAudioQuery => 14,
        VoicevoxError::InvalidAccentPhrase => 15,
        VoicevoxError::OpenZipFile => 16,
        VoicevoxError::ReadZipEntry => 17,
        VoicevoxError::ModelAlreadyLoaded => 18,
        VoicevoxError::StyleAlreadyLoaded => 26,
        VoicevoxError::InvalidModelData => 27,
        VoicevoxError::LoadUserDict => 20,
        VoicevoxError::SaveUserDict => 21,
        VoicevoxError::UserDictWordNotFound => 22,
        VoicevoxError::UseUserDict => 23,
        VoicevoxError::InvalidUserDictWord => 24,
        VoicevoxError::InvalidUuid => 25,
    }
}

/// The error that the engine means by `code`; `None` for success and for
/// codes outside the engine's table.
pub open spec fn error_of_code(code: i32) -> Option<VoicevoxError> {
    if code == 1 {
        Some(VoicevoxError::NotLoadedOpenjtalkDict)
    } else if code == 3 {
        Some(VoicevoxError::GetSupportedDevices)
    } else if code == 4 {
        Some(VoicevoxError::GpuSupport)
    } else if code == 6 {
        Some(VoicevoxError::StyleNotFound)
    } else if code == 7 {
        Some(VoicevoxError::ModelNotFound)
    } else if code == 8 {
        Some(VoicevoxError::Inference)
    } else if code == 11 {
        Some(VoicevoxError::ExtractFullContextLabel)
    } else if code == 13 {
        Some(VoicevoxError::ParseKana)
    } else if code == 14 {
        Some(VoicevoxError::InvalidAudioQuery)
    } else if code == 15 {
        Some(VoicevoxError::InvalidAccentPhrase)
    } else if code == 16 {
        Some(VoicevoxError::OpenZipFile)
    } else if code == 17 {
        Some(VoicevoxError::ReadZipEntry)
    } else if code == 18 {
        Some(VoicevoxError::ModelAlreadyLoaded)
    } else if code == 20 {
        Some(VoicevoxError::LoadUserDict)
    } else if code == 21 {
        Some(VoicevoxError::SaveUserDict)
    } else if code == 22 {
        Some(VoicevoxError::UserDictWordNotFound)
    } else if code == 23 {
        Some(VoicevoxError::UseUserDict)
    } else if code == 24 {
        Some(VoicevoxError::InvalidUserDictWord)
    } else if code == 25 {
        Some(VoicevoxError::InvalidUuid)
    } else if code == 26 {
        Some(VoicevoxError::StyleAlreadyLoaded)
    } else if code == 27 {
        Some(VoicevoxError::InvalidModelData)
    } else {
        None
    }
}

/// A status the engine may return: success or a code of its error table.
pub open spec fn is_known_status(code: i32) -> bool {
    code == 0 || error_of_code(code) is Some
}

impl VoicevoxError {
    /// The engine's status code for this error.
    pub fn code(&self) -> (r: i32)
        ensures
            r == code_of(*self),
    {
        match self {
            VoicevoxError::NotLoadedOpenjtalkDict => 1,
            VoicevoxError::GetSupportedDevices => 3,
            VoicevoxError::GpuSupport => 4,
            VoicevoxError::StyleNotFound => 6,
            VoicevoxError::ModelNotFound => 7,
            VoicevoxError::Inference => 8,
            VoicevoxError::ExtractFullContextLabel => 11,
            VoicevoxError::ParseKana => 13,
            VoicevoxError::InvalidAudioQuery => 14,
            VoicevoxError::InvalidAccentPhrase => 15,
            VoicevoxError::OpenZipFile => 16,
            VoicevoxError::ReadZipEntry => 17,
            VoicevoxError::ModelAlreadyLoaded => 18,
            VoicevoxError::StyleAlreadyLoaded => 26,
            VoicevoxError::InvalidModelData => 27,
            VoicevoxError::LoadUserDict => 20,
            VoicevoxError::SaveUserDict => 21,
            VoicevoxError::UserDictWordNotFound => 22,
            VoicevoxError::UseUserDict => 23,
            VoicevoxError::InvalidUserDictWord => 24,
            VoicevoxError::InvalidUuid => 25,
        }
    }

    /// The error that a non-zero status code stands for, or `None` where the
    /// code is success or unknown to the engine.
    pub fn try_from_code(code: i32) -> (r: Option<VoicevoxError>)
        ensures
            r == error_of_code(code),
    {
        match code {
            1 => Some(VoicevoxError::NotLoadedOpenjtalkDict),
            3 => Some(VoicevoxError::GetSupportedDevices),
            4 => Some(VoicevoxError::GpuSupport),
            6 => Some(VoicevoxError::StyleNotFound),
            7 => Some(VoicevoxError::ModelNotFound),
            8 => Some(VoicevoxError::Inference),
            11 => Some(VoicevoxError::ExtractFullContextLabel),
            13 => Some(VoicevoxError::ParseKana),
            14 => Some(VoicevoxError::InvalidAudioQuery),
            15 => Some(VoicevoxError::InvalidAccentPhrase),
            16 => Some(VoicevoxError::OpenZipFile),
            17 => Some(VoicevoxError::ReadZipEntry),
            18 => Some(VoicevoxError::ModelAlreadyLoaded),
            20 => Some(VoicevoxError::LoadUserDict),
            21 => Some(VoicevoxError::SaveUserDict),
            22 => Some(VoicevoxError::UserDictWordNotFound),
            23 => Some(VoicevoxError::UseUserDict),
            24 => Some(VoicevoxError::InvalidUserDictWord),
            25 => Some(VoicevoxError::InvalidUuid),
            26 => Some(VoicevoxError::StyleAlreadyLoaded),
            27 => Some(VoicevoxError::InvalidModelData),
            _ => None,
        }
    }

    /// The error that an error code of the engine stands for. The engine
    /// returns no other codes, so an unknown one is a caller's defect.
    pub fn from_code(code: i32) -> (r: VoicevoxError)
        requires
            error_of_code(code) is Some,
        ensures
            Some(r) == error_of_code(code),
            code_of(r) == code,
    {
        proof {
            lemma_code_table_inverse(code);
        }
        match VoicevoxError::try_from_code(code) {
            Some(e) => e,
            None => VoicevoxError::NotLoadedOpenjtalkDict,
        }
    }
}

/// Whether the engine can return `code`: success or a code of its table.
pub fn is_known_status_code(code: i32) -> (r: bool)
    ensures
        r == is_known_status(code),
{
    code == 0 || VoicevoxError::try_from_code(code).is_some()
}

/// Turns an engine status into a result: `Ok` for zero, else the error that
/// the code stands for.
pub fn i32_to_result(val: i32) -> (r: Result<(), VoicevoxError>)
    requires
        is_known_status(val),
    ensures
        val == 0 <==> r is Ok,
        val != 0 ==> r == Err::<(), VoicevoxError>(error_of_code(val).unwrap()),
{
    if val == 0 {
        Ok(())
    } else {
        Err(VoicevoxError::from_code(val))
    }
}

/// Every code of the table maps back to the error it came from.
pub proof fn lemma_code_table_inverse(code: i32)
    ensures
        error_of_code(code) matches Some(e) ==> code_of(e) == code,
        code == 0 ==> error_of_code(code) is None,
{
}

} // verus!
