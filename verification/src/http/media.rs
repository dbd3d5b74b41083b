//! `POST /v1/audio/transcriptions`: the multipart form read field by field
//! (the caller reads each field and hands it over), and the request it gives
//! to the speech-to-text provider.

use vstd::prelude::*;
use vstd::string::*;

use crate::http::error::AppError;
use crate::text::{owned, str_eq};

verus! {

/// Largest audio file accepted (25 MiB, OpenAI's limit).
pub const MAX_AUDIO_BYTES: usize = 26_214_400;

/// Refusal of a larger file.
pub const ERR_AUDIO_TOO_LARGE: &'static str = "Audio file exceeds 25 MB";

/// Refusal of a form without a file.
pub const ERR_MISSING_FILE: &'static str = "Missing required field: file";

/// Refusal when no Whisper provider is registered.
pub const ERR_NO_WHISPER: &'static str = "No active Whisper provider registered";

/// What is sent to the speech-to-text provider.
#[derive(Debug, Clone, PartialEq, Eq)]
pub struct TranscriptionRequest {
    pub audio_bytes: Vec<u8>,
    pub language: Option<String>,
    pub diarize: bool,
}

/// The form read so far.
#[derive(Debug, Clone, PartialEq, Eq)]
pub struct TranscriptionForm {
    pub audio: Option<Vec<u8>>,
    pub language: Option<String>,
    pub diarize: bool,
}

impl TranscriptionForm {
    /// Nothing read yet.
    pub fn new() -> (r: TranscriptionForm)
        ensures
            r.audio is None && r.language is None && !r.diarize,
    {
        TranscriptionForm { audio: None, language: None, diarize: false }
    }

    /// Takes one field of the form. `file` keeps its bytes (a file over
    /// 25 MiB is refused); a non-empty `language` is kept; `diarize` is on
    /// exactly for `"true"`; other fields (`model`, `prompt`, ...) are
    /// accepted and ignored. A later field of the same name replaces an
    /// earlier one.
    pub fn on_field(&mut self, name: &str, data: Vec<u8>, text: &str) -> (r: Result<(), AppError>)
        ensures
            name@ == "file"@ && data@.len() > MAX_AUDIO_BYTES ==> (r matches Err(AppError::BadRequest(m)) && m@
                == ERR_AUDIO_TOO_LARGE@),
            name@ == "file"@ && data@.len() <= MAX_AUDIO_BYTES ==> r is Ok && final(self).audio == Some(data)
                && final(self).language == old(self).language && final(self).diarize == old(self).diarize,
            name@ == "language"@ ==> r is Ok && final(self).audio == old(self).audio && final(self).diarize
                == old(self).diarize && if text@.len() > 0 {
                final(self).language matches Some(l) && l@ == text@
            } else {
                final(self).language == old(self).language
            },
            name@ == "diarize"@ ==> r is Ok && final(self).audio == old(self).audio && final(self).language
                == old(self).language && final(self).diarize == (text@ == "true"@),
            name@ != "file"@ && name@ != "language"@ && name@ != "diarize"@ ==> r is Ok && *final(self) == *old(self),
    {
        proof {
            reveal_strlit("file");
            reveal_strlit("language");
            reveal_strlit("diarize");
            assert("file"@.len() != "language"@.len() && "file"@.len() != "diarize"@.len());
            assert("language"@.len() != "diarize"@.len());
        }
        if str_eq(name, "file") {
            if data.len() > MAX_AUDIO_BYTES {
                return Err(AppError::BadRequest(owned(ERR_AUDIO_TOO_LARGE)));
            }
            self.audio = Some(data);
        } else if str_eq(name, "language") {
            if text.unicode_len() > 0 {
                self.language = Some(owned(text));
            }
        } else if str_eq(name, "diarize") {
            self.diarize = str_eq(text, "true");
        }
        Ok(())
    }

    /// The request for the provider; a form without a file is refused.
    pub fn finish(self) -> (r: Result<TranscriptionRequest, AppError>)
        ensures
            match self.audio {
                Some(a) => r == Ok::<TranscriptionRequest, AppError>(
                    TranscriptionRequest { audio_bytes: a, language: self.language, diarize: self.diarize },
                ),
                None => r matches Err(AppError::BadRequest(m)) && m@ == ERR_MISSING_FILE@,
            },
    {
        match self.audio {
            Some(a) => Ok(TranscriptionRequest { audio_bytes: a, language: self.language, diarize: self.diarize }),
            None => Err(AppError::BadRequest(owned(ERR_MISSING_FILE))),
        }
    }
}

} // verus!
