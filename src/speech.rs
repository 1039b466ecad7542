//! The speech-synthesis adapter. The engine itself is a collaborator: these
//! functions read its status codes, refuse an empty result, and shape the
//! response, which carries the audio as a `audio/wav` attachment.
use crate::http::{attachment_ok, attachment_pairs, bad_request, internal_error, is_internal_error};
use crate::http::{is_error_response, pairs, HttpResponse, Payload, STATUS_BAD_REQUEST, STATUS_OK};
use vstd::prelude::*;
use vstd::string::*;

verus! {

/// The voice used when a request names none.
pub const DEFAULT_VOICE: &'static str = "0";

/// What to synthesize, and in which voice.
#[derive(Clone, Debug)]
pub struct SpeechRequest {
    /// The text to generate audio for.
    pub input: String,
    /// The speaker or voice to use.
    pub voice_selector: String,
}

impl SpeechRequest {
    /// A request for `input`, in the given voice or else in the default one.
    pub fn new(input: String, voice_selector: Option<String>) -> (r: SpeechRequest)
        ensures
            r.input@ == input@,
            r.voice_selector@ == (match voice_selector {
                Some(v) => v@,
                None => DEFAULT_VOICE@,
            }),
    {
        let voice_selector = match voice_selector {
            Some(v) => v,
            None => DEFAULT_VOICE.to_owned(),
        };
        SpeechRequest { input, voice_selector }
    }
}

/// Why the engine gave no audio.
#[derive(Clone, Copy, Debug, PartialEq, Eq, Structural)]
pub enum EngineError {
    /// The engine refused its input.
    Input,
    /// The engine failed while running.
    Runtime,
    /// The engine reported success with no audio.
    NoAudio,
    /// The engine's output does not start with a WAV header.
    NotWav,
}

impl EngineError {
    pub open spec fn message_spec(self) -> Seq<char> {
        match self {
            EngineError::Input => "speech engine input error"@,
            EngineError::Runtime => "speech engine runtime error"@,
            EngineError::NoAudio => "speech engine returned no audio"@,
            EngineError::NotWav => "speech engine returned audio that is not WAV"@,
        }
    }

    /// A short description of the failure.
    pub fn message(&self) -> (r: &'static str)
        ensures
            r@ == self.message_spec(),
    {
        match self {
            EngineError::Input => "speech engine input error",
            EngineError::Runtime => "speech engine runtime error",
            EngineError::NoAudio => "speech engine returned no audio",
            EngineError::NotWav => "speech engine returned audio that is not WAV",
        }
    }
}

/// The meaning of the status that the engine's inference call returns: `-1`
/// for refused input, any other negative value for a runtime failure, and
/// otherwise the length of the audio to fetch.
pub open spec fn infer_status_spec(code: int) -> Result<nat, EngineError> {
    if code == -1 {
        Err(EngineError::Input)
    } else if code < 0 {
        Err(EngineError::Runtime)
    } else {
        Ok(code as nat)
    }
}

/// Reads the status of the engine's inference call.
pub fn infer_status(code: i32) -> (r: Result<usize, EngineError>)
    ensures
        match infer_status_spec(code as int) {
            Ok(n) => r == Ok::<usize, EngineError>(n as usize),
            Err(e) => r == Err::<usize, EngineError>(e),
        },
{
    if code == -1 {
        Err(EngineError::Input)
    } else if code < 0 {
        Err(EngineError::Runtime)
    } else {
        Ok(code as usize)
    }
}

/// Reads the status of the call that copies the audio out of the engine:
/// `-2` is a runtime failure, anything else hands over the buffer.
pub fn output_status(code: i32, buffer: Vec<u8>) -> (r: Result<Vec<u8>, EngineError>)
    ensures
        code == -2 ==> r == Err::<Vec<u8>, EngineError>(EngineError::Runtime),
        code != -2 ==> r == Ok::<Vec<u8>, EngineError>(buffer),
{
    if code == -2 {
        Err(EngineError::Runtime)
    } else {
        Ok(buffer)
    }
}

/// Whether bytes start with a WAV header: the chunk tag `RIFF` in bytes
/// 0..4 and, when there are at least 12 bytes, the form type `WAVE` in bytes
/// 8..12.
pub open spec fn has_wav_header(b: Seq<u8>) -> bool {
    &&& b.len() >= 4
    &&& b[0] == 0x52u8 && b[1] == 0x49u8 && b[2] == 0x46u8 && b[3] == 0x46u8
    &&& b.len() >= 12 ==> (b[8] == 0x57u8 && b[9] == 0x41u8 && b[10] == 0x56u8 && b[11]
        == 0x45u8)
}

/// Whether `audio` starts with a WAV header.
pub fn is_wav(audio: &Vec<u8>) -> (r: bool)
    ensures
        r == has_wav_header(audio@),
{
    if audio.len() < 4 {
        return false;
    }
    if !(audio[0] == 0x52u8 && audio[1] == 0x49u8 && audio[2] == 0x46u8 && audio[3] == 0x46u8) {
        return false;
    }
    audio.len() < 12 || (audio[8] == 0x57u8 && audio[9] == 0x41u8 && audio[10] == 0x56u8
        && audio[11] == 0x45u8)
}

/// The result of synthesis from the engine's outcome: the audio when there
/// is some and it starts with a WAV header, and a tagged failure otherwise.
/// Success never holds zero bytes.
pub fn create_speech(engine: Result<Vec<u8>, EngineError>) -> (r: Result<Vec<u8>, EngineError>)
    ensures
        match engine {
            Ok(audio) => if audio@.len() == 0 {
                r == Err::<Vec<u8>, EngineError>(EngineError::NoAudio)
            } else if !has_wav_header(audio@) {
                r == Err::<Vec<u8>, EngineError>(EngineError::NotWav)
            } else {
                r == Ok::<Vec<u8>, EngineError>(audio)
            },
            Err(e) => r == Err::<Vec<u8>, EngineError>(e),
        },
        r matches Ok(audio) ==> audio@.len() > 0 && has_wav_header(audio@),
{
    match engine {
        Ok(audio) => {
            if audio.len() == 0 {
                Err(EngineError::NoAudio)
            } else if !is_wav(&audio) {
                Err(EngineError::NotWav)
            } else {
                Ok(audio)
            }
        },
        Err(e) => Err(e),
    }
}

/// How far a speech request got before its response.
#[derive(Debug)]
pub enum SpeechOutcome {
    /// The request body could not be read.
    UnreadableBody { detail: String },
    /// The body is not a speech request.
    MalformedRequest { detail: String },
    /// The engine ran, with this outcome.
    Synthesized { engine: Result<Vec<u8>, EngineError> },
    /// The engine failed and described the failure itself.
    EngineFailed { detail: String },
}

pub open spec fn unreadable_body_message(detail: Seq<char>) -> Seq<char> {
    "Fail to read buffer from request body. "@ + detail
}

pub open spec fn malformed_request_message(detail: Seq<char>) -> Seq<char> {
    "Fail to deserialize speech request: "@ + detail
}

pub open spec fn synthesis_failed_message(e: EngineError) -> Seq<char> {
    synthesis_failed_detail(e.message_spec())
}

pub open spec fn synthesis_failed_detail(detail: Seq<char>) -> Seq<char> {
    "Failed to transcribe the audio. "@ + detail
}

/// The response to a speech request. Audio goes back as the attachment
/// `audio.wav` of type `audio/wav`; a malformed request is a bad request and
/// every other failure an internal error.
pub fn audio_speech_handler(outcome: SpeechOutcome) -> (r: HttpResponse)
    ensures
        match outcome {
            SpeechOutcome::UnreadableBody { detail } => is_internal_error(
                r,
                unreadable_body_message(detail@),
            ),
            SpeechOutcome::MalformedRequest { detail } => is_error_response(
                r,
                STATUS_BAD_REQUEST,
                malformed_request_message(detail@),
            ),
            SpeechOutcome::Synthesized { engine } => match engine {
                Ok(audio) => if audio@.len() == 0 {
                    is_internal_error(r, synthesis_failed_message(EngineError::NoAudio))
                } else if !has_wav_header(audio@) {
                    is_internal_error(r, synthesis_failed_message(EngineError::NotWav))
                } else {
                    &&& r.status == STATUS_OK
                    &&& pairs(r.headers@) == attachment_pairs("audio/wav"@, "audio.wav"@)
                    &&& r.body == Payload::Bytes(audio)
                },
                Err(e) => is_internal_error(r, synthesis_failed_message(e)),
            },
            SpeechOutcome::EngineFailed { detail } => is_internal_error(
                r,
                synthesis_failed_detail(detail@),
            ),
        },
{
    match outcome {
        SpeechOutcome::UnreadableBody { detail } => {
            let message = String::from_str("Fail to read buffer from request body. ").concat(
                detail.as_str(),
            );
            internal_error(message.as_str())
        },
        SpeechOutcome::MalformedRequest { detail } => {
            let message = String::from_str("Fail to deserialize speech request: ").concat(
                detail.as_str(),
            );
            bad_request(message.as_str())
        },
        SpeechOutcome::Synthesized { engine } => match create_speech(engine) {
            Ok(audio) => attachment_ok("audio/wav", "audio.wav", audio),
            Err(e) => {
                let message = String::from_str("Failed to transcribe the audio. ").concat(
                    e.message(),
                );
                internal_error(message.as_str())
            },
        },
        SpeechOutcome::EngineFailed { detail } => {
            let message = String::from_str("Failed to transcribe the audio. ").concat(
                detail.as_str(),
            );
            internal_error(message.as_str())
        },
    }
}

} // verus!
