use tts_api_server::files::{
    delete_file, delete_status, download_file, list_files, retrieve_file, upload_file,
    DeleteFileStatus, Fetched,
};
use tts_api_server::http::{bad_request, internal_error, HttpResponse, Payload};
use tts_api_server::media::{extension_of, media_type_for};
use tts_api_server::speech::{
    audio_speech_handler, create_speech, infer_status, output_status, EngineError,
    SpeechOutcome, SpeechRequest, DEFAULT_VOICE,
};

fn header<'a>(r: &'a HttpResponse, name: &str) -> Option<&'a str> {
    r.headers.iter().find(|h| h.name == name).map(|h| h.value.as_str())
}

fn text_body(r: &HttpResponse) -> String {
    match &r.body {
        Payload::Text(t) => t.clone(),
        _ => panic!("expected a text body"),
    }
}

#[test]
fn extension_table() {
    let table = [
        ("txt", "text/plain"),
        ("json", "application/json"),
        ("png", "image/png"),
        ("jpg", "image/jpeg"),
        ("jpeg", "image/jpeg"),
        ("wav", "audio/wav"),
        ("mp3", "audio/mpeg"),
        ("mp4", "video/mp4"),
        ("md", "text/markdown"),
    ];
    for (ext, media) in table {
        assert_eq!(media_type_for(ext), Some(media));
    }
    for ext in ["exe", "PNG", "", "unknown", "wav2"] {
        assert_eq!(media_type_for(ext), None);
    }
}

#[test]
fn extension_is_text_after_last_dot() {
    assert_eq!(extension_of("a.tar.gz"), Some("gz".to_string()));
    assert_eq!(extension_of("output.wav"), Some("wav".to_string()));
    assert_eq!(extension_of("noext"), None);
    assert_eq!(extension_of("txt"), None);
    assert_eq!(extension_of("trailing."), Some("".to_string()));
}

#[test]
fn error_bodies_are_json_messages() {
    let r = internal_error("boom");
    assert_eq!(r.status, 500);
    assert_eq!(text_body(&r), "{\"message\":\"boom\"}");
    assert_eq!(header(&r, "Content-Type"), Some("application/json"));
    assert_eq!(header(&r, "Access-Control-Allow-Origin"), Some("*"));
    let r = bad_request("say \"hi\"");
    assert_eq!(r.status, 400);
    assert_eq!(text_body(&r), "{\"message\":\"say \\\"hi\\\"\"}");
    let r = internal_error("a\nb\u{1}\\");
    assert_eq!(text_body(&r), "{\"message\":\"a\\nb\\u0001\\\\\"}");
}

#[test]
fn speech_request_defaults_voice() {
    let r = SpeechRequest::new("hello".to_string(), None);
    assert_eq!(r.input, "hello");
    assert_eq!(r.voice_selector, DEFAULT_VOICE);
    let r = SpeechRequest::new("hello".to_string(), Some("3".to_string()));
    assert_eq!(r.voice_selector, "3");
}

#[test]
fn engine_status_codes() {
    assert_eq!(infer_status(-1), Err(EngineError::Input));
    assert_eq!(infer_status(-2), Err(EngineError::Runtime));
    assert_eq!(infer_status(-7), Err(EngineError::Runtime));
    assert_eq!(infer_status(8), Ok(8));
    assert_eq!(output_status(-2, vec![1, 2]), Err(EngineError::Runtime));
    assert_eq!(output_status(0, vec![1, 2]), Ok(vec![1, 2]));
}

#[test]
fn synthesis_never_succeeds_empty() {
    assert_eq!(create_speech(Ok(vec![])), Err(EngineError::NoAudio));
    assert_eq!(create_speech(Ok(vec![7])), Err(EngineError::NotWav));
    let short = b"RIFF".to_vec();
    assert_eq!(create_speech(Ok(short.clone())), Ok(short));
    let full = b"RIFF\x24\x00\x00\x00WAVEfmt ".to_vec();
    assert_eq!(create_speech(Ok(full.clone())), Ok(full));
    let wrong_form = b"RIFF\x24\x00\x00\x00AVI LIST".to_vec();
    assert_eq!(create_speech(Ok(wrong_form)), Err(EngineError::NotWav));
    assert_eq!(create_speech(Err(EngineError::Input)), Err(EngineError::Input));
}

#[test]
fn speech_returns_raw_wav() {
    let wav = b"RIFF\x00\x00\x00\x00".to_vec();
    let r = audio_speech_handler(SpeechOutcome::Synthesized { engine: Ok(wav.clone()) });
    assert_eq!(r.status, 200);
    assert_eq!(header(&r, "Content-Type"), Some("audio/wav"));
    assert_eq!(header(&r, "Content-Disposition"), Some("attachment; filename=audio.wav"));
    match r.body {
        Payload::Bytes(b) => {
            assert_eq!(b.len(), 8);
            assert_eq!(b, wav);
        }
        _ => panic!("audio is a byte body"),
    }
}

#[test]
fn speech_failures() {
    let r = audio_speech_handler(SpeechOutcome::Synthesized { engine: Err(EngineError::Runtime) });
    assert_eq!(r.status, 500);
    assert_eq!(
        text_body(&r),
        "{\"message\":\"Failed to transcribe the audio. speech engine runtime error\"}"
    );
    let r = audio_speech_handler(SpeechOutcome::Synthesized { engine: Ok(vec![]) });
    assert_eq!(r.status, 500);
    let r = audio_speech_handler(SpeechOutcome::Synthesized { engine: Ok(vec![1]) });
    assert_eq!(r.status, 500);
    let r = audio_speech_handler(SpeechOutcome::EngineFailed { detail: "no model".to_string() });
    assert_eq!(text_body(&r), "{\"message\":\"Failed to transcribe the audio. no model\"}");
    let r = audio_speech_handler(SpeechOutcome::MalformedRequest { detail: "eof".to_string() });
    assert_eq!(r.status, 400);
    assert_eq!(text_body(&r), "{\"message\":\"Fail to deserialize speech request: eof\"}");
    let r = audio_speech_handler(SpeechOutcome::UnreadableBody { detail: "reset".to_string() });
    assert_eq!(r.status, 500);
}

#[test]
fn retrieve_unknown_file_names_the_id() {
    let r = retrieve_file(
        "file_xyz",
        Fetched::CallFailed { detail: "file not found".to_string() },
    );
    assert_eq!(r.status, 500);
    assert!(text_body(&r).contains("file_xyz"));
}

#[test]
fn json_documents_pass_through() {
    let doc = "{\"id\":\"file_1\",\"bytes\":8}".to_string();
    let r = upload_file(Fetched::Document { json: doc.clone() });
    assert_eq!(r.status, 200);
    assert_eq!(text_body(&r), doc);
    assert_eq!(header(&r, "Content-Type"), Some("application/json"));
    let r = list_files(Fetched::Document { json: "[]".to_string() });
    assert_eq!(text_body(&r), "[]");
    let r = list_files(Fetched::EncodeFailed { detail: "x".to_string() });
    assert_eq!(r.status, 500);
    assert_eq!(text_body(&r), "{\"message\":\"Failed to serialize file list. x\"}");
}

#[test]
fn download_types_by_extension() {
    let bytes = vec![1u8, 2, 3];
    let r = download_file(Ok(("speech.wav".to_string(), bytes.clone())));
    assert_eq!(r.status, 200);
    assert_eq!(header(&r, "Content-Type"), Some("audio/wav"));
    assert_eq!(header(&r, "Content-Disposition"), Some("attachment; filename=speech.wav"));
    assert!(matches!(r.body, Payload::Bytes(ref b) if *b == bytes));
    let r = download_file(Ok(("tool.exe".to_string(), bytes)));
    assert_eq!(r.status, 500);
    assert_eq!(text_body(&r), "{\"message\":\"Unsupported file extension: exe\"}");
    let r = download_file(Ok(("txt".to_string(), vec![1u8])));
    assert_eq!(r.status, 500);
    assert_eq!(
        text_body(&r),
        "{\"message\":\"Unsupported file extension: the file name has none: txt\"}"
    );
    let r = download_file(Err("missing".to_string()));
    assert_eq!(r.status, 500);
}

#[test]
fn delete_twice_reports_then_declines() {
    let first = delete_status(
        "file_1",
        Ok(DeleteFileStatus { id: "file_1".to_string(), object: "file".to_string(), deleted: true }),
    );
    assert!(first.deleted);
    let second = delete_status("file_1", Err("no such directory".to_string()));
    assert!(!second.deleted);
    assert_eq!(second.id, "file_1");
    assert_eq!(second.object, "file");
    let r = delete_file(Ok("{\"deleted\":false}".to_string()));
    assert_eq!(r.status, 200);
    let r = delete_file(Err("bad".to_string()));
    assert_eq!(r.status, 500);
}
