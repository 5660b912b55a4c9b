use webhook_router::classify::Outcome;
use webhook_router::router::{
    advance, begin, file_path_from, slug_from, Completion, Job, Reply, Request, Service, Step,
};

fn reply(status: u16, body: &[u8]) -> Reply {
    Reply { status, body: body.to_vec() }
}

#[test]
fn slug_is_read_from_the_reply() {
    assert_eq!(
        advance(Job::Shortening, reply(200, br#"{"id":"abc123"}"#)),
        Step::Done(Completion::Shortened("abc123".to_string()))
    );
}

#[test]
fn missing_slug_is_empty() {
    assert_eq!(
        advance(Job::Shortening, reply(200, b"{}")),
        Step::Done(Completion::Shortened(String::new()))
    );
    assert_eq!(
        advance(Job::Shortening, reply(201, br#"{"id":null,"link":"https://bit.ly/x"}"#)),
        Step::Done(Completion::Shortened(String::new()))
    );
    assert_eq!(
        advance(Job::Shortening, reply(200, br#"{"id":7}"#)),
        Step::Done(Completion::Shortened(String::new()))
    );
    assert_eq!(
        advance(Job::Shortening, reply(200, b"[]")),
        Step::Done(Completion::Shortened(String::new()))
    );
}

#[test]
fn rate_limit_is_its_own_completion() {
    let limited = advance(Job::Shortening, reply(429, b"{\"message\":\"RATE_LIMIT_EXCEEDED\"}"));
    assert_eq!(limited, Step::Done(Completion::RateLimited));
    let failed = advance(Job::Shortening, reply(500, b"oops"));
    assert_eq!(failed, Step::Done(Completion::Failed(Service::Shortener, 500)));
    assert_ne!(limited, failed);
    assert_ne!(limited, advance(Job::Shortening, reply(428, b"")));
    assert_ne!(limited, advance(Job::Shortening, reply(430, b"")));
}

#[test]
fn rate_limit_status_means_nothing_to_other_services() {
    assert_eq!(
        advance(Job::Transcribing { chat_id: Some(1) }, reply(429, b"")),
        Step::Done(Completion::Failed(Service::Transcription, 429))
    );
    assert_eq!(
        advance(Job::ResolvingFile { chat_id: Some(1) }, reply(429, b"")),
        Step::Done(Completion::Failed(Service::FileLookup, 429))
    );
}

#[test]
fn failed_transcription_sends_nothing() {
    for status in [0u16, 100, 199, 300, 400, 401, 404, 429, 500, 503, u16::MAX] {
        let step = advance(Job::Transcribing { chat_id: Some(5) }, reply(status, b"some text"));
        assert_eq!(step, Step::Done(Completion::Failed(Service::Transcription, status)));
        assert!(!matches!(step, Step::Call(..)));
    }
}

#[test]
fn unreadable_shortening_reply_is_malformed() {
    assert_eq!(
        advance(Job::Shortening, reply(200, b"<html>")),
        Step::Done(Completion::Malformed(Service::Shortener))
    );
    assert_eq!(
        advance(Job::Shortening, reply(200, b"")),
        Step::Done(Completion::Malformed(Service::Shortener))
    );
}

#[test]
fn outcomes_start_with_their_first_call() {
    assert_eq!(
        begin(Outcome::Transcribe("file-1".to_string(), Some(42))),
        Step::Call(
            Job::ResolvingFile { chat_id: Some(42) },
            Request::ResolveFile { file_id: "file-1".to_string() }
        )
    );
    assert_eq!(
        begin(Outcome::Shorten("https://example.com/x".to_string())),
        Step::Call(
            Job::Shortening,
            Request::Shorten {
                long_url: "https://example.com/x".to_string(),
                domain: "bit.ly".to_string()
            }
        )
    );
    assert_eq!(
        begin(Outcome::Ignore("not a valid URL".to_string())),
        Step::Done(Completion::Ignored("not a valid URL".to_string()))
    );
}

#[test]
fn transcription_runs_through_its_four_calls() {
    let step = begin(Outcome::Transcribe("file-1".to_string(), Some(42)));
    let Step::Call(job, _) = step else { panic!("no call") };

    let step = advance(
        job,
        reply(200, br#"{"ok":true,"result":{"file_id":"file-1","file_path":"voice/file_0.oga"}}"#),
    );
    assert_eq!(
        step,
        Step::Call(
            Job::Downloading { chat_id: Some(42) },
            Request::Download { file_path: "voice/file_0.oga".to_string() }
        )
    );
    let Step::Call(job, _) = step else { panic!("no call") };

    let audio = vec![0x4f, 0x67, 0x67, 0x53, 0x00, 0xff, 0x80];
    let step = advance(job, Reply { status: 200, body: audio.clone() });
    assert_eq!(
        step,
        Step::Call(
            Job::Transcribing { chat_id: Some(42) },
            Request::Transcribe {
                audio,
                mime_type: "audio/ogg".to_string(),
                model: "whisper-1".to_string(),
                response_format: "text".to_string(),
            }
        )
    );
    let Step::Call(job, _) = step else { panic!("no call") };

    let step = advance(job, reply(200, "Dzie\u{144} dobry\n".as_bytes()));
    assert_eq!(
        step,
        Step::Call(
            Job::Sending { transcript: "Dzie\u{144} dobry\n".to_string() },
            Request::Send { chat_id: Some(42), text: "Dzie\u{144} dobry\n".to_string() }
        )
    );
    let Step::Call(job, _) = step else { panic!("no call") };

    assert_eq!(
        advance(job, reply(200, br#"{"ok":true}"#)),
        Step::Done(Completion::Transcribed("Dzie\u{144} dobry\n".to_string()))
    );
}

#[test]
fn absent_chat_is_handed_on_as_absent() {
    let Step::Call(job, _) = begin(Outcome::Transcribe("f".to_string(), None)) else {
        panic!("no call")
    };
    let Step::Call(job, _) = advance(job, reply(200, br#"{"result":{"file_path":"p"}}"#)) else {
        panic!("no call")
    };
    let Step::Call(job, _) = advance(job, reply(200, b"bytes")) else { panic!("no call") };
    assert_eq!(
        advance(job, reply(204, b"hello")),
        Step::Call(
            Job::Sending { transcript: "hello".to_string() },
            Request::Send { chat_id: None, text: "hello".to_string() }
        )
    );
}

#[test]
fn each_failing_service_ends_the_invocation() {
    assert_eq!(
        advance(Job::ResolvingFile { chat_id: None }, reply(404, b"{}")),
        Step::Done(Completion::Failed(Service::FileLookup, 404))
    );
    assert_eq!(
        advance(Job::Downloading { chat_id: None }, reply(403, b"")),
        Step::Done(Completion::Failed(Service::Download, 403))
    );
    assert_eq!(
        advance(Job::Transcribing { chat_id: None }, reply(500, b"")),
        Step::Done(Completion::Failed(Service::Transcription, 500))
    );
    assert_eq!(
        advance(Job::Sending { transcript: "t".to_string() }, reply(400, b"")),
        Step::Done(Completion::Failed(Service::Messaging, 400))
    );
    assert_eq!(
        advance(Job::Shortening, reply(403, b"{\"id\":\"x\"}")),
        Step::Done(Completion::Failed(Service::Shortener, 403))
    );
}

#[test]
fn success_is_the_range_from_200_to_299() {
    assert!(!reply(199, b"").is_success());
    assert!(reply(200, b"").is_success());
    assert!(reply(204, b"").is_success());
    assert!(reply(299, b"").is_success());
    assert!(!reply(300, b"").is_success());
    assert!(!reply(0, b"").is_success());
}

#[test]
fn missing_file_path_is_empty() {
    assert_eq!(
        advance(Job::ResolvingFile { chat_id: Some(1) }, reply(200, br#"{"ok":true}"#)),
        Step::Call(
            Job::Downloading { chat_id: Some(1) },
            Request::Download { file_path: String::new() }
        )
    );
    assert_eq!(
        advance(Job::ResolvingFile { chat_id: Some(1) }, reply(200, br#"{"result":{"file_path":3}}"#)),
        Step::Call(
            Job::Downloading { chat_id: Some(1) },
            Request::Download { file_path: String::new() }
        )
    );
    assert_eq!(
        advance(Job::ResolvingFile { chat_id: Some(1) }, reply(200, br#"{"file_path":"top"}"#)),
        Step::Call(
            Job::Downloading { chat_id: Some(1) },
            Request::Download { file_path: String::new() }
        )
    );
}

#[test]
fn unreadable_file_lookup_reply_is_malformed() {
    assert_eq!(
        advance(Job::ResolvingFile { chat_id: Some(1) }, reply(200, b"not json")),
        Step::Done(Completion::Malformed(Service::FileLookup))
    );
}

#[test]
fn transcript_that_is_no_text_is_malformed() {
    assert_eq!(
        advance(Job::Transcribing { chat_id: Some(1) }, reply(200, &[0x68, 0x69, 0xff])),
        Step::Done(Completion::Malformed(Service::Transcription))
    );
    assert_eq!(
        advance(Job::Transcribing { chat_id: Some(1) }, reply(200, &[0xed, 0xa0, 0x80])),
        Step::Done(Completion::Malformed(Service::Transcription))
    );
}

#[test]
fn empty_transcript_is_sent_as_it_is() {
    assert_eq!(
        advance(Job::Transcribing { chat_id: Some(1) }, reply(200, b"")),
        Step::Call(
            Job::Sending { transcript: String::new() },
            Request::Send { chat_id: Some(1), text: String::new() }
        )
    );
}

#[test]
fn download_body_is_not_interpreted() {
    let step = advance(Job::Downloading { chat_id: None }, reply(200, br#"{"id":"abc"}"#));
    let Step::Call(_, Request::Transcribe { audio, .. }) = step else { panic!("no upload") };
    assert_eq!(audio, br#"{"id":"abc"}"#.to_vec());
}

#[test]
fn fields_are_read_from_parsed_replies() {
    let doc: serde_json::Value =
        serde_json::from_str(r#"{"id":"bit.ly/3abc","result":{"file_path":"voice/f.oga"}}"#).unwrap();
    assert_eq!(slug_from(&doc), "bit.ly/3abc");
    assert_eq!(file_path_from(&doc), "voice/f.oga");
    let doc = serde_json::Value::String("id".to_string());
    assert_eq!(slug_from(&doc), "");
    assert_eq!(file_path_from(&doc), "");
}
