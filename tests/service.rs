use img2txt::error::OcrError;
use img2txt::exchange::{Action, Event, Exchange, Phase};
use img2txt::image::{body_buffer, decode_image, image_from_decoded};
use img2txt::pipeline::{assemble_text, recognize_upload};
use img2txt::reply::{outcome_reply, Reply, HTML_PAGE, PLAIN_TEXT};
use img2txt::route::{route, HttpMethod, Route};
use ocrs::{OcrEngine, OcrEngineParams};

fn ppm(width: usize, height: usize, pixels: &[u8]) -> Vec<u8> {
    let mut bytes = format!("P6\n{} {}\n255\n", width, height).into_bytes();
    bytes.extend_from_slice(pixels);
    bytes
}

fn engine_without_models() -> OcrEngine {
    OcrEngine::new(OcrEngineParams::default()).unwrap()
}

#[test]
fn post_to_recognition_path_is_recognized() {
    assert_eq!(route(HttpMethod::Post, "/img2txt"), Route::Recognize);
}

#[test]
fn every_other_request_gets_the_page() {
    assert_eq!(route(HttpMethod::Get, "/img2txt"), Route::UploadPage);
    assert_eq!(route(HttpMethod::Put, "/img2txt"), Route::UploadPage);
    assert_eq!(route(HttpMethod::Post, "/"), Route::UploadPage);
    assert_eq!(route(HttpMethod::Post, "/img2txt/"), Route::UploadPage);
    assert_eq!(route(HttpMethod::Post, "/img2txt?lang=en"), Route::UploadPage);
    assert_eq!(route(HttpMethod::Post, "/img2tx"), Route::UploadPage);
    assert_eq!(route(HttpMethod::Get, ""), Route::UploadPage);
}

#[test]
fn assembly_drops_blank_lines_and_keeps_order() {
    let lines = vec![
        Some("hello".to_string()),
        None,
        Some(String::new()),
        Some("world".to_string()),
        Some("!".to_string()),
    ];
    assert_eq!(assemble_text(&lines), "hello\nworld\n!");
}

#[test]
fn assembly_of_nothing_is_empty() {
    assert_eq!(assemble_text(&vec![]), "");
    assert_eq!(assemble_text(&vec![None, Some(String::new())]), "");
}

#[test]
fn assembly_of_one_line_has_no_break() {
    assert_eq!(assemble_text(&vec![None, Some("word".to_string())]), "word");
}

#[test]
fn empty_buffer_is_a_decode_error() {
    assert_eq!(decode_image(&[]).err(), Some(OcrError::Decode));
}

#[test]
fn garbage_is_a_decode_error() {
    let bytes = b"this is not an image at all".to_vec();
    assert_eq!(decode_image(&bytes).err(), Some(OcrError::Decode));
}

#[test]
fn rgb_image_decodes_to_its_pixels() {
    let pixels = [10u8, 20, 30, 40, 50, 60];
    let img = decode_image(&ppm(2, 1, &pixels)).ok().unwrap();
    assert_eq!(img.width, 2);
    assert_eq!(img.height, 1);
    assert_eq!(img.pixels, pixels.to_vec());
}

#[test]
fn greyscale_image_decodes_to_three_channels() {
    let mut bytes = b"P5\n2 1\n255\n".to_vec();
    bytes.extend_from_slice(&[7, 200]);
    let img = decode_image(&bytes).ok().unwrap();
    assert_eq!(img.width, 2);
    assert_eq!(img.height, 1);
    assert_eq!(img.pixels, vec![7, 7, 7, 200, 200, 200]);
}

#[test]
fn decoder_report_is_checked() {
    assert_eq!(image_from_decoded(vec![0; 6], 2, 1, 4).err(), Some(OcrError::Decode));
    assert_eq!(image_from_decoded(vec![0; 5], 2, 1, 3).err(), Some(OcrError::Decode));
    assert_eq!(image_from_decoded(vec![0; 6], usize::MAX, 2, 3).err(), Some(OcrError::Decode));
    let img = image_from_decoded(vec![1, 2, 3, 4, 5, 6], 1, 2, 3).ok().unwrap();
    assert_eq!((img.width, img.height), (1, 2));
    assert_eq!(img.pixels, vec![1, 2, 3, 4, 5, 6]);
    assert!(image_from_decoded(vec![], 0, 5, 3).is_ok());
}

#[test]
fn body_buffer_reserves_or_fails() {
    let buf = body_buffer(1024).ok().unwrap();
    assert!(buf.is_empty());
    assert!(buf.capacity() >= 1024);
    assert_eq!(body_buffer(usize::MAX).err(), Some(OcrError::Decode));
}

#[test]
fn malformed_upload_fails_before_the_engine() {
    let engine = engine_without_models();
    assert_eq!(recognize_upload(&engine, b"GIF89a-broken").err(), Some(OcrError::Decode));
    assert_eq!(recognize_upload(&engine, &[]).err(), Some(OcrError::Decode));
}

#[test]
fn engine_failure_is_a_pipeline_error() {
    let engine = engine_without_models();
    let bytes = ppm(2, 2, &[255; 12]);
    assert_eq!(recognize_upload(&engine, &bytes).err(), Some(OcrError::Pipeline));
}

#[test]
fn failures_are_answered_alike() {
    for e in [OcrError::Io, OcrError::Decode, OcrError::Prepare, OcrError::Pipeline] {
        match outcome_reply(Err(e)) {
            Reply::Text(t) => assert_eq!(t, ""),
            Reply::UploadPage => panic!("a failure must not be answered with the page"),
        }
    }
}

#[test]
fn recognized_text_is_sent_as_plain_text() {
    let reply = outcome_reply(Ok("abc".to_string()));
    assert_eq!(reply.content_type(), "text/plain");
    match reply {
        Reply::Text(t) => assert_eq!(t, "abc"),
        Reply::UploadPage => panic!("expected text"),
    }
    assert_eq!(Reply::UploadPage.content_type(), "text/html; charset=UTF-8");
    assert_eq!(PLAIN_TEXT, "text/plain");
    assert_eq!(HTML_PAGE, "text/html; charset=UTF-8");
}

#[test]
fn page_request_is_answered_once() {
    let mut ex = Exchange::new();
    assert!(matches!(ex.arrive(HttpMethod::Get, "/"), Action::Send(Reply::UploadPage)));
    assert_eq!(ex.phase, Phase::Responded);
    assert!(matches!(ex.step(Event::Routed(Route::UploadPage)), Action::Idle));
    assert!(matches!(ex.step(Event::Finished(Ok("x".to_string()))), Action::Idle));
    assert_eq!(ex.phase, Phase::Responded);
}

#[test]
fn recognition_request_is_answered_once() {
    let mut ex = Exchange::new();
    assert!(matches!(ex.arrive(HttpMethod::Post, "/img2txt"), Action::Recognize));
    assert_eq!(ex.phase, Phase::Recognizing);
    match ex.step(Event::Finished(Ok("text".to_string()))) {
        Action::Send(Reply::Text(t)) => assert_eq!(t, "text"),
        _ => panic!("expected the text to be sent"),
    }
    assert!(matches!(ex.step(Event::Finished(Err(OcrError::Decode))), Action::Idle));
    assert_eq!(ex.phase, Phase::Responded);
}

#[test]
fn blank_page_is_answered_with_empty_text() {
    let mut ex = Exchange::new();
    assert!(matches!(ex.arrive(HttpMethod::Post, "/img2txt"), Action::Recognize));
    let text = assemble_text(&vec![None, None]);
    match ex.step(Event::Finished(Ok(text))) {
        Action::Send(reply) => {
            assert_eq!(reply.content_type(), "text/plain");
            assert!(matches!(reply, Reply::Text(ref t) if t.is_empty()));
        }
        _ => panic!("expected a reply"),
    }
}

#[test]
fn malformed_upload_is_answered_with_empty_text() {
    let engine = engine_without_models();
    let mut ex = Exchange::new();
    assert!(matches!(ex.arrive(HttpMethod::Post, "/img2txt"), Action::Recognize));
    let outcome = recognize_upload(&engine, b"\x00\x01\x02 not an image");
    match ex.step(Event::Finished(outcome)) {
        Action::Send(Reply::Text(t)) => assert_eq!(t, ""),
        _ => panic!("expected an empty text reply"),
    }
    let mut next = Exchange::new();
    assert!(matches!(next.arrive(HttpMethod::Get, "/"), Action::Send(Reply::UploadPage)));
}

#[test]
fn failed_write_drops_the_connection() {
    let mut ex = Exchange::new();
    ex.arrive(HttpMethod::Get, "/index.html");
    assert!(matches!(ex.step(Event::WriteFailed), Action::Idle));
    assert_eq!(ex.phase, Phase::Dropped);
    assert!(matches!(ex.step(Event::Routed(Route::UploadPage)), Action::Idle));
    assert_eq!(ex.phase, Phase::Dropped);
}

#[test]
fn write_failure_before_routing_changes_nothing() {
    let mut ex = Exchange::new();
    assert!(matches!(ex.step(Event::WriteFailed), Action::Idle));
    assert_eq!(ex.phase, Phase::Received);
}
