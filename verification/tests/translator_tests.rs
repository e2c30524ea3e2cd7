use sniper_studio::translator::{
    chapter_number_text, chapter_order, is_txt_file, localize_prompt, on_reply, read_translation, GeminiClient,
    ReplyAction, RetryState,
};

#[test]
fn client_key_choice() {
    match GeminiClient::new(Some("a".into()), Some("b".into())) {
        Ok(c) => assert_eq!(c.api_key, "a"),
        Err(_) => panic!("key given"),
    }
    match GeminiClient::new(None, Some("b".into())) {
        Ok(c) => assert_eq!(c.endpoint(), "https://generativelanguage.googleapis.com/v1beta/models/gemini-2.0-flash:generateContent?key=b"),
        Err(_) => panic!("key in env"),
    }
    match GeminiClient::new(None, None) {
        Ok(_) => panic!("no key"),
        Err(m) => assert_eq!(m, "GEMINI_API_KEY must be set"),
    }
}

#[test]
fn prompt_text() {
    assert_eq!(
        localize_prompt("Hello", "chapter_1.txt"),
        "ROLE: Professional Literary Localizer\nCONTEXT: chapter_1.txt\n\nTEXT:\nHello"
    );
}

#[test]
fn rate_limits_back_off_then_give_up() {
    let mut st = RetryState::start();
    let mut waits = Vec::new();
    loop {
        match on_reply(&mut st, 429) {
            ReplyAction::Wait(s) => waits.push(s),
            ReplyAction::Fail(m) => {
                assert_eq!(m, "Gemini quota exceeded after 5 retries.");
                break;
            }
            ReplyAction::ReadText => panic!("429 is no success"),
        }
    }
    assert_eq!(waits, vec![5, 10, 20, 40]);
    let mut st = RetryState::start();
    assert!(matches!(on_reply(&mut st, 200), ReplyAction::ReadText));
    match on_reply(&mut st, 500) {
        ReplyAction::Fail(m) => assert_eq!(m, "Gemini API non-retryable error"),
        _ => panic!("500 fails"),
    }
}

#[test]
fn reading_replies() {
    let body = r#"{"candidates":[{"content":{"parts":[{"text":"  Merhaba \n"}]}}]}"#;
    assert_eq!(read_translation(body), Ok("Merhaba".to_string()));
    assert_eq!(read_translation(r#"{"candidates":[]}"#), Err("Gemini response parsing failed".to_string()));
    assert_eq!(read_translation("not json"), Err("Gemini response parsing failed".to_string()));
}

#[test]
fn chapter_files() {
    assert!(is_txt_file("chapter_1.txt"));
    assert!(is_txt_file("a.b.txt"));
    assert!(!is_txt_file(".txt"));
    assert!(!is_txt_file("notes.md"));
    assert!(!is_txt_file("txt"));
    assert!(!is_txt_file(".."));
    assert_eq!(chapter_number_text("chapter_12.txt"), "12");
    assert_eq!(chapter_number_text("chapter_1.5.txt"), "1.5");
    assert_eq!(chapter_number_text(".txt"), ".txt");
}

#[test]
fn chapters_sorted_stably() {
    assert_eq!(chapter_order(&vec![3, 1, 2, 1]), vec![1, 3, 2, 0]);
    assert_eq!(chapter_order(&vec![]), Vec::<usize>::new());
    assert_eq!(chapter_order(&vec![0, 0, 0]), vec![0, 1, 2]);
}
