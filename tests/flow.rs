use paper_age_ui::generate::{generate_pdf, generation_chain, outcome_messages, prepare};
use paper_age_ui::{App, Effect, GenerateRequest, Message, PageSize};

fn request_of(app: &mut App) -> GenerateRequest {
    match app.update(Message::GeneratePdf) {
        Some(Effect::Generate(req)) => req,
        _ => panic!("generation request was not accepted"),
    }
}

fn run_chain(app: &mut App, msgs: Vec<Message>) -> Vec<Option<Effect>> {
    let mut effects = Vec::new();
    for m in msgs {
        effects.push(app.update(m));
    }
    effects
}

#[test]
fn empty_inline_secret_and_passphrase_warn_both() {
    let mut app = App::default();
    let req = request_of(&mut app);
    assert!(app.is_generating);
    let chain = generation_chain(req);
    assert_eq!(chain.len(), 4);
    assert!(matches!(chain[0], Message::ResetWarning));
    assert!(matches!(&chain[1], Message::SecretWarning(w) if w == "Secret is empty"));
    assert!(matches!(&chain[2], Message::PassphraseWarning(w) if w == "Passphrase is empty"));
    assert!(matches!(chain[3], Message::GenerateDone));
    let effects = run_chain(&mut app, chain);
    assert!(effects.iter().all(|e| e.is_none()));
    assert_eq!(app.secret_warning.as_deref(), Some("Secret is empty"));
    assert_eq!(app.passphrase_warning.as_deref(), Some("Passphrase is empty"));
    assert_eq!(app.generate_warning, None);
    assert!(!app.is_generating);
}

#[test]
fn defaults_applied_for_empty_title_and_notes_label() {
    let mut app = App::default();
    app.update(Message::SecretContentChanged("hello".to_string()));
    app.update(Message::PassphraseChanged("x".to_string()));
    let req = request_of(&mut app);
    assert_eq!(req.secret.as_deref(), Some(&b"hello"[..]));
    let input = match prepare(req) {
        Ok(i) => i,
        Err(_) => panic!("valid request was rejected"),
    };
    assert_eq!(input.title, "PaperAge");
    assert_eq!(input.notes_label, "Passphrase:");
    assert_eq!(input.secret, b"hello".to_vec());
    assert_eq!(input.passphrase, "x");
    assert_eq!(input.page_size, PageSize::A4);
    assert!(!input.skip_notes_line);
    assert!(!input.grid);

    let produced = vec![1u8, 2, 3];
    let msgs = outcome_messages(Ok(produced.clone()));
    assert_eq!(msgs.len(), 1);
    let mut effects = run_chain(&mut app, msgs);
    match effects.pop() {
        Some(Some(Effect::Save(bytes))) => assert_eq!(bytes, produced),
        _ => panic!("document was not offered for saving"),
    }
}

#[test]
fn given_title_and_notes_label_are_kept() {
    let mut app = App::default();
    app.update(Message::SecretContentChanged("s".to_string()));
    app.update(Message::PassphraseChanged("p".to_string()));
    app.update(Message::TitleChanged("Vault".to_string()));
    app.update(Message::NotesLabelChanged("Hint:".to_string()));
    app.update(Message::PageSizeChanged(PageSize::Letter));
    let req = request_of(&mut app);
    match prepare(req) {
        Ok(i) => {
            assert_eq!(i.title, "Vault");
            assert_eq!(i.notes_label, "Hint:");
            assert_eq!(i.page_size, PageSize::Letter);
        }
        Err(_) => panic!("valid request was rejected"),
    }
}

#[test]
fn inline_secret_is_trimmed() {
    let mut app = App::default();
    app.update(Message::SecretContentChanged("  hello \n".to_string()));
    let req = request_of(&mut app);
    assert_eq!(req.secret.as_deref(), Some(&b"hello"[..]));
}

#[test]
fn whitespace_only_secret_is_empty() {
    let mut app = App::default();
    app.update(Message::SecretContentChanged(" \n\t ".to_string()));
    app.update(Message::PassphraseChanged("pw".to_string()));
    let req = request_of(&mut app);
    let msgs = generate_pdf(req);
    assert_eq!(msgs.len(), 1);
    assert!(matches!(&msgs[0], Message::SecretWarning(w) if w == "Secret is empty"));
}

#[test]
fn file_source_without_file_asks_to_select() {
    let mut app = App::default();
    app.update(Message::ToggleSecretSource(true));
    app.update(Message::PassphraseChanged("pw".to_string()));
    let req = request_of(&mut app);
    assert!(req.secret.is_none());
    run_chain(&mut app, generation_chain(req));
    assert_eq!(app.secret_warning.as_deref(), Some("Select file"));
    assert_eq!(app.passphrase_warning, None);
    assert!(!app.is_generating);
}

#[test]
fn empty_file_is_an_empty_secret() {
    let mut app = App::default();
    app.update(Message::ToggleSecretSource(true));
    app.update(Message::SecretFileChanged(Vec::new()));
    let req = request_of(&mut app);
    let msgs = generate_pdf(req);
    assert_eq!(msgs.len(), 2);
    assert!(matches!(&msgs[0], Message::SecretWarning(w) if w == "Secret is empty"));
    assert!(matches!(&msgs[1], Message::PassphraseWarning(w) if w == "Passphrase is empty"));
}

#[test]
fn second_pick_while_dialog_open_is_dropped() {
    let mut app = App::default();
    assert!(matches!(app.update(Message::SecretFilePick), Some(Effect::PickFile)));
    assert!(app.secret_file_loading);
    assert!(app.update(Message::SecretFilePick).is_none());
    assert!(matches!(
        app.update(Message::SecretFileLoad(Some("key.txt".to_string()))),
        Some(Effect::ReadFile)
    ));
    assert!(!app.secret_file_loading);
    assert_eq!(app.secret_file_name.as_deref(), Some("key.txt"));
    assert!(app.update(Message::SecretFileChanged(b"abc".to_vec())).is_none());
    assert_eq!(app.secret_file_content.as_deref(), Some(&b"abc"[..]));
    assert!(matches!(app.update(Message::SecretFilePick), Some(Effect::PickFile)));
}

#[test]
fn dismissed_dialog_asks_for_nothing() {
    let mut app = App::default();
    app.update(Message::SecretFilePick);
    assert!(app.update(Message::SecretFileLoad(None)).is_none());
    assert!(!app.secret_file_loading);
    assert_eq!(app.secret_file_name, None);
}

#[test]
fn generator_failure_becomes_warning() {
    let mut app = App::default();
    app.update(Message::SecretContentChanged("hello".to_string()));
    app.update(Message::PassphraseChanged("x".to_string()));
    let _req = request_of(&mut app);
    let msgs = outcome_messages(Err("bad key".to_string()));
    assert_eq!(msgs.len(), 1);
    assert!(matches!(&msgs[0], Message::GenerateWarning(w) if w == "Error: bad key"));
    run_chain(&mut app, msgs);
    app.update(Message::GenerateDone);
    assert_eq!(app.generate_warning.as_deref(), Some("Error: bad key"));
    assert!(!app.is_generating);
}

#[test]
fn request_while_generating_is_dropped() {
    let mut app = App::default();
    app.update(Message::TitleChanged("t".to_string()));
    let _req = request_of(&mut app);
    for _ in 0..3 {
        assert!(app.update(Message::GeneratePdf).is_none());
        assert!(app.is_generating);
        assert_eq!(app.title, "t");
    }
    app.update(Message::GenerateDone);
    assert!(matches!(app.update(Message::GeneratePdf), Some(Effect::Generate(_))));
}

#[test]
fn new_attempt_clears_old_warnings_first() {
    let mut app = App::default();
    app.update(Message::SecretWarning("old".to_string()));
    app.update(Message::PassphraseWarning("old".to_string()));
    app.update(Message::GenerateWarning("old".to_string()));
    app.update(Message::SecretContentChanged("s".to_string()));
    app.update(Message::PassphraseChanged("p".to_string()));
    let req = request_of(&mut app);
    let chain = generation_chain(req);
    assert!(matches!(chain[0], Message::ResetWarning));
    app.update(Message::ResetWarning);
    assert_eq!(app.secret_warning, None);
    assert_eq!(app.passphrase_warning, None);
    assert_eq!(app.generate_warning, None);
    assert!(matches!(chain[chain.len() - 1], Message::GenerateDone));
}

#[test]
fn toggling_source_keeps_both_secrets() {
    let mut app = App::default();
    app.update(Message::SecretContentChanged("typed".to_string()));
    app.update(Message::SecretFileChanged(b"file".to_vec()));
    app.update(Message::ToggleSecretSource(true));
    assert_eq!(app.secret_content, "typed");
    let req = request_of(&mut app);
    assert_eq!(req.secret.as_deref(), Some(&b"file"[..]));
    app.update(Message::GenerateDone);
    app.update(Message::ToggleSecretSource(false));
    assert_eq!(app.secret_file_content.as_deref(), Some(&b"file"[..]));
    let req = request_of(&mut app);
    assert_eq!(req.secret.as_deref(), Some(&b"typed"[..]));
}

#[test]
fn extra_section_toggles() {
    let mut app = App::default();
    assert!(!app.show_extra);
    assert!(app.update(Message::ToggleExtraSpoiler).is_none());
    assert!(app.show_extra);
    app.update(Message::ToggleExtraSpoiler);
    assert!(!app.show_extra);
}

#[test]
fn save_message_asks_to_save() {
    let mut app = App::default();
    match app.update(Message::SaveSecretPdf(vec![9, 8])) {
        Some(Effect::Save(b)) => assert_eq!(b, vec![9, 8]),
        _ => panic!("save was not requested"),
    }
}

#[test]
fn valid_request_produces_document() {
    let mut app = App::default();
    app.update(Message::SecretContentChanged("hello".to_string()));
    app.update(Message::PassphraseChanged("correct horse".to_string()));
    let req = request_of(&mut app);
    let msgs = generate_pdf(req);
    assert_eq!(msgs.len(), 1);
    match &msgs[0] {
        Message::SaveSecretPdf(pdf) => assert!(pdf.starts_with(b"%PDF")),
        Message::GenerateWarning(w) => panic!("generation failed: {}", w),
        _ => panic!("unexpected message"),
    }
}

#[test]
fn accepted_request_leaves_clearing_to_chain() {
    let mut app = App::default();
    app.update(Message::SecretWarning("old".to_string()));
    app.update(Message::GenerateWarning("old".to_string()));
    let req = request_of(&mut app);
    assert!(app.is_generating);
    assert_eq!(app.secret_warning.as_deref(), Some("old"));
    assert_eq!(app.generate_warning.as_deref(), Some("old"));
    let chain = generation_chain(req);
    let mut msgs = chain.into_iter();
    app.update(msgs.next().unwrap());
    assert_eq!(app.secret_warning, None);
    assert_eq!(app.passphrase_warning, None);
    assert_eq!(app.generate_warning, None);
}

#[test]
fn dropped_request_keeps_warnings() {
    let mut app = App::default();
    let _req = request_of(&mut app);
    app.update(Message::PassphraseWarning("kept".to_string()));
    assert!(app.update(Message::GeneratePdf).is_none());
    assert_eq!(app.passphrase_warning.as_deref(), Some("kept"));
}

#[test]
fn failed_save_is_shown() {
    let mut app = App::default();
    assert!(app.update(Message::SaveFailed("disk full".to_string())).is_none());
    assert_eq!(app.generate_warning.as_deref(), Some("Error: disk full"));
}

#[test]
fn unicode_white_space_is_trimmed() {
    let mut app = App::default();
    app.update(Message::SecretContentChanged("\u{3000}\u{a0}hi there\u{2028}\t".to_string()));
    let req = request_of(&mut app);
    assert_eq!(req.secret.as_deref(), Some(&b"hi there"[..]));
}
