//! The generation flow: validate a snapshot of the form, call the document
//! generator, and turn its outcome into messages.
use vstd::prelude::*;
use vstd::string::StringExecFns;
use paper_age::convenience::PaperAgeError;
use crate::model::{views, GenerateRequest, Message, MessageView, PageSize, RequestView};

verus! {

#[verifier::external_type_specification]
#[verifier::external_body]
pub struct ExPaperAgeError(PaperAgeError);

/// The secret's warning, if the secret cannot be used: no file loaded, or no
/// bytes.
pub open spec fn secret_warning_for(secret: Option<Seq<u8>>) -> Option<Seq<char>> {
    match secret {
        None => Some("Select file"@),
        Some(b) => if b.len() == 0 {
            Some("Secret is empty"@)
        } else {
            None
        },
    }
}

/// The passphrase's warning, if it is empty.
pub open spec fn passphrase_warning_for(p: Seq<char>) -> Option<Seq<char>> {
    if p.len() == 0 {
        Some("Passphrase is empty"@)
    } else {
        None
    }
}

/// Every validation failure of a request, secret first; both fields are
/// checked even when the first fails.
pub open spec fn validation_warnings(r: RequestView) -> Seq<MessageView> {
    (match secret_warning_for(r.secret) {
        Some(w) => seq![MessageView::SecretWarning(w)],
        None => Seq::empty(),
    }) + (match passphrase_warning_for(r.passphrase) {
        Some(w) => seq![MessageView::PassphraseWarning(w)],
        None => Seq::empty(),
    })
}

pub open spec fn title_or_default(t: Seq<char>) -> Seq<char> {
    if t.len() == 0 {
        "PaperAge"@
    } else {
        t
    }
}

pub open spec fn notes_label_or_default(n: Seq<char>) -> Seq<char> {
    if n.len() == 0 {
        "Passphrase:"@
    } else {
        n
    }
}

/// The arguments handed to the document generator.
pub struct PdfInput {
    pub title: String,
    pub secret: Vec<u8>,
    pub passphrase: String,
    pub notes_label: String,
    pub page_size: PageSize,
    /// Leave out the line under the notes label.
    pub skip_notes_line: bool,
    /// Draw the layout grid used when debugging the page.
    pub grid: bool,
}

/// The input that a valid request hands to the generator: defaults for an
/// empty title and notes label, everything else as requested, the notes
/// line kept and the grid off.
pub open spec fn input_matches(i: PdfInput, r: RequestView) -> bool {
    &&& r.secret == Some(i.secret@)
    &&& i.title@ == title_or_default(r.title)
    &&& i.notes_label@ == notes_label_or_default(r.notes_label)
    &&& i.passphrase@ == r.passphrase
    &&& i.page_size == r.page_size
    &&& !i.skip_notes_line
    &&& !i.grid
}

/// The messages that a generator outcome becomes: the document to save, or
/// the failure's text as the generation warning.
pub open spec fn outcome_view(res: Result<Seq<u8>, Seq<char>>) -> Seq<MessageView> {
    match res {
        Ok(b) => seq![MessageView::SaveSecretPdf(b)],
        Err(e) => seq![MessageView::GenerateWarning("Error: "@ + e)],
    }
}

pub open spec fn result_view(res: Result<Vec<u8>, String>) -> Result<Seq<u8>, Seq<char>> {
    match res {
        Ok(b) => Ok(b@),
        Err(e) => Err(e@),
    }
}

/// What the generation flow may emit for a request: its validation warnings
/// if it has any, and otherwise the messages of some generator outcome.
pub open spec fn generation_messages(r: RequestView, ms: Seq<MessageView>) -> bool {
    if validation_warnings(r).len() > 0 {
        ms == validation_warnings(r)
    } else {
        exists|res: Result<Seq<u8>, Seq<char>>| ms == outcome_view(res)
    }
}

/// What the whole generation chain may emit for a request: a reset of the
/// warnings, the generation flow's messages, and the closing `GenerateDone`.
pub open spec fn chain_messages(r: RequestView, ms: Seq<MessageView>) -> bool {
    &&& ms.len() >= 2
    &&& ms[0] == MessageView::ResetWarning
    &&& ms.last() == MessageView::GenerateDone
    &&& generation_messages(r, ms.subrange(1, ms.len() - 1))
}

/// Checks the request's secret and passphrase. A valid request becomes the
/// generator's input; an invalid one becomes all of its warnings.
pub fn prepare(req: GenerateRequest) -> (r: Result<PdfInput, Vec<Message>>)
    ensures
        match r {
            Ok(i) => validation_warnings(req@).len() == 0 && input_matches(i, req@),
            Err(ms) => validation_warnings(req@).len() > 0 && views(ms@) == validation_warnings(req@),
        },
{
    let mut warnings: Vec<Message> = Vec::new();
    match &req.secret {
        None => warnings.push(Message::SecretWarning(String::from_str("Select file"))),
        Some(b) => {
            if b.len() == 0 {
                warnings.push(Message::SecretWarning(String::from_str("Secret is empty")));
            }
        },
    }
    if req.passphrase.as_str().is_empty() {
        warnings.push(Message::PassphraseWarning(String::from_str("Passphrase is empty")));
    }
    assert(views(warnings@) =~= validation_warnings(req@));
    if warnings.len() > 0 {
        return Err(warnings);
    }
    let title = if req.title.as_str().is_empty() {
        String::from_str("PaperAge")
    } else {
        req.title
    };
    let notes_label = if req.notes_label.as_str().is_empty() {
        String::from_str("Passphrase:")
    } else {
        req.notes_label
    };
    match req.secret {
        Some(secret) => Ok(
            PdfInput {
                title,
                secret,
                passphrase: req.passphrase,
                notes_label,
                page_size: req.page_size,
                skip_notes_line: false,
                grid: false,
            },
        ),
        None => Err(warnings),
    }
}

/// Relies on `paper_age::convenience::create_pdf`: encrypts the secret under
/// the passphrase and lays out the document. The encryption draws a fresh
/// random key, so nothing is stated of the bytes or of when it fails.
#[verifier::external_body]
fn create_pdf(input: &PdfInput) -> (r: Result<Vec<u8>, PaperAgeError>) {
    let page_size = match input.page_size {
        PageSize::A4 => paper_age::page::PageSize::A4,
        PageSize::Letter => paper_age::page::PageSize::Letter,
    };
    paper_age::convenience::create_pdf(
        input.title.clone(),
        &mut input.secret.as_slice(),
        input.passphrase.as_str(),
        Some(input.notes_label.clone()),
        Some(input.skip_notes_line),
        Some(page_size),
        Some(input.grid),
    )
}

/// Runs the document generator on the input that `r` calls for, and on no
/// other: the caller must show that the input matches the request.
fn run_generator(input: &PdfInput, Ghost(r): Ghost<RequestView>) -> (res: Result<
    Vec<u8>,
    PaperAgeError,
>)
    requires
        validation_warnings(r).len() == 0,
        input_matches(*input, r),
{
    create_pdf(input)
}

/// Turns the generator's outcome into messages: the document goes on to be
/// saved, a failure becomes the generation warning `Error: <text>`.
pub fn outcome_messages(res: Result<Vec<u8>, String>) -> (r: Vec<Message>)
    ensures
        views(r@) == outcome_view(result_view(res)),
{
    let m = match res {
        Ok(pdf) => Message::SaveSecretPdf(pdf),
        Err(text) => {
            let mut w = String::from_str("Error: ");
            w.append(text.as_str());
            Message::GenerateWarning(w)
        },
    };
    let r = vec![m];
    assert(views(r@) =~= seq![m@]);
    r
}

/// The generation flow on a snapshot: validation, then, only if both the
/// secret and the passphrase pass, one call of the document generator on
/// exactly the input that [`prepare`] made.
pub fn generate_pdf(req: GenerateRequest) -> (r: Vec<Message>)
    ensures
        generation_messages(req@, views(r@)),
{
    let ghost rv = req@;
    match prepare(req) {
        Err(warnings) => warnings,
        Ok(input) => {
            let res = run_generator(&input, Ghost(rv));
            let outcome = match res {
                Ok(pdf) => Ok(pdf),
                Err(e) => Err(e.to_string()),
            };
            let ghost witness = result_view(outcome);
            let r = outcome_messages(outcome);
            assert(views(r@) == outcome_view(witness));
            r
        },
    }
}

/// The whole chain that an accepted generation request runs: reset the
/// warnings, run the generation flow, and always finish with `GenerateDone`.
pub fn generation_chain(req: GenerateRequest) -> (r: Vec<Message>)
    ensures
        chain_messages(req@, views(r@)),
{
    let ghost rv = req@;
    let mut mid = generate_pdf(req);
    let ghost mid_views = views(mid@);
    let mut r: Vec<Message> = Vec::new();
    r.push(Message::ResetWarning);
    r.append(&mut mid);
    r.push(Message::GenerateDone);
    assert(views(r@).subrange(1, views(r@).len() - 1) =~= mid_views);
    r
}

} // verus!
