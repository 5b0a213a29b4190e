//! State, event and effect types of the form, with their mathematical views.
use vstd::prelude::*;

verus! {

/// Marker for the form's static images (logo and icons). The front end
/// embeds the files on its own copy of this type.
pub struct Assets;

/// Paper size of the generated document.
#[derive(Clone, Copy, Debug, PartialEq, Eq, Structural)]
pub enum PageSize {
    A4,
    Letter,
}

/// Events that drive the form: user edits and presses, and the completions
/// of asynchronous work.
#[derive(Debug, Clone)]
pub enum Message {
    TitleChanged(String),
    PassphraseChanged(String),
    /// The full text of the inline secret editor after an edit.
    SecretContentChanged(String),
    /// The contents of the picked secret file, once read.
    SecretFileChanged(Vec<u8>),
    /// The outcome of the file dialog: the picked file's name, or `None`
    /// when the dialog was dismissed.
    SecretFileLoad(Option<String>),
    SecretFilePick,
    PageSizeChanged(PageSize),
    NotesLabelChanged(String),
    ToggleExtraSpoiler,
    GeneratePdf,
    SaveSecretPdf(Vec<u8>),
    GenerateDone,
    SecretWarning(String),
    GenerateWarning(String),
    PassphraseWarning(String),
    /// Writing the saved document failed, for the reason given.
    SaveFailed(String),
    /// Selects the secret source: `true` for a file, `false` for inline text.
    ToggleSecretSource(bool),
    ResetWarning,
}

/// Mathematical view of a [`Message`].
pub enum MessageView {
    TitleChanged(Seq<char>),
    PassphraseChanged(Seq<char>),
    SecretContentChanged(Seq<char>),
    SecretFileChanged(Seq<u8>),
    SecretFileLoad(Option<Seq<char>>),
    SecretFilePick,
    PageSizeChanged(PageSize),
    NotesLabelChanged(Seq<char>),
    ToggleExtraSpoiler,
    GeneratePdf,
    SaveSecretPdf(Seq<u8>),
    GenerateDone,
    SecretWarning(Seq<char>),
    GenerateWarning(Seq<char>),
    PassphraseWarning(Seq<char>),
    SaveFailed(Seq<char>),
    ToggleSecretSource(bool),
    ResetWarning,
}

pub open spec fn opt_str_view(o: Option<String>) -> Option<Seq<char>> {
    match o {
        Some(s) => Some(s@),
        None => None,
    }
}

pub open spec fn opt_bytes_view(o: Option<Vec<u8>>) -> Option<Seq<u8>> {
    match o {
        Some(b) => Some(b@),
        None => None,
    }
}

impl View for Message {
    type V = MessageView;

    open spec fn view(&self) -> MessageView {
        match self {
            Message::TitleChanged(d) => MessageView::TitleChanged(d@),
            Message::PassphraseChanged(d) => MessageView::PassphraseChanged(d@),
            Message::SecretContentChanged(d) => MessageView::SecretContentChanged(d@),
            Message::SecretFileChanged(b) => MessageView::SecretFileChanged(b@),
            Message::SecretFileLoad(n) => MessageView::SecretFileLoad(opt_str_view(*n)),
            Message::SecretFilePick => MessageView::SecretFilePick,
            Message::PageSizeChanged(p) => MessageView::PageSizeChanged(*p),
            Message::NotesLabelChanged(d) => MessageView::NotesLabelChanged(d@),
            Message::ToggleExtraSpoiler => MessageView::ToggleExtraSpoiler,
            Message::GeneratePdf => MessageView::GeneratePdf,
            Message::SaveSecretPdf(b) => MessageView::SaveSecretPdf(b@),
            Message::GenerateDone => MessageView::GenerateDone,
            Message::SecretWarning(w) => MessageView::SecretWarning(w@),
            Message::GenerateWarning(w) => MessageView::GenerateWarning(w@),
            Message::PassphraseWarning(w) => MessageView::PassphraseWarning(w@),
            Message::SaveFailed(e) => MessageView::SaveFailed(e@),
            Message::ToggleSecretSource(b) => MessageView::ToggleSecretSource(*b),
            Message::ResetWarning => MessageView::ResetWarning,
        }
    }
}

/// The views of a sequence of messages, in order.
pub open spec fn views(ms: Seq<Message>) -> Seq<MessageView> {
    ms.map_values(|m: Message| m@)
}

/// A snapshot of what the generation flow reads from the form.
pub struct GenerateRequest {
    pub title: String,
    pub notes_label: String,
    pub page_size: PageSize,
    /// The bytes of the active secret source; `None` when the file source is
    /// active and no file has been loaded.
    pub secret: Option<Vec<u8>>,
    pub passphrase: String,
}

pub struct RequestView {
    pub title: Seq<char>,
    pub notes_label: Seq<char>,
    pub page_size: PageSize,
    pub secret: Option<Seq<u8>>,
    pub passphrase: Seq<char>,
}

impl View for GenerateRequest {
    type V = RequestView;

    open spec fn view(&self) -> RequestView {
        RequestView {
            title: self.title@,
            notes_label: self.notes_label@,
            page_size: self.page_size,
            secret: opt_bytes_view(self.secret),
            passphrase: self.passphrase@,
        }
    }
}

/// Asynchronous work requested by a transition. Its driver runs it and feeds
/// the resulting messages back to [`App::update`].
pub enum Effect {
    /// Run the generation chain ([`crate::generate::generation_chain`]) on
    /// this snapshot.
    Generate(GenerateRequest),
    /// Open the file dialog; its outcome comes back as `SecretFileLoad`.
    PickFile,
    /// Read the picked file; its bytes come back as `SecretFileChanged`.
    ReadFile,
    /// Offer these bytes to be saved through the save dialog.
    Save(Vec<u8>),
}

pub enum EffectView {
    Generate(RequestView),
    PickFile,
    ReadFile,
    Save(Seq<u8>),
}

impl View for Effect {
    type V = EffectView;

    open spec fn view(&self) -> EffectView {
        match self {
            Effect::Generate(r) => EffectView::Generate(r@),
            Effect::PickFile => EffectView::PickFile,
            Effect::ReadFile => EffectView::ReadFile,
            Effect::Save(b) => EffectView::Save(b@),
        }
    }
}

pub open spec fn opt_effect_view(o: Option<Effect>) -> Option<EffectView> {
    match o {
        Some(e) => Some(e@),
        None => None,
    }
}

} // verus!
