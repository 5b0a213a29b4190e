//! The form state and its transition function.
use vstd::prelude::*;
use vstd::slice::slice_to_vec;
use vstd::string::StringExecFns;
use vstd::utf8::encode_utf8;
use crate::model::{
    opt_bytes_view, opt_effect_view, opt_str_view, Effect, EffectView, GenerateRequest, Message,
    MessageView, PageSize, RequestView,
};

verus! {

/// A code point with the Unicode `White_Space` property.
pub open spec fn is_white_space(c: char) -> bool {
    let u = c as u32;
    ||| 0x09 <= u <= 0x0d
    ||| u == 0x20
    ||| u == 0x85
    ||| u == 0xa0
    ||| u == 0x1680
    ||| 0x2000 <= u <= 0x200a
    ||| u == 0x2028
    ||| u == 0x2029
    ||| u == 0x202f
    ||| u == 0x205f
    ||| u == 0x3000
}

/// The text without its leading white space.
pub open spec fn trim_start(s: Seq<char>) -> Seq<char>
    decreases s.len(),
{
    if s.len() > 0 && is_white_space(s[0]) {
        trim_start(s.drop_first())
    } else {
        s
    }
}

/// The text without its trailing white space.
pub open spec fn trim_end(s: Seq<char>) -> Seq<char>
    decreases s.len(),
{
    if s.len() > 0 && is_white_space(s.last()) {
        trim_end(s.drop_last())
    } else {
        s
    }
}

/// The text without its leading and trailing white space.
pub open spec fn trimmed(s: Seq<char>) -> Seq<char> {
    trim_end(trim_start(s))
}

/// Relies on `str::trim`, which removes the leading and trailing code points
/// that have the Unicode `White_Space` property.
#[verifier::external_body]
fn trim_text(s: &str) -> (r: String)
    ensures
        r@ == trimmed(s@),
{
    s.trim().to_string()
}

/// Everything the form needs to render and validate itself.
pub struct App {
    pub title: String,
    pub passphrase: String,
    /// Text of the inline secret editor.
    pub secret_content: String,
    pub secret_file_name: Option<String>,
    pub secret_file_content: Option<Vec<u8>>,
    /// A file dialog is open.
    pub secret_file_loading: bool,
    /// The file, not the inline text, is the active secret source.
    pub is_file_secret: bool,
    pub notes_label: String,
    pub show_extra: bool,
    pub secret_warning: Option<String>,
    pub passphrase_warning: Option<String>,
    pub generate_warning: Option<String>,
    /// A generation chain is in flight.
    pub is_generating: bool,
    pub page_size: PageSize,
}

pub struct AppView {
    pub title: Seq<char>,
    pub passphrase: Seq<char>,
    pub secret_content: Seq<char>,
    pub secret_file_name: Option<Seq<char>>,
    pub secret_file_content: Option<Seq<u8>>,
    pub secret_file_loading: bool,
    pub is_file_secret: bool,
    pub notes_label: Seq<char>,
    pub show_extra: bool,
    pub secret_warning: Option<Seq<char>>,
    pub passphrase_warning: Option<Seq<char>>,
    pub generate_warning: Option<Seq<char>>,
    pub is_generating: bool,
    pub page_size: PageSize,
}

impl View for App {
    type V = AppView;

    open spec fn view(&self) -> AppView {
        AppView {
            title: self.title@,
            passphrase: self.passphrase@,
            secret_content: self.secret_content@,
            secret_file_name: opt_str_view(self.secret_file_name),
            secret_file_content: opt_bytes_view(self.secret_file_content),
            secret_file_loading: self.secret_file_loading,
            is_file_secret: self.is_file_secret,
            notes_label: self.notes_label@,
            show_extra: self.show_extra,
            secret_warning: opt_str_view(self.secret_warning),
            passphrase_warning: opt_str_view(self.passphrase_warning),
            generate_warning: opt_str_view(self.generate_warning),
            is_generating: self.is_generating,
            page_size: self.page_size,
        }
    }
}

/// The state at startup: every text empty, nothing loaded or in flight, A4.
pub open spec fn initial_state() -> AppView {
    AppView {
        title: Seq::empty(),
        passphrase: Seq::empty(),
        secret_content: Seq::empty(),
        secret_file_name: None,
        secret_file_content: None,
        secret_file_loading: false,
        is_file_secret: false,
        notes_label: Seq::empty(),
        show_extra: false,
        secret_warning: None,
        passphrase_warning: None,
        generate_warning: None,
        is_generating: false,
        page_size: PageSize::A4,
    }
}

/// The bytes of the active secret source: the file's bytes if loaded, or
/// the UTF-8 encoding of the trimmed inline text.
pub open spec fn active_secret(s: AppView) -> Option<Seq<u8>> {
    if s.is_file_secret {
        s.secret_file_content
    } else {
        Some(encode_utf8(trimmed(s.secret_content)))
    }
}

/// What a generation request reads from the form.
pub open spec fn snapshot(s: AppView) -> RequestView {
    RequestView {
        title: s.title,
        notes_label: s.notes_label,
        page_size: s.page_size,
        secret: active_secret(s),
        passphrase: s.passphrase,
    }
}

/// The state after one message.
pub open spec fn next_state(s: AppView, m: MessageView) -> AppView {
    match m {
        MessageView::TitleChanged(d) => AppView { title: d, ..s },
        MessageView::PassphraseChanged(d) => AppView { passphrase: d, ..s },
        MessageView::SecretContentChanged(d) => AppView { secret_content: d, ..s },
        MessageView::NotesLabelChanged(d) => AppView { notes_label: d, ..s },
        MessageView::ToggleExtraSpoiler => AppView { show_extra: !s.show_extra, ..s },
        MessageView::GeneratePdf => AppView { is_generating: true, ..s },
        MessageView::SaveSecretPdf(_) => s,
        MessageView::GenerateDone => AppView { is_generating: false, ..s },
        MessageView::SecretWarning(w) => AppView { secret_warning: Some(w), ..s },
        MessageView::PassphraseWarning(w) => AppView { passphrase_warning: Some(w), ..s },
        MessageView::GenerateWarning(w) => AppView { generate_warning: Some(w), ..s },
        MessageView::SaveFailed(e) => AppView { generate_warning: Some("Error: "@ + e), ..s },
        MessageView::ResetWarning => AppView {
            secret_warning: None,
            passphrase_warning: None,
            generate_warning: None,
            ..s
        },
        MessageView::ToggleSecretSource(b) => AppView { is_file_secret: b, ..s },
        MessageView::SecretFileChanged(c) => AppView { secret_file_content: Some(c), ..s },
        MessageView::SecretFilePick => AppView { secret_file_loading: true, ..s },
        MessageView::SecretFileLoad(n) => match n {
            Some(name) => AppView {
                secret_file_loading: false,
                secret_file_name: Some(name),
                ..s
            },
            None => AppView { secret_file_loading: false, ..s },
        },
        MessageView::PageSizeChanged(p) => AppView { page_size: p, ..s },
    }
}

/// The effect that one message asks for, if any.
pub open spec fn next_effect(s: AppView, m: MessageView) -> Option<EffectView> {
    match m {
        MessageView::GeneratePdf => if s.is_generating {
            None
        } else {
            Some(EffectView::Generate(snapshot(s)))
        },
        MessageView::SaveSecretPdf(b) => Some(EffectView::Save(b)),
        MessageView::SecretFilePick => if s.secret_file_loading {
            None
        } else {
            Some(EffectView::PickFile)
        },
        MessageView::SecretFileLoad(Some(_)) => Some(EffectView::ReadFile),
        _ => None,
    }
}

fn copy_bytes(b: &Vec<u8>) -> (r: Vec<u8>)
    ensures
        r@ == b@,
{
    slice_to_vec(b.as_slice())
}

impl Default for App {
    /// A form with every text empty, nothing loaded or in flight, and A4 pages.
    fn default() -> (r: App)
        ensures
            r@ == initial_state(),
    {
        App {
            title: String::new(),
            passphrase: String::new(),
            secret_content: String::new(),
            secret_file_name: None,
            secret_file_content: None,
            secret_file_loading: false,
            is_file_secret: false,
            notes_label: String::new(),
            show_extra: false,
            secret_warning: None,
            passphrase_warning: None,
            generate_warning: None,
            is_generating: false,
            page_size: PageSize::A4,
        }
    }
}

impl App {
    /// The generation request for the current form.
    fn request(&self) -> (r: GenerateRequest)
        ensures
            r@ == snapshot(self@),
    {
        let secret = if self.is_file_secret {
            match &self.secret_file_content {
                Some(b) => Some(copy_bytes(b)),
                None => None,
            }
        } else {
            let trimmed = trim_text(self.secret_content.as_str());
            Some(slice_to_vec(trimmed.as_str().as_bytes()))
        };
        GenerateRequest {
            title: self.title.clone(),
            notes_label: self.notes_label.clone(),
            page_size: self.page_size,
            secret,
            passphrase: self.passphrase.clone(),
        }
    }

    /// Applies one message to the form and returns the work it asks for.
    pub fn update(&mut self, event: Message) -> (r: Option<Effect>)
        ensures
            final(self)@ == next_state(old(self)@, event@),
            opt_effect_view(r) == next_effect(old(self)@, event@),
    {
        match event {
            Message::TitleChanged(data) => {
                self.title = data;
                None
            },
            Message::PassphraseChanged(data) => {
                self.passphrase = data;
                None
            },
            Message::SecretContentChanged(data) => {
                self.secret_content = data;
                None
            },
            Message::NotesLabelChanged(data) => {
                self.notes_label = data;
                None
            },
            Message::ToggleExtraSpoiler => {
                self.show_extra = !self.show_extra;
                None
            },
            Message::GeneratePdf => {
                if self.is_generating {
                    return None;
                }
                let req = self.request();
                self.is_generating = true;
                Some(Effect::Generate(req))
            },
            Message::SaveSecretPdf(content) => Some(Effect::Save(content)),
            Message::GenerateDone => {
                self.is_generating = false;
                None
            },
            Message::SecretWarning(warning) => {
                self.secret_warning = Some(warning);
                None
            },
            Message::PassphraseWarning(warning) => {
                self.passphrase_warning = Some(warning);
                None
            },
            Message::ResetWarning => {
                self.passphrase_warning = None;
                self.secret_warning = None;
                self.generate_warning = None;
                None
            },
            Message::GenerateWarning(warning) => {
                self.generate_warning = Some(warning);
                None
            },
            Message::SaveFailed(text) => {
                let mut w = String::from_str("Error: ");
                w.append(text.as_str());
                self.generate_warning = Some(w);
                None
            },
            Message::ToggleSecretSource(b) => {
                self.is_file_secret = b;
                None
            },
            Message::SecretFileChanged(content) => {
                self.secret_file_content = Some(content);
                None
            },
            Message::SecretFilePick => {
                if self.secret_file_loading {
                    None
                } else {
                    self.secret_file_loading = true;
                    Some(Effect::PickFile)
                }
            },
            Message::SecretFileLoad(handle) => {
                self.secret_file_loading = false;
                match handle {
                    Some(name) => {
                        self.secret_file_name = Some(name);
                        Some(Effect::ReadFile)
                    },
                    None => None,
                }
            },
            Message::PageSizeChanged(page_size) => {
                self.page_size = page_size;
                None
            },
        }
    }
}

} // verus!
