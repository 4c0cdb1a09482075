//! Out-of-band mails: the link each mail carries, its text per locale, and
//! the envelope posted to the mail relay.
use vstd::prelude::*;
use crate::frontend_route::{AuthRoute as FrontendAuthRoute, Landing, Route as FrontendRoute};
use crate::text::{find_char, first_index_of, lemma_first_index_bounds};

verus! {

/// The locales mails are written in.
#[derive(Clone, Copy, Debug, PartialEq, Eq, Structural)]
pub enum ContentLanguage {
    English,
    Hebrew,
}

/// Whether unic-langid matches the language tag `tag` against `range`,
/// both taken as ranges.
pub uninterp spec fn language_matches_of(range: Seq<char>, tag: Seq<char>) -> bool;

/// Relies on unic-langid's `LanguageIdentifier::from_bytes` and
/// `LanguageIdentifier::matches(other, true, true)`: whether the two tags
/// match as ranges; `false` when either does not parse.
#[verifier::external_body]
fn language_matches(range: &str, tag: &str) -> (r: bool)
    ensures
        r == language_matches_of(range@, tag@),
{
    match (unic_langid::LanguageIdentifier::from_bytes(range.as_bytes()),
        unic_langid::LanguageIdentifier::from_bytes(tag.as_bytes())) {
        (Ok(a), Ok(b)) => a.matches(&b, true, true),
        _ => false,
    }
}

/// The first entry of a `Content-Language` header: up to the first `,` or `;`.
pub open spec fn first_entry(h: Seq<char>) -> Seq<char> {
    let c = first_index_of(h, ',');
    let s = first_index_of(h, ';');
    h.subrange(0, if c < s { c } else { s })
}

/// The first locale, in the order of `all`, whose tag matches `tag`.
pub open spec fn locale_of_tag(tag: Seq<char>) -> Option<ContentLanguage> {
    if language_matches_of("en"@, tag) {
        Some(ContentLanguage::English)
    } else if language_matches_of("he"@, tag) {
        Some(ContentLanguage::Hebrew)
    } else {
        None
    }
}

pub open spec fn locale_or_default(tag: Seq<char>) -> ContentLanguage {
    match locale_of_tag(tag) {
        Some(l) => l,
        None => ContentLanguage::English,
    }
}

impl ContentLanguage {
    pub fn all() -> (r: Vec<ContentLanguage>)
        ensures
            r@ == seq![ContentLanguage::English, ContentLanguage::Hebrew],
    {
        let mut v: Vec<ContentLanguage> = Vec::new();
        v.push(ContentLanguage::English);
        v.push(ContentLanguage::Hebrew);
        v
    }

    pub open spec fn tag_spec(self) -> Seq<char> {
        match self {
            ContentLanguage::English => "en"@,
            ContentLanguage::Hebrew => "he"@,
        }
    }

    /// The locale's language tag.
    pub fn to_lang_id(&self) -> (r: &'static str)
        ensures
            r@ == self.tag_spec(),
    {
        match self {
            ContentLanguage::English => "en",
            ContentLanguage::Hebrew => "he",
        }
    }

    /// The first locale whose tag matches `tag` as a language range.
    pub fn try_from_lang_id(tag: &str) -> (r: Option<ContentLanguage>)
        ensures
            r == locale_of_tag(tag@),
    {
        let all = ContentLanguage::all();
        let mut i: usize = 0;
        while i < all.len()
            invariant
                all@ == seq![ContentLanguage::English, ContentLanguage::Hebrew],
                0 <= i <= 2,
                forall|k: int| 0 <= k < i ==> !language_matches_of(all@[k].tag_spec(), tag@),
            decreases 2 - i,
        {
            let lang = all[i];
            if language_matches(lang.to_lang_id(), tag) {
                return Some(lang);
            }
            i = i + 1;
        }
        None
    }

    /// The locale a request asks for: the first entry of its
    /// `Content-Language` (else `Accept-Language`) header, up to `,` or `;`,
    /// matched against the locales' tags; English by default.
    pub fn from_headers(content_language: Option<&str>, accept_language: Option<&str>) -> (r: ContentLanguage)
        ensures
            match (content_language, accept_language) {
                (Some(h), _) => r == locale_or_default(first_entry(h@)),
                (None, Some(h)) => r == locale_or_default(first_entry(h@)),
                (None, None) => r == ContentLanguage::English,
            },
    {
        let h = match content_language {
            Some(h) => h,
            None => match accept_language {
                Some(h) => h,
                None => {
                    return ContentLanguage::English;
                },
            },
        };
        proof {
            lemma_first_index_bounds(h@, ',');
            lemma_first_index_bounds(h@, ';');
        }
        let c = find_char(h, ',');
        let s = find_char(h, ';');
        let entry = h.substring_char(0, if c < s { c } else { s });
        match ContentLanguage::try_from_lang_id(entry) {
            Some(l) => l,
            None => ContentLanguage::English,
        }
    }

    /// The text direction of the locale's script.
    pub fn direction(&self) -> (r: &'static str)
        ensures
            r@ == (if *self == ContentLanguage::Hebrew { "rtl"@ } else { "ltr"@ }),
    {
        match self {
            ContentLanguage::English => "ltr",
            ContentLanguage::Hebrew => "rtl",
        }
    }
}

/// The two kinds of out-of-band mail, each carrying a token's id and key.
#[derive(Debug)]
pub enum MailerKind {
    EmailVerification { oob_token_id: String, oob_token_key: String },
    PasswordReset { oob_token_id: String, oob_token_key: String },
}

impl MailerKind {
    /// The frontend page the mail links to.
    pub open spec fn page(&self) -> FrontendRoute {
        match self {
            MailerKind::EmailVerification { oob_token_id, oob_token_key } =>
                FrontendRoute::Landing(Landing::Auth(FrontendAuthRoute::VerifyEmailConfirm {
                    oob_token_id: *oob_token_id,
                    oob_token_key: *oob_token_key,
                })),
            MailerKind::PasswordReset { oob_token_id, oob_token_key } =>
                FrontendRoute::Landing(Landing::Auth(FrontendAuthRoute::PasswordResetConfirm {
                    oob_token_id: *oob_token_id,
                    oob_token_key: *oob_token_key,
                })),
        }
    }

    /// The absolute link the mail carries.
    pub fn link(&self, frontend_domain: &str, frontend_root_path: &str) -> (r: String)
        ensures
            r@ == self.page().link_spec(frontend_domain@, frontend_root_path@),
    {
        let page = match self {
            MailerKind::EmailVerification { oob_token_id, oob_token_key } =>
                FrontendRoute::Landing(Landing::Auth(FrontendAuthRoute::VerifyEmailConfirm {
                    oob_token_id: oob_token_id.clone(),
                    oob_token_key: oob_token_key.clone(),
                })),
            MailerKind::PasswordReset { oob_token_id, oob_token_key } =>
                FrontendRoute::Landing(Landing::Auth(FrontendAuthRoute::PasswordResetConfirm {
                    oob_token_id: oob_token_id.clone(),
                    oob_token_key: oob_token_key.clone(),
                })),
        };
        page.link(frontend_domain, frontend_root_path)
    }

    pub open spec fn subject_spec(&self, lang: ContentLanguage) -> Seq<char> {
        match (self, lang) {
            (MailerKind::EmailVerification { .. }, ContentLanguage::English) => "Verify your email"@,
            (MailerKind::EmailVerification { .. }, ContentLanguage::Hebrew) => "אמת את האימייל שלך"@,
            (MailerKind::PasswordReset { .. }, ContentLanguage::English) => "Reset your password"@,
            (MailerKind::PasswordReset { .. }, ContentLanguage::Hebrew) => "אפס את הסיסמה שלך"@,
        }
    }

    pub fn subject(&self, lang: ContentLanguage) -> (r: &'static str)
        ensures
            r@ == self.subject_spec(lang),
    {
        match (self, lang) {
            (MailerKind::EmailVerification { .. }, ContentLanguage::English) => "Verify your email",
            (MailerKind::EmailVerification { .. }, ContentLanguage::Hebrew) => "אמת את האימייל שלך",
            (MailerKind::PasswordReset { .. }, ContentLanguage::English) => "Reset your password",
            (MailerKind::PasswordReset { .. }, ContentLanguage::Hebrew) => "אפס את הסיסמה שלך",
        }
    }

    pub open spec fn lead_spec(&self, lang: ContentLanguage) -> Seq<char> {
        match (self, lang) {
            (MailerKind::EmailVerification { .. }, ContentLanguage::English) => "Click here to verify your email: "@,
            (MailerKind::EmailVerification { .. }, ContentLanguage::Hebrew) => "לחץ כאן כדי לאמת את האימייל שלך: "@,
            (MailerKind::PasswordReset { .. }, ContentLanguage::English) => "Click here to reset your password: "@,
            (MailerKind::PasswordReset { .. }, ContentLanguage::Hebrew) => "לחץ כאן כדי לאפס את הסיסמה שלך: "@,
        }
    }

    /// The sentence that precedes the link.
    pub fn lead(&self, lang: ContentLanguage) -> (r: &'static str)
        ensures
            r@ == self.lead_spec(lang),
    {
        match (self, lang) {
            (MailerKind::EmailVerification { .. }, ContentLanguage::English) => "Click here to verify your email: ",
            (MailerKind::EmailVerification { .. }, ContentLanguage::Hebrew) => "לחץ כאן כדי לאמת את האימייל שלך: ",
            (MailerKind::PasswordReset { .. }, ContentLanguage::English) => "Click here to reset your password: ",
            (MailerKind::PasswordReset { .. }, ContentLanguage::Hebrew) => "לחץ כאן כדי לאפס את הסיסמה שלך: ",
        }
    }
}

/// A mail address with an optional display name.
#[derive(Debug)]
pub struct Person {
    pub email: String,
    pub name: Option<String>,
}

/// One recipient group, with the DKIM signing parameters.
#[derive(Debug)]
pub struct Personalization {
    pub to: Vec<Person>,
    pub dkim_domain: Option<String>,
    pub dkim_selector: Option<String>,
    pub dkim_private_key: Option<String>,
}

/// A typed body part.
#[derive(Debug)]
pub struct Content {
    pub content_type: String,
    pub value: String,
}

/// The envelope posted to the mail relay.
#[derive(Debug)]
pub struct MailChannelsRequest {
    pub personalizations: Vec<Personalization>,
    pub from: Person,
    pub subject: String,
    pub content: Vec<Content>,
}

/// `<html><body dir="`, the direction, `">`, the text, `</body></html>`.
pub open spec fn html_body(dir: Seq<char>, value: Seq<char>) -> Seq<char> {
    "<html><body dir=\""@ + dir + "\">"@ + value + "</body></html>"@
}

impl Content {
    /// An HTML part holding `value` in a body whose direction suits `lang`.
    pub fn new(lang: ContentLanguage, value: &str) -> (r: Content)
        ensures
            r.content_type@ == "text/html; charset=UTF-8"@,
            r.value@ == html_body(if lang == ContentLanguage::Hebrew { "rtl"@ } else { "ltr"@ }, value@),
    {
        let mut v = "<html><body dir=\"".to_string();
        v.append(lang.direction());
        v.append("\">");
        v.append(value);
        v.append("</body></html>");
        Content { content_type: "text/html; charset=UTF-8".to_string(), value: v }
    }
}

/// The DKIM settings of the sender's domain.
#[derive(Debug)]
pub struct DkimConfig {
    pub domain: String,
    pub selector: String,
    pub private_key: String,
}

impl Personalization {
    /// One recipient, signed with `dkim` when given.
    pub fn new(email: String, name: Option<String>, dkim: Option<DkimConfig>) -> (r: Personalization)
        ensures
            r.to@.len() == 1 && r.to@[0].email == email && r.to@[0].name == name,
            match dkim {
                Some(d) => r.dkim_domain == Some(d.domain) && r.dkim_selector == Some(d.selector)
                    && r.dkim_private_key == Some(d.private_key),
                None => r.dkim_domain is None && r.dkim_selector is None && r.dkim_private_key is None,
            },
    {
        let mut to: Vec<Person> = Vec::new();
        to.push(Person { email, name });
        match dkim {
            Some(d) => Personalization {
                to,
                dkim_domain: Some(d.domain),
                dkim_selector: Some(d.selector),
                dkim_private_key: Some(d.private_key),
            },
            None => Personalization { to, dkim_domain: None, dkim_selector: None, dkim_private_key: None },
        }
    }
}

/// Who mails are sent from.
#[derive(Debug)]
pub struct MailerConfig {
    pub frontend_domain: String,
    pub frontend_root_path: String,
    pub sender_email: String,
    pub sender_name: String,
    pub dkim: Option<DkimConfig>,
}

impl MailChannelsRequest {
    /// The mail of `kind` to `to_email`, in `lang`: its subject, and an HTML
    /// body holding the lead sentence and the link.
    pub fn new(config: &MailerConfig, to_email: String, kind: &MailerKind, lang: ContentLanguage) -> (r: MailChannelsRequest)
        ensures
            r.subject@ == kind.subject_spec(lang),
            r.personalizations@.len() == 1,
            r.personalizations@[0].to@.len() == 1,
            r.personalizations@[0].to@[0].email == to_email,
            r.from.email == config.sender_email,
            r.from.name == Some(config.sender_name),
            r.content@.len() == 1,
            r.content@[0].value@ == html_body(
                if lang == ContentLanguage::Hebrew { "rtl"@ } else { "ltr"@ },
                kind.lead_spec(lang) + kind.page().link_spec(config.frontend_domain@, config.frontend_root_path@),
            ),
    {
        let link = kind.link(config.frontend_domain.as_str(), config.frontend_root_path.as_str());
        let mut text = kind.lead(lang).to_string();
        text.append(link.as_str());
        let dkim = match &config.dkim {
            Some(d) => Some(DkimConfig {
                domain: d.domain.clone(),
                selector: d.selector.clone(),
                private_key: d.private_key.clone(),
            }),
            None => None,
        };
        let mut personalizations: Vec<Personalization> = Vec::new();
        personalizations.push(Personalization::new(to_email, None, dkim));
        let mut content: Vec<Content> = Vec::new();
        content.push(Content::new(lang, text.as_str()));
        MailChannelsRequest {
            personalizations,
            from: Person { email: config.sender_email.clone(), name: Some(config.sender_name.clone()) },
            subject: kind.subject(lang).to_string(),
            content,
        }
    }
}

} // verus!
