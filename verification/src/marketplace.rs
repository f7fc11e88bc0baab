//! The marketplace automation service: validation of the session id, and the
//! decisions taken while a browser session signs in, publishes a listing or
//! signs out. The browser itself is driven outside the library; each decision
//! here takes what the page showed and says what happens next.
use vstd::prelude::*;
use crate::error::DomainError;
use crate::models::vehicle::Category as VehicleCategory;
use crate::text::{chars_of, seq_contains, str_contains};

verus! {

/// The service that publishes listings through a browser session.
pub struct FacebookMarketplaceService {}

impl FacebookMarketplaceService {
    pub fn new() -> (r: Self)
        ensures
            r == (FacebookMarketplaceService {}),
    {
        FacebookMarketplaceService {}
    }
}

impl Default for FacebookMarketplaceService {
    fn default() -> (r: Self)
        ensures
            r == (FacebookMarketplaceService {}),
    {
        Self::new()
    }
}

// ─── Session ids ────────────────────────────────────────────────────────────

/// What `char::is_alphanumeric` returns for `c` (Unicode `Alphabetic` or `Numeric`).
pub uninterp spec fn unicode_alphanumeric(c: char) -> bool;

/// Whether `c` is an ASCII letter or digit.
pub open spec fn ascii_alphanumeric(c: char) -> bool {
    ('a' <= c && c <= 'z') || ('A' <= c && c <= 'Z') || ('0' <= c && c <= '9')
}

/// Calls `char::is_alphanumeric`. Claimed: the result is `unicode_alphanumeric(c)`,
/// and on ASCII characters it is true exactly for letters and digits (std
/// checks `'a'..='z' | 'A'..='Z'` and `'0'..='9'` first and consults the
/// Unicode tables only above `'\x7f'`).
#[verifier::external_body]
fn is_alphanumeric(c: char) -> (r: bool)
    ensures
        r == unicode_alphanumeric(c),
        (c as u32) < 128 ==> (r <==> ascii_alphanumeric(c)),
{
    c.is_alphanumeric()
}

/// Whether `c` may stand in a session id.
pub open spec fn client_id_char(c: char) -> bool {
    unicode_alphanumeric(c) || c == '_' || c == '-'
}

/// A session id names a browser profile directory: it is non-empty and made of
/// letters, digits, `_` and `-`.
pub open spec fn valid_client_id(s: Seq<char>) -> bool {
    s.len() > 0 && forall|i: int| 0 <= i < s.len() ==> client_id_char(#[trigger] s[i])
}

/// Whether `s` is a non-empty id made only of ASCII letters, digits, `_` and
/// `-`: such an id is always accepted.
pub open spec fn plain_ascii_client_id(s: Seq<char>) -> bool {
    s.len() > 0 && forall|i: int| 0 <= i < s.len() ==> {
        let c = #[trigger] s[i];
        ascii_alphanumeric(c) || c == '_' || c == '-'
    }
}

/// Accepts a session id that is safe to use as a directory name, and refuses
/// any other (which could reach outside the profile directory).
pub fn sanitize_client_id(client_id: &str) -> (r: Result<&str, DomainError>)
    ensures
        r is Ok <==> valid_client_id(client_id@),
        r matches Ok(s) ==> s@ == client_id@,
        r matches Err(e) ==> e matches DomainError::AutomationError(m) && m@ == "Invalid client_id format"@,
        plain_ascii_client_id(client_id@) ==> r is Ok,
        r is Ok ==> forall|i: int|
            0 <= i < client_id@.len() ==> {
                let c = #[trigger] client_id@[i];
                (c as u32) < 128 ==> ascii_alphanumeric(c) || c == '_' || c == '-'
            },
        r is Ok ==> forall|i: int|
            0 <= i < client_id@.len() ==> {
                let c = #[trigger] client_id@[i];
                c != '/' && c != '\\' && c != '.' && c != ':' && c != ' ' && c != '\t' && c != '\n' && c != '\0'
            },
{
    let cs = chars_of(client_id);
    let mut ok = cs.len() > 0;
    let mut i: usize = 0;
    while i < cs.len()
        invariant
            cs@ == client_id@,
            i <= cs.len(),
            ok == (cs.len() > 0 && forall|j: int| 0 <= j < i ==> client_id_char(#[trigger] cs@[j])),
            ok ==> forall|j: int|
                0 <= j < i ==> {
                    let c = #[trigger] cs@[j];
                    (c as u32) < 128 ==> ascii_alphanumeric(c) || c == '_' || c == '-'
                },
            plain_ascii_client_id(client_id@) ==> ok,
        decreases cs.len() - i,
    {
        let c = cs[i];
        let allowed = is_alphanumeric(c) || c == '_' || c == '-';
        assert(plain_ascii_client_id(client_id@) ==> allowed) by {
            if plain_ascii_client_id(client_id@) {
                assert(ascii_alphanumeric(cs@[i as int]) || c == '_' || c == '-');
            }
        }
        if !allowed {
            ok = false;
        }
        i = i + 1;
    }
    if ok {
        Ok(client_id)
    } else {
        Err(DomainError::AutomationError("Invalid client_id format".to_owned()))
    }
}

// ─── What the current address says ─────────────────────────────────────────

/// The page is the login form or a security checkpoint: the session is not
/// signed in.
pub open spec fn is_login_url(url: Seq<char>) -> bool {
    seq_contains(url, "login"@) || seq_contains(url, "checkpoint"@)
}

/// The page is the seller's listing overview, where the marketplace lands after
/// a listing is published.
pub open spec fn is_published_url(url: Seq<char>) -> bool {
    seq_contains(url, "marketplace/you/selling"@) || seq_contains(url, "marketplace/you/vehicles"@)
}

/// The page is past the login, two-factor, device-saving and trust steps.
pub open spec fn is_out_of_login_url(url: Seq<char>) -> bool {
    &&& !seq_contains(url, "login"@)
    &&& !seq_contains(url, "two_factor"@)
    &&& !seq_contains(url, "two-factor"@)
    &&& !seq_contains(url, "save-device"@)
    &&& !seq_contains(url, "trust"@)
}

/// After logging out the page is the login form, the logged-out page or a
/// checkpoint.
pub open spec fn is_logged_out_url(url: Seq<char>) -> bool {
    seq_contains(url, "login"@) || seq_contains(url, "logged_out"@) || seq_contains(url, "checkpoint"@)
        || seq_contains(url, "accounts/login"@)
}

/// After logging out the page is still on the site but not a login page (the
/// account chooser).
pub open spec fn is_account_chooser_url(url: Seq<char>) -> bool {
    seq_contains(url, "facebook.com"@) && !seq_contains(url, "login"@)
}

pub fn is_login_page(url: &str) -> (r: bool)
    ensures
        r == is_login_url(url@),
{
    str_contains(url, "login") || str_contains(url, "checkpoint")
}

pub fn is_published_page(url: &str) -> (r: bool)
    ensures
        r == is_published_url(url@),
{
    str_contains(url, "marketplace/you/selling") || str_contains(url, "marketplace/you/vehicles")
}

pub fn is_out_of_login(url: &str) -> (r: bool)
    ensures
        r == is_out_of_login_url(url@),
{
    !str_contains(url, "login") && !str_contains(url, "two_factor") && !str_contains(url, "two-factor")
        && !str_contains(url, "save-device") && !str_contains(url, "trust")
}

/// An address on the accounts login form is a login address.
proof fn lemma_accounts_login_is_login(url: Seq<char>)
    requires
        seq_contains(url, "accounts/login"@),
    ensures
        seq_contains(url, "login"@),
{
    reveal_strlit("accounts/login");
    reveal_strlit("login");
    let i = choose|i: int| 0 <= i <= url.len() - 14 && #[trigger] url.subrange(i, i + 14) == "accounts/login"@;
    assert(url.subrange(i + 9, i + 14) =~= "login"@) by {
        assert forall|k: int| 0 <= k < 5 implies url.subrange(i + 9, i + 14)[k] == "login"@[k] by {
            assert(url.subrange(i, i + 14)[k + 9] == url[i + 9 + k]);
        }
    }
    assert(0 <= i + 9 <= url.len() - "login"@.len());
    assert(url.subrange(i + 9, i + 9 + "login"@.len()) == "login"@);
}

pub fn is_logged_out_page(url: &str) -> (r: bool)
    ensures
        r == is_logged_out_url(url@),
        seq_contains(url@, "login"@) ==> r,
        seq_contains(url@, "logged_out"@) ==> r,
        seq_contains(url@, "checkpoint"@) ==> r,
        r ==> seq_contains(url@, "login"@) || seq_contains(url@, "logged_out"@) || seq_contains(url@, "checkpoint"@),
{
    let r = str_contains(url, "login") || str_contains(url, "logged_out") || str_contains(url, "checkpoint")
        || str_contains(url, "accounts/login");
    proof {
        if seq_contains(url@, "accounts/login"@) {
            lemma_accounts_login_is_login(url@);
        }
    }
    r
}

pub fn is_account_chooser_page(url: &str) -> (r: bool)
    ensures
        r == is_account_chooser_url(url@),
{
    str_contains(url, "facebook.com") && !str_contains(url, "login")
}

/// Before a form is filled in: refuses when the session lands on a login page.
/// An address that could not be read counts as the empty address.
pub fn require_signed_in(url: &str) -> (r: Result<(), DomainError>)
    ensures
        r is Ok <==> !is_login_url(url@),
        r matches Err(e) ==> e matches DomainError::AutomationError(m) && m@ == SIGNIN_NEEDED@,
{
    if is_login_page(url) {
        Err(DomainError::AutomationError(SIGNIN_NEEDED.to_owned()))
    } else {
        Ok(())
    }
}

pub const SIGNIN_NEEDED: &'static str = "Você precisa estar logado no Facebook antes de publicar. Use a opção 'Entrar' primeiro.";

pub const PUBLICATION_FAILED: &'static str = "A publicação falhou, o tempo esgotou ou a janela foi fechada prematuramente.";

pub const SIGNOUT_TIMEOUT: &'static str = "Timeout: logout não foi confirmado";

// ─── Waiting for a listing to be published ──────────────────────────────────

/// How many times the address is read while waiting for a publication.
pub const PUBLICATION_MAX_POLLS: u32 = 240;

/// One reading of the page address.
#[derive(Clone, Debug)]
pub enum UrlProbe {
    /// The page could not be asked (it was closed).
    Unavailable,
    /// The page answered with something that is not text.
    NotText,
    /// The current address.
    Url(String),
}

/// Where the wait for a publication stands.
#[derive(Clone, Copy, Debug, PartialEq, Eq, Structural)]
pub enum PublicationStatus {
    Waiting,
    Published,
    Failed,
}

/// Counts the readings of the address while the seller finishes the form.
pub struct PublicationWatch {
    polls: u32,
}

impl View for PublicationWatch {
    type V = nat;

    closed spec fn view(&self) -> nat {
        self.polls as nat
    }
}

/// What one reading decides, after `polls` earlier readings.
pub open spec fn publication_step(polls: nat, probe: UrlProbe) -> PublicationStatus {
    match probe {
        UrlProbe::Unavailable => PublicationStatus::Failed,
        UrlProbe::Url(u) if is_published_url(u@) => PublicationStatus::Published,
        _ => if polls + 1 >= PUBLICATION_MAX_POLLS {
            PublicationStatus::Failed
        } else {
            PublicationStatus::Waiting
        },
    }
}

impl PublicationWatch {
    pub fn new() -> (r: Self)
        ensures
            r@ == 0,
    {
        PublicationWatch { polls: 0 }
    }

    /// How many readings were taken so far.
    pub fn polls(&self) -> (r: u32)
        ensures
            r == self@,
    {
        self.polls
    }

    /// Takes one reading of the address: a closed page ends the wait as a
    /// failure, the listing overview ends it as a success, and after the last
    /// allowed reading the wait has failed.
    pub fn observe(&mut self, probe: UrlProbe) -> (r: PublicationStatus)
        requires
            old(self)@ < PUBLICATION_MAX_POLLS,
        ensures
            final(self)@ == old(self)@ + 1,
            r == publication_step(old(self)@, probe),
            r is Waiting ==> final(self)@ < PUBLICATION_MAX_POLLS,
    {
        self.polls = self.polls + 1;
        match probe {
            UrlProbe::Unavailable => PublicationStatus::Failed,
            UrlProbe::NotText => {
                if self.polls >= PUBLICATION_MAX_POLLS {
                    PublicationStatus::Failed
                } else {
                    PublicationStatus::Waiting
                }
            },
            UrlProbe::Url(u) => {
                if is_published_page(u.as_str()) {
                    PublicationStatus::Published
                } else if self.polls >= PUBLICATION_MAX_POLLS {
                    PublicationStatus::Failed
                } else {
                    PublicationStatus::Waiting
                }
            },
        }
    }
}

/// What a finished wait means for the publication.
pub fn publication_result(status: PublicationStatus) -> (r: Result<(), DomainError>)
    requires
        !(status is Waiting),
    ensures
        r is Ok <==> status is Published,
        r matches Err(e) ==> e matches DomainError::AutomationError(m) && m@ == PUBLICATION_FAILED@,
{
    match status {
        PublicationStatus::Published => Ok(()),
        _ => Err(DomainError::AutomationError(PUBLICATION_FAILED.to_owned())),
    }
}

// ─── Waiting for the seller to sign in ──────────────────────────────────────

/// How many times the page is inspected while the seller signs in.
pub const SIGNIN_MAX_POLLS: u32 = 240;

/// One inspection of the page during sign-in. The two markers are only looked
/// for once the address is past the login steps; before that they are false.
pub struct SigninProbe {
    pub url: Option<String>,
    /// The signed-in page banner is on the page.
    pub signed_in_marker: bool,
    /// The "trust this device" prompt is on the page.
    pub trust_prompt: bool,
}

/// Where the wait for the sign-in stands.
#[derive(Clone, Copy, Debug, PartialEq, Eq, Structural)]
pub enum SigninStatus {
    Waiting,
    SignedIn,
    TimedOut,
}

/// Whether one inspection shows a finished sign-in: the address is past the
/// login steps, the signed-in banner is shown and no trust prompt is pending.
pub open spec fn signin_done(probe: SigninProbe) -> bool {
    &&& probe.url matches Some(u)
    &&& is_out_of_login_url(u@)
    &&& probe.signed_in_marker
    &&& !probe.trust_prompt
}

/// Counts the inspections of the page while the seller signs in.
pub struct SigninWatch {
    polls: u32,
}

impl View for SigninWatch {
    type V = nat;

    closed spec fn view(&self) -> nat {
        self.polls as nat
    }
}

impl SigninWatch {
    pub fn new() -> (r: Self)
        ensures
            r@ == 0,
    {
        SigninWatch { polls: 0 }
    }

    /// How many readings were taken so far.
    pub fn polls(&self) -> (r: u32)
        ensures
            r == self@,
    {
        self.polls
    }

    /// Takes one inspection: a finished sign-in ends the wait; after the last
    /// allowed inspection the wait has timed out.
    pub fn observe(&mut self, probe: SigninProbe) -> (r: SigninStatus)
        requires
            old(self)@ < SIGNIN_MAX_POLLS,
        ensures
            final(self)@ == old(self)@ + 1,
            signin_done(probe) ==> r is SignedIn,
            r is SignedIn ==> probe.signed_in_marker && !probe.trust_prompt,
            r is SignedIn ==> (probe.url matches Some(u) && !seq_contains(u@, "login"@)),
            !signin_done(probe) ==> r == (if final(self)@ >= SIGNIN_MAX_POLLS {
                SigninStatus::TimedOut
            } else {
                SigninStatus::Waiting
            }),
    {
        self.polls = self.polls + 1;
        let done = match &probe.url {
            Some(u) => is_out_of_login(u.as_str()) && probe.signed_in_marker && !probe.trust_prompt,
            None => false,
        };
        if done {
            SigninStatus::SignedIn
        } else if self.polls >= SIGNIN_MAX_POLLS {
            SigninStatus::TimedOut
        } else {
            SigninStatus::Waiting
        }
    }
}

/// What a finished sign-in wait means.
pub fn signin_result(status: SigninStatus) -> (r: Result<(), DomainError>)
    requires
        !(status is Waiting),
    ensures
        r is Ok <==> status is SignedIn,
        r is Err ==> r == Err::<(), DomainError>(DomainError::NotFound),
{
    match status {
        SigninStatus::SignedIn => Ok(()),
        _ => Err(DomainError::NotFound),
    }
}

// ─── Waiting for the sign-out ───────────────────────────────────────────────

/// How a sign-out begins.
#[derive(Clone, Copy, Debug, PartialEq, Eq, Structural)]
pub enum SignoutStart {
    /// The home page shows no signed-in banner: there is nothing to sign out of.
    AlreadySignedOut,
    /// Submit the logout form, then wait for the sign-out.
    SubmitLogout,
}

/// Decides how a sign-out begins from whether the home page shows the
/// signed-in banner.
pub fn signout_start(signed_in_marker: bool) -> (r: SignoutStart)
    ensures
        r is AlreadySignedOut <==> !signed_in_marker,
        r is SubmitLogout <==> signed_in_marker,
{
    if signed_in_marker {
        SignoutStart::SubmitLogout
    } else {
        SignoutStart::AlreadySignedOut
    }
}

/// How many times the address is read after the logout was submitted.
pub const SIGNOUT_MAX_POLLS: u32 = 20;

/// Where the sign-out stands.
#[derive(Clone, Copy, Debug, PartialEq, Eq, Structural)]
pub enum SignoutStatus {
    Waiting,
    /// The page shows the session is signed out.
    SignedOut,
    /// The page is the account chooser: go to the login form, then it is done.
    LeaveAccountChooser,
    TimedOut,
}

/// Counts the readings of the address after the logout was submitted.
pub struct SignoutWatch {
    polls: u32,
}

impl View for SignoutWatch {
    type V = nat;

    closed spec fn view(&self) -> nat {
        self.polls as nat
    }
}

/// What one reading decides, after `polls` earlier readings.
pub open spec fn signout_step(polls: nat, url: Option<Seq<char>>) -> SignoutStatus {
    match url {
        Some(u) if is_logged_out_url(u) => SignoutStatus::SignedOut,
        Some(u) if is_account_chooser_url(u) => SignoutStatus::LeaveAccountChooser,
        _ => if polls + 1 >= SIGNOUT_MAX_POLLS {
            SignoutStatus::TimedOut
        } else {
            SignoutStatus::Waiting
        },
    }
}

/// The text of an address reading, if there was one.
pub open spec fn url_text(url: Option<String>) -> Option<Seq<char>> {
    match url {
        Some(u) => Some(u@),
        None => None,
    }
}

impl SignoutWatch {
    pub fn new() -> (r: Self)
        ensures
            r@ == 0,
    {
        SignoutWatch { polls: 0 }
    }

    /// How many readings were taken so far.
    pub fn polls(&self) -> (r: u32)
        ensures
            r == self@,
    {
        self.polls
    }

    pub fn observe(&mut self, url: Option<String>) -> (r: SignoutStatus)
        requires
            old(self)@ < SIGNOUT_MAX_POLLS,
        ensures
            final(self)@ == old(self)@ + 1,
            r == signout_step(old(self)@, url_text(url)),
            r is Waiting ==> final(self)@ < SIGNOUT_MAX_POLLS,
            (url matches Some(u) && (seq_contains(u@, "login"@) || seq_contains(u@, "logged_out"@)
                || seq_contains(u@, "checkpoint"@))) ==> r is SignedOut,
    {
        self.polls = self.polls + 1;
        if let Some(u) = &url {
            if is_logged_out_page(u.as_str()) {
                return SignoutStatus::SignedOut;
            }
            if is_account_chooser_page(u.as_str()) {
                return SignoutStatus::LeaveAccountChooser;
            }
        }
        if self.polls >= SIGNOUT_MAX_POLLS {
            SignoutStatus::TimedOut
        } else {
            SignoutStatus::Waiting
        }
    }
}

/// What a finished sign-out wait means.
pub fn signout_result(status: SignoutStatus) -> (r: Result<(), DomainError>)
    requires
        !(status is Waiting),
    ensures
        r is Ok <==> !(status is TimedOut),
        r matches Err(e) ==> e matches DomainError::AutomationError(m) && m@ == SIGNOUT_TIMEOUT@,
{
    match status {
        SignoutStatus::TimedOut => Err(DomainError::AutomationError(SIGNOUT_TIMEOUT.to_owned())),
        _ => Ok(()),
    }
}

// ─── Filling in the vehicle form ────────────────────────────────────────────

/// Cars and pickups, motorcycles and commercial vehicles pick the make from a
/// dropdown; the other kinds of vehicle have a text field for it.
pub open spec fn make_is_dropdown(category: VehicleCategory) -> bool {
    category is CarOrPickup || category is Motorcycle || category is CommercialOrIndustrial
}

pub fn make_uses_dropdown(category: VehicleCategory) -> (r: bool)
    ensures
        r == make_is_dropdown(category),
{
    match category {
        VehicleCategory::CarOrPickup | VehicleCategory::Motorcycle | VehicleCategory::CommercialOrIndustrial => true,
        _ => false,
    }
}

// ─── Messages of the page helpers ───────────────────────────────────────────

/// The error when an element never appeared: `"Elemento não carregou na tela: "` and the selector.
pub fn missing_element_error(selector: &str) -> (r: DomainError)
    ensures
        r matches DomainError::AutomationError(m) && m@ == "Elemento não carregou na tela: "@ + selector@,
{
    let mut m = "Elemento não carregou na tela: ".to_owned();
    m.append(selector);
    DomainError::AutomationError(m)
}

/// The error when an XPath never matched: `"XPath não carregou na tela: "` and the XPath.
pub fn missing_xpath_error(xpath: &str) -> (r: DomainError)
    ensures
        r matches DomainError::AutomationError(m) && m@ == "XPath não carregou na tela: "@ + xpath@,
{
    let mut m = "XPath não carregou na tela: ".to_owned();
    m.append(xpath);
    DomainError::AutomationError(m)
}

/// The error when the typing script reported failure on a field.
pub fn typing_failed_error(xpath: &str) -> (r: DomainError)
    ensures
        r matches DomainError::AutomationError(m) && m@ == "O JS de digitação falhou no elemento: "@ + xpath@,
{
    let mut m = "O JS de digitação falhou no elemento: ".to_owned();
    m.append(xpath);
    DomainError::AutomationError(m)
}

// ─── The browser session ────────────────────────────────────────────────────

/// The width and height of the visible browser window.
pub const WINDOW_WIDTH: u32 = 1280;

pub const WINDOW_HEIGHT: u32 = 720;

/// The directories, under the user's data directory, that hold one browser
/// profile per session id.
pub const PROFILE_DIR: &'static str = "marketplace";

pub const PROFILES_SUBDIR: &'static str = "chrome-profiles";

/// The directory, under the temporary directory, used when the profile
/// directory cannot be created.
pub const FALLBACK_PROFILE_DIR: &'static str = "marketplace-chrome-profiles";

/// The lock files a browser that did not shut down cleanly leaves in its
/// profile; they are deleted before a new browser starts.
pub const STALE_LOCK_FILES: [&'static str; 3] = ["SingletonLock", "SingletonSocket", "SingletonCookie"];

/// The command-line flags of the visible browser, in order: a maximised
/// 1280×720 window that does not announce automation, with a desktop user
/// agent, Portuguese as language, and no restore, crash or first-run prompts.
pub open spec fn visible_browser_flags() -> Seq<Seq<char>> {
    seq![
        "--start-maximized"@,
        "--window-size=1280,720"@,
        "--disable-infobars"@,
        "--disable-notifications"@,
        "--disable-blink-features=AutomationControlled"@,
        "--no-sandbox"@,
        "--disable-dev-shm-usage"@,
        "--excludeSwitches=enable-automation"@,
        "--useAutomationExtension=false"@,
        "--user-agent=Mozilla/5.0 (Windows NT 10.0; Win64; x64) AppleWebKit/537.36 (KHTML, like Gecko) Chrome/136.0.0.0 Safari/537.36"@,
        "--no-restore-session-state"@,
        "--restore-last-session=false"@,
        "--disable-session-crashed-bubble"@,
        "--disable-background-mode"@,
        "--disable-automation"@,
        "--password-store=basic"@,
        "--use-mock-keychain"@,
        "--lang=pt-BR"@,
        "--disable-ipc-flooding-protection"@,
        "--disable-renderer-backgrounding"@,
        "--disable-backgrounding-occluded-windows"@,
        "--disable-client-side-phishing-detection"@,
        "--disable-crash-reporter"@,
        "--disable-oopr-debug-crash-dump"@,
        "--no-crash-upload"@,
        "--hide-crash-restore-bubble"@,
        "--suppress-message-center-popups"@,
        "--disable-popup-blocking"@,
        "--no-first-run"@,
        "--no-default-browser-check"@,
        "--new-window"@,
    ]
}

pub fn visible_browser_args() -> (r: Vec<String>)
    ensures
        r.deep_view() == visible_browser_flags(),
{
    let mut v: Vec<String> = Vec::new();
    v.push("--start-maximized".to_owned());
    v.push("--window-size=1280,720".to_owned());
    v.push("--disable-infobars".to_owned());
    v.push("--disable-notifications".to_owned());
    v.push("--disable-blink-features=AutomationControlled".to_owned());
    v.push("--no-sandbox".to_owned());
    v.push("--disable-dev-shm-usage".to_owned());
    v.push("--excludeSwitches=enable-automation".to_owned());
    v.push("--useAutomationExtension=false".to_owned());
    v.push("--user-agent=Mozilla/5.0 (Windows NT 10.0; Win64; x64) AppleWebKit/537.36 (KHTML, like Gecko) Chrome/136.0.0.0 Safari/537.36".to_owned());
    v.push("--no-restore-session-state".to_owned());
    v.push("--restore-last-session=false".to_owned());
    v.push("--disable-session-crashed-bubble".to_owned());
    v.push("--disable-background-mode".to_owned());
    v.push("--disable-automation".to_owned());
    v.push("--password-store=basic".to_owned());
    v.push("--use-mock-keychain".to_owned());
    v.push("--lang=pt-BR".to_owned());
    v.push("--disable-ipc-flooding-protection".to_owned());
    v.push("--disable-renderer-backgrounding".to_owned());
    v.push("--disable-backgrounding-occluded-windows".to_owned());
    v.push("--disable-client-side-phishing-detection".to_owned());
    v.push("--disable-crash-reporter".to_owned());
    v.push("--disable-oopr-debug-crash-dump".to_owned());
    v.push("--no-crash-upload".to_owned());
    v.push("--hide-crash-restore-bubble".to_owned());
    v.push("--suppress-message-center-popups".to_owned());
    v.push("--disable-popup-blocking".to_owned());
    v.push("--no-first-run".to_owned());
    v.push("--no-default-browser-check".to_owned());
    v.push("--new-window".to_owned());
    assert(v.deep_view() =~= visible_browser_flags());
    v
}

/// The page that publishes a property.
pub const PROPERTY_FORM_URL: &'static str = "https://www.facebook.com/marketplace/create/rental";

/// The page that publishes a vehicle.
pub const VEHICLE_FORM_URL: &'static str = "https://www.facebook.com/marketplace/create/vehicle";

/// The page that signs in.
pub const LOGIN_URL: &'static str = "https://www.facebook.com/login?locale=pt_BR";

/// The home page, used to see whether a session is signed in.
pub const HOME_URL: &'static str = "https://www.facebook.com/?locale=pt_BR";

/// The login page opened to leave the account chooser after a sign-out.
pub const ACCOUNT_CHOOSER_EXIT_URL: &'static str = "https://www.facebook.com/login?next&prompt=select_account&login_attempt=1&lwv=100&locale=pt_BR";

/// The file input of the photo uploader (property form).
pub const SEL_PHOTO_INPUT: &'static str = "input[type='file']";

/// The file input of the photo uploader (vehicle form).
pub const SEL_VEHICLE_PHOTO_INPUT: &'static str = "input[type='file'][accept*='image']";

/// The banner shown on every page of a signed-in session.
pub const SEL_FACEBOOK_LOGGED_IN: &'static str = "div[aria-label='Facebook']";

/// The "trust this device" prompt.
pub const SEL_FACEBOOK_TRUST_DEVICE: &'static str = "div[data-testid='save-device-button'], button[name='save_device'], div[aria-label='Salvar dispositivo'], .__7n5 button";

/// The first suggestion of an address field.
pub const XPATH_FIRST_OPTION: &'static str = "//*[@role='option'][1]";

/// How many times an element is looked for before giving up, and the pause
/// between two looks, in milliseconds (30 s in all).
pub const ELEMENT_WAIT_TRIES: u32 = 40;

pub const ELEMENT_WAIT_PAUSE_MS: u64 = 750;

/// How many times the browser is asked for an open page before a new one is
/// created, and the pause between two asks, in milliseconds.
pub const PAGE_SEARCH_TRIES: u32 = 15;

pub const PAGE_SEARCH_PAUSE_MS: u64 = 100;

// ─── Bounded searches ───────────────────────────────────────────────────────

/// Where a bounded search (for an element of the page, or for an open page)
/// stands after one look.
#[derive(Clone, Copy, Debug, PartialEq, Eq, Structural)]
pub enum SearchStatus {
    /// The thing was found.
    Found,
    /// Not found yet: pause, then look again.
    Retry,
    /// Not found on the last allowed look.
    GiveUp,
}

/// Counts the looks of a bounded search against its limit.
pub struct RetryCounter {
    tries: u32,
    limit: u32,
}

impl View for RetryCounter {
    /// The looks taken so far, and the most allowed.
    type V = (nat, nat);

    closed spec fn view(&self) -> (nat, nat) {
        (self.tries as nat, self.limit as nat)
    }
}

impl RetryCounter {
    /// The search for an element of the page: [`ELEMENT_WAIT_TRIES`] looks.
    pub fn for_elements() -> (r: Self)
        ensures
            r@ == (0nat, ELEMENT_WAIT_TRIES as nat),
    {
        RetryCounter { tries: 0, limit: ELEMENT_WAIT_TRIES }
    }

    /// The search for an open page of the browser: [`PAGE_SEARCH_TRIES`] looks.
    pub fn for_pages() -> (r: Self)
        ensures
            r@ == (0nat, PAGE_SEARCH_TRIES as nat),
    {
        RetryCounter { tries: 0, limit: PAGE_SEARCH_TRIES }
    }

    /// How many looks were taken so far.
    pub fn tries(&self) -> (r: u32)
        ensures
            r == self@.0,
    {
        self.tries
    }

    /// How many looks are allowed.
    pub fn limit(&self) -> (r: u32)
        ensures
            r == self@.1,
    {
        self.limit
    }

    /// Counts one look: a found thing ends the search; otherwise the search
    /// goes on until the last allowed look, and then gives up.
    pub fn attempt(&mut self, found: bool) -> (r: SearchStatus)
        requires
            old(self)@.0 < old(self)@.1,
        ensures
            final(self)@ == (old(self)@.0 + 1, old(self)@.1),
            found ==> r is Found,
            !found ==> r == (if final(self)@.0 >= final(self)@.1 {
                SearchStatus::GiveUp
            } else {
                SearchStatus::Retry
            }),
    {
        self.tries = self.tries + 1;
        if found {
            SearchStatus::Found
        } else if self.tries >= self.limit {
            SearchStatus::GiveUp
        } else {
            SearchStatus::Retry
        }
    }
}

} // verus!
