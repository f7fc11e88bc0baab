use fast_marketplace::error::DomainError;
use fast_marketplace::marketplace::{
    require_signed_in, is_account_chooser_page, is_logged_out_page, is_login_page, is_out_of_login,
    is_published_page, make_uses_dropdown, signout_start, RetryCounter, SearchStatus, SignoutStart, missing_element_error, missing_xpath_error, publication_result,
    sanitize_client_id, signin_result, signout_result, typing_failed_error, FacebookMarketplaceService,
    PublicationStatus, PublicationWatch, SigninProbe, SigninStatus, SigninWatch, SignoutStatus, SignoutWatch,
    UrlProbe, PUBLICATION_MAX_POLLS, SIGNIN_MAX_POLLS, SIGNOUT_MAX_POLLS,
};
use fast_marketplace::models::vehicle::Category;

fn automation_message(e: &DomainError) -> &str {
    match e {
        DomainError::AutomationError(m) => m.as_str(),
        _ => panic!("not an automation error"),
    }
}

#[test]
fn sanitize_accepts_letters_digits_underscore_hyphen() {
    assert_eq!(sanitize_client_id("123").unwrap(), "123");
    assert_eq!(sanitize_client_id("abc_DEF-9").unwrap(), "abc_DEF-9");
    assert_eq!(sanitize_client_id("ação").unwrap(), "ação");
}

#[test]
fn sanitize_refuses_empty_and_path_characters() {
    for bad in ["", "../etc", "a/b", "a b", "a.b", "a\\b", "x;rm", "c:", "a\tb", "a\nb", "a+b"] {
        let e = sanitize_client_id(bad).unwrap_err();
        assert_eq!(automation_message(&e), "Invalid client_id format");
    }
}

#[test]
fn url_classification() {
    assert!(is_login_page("https://www.facebook.com/login?next"));
    assert!(is_login_page("https://www.facebook.com/checkpoint/123"));
    assert!(!is_login_page("https://www.facebook.com/marketplace/create/rental"));
    assert!(is_published_page("https://www.facebook.com/marketplace/you/selling"));
    assert!(is_published_page("https://www.facebook.com/marketplace/you/vehicles?x=1"));
    assert!(!is_published_page("https://www.facebook.com/marketplace/create/vehicle"));
    assert!(is_out_of_login("https://www.facebook.com/"));
    assert!(!is_out_of_login("https://www.facebook.com/two_step/two_factor/"));
    assert!(!is_out_of_login("https://www.facebook.com/trust/device"));
    assert!(is_logged_out_page("https://www.facebook.com/?logged_out=1"));
    assert!(!is_logged_out_page("https://www.facebook.com/"));
    assert!(is_account_chooser_page("https://www.facebook.com/"));
    assert!(!is_account_chooser_page("https://www.facebook.com/login"));
}

#[test]
fn signed_in_requirement() {
    assert!(require_signed_in("https://www.facebook.com/marketplace/create/rental").is_ok());
    assert!(require_signed_in("").is_ok());
    let e = require_signed_in("https://www.facebook.com/login/?next").unwrap_err();
    assert_eq!(
        automation_message(&e),
        "Você precisa estar logado no Facebook antes de publicar. Use a opção 'Entrar' primeiro."
    );
}

#[test]
fn publication_watch_succeeds_on_overview() {
    let mut w = PublicationWatch::new();
    assert_eq!(w.observe(UrlProbe::Url("https://www.facebook.com/marketplace/create/rental".to_string())), PublicationStatus::Waiting);
    assert_eq!(w.observe(UrlProbe::NotText), PublicationStatus::Waiting);
    assert_eq!(w.observe(UrlProbe::Url("https://www.facebook.com/marketplace/you/selling".to_string())), PublicationStatus::Published);
    assert!(publication_result(PublicationStatus::Published).is_ok());
}

#[test]
fn publication_watch_fails_on_closed_page() {
    let mut w = PublicationWatch::new();
    assert_eq!(w.observe(UrlProbe::Unavailable), PublicationStatus::Failed);
    let e = publication_result(PublicationStatus::Failed).unwrap_err();
    assert_eq!(
        automation_message(&e),
        "A publicação falhou, o tempo esgotou ou a janela foi fechada prematuramente."
    );
}

#[test]
fn publication_watch_times_out() {
    let mut w = PublicationWatch::new();
    for _ in 1..PUBLICATION_MAX_POLLS {
        assert_eq!(w.observe(UrlProbe::NotText), PublicationStatus::Waiting);
    }
    assert_eq!(w.observe(UrlProbe::NotText), PublicationStatus::Failed);
}

#[test]
fn signin_watch() {
    let mut w = SigninWatch::new();
    let waiting = SigninProbe { url: Some("https://www.facebook.com/login".to_string()), signed_in_marker: false, trust_prompt: false };
    assert_eq!(w.observe(waiting), SigninStatus::Waiting);
    let trust = SigninProbe { url: Some("https://www.facebook.com/".to_string()), signed_in_marker: true, trust_prompt: true };
    assert_eq!(w.observe(trust), SigninStatus::Waiting);
    let done = SigninProbe { url: Some("https://www.facebook.com/".to_string()), signed_in_marker: true, trust_prompt: false };
    assert_eq!(w.observe(done), SigninStatus::SignedIn);
    assert!(signin_result(SigninStatus::SignedIn).is_ok());
    assert!(matches!(signin_result(SigninStatus::TimedOut), Err(DomainError::NotFound)));
}

#[test]
fn signin_watch_times_out() {
    let mut w = SigninWatch::new();
    for _ in 1..SIGNIN_MAX_POLLS {
        assert_eq!(w.observe(SigninProbe { url: None, signed_in_marker: false, trust_prompt: false }), SigninStatus::Waiting);
    }
    assert_eq!(w.observe(SigninProbe { url: None, signed_in_marker: true, trust_prompt: false }), SigninStatus::TimedOut);
}

#[test]
fn signout_watch() {
    let mut w = SignoutWatch::new();
    assert_eq!(w.observe(None), SignoutStatus::Waiting);
    assert_eq!(w.observe(Some("about:blank".to_string())), SignoutStatus::Waiting);
    assert_eq!(w.observe(Some("https://www.facebook.com/?logged_out=1".to_string())), SignoutStatus::SignedOut);
    let mut w = SignoutWatch::new();
    assert_eq!(w.observe(Some("https://www.facebook.com/".to_string())), SignoutStatus::LeaveAccountChooser);
    assert!(signout_result(SignoutStatus::LeaveAccountChooser).is_ok());
    let mut w = SignoutWatch::new();
    for _ in 1..SIGNOUT_MAX_POLLS {
        assert_eq!(w.observe(None), SignoutStatus::Waiting);
    }
    assert_eq!(w.observe(None), SignoutStatus::TimedOut);
    let e = signout_result(SignoutStatus::TimedOut).unwrap_err();
    assert_eq!(automation_message(&e), "Timeout: logout não foi confirmado");
}

#[test]
fn make_field_kind() {
    assert!(make_uses_dropdown(Category::CarOrPickup));
    assert!(make_uses_dropdown(Category::Motorcycle));
    assert!(make_uses_dropdown(Category::CommercialOrIndustrial));
    assert!(!make_uses_dropdown(Category::Boat));
    assert!(!make_uses_dropdown(Category::Trailer));
}

#[test]
fn page_helper_messages() {
    assert_eq!(automation_message(&missing_element_error("input[type='file']")), "Elemento não carregou na tela: input[type='file']");
    assert_eq!(automation_message(&missing_xpath_error("//a")), "XPath não carregou na tela: //a");
    assert_eq!(automation_message(&typing_failed_error("//b")), "O JS de digitação falhou no elemento: //b");
}

#[test]
fn service_new() {
    let _s = FacebookMarketplaceService::new();
}

#[test]
fn service_default() {
    let _s: FacebookMarketplaceService = Default::default();
}

#[test]
fn signout_begins_only_when_signed_in() {
    assert_eq!(signout_start(false), SignoutStart::AlreadySignedOut);
    assert_eq!(signout_start(true), SignoutStart::SubmitLogout);
}

#[test]
fn plain_ids_are_accepted() {
    for id in ["a", "Z9", "client_01-x", "___", "-"] {
        assert_eq!(sanitize_client_id(id).unwrap(), id);
    }
}

#[test]
fn element_search_gives_up_after_its_limit() {
    let mut s = RetryCounter::for_elements();
    assert_eq!(s.limit(), 40);
    for _ in 1..40 {
        assert_eq!(s.attempt(false), SearchStatus::Retry);
    }
    assert_eq!(s.attempt(false), SearchStatus::GiveUp);
    assert_eq!(s.tries(), 40);
}

#[test]
fn page_search_stops_when_found() {
    let mut s = RetryCounter::for_pages();
    assert_eq!(s.limit(), 15);
    assert_eq!(s.attempt(false), SearchStatus::Retry);
    assert_eq!(s.attempt(true), SearchStatus::Found);
    assert_eq!(s.tries(), 2);
}
