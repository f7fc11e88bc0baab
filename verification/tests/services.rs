use fast_marketplace::backend::{interpret_backend_reply, property_backend_url, property_endpoint, reply_has_listing, vehicle_endpoint};
use fast_marketplace::error::DomainError;
use fast_marketplace::images::{collect_stored_paths, image_file_name, image_size_allowed, limit_image_urls, new_image_file_name, new_request_dir_name, should_remove_image_dir, stored_image_bytes, MAX_IMAGE_BYTES};
use fast_marketplace::updater::{restart_after_update, UpdateOutcome};
use fast_marketplace::updater::{release_binary_name, Platform};

#[test]
fn backend_urls() {
    assert_eq!(property_backend_url(&vec!["prog".to_string()]), "https://fast-marketplace-backend.soultech.agency");
    assert_eq!(property_backend_url(&vec!["prog".to_string(), "http://localhost:3000".to_string()]), "http://localhost:3000");
    assert_eq!(property_endpoint("http://h"), "http://h/property");
    assert_eq!(vehicle_endpoint(None), "https://fast-marketplace-backend.soultech.agency/vehicle");
    assert_eq!(vehicle_endpoint(Some("http://h")), "http://h/vehicle");
}

#[test]
fn backend_replies() {
    assert!(reply_has_listing(200) && reply_has_listing(201) && !reply_has_listing(204));
    assert_eq!(interpret_backend_reply(Some(200), Some(7)).unwrap(), 7);
    assert_eq!(interpret_backend_reply(Some(201), Some(8)).unwrap(), 8);
    assert!(matches!(interpret_backend_reply::<u8>(Some(200), None), Err(DomainError::RuleViolation)));
    assert!(matches!(interpret_backend_reply::<u8>(Some(429), None), Err(DomainError::LimitReached)));
    assert!(matches!(interpret_backend_reply::<u8>(Some(400), None), Err(DomainError::RuleViolation)));
    assert!(matches!(interpret_backend_reply(Some(500), Some(1u8)), Err(DomainError::RuleViolation)));
    assert!(matches!(interpret_backend_reply::<u8>(None, None), Err(DomainError::RuleViolation)));
}

#[test]
fn image_limits() {
    let urls: Vec<String> = (0..25).map(|i| format!("u{}", i)).collect();
    let kept = limit_image_urls(urls.clone());
    assert_eq!(kept.len(), 20);
    assert_eq!(kept[..], urls[..20]);
    assert_eq!(limit_image_urls(vec!["a".to_string()]), vec!["a".to_string()]);
    assert!(image_size_allowed(MAX_IMAGE_BYTES));
    assert!(!image_size_allowed(MAX_IMAGE_BYTES + 1));
    assert_eq!(MAX_IMAGE_BYTES, 4194304);
}

#[test]
fn stored_paths_keep_order_and_skip_failures() {
    let r = collect_stored_paths(vec![Some("/a.jpg".to_string()), None, Some("/b.jpg".to_string())]);
    assert_eq!(r, vec!["/a.jpg".to_string(), "/b.jpg".to_string()]);
    assert!(collect_stored_paths(vec![None, None]).is_empty());
}

fn is_hyphenated_uuid(s: &str) -> bool {
    s.len() == 36
        && s.chars().enumerate().all(|(i, c)| if [8, 13, 18, 23].contains(&i) { c == '-' } else { c.is_ascii_digit() || ('a'..='f').contains(&c) })
}

#[test]
fn image_file_names() {
    assert_eq!(image_file_name("abc"), "abc.jpg");
    let n = new_image_file_name().unwrap();
    assert!(n.ends_with(".jpg"));
    assert!(is_hyphenated_uuid(&n[..36]));
    assert_eq!(n.len(), 40);
    let d = new_request_dir_name().unwrap();
    assert!(is_hyphenated_uuid(&d));
    assert_ne!(new_request_dir_name().unwrap(), d);
}

#[test]
fn release_names() {
    assert_eq!(release_binary_name(Platform::Windows), "automatize-marketplace-windows.exe");
    assert_eq!(release_binary_name(Platform::MacOs), "automatize-marketplace-macos");
    assert_eq!(release_binary_name(Platform::Linux), "automatize-marketplace-linux");
}

fn png_2x2() -> Vec<u8> {
    vec![
        0x89, 0x50, 0x4e, 0x47, 0x0d, 0x0a, 0x1a, 0x0a, 0x00, 0x00, 0x00, 0x0d, 0x49, 0x48, 0x44, 0x52,
        0x00, 0x00, 0x00, 0x02, 0x00, 0x00, 0x00, 0x02, 0x08, 0x02, 0x00, 0x00, 0x00, 0xfd, 0xd4, 0x9a,
        0x73, 0x00, 0x00, 0x00, 0x10, 0x49, 0x44, 0x41, 0x54, 0x78, 0x9c, 0x63, 0xf8, 0xcf, 0xc0, 0x00,
        0x44, 0x0c, 0x10, 0x0a, 0x00, 0x1f, 0xee, 0x03, 0xfd, 0x8b, 0x5f, 0x14, 0xd4, 0x00, 0x00, 0x00,
        0x00, 0x49, 0x45, 0x4e, 0x44, 0xae, 0x42, 0x60, 0x82,
    ]
}

#[test]
fn stored_images_are_jpeg() {
    let jpg = stored_image_bytes(&png_2x2()).unwrap();
    assert_eq!(&jpg[..3], &[0xff, 0xd8, 0xff]);
    assert!(stored_image_bytes(b"not an image").is_none());
    let too_big = vec![0u8; MAX_IMAGE_BYTES + 1];
    assert!(stored_image_bytes(&too_big).is_none());
}

#[test]
fn stale_image_directories() {
    assert!(should_remove_image_dir(true, Some(301)));
    assert!(!should_remove_image_dir(true, Some(300)));
    assert!(!should_remove_image_dir(true, None));
    assert!(!should_remove_image_dir(false, Some(10_000)));
}

#[test]
fn restart_only_after_an_installed_update() {
    assert!(restart_after_update(UpdateOutcome::Updated));
    for o in [UpdateOutcome::UpToDate, UpdateOutcome::NoConnection, UpdateOutcome::Failed, UpdateOutcome::ConfigurationFailed] {
        assert!(!restart_after_update(o));
    }
}
