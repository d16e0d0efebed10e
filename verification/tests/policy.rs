use zk_verifier::policy::PageOverflow;
use zk_verifier::session::GeoTrustMatch;

#[test]
fn test_country_policy() {
    // The default allows nothing, and 840 alone is on the allow list.
    let default_allow_all = false;
    let allow_list = vec![840u32];
    let deny_list: Vec<u32> = vec![];

    let lookup = |country: u32| {
        GeoTrustMatch::get_country_allowed(
            deny_list.contains(&country),
            allow_list.contains(&country),
            default_allow_all,
        )
    };
    assert_eq!(lookup(840), Some(true));
    assert_eq!(lookup(826), None);
}

#[test]
fn deny_list_beats_allow_list_and_default() {
    assert!(!GeoTrustMatch::is_country_allowed_internal(true, true, true));
    assert!(!GeoTrustMatch::is_country_allowed_internal(true, false, true));
    assert!(!GeoTrustMatch::is_country_allowed_internal(true, true, false));
    assert!(!GeoTrustMatch::is_country_allowed_internal(true, false, false));
    assert!(GeoTrustMatch::is_country_allowed_internal(false, true, false));
    assert!(GeoTrustMatch::is_country_allowed_internal(false, true, true));
    assert!(GeoTrustMatch::is_country_allowed_internal(false, false, true));
    assert!(!GeoTrustMatch::is_country_allowed_internal(false, false, false));
}

#[test]
fn get_country_allowed_never_answers_false() {
    assert_eq!(GeoTrustMatch::get_country_allowed(false, false, true), Some(true));
    assert_eq!(GeoTrustMatch::get_country_allowed(true, true, true), None);
    assert_eq!(GeoTrustMatch::get_country_allowed(false, false, false), None);
}

#[test]
fn country_admin_comes_before_main_admin() {
    assert_eq!(
        GeoTrustMatch::get_admin_for_country(Some("country"), Some("main")),
        Some("country")
    );
    assert_eq!(
        GeoTrustMatch::get_admin_for_country(None, Some("main")),
        Some("main")
    );
    assert_eq!(
        GeoTrustMatch::get_admin_for_country(Some("country"), None),
        Some("country")
    );
    assert_eq!(GeoTrustMatch::get_admin_for_country::<u8>(None, None), None);
}

#[test]
fn list_allowed_countries_pages_in_order() {
    let countries = vec![4, 8, 12, 36, 40, 56, 76];
    assert_eq!(
        GeoTrustMatch::list_allowed_countries(&countries, 0, 3),
        Ok(vec![4, 8, 12])
    );
    assert_eq!(
        GeoTrustMatch::list_allowed_countries(&countries, 1, 3),
        Ok(vec![36, 40, 56])
    );
    assert_eq!(
        GeoTrustMatch::list_allowed_countries(&countries, 2, 3),
        Ok(vec![76])
    );
    assert_eq!(
        GeoTrustMatch::list_allowed_countries(&countries, 3, 3),
        Ok(vec![])
    );
    assert_eq!(
        GeoTrustMatch::list_allowed_countries(&countries, 0, 100),
        Ok(countries.clone())
    );
    assert_eq!(
        GeoTrustMatch::list_allowed_countries(&countries, 5, 0),
        Ok(vec![])
    );
    assert_eq!(GeoTrustMatch::list_allowed_countries(&vec![], 0, 10), Ok(vec![]));
}

#[test]
fn list_allowed_countries_refuses_bounds_beyond_32_bits() {
    let countries = vec![4, 8, 12];
    assert_eq!(
        GeoTrustMatch::list_allowed_countries(&countries, 65_536, 65_536),
        Err(PageOverflow)
    );
    assert_eq!(
        GeoTrustMatch::list_allowed_countries(&countries, 1, u32::MAX),
        Err(PageOverflow)
    );
    // The start fits, the end does not.
    assert_eq!(
        GeoTrustMatch::list_allowed_countries(&countries, 65_535, 65_537),
        Err(PageOverflow)
    );
    assert_eq!(
        GeoTrustMatch::list_allowed_countries(&countries, 0, u32::MAX),
        Ok(vec![4, 8, 12])
    );
    assert_eq!(
        GeoTrustMatch::list_allowed_countries(&countries, u32::MAX - 1, 1),
        Ok(vec![])
    );
    assert_eq!(
        GeoTrustMatch::list_allowed_countries(&countries, u32::MAX, 1),
        Err(PageOverflow)
    );
}
