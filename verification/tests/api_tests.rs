use recipe_api::{Api, ApiError, RecipeType};

const BASE: &str = "http://127.0.0.1:1234";

#[test]
fn update_files_from_three_line_body() {
    let api = Api::with_base(BASE, "de");
    let res = api
        .apk_updates_from_body("a.apk\nb.apk\nc.apk\n")
        .expect("listing should decode");
    assert_eq!(res.len(), 3);
    assert_eq!(
        res[0],
        "http://127.0.0.1:1234/666a60bc-0ce2-4878-9e3b-23ba3ceaba5a/a.apk"
    );
    assert_eq!(
        res[1],
        "http://127.0.0.1:1234/666a60bc-0ce2-4878-9e3b-23ba3ceaba5a/b.apk"
    );
    assert_eq!(
        res[2],
        "http://127.0.0.1:1234/666a60bc-0ce2-4878-9e3b-23ba3ceaba5a/c.apk"
    );
}

#[test]
fn update_files_request_url() {
    let api = Api::with_base(BASE, "de");
    let url = api.apk_updates_request().expect("url should build");
    assert_eq!(
        url,
        "http://127.0.0.1:1234/666a60bc-0ce2-4878-9e3b-23ba3ceaba5a/versions.txt"
    );
}

#[test]
fn update_files_bad_base_is_url_error() {
    let api = Api::with_base("not a url", "de");
    assert_eq!(api.apk_updates_request(), Err(ApiError::UrlError));
    assert_eq!(api.apk_updates_from_body("a.apk\n"), Err(ApiError::UrlError));
}

#[test]
fn resolve_params_defaults() {
    let api = Api::with_base(BASE, "de");
    let (lang, channel) = api.resolve_recipe_params(None, None);
    assert_eq!(lang, "de");
    assert_eq!(channel, RecipeType::Default);
}

#[test]
fn resolve_params_explicit_overrides() {
    let api = Api::with_base(BASE, "de");
    let (lang, channel) = api.resolve_recipe_params(Some("fr"), Some(RecipeType::Beta));
    assert_eq!(lang, "fr");
    assert_eq!(channel, RecipeType::Beta);
}

#[test]
fn recipe_endpoint_carries_default_headers() {
    let api = Api::with_base(BASE, "de");
    let req = api
        .get_recipe_endpoint("ids", None, None)
        .expect("request should build");
    assert_eq!(req.url, "http://127.0.0.1:1234/mcc/api/v1/recipe/ids");
    assert_eq!(req.accept_language, "de");
    assert_eq!(req.recipe_type, "default");
}

#[test]
fn recipe_endpoint_carries_explicit_headers() {
    let api = Api::with_base(BASE, "de");
    let req = api
        .get_recipe_endpoint("all", Some("fr"), Some(RecipeType::Live))
        .expect("request should build");
    assert_eq!(req.url, "http://127.0.0.1:1234/mcc/api/v1/recipe/all");
    assert_eq!(req.accept_language, "fr");
    assert_eq!(req.recipe_type, "live");
}

#[test]
fn recipe_request_uses_decimal_id() {
    let api = Api::with_base(BASE, "en");
    let req = api
        .recipe_request(25011, None, Some(RecipeType::Beta))
        .expect("request should build");
    assert_eq!(req.url, "http://127.0.0.1:1234/mcc/api/v1/recipe/25011");
    assert_eq!(req.accept_language, "en");
    assert_eq!(req.recipe_type, "beta");
}

#[test]
fn production_base_is_fixed_host() {
    let api = Api::new("de");
    let req = api
        .get_recipe_endpoint("ids", None, None)
        .expect("request should build");
    assert_eq!(req.url, "https://mc20.monsieur-cuisine.com/mcc/api/v1/recipe/ids");
}

#[test]
fn decimal_formatting_is_exact() {
    assert_eq!(recipe_api::u32_to_dec(0), "0");
    assert_eq!(recipe_api::u32_to_dec(7), "7");
    assert_eq!(recipe_api::u32_to_dec(10), "10");
    assert_eq!(recipe_api::u32_to_dec(25011), "25011");
    assert_eq!(recipe_api::u32_to_dec(u32::MAX), "4294967295");
}

#[test]
fn trim_and_split_match_listing_shape() {
    assert_eq!(recipe_api::trim_end("a.apk\nb.apk\n \t\r\n"), "a.apk\nb.apk");
    let lines = recipe_api::split_lines("a.apk\nb.apk");
    assert_eq!(lines, vec!["a.apk".to_string(), "b.apk".to_string()]);
    assert_eq!(recipe_api::split_lines(""), vec![String::new()]);
}
