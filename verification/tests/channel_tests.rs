use recipe_api::{ApiError, RecipeType};

#[test]
fn parse_accepts_lowercase_keywords() {
    assert_eq!(RecipeType::from_str("default"), Ok(RecipeType::Default));
    assert_eq!(RecipeType::from_str("live"), Ok(RecipeType::Live));
    assert_eq!(RecipeType::from_str("beta"), Ok(RecipeType::Beta));
}

#[test]
fn parse_accepts_any_letter_casing() {
    assert_eq!(RecipeType::from_str("DEFAULT"), Ok(RecipeType::Default));
    assert_eq!(RecipeType::from_str("Default"), Ok(RecipeType::Default));
    assert_eq!(RecipeType::from_str("dEfAuLt"), Ok(RecipeType::Default));
    assert_eq!(RecipeType::from_str("LIVE"), Ok(RecipeType::Live));
    assert_eq!(RecipeType::from_str("Live"), Ok(RecipeType::Live));
    assert_eq!(RecipeType::from_str("BETA"), Ok(RecipeType::Beta));
    assert_eq!(RecipeType::from_str("BeTa"), Ok(RecipeType::Beta));
}

#[test]
fn parse_rejects_anything_else() {
    for s in ["", "foo", "defaults", "defaul", " default", "live ", "betaa", "xlive"] {
        assert_eq!(RecipeType::from_str(s), Err(ApiError::InvalidChannelString));
    }
}

#[test]
fn to_string_is_canonical_lowercase() {
    assert_eq!(RecipeType::Default.to_string(), "default");
    assert_eq!(RecipeType::Live.to_string(), "live");
    assert_eq!(RecipeType::Beta.to_string(), "beta");
}

#[test]
fn parse_round_trips_to_canonical_string() {
    for c in [RecipeType::Default, RecipeType::Live, RecipeType::Beta] {
        let canonical = c.to_string();
        assert_eq!(RecipeType::from_str(&canonical), Ok(c));
    }
    assert_eq!(RecipeType::from_str("LIVE").unwrap().to_string(), "live");
    assert_eq!(RecipeType::from_str("Beta").unwrap().to_string(), "beta");
    assert_eq!(RecipeType::from_str("DeFaUlT").unwrap().to_string(), "default");
}
