use recipe_api::{decode_recipe, decode_recipe_ids, decode_recipes, u32_ids_from_u64s, ApiError};

#[test]
fn id_narrowing_succeeds_exactly_when_all_fit() {
    assert_eq!(u32_ids_from_u64s(&vec![1, 2, u32::MAX as u64]), Ok(vec![1, 2, u32::MAX]));
    assert_eq!(u32_ids_from_u64s(&vec![]), Ok(vec![]));
    assert_eq!(
        u32_ids_from_u64s(&vec![1, u32::MAX as u64 + 1]),
        Err(ApiError::DecodeError)
    );
}

#[test]
fn ids_body_decodes_in_order() {
    let res = decode_recipe_ids("{\"ids\":[1,2]}").expect("ids should decode");
    assert_eq!(res.len(), 2);
    assert_eq!(res, vec![1, 2]);
}

#[test]
fn ids_body_empty_list() {
    let res = decode_recipe_ids("{\"ids\":[]}").expect("ids should decode");
    assert_eq!(res.len(), 0);
}

#[test]
fn ids_body_largest_id_fits() {
    let res = decode_recipe_ids("{\"ids\":[4294967295]}").expect("ids should decode");
    assert_eq!(res, vec![u32::MAX]);
}

#[test]
fn ids_body_bad_shapes_are_decode_errors() {
    for body in [
        "not json",
        "",
        "{}",
        "{\"idz\":[1]}",
        "{\"ids\":\"x\"}",
        "{\"ids\":[1.5]}",
        "{\"ids\":[-1]}",
        "{\"ids\":[4294967296]}",
        "[1,2]",
    ] {
        assert_eq!(decode_recipe_ids(body), Err(ApiError::DecodeError));
    }
}

#[test]
fn recipe_body_decodes_nested_id() {
    let body = "{\"data\":{\"id\":25011,\"title\":\"Lasagne\"}}";
    let recipe = decode_recipe(body).expect("recipe should decode");
    assert_eq!(recipe.id, 25011);
    let title = recipe
        .raw
        .get("data")
        .and_then(|d| d.get("title"))
        .and_then(|t| t.as_str())
        .expect("raw value should keep the whole record");
    assert_eq!(title, "Lasagne");
}

#[test]
fn recipe_body_bad_shapes_are_decode_errors() {
    for body in [
        "not json",
        "{}",
        "{\"data\":{}}",
        "{\"data\":{\"id\":\"x\"}}",
        "{\"data\":{\"id\":-3}}",
        "{\"data\":{\"id\":4294967296}}",
        "[{\"data\":{\"id\":1}}]",
    ] {
        assert!(matches!(decode_recipe(body), Err(ApiError::DecodeError)));
    }
}

#[test]
fn recipes_body_keeps_length_and_order() {
    let body = "[{\"data\":{\"id\":1}},{\"data\":{\"id\":2}},{\"data\":{\"id\":3}}]";
    let recipes = decode_recipes(body).expect("recipes should decode");
    assert_eq!(recipes.len(), 3);
    assert_eq!(recipes[0].id, 1);
    assert_eq!(recipes[1].id, 2);
    assert_eq!(recipes[2].id, 3);
}

#[test]
fn recipes_body_keeps_each_raw_element() {
    let body = "[{\"data\":{\"id\":7,\"name\":\"soup\"}}]";
    let recipes = decode_recipes(body).expect("recipes should decode");
    let parsed: serde_json::Value = serde_json::from_str(body).expect("body is valid JSON");
    let elements = parsed.as_array().expect("body is an array");
    assert_eq!(recipes.len(), elements.len());
    assert_eq!(recipes[0].raw, elements[0]);
}

#[test]
fn recipes_body_empty_array_is_empty_result() {
    let recipes = decode_recipes("[]").expect("recipes should decode");
    assert!(recipes.is_empty());
}

#[test]
fn recipes_body_bad_shapes_are_decode_errors() {
    for body in ["not json", "{}", "{\"data\":{\"id\":1}}", "[{\"data\":{}}]", "[1]"] {
        assert!(matches!(decode_recipes(body), Err(ApiError::DecodeError)));
    }
}
