use vstd::prelude::*;

use crate::error::ApiError;
use crate::jsonval::{
    clone_value, json_array_of, json_as_array, json_as_u64, json_get, json_member_of, json_parsed,
    json_u64_of, parse_json,
};

verus! {

/// One recipe record of the service: the identifier it nests under `data.id`,
/// and the record's full JSON value, passed through unmodified.
pub struct Recipe {
    pub id: u32,
    pub raw: serde_json::Value,
}

/// The `data.id` member of a recipe record, as a decoded integer: `None`
/// where either member is missing or the value is no integer.
pub open spec fn spec_recipe_id(v: serde_json::Value) -> Option<u64> {
    match json_member_of(v, "data"@) {
        Some(d) => match json_member_of(d, "id"@) {
            Some(i) => json_u64_of(i),
            None => None,
        },
        None => None,
    }
}

/// Whether a JSON value decodes as a recipe record: `data.id` exists, is an
/// integer, and fits in a `u32`.
pub open spec fn spec_recipe_ok(v: serde_json::Value) -> bool {
    spec_recipe_id(v) matches Some(n) && n <= u32::MAX
}

/// Whether every element of a JSON array decodes as a recipe record.
pub open spec fn spec_recipes_ok(items: Seq<serde_json::Value>) -> bool {
    forall|i: int| 0 <= i < items.len() ==> spec_recipe_ok(#[trigger] items[i])
}

/// The `ids` member of the identifier listing, as an array: `None` where the
/// member is missing or the value is no array.
pub open spec fn spec_ids_array(v: serde_json::Value) -> Option<Seq<serde_json::Value>> {
    match json_member_of(v, "ids"@) {
        Some(a) => json_array_of(a),
        None => None,
    }
}

/// Whether a JSON value is one identifier: an integer that fits in a `u32`.
pub open spec fn spec_id_ok(v: serde_json::Value) -> bool {
    json_u64_of(v) matches Some(n) && n <= u32::MAX
}

/// Whether a JSON value decodes as the identifier listing: an `ids` array
/// whose every element is an identifier.
pub open spec fn spec_ids_ok(v: serde_json::Value) -> bool {
    spec_ids_array(v) matches Some(arr) && (forall|i: int|
        0 <= i < arr.len() ==> spec_id_ok(#[trigger] arr[i]))
}

/// Decode one recipe from a JSON value: the nested `data.id` member must be
/// an integer that fits in a `u32`; the value itself is kept whole.
pub fn recipe_from_value(v: serde_json::Value) -> (r: Result<Recipe, ApiError>)
    ensures
        r is Ok <==> spec_recipe_ok(v),
        r matches Ok(rec) ==> rec.raw == v && Some(rec.id as u64) == spec_recipe_id(v),
        r is Err ==> r == Err::<Recipe, ApiError>(ApiError::DecodeError),
{
    let id_val: u64 = match json_get(&v, "data") {
        None => {
            return Err(ApiError::DecodeError);
        },
        Some(d) => match json_get(d, "id") {
            None => {
                return Err(ApiError::DecodeError);
            },
            Some(i) => match json_as_u64(i) {
                None => {
                    return Err(ApiError::DecodeError);
                },
                Some(n) => n,
            },
        },
    };
    if id_val > u32::MAX as u64 {
        return Err(ApiError::DecodeError);
    }
    Ok(Recipe { id: id_val as u32, raw: v })
}

/// Decode a sequence of recipes from the elements of a JSON array: succeeds
/// exactly when every element decodes, and then keeps the length and, element
/// by element, the order and content of the input.
pub fn recipes_from_values(items: &Vec<serde_json::Value>) -> (r: Result<Vec<Recipe>, ApiError>)
    ensures
        r is Ok <==> spec_recipes_ok(items@),
        r matches Ok(v) ==> v@.len() == items@.len() && (forall|i: int|
            0 <= i < items@.len() ==> (#[trigger] v@[i]).raw == items@[i] && Some(
                v@[i].id as u64,
            ) == spec_recipe_id(items@[i])),
        r is Err ==> r == Err::<Vec<Recipe>, ApiError>(ApiError::DecodeError),
{
    let mut out: Vec<Recipe> = Vec::new();
    let mut i: usize = 0;
    while i < items.len()
        invariant
            i <= items@.len(),
            out@.len() == i,
            forall|j: int|
                0 <= j < i ==> (#[trigger] out@[j]).raw == items@[j] && Some(out@[j].id as u64)
                    == spec_recipe_id(items@[j]),
        decreases items@.len() - i,
    {
        let v = clone_value(&items[i]);
        match recipe_from_value(v) {
            Ok(rec) => out.push(rec),
            Err(e) => {
                proof {
                    assert(!spec_recipe_ok(items@[i as int]));
                    assert(!spec_recipes_ok(items@));
                }
                return Err(e);
            },
        }
        i = i + 1;
    }
    proof {
        assert forall|j: int| 0 <= j < items@.len() implies spec_recipe_ok(
            #[trigger] items@[j],
        ) by {
            assert(Some(out@[j].id as u64) == spec_recipe_id(items@[j]));
        }
    }
    Ok(out)
}

/// Narrow decoded identifiers to the `u32` identifiers of the interface:
/// succeeds exactly when every one fits, and then keeps value and order.
pub fn u32_ids_from_u64s(xs: &Vec<u64>) -> (r: Result<Vec<u32>, ApiError>)
    ensures
        r is Ok <==> (forall|i: int| 0 <= i < xs@.len() ==> xs@[i] <= u32::MAX),
        r matches Ok(v) ==> v@.len() == xs@.len() && forall|i: int|
            0 <= i < xs@.len() ==> v@[i] == xs@[i] as u32,
        r is Err ==> r == Err::<Vec<u32>, ApiError>(ApiError::DecodeError),
{
    let mut out: Vec<u32> = Vec::new();
    let mut i: usize = 0;
    while i < xs.len()
        invariant
            i <= xs@.len(),
            out@.len() == i,
            forall|j: int| 0 <= j < i ==> #[trigger] xs@[j] <= u32::MAX,
            forall|j: int| 0 <= j < i ==> #[trigger] out@[j] == xs@[j] as u32,
        decreases xs@.len() - i,
    {
        let x = xs[i];
        if x > u32::MAX as u64 {
            return Err(ApiError::DecodeError);
        }
        out.push(x as u32);
        i = i + 1;
    }
    Ok(out)
}

/// Decode the identifier listing from a JSON value: an object with an `ids`
/// member holding an array of integers that fit in `u32`; succeeds exactly
/// then, keeping the array's values and order.
pub fn ids_from_value(v: &serde_json::Value) -> (r: Result<Vec<u32>, ApiError>)
    ensures
        r is Ok <==> spec_ids_ok(*v),
        r matches Ok(ids) ==> (spec_ids_array(*v) matches Some(arr) && ids@.len() == arr.len()
            && (forall|i: int|
            0 <= i < arr.len() ==> Some((#[trigger] ids@[i]) as u64) == json_u64_of(arr[i]))),
        r is Err ==> r == Err::<Vec<u32>, ApiError>(ApiError::DecodeError),
{
    let arr: &Vec<serde_json::Value> = match json_get(v, "ids") {
        None => {
            return Err(ApiError::DecodeError);
        },
        Some(a) => match json_as_array(a) {
            None => {
                return Err(ApiError::DecodeError);
            },
            Some(arr) => arr,
        },
    };
    let mut xs: Vec<u64> = Vec::new();
    let mut i: usize = 0;
    while i < arr.len()
        invariant
            i <= arr@.len(),
            xs@.len() == i,
            spec_ids_array(*v) == Some(arr@),
            forall|j: int| 0 <= j < i ==> json_u64_of(#[trigger] arr@[j]) == Some(xs@[j]),
        decreases arr@.len() - i,
    {
        match json_as_u64(&arr[i]) {
            None => {
                proof {
                    assert(!spec_id_ok(arr@[i as int]));
                }
                return Err(ApiError::DecodeError);
            },
            Some(n) => xs.push(n),
        }
        i = i + 1;
    }
    match u32_ids_from_u64s(&xs) {
        Ok(ids) => {
            proof {
                assert forall|j: int| 0 <= j < arr@.len() implies spec_id_ok(
                    #[trigger] arr@[j],
                ) by {
                    assert(json_u64_of(arr@[j]) == Some(xs@[j]));
                    assert(xs@[j] <= u32::MAX);
                }
            }
            Ok(ids)
        },
        Err(e) => {
            proof {
                assert(exists|j: int| 0 <= j < xs@.len() && #[trigger] xs@[j] > u32::MAX);
                let j = choose|j: int| 0 <= j < xs@.len() && #[trigger] xs@[j] > u32::MAX;
                assert(json_u64_of(arr@[j]) == Some(xs@[j]));
                assert(!spec_id_ok(arr@[j]));
            }
            Err(e)
        },
    }
}

/// Decode the body of the identifier endpoint: JSON `{ "ids": [ ... ] }`;
/// succeeds exactly when the body is valid JSON of that shape, keeping the
/// array's values and order.
pub fn decode_recipe_ids(body: &str) -> (r: Result<Vec<u32>, ApiError>)
    ensures
        r is Ok <==> (json_parsed(body@) matches Some(v) && spec_ids_ok(v)),
        r matches Ok(ids) ==> (json_parsed(body@) matches Some(v) && spec_ids_array(v) matches Some(
            arr,
        ) && ids@.len() == arr.len() && (forall|i: int|
            0 <= i < arr.len() ==> Some((#[trigger] ids@[i]) as u64) == json_u64_of(arr[i]))),
        r is Err ==> r == Err::<Vec<u32>, ApiError>(ApiError::DecodeError),
{
    match parse_json(body) {
        None => Err(ApiError::DecodeError),
        Some(v) => ids_from_value(&v),
    }
}

/// Decode the body of the single-recipe endpoint: one JSON recipe record;
/// succeeds exactly when the body is valid JSON with an integer `data.id`
/// that fits in `u32`.
pub fn decode_recipe(body: &str) -> (r: Result<Recipe, ApiError>)
    ensures
        r is Ok <==> (json_parsed(body@) matches Some(v) && spec_recipe_ok(v)),
        r matches Ok(rec) ==> (json_parsed(body@) matches Some(v) && rec.raw == v && Some(
            rec.id as u64,
        ) == spec_recipe_id(v)),
        r is Err ==> r == Err::<Recipe, ApiError>(ApiError::DecodeError),
{
    match parse_json(body) {
        None => Err(ApiError::DecodeError),
        Some(v) => recipe_from_value(v),
    }
}

/// Decode the body of the `all` endpoint: a JSON array of recipe records;
/// succeeds exactly when the body is valid JSON of that shape, keeping the
/// array's length and order.
pub fn decode_recipes(body: &str) -> (r: Result<Vec<Recipe>, ApiError>)
    ensures
        r is Ok <==> (json_parsed(body@) matches Some(v) && json_array_of(v) matches Some(arr)
            && spec_recipes_ok(arr)),
        r matches Ok(recs) ==> (json_parsed(body@) matches Some(v) && json_array_of(
            v,
        ) matches Some(arr) && recs@.len() == arr.len() && (forall|i: int|
            0 <= i < arr.len() ==> (#[trigger] recs@[i]).raw == arr[i] && Some(recs@[i].id as u64)
                == spec_recipe_id(arr[i]))),
        r is Err ==> r == Err::<Vec<Recipe>, ApiError>(ApiError::DecodeError),
{
    match parse_json(body) {
        None => Err(ApiError::DecodeError),
        Some(v) => match json_as_array(&v) {
            None => Err(ApiError::DecodeError),
            Some(arr) => recipes_from_values(arr),
        },
    }
}

} // verus!
