//! Client-side core of a recipe and update-file service: release channels,
//! request building with language and channel resolution, and decoding of the
//! service's responses.
use vstd::prelude::*;

mod api;
mod channel;
mod decode;
mod error;
mod jsonval;
mod text;
mod urls;

pub use api::{Api, RecipeRequest};
pub use channel::{lemma_channel_canonical, lemma_channel_round_trip, RecipeType};
pub use decode::{
    decode_recipe, decode_recipe_ids, decode_recipes, ids_from_value, recipe_from_value,
    recipes_from_values, u32_ids_from_u64s, Recipe,
};
pub use error::ApiError;
pub use text::{split_lines, trim_end, u32_to_dec};

verus! {

} // verus!
