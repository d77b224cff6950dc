use vstd::prelude::*;

use crate::channel::{channel_str, RecipeType};
use crate::error::ApiError;
use crate::text::{
    line_views, spec_dec_digits, spec_lines, spec_trim_end, split_lines, trim_end, u32_to_dec,
};
use crate::urls::{join_url, parse_url, url_joined, url_parsed, url_str, url_to_string};

verus! {

/// The URL that joining `path` onto `base` yields, in serialized form: parse
/// the base, resolve the path against it, serialize; `None` where either
/// step fails.
pub open spec fn spec_create_url(base: Seq<char>, path: Seq<char>) -> Option<Seq<char>> {
    match url_parsed(base) {
        Some(b) => match url_joined(b, path) {
            Some(u) => Some(url_str(u)),
            None => None,
        },
        None => None,
    }
}

/// The download URL of one listed file name: the name joined under the fixed
/// download path.
pub open spec fn spec_update_url(base: Seq<char>, line: Seq<char>) -> Option<Seq<char>> {
    spec_create_url(base, "/666a60bc-0ce2-4878-9e3b-23ba3ceaba5a/"@ + line)
}

/// Whether every listed file name joins into a download URL.
pub open spec fn spec_update_urls_ok(base: Seq<char>, lines: Seq<Seq<char>>) -> bool {
    forall|i: int| 0 <= i < lines.len() ==> (#[trigger] spec_update_url(base, lines[i])) is Some
}

/// The recipe-service client: the configuration every request is built from.
/// It holds no connection state; the transport around it performs the
/// requests it describes.
pub struct Api {
    base_url: String,
    default_language: String,
}

/// One request against the recipe endpoints, ready to send: the URL and the
/// values of the two headers it must carry.
pub struct RecipeRequest {
    /// The absolute request URL.
    pub url: String,
    /// The value of the `Accept-Language` header.
    pub accept_language: String,
    /// The value of the `X-Recipe-Type` header.
    pub recipe_type: String,
}

/// The language a request carries: the explicit argument where present, else
/// the configured default.
pub open spec fn spec_language(language: Option<&str>, default: Seq<char>) -> Seq<char> {
    match language {
        Some(l) => l@,
        None => default,
    }
}

/// The channel a request carries: the explicit argument where present, else
/// `Default`.
pub open spec fn spec_channel(recipe_type: Option<RecipeType>) -> RecipeType {
    match recipe_type {
        Some(t) => t,
        None => RecipeType::Default,
    }
}

impl Api {
    /// The configured base URL.
    pub closed spec fn spec_base(&self) -> Seq<char> {
        self.base_url@
    }

    /// The configured default language tag.
    pub closed spec fn spec_default_language(&self) -> Seq<char> {
        self.default_language@
    }

    /// A client against the production host.
    ///
    /// The language is an ISO 639-1 tag ("de", "it", "fr", "pl", "en", "es"),
    /// stored verbatim and not validated.
    pub fn new(language: &str) -> (r: Api)
        ensures
            r.spec_base() == "https://mc20.monsieur-cuisine.com"@,
            r.spec_default_language() == language@,
    {
        Api {
            base_url: "https://mc20.monsieur-cuisine.com".to_owned(),
            default_language: language.to_owned(),
        }
    }

    /// A client against an alternate base URL: a test or staging host, with
    /// the same calling code.
    pub fn with_base(base: &str, language: &str) -> (r: Api)
        ensures
            r.spec_base() == base@,
            r.spec_default_language() == language@,
    {
        Api { base_url: base.to_owned(), default_language: language.to_owned() }
    }

    /// Join `path` onto the configured base; any parse or join failure is a
    /// `UrlError`.
    fn create_url(&self, path: &str) -> (r: Result<String, ApiError>)
        ensures
            r is Ok <==> spec_create_url(self.spec_base(), path@) is Some,
            r matches Ok(u) ==> Some(u@) == spec_create_url(self.spec_base(), path@),
            r is Err ==> r == Err::<String, ApiError>(ApiError::UrlError),
    {
        match parse_url(self.base_url.as_str()) {
            None => Err(ApiError::UrlError),
            Some(base) => match join_url(&base, path) {
                None => Err(ApiError::UrlError),
                Some(u) => Ok(url_to_string(&u)),
            },
        }
    }

    /// The URL of the update-file listing, `versions.txt` under the download
    /// path.
    pub fn apk_updates_request(&self) -> (r: Result<String, ApiError>)
        ensures
            r is Ok <==> spec_create_url(
                self.spec_base(),
                "/666a60bc-0ce2-4878-9e3b-23ba3ceaba5a/versions.txt"@,
            ) is Some,
            r matches Ok(u) ==> Some(u@) == spec_create_url(
                self.spec_base(),
                "/666a60bc-0ce2-4878-9e3b-23ba3ceaba5a/versions.txt"@,
            ),
            r is Err ==> r == Err::<String, ApiError>(ApiError::UrlError),
    {
        self.create_url("/666a60bc-0ce2-4878-9e3b-23ba3ceaba5a/versions.txt")
    }

    /// Turn the listing body into absolute download URLs: trim trailing
    /// whitespace, split at newlines, and join each file name under the
    /// download path, in the order of the body. Any name that cannot be
    /// joined is a `UrlError`.
    pub fn apk_updates_from_body(&self, body: &str) -> (r: Result<Vec<String>, ApiError>)
        ensures
            r is Ok <==> spec_update_urls_ok(self.spec_base(), spec_lines(spec_trim_end(body@))),
            r matches Ok(v) ==> v@.len() == spec_lines(spec_trim_end(body@)).len() && (forall|
                i: int,
            |
                0 <= i < v@.len() ==> Some(#[trigger] v@[i]@) == spec_update_url(
                    self.spec_base(),
                    spec_lines(spec_trim_end(body@))[i],
                )),
            r is Err ==> r == Err::<Vec<String>, ApiError>(ApiError::UrlError),
    {
        let trimmed = trim_end(body);
        let lines = split_lines(trimmed);
        let ghost ls = spec_lines(spec_trim_end(body@));
        proof {
            assert(line_views(lines@) == ls);
            assert(lines@.len() == ls.len());
        }
        let mut out: Vec<String> = Vec::new();
        let mut i: usize = 0;
        while i < lines.len()
            invariant
                i <= lines@.len(),
                out@.len() == i,
                ls == spec_lines(spec_trim_end(body@)),
                line_views(lines@) == ls,
                lines@.len() == ls.len(),
                forall|j: int|
                    0 <= j < i ==> Some(#[trigger] out@[j]@) == spec_update_url(
                        self.spec_base(),
                        ls[j],
                    ),
            decreases lines@.len() - i,
        {
            let path = "/666a60bc-0ce2-4878-9e3b-23ba3ceaba5a/".to_owned().concat(
                lines[i].as_str(),
            );
            proof {
                assert(lines@[i as int]@ == line_views(lines@)[i as int]);
                assert(path@ == "/666a60bc-0ce2-4878-9e3b-23ba3ceaba5a/"@ + ls[i as int]);
            }
            match self.create_url(path.as_str()) {
                Ok(u) => out.push(u),
                Err(e) => {
                    proof {
                        assert(spec_update_url(self.spec_base(), ls[i as int]) is None);
                        assert(!spec_update_urls_ok(self.spec_base(), ls));
                    }
                    return Err(e);
                },
            }
            i = i + 1;
        }
        proof {
            assert forall|j: int| 0 <= j < ls.len() implies (#[trigger] spec_update_url(
                self.spec_base(),
                ls[j],
            )) is Some by {
                assert(Some(out@[j]@) == spec_update_url(self.spec_base(), ls[j]));
            }
        }
        Ok(out)
    }

    /// The language and channel a request will carry: the explicit argument
    /// where present, else the configured default language and the `Default`
    /// channel.
    pub fn resolve_recipe_params(
        &self,
        language: Option<&str>,
        recipe_type: Option<RecipeType>,
    ) -> (r: (String, RecipeType))
        ensures
            r.0@ == spec_language(language, self.spec_default_language()),
            r.1 == spec_channel(recipe_type),
    {
        let lang = match language {
            Some(l) => l.to_owned(),
            None => self.default_language.clone(),
        };
        let ch = match recipe_type {
            Some(t) => t,
            None => RecipeType::Default,
        };
        (lang, ch)
    }

    /// Build the request against `/mcc/api/v1/recipe/<endpoint>`: the
    /// resolved language and channel stand in the headers; every failure is a
    /// `UrlError`.
    pub fn get_recipe_endpoint(
        &self,
        endpoint: &str,
        language: Option<&str>,
        recipe_type: Option<RecipeType>,
    ) -> (r: Result<RecipeRequest, ApiError>)
        ensures
            r is Ok <==> spec_create_url(
                self.spec_base(),
                "/mcc/api/v1/recipe/"@ + endpoint@,
            ) is Some,
            r matches Ok(req) ==> Some(req.url@) == spec_create_url(
                self.spec_base(),
                "/mcc/api/v1/recipe/"@ + endpoint@,
            ),
            r matches Ok(req) ==> req.accept_language@ == spec_language(
                language,
                self.spec_default_language(),
            ),
            r matches Ok(req) ==> req.recipe_type@ == channel_str(spec_channel(recipe_type)),
            r is Err ==> r == Err::<RecipeRequest, ApiError>(ApiError::UrlError),
    {
        let (lang, ch) = self.resolve_recipe_params(language, recipe_type);
        let path = "/mcc/api/v1/recipe/".to_owned().concat(endpoint);
        match self.create_url(path.as_str()) {
            Err(e) => Err(e),
            Ok(u) => Ok(
                RecipeRequest { url: u, accept_language: lang, recipe_type: ch.to_string() },
            ),
        }
    }

    /// Build the request for one recipe, `/mcc/api/v1/recipe/<id>` with the
    /// identifier in decimal.
    pub fn recipe_request(
        &self,
        id: u32,
        language: Option<&str>,
        recipe_type: Option<RecipeType>,
    ) -> (r: Result<RecipeRequest, ApiError>)
        ensures
            r is Ok <==> spec_create_url(
                self.spec_base(),
                "/mcc/api/v1/recipe/"@ + spec_dec_digits(id as nat),
            ) is Some,
            r matches Ok(req) ==> Some(req.url@) == spec_create_url(
                self.spec_base(),
                "/mcc/api/v1/recipe/"@ + spec_dec_digits(id as nat),
            ),
            r matches Ok(req) ==> req.accept_language@ == spec_language(
                language,
                self.spec_default_language(),
            ),
            r matches Ok(req) ==> req.recipe_type@ == channel_str(spec_channel(recipe_type)),
            r is Err ==> r == Err::<RecipeRequest, ApiError>(ApiError::UrlError),
    {
        let endpoint = u32_to_dec(id);
        self.get_recipe_endpoint(endpoint.as_str(), language, recipe_type)
    }
}

} // verus!
