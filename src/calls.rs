use vstd::prelude::*;

use crate::dispatch::{
    api_url, build_call, form_encoded, location_url, prepare_call, resource_url, trimmed, HttpCall,
    Method, Payload,
};
use crate::json::{object_keys, without_nulls, JsonSchema, ToJson};
use crate::query::{GetSupportedLanguagesQueryParams, ListGlossariesQueryParams, ListOperationsQueryParams};
use crate::schema::{BatchTranslateTextRequest, DetectLanguageRequest, Glossary, TranslateTextRequest};

verus! {

/// `c` is sent with `method` to `url`, authorized by `token`, with the JSON
/// content type; its answer is decoded when `expects_body` holds.
pub open spec fn sends(c: HttpCall, method: Method, url: Seq<char>, token: Seq<char>, expects_body: bool) -> bool {
    &&& c.method == method
    &&& c.url@ == url
    &&& c.json_content_type
    &&& c.authorization@ == "Bearer "@ + trimmed(token)
    &&& c.expects_body == expects_body
}

/// The URL of the location `location` of the project `project`, followed by `suffix`.
pub open spec fn location_path(project: Seq<char>, location: Seq<char>, suffix: Seq<char>) -> Seq<char> {
    api_url("projects/"@ + project + "/locations/"@ + location + suffix)
}

/// `c` carries as its body exactly the tree written for `v`: its keys are
/// `wire_keys(v)` in order, no member is `null`, and nested objects are fixed
/// the same way.
pub open spec fn carries<T: ToJson>(c: HttpCall, v: T) -> bool {
    &&& c.body is Some
    &&& T::written(c.body.unwrap(), v)
    &&& T::represents(c.body.unwrap(), v)
    &&& object_keys(c.body.unwrap()) == T::wire_keys(v)
    &&& without_nulls(c.body.unwrap())
}

fn post_body<T: ToJson>(url: String, access_token: &str, body: &T) -> (r: HttpCall)
    ensures
        sends(r, Method::Post, url@, access_token@, true),
        carries(r, *body),
{
    build_call(Method::Post, url, access_token, Some(body.to_json()), true)
}

fn get_query(url: String, access_token: &str, pairs: Vec<(String, String)>) -> (r: HttpCall)
    ensures
        sends(r, Method::Get, url@ + "?"@ + form_encoded(
            pairs@.map_values(|x: (String, String)| (x.0@, x.1@)),
        ), access_token@, true),
        r.body is None,
{
    prepare_call(Method::Get, url, access_token, Payload::Query(pairs), true)
}

fn name_url(name: &str) -> (r: String)
    ensures
        r@ == api_url(name@),
{
    proof {
        reveal_strlit("");
    }
    let r = resource_url(name, "");
    assert(name@ + ""@ =~= name@);
    r
}

/// Detects the language of a text.
pub fn detect_language(project_id: &str, location_id: &str, access_token: &str, request_body: &DetectLanguageRequest) -> (r: HttpCall)
    requires
        request_body.well_formed(),
    ensures
        sends(r, Method::Post, location_path(project_id@, location_id@, ":detectLanguage"@), access_token@, true),
        carries(r, *request_body),
{
    post_body(location_url(project_id, location_id, ":detectLanguage"), access_token, request_body)
}

/// Lists the languages the service supports.
pub fn get_supported_languages(project_id: &str, location_id: &str, access_token: &str, query_params: &GetSupportedLanguagesQueryParams) -> (r: HttpCall)
    ensures
        sends(r, Method::Get, location_path(project_id@, location_id@, "/supportedLanguages"@) + "?"@
            + form_encoded(query_params.query_pairs()), access_token@, true),
        r.body is None,
{
    get_query(location_url(project_id, location_id, "/supportedLanguages"), access_token, query_params.to_pairs())
}

/// Translates texts.
pub fn translate_text(project_id: &str, location_id: &str, access_token: &str, request_body: &TranslateTextRequest) -> (r: HttpCall)
    requires
        request_body.well_formed(),
    ensures
        sends(r, Method::Post, location_path(project_id@, location_id@, ":translateText"@), access_token@, true),
        carries(r, *request_body),
{
    post_body(location_url(project_id, location_id, ":translateText"), access_token, request_body)
}

/// Starts the translation of files in batch; the answer is an operation.
pub fn batch_translate_text(project_id: &str, location_id: &str, access_token: &str, request_body: &BatchTranslateTextRequest) -> (r: HttpCall)
    requires
        request_body.well_formed(),
    ensures
        sends(r, Method::Post, location_path(project_id@, location_id@, ":batchTranslateText"@), access_token@, true),
        carries(r, *request_body),
{
    post_body(location_url(project_id, location_id, ":batchTranslateText"), access_token, request_body)
}

/// Starts the creation of a glossary; the answer is an operation.
pub fn create_glossary(project_id: &str, location_id: &str, access_token: &str, glossary: &Glossary) -> (r: HttpCall)
    ensures
        sends(r, Method::Post, location_path(project_id@, location_id@, "/glossaries"@), access_token@, true),
        carries(r, *glossary),
{
    post_body(location_url(project_id, location_id, "/glossaries"), access_token, glossary)
}

/// Starts the deletion of the glossary `name`; the answer is an operation.
pub fn delete_glossary(name: &str, access_token: &str) -> (r: HttpCall)
    ensures
        sends(r, Method::Delete, api_url(name@), access_token@, true),
        r.body is None,
{
    build_call(Method::Delete, name_url(name), access_token, None, true)
}

/// Reads the glossary `name`.
pub fn get_glossary(name: &str, access_token: &str) -> (r: HttpCall)
    ensures
        sends(r, Method::Get, api_url(name@), access_token@, true),
        r.body is None,
{
    build_call(Method::Get, name_url(name), access_token, None, true)
}

/// Lists one page of the glossaries of a location.
pub fn list_glossaries(project_id: &str, location_id: &str, access_token: &str, params: &ListGlossariesQueryParams) -> (r: HttpCall)
    ensures
        sends(r, Method::Get, location_path(project_id@, location_id@, "/glossaries"@) + "?"@
            + form_encoded(params.query_pairs()), access_token@, true),
        r.body is None,
{
    get_query(location_url(project_id, location_id, "/glossaries"), access_token, params.to_pairs())
}

/// Asks that the operation `name` be cancelled; the answer carries nothing.
pub fn cancel_operation(name: &str, access_token: &str) -> (r: HttpCall)
    ensures
        sends(r, Method::Post, api_url(name@ + ":cancel"@), access_token@, false),
        r.body is None,
{
    build_call(Method::Post, resource_url(name, ":cancel"), access_token, None, false)
}

/// Deletes the record of the operation `name`; the answer carries nothing.
pub fn delete_operation(name: &str, access_token: &str) -> (r: HttpCall)
    ensures
        sends(r, Method::Delete, api_url(name@), access_token@, false),
        r.body is None,
{
    build_call(Method::Delete, name_url(name), access_token, None, false)
}

/// Reads the operation `name`.
pub fn get_operation(name: &str, access_token: &str) -> (r: HttpCall)
    ensures
        sends(r, Method::Get, api_url(name@), access_token@, true),
        r.body is None,
{
    build_call(Method::Get, name_url(name), access_token, None, true)
}

/// Lists one page of the operations of a location.
pub fn list_operations(project_id: &str, location_id: &str, access_token: &str, params: &ListOperationsQueryParams) -> (r: HttpCall)
    ensures
        sends(r, Method::Get, location_path(project_id@, location_id@, "/operations"@) + "?"@
            + form_encoded(params.query_pairs()), access_token@, true),
        r.body is None,
{
    get_query(location_url(project_id, location_id, "/operations"), access_token, params.to_pairs())
}

} // verus!
