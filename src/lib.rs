//! Client-side logic for a remote translation service: the JSON schema of
//! its requests and responses, the preparation and classification of each
//! HTTP round trip, and the polling protocol of long-running operations.
//!
//! Nothing here touches the network: a call is prepared as an [`HttpCall`],
//! sent by the caller, and its status and body are handed back to
//! [`finish_call`] or, while an operation is polled, to
//! [`WaitLoop::on_reply`].

pub mod calls;
pub mod code;
pub mod dispatch;
pub mod error;
pub mod json;
pub mod operation;
pub mod query;
pub mod schema;
pub mod text;

pub use calls::{
    batch_translate_text, cancel_operation, create_glossary, delete_glossary, delete_operation,
    detect_language, get_glossary, get_operation, get_supported_languages, list_glossaries,
    list_operations, translate_text,
};
pub use dispatch::{
    bearer, build_call, classify_reply, finish_call, finish_empty_call, location_url, prepare_call,
    resource_url, HttpCall, Method, Payload, API_BASE,
};
pub use error::Error;
pub use json::{FromJson, Json, JsonSchema, ToJson};
pub use operation::{settle, wait_operation, Operation, PollAction, Status, WaitLoop, WAIT_TIMEOUT};
pub use text::write_json;
pub use query::{
    decimal_string, GetSupportedLanguagesQueryParams, ListGlossariesQueryParams,
    ListOperationsQueryParams,
};
pub use schema::{
    BatchTranslateTextInputConfig, BatchTranslateTextOutputConfig, BatchTranslateTextRequest,
    DetectLanguageItem, DetectLanguageRequest, DetectLanguageResponse, GcsDestination, GcsSource, Glossary, GlossaryInputConfig,
    LanguageCodePair, LanguageCodesSet, ListGlossariesResponse, ListOperationsResponse, MimeType,
    SupportedLanguage, SupportedLanguages, TranslateTextGlossaryConfig, TranslateTextRequest,
    TranslateTextResponse, Translation,
};
