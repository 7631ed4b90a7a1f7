//! Request handling for a small catalog endpoint: an echo on POST, the addon
//! catalog on GET, and one error envelope for everything that goes wrong.
//!
//! The library decides and computes; reading the request, the environment and
//! the database, and writing JSON, are left to the program around it.

mod config;
mod error;
mod handler;
mod lemmas;
mod model;
mod rows;

pub use config::{
    settings_result, Config, Setting, DATABASE, REGION_VAR, RESOURCE_ARN_VAR, SECRET_ARN_VAR,
};
pub use error::{error_message, lemma_error_message_not_empty, log_error, HandlerError};
pub use handler::{
    answers, begin_get, catalog_addons, dispatch, get, is_error_envelope, post, post_result, respond, Body,
    Dispatch, Method, QueryOutcome, Response, INVALID_METHOD,
};
pub use lemmas::{
    lemma_bad_body_answered_with_error, lemma_echo_round_trip, lemma_empty_record_set,
    lemma_missing_download_count_skipped, lemma_missing_setting_is_error, lemma_positional_append,
    lemma_typed_keeps_every_row, lemma_typed_nulls_kept,
};
pub use model::{Addon, AddonResponse, BadRequest, Message};
pub use rows::{
    addon_from_positional, addons_from_positional, column_at, integer_of, optional_integer_of,
    optional_text_of, positional_addon, positional_addons, query_for, text_of, Column, MappingMode,
    POSITIONAL_QUERY, TYPED_QUERY, addon_from_typed, addons_from_typed, typed_addon, typed_addons,
};
