//! The word resource: what each endpoint does before, between and after its
//! calls to the translation service and the store.

use crate::common::api_res::{api_error, api_success, Response, StatusCode};
use crate::common::message::{coherent, reject, rejection, Message};
use crate::email::emails::UpdatedField;
use crate::store::{Bind, Query, StoreError};
use crate::words::constants::WordsMessage;
use crate::words::dto::{WordsCreateDto, WordsDeleteDto, WordsUpdateDto};
use crate::words::libs::{
    json_document, percent_encoded, texts, translate_text, translate_url, translation_of, url_for,
    FetchFailure,
};
use crate::words::service::{WordsService, DELETE_WORD, INSERT_WORD, SELECT_WORDS};
use crate::words::types::Word;
use vstd::prelude::*;

pub mod constants;
pub mod dto;
pub mod libs;
pub mod service;
pub mod types;

verus! {

/// The 400 response a word endpoint fails with.
pub open spec fn words_failure<T>(code: WordsMessage) -> Response<T, Message> {
    Response::error(StatusCode::BadRequest, Message::Words(code))
}

/// The 200 response a word endpoint succeeds with.
pub open spec fn words_success<T>(data: T, code: WordsMessage) -> Response<T, Message> {
    Response::success(StatusCode::Success, data, Message::Words(code))
}

/// Opens the listing: the store is asked for every word, whoever owns it.
pub fn word_get() -> (query: Query)
    ensures
        query.sql@ == SELECT_WORDS@,
        query.binds@.len() == 0,
{
    WordsService::get_all_query()
}

/// Closes the listing with what the store found: the words with
/// `WordGetSuccess`, or `WordGetFailed`.
pub fn word_get_found(rows: Result<Vec<Word>, StoreError>) -> (response: Response<
    Vec<Word>,
    Message,
>)
    ensures
        response == (match rows {
            Ok(words) => words_success(words, WordsMessage::WordGetSuccess),
            Err(_) => words_failure::<Vec<Word>>(WordsMessage::WordGetFailed),
        }),
        coherent(response),
{
    match WordsService::get_all(rows) {
        Ok(words) => api_success(
            StatusCode::Success,
            words,
            Message::Words(WordsMessage::WordGetSuccess),
        ),
        Err(code) => api_error(StatusCode::BadRequest, Message::Words(code)),
    }
}

/// Opens the creation of a word: a body that fails its rules is answered at
/// once; for any other the address is handed out at which the translation
/// of the literal into the body's language is asked for.
pub fn word_create(credentials: &WordsCreateDto) -> (step: Result<String, Response<Word, Message>>)
    ensures
        match step {
            Ok(url) => {
                &&& credentials.is_valid()
                &&& url@ == url_for(
                    percent_encoded(credentials.literal@),
                    credentials.language@,
                    None,
                )
            },
            Err(response) => {
                &&& !credentials.is_valid()
                &&& response == rejection::<Word>(credentials.violations())
            },
        },
{
    match credentials.validate() {
        Ok(()) => Ok(translate_url(credentials.literal.as_str(), credentials.language.as_str(), None)),
        Err(errors) => Err(reject(&errors)),
    }
}

/// What the translation service's answer comes to.
pub open spec fn translation_for(fetched: Result<String, FetchFailure>) -> Result<
    Seq<char>,
    Seq<char>,
> {
    translation_of(
        match fetched {
            Ok(body) => Ok(body@),
            Err(failure) => Err(failure),
        },
        match fetched {
            Ok(body) => json_document(body@),
            Err(_) => None,
        },
    )
}

/// Goes on with what the translation service answered. Without a
/// translation the answer is `WordCreateFailed` and nothing is inserted.
/// With one, the store is asked to insert the word with it; what the client
/// sent as translation is never used. A body that fails its rules is
/// answered as at the opening.
pub fn word_create_translated(credentials: WordsCreateDto, fetched: Result<String, FetchFailure>) -> (step:
    Result<Query, Response<Word, Message>>)
    ensures
        !credentials.is_valid() ==> step == Err::<Query, Response<Word, Message>>(
            rejection::<Word>(credentials.violations()),
        ),
        credentials.is_valid() ==> match translation_for(fetched) {
            Ok(translated) => {
                &&& step matches Ok(query)
                &&& query.sql@ == INSERT_WORD@
                &&& query.binds@.len() == 5
                &&& query.binds@[0] == Bind::Text(credentials.category)
                &&& query.binds@[1] == Bind::Text(credentials.literal)
                &&& query.binds@[2] == Bind::Uuid(credentials.user_id)
                &&& query.binds@[3] == Bind::Text(credentials.language)
                &&& query.binds@[4] matches Bind::Text(stored)
                &&& stored@ == translated
            },
            Err(_) => step == Err::<Query, Response<Word, Message>>(
                words_failure::<Word>(WordsMessage::WordCreateFailed),
            ),
        },
{
    match credentials.validate() {
        Err(errors) => Err(reject(&errors)),
        Ok(()) => match translate_text(fetched) {
            Ok(translated) => {
                let mut dto = credentials;
                dto.translated = translated;
                Ok(WordsService::create_query(&dto))
            },
            Err(_) => Err(
                api_error(StatusCode::BadRequest, Message::Words(WordsMessage::WordCreateFailed)),
            ),
        },
    }
}

/// Closes the creation with the row the insert returned: the word, under
/// the code `WordGetSuccess`, or `WordCreateFailed` without a row.
pub fn word_create_stored(row: Result<Word, StoreError>) -> (response: Response<Word, Message>)
    ensures
        response == (match row {
            Ok(word) => words_success(word, WordsMessage::WordGetSuccess),
            Err(_) => words_failure::<Word>(WordsMessage::WordCreateFailed),
        }),
        coherent(response),
{
    match WordsService::create(row) {
        Ok(word) => api_success(
            StatusCode::Success,
            word,
            Message::Words(WordsMessage::WordGetSuccess),
        ),
        Err(code) => api_error(StatusCode::BadRequest, Message::Words(code)),
    }
}

/// Opens an update: a body that fails its rules is answered at once, one
/// that supplies no category with `NothingToUpdate`; for any other the store
/// is asked to write the category.
pub fn word_update(credentials: WordsUpdateDto) -> (step: Result<
    (Query, Vec<UpdatedField>),
    Response<Word, Message>,
>)
    ensures
        !credentials.is_valid() ==> step == Err::<
            (Query, Vec<UpdatedField>),
            Response<Word, Message>,
        >(rejection::<Word>(credentials.violations())),
        credentials.is_valid() && credentials.category is None ==> step == Err::<
            (Query, Vec<UpdatedField>),
            Response<Word, Message>,
        >(words_failure::<Word>(WordsMessage::NothingToUpdate)),
        credentials.is_valid() && credentials.category is Some ==> {
            &&& step matches Ok((query, changed))
            &&& WordsService::updates(query, changed, credentials)
        },
{
    match credentials.validate() {
        Err(errors) => Err(reject(&errors)),
        Ok(()) => match WordsService::update_query(credentials) {
            Ok(plan) => Ok(plan),
            Err(code) => Err(api_error(StatusCode::BadRequest, Message::Words(code))),
        },
    }
}

/// Closes an update with the row it returned: the word with
/// `WordUpdateSuccess`, or `WordUpdateFailed` without a row.
pub fn word_update_stored(row: Result<Word, StoreError>, changed: Vec<UpdatedField>) -> (response:
    Response<Word, Message>)
    ensures
        response == (match row {
            Ok(word) => words_success(word, WordsMessage::WordUpdateSuccess),
            Err(_) => words_failure::<Word>(WordsMessage::WordUpdateFailed),
        }),
        coherent(response),
{
    match WordsService::update(row, changed) {
        Ok((word, _)) => api_success(
            StatusCode::Success,
            word,
            Message::Words(WordsMessage::WordUpdateSuccess),
        ),
        Err(code) => api_error(StatusCode::BadRequest, Message::Words(code)),
    }
}

/// Opens a delete: the store is asked to delete the word, but only if it
/// belongs to the user the body names.
pub fn word_delete(credentials: &WordsDeleteDto) -> (query: Query)
    ensures
        query.sql@ == DELETE_WORD@,
        query.binds@ == seq![Bind::Uuid(credentials.id), Bind::Uuid(credentials.user_id)],
{
    WordsService::delete_query(credentials)
}

/// What a delete is answered with, given how many rows it touched.
pub open spec fn delete_response(rows: Result<u64, StoreError>) -> Response<(), Message> {
    match rows {
        Ok(affected) => if affected == 0 {
            words_failure::<()>(WordsMessage::WordNotFound)
        } else {
            words_success((), WordsMessage::WordDeleteSuccess)
        },
        Err(_) => words_failure::<()>(WordsMessage::WordDeleteFailed),
    }
}

/// Closes a delete with the number of rows it touched: none is
/// `WordNotFound`, a store that could not run it `WordDeleteFailed`.
pub fn word_delete_done(rows: Result<u64, StoreError>) -> (response: Response<(), Message>)
    ensures
        response == delete_response(rows),
        coherent(response),
{
    match WordsService::delete(rows) {
        Ok(()) => api_success(
            StatusCode::Success,
            (),
            Message::Words(WordsMessage::WordDeleteSuccess),
        ),
        Err(code) => api_error(StatusCode::BadRequest, Message::Words(code)),
    }
}

} // verus!
