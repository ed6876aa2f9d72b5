//! What the word endpoints ask of the store, and what its answers mean.

use crate::email::emails::UpdatedField;
use crate::store::{
    changed_fields, present_count, present_values, update_sql, update_statement, Bind, Query,
    StoreError,
};
use crate::words::constants::WordsMessage;
use crate::words::dto::{WordsCreateDto, WordsDeleteDto, WordsUpdateDto};
use crate::words::types::Word;
use vstd::prelude::*;

verus! {

pub const SELECT_WORDS: &'static str = "SELECT * FROM words";

pub const INSERT_WORD: &'static str =
    "INSERT INTO words (category, literal, user_id, language, translated) VALUES ($1, $2, $3, $4, $5) RETURNING *";

pub const UPDATE_WORD: &'static str = "UPDATE words SET ";

/// Deletes a word by id, but only for the user who owns it.
pub const DELETE_WORD: &'static str = "DELETE FROM words WHERE id = $1::uuid AND user_id = $2::uuid";

pub struct WordsService;

impl WordsService {
    /// The statement that fetches every word.
    pub fn get_all_query() -> (query: Query)
        ensures
            query.sql@ == SELECT_WORDS@,
            query.binds@.len() == 0,
    {
        Query { sql: SELECT_WORDS.to_string(), binds: Vec::new() }
    }

    /// The words, or `WordGetFailed` where the store could not fetch them.
    pub fn get_all(rows: Result<Vec<Word>, StoreError>) -> (found: Result<Vec<Word>, WordsMessage>)
        ensures
            found == (match rows {
                Ok(words) => Ok::<Vec<Word>, WordsMessage>(words),
                Err(_) => Err(WordsMessage::WordGetFailed),
            }),
    {
        match rows {
            Ok(words) => Ok(words),
            Err(_) => Err(WordsMessage::WordGetFailed),
        }
    }

    /// The statement that inserts a word, its translation filled in.
    pub fn create_query(credentials: &WordsCreateDto) -> (query: Query)
        requires
            credentials.is_valid(),
        ensures
            query.sql@ == INSERT_WORD@,
            query.binds@ == seq![
                Bind::Text(credentials.category),
                Bind::Text(credentials.literal),
                Bind::Uuid(credentials.user_id),
                Bind::Text(credentials.language),
                Bind::Text(credentials.translated),
            ],
    {
        Query {
            sql: INSERT_WORD.to_string(),
            binds: vec![
                Bind::Text(credentials.category.clone()),
                Bind::Text(credentials.literal.clone()),
                Bind::Uuid(credentials.user_id),
                Bind::Text(credentials.language.clone()),
                Bind::Text(credentials.translated.clone()),
            ],
        }
    }

    /// The created word, or `WordCreateFailed` where the store gave none.
    pub fn create(row: Result<Word, StoreError>) -> (created: Result<Word, WordsMessage>)
        ensures
            created == (match row {
                Ok(word) => Ok::<Word, WordsMessage>(word),
                Err(_) => Err(WordsMessage::WordCreateFailed),
            }),
    {
        match row {
            Ok(word) => Ok(word),
            Err(_) => Err(WordsMessage::WordCreateFailed),
        }
    }

    /// The one column an update can write, with the value the request
    /// supplies for it.
    pub open spec fn update_fields(credentials: WordsUpdateDto) -> Seq<
        (&'static str, Option<String>),
    > {
        seq![("category", credentials.category)]
    }

    /// The query is the update that writes the supplied category, and
    /// `changed` lists what it writes.
    pub open spec fn updates(
        query: Query,
        changed: Vec<UpdatedField>,
        credentials: WordsUpdateDto,
    ) -> bool {
        let fields = Self::update_fields(credentials);
        &&& query.sql@ == update_sql(UPDATE_WORD@, fields)
        &&& query.binds@ == present_values(fields).push(Bind::OptionalUuid(credentials.word_id))
        &&& changed@ == changed_fields(fields)
    }

    /// Builds the update from the category the request supplies: the
    /// statement, and the list of what it changes. `NothingToUpdate` where
    /// the request supplies none.
    pub fn update_query(credentials: WordsUpdateDto) -> (plan: Result<
        (Query, Vec<UpdatedField>),
        WordsMessage,
    >)
        requires
            credentials.is_valid(),
        ensures
            plan is Err <==> credentials.category is None,
            plan matches Err(code) ==> code == WordsMessage::NothingToUpdate,
            plan matches Ok((query, changed)) ==> Self::updates(query, changed, credentials),
    {
        let word_id = credentials.word_id;
        let fields: Vec<(&'static str, Option<String>)> = vec![("category", credentials.category)];
        proof {
            let all = Self::update_fields(credentials);
            assert(fields@ =~= all);
            assert(all.drop_last().len() == 0);
            assert(present_count(all.drop_last()) == 0);
            assert(present_count(all) == present_count(all.drop_last()) + (
            if credentials.category is Some {
                1nat
            } else {
                0nat
            }));
        }
        match update_statement(UPDATE_WORD, fields, Bind::OptionalUuid(word_id)) {
            Some(plan) => Ok(plan),
            None => Err(WordsMessage::NothingToUpdate),
        }
    }

    /// The updated word with the list of what changed, or `WordUpdateFailed`
    /// where the store gave no row.
    pub fn update(row: Result<Word, StoreError>, changed: Vec<UpdatedField>) -> (updated: Result<
        (Word, Vec<UpdatedField>),
        WordsMessage,
    >)
        ensures
            updated == (match row {
                Ok(word) => Ok::<(Word, Vec<UpdatedField>), WordsMessage>((word, changed)),
                Err(_) => Err(WordsMessage::WordUpdateFailed),
            }),
    {
        match row {
            Ok(word) => Ok((word, changed)),
            Err(_) => Err(WordsMessage::WordUpdateFailed),
        }
    }

    /// The statement that deletes a word on behalf of a user: it names both
    /// the word and the user, so it touches the word only if that user owns
    /// it.
    pub fn delete_query(credentials: &WordsDeleteDto) -> (query: Query)
        ensures
            query.sql@ == DELETE_WORD@,
            query.binds@ == seq![Bind::Uuid(credentials.id), Bind::Uuid(credentials.user_id)],
    {
        Query {
            sql: DELETE_WORD.to_string(),
            binds: vec![Bind::Uuid(credentials.id), Bind::Uuid(credentials.user_id)],
        }
    }

    /// What a delete that touched `rows` rows means: `WordNotFound` for
    /// none, `WordDeleteFailed` where the store could not run it.
    pub fn delete(rows: Result<u64, StoreError>) -> (deleted: Result<(), WordsMessage>)
        ensures
            deleted == (match rows {
                Ok(affected) => if affected == 0 {
                    Err::<(), WordsMessage>(WordsMessage::WordNotFound)
                } else {
                    Ok(())
                },
                Err(_) => Err(WordsMessage::WordDeleteFailed),
            }),
    {
        match rows {
            Ok(affected) => if affected == 0 {
                Err(WordsMessage::WordNotFound)
            } else {
                Ok(())
            },
            Err(_) => Err(WordsMessage::WordDeleteFailed),
        }
    }
}

} // verus!
