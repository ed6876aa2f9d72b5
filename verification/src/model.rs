//! The store as the statements of the services are meant to find and leave
//! it, and what the handlers' answers are worth against it.
//!
//! A table is a finite map from the id of a row to the row. Nothing here
//! runs: these are the meanings the statement texts of the services stand
//! for, written down so that what the endpoints promise can be stated and
//! proved.

use crate::auth::constants::AuthMessage;
use crate::auth::dto::SigninDto;
use crate::auth::service::AuthService;
use crate::auth::signin_response;
use crate::common::api_res::{Response, StatusCode};
use crate::common::password::password_matches;
use crate::common::message::Message;
use crate::email::emails::UpdatedField;
use crate::otp_code::types::{has_valid_code, OtpCode};
use crate::store::{changed_fields, StoreError};
use crate::user::constants::UserMessage;
use crate::user::dto::UpdateUserDto;
use crate::user::service::UserService;
use crate::user::types::User;
use crate::user::{user_failure, user_success};
use crate::words::constants::WordsMessage;
use crate::words::types::Word;
use crate::words::{words_failure, words_success};
use vstd::prelude::*;

verus! {

/// A table of users is finite and keeps every row under its own id.
pub open spec fn users_table(users: Map<u128, User>) -> bool {
    &&& users.dom().finite()
    &&& forall|id: u128| users.contains_key(id) ==> (#[trigger] users[id]).id == id
}

/// A table of words is finite and keeps every row under its own id.
pub open spec fn words_table(words: Map<u128, Word>) -> bool {
    &&& words.dom().finite()
    &&& forall|id: u128| words.contains_key(id) ==> (#[trigger] words[id]).id == id
}

/// Whether a user of the table goes by the username.
pub open spec fn has_username(users: Map<u128, User>, username: Seq<char>) -> bool {
    exists|id: u128| users.contains_key(id) && (#[trigger] users[id]).username@ == username
}

/// What the lookup of a sign-in finds: a user who goes by the username, if
/// there is one.
pub open spec fn user_named(users: Map<u128, User>, username: Seq<char>) -> Result<
    User,
    StoreError,
> {
    if has_username(users, username) {
        let id = choose|id: u128|
            users.contains_key(id) && (#[trigger] users[id]).username@ == username;
        Ok(users[id])
    } else {
        Err(StoreError::RowNotFound)
    }
}

/// The user after one column is written. A label that names no writable
/// column writes nothing.
pub open spec fn write_field(user: User, field: UpdatedField) -> User {
    if field.label@ == "username"@ {
        User { username: field.value, ..user }
    } else if field.label@ == "email"@ {
        User { email: field.value, ..user }
    } else if field.label@ == "first_name"@ {
        User { first_name: field.value, ..user }
    } else if field.label@ == "last_name"@ {
        User { last_name: field.value, ..user }
    } else if field.label@ == "password_hash"@ {
        User { password_hash: field.value, ..user }
    } else {
        user
    }
}

/// The user after the listed columns are written, in order.
pub open spec fn write_fields(user: User, fields: Seq<UpdatedField>) -> User
    decreases fields.len(),
{
    if fields.len() == 0 {
        user
    } else {
        write_field(write_fields(user, fields.drop_last()), fields.last())
    }
}

/// What the update of a user does: the row with the id has the listed
/// columns written and is returned; without such a row nothing changes and
/// no row comes back.
pub open spec fn update_user(users: Map<u128, User>, id: u128, fields: Seq<UpdatedField>) -> (
    Map<u128, User>,
    Result<User, StoreError>,
) {
    if users.contains_key(id) {
        let updated = write_fields(users[id], fields);
        (users.insert(id, updated), Ok(updated))
    } else {
        (users, Err(StoreError::RowNotFound))
    }
}

/// What the delete of a user does: the row with the id leaves the table,
/// and the number of rows that left is reported.
pub open spec fn delete_user(users: Map<u128, User>, id: u128) -> (Map<u128, User>, u64) {
    if users.contains_key(id) {
        (users.remove(id), 1)
    } else {
        (users, 0)
    }
}

/// What the delete of a word does: the row with the id leaves the table if
/// it belongs to the owner named, and the number of rows that left is
/// reported.
pub open spec fn delete_word(words: Map<u128, Word>, id: u128, owner: u128) -> (
    Map<u128, Word>,
    u64,
) {
    if words.contains_key(id) && words[id].user_id == owner {
        (words.remove(id), 1)
    } else {
        (words, 0)
    }
}

/// What the guarded lookup of a reset finds at `now`: the user with the id,
/// unless a code of theirs is active and still to expire.
pub open spec fn user_for_reset(
    users: Map<u128, User>,
    codes: Seq<OtpCode>,
    id: u128,
    now: i64,
) -> Result<User, StoreError> {
    if users.contains_key(id) && !has_valid_code(codes, id, now) {
        Ok(users[id])
    } else {
        Err(StoreError::RowNotFound)
    }
}

/// The value a column has after an update: the supplied one, or the one it
/// had.
pub open spec fn supplied_or(supplied: Option<String>, before: String) -> String {
    match supplied {
        Some(value) => value,
        None => before,
    }
}

/// Writing one more column is writing the others first and that one last.
pub proof fn lemma_write_fields_push(user: User, fields: Seq<UpdatedField>, field: UpdatedField)
    ensures
        write_fields(user, fields.push(field)) == write_field(write_fields(user, fields), field),
{
    assert(fields.push(field).drop_last() =~= fields);
    assert(fields.push(field).last() == field);
}

/// An update writes the fields the request supplies and no others: every
/// column the request names has the supplied value afterwards (the password
/// column the hash of the supplied password), every other column, the id
/// among them, has the value it had.
pub proof fn update_writes_supplied_fields_only(
    user: User,
    credentials: UpdateUserDto,
    password_hash: Option<String>,
)
    ensures
        ({
            let changed = changed_fields(UserService::update_fields(credentials, password_hash));
            write_fields(user, changed) == User {
                username: supplied_or(credentials.username, user.username),
                email: supplied_or(credentials.email, user.email),
                first_name: supplied_or(credentials.first_name, user.first_name),
                last_name: supplied_or(credentials.last_name, user.last_name),
                password_hash: supplied_or(password_hash, user.password_hash),
                ..user
            }
        }),
{
    reveal_strlit("username");
    reveal_strlit("email");
    reveal_strlit("first_name");
    reveal_strlit("last_name");
    reveal_strlit("password_hash");
    assert("username"@.len() == 8 && "email"@.len() == 5 && "first_name"@.len() == 10
        && "last_name"@.len() == 9 && "password_hash"@.len() == 13);
    let f5 = UserService::update_fields(credentials, password_hash);
    let f4 = f5.drop_last();
    let f3 = f4.drop_last();
    let f2 = f3.drop_last();
    let f1 = f2.drop_last();
    let f0 = f1.drop_last();
    assert(f0.len() == 0);
    let c0 = changed_fields(f0);
    let c1 = changed_fields(f1);
    let c2 = changed_fields(f2);
    let c3 = changed_fields(f3);
    let c4 = changed_fields(f4);
    let c5 = changed_fields(f5);
    assert(c0 =~= Seq::<UpdatedField>::empty());
    let u0 = write_fields(user, c0);
    assert(u0 == user);
    let u1 = write_fields(user, c1);
    assert(u1 == User { username: supplied_or(credentials.username, user.username), ..user }) by {
        if credentials.username is Some {
            let field = UpdatedField { label: "username", value: credentials.username->0 };
            assert(f1.last() == ("username", credentials.username));
            assert(c1 == c0.push(field));
            lemma_write_fields_push(user, c0, field);
        } else {
            assert(c1 == c0);
        }
    }
    let u2 = write_fields(user, c2);
    assert(u2 == User { email: supplied_or(credentials.email, user.email), ..u1 }) by {
        if credentials.email is Some {
            let field = UpdatedField { label: "email", value: credentials.email->0 };
            assert(f2.last() == ("email", credentials.email));
            assert(c2 == c1.push(field));
            lemma_write_fields_push(user, c1, field);
        } else {
            assert(c2 == c1);
        }
    }
    let u3 = write_fields(user, c3);
    assert(u3 == User { first_name: supplied_or(credentials.first_name, user.first_name), ..u2 })
        by {
        if credentials.first_name is Some {
            let field = UpdatedField { label: "first_name", value: credentials.first_name->0 };
            assert(f3.last() == ("first_name", credentials.first_name));
            assert(c3 == c2.push(field));
            lemma_write_fields_push(user, c2, field);
        } else {
            assert(c3 == c2);
        }
    }
    let u4 = write_fields(user, c4);
    assert(u4 == User { last_name: supplied_or(credentials.last_name, user.last_name), ..u3 }) by {
        if credentials.last_name is Some {
            let field = UpdatedField { label: "last_name", value: credentials.last_name->0 };
            assert(f4.last() == ("last_name", credentials.last_name));
            assert(c4 == c3.push(field));
            lemma_write_fields_push(user, c3, field);
        } else {
            assert(c4 == c3);
        }
    }
    let u5 = write_fields(user, c5);
    assert(u5 == User { password_hash: supplied_or(password_hash, user.password_hash), ..u4 }) by {
        if password_hash is Some {
            let field = UpdatedField { label: "password_hash", value: password_hash->0 };
            assert(f5.last() == ("password_hash", password_hash));
            assert(c5 == c4.push(field));
            lemma_write_fields_push(user, c4, field);
        } else {
            assert(c5 == c4);
        }
    }
}

/// A sign-in with a username nobody in the table goes by is answered with
/// 401 and `AuthUserNotFound`. With a username somebody goes by, the lookup
/// finds a user of that name: the answer is 200 with that user and
/// `AuthSigninSuccess` where the password is accepted against their hash,
/// and 401 with `AuthPasswordInvalid` where it is not.
pub proof fn signin_against_the_table(users: Map<u128, User>, credentials: SigninDto)
    ensures
        ({
            let row = user_named(users, credentials.username@);
            let response = signin_response(
                AuthService::outcome(row, AuthService::answer_for(row, credentials.password@)),
            );
            &&& !has_username(users, credentials.username@) ==> response == Response::<
                User,
                Message,
            >::error(StatusCode::Unauthorized, Message::Auth(AuthMessage::AuthUserNotFound))
            &&& has_username(users, credentials.username@) ==> {
                &&& row is Ok
                &&& (row->Ok_0).username@ == credentials.username@
                &&& password_matches(credentials.password@, (row->Ok_0).password_hash@) == Some(
                    true,
                ) ==> response == Response::success(
                    StatusCode::Success,
                    row->Ok_0,
                    Message::Auth(AuthMessage::AuthSigninSuccess),
                )
                &&& password_matches(credentials.password@, (row->Ok_0).password_hash@) != Some(
                    true,
                ) ==> response == Response::<User, Message>::error(
                    StatusCode::Unauthorized,
                    Message::Auth(AuthMessage::AuthPasswordInvalid),
                )
            }
        }),
{
}

/// Deleting a user the table holds takes that row out and no other, and is
/// answered with `UserDeleteSuccess`. Deleting one it does not hold leaves
/// the table as it was and is answered with `UserNotFound`.
pub proof fn delete_user_removes_one_row_or_reports_none(users: Map<u128, User>, id: u128)
    requires
        users_table(users),
    ensures
        ({
            let (after, rows) = delete_user(users, id);
            &&& users_table(after)
            &&& !after.contains_key(id)
            &&& forall|other: u128|
                other != id ==> after.contains_key(other) == users.contains_key(other) && (
                after.contains_key(other) ==> #[trigger] after[other] == users[other])
            &&& users.contains_key(id) ==> {
                &&& rows == 1
                &&& after.len() + 1 == users.len()
                &&& crate::user::delete_response(Ok(rows)) == user_success(
                    (),
                    UserMessage::UserDeleteSuccess,
                )
            }
            &&& !users.contains_key(id) ==> {
                &&& rows == 0
                &&& after == users
                &&& crate::user::delete_response(Ok(rows)) == user_failure::<()>(
                    UserMessage::UserNotFound,
                )
            }
        }),
{
}

/// Deleting a word the table holds for the owner named takes that row out
/// and no other, and is answered with `WordDeleteSuccess`. Deleting one it
/// does not hold leaves the table as it was and is answered with
/// `WordNotFound`.
pub proof fn delete_word_removes_one_row_or_reports_none(
    words: Map<u128, Word>,
    id: u128,
    owner: u128,
)
    requires
        words_table(words),
    ensures
        ({
            let (after, rows) = delete_word(words, id, owner);
            &&& words_table(after)
            &&& forall|other: u128|
                other != id ==> after.contains_key(other) == words.contains_key(other) && (
                after.contains_key(other) ==> #[trigger] after[other] == words[other])
            &&& words.contains_key(id) && words[id].user_id == owner ==> {
                &&& rows == 1
                &&& !after.contains_key(id)
                &&& after.len() + 1 == words.len()
                &&& crate::words::delete_response(Ok(rows)) == words_success(
                    (),
                    WordsMessage::WordDeleteSuccess,
                )
            }
            &&& !words.contains_key(id) ==> {
                &&& rows == 0
                &&& after == words
                &&& crate::words::delete_response(Ok(rows)) == words_failure::<()>(
                    WordsMessage::WordNotFound,
                )
            }
        }),
{
}

/// A word is deleted only for its owner: asked for by anyone else, the
/// delete touches no row, the word stays in the table as it was, and the
/// answer is 400 with `WordNotFound`, as if there were no such word.
pub proof fn delete_word_of_another_owner_touches_nothing(
    words: Map<u128, Word>,
    id: u128,
    owner: u128,
)
    requires
        words_table(words),
        words.contains_key(id),
        words[id].user_id != owner,
    ensures
        ({
            let (after, rows) = delete_word(words, id, owner);
            &&& rows == 0
            &&& after == words
            &&& after.contains_key(id)
            &&& crate::words::delete_response(Ok(rows)) == words_failure::<()>(
                WordsMessage::WordNotFound,
            )
            &&& crate::words::delete_response(Ok(rows)).status.code() == 400
        }),
{
}

/// While a code of the user is active and yet to expire, the guarded lookup
/// finds no user and the reset is refused with `UserGetFailed`, so that no
/// second code is issued.
pub proof fn reset_is_refused_while_a_code_is_valid(
    users: Map<u128, User>,
    codes: Seq<OtpCode>,
    id: u128,
    now: i64,
)
    requires
        has_valid_code(codes, id, now),
    ensures
        user_for_reset(users, codes, id, now) is Err,
        crate::user::reset_lookup(user_for_reset(users, codes, id, now)) == Err::<
            User,
            Response<User, Message>,
        >(user_failure::<User>(UserMessage::UserGetFailed)),
{
}

/// Once every code of the user has expired or is inactive, the guarded
/// lookup finds the user again and the reset goes on to issue a code. In
/// particular it does so from the moment the latest of the codes expires.
pub proof fn reset_goes_on_once_codes_expired(
    users: Map<u128, User>,
    codes: Seq<OtpCode>,
    id: u128,
    now: i64,
)
    requires
        users.contains_key(id),
        forall|i: int|
            0 <= i < codes.len() && (#[trigger] codes[i]).user_id == id ==> !codes[i].is_active
                || codes[i].expires_at <= now,
    ensures
        !has_valid_code(codes, id, now),
        user_for_reset(users, codes, id, now) == Ok::<User, StoreError>(users[id]),
        crate::user::reset_lookup(user_for_reset(users, codes, id, now)) == Ok::<
            User,
            Response<User, Message>,
        >(users[id]),
{
}

/// An update of a row the table does not hold changes nothing and returns
/// no row.
pub proof fn update_of_a_missing_row_changes_nothing(
    users: Map<u128, User>,
    id: u128,
    fields: Seq<UpdatedField>,
)
    requires
        !users.contains_key(id),
    ensures
        update_user(users, id, fields) == (users, Err::<User, StoreError>(StoreError::RowNotFound)),
{
}

/// An update leaves every other row as it was, and the row it writes under
/// the id it had.
pub proof fn update_keeps_other_rows(
    users: Map<u128, User>,
    credentials: UpdateUserDto,
    password_hash: Option<String>,
)
    requires
        users_table(users),
        users.contains_key(credentials.user_id),
    ensures
        ({
            let changed = changed_fields(UserService::update_fields(credentials, password_hash));
            let (after, row) = update_user(users, credentials.user_id, changed);
            &&& users_table(after)
            &&& row is Ok
            &&& after[credentials.user_id] == row->Ok_0
            &&& (row->Ok_0).id == credentials.user_id
            &&& forall|other: u128|
                other != credentials.user_id ==> after.contains_key(other) == users.contains_key(
                    other,
                ) && (after.contains_key(other) ==> #[trigger] after[other] == users[other])
        }),
{
    update_writes_supplied_fields_only(users[credentials.user_id], credentials, password_hash);
}

} // verus!
