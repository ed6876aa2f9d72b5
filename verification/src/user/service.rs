//! What the user endpoints ask of the store, and what its answers mean.

use crate::common::password::{hash_password, password_matches};
use crate::email::emails::UpdatedField;
use crate::store::{
    changed_fields, present_count, present_values, update_sql, update_statement, Bind, Query,
    StoreError,
};
use crate::user::constants::UserMessage;
use crate::user::dto::{CreateUserDto, DeleteUserDto, ResetPasswordDto, UpdateUserDto};
use crate::user::types::User;
use vstd::prelude::*;

verus! {

/// Selects a user by id, unless an active code of theirs has yet to expire.
pub const SELECT_USER_FOR_RESET: &'static str =
    "SELECT * FROM users u WHERE u.id = $1::uuid AND NOT EXISTS (SELECT 1 FROM otp_codes oc WHERE oc.user_id = u.id AND oc.expires_at > NOW() AND oc.is_active = true)";

pub const INSERT_USER: &'static str =
    "INSERT INTO users (username, email, first_name, last_name, password_hash) VALUES ($1, $2, $3, $4, $5) RETURNING *";

pub const UPDATE_USER: &'static str = "UPDATE users SET ";

pub const DELETE_USER: &'static str = "DELETE FROM users WHERE id = $1::uuid";

pub const SELECT_USER: &'static str = "SELECT * FROM users WHERE users.id = $1::uuid";

pub struct UserService;

impl UserService {
    /// The statement that fetches the user a reset is asked for.
    pub fn get_query(credentials: &ResetPasswordDto) -> (query: Query)
        ensures
            query.sql@ == SELECT_USER_FOR_RESET@,
            query.binds@ == seq![Bind::Text(credentials.user_id)],
    {
        Query {
            sql: SELECT_USER_FOR_RESET.to_string(),
            binds: vec![Bind::Text(credentials.user_id.clone())],
        }
    }

    /// The user a reset is asked for, or `UserGetFailed` where the store
    /// gave none.
    pub fn get(row: Result<User, StoreError>) -> (found: Result<User, UserMessage>)
        ensures
            found == (match row {
                Ok(user) => Ok::<User, UserMessage>(user),
                Err(_) => Err(UserMessage::UserGetFailed),
            }),
    {
        match row {
            Ok(user) => Ok(user),
            Err(_) => Err(UserMessage::UserGetFailed),
        }
    }

    /// The values a new user is inserted with.
    pub open spec fn insert_of(credentials: CreateUserDto, password_hash: String) -> Seq<Bind> {
        seq![
            Bind::Text(credentials.username),
            Bind::Text(credentials.email),
            Bind::Text(credentials.first_name),
            Bind::Text(credentials.last_name),
            Bind::Text(password_hash),
        ]
    }

    /// The query is the insert of a new user with the given password hash.
    pub open spec fn inserts(query: Query, credentials: CreateUserDto, password_hash: String) -> bool {
        &&& query.sql@ == INSERT_USER@
        &&& query.binds@ == Self::insert_of(credentials, password_hash)
    }

    /// The statement that inserts a new user, the password already hashed.
    pub fn insert_statement(credentials: &CreateUserDto, password_hash: String) -> (query: Query)
        ensures
            Self::inserts(query, *credentials, password_hash),
    {
        Query {
            sql: INSERT_USER.to_string(),
            binds: vec![
                Bind::Text(credentials.username.clone()),
                Bind::Text(credentials.email.clone()),
                Bind::Text(credentials.first_name.clone()),
                Bind::Text(credentials.last_name.clone()),
                Bind::Text(password_hash),
            ],
        }
    }

    /// Hashes the password and builds the insert. `UserCreateFailed` where
    /// the hasher fails; the hash that is stored is one the password is
    /// accepted against.
    pub fn create_query(credentials: &CreateUserDto) -> (planned: Result<Query, UserMessage>)
        requires
            credentials.is_valid(),
        ensures
            planned is Ok ==> exists|hash: String|
                {
                    &&& #[trigger] Self::inserts(planned->Ok_0, *credentials, hash)
                    &&& password_matches(credentials.password@, hash@) == Some(true)
                },
            planned matches Err(code) ==> code == UserMessage::UserCreateFailed,
    {
        let hashed = hash_password(credentials.password.as_str());
        let ghost stored = hashed;
        let planned = match hashed {
            Some(hash) => Ok(Self::insert_statement(credentials, hash)),
            None => Err(UserMessage::UserCreateFailed),
        };
        proof {
            if planned is Ok {
                assert(Self::inserts(planned->Ok_0, *credentials, stored->0));
            }
        }
        planned
    }

    /// The created user, or `UserCreateFailed` where the store gave none.
    pub fn create(row: Result<User, StoreError>) -> (created: Result<User, UserMessage>)
        ensures
            created == (match row {
                Ok(user) => Ok::<User, UserMessage>(user),
                Err(_) => Err(UserMessage::UserCreateFailed),
            }),
    {
        match row {
            Ok(user) => Ok(user),
            Err(_) => Err(UserMessage::UserCreateFailed),
        }
    }

    /// The columns an update can write, in the order they are written, each
    /// with the value the request supplies for it.
    pub open spec fn update_fields(credentials: UpdateUserDto, password_hash: Option<String>) -> Seq<
        (&'static str, Option<String>),
    > {
        seq![
            ("username", credentials.username),
            ("email", credentials.email),
            ("first_name", credentials.first_name),
            ("last_name", credentials.last_name),
            ("password_hash", password_hash),
        ]
    }

    /// The query is the update that writes the supplied fields, the password
    /// as the given hash, and `changed` lists what it writes.
    pub open spec fn updates(
        query: Query,
        changed: Vec<UpdatedField>,
        credentials: UpdateUserDto,
        password_hash: Option<String>,
    ) -> bool {
        let fields = Self::update_fields(credentials, password_hash);
        &&& query.sql@ == update_sql(UPDATE_USER@, fields)
        &&& query.binds@ == present_values(fields).push(Bind::Uuid(credentials.user_id))
        &&& changed@ == changed_fields(fields)
    }

    /// The hash stands for the password: there is one exactly where there is
    /// a password, and the password is accepted against it.
    pub open spec fn hash_of(password: Option<String>, hash: Option<String>) -> bool {
        match password {
            Some(password) => hash matches Some(hash) && password_matches(password@, hash@) == Some(
                true,
            ),
            None => hash is None,
        }
    }

    /// An update with no field to write is refused; no other is.
    pub proof fn lemma_update_fields_present(
        credentials: UpdateUserDto,
        password_hash: Option<String>,
    )
        ensures
            present_count(Self::update_fields(credentials, password_hash)) == 0 <==> {
                &&& credentials.username is None
                &&& credentials.email is None
                &&& credentials.first_name is None
                &&& credentials.last_name is None
                &&& password_hash is None
            },
    {
        let f5 = Self::update_fields(credentials, password_hash);
        let f4 = f5.drop_last();
        let f3 = f4.drop_last();
        let f2 = f3.drop_last();
        let f1 = f2.drop_last();
        let f0 = f1.drop_last();
        assert(f0.len() == 0);
        assert(present_count(f0) == 0);
        assert(present_count(f1) == present_count(f0) + (if credentials.username is Some {
            1nat
        } else {
            0nat
        }));
        assert(present_count(f2) == present_count(f1) + (if credentials.email is Some {
            1nat
        } else {
            0nat
        }));
        assert(present_count(f3) == present_count(f2) + (if credentials.first_name is Some {
            1nat
        } else {
            0nat
        }));
        assert(present_count(f4) == present_count(f3) + (if credentials.last_name is Some {
            1nat
        } else {
            0nat
        }));
        assert(present_count(f5) == present_count(f4) + (if password_hash is Some {
            1nat
        } else {
            0nat
        }));
    }

    /// Builds the update from the fields the request supplies, the password
    /// already hashed: the statement, and the list of what it changes.
    /// `NothingToUpdate` where the request supplies no field.
    pub fn update_plan(credentials: UpdateUserDto, password_hash: Option<String>) -> (plan: Result<
        (Query, Vec<UpdatedField>),
        UserMessage,
    >)
        ensures
            plan is Err <==> present_count(Self::update_fields(credentials, password_hash)) == 0,
            plan matches Err(code) ==> code == UserMessage::NothingToUpdate,
            plan matches Ok((query, changed)) ==> Self::updates(
                query,
                changed,
                credentials,
                password_hash,
            ),
    {
        let user_id = credentials.user_id;
        let fields: Vec<(&'static str, Option<String>)> = vec![
            ("username", credentials.username),
            ("email", credentials.email),
            ("first_name", credentials.first_name),
            ("last_name", credentials.last_name),
            ("password_hash", password_hash),
        ];
        assert(fields@ =~= Self::update_fields(credentials, password_hash));
        match update_statement(UPDATE_USER, fields, Bind::Uuid(user_id)) {
            Some(plan) => Ok(plan),
            None => Err(UserMessage::NothingToUpdate),
        }
    }

    /// Hashes the new password if there is one and builds the update.
    /// `NothingToUpdate` where the request supplies no field,
    /// `UserUpdateFailed` where the hasher fails.
    pub fn update_query(credentials: UpdateUserDto) -> (plan: Result<
        (Query, Vec<UpdatedField>),
        UserMessage,
    >)
        requires
            credentials.is_valid(),
        ensures
            credentials.is_empty() ==> plan == Err::<(Query, Vec<UpdatedField>), UserMessage>(
                UserMessage::NothingToUpdate,
            ),
            !credentials.is_empty() && plan is Ok ==> exists|hash: Option<String>|
                {
                    &&& #[trigger] Self::updates(plan->Ok_0.0, plan->Ok_0.1, credentials, hash)
                    &&& Self::hash_of(credentials.password, hash)
                },
            !credentials.is_empty() && plan is Err ==> {
                &&& plan->Err_0 == UserMessage::UserUpdateFailed
                &&& credentials.password is Some
            },
    {
        let hashed: Option<String> = match &credentials.password {
            Some(password) => match hash_password(password.as_str()) {
                Some(hash) => Some(hash),
                None => {
                    return Err(UserMessage::UserUpdateFailed);
                },
            },
            None => None,
        };
        proof {
            Self::lemma_update_fields_present(credentials, hashed);
        }
        let ghost stored = hashed;
        let plan = Self::update_plan(credentials, hashed);
        proof {
            if plan is Ok {
                assert(Self::updates(plan->Ok_0.0, plan->Ok_0.1, credentials, stored)
                    && Self::hash_of(credentials.password, stored));
            }
        }
        plan
    }

    /// The updated user with the list of what changed, or `UserUpdateFailed`
    /// where the store gave no row.
    pub fn update(row: Result<User, StoreError>, changed: Vec<UpdatedField>) -> (updated: Result<
        (User, Vec<UpdatedField>),
        UserMessage,
    >)
        ensures
            updated == (match row {
                Ok(user) => Ok::<(User, Vec<UpdatedField>), UserMessage>((user, changed)),
                Err(_) => Err(UserMessage::UserUpdateFailed),
            }),
    {
        match row {
            Ok(user) => Ok((user, changed)),
            Err(_) => Err(UserMessage::UserUpdateFailed),
        }
    }

    /// The statement that deletes the user with the given id.
    pub fn delete_query(credentials: &DeleteUserDto) -> (query: Query)
        ensures
            query.sql@ == DELETE_USER@,
            query.binds@ == seq![Bind::Uuid(credentials.user_id)],
    {
        Query { sql: DELETE_USER.to_string(), binds: vec![Bind::Uuid(credentials.user_id)] }
    }

    /// What a delete that touched `rows` rows means: `UserNotFound` for
    /// none, `UserDeleteFailed` where the store could not run it.
    pub fn delete(rows: Result<u64, StoreError>) -> (deleted: Result<(), UserMessage>)
        ensures
            deleted == (match rows {
                Ok(affected) => if affected == 0 {
                    Err::<(), UserMessage>(UserMessage::UserNotFound)
                } else {
                    Ok(())
                },
                Err(_) => Err(UserMessage::UserDeleteFailed),
            }),
    {
        match rows {
            Ok(affected) => if affected == 0 {
                Err(UserMessage::UserNotFound)
            } else {
                Ok(())
            },
            Err(_) => Err(UserMessage::UserDeleteFailed),
        }
    }

    /// The statement that fetches the user a session names.
    pub fn me_query(user_id: String) -> (query: Query)
        ensures
            query.sql@ == SELECT_USER@,
            query.binds@ == seq![Bind::Text(user_id)],
    {
        Query { sql: SELECT_USER.to_string(), binds: vec![Bind::Text(user_id)] }
    }

    /// The signed-in user, or `UserGetProfileFailed` where the store gave
    /// none.
    pub fn me(row: Result<User, StoreError>) -> (found: Result<User, UserMessage>)
        ensures
            found == (match row {
                Ok(user) => Ok::<User, UserMessage>(user),
                Err(_) => Err(UserMessage::UserGetProfileFailed),
            }),
    {
        match row {
            Ok(user) => Ok(user),
            Err(_) => Err(UserMessage::UserGetProfileFailed),
        }
    }
}

} // verus!
