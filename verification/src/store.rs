//! What the store is asked to run: a statement text with
//! numbered placeholders and the values bound to them, in order.

use crate::email::emails::UpdatedField;
use vstd::prelude::*;
use vstd::string::StringExecFns;

verus! {

/// Why a statement gave no result.
#[derive(Debug, Clone, Copy, PartialEq, Eq, Structural)]
pub enum StoreError {
    /// A statement that must return a row found none.
    RowNotFound,
    /// The store could not run the statement.
    Failed,
}

/// A value bound to a placeholder.
#[derive(Debug, Clone, PartialEq, Eq)]
pub enum Bind {
    Text(String),
    Uuid(u128),
    OptionalUuid(Option<u128>),
}

/// A statement and the values of its placeholders `$1`, `$2`, ...
#[derive(Debug, Clone, PartialEq, Eq)]
pub struct Query {
    pub sql: String,
    pub binds: Vec<Bind>,
}

/// The text of one decimal digit.
pub open spec fn digit_text(digit: nat) -> Seq<char> {
    if digit == 0 {
        "0"@
    } else if digit == 1 {
        "1"@
    } else if digit == 2 {
        "2"@
    } else if digit == 3 {
        "3"@
    } else if digit == 4 {
        "4"@
    } else if digit == 5 {
        "5"@
    } else if digit == 6 {
        "6"@
    } else if digit == 7 {
        "7"@
    } else if digit == 8 {
        "8"@
    } else {
        "9"@
    }
}

/// A number in decimal, without leading zeros.
pub open spec fn decimal_text(n: nat) -> Seq<char>
    decreases n,
{
    if n < 10 {
        digit_text(n)
    } else {
        decimal_text(n / 10) + digit_text(n % 10)
    }
}

/// The placeholder of the `n`-th bound value.
pub open spec fn placeholder(n: nat) -> Seq<char> {
    "$"@ + decimal_text(n)
}

fn digit_str(digit: u128) -> (text: &'static str)
    requires
        digit < 10,
    ensures
        text@ == digit_text(digit as nat),
{
    if digit == 0 {
        "0"
    } else if digit == 1 {
        "1"
    } else if digit == 2 {
        "2"
    } else if digit == 3 {
        "3"
    } else if digit == 4 {
        "4"
    } else if digit == 5 {
        "5"
    } else if digit == 6 {
        "6"
    } else if digit == 7 {
        "7"
    } else if digit == 8 {
        "8"
    } else {
        "9"
    }
}

/// Appends a number in decimal.
pub fn push_decimal(text: &mut String, n: u128)
    ensures
        final(text)@ == old(text)@ + decimal_text(n as nat),
    decreases n,
{
    if n < 10 {
        text.append(digit_str(n));
    } else {
        push_decimal(text, n / 10);
        text.append(digit_str(n % 10));
        assert(final(text)@ =~= old(text)@ + decimal_text(n as nat));
    }
}

/// How many of the fields carry a value.
pub open spec fn present_count(fields: Seq<(&'static str, Option<String>)>) -> nat
    decreases fields.len(),
{
    if fields.len() == 0 {
        0
    } else {
        present_count(fields.drop_last()) + (if fields.last().1 is Some {
            1nat
        } else {
            0nat
        })
    }
}

/// The assignments of an update, one per field that carries a value, in the
/// order of the fields, separated by commas, each bound to the next
/// placeholder.
pub open spec fn set_clause(fields: Seq<(&'static str, Option<String>)>) -> Seq<char>
    decreases fields.len(),
{
    if fields.len() == 0 {
        Seq::<char>::empty()
    } else {
        let before = fields.drop_last();
        if fields.last().1 is Some {
            set_clause(before) + (if present_count(before) == 0 {
                Seq::<char>::empty()
            } else {
                ", "@
            }) + fields.last().0@ + " = "@ + placeholder(present_count(fields))
        } else {
            set_clause(before)
        }
    }
}

/// The values of the fields that carry one, in the order of the fields.
pub open spec fn present_values(fields: Seq<(&'static str, Option<String>)>) -> Seq<Bind>
    decreases fields.len(),
{
    if fields.len() == 0 {
        Seq::<Bind>::empty()
    } else if fields.last().1 is Some {
        present_values(fields.drop_last()).push(Bind::Text(fields.last().1->0))
    } else {
        present_values(fields.drop_last())
    }
}

/// The fields that carry a value, each with that value, in the order of the
/// fields.
pub open spec fn changed_fields(fields: Seq<(&'static str, Option<String>)>) -> Seq<UpdatedField>
    decreases fields.len(),
{
    if fields.len() == 0 {
        Seq::<UpdatedField>::empty()
    } else if fields.last().1 is Some {
        changed_fields(fields.drop_last()).push(
            UpdatedField { label: fields.last().0, value: fields.last().1->0 },
        )
    } else {
        changed_fields(fields.drop_last())
    }
}

/// The text of the update statement that `head` opens: the assignments, then
/// the row's id as the last placeholder, then the request for the row.
pub open spec fn update_sql(head: Seq<char>, fields: Seq<(&'static str, Option<String>)>) -> Seq<
    char,
> {
    head + set_clause(fields) + " WHERE id = "@ + placeholder(present_count(fields) + 1)
        + " RETURNING *"@
}

/// Builds the statement that writes the fields that carry a value, and no
/// others, to the row with the given id, together with the list of what it
/// changes. With no field to write there is no statement.
pub fn update_statement(head: &str, fields: Vec<(&'static str, Option<String>)>, id: Bind) -> (plan:
    Option<(Query, Vec<UpdatedField>)>)
    ensures
        plan is None <==> present_count(fields@) == 0,
        plan matches Some((query, changed)) ==> {
            &&& query.sql@ == update_sql(head@, fields@)
            &&& query.binds@ == present_values(fields@).push(id)
            &&& query.binds@.len() == present_count(fields@) + 1
            &&& changed@ == changed_fields(fields@)
            &&& changed@.len() == present_count(fields@)
        },
{
    let mut sql: String = String::from_str(head);
    let mut binds: Vec<Bind> = Vec::new();
    let mut changed: Vec<UpdatedField> = Vec::new();
    let mut first: bool = true;
    let mut i: usize = 0;
    assert(fields@.take(0) =~= Seq::empty());
    while i < fields.len()
        invariant
            i <= fields.len(),
            sql@ == head@ + set_clause(fields@.take(i as int)),
            binds@ == present_values(fields@.take(i as int)),
            changed@ == changed_fields(fields@.take(i as int)),
            binds@.len() == present_count(fields@.take(i as int)),
            changed@.len() == present_count(fields@.take(i as int)),
            binds@.len() <= i,
            first == (present_count(fields@.take(i as int)) == 0),
        decreases fields.len() - i,
    {
        proof {
            assert(fields@.take(i + 1).drop_last() =~= fields@.take(i as int));
            assert(fields@.take(i + 1).last() == fields@[i as int]);
        }
        let label: &'static str = fields[i].0;
        match &fields[i].1 {
            Some(value) => {
                if !first {
                    sql.append(", ");
                }
                sql.append(label);
                sql.append(" = ");
                sql.append("$");
                push_decimal(&mut sql, binds.len() as u128 + 1);
                binds.push(Bind::Text(value.clone()));
                changed.push(UpdatedField { label, value: value.clone() });
                first = false;
                assert(sql@ =~= head@ + set_clause(fields@.take(i + 1)));
            },
            None => {},
        }
        i = i + 1;
    }
    assert(fields@.take(fields.len() as int) =~= fields@);
    if first {
        None
    } else {
        sql.append(" WHERE id = ");
        sql.append("$");
        push_decimal(&mut sql, binds.len() as u128 + 1);
        sql.append(" RETURNING *");
        binds.push(id);
        assert(sql@ =~= update_sql(head@, fields@));
        Some((Query { sql, binds }, changed))
    }
}

} // verus!
