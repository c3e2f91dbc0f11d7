use vstd::prelude::*;
use vstd::string::StringExecFns;

verus! {

/// A value bound positionally into a statement. Dynamic values are always
/// bound as parameters, never interpolated into the statement text, so no
/// user-supplied text can reach the SQL grammar.
#[derive(Debug, PartialEq)]
pub enum SqlValue {
    Int(i32),
    Text(String),
}

/// A rendered statement: the text with `$n` placeholders, and the values to
/// bind, in placeholder order.
#[derive(Debug)]
pub struct SqlStatement {
    pub text: String,
    pub params: Vec<SqlValue>,
}

/// Text of the insert: appends one row and returns it, so the caller avoids a
/// second round trip.
pub open spec fn insert_user_sql() -> Seq<char> {
    "INSERT INTO users(name, age, email, password) VALUES ($1, $2, $3, $4) RETURNING *"@
}

/// Text of the point lookup by identity.
pub open spec fn select_user_by_id_sql() -> Seq<char> {
    "SELECT u.id, u.name, u.age, u.email, u.password FROM users u WHERE u.id = $1"@
}

/// Text of the point lookup by email.
pub open spec fn select_user_by_email_sql() -> Seq<char> {
    "SELECT u.id, u.name, u.age, u.email, u.password FROM users u WHERE u.email = $1"@
}

/// Text of the unfiltered full scan.
pub open spec fn select_all_users_sql() -> Seq<char> {
    "SELECT u.id, u.name, u.age, u.email, u.password FROM users u"@
}

/// Text of the delete, keyed by exactly one identity.
pub open spec fn delete_user_sql() -> Seq<char> {
    "DELETE FROM users WHERE id = $1"@
}

pub fn insert_user_statement(name: String, age: i32, email: String, password_hash: String) -> (s:
    SqlStatement)
    ensures
        s.text@ == insert_user_sql(),
        s.params@ == seq![
            SqlValue::Text(name),
            SqlValue::Int(age),
            SqlValue::Text(email),
            SqlValue::Text(password_hash),
        ],
{
    let mut params: Vec<SqlValue> = Vec::new();
    params.push(SqlValue::Text(name));
    params.push(SqlValue::Int(age));
    params.push(SqlValue::Text(email));
    params.push(SqlValue::Text(password_hash));
    let s = SqlStatement {
        text: String::from_str(
            "INSERT INTO users(name, age, email, password) VALUES ($1, $2, $3, $4) RETURNING *",
        ),
        params: params,
    };
    proof {
        assert(s.params@ =~= seq![
            SqlValue::Text(name),
            SqlValue::Int(age),
            SqlValue::Text(email),
            SqlValue::Text(password_hash),
        ]);
    }
    s
}

pub fn select_user_by_id_statement(id: i32) -> (s: SqlStatement)
    ensures
        s.text@ == select_user_by_id_sql(),
        s.params@ == seq![SqlValue::Int(id)],
{
    let mut params: Vec<SqlValue> = Vec::new();
    params.push(SqlValue::Int(id));
    let s = SqlStatement {
        text: String::from_str(
            "SELECT u.id, u.name, u.age, u.email, u.password FROM users u WHERE u.id = $1",
        ),
        params: params,
    };
    proof {
        assert(s.params@ =~= seq![SqlValue::Int(id)]);
    }
    s
}

pub fn select_user_by_email_statement(email: String) -> (s: SqlStatement)
    ensures
        s.text@ == select_user_by_email_sql(),
        s.params@ == seq![SqlValue::Text(email)],
{
    let mut params: Vec<SqlValue> = Vec::new();
    params.push(SqlValue::Text(email));
    let s = SqlStatement {
        text: String::from_str(
            "SELECT u.id, u.name, u.age, u.email, u.password FROM users u WHERE u.email = $1",
        ),
        params: params,
    };
    proof {
        assert(s.params@ =~= seq![SqlValue::Text(email)]);
    }
    s
}

pub fn select_all_users_statement() -> (s: SqlStatement)
    ensures
        s.text@ == select_all_users_sql(),
        s.params@ == Seq::<SqlValue>::empty(),
{
    let s = SqlStatement {
        text: String::from_str("SELECT u.id, u.name, u.age, u.email, u.password FROM users u"),
        params: Vec::new(),
    };
    proof {
        assert(s.params@ =~= Seq::<SqlValue>::empty());
    }
    s
}

pub fn delete_user_statement(id: i32) -> (s: SqlStatement)
    ensures
        s.text@ == delete_user_sql(),
        s.params@ == seq![SqlValue::Int(id)],
{
    let mut params: Vec<SqlValue> = Vec::new();
    params.push(SqlValue::Int(id));
    let s = SqlStatement {
        text: String::from_str("DELETE FROM users WHERE id = $1"),
        params: params,
    };
    proof {
        assert(s.params@ =~= seq![SqlValue::Int(id)]);
    }
    s
}

/// The sparse set of columns an update touches, in the fixed field order
/// name, age, password. The password, when present, is already the hash:
/// the repository rehashes before building a statement.
#[derive(Debug)]
pub struct UpdateSet {
    pub name: Option<String>,
    pub age: Option<i32>,
    pub password_hash: Option<String>,
}

/// An update set with no field present would render an ill-formed SET clause;
/// the builder refuses it by construction.
pub open spec fn update_set_is_empty(s: UpdateSet) -> bool {
    s.name is None && s.age is None && s.password_hash is None
}

/// Text of the variable-shape update, determined by which fields are present,
/// in the fixed order name, age, password. It always ends with a WHERE clause
/// scoped to one identity and a RETURNING clause.
pub open spec fn update_user_sql(has_name: bool, has_age: bool, has_password: bool) -> Seq<char> {
    if has_name && has_age && has_password {
        "UPDATE users SET name = $1, age = $2, password = $3 WHERE id = $4 RETURNING *"@
    } else if has_name && has_age {
        "UPDATE users SET name = $1, age = $2 WHERE id = $3 RETURNING *"@
    } else if has_name && has_password {
        "UPDATE users SET name = $1, password = $2 WHERE id = $3 RETURNING *"@
    } else if has_age && has_password {
        "UPDATE users SET age = $1, password = $2 WHERE id = $3 RETURNING *"@
    } else if has_name {
        "UPDATE users SET name = $1 WHERE id = $2 RETURNING *"@
    } else if has_age {
        "UPDATE users SET age = $1 WHERE id = $2 RETURNING *"@
    } else if has_password {
        "UPDATE users SET password = $1 WHERE id = $2 RETURNING *"@
    } else {
        Seq::empty()
    }
}

/// The bound values of the variable-shape update: the present fields in the
/// fixed order name, age, password, and the identity last.
pub open spec fn update_user_params(s: UpdateSet, id: i32) -> Seq<SqlValue> {
    (if s.name is Some {
        seq![SqlValue::Text(s.name->0)]
    } else {
        Seq::empty()
    }) + (if s.age is Some {
        seq![SqlValue::Int(s.age->0)]
    } else {
        Seq::empty()
    }) + (if s.password_hash is Some {
        seq![SqlValue::Text(s.password_hash->0)]
    } else {
        Seq::empty()
    }) + seq![SqlValue::Int(id)]
}

/// Renders the partial update for the fields present in `set`, or `None` when
/// no field is present: an empty SET clause is refused by construction, never
/// rendered.
pub fn update_user_statement(id: i32, set: UpdateSet) -> (r: Option<SqlStatement>)
    ensures
        (r is None) <==> update_set_is_empty(set),
        (r matches Some(s) ==> {
            &&& s.text@ == update_user_sql(set.name is Some, set.age is Some, set.password_hash is Some)
            &&& s.params@ == update_user_params(set, id)
        }),
{
    let ghost gset = set;
    let UpdateSet { name, age, password_hash } = set;
    let mut params: Vec<SqlValue> = Vec::new();
    let has_name = name.is_some();
    let has_age = age.is_some();
    let has_password = password_hash.is_some();
    match name {
        Some(n) => params.push(SqlValue::Text(n)),
        None => (),
    }
    match age {
        Some(a) => params.push(SqlValue::Int(a)),
        None => (),
    }
    match password_hash {
        Some(p) => params.push(SqlValue::Text(p)),
        None => (),
    }
    let text: &str = if has_name && has_age && has_password {
        "UPDATE users SET name = $1, age = $2, password = $3 WHERE id = $4 RETURNING *"
    } else if has_name && has_age {
        "UPDATE users SET name = $1, age = $2 WHERE id = $3 RETURNING *"
    } else if has_name && has_password {
        "UPDATE users SET name = $1, password = $2 WHERE id = $3 RETURNING *"
    } else if has_age && has_password {
        "UPDATE users SET age = $1, password = $2 WHERE id = $3 RETURNING *"
    } else if has_name {
        "UPDATE users SET name = $1 WHERE id = $2 RETURNING *"
    } else if has_age {
        "UPDATE users SET age = $1 WHERE id = $2 RETURNING *"
    } else if has_password {
        "UPDATE users SET password = $1 WHERE id = $2 RETURNING *"
    } else {
        return None;
    };
    params.push(SqlValue::Int(id));
    proof {
        assert(params@ =~= update_user_params(gset, id));
    }
    Some(SqlStatement { text: String::from_str(text), params: params })
}

} // verus!
