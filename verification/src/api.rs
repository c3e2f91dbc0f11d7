use vstd::prelude::*;
use vstd::string::StringExecFns;

verus! {

/// The character of one decimal digit.
pub open spec fn digit_char(d: nat) -> char {
    if d == 0 {
        '0'
    } else if d == 1 {
        '1'
    } else if d == 2 {
        '2'
    } else if d == 3 {
        '3'
    } else if d == 4 {
        '4'
    } else if d == 5 {
        '5'
    } else if d == 6 {
        '6'
    } else if d == 7 {
        '7'
    } else if d == 8 {
        '8'
    } else {
        '9'
    }
}

/// The decimal digit characters of `n`, most significant first.
pub open spec fn decimal_digits(n: nat) -> Seq<char>
    decreases n,
{
    if n < 10 {
        seq![digit_char(n)]
    } else {
        decimal_digits(n / 10).push(digit_char(n % 10))
    }
}

fn digit_str(d: u32) -> (s: &'static str)
    requires
        d < 10,
    ensures
        s@ == seq![digit_char(d as nat)],
{
    if d == 0 {
        proof {
            reveal_strlit("0");
            assert("0"@ =~= seq![digit_char(0)]);
        }
        "0"
    } else if d == 1 {
        proof {
            reveal_strlit("1");
            assert("1"@ =~= seq![digit_char(1)]);
        }
        "1"
    } else if d == 2 {
        proof {
            reveal_strlit("2");
            assert("2"@ =~= seq![digit_char(2)]);
        }
        "2"
    } else if d == 3 {
        proof {
            reveal_strlit("3");
            assert("3"@ =~= seq![digit_char(3)]);
        }
        "3"
    } else if d == 4 {
        proof {
            reveal_strlit("4");
            assert("4"@ =~= seq![digit_char(4)]);
        }
        "4"
    } else if d == 5 {
        proof {
            reveal_strlit("5");
            assert("5"@ =~= seq![digit_char(5)]);
        }
        "5"
    } else if d == 6 {
        proof {
            reveal_strlit("6");
            assert("6"@ =~= seq![digit_char(6)]);
        }
        "6"
    } else if d == 7 {
        proof {
            reveal_strlit("7");
            assert("7"@ =~= seq![digit_char(7)]);
        }
        "7"
    } else if d == 8 {
        proof {
            reveal_strlit("8");
            assert("8"@ =~= seq![digit_char(8)]);
        }
        "8"
    } else {
        proof {
            reveal_strlit("9");
            assert("9"@ =~= seq![digit_char(9)]);
        }
        "9"
    }
}

/// Renders `n` in decimal, most significant digit first.
pub fn u32_to_decimal(n: u32) -> (s: String)
    ensures
        s@ == decimal_digits(n as nat),
    decreases n,
{
    let d = digit_str(n % 10);
    if n < 10 {
        let s = String::from_str(d);
        proof {
            assert(s@ =~= decimal_digits(n as nat));
        }
        s
    } else {
        let prefix = u32_to_decimal(n / 10);
        let s = prefix.concat(d);
        proof {
            assert(s@ =~= decimal_digits(n as nat));
        }
        s
    }
}

/// The message of a not-found outcome names the identity that was asked for.
pub open spec fn not_found_message(id: u32) -> Seq<char> {
    "User not found with id: "@ + decimal_digits(id as nat)
}

/// Renders the not-found message for an identity.
pub fn not_found_text(id: u32) -> (s: String)
    ensures
        s@ == not_found_message(id),
{
    let digits = u32_to_decimal(id);
    String::from_str("User not found with id: ").concat(digits.as_str())
}

/// Domain error taxonomy owned by the service layer: a small closed set of
/// caller-meaningful failure kinds, independent of the store's native errors.
#[derive(Debug)]
pub enum ServiceError {
    /// No row exists for the given identity or key.
    NotFound(String),
    /// A store-reported failure: constraint violation or connectivity.
    Database(String),
    /// Anything uncategorized.
    Unknown(String),
}

/// Uniform error envelope: a human-readable message and an HTTP status code.
/// The message never carries a password hash or a plaintext password.
#[derive(Debug)]
pub struct ApiError {
    pub message: String,
    pub status: u16,
}

impl ApiError {
    pub fn new(message: Option<String>, status: u16) -> (r: Self)
        ensures
            r.status == status,
            (match message {
                Some(m) => r.message@ == m@,
                None => r.message@ == Seq::<char>::empty(),
            }),
    {
        match message {
            Some(m) => ApiError { message: m, status: status },
            None => ApiError { message: String::new(), status: status },
        }
    }
}

/// The status an error kind maps to: not-found is 404; database and
/// uncategorized failures are 500.
pub open spec fn status_of(e: ServiceError) -> u16 {
    match e {
        ServiceError::NotFound(_) => 404,
        ServiceError::Database(_) => 500,
        ServiceError::Unknown(_) => 500,
    }
}

/// The diagnostic message an error kind carries.
pub open spec fn message_of(e: ServiceError) -> Seq<char> {
    match e {
        ServiceError::NotFound(m) => m@,
        ServiceError::Database(m) => m@,
        ServiceError::Unknown(m) => m@,
    }
}

impl From<ServiceError> for ApiError {
    fn from(value: ServiceError) -> (r: Self)
        ensures
            r.status == status_of(value),
            r.message@ == message_of(value),
    {
        match value {
            ServiceError::NotFound(m) => ApiError { message: m, status: 404 },
            ServiceError::Database(m) => ApiError { message: m, status: 500 },
            ServiceError::Unknown(m) => ApiError { message: m, status: 500 },
        }
    }
}

impl vstd::std_specs::convert::FromSpecImpl<ServiceError> for ApiError {
    open spec fn obeys_from_spec() -> bool {
        true
    }

    open spec fn from_spec(v: ServiceError) -> Self {
        match v {
            ServiceError::NotFound(m) => ApiError { message: m, status: 404 },
            ServiceError::Database(m) => ApiError { message: m, status: 500 },
            ServiceError::Unknown(m) => ApiError { message: m, status: 500 },
        }
    }
}

/// Uniform success envelope: wraps the payload verbatim, for any payload type.
#[derive(Debug)]
pub struct ApiSuccess<T> {
    pub data: T,
}

impl<T> ApiSuccess<T> {
    pub fn new(data: T) -> (r: Self)
        ensures
            r.data == data,
    {
        ApiSuccess { data: data }
    }
}

} // verus!
