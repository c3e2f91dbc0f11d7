use vstd::prelude::*;

verus! {

/// A stored row of the `users` table: the entity owned by the storage layer.
/// The `password` field holds the bcrypt hash, never the plaintext.
#[derive(Debug)]
pub struct User {
    pub id: i32,
    pub name: String,
    pub age: i32,
    pub email: String,
    pub password: String,
}

/// Mathematical image of a stored row.
pub ghost struct UserV {
    pub id: int,
    pub name: Seq<char>,
    pub age: int,
    pub email: Seq<char>,
    pub password: Seq<char>,
}

impl View for User {
    type V = UserV;

    open spec fn view(&self) -> UserV {
        UserV {
            id: self.id as int,
            name: self.name@,
            age: self.age as int,
            email: self.email@,
            password: self.password@,
        }
    }
}

impl DeepView for User {
    type V = UserV;

    open spec fn deep_view(&self) -> UserV {
        self.view()
    }
}

impl Clone for User {
    fn clone(&self) -> (res: Self)
        ensures
            res@ == self@,
    {
        User {
            id: self.id,
            name: self.name.clone(),
            age: self.age,
            email: self.email.clone(),
            password: self.password.clone(),
        }
    }
}

/// Write-intent for creating a user; the plaintext password is hashed
/// before it is persisted and never retained afterwards.
#[derive(Debug)]
pub struct CreateUserDto {
    pub name: String,
    pub age: i32,
    pub email: String,
    pub password: String,
}

/// Mathematical image of a create intent.
pub ghost struct CreateUserDtoV {
    pub name: Seq<char>,
    pub age: int,
    pub email: Seq<char>,
    pub password: Seq<char>,
}

impl View for CreateUserDto {
    type V = CreateUserDtoV;

    open spec fn view(&self) -> CreateUserDtoV {
        CreateUserDtoV {
            name: self.name@,
            age: self.age as int,
            email: self.email@,
            password: self.password@,
        }
    }
}

impl Clone for CreateUserDto {
    fn clone(&self) -> (res: Self)
        ensures
            res@ == self@,
    {
        CreateUserDto {
            name: self.name.clone(),
            age: self.age,
            email: self.email.clone(),
            password: self.password.clone(),
        }
    }
}

/// Write-intent for a partial update: an absent field means "leave unchanged".
#[derive(Debug)]
pub struct UpdateUserDto {
    pub name: Option<String>,
    pub age: Option<i32>,
    pub password: Option<String>,
}

/// Mathematical image of an update intent.
pub ghost struct UpdateUserDtoV {
    pub name: Option<Seq<char>>,
    pub age: Option<int>,
    pub password: Option<Seq<char>>,
}

impl View for UpdateUserDto {
    type V = UpdateUserDtoV;

    open spec fn view(&self) -> UpdateUserDtoV {
        UpdateUserDtoV {
            name: match self.name {
                Some(s) => Some(s@),
                None => None,
            },
            age: match self.age {
                Some(a) => Some(a as int),
                None => None,
            },
            password: match self.password {
                Some(s) => Some(s@),
                None => None,
            },
        }
    }
}

impl Clone for UpdateUserDto {
    fn clone(&self) -> (res: Self)
        ensures
            res@ == self@,
    {
        UpdateUserDto {
            name: match &self.name {
                Some(s) => Some(s.clone()),
                None => None,
            },
            age: self.age,
            password: match &self.password {
                Some(s) => Some(s.clone()),
                None => None,
            },
        }
    }
}

/// Read-projection of a stored row. It has no password field at all, so the
/// password hash can never be exposed through it.
#[derive(Debug)]
pub struct ReadUserDto {
    pub id: i32,
    pub name: String,
    pub age: i32,
    pub email: String,
}

/// Mathematical image of the read projection.
pub ghost struct ReadUserDtoV {
    pub id: int,
    pub name: Seq<char>,
    pub age: int,
    pub email: Seq<char>,
}

impl View for ReadUserDto {
    type V = ReadUserDtoV;

    open spec fn view(&self) -> ReadUserDtoV {
        ReadUserDtoV {
            id: self.id as int,
            name: self.name@,
            age: self.age as int,
            email: self.email@,
        }
    }
}

impl DeepView for ReadUserDto {
    type V = ReadUserDtoV;

    open spec fn deep_view(&self) -> ReadUserDtoV {
        self.view()
    }
}

impl Clone for ReadUserDto {
    fn clone(&self) -> (res: Self)
        ensures
            res@ == self@,
    {
        ReadUserDto {
            id: self.id,
            name: self.name.clone(),
            age: self.age,
            email: self.email.clone(),
        }
    }
}

/// The projection a stored row leaves through: every field but the password
/// hash is carried over unchanged.
pub open spec fn projection_of(u: UserV) -> ReadUserDtoV {
    ReadUserDtoV { id: u.id, name: u.name, age: u.age, email: u.email }
}

impl From<User> for ReadUserDto {
    fn from(value: User) -> (r: Self)
        ensures
            r@ == projection_of(value@),
    {
        ReadUserDto { id: value.id, name: value.name, age: value.age, email: value.email }
    }
}

impl vstd::std_specs::convert::FromSpecImpl<User> for ReadUserDto {
    open spec fn obeys_from_spec() -> bool {
        true
    }

    open spec fn from_spec(v: User) -> Self {
        ReadUserDto { id: v.id, name: v.name, age: v.age, email: v.email }
    }
}

} // verus!
