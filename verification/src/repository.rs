use vstd::prelude::*;
use vstd::pervasive::VecAdditionalExecFns;
use vstd::string::StringExecFns;

use crate::model::{CreateUserDto, UpdateUserDto, User, UserV};

verus! {

/// The store's native error representation, as the repository surfaces it.
/// The service is the single boundary that maps it into domain errors.
#[derive(Debug)]
pub enum StorageError {
    /// Zero rows matched a point operation.
    RowNotFound,
    /// The store itself reported a failure.
    Database(String),
    /// A failure outside the store's taxonomy, such as the hashing primitive.
    Other(String),
}

/// Whether some row of `s` carries the identity `id`.
pub open spec fn contains_id(s: Seq<UserV>, id: int) -> bool {
    exists|i: int| 0 <= i < s.len() && s[i].id == id
}

/// The first row of `s` with identity `id`, scanning front to back.
pub open spec fn lookup(s: Seq<UserV>, id: int) -> Option<UserV>
    decreases s.len(),
{
    if s.len() == 0 {
        None
    } else if s[0].id == id {
        Some(s[0])
    } else {
        lookup(s.drop_first(), id)
    }
}

/// A match at `i`, with no match before it, is what `lookup` returns.
pub proof fn lemma_lookup_found(s: Seq<UserV>, id: int, i: int)
    requires
        0 <= i < s.len(),
        forall|k: int| 0 <= k < i ==> s[k].id != id,
        s[i].id == id,
    ensures
        lookup(s, id) == Some(s[i]),
    decreases i,
{
    if i > 0 {
        lemma_lookup_found(s.drop_first(), id, i - 1);
    }
}

/// Where no row matches, `lookup` returns nothing.
pub proof fn lemma_lookup_none(s: Seq<UserV>, id: int)
    requires
        forall|k: int| 0 <= k < s.len() ==> s[k].id != id,
    ensures
        lookup(s, id) is None,
    decreases s.len(),
{
    if s.len() > 0 {
        lemma_lookup_none(s.drop_first(), id);
    }
}

/// Round trip: appending a row whose identity is fresh makes a lookup of
/// that identity yield exactly the appended row. Since `create` appends the
/// new row under the fresh next identity and `get` returns the row `lookup`
/// finds, a create followed by a get by the returned identity yields a
/// field-equal view.
pub proof fn lemma_create_then_get(s: Seq<UserV>, u: UserV)
    requires
        !contains_id(s, u.id),
    ensures
        lookup(s.push(u), u.id) == Some(u),
    decreases s.len(),
{
    if s.len() == 0 {
        assert(s.push(u)[0] == u);
    } else {
        if s[0].id == u.id {
            assert(contains_id(s, u.id));
        }
        assert forall|i: int| 0 <= i < s.drop_first().len() implies #[trigger] s.drop_first()[i].id
            != u.id by {
            assert(s.drop_first()[i] == s[i + 1]);
        };
        assert(s.push(u).drop_first() =~= s.drop_first().push(u));
        lemma_create_then_get(s.drop_first(), u);
    }
}

/// Whether some row of `s` carries the email `e`.
pub open spec fn contains_email(s: Seq<UserV>, e: Seq<char>) -> bool {
    exists|i: int| 0 <= i < s.len() && s[i].email == e
}

/// The first row of `s` with email `e`, scanning front to back.
pub open spec fn lookup_email(s: Seq<UserV>, e: Seq<char>) -> Option<UserV>
    decreases s.len(),
{
    if s.len() == 0 {
        None
    } else if s[0].email == e {
        Some(s[0])
    } else {
        lookup_email(s.drop_first(), e)
    }
}

/// A match at `i`, with no match before it, is what `lookup_email` returns.
pub proof fn lemma_lookup_email_found(s: Seq<UserV>, e: Seq<char>, i: int)
    requires
        0 <= i < s.len(),
        forall|k: int| 0 <= k < i ==> s[k].email != e,
        s[i].email == e,
    ensures
        lookup_email(s, e) == Some(s[i]),
    decreases i,
{
    if i > 0 {
        lemma_lookup_email_found(s.drop_first(), e, i - 1);
    }
}

/// Where no row matches, `lookup_email` returns nothing.
pub proof fn lemma_lookup_email_none(s: Seq<UserV>, e: Seq<char>)
    requires
        forall|k: int| 0 <= k < s.len() ==> s[k].email != e,
    ensures
        lookup_email(s, e) is None,
    decreases s.len(),
{
    if s.len() > 0 {
        lemma_lookup_email_none(s.drop_first(), e);
    }
}

/// The capability interface of the repository: the storage operations over
/// entities, stated over the rows the store holds. The in-memory store below
/// implements it, and a substitute implementation owes the same contracts.
pub trait UserRepositoryTrait: View<V = Seq<UserV>> + Sized {
    /// The identity the next created row will receive.
    spec fn next_identity(&self) -> int;

    /// Well-formedness of the store's identities.
    spec fn wf(&self) -> bool;

    /// Hashes the plaintext with the fixed work factor and appends a row.
    /// Success is owed whenever the identity space is not exhausted and the
    /// hashing primitive returns a hash; an exhausted identity space always
    /// fails.
    fn create(&mut self, user: CreateUserDto) -> (r: Result<User, StorageError>)
        requires
            old(self).wf(),
        ensures
            final(self).wf(),
            (old(self).next_identity() == 0x7fff_ffff ==> r is Err),
            (r matches Ok(u) ==> {
                &&& u@.id == old(self).next_identity()
                &&& 1 <= u@.id < 0x8000_0000
                &&& u@.name == user@.name
                &&& u@.age == user@.age
                &&& u@.email == user@.email
                &&& u@.password.len() == 60
                &&& final(self)@ == old(self)@.push(u@)
                &&& final(self).next_identity() == old(self).next_identity() + 1
            }),
            (r matches Err(e) ==> {
                &&& e is Other
                &&& final(self)@ == old(self)@
                &&& final(self).next_identity() == old(self).next_identity()
            }),
    ;

    /// Point lookup by identity; zero matching rows surface as `RowNotFound`.
    fn get(&self, id: i32) -> (r: Result<User, StorageError>)
        ensures
            (r is Ok) <==> contains_id(self@, id as int),
            (r matches Ok(u) ==> lookup(self@, id as int) == Some(u@)),
            (r matches Err(e) ==> e is RowNotFound),
    ;

    /// Point lookup by email; zero matching rows surface as `RowNotFound`.
    fn get_by_email(&self, email: String) -> (r: Result<User, StorageError>)
        ensures
            (r is Ok) <==> contains_email(self@, email@),
            (r matches Ok(u) ==> lookup_email(self@, email@) == Some(u@)),
            (r matches Err(e) ==> e is RowNotFound),
    ;

    /// Unfiltered full scan; the order is the store's insertion order.
    fn get_all(&self) -> (r: Result<Vec<User>, StorageError>)
        ensures
            (r matches Ok(v) && v.deep_view() == self@),
    ;

    /// Partial update in the fixed field order name, age, password: only the
    /// fields present in the intent change, a present password is rehashed
    /// first, and the email and the identity never change. An intent with no
    /// field present short-circuits to the current row unchanged, so no
    /// ill-formed empty SET clause can arise. An absent identity surfaces as
    /// `RowNotFound`, never as a generic failure.
    fn update(&mut self, id: i32, user: UpdateUserDto) -> (r: Result<User, StorageError>)
        requires
            old(self).wf(),
        ensures
            final(self).wf(),
            final(self).next_identity() == old(self).next_identity(),
            (r matches Err(e) ==> {
                &&& final(self)@ == old(self)@
                &&& !(e is Database)
                &&& (e is RowNotFound <==> !contains_id(old(self)@, id as int))
                &&& (e is Other ==> user.password is Some)
            }),
            (!contains_id(old(self)@, id as int) ==> r matches Err(StorageError::RowNotFound)),
            (r matches Ok(u) ==> ({
                let prev = lookup(old(self)@, id as int)->0;
                &&& contains_id(old(self)@, id as int)
                &&& u@.id == id as int
                &&& u@.name == (match user@.name {
                    Some(n) => n,
                    None => prev.name,
                })
                &&& u@.age == (match user@.age {
                    Some(a) => a,
                    None => prev.age,
                })
                &&& u@.email == prev.email
                &&& (user@.password is Some ==> u@.password.len() == 60)
                &&& (user@.password is None ==> u@.password == prev.password)
                &&& final(self)@.len() == old(self)@.len()
                &&& lookup(final(self)@, id as int) == Some(u@)
                &&& (forall|j: int|
                    0 <= j < old(self)@.len() && old(self)@[j].id != id as int ==> final(self)@[j]
                        == old(self)@[j])
            })),
    ;

    /// Removes the row with the given identity. An absent identity surfaces
    /// as `RowNotFound` and leaves the store unchanged, so a repeated delete
    /// of the same identity keeps returning `RowNotFound`.
    fn delete(&mut self, id: i32) -> (r: Result<bool, StorageError>)
        requires
            old(self).wf(),
        ensures
            final(self).wf(),
            (r is Ok) <==> contains_id(old(self)@, id as int),
            (r matches Ok(b) ==> b == true),
            (r matches Err(e) ==> (e is RowNotFound && final(self)@ == old(self)@)),
            (r is Ok ==> {
                &&& final(self)@.len() == old(self)@.len() - 1
                &&& !contains_id(final(self)@, id as int)
                &&& (exists|i: int|
                    0 <= i < old(self)@.len() && old(self)@[i].id == id as int && final(self)@
                        == old(self)@.remove(i))
            }),
            final(self).next_identity() == old(self).next_identity(),
    ;
}

/// The in-memory store behind the repository operations: the rows, and the
/// next identity the store will generate.
pub struct UserRepositoryImpl {
    users: Vec<User>,
    next_id: i32,
}

impl View for UserRepositoryImpl {
    type V = Seq<UserV>;

    closed spec fn view(&self) -> Seq<UserV> {
        self.users.deep_view()
    }
}

impl UserRepositoryImpl {
    /// A well-formed store holds only identities that fit a 31-bit signed
    /// range, so an identity at or beyond 2^31 can never be present.
    pub proof fn lemma_wf_id_bounds(&self)
        requires
            self.wf(),
        ensures
            forall|i: int| 0 <= i < self@.len() ==> 1 <= #[trigger] self@[i].id < 0x8000_0000,
    {
    }

    /// In a well-formed store the next identity is fresh: no present row
    /// carries it yet.
    pub proof fn lemma_next_identity_fresh(&self)
        requires
            self.wf(),
        ensures
            !contains_id(self@, self.next_identity()),
    {
        assert forall|i: int| 0 <= i < self@.len() implies #[trigger] self@[i].id
            != self.next_identity() by {
            assert(1 <= self@[i].id < self.next_id as int);
        };
    }

    pub fn new() -> (r: Self)
        ensures
            r.wf(),
            r@ == Seq::<UserV>::empty(),
            r.next_identity() == 1,
    {
        let r = UserRepositoryImpl { users: Vec::new(), next_id: 1 };
        proof {
            assert(r@ =~= Seq::<UserV>::empty());
        }
        r
    }

    /// Index of the first row with identity `id`, if any.
    fn find_index(&self, id: i32) -> (r: Option<usize>)
        ensures
            (r is Some) <==> contains_id(self@, id as int),
            (r matches Some(i) ==> {
                &&& i < self@.len()
                &&& self@[i as int].id == id as int
                &&& (forall|k: int| 0 <= k < i ==> self@[k].id != id as int)
                &&& lookup(self@, id as int) == Some(self@[i as int])
            }),
            (r is None ==> lookup(self@, id as int) is None),
    {
        let n = self.users.len();
        let mut i: usize = 0;
        while i < n
            invariant
                n == self.users.len(),
                self@.len() == n,
                i <= n,
                forall|k: int| 0 <= k < i ==> self@[k].id != id as int,
            decreases n - i,
        {
            if self.users[i].id == id {
                proof {
                    lemma_lookup_found(self@, id as int, i as int);
                }
                return Some(i);
            }
            i += 1;
        }
        proof {
            lemma_lookup_none(self@, id as int);
        }
        None
    }

    /// Relies on bcrypt::hash: the salt is drawn from the operating system's
    /// randomness, so nothing relates two calls on the same input; on success
    /// the result is the 60-character bcrypt hash string.
    #[verifier::external_body]
    fn hash_password(plain: &String, cost: u32) -> (r: Result<String, String>)
        ensures
            (r matches Ok(h) ==> h@.len() == 60),
    {
        match bcrypt::hash(plain.as_str(), cost) {
            Ok(h) => Ok(h),
            Err(e) => Err(e.to_string()),
        }
    }

    /// Appends a row with the given fields under the next identity. The
    /// password handed in is already the hash: the plaintext never reaches
    /// the stored rows.
    pub fn insert_user(&mut self, name: String, age: i32, email: String, password_hash: String) -> (u: User)
        requires
            old(self).wf(),
            old(self).next_identity() < 0x7fff_ffff,
        ensures
            final(self).wf(),
            u@.id == old(self).next_identity(),
            u@.name == name@,
            u@.age == age as int,
            u@.email == email@,
            u@.password == password_hash@,
            final(self)@ == old(self)@.push(u@),
            final(self).next_identity() == old(self).next_identity() + 1,
    {
        let u = User { id: self.next_id, name: name, age: age, email: email, password: password_hash };
        let copy = u.clone();
        self.users.push(copy);
        self.next_id = self.next_id + 1;
        proof {
            assert(self@ =~= old(self)@.push(u@));
            assert forall|i: int| 0 <= i < self@.len() implies 1 <= #[trigger] self@[i].id
                < self.next_id as int by {
                if i < old(self)@.len() {
                    assert(old(self)@[i].id < old(self).next_id as int);
                }
            };
            assert forall|i: int, j: int| 0 <= i < j < self@.len() implies self@[i].id
                != self@[j].id by {
                if j < old(self)@.len() {
                    assert(old(self)@[i].id != old(self)@[j].id);
                } else {
                    assert(old(self)@[i].id < old(self).next_id as int);
                }
            };
        }
        u
    }

    /// Builds the new value of a row from the fields present in the intent,
    /// with the password already hashed, and writes it back in place. Absent
    /// fields and the email are left untouched, and the identity never moves.
    fn apply_update(&mut self, idx: usize, name: Option<String>, age: Option<i32>, password_hash:
        Option<String>) -> (u: User)
        requires
            old(self).wf(),
            idx < old(self)@.len(),
        ensures
            final(self).wf(),
            u@.id == old(self)@[idx as int].id,
            u@.name == (match name {
                Some(n) => n@,
                None => old(self)@[idx as int].name,
            }),
            u@.age == (match age {
                Some(a) => a as int,
                None => old(self)@[idx as int].age,
            }),
            u@.email == old(self)@[idx as int].email,
            u@.password == (match password_hash {
                Some(p) => p@,
                None => old(self)@[idx as int].password,
            }),
            final(self)@ == old(self)@.update(idx as int, u@),
            final(self).next_identity() == old(self).next_identity(),
    {
        let new_name: String = match name {
            Some(n) => n,
            None => self.users[idx].name.clone(),
        };
        let new_age: i32 = match age {
            Some(a) => a,
            None => self.users[idx].age,
        };
        let new_password: String = match password_hash {
            Some(p) => p,
            None => self.users[idx].password.clone(),
        };
        let u = User {
            id: self.users[idx].id,
            name: new_name,
            age: new_age,
            email: self.users[idx].email.clone(),
            password: new_password,
        };
        let copy = u.clone();
        self.users.set(idx, copy);
        proof {
            assert(self@ =~= old(self)@.update(idx as int, u@));
            assert forall|i: int| 0 <= i < self@.len() implies #[trigger] self@[i].id == old(
                self,
            )@[i].id by {
                if i == idx as int {
                    assert(self@[i] == u@);
                } else {
                    assert(self@[i] == old(self)@[i]);
                }
            };
            assert forall|i: int| 0 <= i < self@.len() implies 1 <= #[trigger] self@[i].id
                < self.next_id as int by {
                assert(self@[i].id == old(self)@[i].id);
                assert(1 <= old(self)@[i].id < old(self).next_id as int);
            };
            assert forall|i: int, j: int| 0 <= i < j < self@.len() implies self@[i].id
                != self@[j].id by {
                assert(self@[i].id == old(self)@[i].id);
                assert(self@[j].id == old(self)@[j].id);
            };
        }
        u
    }

}

impl UserRepositoryTrait for UserRepositoryImpl {
    closed spec fn next_identity(&self) -> int {
        self.next_id as int
    }

    closed spec fn wf(&self) -> bool {
        &&& 1 <= self.next_id
        &&& (forall|i: int| 0 <= i < self@.len() ==> 1 <= #[trigger] self@[i].id < self.next_id as int)
        &&& (forall|i: int, j: int| 0 <= i < j < self@.len() ==> self@[i].id != self@[j].id)
    }

    fn create(&mut self, user: CreateUserDto) -> (r: Result<User, StorageError>)
    {
        if self.next_id == i32::MAX {
            return Err(StorageError::Other(String::from_str("identity space exhausted")));
        }
        let CreateUserDto { name, age, email, password } = user;
        match Self::hash_password(&password, crate::HASH_COST) {
            Ok(h) => Ok(self.insert_user(name, age, email, h)),
            Err(m) => Err(StorageError::Other(m)),
        }
    }

    fn get(&self, id: i32) -> (r: Result<User, StorageError>)
    {
        match self.find_index(id) {
            Some(i) => Ok(self.users[i].clone()),
            None => Err(StorageError::RowNotFound),
        }
    }

    fn get_by_email(&self, email: String) -> (r: Result<User, StorageError>)
    {
        let n = self.users.len();
        let mut i: usize = 0;
        while i < n
            invariant
                n == self.users.len(),
                self@.len() == n,
                i <= n,
                forall|k: int| 0 <= k < i ==> self@[k].email != email@,
            decreases n - i,
        {
            if self.users[i].email == email {
                proof {
                    lemma_lookup_email_found(self@, email@, i as int);
                }
                return Ok(self.users[i].clone());
            }
            i += 1;
        }
        proof {
            lemma_lookup_email_none(self@, email@);
        }
        Err(StorageError::RowNotFound)
    }

    fn update(&mut self, id: i32, user: UpdateUserDto) -> (r: Result<User, StorageError>)
    {
        let idx: usize = match self.find_index(id) {
            Some(i) => i,
            None => {
                return Err(StorageError::RowNotFound);
            },
        };
        let UpdateUserDto { name, age, password } = user;
        let hashed: Option<String> = match password {
            Some(p) => match Self::hash_password(&p, crate::HASH_COST) {
                Ok(h) => Some(h),
                Err(m) => {
                    return Err(StorageError::Other(m));
                },
            },
            None => None,
        };
        let u = self.apply_update(idx, name, age, hashed);
        proof {
            assert forall|k: int| 0 <= k < idx as int implies #[trigger] self@[k].id
                != id as int by {
                assert(self@[k] == old(self)@[k]);
            };
            lemma_lookup_found(self@, id as int, idx as int);
        }
        Ok(u)
    }

    fn get_all(&self) -> (r: Result<Vec<User>, StorageError>)
    {
        let n = self.users.len();
        let mut out: Vec<User> = Vec::new();
        let mut i: usize = 0;
        while i < n
            invariant
                n == self.users.len(),
                self@.len() == n,
                i <= n,
                out.deep_view().len() == i,
                forall|k: int| 0 <= k < i ==> out.deep_view()[k] == self@[k],
            decreases n - i,
        {
            out.push(self.users[i].clone());
            i += 1;
        }
        proof {
            assert(out.deep_view() =~= self@);
        }
        Ok(out)
    }

    fn delete(&mut self, id: i32) -> (r: Result<bool, StorageError>)
    {
        match self.find_index(id) {
            None => Err(StorageError::RowNotFound),
            Some(i) => {
                let ghost olds = self@;
                let ghost gi = i as int;
                let _removed = self.users.remove(i);
                proof {
                    assert(self@ =~= olds.remove(gi));
                    olds.remove_ensures(gi);
                    assert forall|j: int| 0 <= j < self@.len() implies #[trigger] self@[j].id
                        != id as int by {
                        if j < gi {
                            assert(self@[j] == olds[j]);
                        } else {
                            assert(self@[j] == olds[j + 1]);
                            assert(olds[gi].id != olds[j + 1].id);
                        }
                    };
                    assert forall|a: int| 0 <= a < self@.len() implies 1 <= #[trigger] self@[a].id
                        < self.next_id as int by {
                        if a < gi {
                            assert(self@[a] == olds[a]);
                        } else {
                            assert(self@[a] == olds[a + 1]);
                        }
                    };
                    assert forall|a: int, b: int| 0 <= a < b < self@.len() implies self@[a].id
                        != self@[b].id by {
                        let a2 = if a < gi { a } else { a + 1 };
                        let b2 = if b < gi { b } else { b + 1 };
                        assert(self@[a] == olds[a2]);
                        assert(self@[b] == olds[b2]);
                        assert(olds[a2].id != olds[b2].id);
                    };
                    assert(0 <= gi < olds.len() && olds[gi].id == id as int && self@ == olds.remove(
                        gi,
                    ));
                }
                Ok(true)
            },
        }
    }
}

} // verus!
