use vstd::prelude::*;

use crate::api::{message_of, not_found_message, not_found_text, ApiError, ServiceError};
use crate::model::{projection_of, CreateUserDto, ReadUserDto, UpdateUserDto, UserV};
use crate::repository::{contains_id, lookup, StorageError, UserRepositoryImpl, UserRepositoryTrait};

verus! {

/// The single, total mapping from the store's native errors into the domain
/// taxonomy: a missing row becomes `NotFound` naming the identity `id` the
/// operation addressed, a store-reported failure becomes `Database` with its
/// message preserved, and anything else becomes `Unknown`. No storage error
/// escapes unmapped.
pub fn map_storage_error(e: StorageError, id: u32) -> (r: ServiceError)
    ensures
        (e is RowNotFound) <==> (r is NotFound),
        (e is Database) <==> (r is Database),
        (e is Other) <==> (r is Unknown),
        (e is RowNotFound ==> message_of(r) == not_found_message(id)),
        (e matches StorageError::Database(m) ==> message_of(r) == m@),
        (e matches StorageError::Other(m) ==> message_of(r) == m@),
{
    match e {
        StorageError::RowNotFound => ServiceError::NotFound(not_found_text(id)),
        StorageError::Database(m) => ServiceError::Database(m),
        StorageError::Other(m) => ServiceError::Unknown(m),
    }
}

/// The capability interface of the service: the five operations over DTOs,
/// with every stored row projected before it leaves and every storage error
/// mapped into the uniform envelope error. Production and substitute
/// implementations both satisfy these contracts.
pub trait UserServiceTrait: Sized {
    /// The rows of the backing store, as the service sees them.
    spec fn users(&self) -> Seq<UserV>;

    /// The identity the next created row will receive.
    spec fn next_identity(&self) -> int;

    /// Well-formedness of the backing store.
    spec fn inv(&self) -> bool;

    /// Creates a user: the returned view carries the input's name, age and
    /// email under the generated identity, which fits the store's signed
    /// 32-bit range, and the stored row holds a hash, never the plaintext.
    /// The view itself has no password field. An exhausted identity space
    /// always fails.
    fn create(&mut self, user: CreateUserDto) -> (r: Result<ReadUserDto, ApiError>)
        requires
            old(self).inv(),
        ensures
            final(self).inv(),
            (old(self).next_identity() == 0x7fff_ffff ==> r is Err),
            (r matches Ok(dto) ==> {
                &&& dto@.id == old(self).next_identity()
                &&& 1 <= dto@.id < 0x8000_0000
                &&& dto@.name == user@.name
                &&& dto@.age == user@.age
                &&& dto@.email == user@.email
                &&& final(self).users().len() == old(self).users().len() + 1
                &&& final(self).users().drop_last() == old(self).users()
                &&& final(self).users().last().id == dto@.id
                &&& final(self).users().last().name == dto@.name
                &&& final(self).users().last().age == dto@.age
                &&& final(self).users().last().email == dto@.email
                &&& final(self).users().last().password.len() == 60
                &&& final(self).next_identity() == old(self).next_identity() + 1
            }),
            (r matches Err(e) ==> {
                &&& e.status == 500
                &&& final(self).users() == old(self).users()
                &&& final(self).next_identity() == old(self).next_identity()
            }),
    ;

    /// Point read: succeeds exactly when the identity is present, and then
    /// returns the projection of that row; an absent identity carries 404.
    fn get(&self, id: u32) -> (r: Result<ReadUserDto, ApiError>)
        requires
            self.inv(),
        ensures
            (r is Ok) <==> contains_id(self.users(), id as int),
            (r matches Ok(dto) ==> (lookup(self.users(), id as int) matches Some(u) && dto@
                == projection_of(u))),
            (r matches Err(e) ==> (e.status == 404 && e.message@ == not_found_message(id))),
    ;

    /// Full read: always succeeds and returns the projection of every row,
    /// in store order.
    fn get_all(&self) -> (r: Result<Vec<ReadUserDto>, ApiError>)
        ensures
            (r matches Ok(v) && v.deep_view().len() == self.users().len()),
            (r matches Ok(v) ==> forall|i: int|
                0 <= i < self.users().len() ==> #[trigger] v.deep_view()[i] == projection_of(
                    self.users()[i],
                )),
    ;

    /// Delete: succeeds with `true` exactly when the identity was present,
    /// and then removes that one row; an absent identity carries 404 and
    /// leaves the store unchanged, so a repeated delete keeps returning 404.
    fn delete(&mut self, id: u32) -> (r: Result<bool, ApiError>)
        requires
            old(self).inv(),
        ensures
            final(self).inv(),
            final(self).next_identity() == old(self).next_identity(),
            (r is Ok) <==> contains_id(old(self).users(), id as int),
            (r matches Ok(b) ==> b == true),
            (r matches Err(e) ==> (e.status == 404 && e.message@ == not_found_message(id)
                && final(self).users() == old(self).users())),
            (r is Ok ==> {
                &&& final(self).users().len() == old(self).users().len() - 1
                &&& !contains_id(final(self).users(), id as int)
                &&& (exists|i: int|
                    0 <= i < old(self).users().len() && old(self).users()[i].id == id as int
                        && final(self).users() == old(self).users().remove(i))
            }),
    ;

    /// Partial update: only the fields present in the intent change, the
    /// email and the identity never change, and an intent with no field
    /// present returns the current row unchanged. An absent identity carries
    /// 404, never a generic failure; a 500 can arise only while rehashing a
    /// present password, so success is owed for a present identity when no
    /// password field is set.
    fn update(&mut self, id: u32, user: UpdateUserDto) -> (r: Result<ReadUserDto, ApiError>)
        requires
            old(self).inv(),
        ensures
            final(self).inv(),
            final(self).next_identity() == old(self).next_identity(),
            (r matches Err(e) ==> {
                &&& final(self).users() == old(self).users()
                &&& (e.status == 404 <==> !contains_id(old(self).users(), id as int))
                &&& (e.status == 404 || e.status == 500)
                &&& (e.status == 404 ==> e.message@ == not_found_message(id))
                &&& (e.status == 500 ==> user@.password is Some)
            }),
            (!contains_id(old(self).users(), id as int) ==> (r matches Err(e) && e.status == 404)),
            (r matches Ok(dto) ==> ({
                let prev = lookup(old(self).users(), id as int)->0;
                &&& contains_id(old(self).users(), id as int)
                &&& dto@.id == id as int
                &&& dto@.name == (match user@.name {
                    Some(n) => n,
                    None => prev.name,
                })
                &&& dto@.age == (match user@.age {
                    Some(a) => a,
                    None => prev.age,
                })
                &&& dto@.email == prev.email
                &&& final(self).users().len() == old(self).users().len()
                &&& (lookup(final(self).users(), id as int) matches Some(now) && projection_of(now)
                    == dto@ && (user@.password is None ==> now.password == prev.password) && (
                user@.password is Some ==> now.password.len() == 60))
                &&& (forall|j: int|
                    0 <= j < old(self).users().len() && old(self).users()[j].id != id as int
                        ==> final(self).users()[j] == old(self).users()[j])
            })),
    ;
}

/// The service over the in-memory repository.
pub struct UserServiceImpl {
    user_repository: UserRepositoryImpl,
}

impl UserServiceImpl {
    /// In a well-formed service the next identity is fresh: no present row
    /// carries it yet, so the row `create` appends is found by nothing else.
    pub proof fn lemma_next_identity_fresh(&self)
        requires
            self.inv(),
        ensures
            !contains_id(self.users(), self.next_identity()),
    {
        self.user_repository.lemma_next_identity_fresh();
    }

    pub fn new(user_repository: UserRepositoryImpl) -> (r: Self)
        ensures
            r.users() == user_repository@,
            r.next_identity() == user_repository.next_identity(),
            user_repository.wf() ==> r.inv(),
    {
        UserServiceImpl { user_repository: user_repository }
    }
}

impl UserServiceTrait for UserServiceImpl {
    closed spec fn users(&self) -> Seq<UserV> {
        self.user_repository@
    }

    closed spec fn next_identity(&self) -> int {
        self.user_repository.next_identity()
    }

    closed spec fn inv(&self) -> bool {
        self.user_repository.wf()
    }

    fn create(&mut self, user: CreateUserDto) -> (r: Result<ReadUserDto, ApiError>) {
        match self.user_repository.create(user) {
            Ok(u) => {
                proof {
                    assert(self.users().drop_last() =~= old(self).users());
                }
                Ok(ReadUserDto::from(u))
            },
            // A create addresses no existing row: 0 is an identity no row carries.
            Err(e) => Err(ApiError::from(map_storage_error(e, 0))),
        }
    }

    fn get(&self, id: u32) -> (r: Result<ReadUserDto, ApiError>) {
        if id > 0x7fff_ffff {
            proof {
                self.user_repository.lemma_wf_id_bounds();
                assert forall|i: int| 0 <= i < self.users().len() implies #[trigger] self.users()[i].id
                    != id as int by {
                    assert(1 <= self.users()[i].id < 0x8000_0000);
                };
            }
            return Err(ApiError::new(Some(not_found_text(id)), 404));
        }
        match self.user_repository.get(id as i32) {
            Ok(u) => Ok(ReadUserDto::from(u)),
            Err(e) => Err(ApiError::from(map_storage_error(e, id))),
        }
    }

    fn get_all(&self) -> (r: Result<Vec<ReadUserDto>, ApiError>) {
        match self.user_repository.get_all() {
            Ok(users) => {
                let n = users.len();
                let mut out: Vec<ReadUserDto> = Vec::new();
                let mut i: usize = 0;
                while i < n
                    invariant
                        n == users.len(),
                        users.deep_view() == self.users(),
                        i <= n,
                        out@.len() == i,
                        forall|k: int|
                            0 <= k < i ==> #[trigger] out@[k]@ == projection_of(self.users()[k]),
                    decreases n - i,
                {
                    let row = users[i].clone();
                    out.push(ReadUserDto::from(row));
                    i += 1;
                }
                proof {
                    assert forall|k: int| 0 <= k < self.users().len() implies #[trigger] out.deep_view()[k]
                        == projection_of(self.users()[k]) by {
                        assert(out.deep_view()[k] == out@[k]@);
                    };
                }
                Ok(out)
            },
            // A full scan addresses no single row: 0 is an identity no row carries.
            Err(e) => Err(ApiError::from(map_storage_error(e, 0))),
        }
    }

    fn delete(&mut self, id: u32) -> (r: Result<bool, ApiError>) {
        if id > 0x7fff_ffff {
            proof {
                self.user_repository.lemma_wf_id_bounds();
                assert forall|i: int| 0 <= i < self.users().len() implies #[trigger] self.users()[i].id
                    != id as int by {
                    assert(1 <= self.users()[i].id < 0x8000_0000);
                };
            }
            return Err(ApiError::new(Some(not_found_text(id)), 404));
        }
        match self.user_repository.delete(id as i32) {
            Ok(b) => Ok(b),
            Err(e) => Err(ApiError::from(map_storage_error(e, id))),
        }
    }

    fn update(&mut self, id: u32, user: UpdateUserDto) -> (r: Result<ReadUserDto, ApiError>) {
        if id > 0x7fff_ffff {
            proof {
                self.user_repository.lemma_wf_id_bounds();
                assert forall|i: int| 0 <= i < self.users().len() implies #[trigger] self.users()[i].id
                    != id as int by {
                    assert(1 <= self.users()[i].id < 0x8000_0000);
                };
            }
            return Err(ApiError::new(Some(not_found_text(id)), 404));
        }
        match self.user_repository.update(id as i32, user) {
            Ok(u) => Ok(ReadUserDto::from(u)),
            Err(e) => Err(ApiError::from(map_storage_error(e, id))),
        }
    }
}

} // verus!
