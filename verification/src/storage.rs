use vstd::prelude::*;

use crate::errors::StorageError;
use crate::pool::Connection;

verus! {

/// One registered user as the service shows it: the identity assigned by
/// storage at creation, and the email it was signed up with.
#[derive(Clone)]
pub struct User {
    pub id: i64,
    pub email: String,
}

/// Mathematical image of a `User`.
pub ghost struct UserView {
    pub id: int,
    pub email: Seq<char>,
}

impl View for User {
    type V = UserView;

    open spec fn view(&self) -> UserView {
        UserView { id: self.id as int, email: self.email@ }
    }
}

/// The views of a sequence of users, in order.
pub open spec fn views_of(users: Seq<User>) -> Seq<UserView> {
    users.map_values(|u: User| u@)
}

/// One stored row: what a signup persists. The credential is stored but
/// never shown.
pub struct UserRecord {
    pub id: i64,
    pub email: String,
    pub hashed_password: String,
}

/// Mathematical image of a `UserRecord`.
pub ghost struct UserRecordView {
    pub id: int,
    pub email: Seq<char>,
    pub hashed_password: Seq<char>,
}

impl View for UserRecord {
    type V = UserRecordView;

    open spec fn view(&self) -> UserRecordView {
        UserRecordView { id: self.id as int, email: self.email@, hashed_password: self.hashed_password@ }
    }
}

/// The cause string reported when a signup collides with a stored email.
pub open spec fn duplicate_email_message() -> Seq<char> {
    "duplicate email"@
}

/// The cause string reported when no further id can be assigned.
pub open spec fn ids_exhausted_message() -> Seq<char> {
    "user id space exhausted"@
}

/// The store behind the query layer: the persisted rows, and the id the
/// next created user will receive. Emails are kept unique: a signup with a
/// stored email is refused, as a unique constraint would refuse it.
pub struct Storage {
    records: Vec<UserRecord>,
    next_id: i64,
}

impl Storage {
    /// The stored rows, as mathematical values, in insertion order.
    pub closed spec fn records_view(&self) -> Seq<UserRecordView> {
        self.records@.map_values(|r: UserRecord| r@)
    }

    /// The id the next created user will get.
    pub closed spec fn spec_next_id(&self) -> int {
        self.next_id as int
    }

    /// The users the store holds (identity and email), in insertion order.
    pub open spec fn users_view(&self) -> Seq<UserView> {
        self.records_view().map_values(|r: UserRecordView| UserView { id: r.id, email: r.email })
    }

    /// Whether some stored row carries this email.
    pub open spec fn has_email(&self, email: Seq<char>) -> bool {
        exists|i: int|
            0 <= i < self.users_view().len() && (#[trigger] self.users_view()[i]).email == email
    }

    /// Ids are the store's own: positive, strictly increasing with insertion
    /// order, and all below the next id to hand out.
    pub open spec fn wf(&self) -> bool {
        &&& 1 <= self.spec_next_id() <= i64::MAX
        &&& forall|i: int|
            0 <= i < self.records_view().len() ==> 1 <= (#[trigger] self.records_view()[i]).id
                < self.spec_next_id()
        &&& forall|i: int, j: int|
            0 <= i < j < self.records_view().len() ==> (#[trigger] self.records_view()[i]).id < (
            #[trigger] self.records_view()[j]).id
    }

    /// An empty store; the first user created will get id 1.
    pub fn new() -> (s: Storage)
        ensures
            s.wf(),
            s.users_view() == Seq::<UserView>::empty(),
            s.records_view() == Seq::<UserRecordView>::empty(),
            s.spec_next_id() == 1,
    {
        let s = Storage { records: Vec::new(), next_id: 1 };
        proof {
            assert(s.records_view() =~= Seq::<UserRecordView>::empty());
            assert(s.users_view() =~= Seq::<UserView>::empty());
        }
        s
    }

    /// The read side of the storage boundary: every stored user, projected
    /// to what the service shows, in insertion order.
    #[verifier::loop_isolation(false)]
    pub fn get_users(&self, _conn: &Connection) -> (r: Vec<User>)
        ensures
            views_of(r@) == self.users_view(),
    {
        let mut out: Vec<User> = Vec::new();
        let mut i: usize = 0;
        while i < self.records.len()
            invariant
                i <= self.records.len(),
                views_of(out@) =~= self.users_view().take(i as int),
            decreases self.records.len() - i,
        {
            let rec = &self.records[i];
            out.push(User { id: rec.id, email: rec.email.clone() });
            proof {
                assert(views_of(out@) =~= self.users_view().take(i as int + 1));
            }
            i = i + 1;
        }
        proof {
            assert(self.users_view().take(self.records@.len() as int) =~= self.users_view());
        }
        out
    }

    /// The write side of the storage boundary: persist a new user under a
    /// fresh id. Fails, leaving the store as it was, when the email is
    /// already stored or no id is left; succeeds otherwise.
    #[verifier::loop_isolation(false)]
    pub fn create_user(&mut self, _conn: &Connection, email: &str, hashed_password: &str) -> (r:
        Result<(), StorageError>)
        requires
            old(self).wf(),
        ensures
            final(self).wf(),
            old(self).has_email(email@) ==> (r matches Err(e) && e.message@
                == duplicate_email_message() && *final(self) == *old(self)),
            !old(self).has_email(email@) && old(self).spec_next_id() == i64::MAX ==> (r matches
                Err(e) && e.message@ == ids_exhausted_message() && *final(self) == *old(self)),
            !old(self).has_email(email@) && old(self).spec_next_id() < i64::MAX ==> (r is Ok
                && final(self).records_view() == old(self).records_view().push(
                UserRecordView {
                    id: old(self).spec_next_id(),
                    email: email@,
                    hashed_password: hashed_password@,
                },
            ) && final(self).users_view() == old(self).users_view().push(
                UserView { id: old(self).spec_next_id(), email: email@ },
            ) && final(self).spec_next_id() == old(self).spec_next_id() + 1),
    {
        let email_owned = String::from_str(email);
        let mut i: usize = 0;
        while i < self.records.len()
            invariant
                i <= self.records.len(),
                email_owned@ == email@,
                forall|j: int|
                    0 <= j < i ==> (#[trigger] self.records_view()[j]).email != email@,
            decreases self.records.len() - i,
        {
            if self.records[i].email == email_owned {
                proof {
                    assert(self.users_view()[i as int].email == email@);
                }
                return Err(StorageError { message: String::from_str("duplicate email") });
            }
            i = i + 1;
        }
        proof {
            assert(!self.has_email(email@)) by {
                assert forall|k: int|
                    0 <= k < self.users_view().len() implies (#[trigger] self.users_view()[
                    k]).email != email@ by {
                    assert(self.users_view()[k].email == self.records_view()[k].email);
                }
            }
        }
        if self.next_id == i64::MAX {
            return Err(StorageError { message: String::from_str("user id space exhausted") });
        }
        let id = self.next_id;
        self.next_id = self.next_id + 1;
        let ghost before = self.records_view();
        self.records.push(
            UserRecord {
                id,
                email: email_owned,
                hashed_password: String::from_str(hashed_password),
            },
        );
        proof {
            assert(self.records_view() =~= before.push(
                UserRecordView { id: id as int, email: email@, hashed_password: hashed_password@ },
            ));
            assert(self.users_view() =~= old(self).users_view().push(
                UserView { id: id as int, email: email@ },
            ));
        }
        Ok(())
    }
}

} // verus!
