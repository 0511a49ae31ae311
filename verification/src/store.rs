//! The verified model of the user collection.
//!
//! The service keeps its user documents in one collection and performs six
//! operations on it: insert, find-one by id, find-all, update by id,
//! delete-one by id and field-equality search. `UserStore` states exactly
//! what each operation returns and how it changes the collection, over a
//! view of the collection as a sequence of document views. Where several
//! documents bear the same id, every by-id operation acts on the first,
//! as a driver's find-one / update-one / delete-one do.

use vstd::prelude::*;

use crate::model::DbError;
use crate::model::Filter;
use crate::model::User;
use crate::model::UserView;

verus! {

/// The collection of user documents, in insertion order.
pub struct UserStore {
    pub users: Vec<User>,
}

impl View for UserStore {
    type V = Seq<UserView>;

    open spec fn view(&self) -> Seq<UserView> {
        self.users@.map_values(|u: User| u@)
    }
}

/// The index of the first document whose `id` equals `id`, or `s.len()`
/// when no document does.
pub open spec fn first_match(s: Seq<UserView>, id: Seq<char>) -> int
    decreases s.len(),
{
    if s.len() == 0 {
        0
    } else if s[0].id == id {
        0
    } else {
        1 + first_match(s.skip(1), id)
    }
}

/// What `first_match` returns: an index in range that bears the id and is
/// preceded by no other that does, or the length when the id is absent.
pub proof fn lemma_first_match(s: Seq<UserView>, id: Seq<char>)
    ensures
        0 <= first_match(s, id) <= s.len(),
        first_match(s, id) < s.len() ==> s[first_match(s, id)].id == id,
        forall|j: int| 0 <= j < first_match(s, id) ==> s[j].id != id,
    decreases s.len(),
{
    if s.len() == 0 {
    } else if s[0].id == id {
    } else {
        lemma_first_match(s.skip(1), id);
        assert forall|j: int| 0 <= j < first_match(s, id) implies s[j].id != id by {
            if j > 0 {
                assert(s.skip(1)[j - 1] == s[j]);
            }
        }
        if first_match(s, id) < s.len() {
            assert(s.skip(1)[first_match(s.skip(1), id)] == s[first_match(s, id)]);
        }
    }
}

/// An index that bears the id and is preceded by no match is the first match.
pub proof fn lemma_first_match_at(s: Seq<UserView>, id: Seq<char>, i: int)
    requires
        0 <= i < s.len(),
        s[i].id == id,
        forall|j: int| 0 <= j < i ==> s[j].id != id,
    ensures
        first_match(s, id) == i,
{
    lemma_first_match(s, id);
}

/// When no index bears the id, `first_match` is the length.
pub proof fn lemma_no_match(s: Seq<UserView>, id: Seq<char>)
    requires
        forall|j: int| 0 <= j < s.len() ==> s[j].id != id,
    ensures
        first_match(s, id) == s.len(),
{
    lemma_first_match(s, id);
}

/// The result of a find-one by id: the first document bearing the id,
/// or nothing.
pub open spec fn spec_get(s: Seq<UserView>, id: Seq<char>) -> Option<UserView> {
    if first_match(s, id) < s.len() {
        Some(s[first_match(s, id)])
    } else {
        None
    }
}

/// The collection after an update-one by id: the first document bearing
/// `id` is replaced wholesale by `nv`; absent a match nothing changes.
pub open spec fn spec_update(s: Seq<UserView>, id: Seq<char>, nv: UserView) -> Seq<UserView> {
    if first_match(s, id) < s.len() {
        s.update(first_match(s, id), nv)
    } else {
        s
    }
}

/// The collection after a delete-one by id: the first document bearing
/// `id` is removed; absent a match nothing changes.
pub open spec fn spec_delete(s: Seq<UserView>, id: Seq<char>) -> Seq<UserView> {
    if first_match(s, id) < s.len() {
        s.remove(first_match(s, id))
    } else {
        s
    }
}

/// The value of the named field of a document, for the five field names a
/// document has; any other name selects nothing, as a filter on an absent
/// field matches no document.
pub open spec fn field_of(u: UserView, field: Seq<char>) -> Option<Seq<char>> {
    if field == "id"@ {
        Some(u.id)
    } else if field == "first_name"@ {
        Some(u.first_name)
    } else if field == "last_name"@ {
        Some(u.last_name)
    } else if field == "username"@ {
        Some(u.username)
    } else if field == "email"@ {
        Some(u.email)
    } else {
        None
    }
}

/// The documents whose named field equals the key, in collection order.
pub open spec fn spec_search(s: Seq<UserView>, field: Seq<char>, key: Seq<char>) -> Seq<UserView>
    decreases s.len(),
{
    if s.len() == 0 {
        Seq::empty()
    } else if field_of(s.last(), field) == Some(key) {
        spec_search(s.drop_last(), field, key).push(s.last())
    } else {
        spec_search(s.drop_last(), field, key)
    }
}

/// The acknowledgment of a delete-one: how many documents were removed.
pub struct DeleteAck {
    pub deleted_count: u64,
}

impl UserStore {
    /// An empty collection.
    pub fn new() -> (r: UserStore)
        ensures
            r@ == Seq::<UserView>::empty(),
    {
        let r = UserStore { users: Vec::new() };
        assert(r@ =~= Seq::<UserView>::empty());
        r
    }

    /// Insert: appends the document as given. Duplicate ids are not
    /// checked; a second insert with the same id stores a second document.
    pub fn create_user(&mut self, request_data: User)
        ensures
            final(self)@ == old(self)@.push(request_data@),
    {
        let ghost before = self@;
        let ghost uv = request_data@;
        self.users.push(request_data);
        assert(self@ =~= before.push(uv));
    }

    /// The index of the first document whose `id` equals `id`, or the
    /// collection length when no document bears it.
    fn find_index(&self, id: &String) -> (i: usize)
        ensures
            i as int == first_match(self@, id@),
    {
        let n = self.users.len();
        let mut i: usize = 0;
        while i < n
            invariant
                n == self.users.len(),
                0 <= i <= n,
                forall|j: int| 0 <= j < i ==> self@[j].id != id@,
            decreases n - i,
        {
            if self.users[i].id == *id {
                proof {
                    lemma_first_match_at(self@, id@, i as int);
                }
                return i;
            }
            i += 1;
        }
        proof {
            lemma_no_match(self@, id@);
        }
        n
    }

    /// Find-one by id: the first document whose `id` equals `id`, copied
    /// out; an absent id is an error, never an empty success.
    pub fn get_user(&self, id: &String) -> (r: Result<User, DbError>)
        ensures
            match r {
                Ok(u) => spec_get(self@, id@) == Some(u@),
                Err(e) => spec_get(self@, id@) is None && e == DbError::NotFound,
            },
    {
        proof {
            lemma_first_match(self@, id@);
        }
        let i = self.find_index(id);
        if i < self.users.len() {
            Ok(self.users[i].duplicate())
        } else {
            Err(DbError::NotFound)
        }
    }

    /// Update by id, then read back: replaces every field of the first
    /// document whose `id` equals `user_id` with the fields of
    /// `request_data`, then returns the first document whose `id` equals
    /// `uid` in the updated collection; an absent `uid` is an error.
    /// A missing `user_id` leaves the collection unchanged, as an
    /// update-one that matched nothing does.
    pub fn update_user(&mut self, user_id: &String, request_data: User, uid: &String) -> (r:
        Result<User, DbError>)
        ensures
            final(self)@ == spec_update(old(self)@, user_id@, request_data@),
            match r {
                Ok(u) => spec_get(final(self)@, uid@) == Some(u@),
                Err(e) => spec_get(final(self)@, uid@) is None && e == DbError::NotFound,
            },
    {
        let ghost before = self@;
        let ghost nv = request_data@;
        let i = self.find_index(user_id);
        proof {
            lemma_first_match(before, user_id@);
        }
        if i < self.users.len() {
            self.users.set(i, request_data);
            assert(self@ =~= before.update(i as int, nv));
        }
        assert(self@ == spec_update(before, user_id@, nv));
        self.get_user(uid)
    }

    /// Find-all: every document, in collection order.
    pub fn get_all_users(&self) -> (r: Vec<User>)
        ensures
            r@.map_values(|u: User| u@) == self@,
    {
        let n = self.users.len();
        let mut users: Vec<User> = Vec::new();
        let mut i: usize = 0;
        while i < n
            invariant
                n == self.users.len(),
                0 <= i <= n,
                users@.map_values(|u: User| u@) == self@.subrange(0, i as int),
            decreases n - i,
        {
            let ghost sofar = users@.map_values(|u: User| u@);
            users.push(self.users[i].duplicate());
            assert(users@.map_values(|u: User| u@) =~= sofar.push(self@[i as int]));
            assert(sofar.push(self@[i as int]) =~= self@.subrange(0, i as int + 1));
            i += 1;
        }
        assert(self@.subrange(0, n as int) =~= self@);
        users
    }

    /// Delete-one by id: removes the first document whose `id` equals
    /// `id`. The acknowledgment counts the removals: one when a document
    /// matched, zero when none did — matching nothing is not an error.
    pub fn delete_user(&mut self, id: &String) -> (r: DeleteAck)
        ensures
            final(self)@ == spec_delete(old(self)@, id@),
            r.deleted_count == if first_match(old(self)@, id@) < old(self)@.len() {
                1u64
            } else {
                0u64
            },
    {
        let ghost before = self@;
        let i = self.find_index(id);
        proof {
            lemma_first_match(before, id@);
        }
        if i < self.users.len() {
            self.users.remove(i);
            assert(self@ =~= before.remove(i as int));
            DeleteAck { deleted_count: 1 }
        } else {
            DeleteAck { deleted_count: 0 }
        }
    }

    /// Field-equality search: every document whose named field equals the
    /// key, in collection order. A name that is no user field matches no
    /// document.
    pub fn search_users(&self, filter: &Filter) -> (r: Vec<User>)
        ensures
            r@.map_values(|u: User| u@) == spec_search(self@, filter.filter_field@,
                filter.filter_key@),
    {
        let n = self.users.len();
        let mut out: Vec<User> = Vec::new();
        let mut i: usize = 0;
        while i < n
            invariant
                n == self.users.len(),
                0 <= i <= n,
                out@.map_values(|u: User| u@) == spec_search(self@.subrange(0, i as int),
                    filter.filter_field@, filter.filter_key@),
            decreases n - i,
        {
            let ghost sofar = out@.map_values(|u: User| u@);
            let hit = field_matches(&self.users[i], filter);
            if hit {
                out.push(self.users[i].duplicate());
                assert(out@.map_values(|u: User| u@) =~= sofar.push(self@[i as int]));
            }
            proof {
                let pre = self@.subrange(0, i as int + 1);
                assert(pre.drop_last() =~= self@.subrange(0, i as int));
                assert(pre.last() == self@[i as int]);
            }
            i += 1;
        }
        assert(self@.subrange(0, n as int) =~= self@);
        out
    }
}

/// What the search returns is exactly the collection filtered to the
/// documents whose named field equals the key.
pub proof fn lemma_search_is_filter(s: Seq<UserView>, field: Seq<char>, key: Seq<char>)
    ensures
        spec_search(s, field, key) == s.filter(
            |u: UserView| field_of(u, field) == Some(key),
        ),
    decreases s.len(),
{
    let pred = |u: UserView| field_of(u, field) == Some(key);
    if s.len() == 0 {
        assert(spec_search(s, field, key) =~= s.filter(pred));
    } else {
        lemma_search_is_filter(s.drop_last(), field, key);
        assert(spec_search(s.drop_last(), field, key) == s.drop_last().filter(pred));
        reveal_with_fuel(Seq::filter, 2);
        if pred(s.last()) {
            assert(s.filter(pred) == s.drop_last().filter(pred).push(s.last()));
        } else {
            assert(s.filter(pred) == s.drop_last().filter(pred));
        }
    }
}

/// The collection after inserting the documents of `us` one by one.
pub open spec fn push_all(s: Seq<UserView>, us: Seq<UserView>) -> Seq<UserView>
    decreases us.len(),
{
    if us.len() == 0 {
        s
    } else {
        push_all(s.push(us[0]), us.skip(1))
    }
}

/// Inserting documents one by one appends them in order.
pub proof fn lemma_push_all(s: Seq<UserView>, us: Seq<UserView>)
    ensures
        push_all(s, us) == s + us,
    decreases us.len(),
{
    if us.len() == 0 {
        assert(push_all(s, us) =~= s + us);
    } else {
        lemma_push_all(s.push(us[0]), us.skip(1));
        assert(s.push(us[0]) + us.skip(1) =~= s + us);
    }
}

/// Law: a document just created is read back intact by its id, provided no
/// document already in the collection bears that id. (The id the service
/// assigns is a fresh random identifier; sameness of ids is not checked by
/// the store itself, so the law states freshness as its premise.)
pub proof fn lemma_create_then_get(s: Seq<UserView>, u: UserView)
    requires
        first_match(s, u.id) == s.len(),
    ensures
        spec_get(s.push(u), u.id) == Some(u),
{
    lemma_first_match(s, u.id);
    assert forall|j: int| 0 <= j < s.len() implies s.push(u)[j].id != u.id by {
        assert(s.push(u)[j] == s[j]);
    }
    lemma_first_match_at(s.push(u), u.id, s.len() as int);
}

/// Law: listing the collection after creating any number of documents
/// shows a collection longer by that number, holding every document that
/// was there before and every document just created, in order.
pub proof fn lemma_list_after_create_many(s: Seq<UserView>, us: Seq<UserView>)
    ensures
        push_all(s, us).len() == s.len() + us.len(),
        forall|j: int| 0 <= j < s.len() ==> push_all(s, us)[j] == s[j],
        forall|k: int| 0 <= k < us.len() ==> push_all(s, us)[s.len() + k] == us[k],
{
    lemma_push_all(s, us);
}

/// Law: after an update by id whose replacement document carries that same
/// id (as the service's update route always arranges), a read by that id
/// returns the replacement — every field shows the new value, none the old.
pub proof fn lemma_update_then_get(s: Seq<UserView>, id: Seq<char>, nv: UserView)
    requires
        nv.id == id,
        first_match(s, id) < s.len(),
    ensures
        spec_get(spec_update(s, id, nv), id) == Some(nv),
{
    lemma_first_match(s, id);
    let k = first_match(s, id);
    let t = s.update(k, nv);
    assert forall|j: int| 0 <= j < k implies t[j].id != id by {
        assert(t[j] == s[j]);
    }
    lemma_first_match_at(t, id, k);
}

/// Law: after deleting by an id that at most one document bears, a read by
/// that id fails — it does not return an empty success. (With two documents
/// bearing one id, delete-one removes only the first, so the premise is
/// needed.)
pub proof fn lemma_delete_then_get(s: Seq<UserView>, id: Seq<char>)
    requires
        forall|i: int, j: int|
            0 <= i < s.len() && 0 <= j < s.len() && s[i].id == id && s[j].id == id ==> i == j,
    ensures
        spec_get(spec_delete(s, id), id) is None,
{
    lemma_first_match(s, id);
    let k = first_match(s, id);
    if k < s.len() {
        let t = s.remove(k);
        assert forall|j: int| 0 <= j < t.len() implies t[j].id != id by {
            if j < k {
                assert(t[j] == s[j]);
            } else {
                assert(t[j] == s[j + 1]);
                if s[j + 1].id == id {
                    assert(j + 1 == k);
                }
            }
        }
        lemma_no_match(t, id);
        lemma_first_match(t, id);
    }
}

/// Whether the document's field named by the filter equals the filter key.
pub fn field_matches(u: &User, filter: &Filter) -> (b: bool)
    ensures
        b == (field_of(u@, filter.filter_field@) == Some(filter.filter_key@)),
{
    if filter.filter_field == String::from_str("id") {
        u.id == filter.filter_key
    } else if filter.filter_field == String::from_str("first_name") {
        u.first_name == filter.filter_key
    } else if filter.filter_field == String::from_str("last_name") {
        u.last_name == filter.filter_key
    } else if filter.filter_field == String::from_str("username") {
        u.username == filter.filter_key
    } else if filter.filter_field == String::from_str("email") {
        u.email == filter.filter_key
    } else {
        false
    }
}

} // verus!
