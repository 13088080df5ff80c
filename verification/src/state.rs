use vstd::prelude::*;

use crate::error::ContractError;

verus! {

/// The singleton record the contract guards: an opaque byte payload together
/// with the identities that may change it, in insertion order.
pub struct State {
    pub data: Vec<u8>,
    pub admins: Vec<String>,
}

/// The mathematical model of a record: the payload bytes and the admin
/// identities, each identity as its sequence of characters.
#[verifier::ext_equal]
pub ghost struct RecordModel {
    pub data: Seq<u8>,
    pub admins: Seq<Seq<char>>,
}

/// The identities held by `v`, each as its sequence of characters.
pub open spec fn idents(v: Seq<String>) -> Seq<Seq<char>> {
    v.map_values(|s: String| s@)
}

impl View for State {
    type V = RecordModel;

    open spec fn view(&self) -> RecordModel {
        RecordModel { data: self.data@, admins: idents(self.admins@) }
    }
}

/// Whether `caller` is currently one of the admins of `r`.
pub open spec fn has_admin(r: RecordModel, caller: Seq<char>) -> bool {
    r.admins.contains(caller)
}

/// The record after a successful write: the payload is replaced wholesale,
/// the admins are untouched.
pub open spec fn write_model(r: RecordModel, data: Seq<u8>) -> RecordModel {
    RecordModel { data: data, admins: r.admins }
}

/// The record after a successful admin addition: appended at the end when
/// absent, unchanged when already present.
pub open spec fn add_admin_model(r: RecordModel, admin: Seq<char>) -> RecordModel {
    if r.admins.contains(admin) {
        r
    } else {
        RecordModel { data: r.data, admins: r.admins.push(admin) }
    }
}

/// `admins` with every entry equal to `who` dropped, the rest keeping their
/// relative order.
pub open spec fn without_ident(admins: Seq<Seq<char>>, who: Seq<char>) -> Seq<Seq<char>> {
    admins.filter(|s: Seq<char>| s != who)
}

/// The record after a successful admin removal.
pub open spec fn remove_admin_model(r: RecordModel, admin: Seq<char>) -> RecordModel {
    RecordModel { data: r.data, admins: without_ident(r.admins, admin) }
}

/// The handle to the one durable storage slot holding the record.
///
/// The durable substrate itself is an external collaborator of the contract;
/// this handle models the single well-known slot it grants us: empty until a
/// record is first saved, and overwritten wholesale by each save. The host
/// serializes calls, so a load-transform-save sequence through this handle is
/// atomic for every outside observer.
pub struct Store {
    record: Option<State>,
}

impl View for Store {
    type V = Option<RecordModel>;

    closed spec fn view(&self) -> Option<RecordModel> {
        match self.record {
            Option::None => None,
            Option::Some(s) => Some(s@),
        }
    }
}

impl Store {
    /// A fresh slot, with no record ever saved.
    pub fn new() -> (s: Store)
        ensures
            s@ is None,
    {
        Store { record: None }
    }

    /// Loads the current record; fails with `NotFound` when none was saved.
    pub fn load(&self) -> (r: Result<&State, ContractError>)
        ensures
            match r {
                Ok(state) => self@ == Some(state@),
                Err(e) => self@ is None && e == ContractError::NotFound,
            },
    {
        match &self.record {
            Some(state) => Ok(state),
            None => Err(ContractError::NotFound),
        }
    }

    /// Unconditionally overwrites the stored record.
    pub fn save(&mut self, state: State)
        ensures
            final(self)@ == Some(state@),
    {
        self.record = Some(state);
    }

    /// The atomic mutation primitive all handlers go through: load the
    /// record, apply `transform`, and only when it succeeds persist the new
    /// record and hand it back. On any failure the slot is left exactly as
    /// it was.
    pub fn update<F: FnOnce(&State) -> Result<State, ContractError>>(
        &mut self,
        transform: F,
    ) -> (r: Result<State, ContractError>)
        requires
            forall|s: &State| #[trigger] call_requires(transform, (s,)),
        ensures
            old(self)@ is None ==> r == Err::<State, ContractError>(ContractError::NotFound)
                && *final(self) == *old(self),
            old(self)@ matches Some(rec) ==> match r {
                Ok(st) => final(self)@ == Some(st@) && exists|s0: State, s1: State|
                    s0@ == rec && #[trigger] call_ensures(
                        transform,
                        (&s0,),
                        Ok::<State, ContractError>(s1),
                    ) && final(self)@ == Some(s1@),
                Err(e) => *final(self) == *old(self) && exists|s0: State|
                    s0@ == rec && #[trigger] call_ensures(
                        transform,
                        (&s0,),
                        Err::<State, ContractError>(e),
                    ),
            },
    {
        match &self.record {
            None => Err(ContractError::NotFound),
            Some(state) => match transform(state) {
                Ok(new_state) => {
                    let saved = clone_state(&new_state);
                    self.record = Some(new_state);
                    Ok(saved)
                },
                Err(e) => Err(e),
            },
        }
    }
}

/// Whether `v` holds an identity equal to `x`.
pub(crate) fn contains_ident(v: &Vec<String>, x: &String) -> (b: bool)
    ensures
        b == idents(v@).contains(x@),
{
    let mut i: usize = 0;
    while i < v.len()
        invariant
            i <= v.len(),
            forall|j: int| 0 <= j < i ==> #[trigger] idents(v@)[j] != x@,
        decreases v.len() - i,
    {
        if v[i] == *x {
            assert(idents(v@)[i as int] == x@);
            return true;
        }
        i += 1;
    }
    proof {
        if idents(v@).contains(x@) {
            let j = choose|j: int| 0 <= j < idents(v@).len() && idents(v@)[j] == x@;
            assert(idents(v@)[j] != x@);
        }
    }
    false
}

/// An element-by-element copy of a byte payload.
pub(crate) fn copy_bytes(v: &Vec<u8>) -> (r: Vec<u8>)
    ensures
        r@ == v@,
{
    let mut r: Vec<u8> = Vec::new();
    let mut i: usize = 0;
    while i < v.len()
        invariant
            i <= v.len(),
            r@ == v@.take(i as int),
        decreases v.len() - i,
    {
        r.push(v[i]);
        assert(r@ =~= v@.take(i + 1));
        i += 1;
    }
    assert(v@.take(v.len() as int) =~= v@);
    r
}

/// An element-by-element copy of a record.
pub(crate) fn clone_state(s: &State) -> (r: State)
    ensures
        r@ == s@,
{
    State { data: copy_bytes(&s.data), admins: clone_idents(&s.admins) }
}

/// An element-by-element copy of an identity list.
pub(crate) fn clone_idents(v: &Vec<String>) -> (r: Vec<String>)
    ensures
        r@ == v@,
{
    let mut r: Vec<String> = Vec::new();
    let mut i: usize = 0;
    while i < v.len()
        invariant
            i <= v.len(),
            r@ == v@.take(i as int),
        decreases v.len() - i,
    {
        r.push(v[i].clone());
        assert(r@ =~= v@.take(i + 1));
        i += 1;
    }
    assert(v@.take(v.len() as int) =~= v@);
    r
}

/// One unfolding of `without_ident` at the back of a list.
pub(crate) proof fn lemma_without_ident_push(s: Seq<Seq<char>>, a: Seq<char>, who: Seq<char>)
    ensures
        without_ident(s.push(a), who) == if a != who {
            without_ident(s, who).push(a)
        } else {
            without_ident(s, who)
        },
{
    reveal(Seq::filter);
    assert(s.push(a).drop_last() =~= s);
    assert(s.push(a).last() == a);
}

/// A copy of `v` keeping only the identities different from `x`, in order.
pub(crate) fn remove_ident(v: &Vec<String>, x: &String) -> (r: Vec<String>)
    ensures
        idents(r@) == without_ident(idents(v@), x@),
{
    let mut r: Vec<String> = Vec::new();
    let mut i: usize = 0;
    while i < v.len()
        invariant
            i <= v.len(),
            idents(r@) == without_ident(idents(v@).take(i as int), x@),
        decreases v.len() - i,
    {
        proof {
            assert(idents(v@).take(i + 1) =~= idents(v@).take(i as int).push(idents(v@)[i as int]));
            lemma_without_ident_push(idents(v@).take(i as int), idents(v@)[i as int], x@);
        }
        if v[i] != *x {
            r.push(v[i].clone());
            assert(idents(r@) =~= without_ident(idents(v@).take(i as int), x@).push(
                idents(v@)[i as int],
            ));
        }
        i += 1;
    }
    assert(idents(v@).take(v.len() as int) =~= idents(v@));
    r
}

} // verus!
