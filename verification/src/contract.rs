use vstd::prelude::*;

use crate::error::ContractError;
use crate::msg::{
    add_admin_attrs, instantiate_attrs, remove_admin_attrs, write_attrs, Attribute, ExecuteMsg,
    GetAdminResponse, GetWriteResponse, InstantiateMsg, QueryAnswer, QueryMsg, Response,
};
use crate::state::{
    add_admin_model, clone_idents, contains_ident, copy_bytes, has_admin, idents,
    remove_admin_model, remove_ident, write_model, RecordModel, State, Store,
};

verus! {

/// One attribute of a success descriptor.
fn attr(key: &str, value: String) -> (a: Attribute)
    ensures
        a@ == (key@, value@),
{
    Attribute { key: key.to_owned(), value }
}

/// Creates the record: the payload from the message, the creator as the one
/// and only admin.
pub fn instantiate(store: &mut Store, caller: &String, msg: InstantiateMsg) -> (r: Result<
    Response,
    ContractError,
>)
    ensures
        final(store)@ == Some(RecordModel { data: msg.data@, admins: seq![caller@] }),
        r matches Ok(resp) && resp@ == instantiate_attrs(caller@),
{
    let mut admins: Vec<String> = Vec::new();
    admins.push(caller.clone());
    proof {
        assert(idents(admins@) =~= seq![caller@]);
    }
    store.save(State { data: msg.data, admins });
    let mut attributes: Vec<Attribute> = Vec::new();
    attributes.push(attr("method", "instantiate".to_owned()));
    attributes.push(attr("admin", caller.clone()));
    let resp = Response { attributes };
    proof {
        assert(resp@ =~= instantiate_attrs(caller@));
    }
    Ok(resp)
}

/// Everything a write from `caller` guarantees: seen from the record models
/// before (`pre`) and after (`post`) the call and its result `r`.
pub open spec fn write_outcome(
    pre: Option<RecordModel>,
    caller: Seq<char>,
    data: Seq<u8>,
    post: Option<RecordModel>,
    r: Result<Response, ContractError>,
) -> bool {
    match pre {
        None => post == pre && r == Err::<Response, ContractError>(ContractError::NotFound),
        Some(rec) => if has_admin(rec, caller) {
            &&& post == Some(write_model(rec, data))
            &&& r matches Ok(resp) && resp@ == write_attrs()
        } else {
            &&& post == pre
            &&& r == Err::<Response, ContractError>(ContractError::Unauthorized)
        },
    }
}

/// Replaces the record's payload with `data` wholesale, provided `caller` is
/// currently an admin; the admin list is untouched.
pub fn update(store: &mut Store, caller: &String, data: Vec<u8>) -> (r: Result<
    Response,
    ContractError,
>)
    ensures
        write_outcome(old(store)@, caller@, data@, final(store)@, r),
        r is Err ==> *final(store) == *old(store),
{
    let ghost data_view = data@;
    let transform = |state: &State| -> (res: Result<State, ContractError>)
        ensures
            match res {
                Ok(ns) => has_admin(state@, caller@) && ns@ == write_model(state@, data_view),
                Err(e) => e == ContractError::Unauthorized && !has_admin(state@, caller@),
            },
        {
            if contains_ident(&state.admins, caller) {
                let admins = clone_idents(&state.admins);
                Ok(State { data, admins })
            } else {
                Err(ContractError::Unauthorized)
            }
        };
    match store.update(transform) {
        Ok(_) => {
            proof {
                let rec = old(store)@->Some_0;
                let (s0, s1): (State, State) = choose|s0: State, s1: State|
                    s0@ == rec && #[trigger] call_ensures(
                        transform,
                        (&s0,),
                        Ok::<State, ContractError>(s1),
                    ) && store@ == Some(s1@);
                assert(store@ == Some(write_model(rec, data_view)));
            }
            let mut attributes: Vec<Attribute> = Vec::new();
            attributes.push(attr("action", "update".to_owned()));
            let resp = Response { attributes };
            proof {
                assert(resp@ =~= write_attrs());
            }
            Ok(resp)
        },
        Err(e) => {
            proof {
                if old(store)@ is Some {
                    let rec = old(store)@->Some_0;
                    let s0: State = choose|s0: State|
                        s0@ == rec && #[trigger] call_ensures(
                            transform,
                            (&s0,),
                            Err::<State, ContractError>(e),
                        );
                    assert(!has_admin(rec, caller@));
                }
            }
            Err(e)
        },
    }
}

/// What the contracts see of an address check: the canonical form where the
/// input passed, `None` where it was malformed.
pub open spec fn opt_ident(o: Option<String>) -> Option<Seq<char>> {
    match o {
        Option::None => None,
        Option::Some(s) => Some(s@),
    }
}

/// Everything an admin addition from `caller` guarantees, where `admin` is
/// the validator's verdict on the proposed identity.
pub open spec fn add_admin_outcome(
    pre: Option<RecordModel>,
    caller: Seq<char>,
    admin: Option<Seq<char>>,
    post: Option<RecordModel>,
    r: Result<Response, ContractError>,
) -> bool {
    match admin {
        None => post == pre && r == Err::<Response, ContractError>(ContractError::InvalidAddress),
        Some(a) => match pre {
            None => post == pre && r == Err::<Response, ContractError>(ContractError::NotFound),
            Some(rec) => if has_admin(rec, caller) {
                &&& post == Some(add_admin_model(rec, a))
                &&& r matches Ok(resp) && resp@ == add_admin_attrs(a)
            } else {
                &&& post == pre
                &&& r == Err::<Response, ContractError>(ContractError::Unauthorized)
            },
        },
    }
}

/// Everything an admin removal from `caller` guarantees, where `admin` is
/// the validator's verdict on the identity to remove.
pub open spec fn remove_admin_outcome(
    pre: Option<RecordModel>,
    caller: Seq<char>,
    admin: Option<Seq<char>>,
    post: Option<RecordModel>,
    r: Result<Response, ContractError>,
) -> bool {
    match admin {
        None => post == pre && r == Err::<Response, ContractError>(ContractError::InvalidAddress),
        Some(a) => match pre {
            None => post == pre && r == Err::<Response, ContractError>(ContractError::NotFound),
            Some(rec) => if has_admin(rec, caller) {
                &&& post == Some(remove_admin_model(rec, a))
                &&& r matches Ok(resp) && resp@ == remove_admin_attrs(a)
            } else {
                &&& post == pre
                &&& r == Err::<Response, ContractError>(ContractError::Unauthorized)
            },
        },
    }
}

/// Appends a validated identity to the admins, provided `caller` is
/// currently an admin. Adding an identity that is already present changes
/// nothing and still succeeds.
///
/// Identity validation is delegated to an external collaborator; `admin`
/// carries its answer: the canonical form, or `None` for a malformed input.
pub fn add_admin(store: &mut Store, caller: &String, admin: Option<String>) -> (r: Result<
    Response,
    ContractError,
>)
    ensures
        add_admin_outcome(old(store)@, caller@, opt_ident(admin), final(store)@, r),
        r is Err ==> *final(store) == *old(store),
{
    let admin_s = match admin {
        Some(a) => a,
        None => {
            return Err(ContractError::InvalidAddress);
        },
    };
    let admin_attr = admin_s.clone();
    let ghost admin_view = admin_s@;
    let transform = |state: &State| -> (res: Result<State, ContractError>)
        ensures
            match res {
                Ok(ns) => has_admin(state@, caller@) && ns@ == add_admin_model(state@, admin_view),
                Err(e) => e == ContractError::Unauthorized && !has_admin(state@, caller@),
            },
        {
            if contains_ident(&state.admins, caller) {
                let mut admins = clone_idents(&state.admins);
                let data = copy_bytes(&state.data);
                if !contains_ident(&admins, &admin_s) {
                    admins.push(admin_s);
                    proof {
                        assert(idents(admins@) =~= state@.admins.push(admin_view));
                    }
                }
                Ok(State { data, admins })
            } else {
                Err(ContractError::Unauthorized)
            }
        };
    match store.update(transform) {
        Ok(_) => {
            proof {
                let rec = old(store)@->Some_0;
                let (s0, s1): (State, State) = choose|s0: State, s1: State|
                    s0@ == rec && #[trigger] call_ensures(
                        transform,
                        (&s0,),
                        Ok::<State, ContractError>(s1),
                    ) && store@ == Some(s1@);
                assert(store@ == Some(add_admin_model(rec, admin_view)));
            }
            let mut attributes: Vec<Attribute> = Vec::new();
            attributes.push(attr("action", "add_admin".to_owned()));
            attributes.push(attr("new_admin", admin_attr));
            let resp = Response { attributes };
            proof {
                assert(resp@ =~= add_admin_attrs(admin_view));
            }
            Ok(resp)
        },
        Err(e) => {
            proof {
                if old(store)@ is Some {
                    let rec = old(store)@->Some_0;
                    let s0: State = choose|s0: State|
                        s0@ == rec && #[trigger] call_ensures(
                            transform,
                            (&s0,),
                            Err::<State, ContractError>(e),
                        );
                    assert(!has_admin(rec, caller@));
                }
            }
            Err(e)
        },
    }
}

/// Removes every entry equal to a validated identity from the admins,
/// provided `caller` is currently an admin. Removing an identity that is not
/// present changes nothing and still succeeds.
///
/// Identity validation is delegated exactly as in [`add_admin`].
pub fn remove_admin(store: &mut Store, caller: &String, admin: Option<String>) -> (r: Result<
    Response,
    ContractError,
>)
    ensures
        remove_admin_outcome(old(store)@, caller@, opt_ident(admin), final(store)@, r),
        r is Err ==> *final(store) == *old(store),
{
    let admin_s = match admin {
        Some(a) => a,
        None => {
            return Err(ContractError::InvalidAddress);
        },
    };
    let ghost admin_view = admin_s@;
    let transform = |state: &State| -> (res: Result<State, ContractError>)
        ensures
            match res {
                Ok(ns) => has_admin(state@, caller@) && ns@ == remove_admin_model(
                    state@,
                    admin_view,
                ),
                Err(e) => e == ContractError::Unauthorized && !has_admin(state@, caller@),
            },
        {
            if contains_ident(&state.admins, caller) {
                let admins = remove_ident(&state.admins, &admin_s);
                let data = copy_bytes(&state.data);
                Ok(State { data, admins })
            } else {
                Err(ContractError::Unauthorized)
            }
        };
    match store.update(transform) {
        Ok(_) => {
            proof {
                let rec = old(store)@->Some_0;
                let (s0, s1): (State, State) = choose|s0: State, s1: State|
                    s0@ == rec && #[trigger] call_ensures(
                        transform,
                        (&s0,),
                        Ok::<State, ContractError>(s1),
                    ) && store@ == Some(s1@);
                assert(store@ == Some(remove_admin_model(rec, admin_view)));
            }
            let mut attributes: Vec<Attribute> = Vec::new();
            attributes.push(attr("action", "remove_admin".to_owned()));
            attributes.push(attr("removed_admin", admin_s));
            let resp = Response { attributes };
            proof {
                assert(resp@ =~= remove_admin_attrs(admin_view));
            }
            Ok(resp)
        },
        Err(e) => {
            proof {
                if old(store)@ is Some {
                    let rec = old(store)@->Some_0;
                    let s0: State = choose|s0: State|
                        s0@ == rec && #[trigger] call_ensures(
                            transform,
                            (&s0,),
                            Err::<State, ContractError>(e),
                        );
                    assert(!has_admin(rec, caller@));
                }
            }
            Err(e)
        },
    }
}

/// Dispatches a mutating operation to its handler.
///
/// `admin_canonical` is the external validator's verdict on the admin
/// identity named in the message — the canonical form, or `None` where the
/// validator rejected it; it is ignored for `Write`, which names none.
///
/// The authorization gate holds for every operation: with a record in place
/// and a validated identity, the call succeeds exactly when `caller` is an
/// admin at call time, and a caller outside the admin set is turned away
/// with `Unauthorized`, the record untouched.
pub fn execute(
    store: &mut Store,
    caller: &String,
    msg: ExecuteMsg,
    admin_canonical: Option<String>,
) -> (r: Result<Response, ContractError>)
    ensures
        (match msg {
            ExecuteMsg::Write { data } => write_outcome(
                old(store)@,
                caller@,
                data@,
                final(store)@,
                r,
            ),
            ExecuteMsg::AddAdmin { .. } => add_admin_outcome(
                old(store)@,
                caller@,
                opt_ident(admin_canonical),
                final(store)@,
                r,
            ),
            ExecuteMsg::RemoveAdmin { .. } => remove_admin_outcome(
                old(store)@,
                caller@,
                opt_ident(admin_canonical),
                final(store)@,
                r,
            ),
        }),
        r is Err ==> *final(store) == *old(store),
        old(store)@ matches Some(rec) ==> ((msg matches ExecuteMsg::Write { .. }
            || admin_canonical is Some) ==> ((r is Ok) <==> has_admin(rec, caller@))),
        old(store)@ matches Some(rec) ==> ((msg matches ExecuteMsg::Write { .. }
            || admin_canonical is Some) && !has_admin(rec, caller@) ==> r == Err::<
            Response,
            ContractError,
        >(ContractError::Unauthorized)),
{
    match msg {
        ExecuteMsg::Write { data } => update(store, caller, data),
        ExecuteMsg::AddAdmin { admin: _ } => add_admin(store, caller, admin_canonical),
        ExecuteMsg::RemoveAdmin { admin: _ } => remove_admin(store, caller, admin_canonical),
    }
}

/// Pure read of the stored payload.
pub fn data(store: &Store) -> (r: Result<GetWriteResponse, ContractError>)
    ensures
        match store@ {
            Some(rec) => r matches Ok(resp) && resp.data@ == rec.data,
            None => r == Err::<GetWriteResponse, ContractError>(ContractError::NotFound),
        },
{
    match store.load() {
        Ok(state) => Ok(GetWriteResponse { data: copy_bytes(&state.data) }),
        Err(e) => Err(e),
    }
}

/// Pure read of the admin identities, in stored order.
pub fn admins(store: &Store) -> (r: Result<GetAdminResponse, ContractError>)
    ensures
        match store@ {
            Some(rec) => r matches Ok(resp) && idents(resp.admins@) == rec.admins,
            None => r == Err::<GetAdminResponse, ContractError>(ContractError::NotFound),
        },
{
    match store.load() {
        Ok(state) => Ok(GetAdminResponse { admins: clone_idents(&state.admins) }),
        Err(e) => Err(e),
    }
}

/// Dispatches a read operation to its handler.
pub fn query(store: &Store, msg: QueryMsg) -> (r: Result<QueryAnswer, ContractError>)
    ensures
        match msg {
            QueryMsg::GetData {  } => match store@ {
                Some(rec) => r matches Ok(ans) && ans matches QueryAnswer::Data(resp)
                    && resp.data@ == rec.data,
                None => r == Err::<QueryAnswer, ContractError>(ContractError::NotFound),
            },
            QueryMsg::GetAdmins {  } => match store@ {
                Some(rec) => r matches Ok(ans) && ans matches QueryAnswer::Admins(resp) && idents(
                    resp.admins@,
                ) == rec.admins,
                None => r == Err::<QueryAnswer, ContractError>(ContractError::NotFound),
            },
        },
{
    match msg {
        QueryMsg::GetData {  } => match data(store) {
            Ok(resp) => Ok(QueryAnswer::Data(resp)),
            Err(e) => Err(e),
        },
        QueryMsg::GetAdmins {  } => match admins(store) {
            Ok(resp) => Ok(QueryAnswer::Admins(resp)),
            Err(e) => Err(e),
        },
    }
}

} // verus!
