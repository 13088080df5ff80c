use cw_writer::contract::{add_admin, admins, data, execute, instantiate, remove_admin, update};
use cw_writer::error::ContractError;
use cw_writer::msg::{ExecuteMsg, InstantiateMsg};
use cw_writer::state::Store;

fn fresh(creator: &str, payload: Vec<u8>) -> Store {
    let mut store = Store::new();
    instantiate(&mut store, &creator.to_string(), InstantiateMsg { data: payload }).unwrap();
    store
}

#[test]
fn write_same_data_twice_keeps_it() {
    let mut store = fresh("alice", vec![1, 2, 3]);
    let alice = "alice".to_string();
    update(&mut store, &alice, vec![5, 6]).unwrap();
    update(&mut store, &alice, vec![5, 6]).unwrap();
    assert_eq!(vec![5, 6], data(&store).unwrap().data);
}

#[test]
fn last_write_wins() {
    let mut store = fresh("alice", vec![1]);
    let alice = "alice".to_string();
    update(&mut store, &alice, vec![5, 6]).unwrap();
    update(&mut store, &alice, vec![7]).unwrap();
    assert_eq!(vec![7], data(&store).unwrap().data);
}

#[test]
fn adding_present_admin_changes_nothing() {
    let mut store = fresh("alice", vec![1]);
    let alice = "alice".to_string();
    add_admin(&mut store, &alice, Some("bob".to_string())).unwrap();
    add_admin(&mut store, &alice, Some("bob".to_string())).unwrap();
    add_admin(&mut store, &alice, Some("alice".to_string())).unwrap();
    let expected = vec!["alice".to_string(), "bob".to_string()];
    assert_eq!(expected, admins(&store).unwrap().admins);
}

#[test]
fn removing_nonmember_changes_nothing() {
    let mut store = fresh("alice", vec![1]);
    let alice = "alice".to_string();
    remove_admin(&mut store, &alice, Some("bob".to_string())).unwrap();
    assert_eq!(vec!["alice".to_string()], admins(&store).unwrap().admins);
}

#[test]
fn removing_member_preserves_order_of_rest() {
    let mut store = fresh("alice", vec![1]);
    let alice = "alice".to_string();
    add_admin(&mut store, &alice, Some("bob".to_string())).unwrap();
    add_admin(&mut store, &alice, Some("carol".to_string())).unwrap();
    remove_admin(&mut store, &alice, Some("bob".to_string())).unwrap();
    let expected = vec!["alice".to_string(), "carol".to_string()];
    assert_eq!(expected, admins(&store).unwrap().admins);
}

#[test]
fn instantiation_sets_creator_and_payload() {
    let store = fresh("karl", vec![9, 8, 7]);
    assert_eq!(vec!["karl".to_string()], admins(&store).unwrap().admins);
    assert_eq!(vec![9, 8, 7], data(&store).unwrap().data);
}

#[test]
fn instantiate_overwrites_previous_record() {
    let mut store = fresh("alice", vec![1]);
    instantiate(&mut store, &"bob".to_string(), InstantiateMsg { data: vec![2] }).unwrap();
    assert_eq!(vec!["bob".to_string()], admins(&store).unwrap().admins);
    assert_eq!(vec![2], data(&store).unwrap().data);
}

#[test]
fn reads_before_instantiation_report_not_found() {
    let store = Store::new();
    assert_eq!(Err(ContractError::NotFound), data(&store).map(|r| r.data));
    assert_eq!(Err(ContractError::NotFound), admins(&store).map(|r| r.admins));
}

#[test]
fn mutation_before_instantiation_reports_not_found() {
    let mut store = Store::new();
    let res = update(&mut store, &"alice".to_string(), vec![1]);
    assert_eq!(Err(ContractError::NotFound), res.map(|_| ()));
}

#[test]
fn rejected_identity_reports_invalid_address() {
    let mut store = fresh("alice", vec![1]);
    let alice = "alice".to_string();
    let res = add_admin(&mut store, &alice, None);
    assert_eq!(Err(ContractError::InvalidAddress), res.map(|_| ()));
    let res = remove_admin(&mut store, &alice, None);
    assert_eq!(Err(ContractError::InvalidAddress), res.map(|_| ()));
    assert_eq!(vec!["alice".to_string()], admins(&store).unwrap().admins);
}

#[test]
fn success_descriptors_name_each_action() {
    let mut store = Store::new();
    let alice = "alice".to_string();
    let res = instantiate(&mut store, &alice, InstantiateMsg { data: vec![1] }).unwrap();
    let pairs: Vec<(String, String)> =
        res.attributes.iter().map(|a| (a.key.clone(), a.value.clone())).collect();
    assert_eq!(
        vec![
            ("method".to_string(), "instantiate".to_string()),
            ("admin".to_string(), "alice".to_string()),
        ],
        pairs
    );

    let res = update(&mut store, &alice, vec![2]).unwrap();
    assert_eq!(1, res.attributes.len());
    assert_eq!("action", res.attributes[0].key);
    assert_eq!("update", res.attributes[0].value);

    let res = add_admin(&mut store, &alice, Some("bob".to_string())).unwrap();
    let pairs: Vec<(String, String)> =
        res.attributes.iter().map(|a| (a.key.clone(), a.value.clone())).collect();
    assert_eq!(
        vec![
            ("action".to_string(), "add_admin".to_string()),
            ("new_admin".to_string(), "bob".to_string()),
        ],
        pairs
    );

    let res = remove_admin(&mut store, &alice, Some("bob".to_string())).unwrap();
    let pairs: Vec<(String, String)> =
        res.attributes.iter().map(|a| (a.key.clone(), a.value.clone())).collect();
    assert_eq!(
        vec![
            ("action".to_string(), "remove_admin".to_string()),
            ("removed_admin".to_string(), "bob".to_string()),
        ],
        pairs
    );
}

#[test]
fn removing_the_last_admin_is_permitted() {
    // the admin set may become empty through removals; afterwards no caller
    // can ever mutate the record again
    let mut store = fresh("alice", vec![1]);
    let alice = "alice".to_string();
    remove_admin(&mut store, &alice, Some("alice".to_string())).unwrap();
    assert_eq!(Vec::<String>::new(), admins(&store).unwrap().admins);
    let res = update(&mut store, &alice, vec![2]);
    assert_eq!(Err(ContractError::Unauthorized), res.map(|_| ()));
    assert_eq!(vec![1], data(&store).unwrap().data);
}

#[test]
fn authorization_gate_full_scenario() {
    // creator instantiates, a stranger is turned away, gains access once
    // added, loses it again once removed
    let mut store = fresh("creator", vec![17]);
    let creator = "creator".to_string();
    let user = "user".to_string();
    assert_eq!(vec![17], data(&store).unwrap().data);

    let res = execute(&mut store, &user, ExecuteMsg::Write { data: vec![18] }, None);
    assert_eq!(Err(ContractError::Unauthorized), res.map(|_| ()));
    assert_eq!(vec![17], data(&store).unwrap().data);

    execute(
        &mut store,
        &creator,
        ExecuteMsg::AddAdmin { admin: "user".to_string() },
        Some("user".to_string()),
    )
    .unwrap();
    assert_eq!(vec!["creator".to_string(), "user".to_string()], admins(&store).unwrap().admins);

    execute(&mut store, &user, ExecuteMsg::Write { data: vec![18] }, None).unwrap();
    assert_eq!(vec![18], data(&store).unwrap().data);

    execute(
        &mut store,
        &creator,
        ExecuteMsg::RemoveAdmin { admin: "user".to_string() },
        Some("user".to_string()),
    )
    .unwrap();
    assert_eq!(vec!["creator".to_string()], admins(&store).unwrap().admins);

    let res = execute(&mut store, &user, ExecuteMsg::Write { data: vec![19] }, None);
    assert_eq!(Err(ContractError::Unauthorized), res.map(|_| ()));
    assert_eq!(vec![18], data(&store).unwrap().data);
}
