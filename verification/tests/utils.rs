use std::rc::Rc;

use casper_execution_engine::shared::additive_map::AdditiveMap;
use casper_execution_engine::shared::transform::Transform;
use casper_types::account::{Account, AccountHash};
use casper_types::{AccessRights, CLValue, Gas, Key, StoredValue, URef, U512};

use execution_results::engine::{EngineError, EngineExecutionResult};
use execution_results::utils::{
    get_account, get_error_message, get_exec_costs, get_precondition_failure,
    get_success_result, join_error_messages, try_get_precondition_failure,
};
use execution_results::wasm_paths::{
    get_compiled_wasm_paths, is_relative, join, wasm_file_candidates,
    wasm_file_not_found_message, wasm_lookup_step, WasmLookupStep,
};

fn success(cost: u64) -> EngineExecutionResult {
    EngineExecutionResult::Success {
        transfers: vec![],
        cost: Gas::new(U512::from(cost)),
        execution_journal: Default::default(),
    }
}

fn failure(error: EngineError, cost: u64) -> EngineExecutionResult {
    EngineExecutionResult::Failure {
        error,
        transfers: vec![],
        cost: Gas::new(U512::from(cost)),
        execution_journal: Default::default(),
    }
}

fn bytes(s: &str) -> Vec<u8> {
    s.as_bytes().to_vec()
}

#[test]
fn compiled_wasm_paths_with_target_dir() {
    let paths = get_compiled_wasm_paths(b"/ws", b"/home/me", Some(b"/tmp/target".as_slice()), false);
    assert_eq!(
        paths,
        vec![
            bytes("/ws/target/wasm32-unknown-unknown/release"),
            bytes("/home/me/wasm"),
            bytes("/tmp/target/wasm32-unknown-unknown/release"),
        ]
    );
}

#[test]
fn compiled_wasm_paths_without_target_dir() {
    let paths = get_compiled_wasm_paths(b"/ws/", b"", None, false);
    assert_eq!(
        paths,
        vec![bytes("/ws/target/wasm32-unknown-unknown/release"), bytes("wasm")]
    );
}

#[test]
fn assembly_script_directory_comes_first() {
    let paths = get_compiled_wasm_paths(b"/ws", b"/cwd", Some(b"/t".as_slice()), true);
    assert_eq!(
        paths,
        vec![
            bytes("/ws/target_as"),
            bytes("/ws/target/wasm32-unknown-unknown/release"),
            bytes("/cwd/wasm"),
            bytes("/t/wasm32-unknown-unknown/release"),
        ]
    );
    assert_eq!(get_compiled_wasm_paths(b"/ws", b"/cwd", None, true).len(), 3);
}

#[test]
fn join_follows_path_push() {
    assert_eq!(join(b"a", b"b"), bytes("a/b"));
    assert_eq!(join(b"a/", b"b"), bytes("a/b"));
    assert_eq!(join(b"", b"b"), bytes("b"));
    assert_eq!(join(b"a", b"/b"), bytes("/b"));
    assert_eq!(join(b"a", b""), bytes("a/"));
    assert!(is_relative(b"x/y.wasm"));
    assert!(is_relative(b""));
    assert!(!is_relative(b"/x/y.wasm"));
}

#[test]
fn relative_file_is_looked_for_under_each_directory() {
    let dirs = vec![bytes("/a"), bytes("/b/")];
    assert_eq!(
        wasm_file_candidates(&dirs, b"c.wasm"),
        vec![bytes("/a/c.wasm"), bytes("/b/c.wasm"), bytes("c.wasm")]
    );
}

#[test]
fn absolute_file_is_looked_for_as_given() {
    let dirs = vec![bytes("/a"), bytes("/b")];
    assert_eq!(wasm_file_candidates(&dirs, b"/c.wasm"), vec![bytes("/c.wasm")]);
}

#[test]
fn not_found_message_lists_every_place() {
    let attempted = vec![bytes("/a/c.wasm"), bytes("c.wasm")];
    let message = String::from_utf8(wasm_file_not_found_message(&attempted)).unwrap();
    assert_eq!(
        message,
        "\nFailed to open compiled Wasm file.  Tried the following locations:\n    - /a/c.wasm\n    - c.wasm\n\n"
    );
}

#[test]
fn error_messages_are_numbered_by_position() {
    let errors = vec![
        None,
        Some("boom".to_string()),
        None,
        Some("bad".to_string()),
        None,
        None,
        None,
        None,
        None,
        None,
        None,
        Some("late".to_string()),
    ];
    assert_eq!(join_error_messages(&errors), "1: boom\n3: bad\n11: late");
    assert_eq!(join_error_messages(&vec![None, None]), "");
    assert_eq!(join_error_messages(&vec![]), "");
}

#[test]
fn error_message_of_execution_results() {
    let results = vec![
        Rc::new(success(5)),
        Rc::new(EngineExecutionResult::precondition_failure(EngineError::Deploy)),
        Rc::new(failure(EngineError::InvalidDeployItemVariant("x".to_string()), 2)),
    ];
    assert_eq!(
        get_error_message(&results),
        "1: Deploy\n2: InvalidDeployItemVariant(\"x\")"
    );
    assert_eq!(get_error_message(&[Rc::new(success(1))]), "");
}

#[test]
fn exec_costs_in_order() {
    let results = vec![
        Rc::new(success(5)),
        Rc::new(failure(EngineError::Deploy, 8)),
        Rc::new(success(0)),
    ];
    assert_eq!(
        get_exec_costs(&results),
        vec![
            Gas::new(U512::from(5u64)),
            Gas::new(U512::from(8u64)),
            Gas::new(U512::from(0u64)),
        ]
    );
    assert!(get_exec_costs(&[]).is_empty());
}

#[test]
fn success_result_is_the_first() {
    let results = vec![Rc::new(success(11)), Rc::new(success(12))];
    assert_eq!(get_success_result(&results).cost(), Gas::new(U512::from(11u64)));
}

#[test]
fn precondition_failure_gives_its_error() {
    let results = vec![Rc::new(EngineExecutionResult::precondition_failure(EngineError::Authorization))];
    assert_eq!(format!("{:?}", get_precondition_failure(&results)), "Authorization");
    let found = try_get_precondition_failure(&results).expect("a precondition failure");
    assert_eq!(format!("{:?}", found), "Authorization");
}

#[test]
fn no_precondition_failure_where_none_happened() {
    assert!(try_get_precondition_failure(&[]).is_none());
    assert!(try_get_precondition_failure(&[Rc::new(success(3))]).is_none());
    // A failure that consumed gas is no precondition failure.
    assert!(try_get_precondition_failure(&[Rc::new(failure(EngineError::Deploy, 3))]).is_none());
}

#[test]
fn written_account_is_found() {
    let hash = AccountHash::new([1u8; 32]);
    let account = Account::create(
        hash,
        Default::default(),
        URef::new([2u8; 32], AccessRights::READ_ADD_WRITE),
    );
    let mut transforms: AdditiveMap<Key, Transform> = AdditiveMap::new();
    transforms.insert(Key::Account(hash), Transform::Write(StoredValue::Account(account.clone())));
    let other = Key::Account(AccountHash::new([3u8; 32]));
    transforms.insert(
        other,
        Transform::Write(StoredValue::CLValue(CLValue::from_t(1u64).unwrap())),
    );
    let identity = Key::Account(AccountHash::new([4u8; 32]));
    transforms.insert(identity, Transform::Identity);
    let added = Key::Account(AccountHash::new([6u8; 32]));
    transforms.insert(added, Transform::AddUInt64(9));
    let keys = Key::Account(AccountHash::new([7u8; 32]));
    transforms.insert(keys, Transform::AddKeys(Default::default()));

    assert_eq!(get_account(&transforms, &Key::Account(hash)), Some(account));
    assert_eq!(get_account(&transforms, &other), None);
    assert_eq!(get_account(&transforms, &identity), None);
    assert_eq!(get_account(&transforms, &added), None);
    assert_eq!(get_account(&transforms, &keys), None);
    assert_eq!(get_account(&transforms, &Key::Account(AccountHash::new([5u8; 32]))), None);
}

#[test]
fn lookup_reads_candidates_in_order_until_one_is_read() {
    let candidates = vec![bytes("/a/c.wasm"), bytes("c.wasm")];
    assert!(matches!(wasm_lookup_step(&candidates, 0, None), WasmLookupStep::Read(0)));
    assert!(matches!(wasm_lookup_step(&candidates, 1, None), WasmLookupStep::Read(1)));
    match wasm_lookup_step(&candidates, 1, Some(vec![0, 97, 115, 109])) {
        WasmLookupStep::Found(b) => assert_eq!(b, vec![0, 97, 115, 109]),
        _ => panic!("the read bytes are the contract"),
    }
    match wasm_lookup_step(&candidates, 2, None) {
        WasmLookupStep::NotFound(m) => assert_eq!(m, wasm_file_not_found_message(&candidates)),
        _ => panic!("every candidate was tried"),
    }
}
