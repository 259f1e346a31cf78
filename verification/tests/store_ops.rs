use todo_dapp::state::Pubkey;
use todo_dapp::state::StoreError;
use todo_dapp::state::TodoError;
use todo_dapp::store::TodoList;

fn key(b: u8) -> Pubkey {
    Pubkey { bytes: [b; 32] }
}

#[test]
fn init_and_first_add() {
    let a = key(1);
    let mut s = TodoList::new();
    assert_eq!(s.initialize_user(a), Ok(()));
    assert_eq!(s.add_todo(a, String::from("buy milk")), Ok(0));
    let p = s.profile.unwrap();
    assert_eq!(p.todo_count, 1);
    assert_eq!(p.last_todo, 1);
    let t = s.get_todo(0).unwrap();
    assert_eq!(t.idx, 0);
    assert_eq!(t.content, "buy milk");
    assert!(!t.marked);
}

#[test]
fn double_init_fails() {
    let a = key(1);
    let mut s = TodoList::new();
    assert_eq!(s.initialize_user(a), Ok(()));
    assert_eq!(s.initialize_user(a), Err(StoreError::AlreadyInitialized));
}

#[test]
fn ops_before_init_fail() {
    let a = key(1);
    let mut s = TodoList::new();
    assert_eq!(
        s.add_todo(a, String::from("x")),
        Err(StoreError::NotInitialized)
    );
    assert_eq!(s.mark_todo(a, 0), Err(StoreError::NotInitialized));
    assert_eq!(s.unmark_todo(a, 0), Err(StoreError::NotInitialized));
    assert_eq!(s.remove_todo(a, 0), Err(StoreError::NotInitialized));
    assert_eq!(
        s.update_todo(a, 0, String::from("y")),
        Err(StoreError::NotInitialized)
    );
}

#[test]
fn foreign_signer_rejected() {
    let a = key(1);
    let b = key(2);
    let mut s = TodoList::new();
    s.initialize_user(a).unwrap();
    s.add_todo(a, String::from("x")).unwrap();
    assert_eq!(
        s.add_todo(b, String::from("y")),
        Err(StoreError::Todo(TodoError::Unauthorized))
    );
    assert_eq!(
        s.mark_todo(b, 0),
        Err(StoreError::Todo(TodoError::Unauthorized))
    );
    assert_eq!(
        s.remove_todo(b, 0),
        Err(StoreError::Todo(TodoError::Unauthorized))
    );
}

#[test]
fn add_sequence_assigns_indices_in_order() {
    let a = key(3);
    let mut s = TodoList::new();
    s.initialize_user(a).unwrap();
    for n in 0..5u8 {
        assert_eq!(s.add_todo(a, format!("item {}", n)), Ok(n));
        assert_eq!(s.profile.unwrap().todo_count, n + 1);
    }
}

#[test]
fn add_overflows_at_256th_call() {
    let a = key(4);
    let mut s = TodoList::new();
    s.initialize_user(a).unwrap();
    for n in 0..255u8 {
        assert_eq!(s.add_todo(a, String::from("x")), Ok(n));
    }
    assert_eq!(
        s.add_todo(a, String::from("one too many")),
        Err(StoreError::Todo(TodoError::MathOverflow))
    );
    assert_eq!(s.profile.unwrap().todo_count, 255);
}

#[test]
fn mark_and_unmark_round_trip() {
    let a = key(1);
    let mut s = TodoList::new();
    s.initialize_user(a).unwrap();
    s.add_todo(a, String::from("x")).unwrap();
    assert!(!s.get_todo(0).unwrap().marked);
    assert_eq!(s.mark_todo(a, 0), Ok(()));
    assert!(s.get_todo(0).unwrap().marked);
    assert_eq!(s.unmark_todo(a, 0), Ok(()));
    assert!(!s.get_todo(0).unwrap().marked);
}

#[test]
fn double_mark_fails() {
    let a = key(1);
    let mut s = TodoList::new();
    s.initialize_user(a).unwrap();
    s.add_todo(a, String::from("x")).unwrap();
    assert_eq!(s.mark_todo(a, 0), Ok(()));
    assert_eq!(
        s.mark_todo(a, 0),
        Err(StoreError::Todo(TodoError::AlreadyMarked))
    );
    assert!(s.get_todo(0).unwrap().marked);
    assert_eq!(s.profile.unwrap().todo_count, 1);
}

#[test]
fn unmark_unmarked_fails() {
    let a = key(1);
    let mut s = TodoList::new();
    s.initialize_user(a).unwrap();
    s.add_todo(a, String::from("x")).unwrap();
    assert_eq!(
        s.unmark_todo(a, 0),
        Err(StoreError::Todo(TodoError::NotMarked))
    );
    assert!(!s.get_todo(0).unwrap().marked);
}

#[test]
fn remove_frees_count_but_not_index() {
    let a = key(1);
    let mut s = TodoList::new();
    s.initialize_user(a).unwrap();
    assert_eq!(s.add_todo(a, String::from("first")), Ok(0));
    assert_eq!(s.add_todo(a, String::from("second")), Ok(1));
    assert_eq!(s.remove_todo(a, 0), Ok(()));
    assert_eq!(s.profile.unwrap().todo_count, 1);
    assert_eq!(s.add_todo(a, String::from("third")), Ok(2));
    assert_eq!(s.profile.unwrap().todo_count, 2);
    assert_eq!(s.profile.unwrap().last_todo, 3);
}

#[test]
fn removed_item_is_gone() {
    let a = key(1);
    let mut s = TodoList::new();
    s.initialize_user(a).unwrap();
    s.add_todo(a, String::from("x")).unwrap();
    s.add_todo(a, String::from("y")).unwrap();
    assert_eq!(s.remove_todo(a, 0), Ok(()));
    assert!(s.get_todo(0).is_none());
    assert_eq!(s.mark_todo(a, 0), Err(StoreError::ItemNotFound));
    assert_eq!(s.unmark_todo(a, 0), Err(StoreError::ItemNotFound));
    assert_eq!(
        s.update_todo(a, 0, String::from("z")),
        Err(StoreError::ItemNotFound)
    );
    assert_eq!(s.remove_todo(a, 0), Err(StoreError::ItemNotFound));
    assert_eq!(s.get_todo(1).unwrap().content, "y");
}

#[test]
fn missing_index_not_found() {
    let a = key(1);
    let mut s = TodoList::new();
    s.initialize_user(a).unwrap();
    s.add_todo(a, String::from("x")).unwrap();
    assert_eq!(s.mark_todo(a, 7), Err(StoreError::ItemNotFound));
}

#[test]
fn update_changes_only_content() {
    let a = key(1);
    let mut s = TodoList::new();
    s.initialize_user(a).unwrap();
    s.add_todo(a, String::from("before")).unwrap();
    s.add_todo(a, String::from("other")).unwrap();
    s.mark_todo(a, 0).unwrap();
    assert_eq!(s.update_todo(a, 0, String::from("after")), Ok(()));
    let t = s.get_todo(0).unwrap();
    assert_eq!(t.content, "after");
    assert_eq!(t.idx, 0);
    assert!(t.marked);
    assert_eq!(s.get_todo(1).unwrap().content, "other");
    assert_eq!(s.profile.unwrap().todo_count, 2);
    assert_eq!(s.profile.unwrap().last_todo, 2);
}

#[test]
fn pubkey_equality_is_bytewise() {
    let a = key(1);
    let b = key(2);
    let mut c = key(1);
    assert!(todo_dapp::state::pubkey_eq(&a, &c));
    assert!(!todo_dapp::state::pubkey_eq(&a, &b));
    c.bytes[31] = 9;
    assert!(!todo_dapp::state::pubkey_eq(&a, &c));
}
