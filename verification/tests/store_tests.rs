use sol_programs::address::{move_lamports, position_of, Address, Transfer};
use sol_programs::data_container::{initialize_data_container, push_in_data_container, DataContainer};
use sol_programs::global_stats::{
    create_global_account, get_extended_account_space, get_space, store_data, GlobalStats,
};
use sol_programs::message::{
    change_message, create_account, create_message, get_message_size, Errors, Message, UserAccount,
};
use sol_programs::vault::{create_stats, deposite_sol, withdraw_sol, Stats};

fn addr(n: u8) -> Address {
    Address::new([n; 32])
}

#[test]
fn address_equality_and_default() {
    assert!(addr(1).equals(&addr(1)));
    assert!(!addr(1).equals(&addr(2)));
    let mut bytes = [0u8; 32];
    bytes[31] = 1;
    assert!(!Address::new(bytes).equals(&Address::default()));
    assert!(!Address::new(bytes).is_zero());
    assert!(Address::default().is_zero());
}

#[test]
fn position_of_finds_first() {
    let list = vec![addr(1), addr(2), addr(1)];
    assert_eq!(position_of(&list, &addr(1)), Some(0));
    assert_eq!(position_of(&list, &addr(2)), Some(1));
    assert_eq!(position_of(&list, &addr(3)), None);
}

#[test]
fn move_lamports_keeps_sum() {
    assert_eq!(move_lamports(1000, 5, 300), (700, 305));
}

#[test]
fn message_size_counts_bytes() {
    assert_eq!(get_message_size("hello"), 49);
    assert_eq!(get_message_size(""), 44);
    assert_eq!(get_message_size("é"), 46);
}

#[test]
fn create_account_starts_at_zero() {
    let mut u = UserAccount { authority: Address::default(), total_messages: 7 };
    create_account(&mut u, addr(1));
    assert_eq!(u.authority, addr(1));
    assert_eq!(u.total_messages, 0);
}

#[test]
fn create_message_counts() {
    let mut u = UserAccount { authority: addr(1), total_messages: 0 };
    let mut m = Message { authority: Address::default(), message: String::new() };
    assert_eq!(create_message(&mut u, &mut m, addr(1), String::from("hi")), Ok(()));
    assert_eq!(u.total_messages, 1);
    assert_eq!(m.authority, addr(1));
    assert_eq!(m.message, "hi");
}

#[test]
fn create_message_other_signer() {
    let mut u = UserAccount { authority: addr(1), total_messages: 0 };
    let mut m = Message { authority: Address::default(), message: String::new() };
    assert_eq!(create_message(&mut u, &mut m, addr(2), String::from("hi")), Err(Errors::OnlyAuthorised));
    assert_eq!(u.total_messages, 0);
    assert_eq!(m.message, "");
}

#[test]
fn change_message_gives_back_previous() {
    let mut u = UserAccount { authority: addr(1), total_messages: 0 };
    let mut m = Message { authority: Address::default(), message: String::new() };
    create_message(&mut u, &mut m, addr(1), String::from("first")).unwrap();
    assert_eq!(change_message(&mut m, addr(1), String::from("second")), Ok(String::from("first")));
    assert_eq!(m.message, "second");
}

#[test]
fn change_message_author_only() {
    let mut m = Message { authority: addr(1), message: String::from("first") };
    assert_eq!(change_message(&mut m, addr(2), String::from("second")), Err(Errors::OnlyAuthorised));
    assert_eq!(m.message, "first");
}

#[test]
fn data_container_writes_prefix() {
    let mut c = DataContainer { temp_data: [0u8; 50000] };
    initialize_data_container(&mut c, vec![1, 2, 3]);
    assert_eq!(&c.temp_data[..4], &[1, 2, 3, 0]);
    push_in_data_container(&mut c, vec![9]);
    assert_eq!(&c.temp_data[..4], &[9, 2, 3, 0]);
    push_in_data_container(&mut c, vec![7, 7, 7, 7]);
    assert_eq!(&c.temp_data[..5], &[7, 7, 7, 7, 0]);
}

#[test]
fn data_container_full_write() {
    let mut c = DataContainer { temp_data: [0u8; 50000] };
    push_in_data_container(&mut c, vec![5u8; 50000]);
    assert!(c.temp_data.iter().all(|b| *b == 5));
}

#[test]
fn vault_moves() {
    let mut s = Stats { bump: 0 };
    create_stats(&mut s, 250);
    assert_eq!(s.bump, 250);
    assert_eq!(deposite_sol(addr(1), addr(2), 40), Transfer { from: addr(1), to: addr(2), amount: 40 });
    assert_eq!(withdraw_sol(100, 7, 40), (60, 47));
}

#[test]
fn global_stats_appends() {
    let mut g = GlobalStats { authority: Address::default(), data: Vec::new() };
    create_global_account(&mut g, addr(1), String::from("a"));
    store_data(&mut g, String::from("bc"));
    assert_eq!(g.authority, addr(1));
    assert_eq!(g.data, vec![String::from("a"), String::from("bc")]);
}

#[test]
fn global_stats_space() {
    let base = std::mem::size_of::<GlobalStats>();
    assert_eq!(get_space("abc"), 8 + base + 3);
    assert_eq!(get_extended_account_space(100, "abcd"), 108);
    assert_eq!(get_extended_account_space(100, "é"), 106);
}

#[test]
fn withdraw_undoes_deposit() {
    let (user, vault) = (500u64, 20u64);
    let t = deposite_sol(addr(1), addr(2), 120);
    let (user_after, vault_after) = move_lamports(user, vault, t.amount);
    assert_eq!((user_after, vault_after), (380, 140));
    assert_eq!(withdraw_sol(vault_after, user_after, 120), (vault, user));
}
