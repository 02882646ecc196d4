use anchor_lang::prelude::Pubkey;
use pushnotification::{
    fee_transfer, init, init_at, prepaid_notification, send, storage_address, storage_seed,
    update_and_send, Address, ErrorCode, Init, MainData, Notification, PrepaidNotification, Send,
    Transfer, UpdateAndSend,
};

fn addr(b: u8) -> Address {
    Address::new([b; 32])
}

fn id(s: &str) -> String {
    s.to_string()
}

fn ready_ledger(vault: Address, fee: u64) -> MainData {
    let mut l = MainData::new();
    let ctx = Init {
        program_id: addr(9),
        account_init: addr(8),
        account_init_balance: 0,
        vault,
        payer: addr(7),
    };
    let t = init_at(&mut l, &ctx, fee, Some(addr(8))).unwrap();
    assert_eq!(t, Transfer { from: addr(7), to: addr(8), amount: fee });
    l
}

fn reserve(l: &mut MainData, nid: &str, payer: Address, updater: Address) -> Result<(), ErrorCode> {
    let t = fee_transfer(l, &id(nid), payer)?;
    assert_eq!(t.amount, l.fee_amount());
    prepaid_notification(l, &PrepaidNotification { payer, updater }, id(nid), true)
}

#[test]
fn scenario_prepaid_then_finalize() {
    let v = addr(1);
    let p = addr(2);
    let u = addr(3);
    let mut l = ready_ledger(v, 100);
    assert_eq!(fee_transfer(&l, &id("abc"), p), Ok(Transfer { from: p, to: v, amount: 100 }));
    prepaid_notification(&mut l, &PrepaidNotification { payer: p, updater: u }, id("abc"), true)
        .unwrap();
    let r = l.find(&id("abc")).unwrap();
    assert_eq!(r.notification_id, "abc");
    assert!(!r.sent);
    assert_eq!(r.updater, u);

    let e = update_and_send(&mut l, &UpdateAndSend { updater: u }, id("abc"), id("m"), id("p"))
        .unwrap();
    assert_eq!(e.notification_id, "abc");
    assert_eq!(e.message_type, "m");
    assert_eq!(e.encrypted_payload, "p");
    let r = l.find(&id("abc")).unwrap();
    assert!(r.sent);
    assert_eq!(r.updater, u);

    let again = update_and_send(&mut l, &UpdateAndSend { updater: u }, id("abc"), id("m"), id("p"));
    assert_eq!(again.unwrap_err(), ErrorCode::AlreadySent);
}

#[test]
fn prepaid_twice_is_duplicate() {
    let mut l = ready_ledger(addr(1), 5);
    assert_eq!(reserve(&mut l, "x", addr(2), addr(3)), Ok(()));
    assert_eq!(l.len(), 1);
    assert_eq!(fee_transfer(&l, &id("x"), addr(2)), Err(ErrorCode::DuplicateId));
    let r = prepaid_notification(
        &mut l,
        &PrepaidNotification { payer: addr(4), updater: addr(4) },
        id("x"),
        true,
    );
    assert_eq!(r, Err(ErrorCode::DuplicateId));
    assert_eq!(l.len(), 1);
    let rec = l.find(&id("x")).unwrap();
    assert!(!rec.sent);
    assert_eq!(rec.updater, addr(3));
}

#[test]
fn send_twice_is_duplicate() {
    let mut l = ready_ledger(addr(1), 5);
    let ctx = Send { payer: addr(2) };
    assert!(send(&mut l, &ctx, id("y"), id("t"), id("p"), true).is_ok());
    let r = send(&mut l, &ctx, id("y"), id("t"), id("p"), true);
    assert_eq!(r.unwrap_err(), ErrorCode::DuplicateId);
    let r = prepaid_notification(
        &mut l,
        &PrepaidNotification { payer: addr(2), updater: addr(2) },
        id("y"),
        true,
    );
    assert_eq!(r, Err(ErrorCode::DuplicateId));
    assert_eq!(l.len(), 1);
}

#[test]
fn send_creates_final_record() {
    let p = addr(2);
    let mut l = ready_ledger(addr(1), 5);
    assert_eq!(fee_transfer(&l, &id("n1"), p), Ok(Transfer { from: p, to: addr(1), amount: 5 }));
    let e = send(&mut l, &Send { payer: p }, id("n1"), id("kind"), id("body"), true).unwrap();
    assert_eq!(e.notification_id, "n1");
    assert_eq!(e.message_type, "kind");
    assert_eq!(e.encrypted_payload, "body");
    let r = l.find(&id("n1")).unwrap();
    assert!(r.sent);
    assert_eq!(r.updater, p);
    for signer in [p, addr(3)] {
        let r = update_and_send(&mut l, &UpdateAndSend { updater: signer }, id("n1"), id("a"), id("b"));
        assert_eq!(r.unwrap_err(), ErrorCode::AlreadySent);
    }
}

#[test]
fn finalize_unknown_is_not_found() {
    let mut l = ready_ledger(addr(1), 5);
    let r = update_and_send(&mut l, &UpdateAndSend { updater: addr(3) }, id("nope"), id("a"), id("b"));
    assert_eq!(r.unwrap_err(), ErrorCode::NotFound);
    assert_eq!(l.len(), 0);
}

#[test]
fn finalize_by_stranger_is_unauthorized() {
    let mut l = ready_ledger(addr(1), 5);
    reserve(&mut l, "n2", addr(2), addr(3)).unwrap();
    let r = update_and_send(&mut l, &UpdateAndSend { updater: addr(2) }, id("n2"), id("a"), id("b"));
    assert_eq!(r.unwrap_err(), ErrorCode::Unauthorized);
    assert!(!l.find(&id("n2")).unwrap().sent);
    let mut near = [3u8; 32];
    near[31] = 4;
    let r = update_and_send(&mut l, &UpdateAndSend { updater: Address::new(near) }, id("n2"), id("a"), id("b"));
    assert_eq!(r.unwrap_err(), ErrorCode::Unauthorized);
    assert!(!l.find(&id("n2")).unwrap().sent);
}

#[test]
fn finalize_flips_once() {
    let u = addr(3);
    let mut l = ready_ledger(addr(1), 5);
    reserve(&mut l, "n2", addr(2), u).unwrap();
    assert!(!l.find(&id("n2")).unwrap().sent);
    assert!(update_and_send(&mut l, &UpdateAndSend { updater: u }, id("n2"), id("a"), id("b")).is_ok());
    assert!(l.find(&id("n2")).unwrap().sent);
    let r = update_and_send(&mut l, &UpdateAndSend { updater: u }, id("n2"), id("a"), id("b"));
    assert_eq!(r.unwrap_err(), ErrorCode::AlreadySent);
    assert!(l.find(&id("n2")).unwrap().sent);
}

#[test]
fn failed_transfer_leaves_no_record() {
    let mut l = ready_ledger(addr(1), 5);
    let r = prepaid_notification(
        &mut l,
        &PrepaidNotification { payer: addr(2), updater: addr(3) },
        id("z"),
        false,
    );
    assert_eq!(r, Err(ErrorCode::TransferFailed));
    let r = send(&mut l, &Send { payer: addr(2) }, id("z"), id("a"), id("b"), false);
    assert_eq!(r.unwrap_err(), ErrorCode::TransferFailed);
    assert_eq!(l.len(), 0);
    assert!(l.find(&id("z")).is_none());
    assert!(reserve(&mut l, "z", addr(2), addr(3)).is_ok());
}

#[test]
fn records_keep_their_order() {
    let mut l = ready_ledger(addr(1), 5);
    reserve(&mut l, "a", addr(2), addr(3)).unwrap();
    send(&mut l, &Send { payer: addr(4) }, id("b"), id("t"), id("p"), true).unwrap();
    reserve(&mut l, "", addr(2), addr(5)).unwrap();
    assert_eq!(l.len(), 3);
    assert_eq!(l.record_at(0).notification_id, "a");
    assert_eq!(l.record_at(1).notification_id, "b");
    assert!(l.record_at(1).sent);
    assert_eq!(l.record_at(2).notification_id, "");
    assert_eq!(l.record_at(2).updater, addr(5));
}

#[test]
fn init_sets_fee_and_vault() {
    let l = ready_ledger(addr(6), 44000);
    assert!(l.is_initialized());
    assert_eq!(l.fee_amount(), 44000);
    assert_eq!(l.vault_address(), addr(6));
    assert_eq!(l.len(), 0);
}

#[test]
fn init_twice_is_refused() {
    let mut l = ready_ledger(addr(6), 100);
    let ctx = Init {
        program_id: addr(9),
        account_init: addr(8),
        account_init_balance: 0,
        vault: addr(1),
        payer: addr(7),
    };
    assert_eq!(init_at(&mut l, &ctx, 7, Some(addr(8))), Err(ErrorCode::AlreadyInitialized));
    assert_eq!(init_at(&mut l, &ctx, 7, None), Err(ErrorCode::AlreadyInitialized));
    assert_eq!(l.fee_amount(), 100);
    assert_eq!(l.vault_address(), addr(6));
}

#[test]
fn init_on_funded_slot_is_refused() {
    let mut l = MainData::new();
    let ctx = Init {
        program_id: addr(9),
        account_init: addr(8),
        account_init_balance: 1,
        vault: addr(1),
        payer: addr(7),
    };
    assert_eq!(init_at(&mut l, &ctx, 7, Some(addr(8))), Err(ErrorCode::AlreadyInitialized));
    assert!(!l.is_initialized());
    assert_eq!(l.fee_amount(), 0);
}

#[test]
fn init_on_wrong_slot_is_refused() {
    let mut l = MainData::new();
    let ctx = Init {
        program_id: addr(9),
        account_init: addr(8),
        account_init_balance: 0,
        vault: addr(1),
        payer: addr(7),
    };
    assert_eq!(init_at(&mut l, &ctx, 7, Some(addr(5))), Err(ErrorCode::InvalidStorageAddress));
    assert_eq!(init_at(&mut l, &ctx, 7, None), Err(ErrorCode::InvalidStorageAddress));
    assert!(!l.is_initialized());
}

#[test]
fn storage_address_is_the_derived_address() {
    let program_id = addr(42);
    let derived = storage_address(&program_id).unwrap();
    let (key, _bump) = Pubkey::find_program_address(
        &[b"mainDataForTheProgram"],
        &Pubkey::new_from_array(program_id.bytes),
    );
    assert_eq!(derived.bytes, key.to_bytes());
    assert_ne!(derived, program_id);
    assert_eq!(storage_seed(), b"mainDataForTheProgram".to_vec());
}

#[test]
fn init_in_derived_slot() {
    let program_id = addr(42);
    let slot = storage_address(&program_id).unwrap();
    let mut l = MainData::new();
    let ctx = Init {
        program_id,
        account_init: slot,
        account_init_balance: 0,
        vault: addr(1),
        payer: addr(7),
    };
    assert_eq!(init(&mut l, &ctx, 100), Ok(Transfer { from: addr(7), to: slot, amount: 100 }));
    assert_eq!(l.fee_amount(), 100);
    assert_eq!(init(&mut l, &ctx, 5), Err(ErrorCode::AlreadyInitialized));

    let mut other = MainData::new();
    let wrong = Init { account_init: program_id, ..ctx };
    assert_eq!(init(&mut other, &wrong, 100), Err(ErrorCode::InvalidStorageAddress));
}

#[test]
fn address_comparison_is_bytewise() {
    let mut b = [7u8; 32];
    assert!(addr(7).same_as(&Address::new(b)));
    b[0] = 6;
    assert!(!addr(7).same_as(&Address::new(b)));
}

#[test]
fn rebuild_from_parts() {
    let rec = |n: &str, sent: bool, u: u8| Notification { notification_id: id(n), sent, updater: addr(u) };
    let mut l = MainData::from_parts(true, addr(1), 9, vec![rec("a", false, 3), rec("b", true, 4)]).unwrap();
    assert!(l.is_initialized());
    assert_eq!(l.fee_amount(), 9);
    assert_eq!(l.len(), 2);
    assert_eq!(l.record_at(1).updater, addr(4));
    let r = update_and_send(&mut l, &UpdateAndSend { updater: addr(3) }, id("a"), id("t"), id("p"));
    assert!(r.is_ok());
    assert!(MainData::from_parts(true, addr(1), 9, vec![rec("a", false, 3), rec("a", true, 4)]).is_none());
}
