//! Properties that hold across transitions, proved over their specifications.
use crate::engine::{
    fee_transfer_spec, finalize_spec, init_spec, prepaid_spec, send_spec, ErrorCode, EventView,
    TransferView,
};
use crate::ledger::{
    has_id, ids_unique, index_of, lemma_push_fresh, lemma_record_of, lemma_update_same_id,
    record_of, LedgerView, NotificationView,
};
use vstd::prelude::*;

verus! {

/// An id can be reserved once: after `prepaid_notification` reserved it, a
/// second `prepaid_notification` or a `send` with the same id is refused
/// with `DuplicateId` and leaves the ledger as it is.
pub proof fn lemma_prepaid_only_once(
    l: LedgerView,
    id: Seq<char>,
    updater: Seq<u8>,
    updater2: Seq<u8>,
    payer2: Seq<u8>,
    message_type: Seq<char>,
    payload: Seq<char>,
    fee_paid2: bool,
)
    requires
        !has_id(l.notifications, id),
    ensures
        prepaid_spec(l, id, updater, true).1 == Ok::<(), ErrorCode>(()),
        ({
            let l1 = prepaid_spec(l, id, updater, true).0;
            &&& prepaid_spec(l1, id, updater2, fee_paid2) == (l1, Err::<(), ErrorCode>(
                ErrorCode::DuplicateId,
            ))
            &&& send_spec(l1, id, payer2, message_type, payload, fee_paid2) == (
                l1,
                Err::<EventView, ErrorCode>(ErrorCode::DuplicateId),
            )
        }),
{
    let l1 = prepaid_spec(l, id, updater, true).0;
    assert(l1.notifications[l.notifications.len() as int].id == id);
}

/// An id can be reserved once: after `send` reserved it, a second `send` or a
/// `prepaid_notification` with the same id is refused with `DuplicateId` and
/// leaves the ledger as it is.
pub proof fn lemma_send_only_once(
    l: LedgerView,
    id: Seq<char>,
    payer: Seq<u8>,
    payer2: Seq<u8>,
    updater2: Seq<u8>,
    message_type: Seq<char>,
    payload: Seq<char>,
    message_type2: Seq<char>,
    payload2: Seq<char>,
    fee_paid2: bool,
)
    requires
        !has_id(l.notifications, id),
    ensures
        send_spec(l, id, payer, message_type, payload, true).1 is Ok,
        ({
            let l1 = send_spec(l, id, payer, message_type, payload, true).0;
            &&& send_spec(l1, id, payer2, message_type2, payload2, fee_paid2) == (
                l1,
                Err::<EventView, ErrorCode>(ErrorCode::DuplicateId),
            )
            &&& prepaid_spec(l1, id, updater2, fee_paid2) == (l1, Err::<(), ErrorCode>(
                ErrorCode::DuplicateId,
            ))
        }),
{
    let l1 = send_spec(l, id, payer, message_type, payload, true).0;
    assert(l1.notifications[l.notifications.len() as int].id == id);
}

/// `update_and_send` refuses an id never reserved with `NotFound`, a
/// notification already sent with `AlreadySent`, and a pending one whose
/// updater is not the signer with `Unauthorized`; each time the ledger, and
/// so the pending flag, stays as it was.
pub proof fn lemma_finalize_refusals(
    l: LedgerView,
    id: Seq<char>,
    signer: Seq<u8>,
    message_type: Seq<char>,
    payload: Seq<char>,
)
    ensures
        !has_id(l.notifications, id) ==> finalize_spec(l, id, signer, message_type, payload) == (
            l,
            Err::<EventView, ErrorCode>(ErrorCode::NotFound),
        ),
        has_id(l.notifications, id) && record_of(l.notifications, id).sent ==> finalize_spec(
            l,
            id,
            signer,
            message_type,
            payload,
        ) == (l, Err::<EventView, ErrorCode>(ErrorCode::AlreadySent)),
        has_id(l.notifications, id) && !record_of(l.notifications, id).sent && record_of(
            l.notifications,
            id,
        ).updater != signer ==> finalize_spec(l, id, signer, message_type, payload) == (
            l,
            Err::<EventView, ErrorCode>(ErrorCode::Unauthorized),
        ) && !record_of(finalize_spec(l, id, signer, message_type, payload).0.notifications, id).sent,
{
}

/// After `send` succeeds, the record of its id is sent, with the payer as
/// updater, and `update_and_send` on that id fails whoever signs.
pub proof fn lemma_send_is_final(
    l: LedgerView,
    id: Seq<char>,
    payer: Seq<u8>,
    message_type: Seq<char>,
    payload: Seq<char>,
    signer: Seq<u8>,
    message_type2: Seq<char>,
    payload2: Seq<char>,
)
    requires
        ids_unique(l.notifications),
        send_spec(l, id, payer, message_type, payload, true).1 is Ok,
    ensures
        ({
            let l1 = send_spec(l, id, payer, message_type, payload, true).0;
            &&& has_id(l1.notifications, id)
            &&& record_of(l1.notifications, id) == (NotificationView {
                id,
                sent: true,
                updater: payer,
            })
            &&& finalize_spec(l1, id, signer, message_type2, payload2) == (
                l1,
                Err::<EventView, ErrorCode>(ErrorCode::AlreadySent),
            )
        }),
{
    lemma_push_fresh(l.notifications, NotificationView { id, sent: true, updater: payer });
}

/// A notification that is sent stays sent, with the same updater, through
/// every later `prepaid_notification`, `send` and `update_and_send`, so no
/// later `update_and_send` on it can succeed.
pub proof fn lemma_sent_stays_sent(
    l: LedgerView,
    id: Seq<char>,
    other: Seq<char>,
    updater: Seq<u8>,
    signer: Seq<u8>,
    message_type: Seq<char>,
    payload: Seq<char>,
    fee_paid: bool,
)
    requires
        ids_unique(l.notifications),
        has_id(l.notifications, id),
        record_of(l.notifications, id).sent,
    ensures
        ({
            let l1 = prepaid_spec(l, other, updater, fee_paid).0;
            ids_unique(l1.notifications) && has_id(l1.notifications, id) && record_of(
                l1.notifications,
                id,
            ) == record_of(l.notifications, id)
        }),
        ({
            let l1 = send_spec(l, other, updater, message_type, payload, fee_paid).0;
            ids_unique(l1.notifications) && has_id(l1.notifications, id) && record_of(
                l1.notifications,
                id,
            ) == record_of(l.notifications, id)
        }),
        ({
            let l1 = finalize_spec(l, other, signer, message_type, payload).0;
            ids_unique(l1.notifications) && has_id(l1.notifications, id) && record_of(
                l1.notifications,
                id,
            ) == record_of(l.notifications, id)
        }),
        finalize_spec(l, id, signer, message_type, payload) == (l, Err::<EventView, ErrorCode>(
            ErrorCode::AlreadySent,
        )),
{
    let ns = l.notifications;
    let k = index_of(ns, id);
    lemma_record_of(ns, id, k);
    if !has_id(ns, other) {
        let rp = NotificationView { id: other, sent: false, updater };
        let rs = NotificationView { id: other, sent: true, updater };
        lemma_push_fresh(ns, rp);
        lemma_push_fresh(ns, rs);
        lemma_record_of(ns.push(rp), id, k);
        lemma_record_of(ns.push(rs), id, k);
        assert(other != id);
    } else if !record_of(ns, other).sent && record_of(ns, other).updater == signer {
        let j = index_of(ns, other);
        lemma_record_of(ns, other, j);
        lemma_update_same_id(ns, j, NotificationView { sent: true, ..record_of(ns, other) });
    }
}

/// After `prepaid_notification` and then `update_and_send` by the updater
/// succeed, the record went from pending to sent, and a retried
/// `update_and_send` is refused with `AlreadySent`.
pub proof fn lemma_prepaid_then_finalize(
    l: LedgerView,
    id: Seq<char>,
    updater: Seq<u8>,
    message_type: Seq<char>,
    payload: Seq<char>,
    message_type2: Seq<char>,
    payload2: Seq<char>,
)
    requires
        ids_unique(l.notifications),
        prepaid_spec(l, id, updater, true).1 is Ok,
    ensures
        ({
            let l1 = prepaid_spec(l, id, updater, true).0;
            let (l2, r2) = finalize_spec(l1, id, updater, message_type, payload);
            &&& record_of(l1.notifications, id) == (NotificationView {
                id,
                sent: false,
                updater,
            })
            &&& r2 == Ok::<EventView, ErrorCode>(
                EventView { notification_id: id, message_type, encrypted_payload: payload },
            )
            &&& record_of(l2.notifications, id) == (NotificationView { id, sent: true, updater })
            &&& finalize_spec(l2, id, updater, message_type2, payload2) == (
                l2,
                Err::<EventView, ErrorCode>(ErrorCode::AlreadySent),
            )
        }),
{
    let rec = NotificationView { id, sent: false, updater };
    lemma_push_fresh(l.notifications, rec);
    let ns1 = l.notifications.push(rec);
    let i = index_of(ns1, id);
    lemma_record_of(ns1, id, l.notifications.len() as int);
    lemma_update_same_id(ns1, i, NotificationView { sent: true, ..rec });
}

/// The fee is charged once per reservation: `fee_transfer` asks for exactly
/// one transfer, of the ledger's fee from the payer to the vault, when the id
/// is free, and for none when it is taken. A `prepaid_notification` or `send`
/// succeeds exactly when that transfer was asked for and went through, and is
/// refused before the transfer step exactly when none was asked for.
pub proof fn lemma_fee_charged_once(
    l: LedgerView,
    id: Seq<char>,
    payer: Seq<u8>,
    updater: Seq<u8>,
    message_type: Seq<char>,
    payload: Seq<char>,
    fee_paid: bool,
)
    ensures
        fee_transfer_spec(l, id, payer) == if has_id(l.notifications, id) {
            Err::<TransferView, ErrorCode>(ErrorCode::DuplicateId)
        } else {
            Ok::<TransferView, ErrorCode>(TransferView { from: payer, to: l.vault, amount: l.fee })
        },
        prepaid_spec(l, id, updater, fee_paid).1 is Ok <==> (fee_transfer_spec(l, id, payer) is Ok
            && fee_paid),
        send_spec(l, id, payer, message_type, payload, fee_paid).1 is Ok <==> (fee_transfer_spec(
            l,
            id,
            payer,
        ) is Ok && fee_paid),
        prepaid_spec(l, id, updater, fee_paid).1 == Err::<(), ErrorCode>(ErrorCode::DuplicateId)
            <==> fee_transfer_spec(l, id, payer) is Err,
        send_spec(l, id, payer, message_type, payload, fee_paid).1 == Err::<EventView, ErrorCode>(
            ErrorCode::DuplicateId,
        ) <==> fee_transfer_spec(l, id, payer) is Err,
{
}

/// `init` on an initialized ledger is refused with `AlreadyInitialized` and
/// changes nothing, whatever it is given; in particular a retried `init`
/// after one that succeeded.
pub proof fn lemma_init_only_once(
    l: LedgerView,
    account_init: Seq<u8>,
    account_init_balance: u64,
    vault: Seq<u8>,
    payer: Seq<u8>,
    fee: u64,
    expected: Option<Seq<u8>>,
    account_init2: Seq<u8>,
    account_init_balance2: u64,
    vault2: Seq<u8>,
    payer2: Seq<u8>,
    fee2: u64,
    expected2: Option<Seq<u8>>,
)
    ensures
        l.initialized ==> init_spec(
            l,
            account_init,
            account_init_balance,
            vault,
            payer,
            fee,
            expected,
        ) == (l, Err::<TransferView, ErrorCode>(ErrorCode::AlreadyInitialized)),
        ({
            let (l1, r1) = init_spec(
                l,
                account_init,
                account_init_balance,
                vault,
                payer,
                fee,
                expected,
            );
            r1 is Ok ==> init_spec(
                l1,
                account_init2,
                account_init_balance2,
                vault2,
                payer2,
                fee2,
                expected2,
            ) == (l1, Err::<TransferView, ErrorCode>(ErrorCode::AlreadyInitialized))
                && l1.fee == fee && l1.vault == vault
        }),
{
}

} // verus!
