use crate::address::{program_address_of, storage_address, storage_seed_spec, Address};
use crate::ledger::{
    has_id, index_of, lemma_record_of, record_of, LedgerView, MainData, Notification,
    NotificationView,
};
use vstd::prelude::*;

verus! {

/// Why a transition was refused. A refused transition changes nothing.
#[derive(Clone, Copy, Debug, PartialEq, Eq, Structural)]
pub enum ErrorCode {
    /// A notification with this id was reserved before, sent or not.
    DuplicateId,
    /// No notification carries this id.
    NotFound,
    /// The notification has been finalized already.
    AlreadySent,
    /// The signer is not the notification's updater.
    Unauthorized,
    /// The host could not move the fee.
    TransferFailed,
    /// The ledger, or its storage slot, holds state already.
    AlreadyInitialized,
    /// The storage slot is not the one derived for the program.
    InvalidStorageAddress,
}

/// A movement of `amount` from `from` to `to`, for the host to carry out.
#[derive(Clone, Copy, Debug, PartialEq, Eq)]
pub struct Transfer {
    pub from: Address,
    pub to: Address,
    pub amount: u64,
}

pub struct TransferView {
    pub from: Seq<u8>,
    pub to: Seq<u8>,
    pub amount: u64,
}

impl View for Transfer {
    type V = TransferView;

    open spec fn view(&self) -> TransferView {
        TransferView { from: self.from@, to: self.to@, amount: self.amount }
    }
}

/// The event that releases a finalized notification to its listeners.
#[derive(Clone, Debug)]
pub struct NotificationSent {
    pub notification_id: String,
    pub message_type: String,
    pub encrypted_payload: String,
}

pub struct EventView {
    pub notification_id: Seq<char>,
    pub message_type: Seq<char>,
    pub encrypted_payload: Seq<char>,
}

impl View for NotificationSent {
    type V = EventView;

    open spec fn view(&self) -> EventView {
        EventView {
            notification_id: self.notification_id@,
            message_type: self.message_type@,
            encrypted_payload: self.encrypted_payload@,
        }
    }
}

/// A result with its success value seen through its view.
pub open spec fn result_view<T: View>(r: Result<T, ErrorCode>) -> Result<T::V, ErrorCode> {
    match r {
        Ok(v) => Ok(v@),
        Err(e) => Err(e),
    }
}

/// The accounts that `init` is given.
#[derive(Clone, Copy, Debug)]
pub struct Init {
    /// The program that owns the ledger.
    pub program_id: Address,
    /// The storage slot that the caller hands in for the ledger.
    pub account_init: Address,
    /// What the storage slot holds now.
    pub account_init_balance: u64,
    /// Where the fees will go.
    pub vault: Address,
    /// Who pays for the storage slot.
    pub payer: Address,
}

/// The accounts that `prepaid_notification` is given.
#[derive(Clone, Copy, Debug)]
pub struct PrepaidNotification {
    /// Who pays the fee.
    pub payer: Address,
    /// Who may later finalize the notification.
    pub updater: Address,
}

/// The accounts that `update_and_send` is given.
#[derive(Clone, Copy, Debug)]
pub struct UpdateAndSend {
    /// The signer, already verified by the host, that claims to be the
    /// notification's updater.
    pub updater: Address,
}

/// The accounts that `send` is given.
#[derive(Clone, Copy, Debug)]
pub struct Send {
    /// Who pays the fee, and becomes the notification's updater.
    pub payer: Address,
}

/// What `init` does to `l`, with `expected` the address derived for the
/// ledger's storage slot: the one-time payment into the slot, or an error.
pub open spec fn init_spec(
    l: LedgerView,
    account_init: Seq<u8>,
    account_init_balance: u64,
    vault: Seq<u8>,
    payer: Seq<u8>,
    fee: u64,
    expected: Option<Seq<u8>>,
) -> (LedgerView, Result<TransferView, ErrorCode>) {
    if l.initialized {
        (l, Err(ErrorCode::AlreadyInitialized))
    } else if expected != Some(account_init) {
        (l, Err(ErrorCode::InvalidStorageAddress))
    } else if account_init_balance != 0 {
        (l, Err(ErrorCode::AlreadyInitialized))
    } else {
        (
            LedgerView { initialized: true, vault, fee, notifications: Seq::empty() },
            Ok(TransferView { from: payer, to: account_init, amount: fee }),
        )
    }
}

/// The fee transfer that reserving `id` for `payer` takes, or the error that
/// comes before any transfer.
pub open spec fn fee_transfer_spec(l: LedgerView, id: Seq<char>, payer: Seq<u8>) -> Result<
    TransferView,
    ErrorCode,
> {
    if has_id(l.notifications, id) {
        Err(ErrorCode::DuplicateId)
    } else {
        Ok(TransferView { from: payer, to: l.vault, amount: l.fee })
    }
}

/// What `prepaid_notification` does to `l`, where `fee_paid` tells whether
/// the host moved the fee.
pub open spec fn prepaid_spec(l: LedgerView, id: Seq<char>, updater: Seq<u8>, fee_paid: bool) -> (
    LedgerView,
    Result<(), ErrorCode>,
) {
    if has_id(l.notifications, id) {
        (l, Err(ErrorCode::DuplicateId))
    } else if !fee_paid {
        (l, Err(ErrorCode::TransferFailed))
    } else {
        (
            LedgerView {
                notifications: l.notifications.push(NotificationView { id, sent: false, updater }),
                ..l
            },
            Ok(()),
        )
    }
}

/// What `send` does to `l`, where `fee_paid` tells whether the host moved
/// the fee.
pub open spec fn send_spec(
    l: LedgerView,
    id: Seq<char>,
    payer: Seq<u8>,
    message_type: Seq<char>,
    payload: Seq<char>,
    fee_paid: bool,
) -> (LedgerView, Result<EventView, ErrorCode>) {
    if has_id(l.notifications, id) {
        (l, Err(ErrorCode::DuplicateId))
    } else if !fee_paid {
        (l, Err(ErrorCode::TransferFailed))
    } else {
        (
            LedgerView {
                notifications: l.notifications.push(NotificationView { id, sent: true, updater: payer }),
                ..l
            },
            Ok(EventView { notification_id: id, message_type, encrypted_payload: payload }),
        )
    }
}

/// What `update_and_send` does to `l` when `signer` finalizes `id`.
pub open spec fn finalize_spec(
    l: LedgerView,
    id: Seq<char>,
    signer: Seq<u8>,
    message_type: Seq<char>,
    payload: Seq<char>,
) -> (LedgerView, Result<EventView, ErrorCode>) {
    if !has_id(l.notifications, id) {
        (l, Err(ErrorCode::NotFound))
    } else if record_of(l.notifications, id).sent {
        (l, Err(ErrorCode::AlreadySent))
    } else if record_of(l.notifications, id).updater != signer {
        (l, Err(ErrorCode::Unauthorized))
    } else {
        (
            LedgerView {
                notifications: l.notifications.update(
                    index_of(l.notifications, id),
                    NotificationView { sent: true, ..record_of(l.notifications, id) },
                ),
                ..l
            },
            Ok(EventView { notification_id: id, message_type, encrypted_payload: payload }),
        )
    }
}

/// Initializes `main_data`, given the address derived for its storage slot,
/// and returns the payment that funds the slot.
pub fn init_at(main_data: &mut MainData, ctx: &Init, fee: u64, expected: Option<Address>) -> (r:
    Result<Transfer, ErrorCode>)
    requires
        old(main_data).wf(),
    ensures
        final(main_data).wf(),
        (final(main_data)@, result_view(r)) == init_spec(
            old(main_data)@,
            ctx.account_init@,
            ctx.account_init_balance,
            ctx.vault@,
            ctx.payer@,
            fee,
            match expected {
                Some(a) => Some(a@),
                None => None,
            },
        ),
{
    if main_data.is_initialized() {
        return Err(ErrorCode::AlreadyInitialized);
    }
    let slot_matches = match expected {
        Some(a) => a.same_as(&ctx.account_init),
        None => false,
    };
    if !slot_matches {
        return Err(ErrorCode::InvalidStorageAddress);
    }
    if ctx.account_init_balance != 0 {
        return Err(ErrorCode::AlreadyInitialized);
    }
    main_data.set_up(ctx.vault, fee);
    Ok(Transfer { from: ctx.payer, to: ctx.account_init, amount: fee })
}

/// Initializes `main_data` in the storage slot derived for `ctx.program_id`,
/// and returns the payment that funds the slot.
pub fn init(main_data: &mut MainData, ctx: &Init, fee: u64) -> (r: Result<Transfer, ErrorCode>)
    requires
        old(main_data).wf(),
    ensures
        final(main_data).wf(),
        (final(main_data)@, result_view(r)) == init_spec(
            old(main_data)@,
            ctx.account_init@,
            ctx.account_init_balance,
            ctx.vault@,
            ctx.payer@,
            fee,
            program_address_of(storage_seed_spec(), ctx.program_id@),
        ),
{
    let expected = storage_address(&ctx.program_id);
    init_at(main_data, ctx, fee, expected)
}

/// The fee transfer that reserving `notification_id` for `payer` takes: from
/// the payer to the vault, of the ledger's fee. An id taken already is
/// refused before any transfer.
pub fn fee_transfer(main_data: &MainData, notification_id: &String, payer: Address) -> (r: Result<
    Transfer,
    ErrorCode,
>)
    requires
        main_data.wf(),
    ensures
        result_view(r) == fee_transfer_spec(main_data@, notification_id@, payer@),
{
    match main_data.find(notification_id) {
        Some(_) => Err(ErrorCode::DuplicateId),
        None => Ok(Transfer { from: payer, to: main_data.vault_address(), amount: main_data.fee_amount() }),
    }
}

/// Reserves `notification_id`, once the host has tried the transfer of
/// `fee_transfer`: `fee_paid` tells whether it went through. The new record
/// is pending, and `ctx.updater` may finalize it.
pub fn prepaid_notification(
    main_data: &mut MainData,
    ctx: &PrepaidNotification,
    notification_id: String,
    fee_paid: bool,
) -> (r: Result<(), ErrorCode>)
    requires
        old(main_data).wf(),
    ensures
        final(main_data).wf(),
        (final(main_data)@, r) == prepaid_spec(old(main_data)@, notification_id@, ctx.updater@, fee_paid),
{
    if main_data.find(&notification_id).is_some() {
        return Err(ErrorCode::DuplicateId);
    }
    if !fee_paid {
        return Err(ErrorCode::TransferFailed);
    }
    main_data.insert(Notification { notification_id, sent: false, updater: ctx.updater });
    Ok(())
}

/// Reserves and finalizes `notification_id` at once, once the host has tried
/// the transfer of `fee_transfer`: `fee_paid` tells whether it went through.
/// The payer becomes the record's updater; the event to publish comes back.
pub fn send(
    main_data: &mut MainData,
    ctx: &Send,
    notification_id: String,
    message_type: String,
    encrypted_payload: String,
    fee_paid: bool,
) -> (r: Result<NotificationSent, ErrorCode>)
    requires
        old(main_data).wf(),
    ensures
        final(main_data).wf(),
        (final(main_data)@, result_view(r)) == send_spec(
            old(main_data)@,
            notification_id@,
            ctx.payer@,
            message_type@,
            encrypted_payload@,
            fee_paid,
        ),
{
    if main_data.find(&notification_id).is_some() {
        return Err(ErrorCode::DuplicateId);
    }
    if !fee_paid {
        return Err(ErrorCode::TransferFailed);
    }
    main_data.insert(
        Notification { notification_id: notification_id.clone(), sent: true, updater: ctx.payer },
    );
    Ok(NotificationSent { notification_id, message_type, encrypted_payload })
}

/// Finalizes the pending notification `notification_id` on behalf of its
/// updater, and returns the event to publish.
pub fn update_and_send(
    main_data: &mut MainData,
    ctx: &UpdateAndSend,
    notification_id: String,
    message_type: String,
    encrypted_payload: String,
) -> (r: Result<NotificationSent, ErrorCode>)
    requires
        old(main_data).wf(),
    ensures
        final(main_data).wf(),
        (final(main_data)@, result_view(r)) == finalize_spec(
            old(main_data)@,
            notification_id@,
            ctx.updater@,
            message_type@,
            encrypted_payload@,
        ),
{
    let i = match main_data.position(&notification_id) {
        Some(i) => i,
        None => {
            return Err(ErrorCode::NotFound);
        },
    };
    proof {
        lemma_record_of(main_data@.notifications, notification_id@, i as int);
    }
    let record = main_data.record_at(i);
    if record.sent {
        return Err(ErrorCode::AlreadySent);
    }
    if !record.updater.same_as(&ctx.updater) {
        return Err(ErrorCode::Unauthorized);
    }
    main_data.mark_sent(i);
    Ok(NotificationSent { notification_id, message_type, encrypted_payload })
}

} // verus!
