//! An escrow ledger for deferred push notifications: a payer reserves the
//! delivery of a notification by paying a fee into a vault, and the party
//! named at reservation time later finalizes it, releasing its payload.
//!
//! The transitions are pure functions over an exclusively owned ledger. The
//! host moves funds and publishes events: a transition tells it which
//! transfer to make and hands back the event to publish.

mod address;
mod engine;
mod laws;
mod ledger;

pub use address::{program_address_of, storage_address, storage_seed, storage_seed_spec, Address};
pub use ledger::{
    has_id, ids_unique, index_of, lemma_push_fresh, lemma_record_of, lemma_update_same_id,
    record_of, LedgerView, MainData, Notification, NotificationView,
};
pub use engine::{
    fee_transfer, fee_transfer_spec, finalize_spec, init, init_at, init_spec, prepaid_notification,
    prepaid_spec, result_view, send, send_spec, update_and_send, ErrorCode, EventView, Init,
    NotificationSent, PrepaidNotification, Send, Transfer, TransferView, UpdateAndSend,
};
pub use laws::{
    lemma_fee_charged_once, lemma_finalize_refusals, lemma_init_only_once,
    lemma_prepaid_only_once, lemma_prepaid_then_finalize, lemma_send_is_final,
    lemma_send_only_once, lemma_sent_stays_sent,
};
