//! An admin-gated payment relay: a single configuration record, guarded by an
//! owner identity, that routes fungible-token payments from a payer to a
//! designated receiver and can be paused and resumed by the owner.

mod contexts;
pub mod laws;
mod processor;
mod state;

pub use contexts::Initialize;
pub use contexts::Pause;
pub use contexts::Pay;
pub use contexts::SetReceiver;
pub use contexts::Transfer;
pub use contexts::Unpause;
pub use processor::authorize_owner;
pub use processor::initialize;
pub use processor::owner_authorized;
pub use processor::pause;
pub use processor::pay;
pub use processor::pay_admitted;
pub use processor::payer_mint_matches;
pub use processor::receiver_bound;
pub use processor::receiver_mint_matches;
pub use processor::set_receiver;
pub use processor::spec_initialize;
pub use processor::spec_ledger_check;
pub use processor::spec_pause;
pub use processor::spec_pay;
pub use processor::spec_pay_gate;
pub use processor::spec_set_receiver;
pub use processor::spec_unpause;
pub use processor::transfer;
pub use processor::unpause;
pub use state::PAYMENT_PROCESSOR_SIZE;
pub use state::PaymentDone;
pub use state::PaymentProcessor;
pub use state::PaymentProcessorError;
pub use state::Pubkey;
pub use state::TokenAccount;
