//! Deployment of a RAMM to a Sui network: the configuration model, the
//! resolution of the objects that each step creates, and the transactions
//! that populate and initialize the RAMM.
//!
//! The library decides and the caller performs. Nothing here touches the
//! network: every function takes what the ledger answered as plain values,
//! and returns what is to be asked or submitted next.
//!
//! - [`types`]: the deployment request and its validation;
//! - [`ledger`], [`effects`]: the ledger's values and a transaction's result;
//! - [`package`], [`capabilities`], [`aggregators`]: what each step's result
//!   is resolved to;
//! - [`transaction`]: the call that creates the RAMM and the batched
//!   transaction that populates and initializes it;
//! - [`pipeline`]: the order of the steps, as a state machine.

pub mod aggregators;
pub mod assent;
pub mod capabilities;
pub mod effects;
pub mod error;
pub mod faucet;
pub mod identifier;
pub mod ledger;
pub mod package;
pub mod paint;
pub mod pipeline;
pub mod text;
pub mod transaction;
pub mod types;

pub use aggregators::build_aggr_obj_args;
pub use assent::UserAssent;
pub use capabilities::{build_ramm_obj_args, RAMMObjectArgs, RAMMObjectIDs};
pub use package::{get_ramm_id_from_tx_response, publish_tx};
pub use pipeline::ramm_deployment_step;
pub use transaction::{add_assets_and_init_ramm, first_coin, new_ramm_tx};
