//! Publishing a file to a content-addressed storage network and recording its
//! content identifier on a ledger by deploying a smart contract whose
//! constructor embeds that identifier.
//!
//! The heart of the crate is the deployment flow in [`eth`]: a verified state
//! machine that decides, stage by stage, what outside work a driver must do
//! next (compile, resolve the chain, decrypt the wallet, submit the
//! transaction) and how each stage's outcome is folded into the next decision.

pub mod compile;
pub mod eth;
pub mod ipfs;
pub mod pipeline;
