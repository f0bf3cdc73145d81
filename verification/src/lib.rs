//! Takes the spending data of a transaction input apart.
//!
//! An input comes with an output script, a script signature and a witness. [`txdata::from_txdata`]
//! finds out from them what the spend is evaluated against (a key or a script), which items are
//! left for the evaluation, and which script a signature hash is taken over, and refuses a spend
//! whose key or script is not the one that the output commits to.
//!
//! Where a script has to be decoded the spend is handed out half done, as a
//! [`inner::PendingScript`] or a [`inner::PendingTapScript`]. Its `resume` takes the decoded
//! script, or the reason why there is none, and goes on.
pub mod byte_laws;
mod bytes;
pub mod crypto;
pub mod error;
pub mod inner;
pub mod keys;
pub mod laws;
pub mod miniscript;
pub mod script;
pub mod script_sig;
pub mod spend_laws;
pub mod stack;
pub mod taproot;
pub mod tree_laws;
pub mod txdata;
pub mod view_laws;
