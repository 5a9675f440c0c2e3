//! Renaming of repositories: what a server decides when it is asked to give a
//! repository another name, and what a client decides before it asks.
//!
//! Both sides are step functions. [`repository_rename::handler`] and
//! [`rename::rename`] take the phase that a rename is in and what came back of
//! the last action; they give the next phase and the next action. Whoever
//! calls them carries the actions out.
//!
//! [`world`] describes the stores that the server's actions are carried out
//! on; [`laws`] and [`client_laws`] state what holds of whole renames.
//! [`account_laws`] and [`client_account_laws`] tell every action, answer and
//! outcome of a rename by what came in before it, [`step_laws`] and
//! [`client_step_laws`] what a single step comes to. [`view_laws`] state that
//! contracts, which speak of views, speak of all of a value.
pub mod account_laws;
pub mod client_account_laws;
pub mod client_laws;
pub mod client_step_laws;
pub mod key;
pub mod laws;
pub mod refusal;
pub mod rename;
pub mod repository_rename;
pub mod step_laws;
pub mod types;
pub mod view_laws;
pub mod world;
