//! A small expression interpreter: boolean combinators (`And`, `Or`) over
//! leaf expressions (`MakeSandwich`, `EatSandwich`, `Cry`) that mutate a
//! shared string-keyed store of tagged values. Every expression exposes one
//! `interpret` operation whose whole effect on the store, and whose result,
//! are pinned by a recursive specification of the evaluation.

pub mod context;
pub mod emission;
pub mod expression;
pub mod laws;

pub use context::Context;
pub use context::Ingredient;
pub use context::Sandwich;
pub use context::Value;
pub use context::ValueView;
pub use expression::And;
pub use expression::Cry;
pub use expression::EatSandwich;
pub use expression::EvalError;
pub use expression::Expr;
pub use expression::Expression;
pub use expression::MakeSandwich;
pub use expression::Or;
pub use expression::Outcome;
pub use expression::Reason;
pub use expression::add_sandwich_to_context;
pub use expression::remove_sandwich_from_context;
