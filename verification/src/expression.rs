//! The expression tree and its evaluation. A tree is built bottom-up from a
//! closed set of node kinds; `interpret` walks it depth-first, left to right,
//! against one shared context, short-circuiting inside `And` and `Or`. The
//! recursive specification `eval` pins the result and the finishing store of
//! every node.

use vstd::prelude::*;

verus! {

use crate::context::Context;
use crate::context::Ingredient;
use crate::context::Sandwich;
use crate::context::Value;
use crate::context::ValueView;
use crate::emission::emit;

/// Why an evaluation failed.
#[derive(Debug)]
pub enum EvalError {
    /// `MakeSandwich` found no ingredient marker under the given name. An
    /// entry of another kind under that name counts the same as not found.
    IngredientNotFound(String),
    /// `EatSandwich` found no sandwich under the sandwich key. An entry of
    /// another kind under that key counts the same as not found.
    SandwichNotFound,
    /// A composite saw a child fail.
    ExpressionFailed,
}

/// The failure cause, at the specification level.
pub enum Reason {
    MissingIngredient(Seq<char>),
    MissingSandwich,
    ChildFailed,
}

/// What evaluating an expression on a store comes to: whether it succeeded,
/// the store it leaves behind, and on failure the cause.
pub enum Outcome {
    Success { store: Map<Seq<char>, ValueView> },
    Failure { store: Map<Seq<char>, ValueView>, reason: Reason },
}

impl Outcome {
    /// The store the evaluation leaves behind, whatever its result.
    pub open spec fn store(self) -> Map<Seq<char>, ValueView> {
        match self {
            Outcome::Success { store } => store,
            Outcome::Failure { store, reason: _ } => store,
        }
    }
}

/// The key under which a finished sandwich is stored.
pub open spec fn sandwich_key() -> Seq<char> {
    "sandwich"@
}

/// `n` identical ingredient markers.
pub open spec fn markers(n: nat) -> Seq<Ingredient> {
    Seq::new(n, |i: int| Ingredient {})
}

/// A node of the expression tree. The set of node kinds is closed: composite
/// nodes hold ordered children, leaf nodes hold only the data they need.
pub enum Expr {
    And(And),
    Or(Or),
    Cry(Cry),
    MakeSandwich(MakeSandwich),
    EatSandwich(EatSandwich),
}

/// Succeeds when every child succeeds, evaluated in order; the first failing
/// child ends the run. With no children it succeeds vacuously.
pub struct And {
    expressions: Vec<Expr>,
}

impl View for And {
    type V = Seq<Expr>;

    closed spec fn view(&self) -> Seq<Expr> {
        self.expressions@
    }
}

impl And {
    pub fn new(expressions: Vec<Expr>) -> (and: Self)
        ensures
            and@ == expressions@,
    {
        And { expressions }
    }
}

/// Succeeds at the first child that succeeds, evaluated in order; fails when
/// all children fail. With no children it fails.
pub struct Or {
    expressions: Vec<Expr>,
}

impl View for Or {
    type V = Seq<Expr>;

    closed spec fn view(&self) -> Seq<Expr> {
        self.expressions@
    }
}

impl Or {
    pub fn new(expressions: Vec<Expr>) -> (or: Self)
        ensures
            or@ == expressions@,
    {
        Or { expressions }
    }
}

/// Always succeeds; crying is an observable emission, with no effect on the
/// context.
pub struct Cry {}

impl Cry {
    pub fn new() -> (cry: Self) {
        Cry {}
    }
}

/// Consumes the named ingredient markers from the context, in order, and puts
/// the finished sandwich in under the sandwich key; fails at the first name
/// with no marker, with the names before it already consumed (no rollback)
/// and no sandwich added.
pub struct MakeSandwich {
    pub ingredients: Vec<String>,
}

impl MakeSandwich {
    /// A `MakeSandwich` with no ingredient names; the caller fills the list.
    pub fn new() -> (make: Self)
        ensures
            make.ingredients@ == Seq::<String>::empty(),
    {
        MakeSandwich { ingredients: Vec::new() }
    }
}

/// Takes the sandwich out of the context and eats it; fails when there is
/// none.
pub struct EatSandwich {}

impl EatSandwich {
    pub fn new() -> (eat: Self) {
        EatSandwich {}
    }
}

/// Evaluating one expression on a store: the model that `interpret` is
/// proved to follow, result and finishing store both.
pub open spec fn eval(e: Expr, store: Map<Seq<char>, ValueView>) -> Outcome
    decreases e, 0int, 0int,
{
    match e {
        Expr::And(and) => eval_children_and(and@, 0, store),
        Expr::Or(or) => eval_children_or(or@, 0, store),
        Expr::Cry(_) => Outcome::Success { store },
        Expr::MakeSandwich(make) => eval_make_sandwich(make.ingredients@, 0, store),
        Expr::EatSandwich(_) => eval_eat_sandwich(store),
    }
}

/// The children of an `And`, from index `i` on: each child runs on the store
/// the one before left behind; the first failure ends the run and fails the
/// whole, keeping that child's store.
pub open spec fn eval_children_and(
    es: Seq<Expr>,
    i: int,
    store: Map<Seq<char>, ValueView>,
) -> Outcome
    decreases es, 1int, es.len() - i,
{
    if !(0 <= i < es.len()) {
        Outcome::Success { store }
    } else {
        match eval(es[i], store) {
            Outcome::Success { store: next } => eval_children_and(es, i + 1, next),
            Outcome::Failure { store: next, reason: _ } => Outcome::Failure {
                store: next,
                reason: Reason::ChildFailed,
            },
        }
    }
}

/// The children of an `Or`, from index `i` on: each child runs on the store
/// the one before left behind; the first success ends the run and the whole
/// succeeds, keeping that child's store; when every child fails, the whole
/// fails.
pub open spec fn eval_children_or(
    es: Seq<Expr>,
    i: int,
    store: Map<Seq<char>, ValueView>,
) -> Outcome
    decreases es, 1int, es.len() - i,
{
    if !(0 <= i < es.len()) {
        Outcome::Failure { store, reason: Reason::ChildFailed }
    } else {
        match eval(es[i], store) {
            Outcome::Success { store: next } => Outcome::Success { store: next },
            Outcome::Failure { store: next, reason: _ } => eval_children_or(es, i + 1, next),
        }
    }
}

/// `MakeSandwich` from name index `i` on: every remaining name must map to an
/// ingredient marker, consumed in order; then a sandwich holding one marker
/// per name of the whole list goes in under the sandwich key. The first name
/// without a marker fails the run right there: earlier names stay consumed,
/// no sandwich goes in, and an entry of the wrong kind is left in place.
pub open spec fn eval_make_sandwich(
    names: Seq<String>,
    i: int,
    store: Map<Seq<char>, ValueView>,
) -> Outcome
    decreases names.len() - i,
{
    if !(0 <= i < names.len()) {
        Outcome::Success {
            store: store.insert(sandwich_key(), ValueView::Sandwich(markers(names.len()))),
        }
    } else if store.contains_key(names[i]@) && store[names[i]@] is Ingredient {
        eval_make_sandwich(names, i + 1, store.remove(names[i]@))
    } else {
        Outcome::Failure { store, reason: Reason::MissingIngredient(names[i]@) }
    }
}

/// `EatSandwich`: the sandwich key must hold a sandwich, which is removed.
/// An entry of the wrong kind counts as not found and is left in place.
pub open spec fn eval_eat_sandwich(store: Map<Seq<char>, ValueView>) -> Outcome {
    if store.contains_key(sandwich_key()) && store[sandwich_key()] is Sandwich {
        Outcome::Success { store: store.remove(sandwich_key()) }
    } else {
        Outcome::Failure { store, reason: Reason::MissingSandwich }
    }
}

/// Whether an error value reports the given failure cause.
pub open spec fn reports(e: EvalError, reason: Reason) -> bool {
    match reason {
        Reason::MissingIngredient(name) => e matches EvalError::IngredientNotFound(n) && n@
            == name,
        Reason::MissingSandwich => e == EvalError::SandwichNotFound,
        Reason::ChildFailed => e == EvalError::ExpressionFailed,
    }
}

/// Whether a finishing store and a returned result are exactly what the
/// outcome prescribes: success leaves the outcome's store and returns `Ok`;
/// failure leaves the outcome's store and returns the error that reports its
/// cause.
pub open spec fn outcome_matches(
    outcome: Outcome,
    store: Map<Seq<char>, ValueView>,
    r: Result<(), EvalError>,
) -> bool {
    match outcome {
        Outcome::Success { store: s } => store == s && r is Ok,
        Outcome::Failure { store: s, reason } => store == s && (r matches Err(e) && reports(
            e,
            reason,
        )),
    }
}

/// The view of the optional ingredient list handed to
/// `add_sandwich_to_context`: no list means no ingredients.
pub open spec fn opt_names(ingredients: Option<&Vec<String>>) -> Seq<String> {
    match ingredients {
        Some(names) => names@,
        None => Seq::empty(),
    }
}

/// Consume the named ingredient markers in order and put the finished
/// sandwich into the context under the sandwich key; with no list, put an
/// empty sandwich in. The first name without a marker fails the run right
/// there: earlier names stay consumed and no sandwich goes in.
pub fn add_sandwich_to_context(context: &mut Context, ingredients: Option<&Vec<String>>) -> (r:
    Result<(), EvalError>)
    ensures
        outcome_matches(
            eval_make_sandwich(opt_names(ingredients), 0, old(context)@),
            final(context)@,
            r,
        ),
{
    let mut sandwich = Sandwich::new();
    if let Some(names) = ingredients {
        let mut i: usize = 0;
        while i < names.len()
            invariant
                opt_names(ingredients) == names@,
                i <= names@.len(),
                sandwich@ =~= markers(i as nat),
                eval_make_sandwich(names@, 0, old(context)@) == eval_make_sandwich(
                    names@,
                    i as int,
                    context@,
                ),
            decreases names@.len() - i,
        {
            let name: &String = &names[i];
            let holds_marker: bool = match context.get(name.as_str()) {
                Some(value) => matches!(value, Value::Ingredient),
                None => false,
            };
            if !holds_marker {
                return Err(EvalError::IngredientNotFound(name.clone()));
            }
            let _ = context.remove(name.as_str());
            sandwich.ingredients.push(Ingredient {});
            i = i + 1;
        }
    }
    proof {
        assert(sandwich@ =~= markers(opt_names(ingredients).len()));
    }
    context.insert("sandwich".to_owned(), Value::Sandwich(sandwich));
    Ok(())
}

/// Take the sandwich entry out of the context, handing the sandwich back.
/// An entry of another kind under the sandwich key counts as not found and
/// is left in place, as is a context with no such entry.
pub fn remove_sandwich_from_context(context: &mut Context) -> (removed: Option<Sandwich>)
    ensures
        match eval_eat_sandwich(old(context)@) {
            Outcome::Success { store } => final(context)@ == store && (removed matches Some(
                sandwich,
            ) && ValueView::Sandwich(sandwich@) == old(context)@[sandwich_key()]),
            Outcome::Failure { store: _, reason: _ } => final(context)@ == old(context)@
                && removed is None,
        },
{
    let holds_sandwich: bool = match context.get("sandwich") {
        Some(value) => matches!(value, Value::Sandwich(_)),
        None => false,
    };
    if !holds_sandwich {
        return None;
    }
    match context.remove("sandwich") {
        Some(Value::Sandwich(sandwich)) => Some(sandwich),
        _ => None,
    }
}

/// A node of the evaluation tree: one `interpret` operation against the
/// shared context. `spec_eval` gives the node's whole effect; `interpret`
/// must realize it exactly.
pub trait Expression {
    /// The outcome this expression has on a given store.
    spec fn spec_eval(&self, store: Map<Seq<char>, ValueView>) -> Outcome;

    /// Evaluate against the context: the finishing context and the result
    /// are exactly what `spec_eval` prescribes.
    fn interpret(&self, context: &mut Context) -> (r: Result<(), EvalError>)
        ensures
            outcome_matches(self.spec_eval(old(context)@), final(context)@, r),
    ;
}

/// Evaluate one tree node against the context.
fn interpret_expr(e: &Expr, context: &mut Context) -> (r: Result<(), EvalError>)
    ensures
        outcome_matches(eval(*e, old(context)@), final(context)@, r),
    decreases *e, 0int, 0int,
{
    match e {
        Expr::And(and) => interpret_children_and(&and.expressions, 0, context),
        Expr::Or(or) => interpret_children_or(&or.expressions, 0, context),
        Expr::Cry(cry) => cry.interpret(context),
        Expr::MakeSandwich(make) => make.interpret(context),
        Expr::EatSandwich(eat) => eat.interpret(context),
    }
}

/// Evaluate the children of an `And` from index `i` on, stopping at the
/// first failure.
fn interpret_children_and(es: &Vec<Expr>, i: usize, context: &mut Context) -> (r: Result<
    (),
    EvalError,
>)
    requires
        i <= es@.len(),
    ensures
        outcome_matches(eval_children_and(es@, i as int, old(context)@), final(context)@, r),
    decreases es@, 1int, es@.len() - i,
{
    if i == es.len() {
        Ok(())
    } else {
        match interpret_expr(&es[i], context) {
            Ok(_) => interpret_children_and(es, i + 1, context),
            Err(_) => Err(EvalError::ExpressionFailed),
        }
    }
}

/// Evaluate the children of an `Or` from index `i` on, stopping at the first
/// success.
fn interpret_children_or(es: &Vec<Expr>, i: usize, context: &mut Context) -> (r: Result<
    (),
    EvalError,
>)
    requires
        i <= es@.len(),
    ensures
        outcome_matches(eval_children_or(es@, i as int, old(context)@), final(context)@, r),
    decreases es@, 1int, es@.len() - i,
{
    if i == es.len() {
        Err(EvalError::ExpressionFailed)
    } else {
        match interpret_expr(&es[i], context) {
            Ok(_) => Ok(()),
            Err(_) => interpret_children_or(es, i + 1, context),
        }
    }
}

impl Expression for Expr {
    open spec fn spec_eval(&self, store: Map<Seq<char>, ValueView>) -> Outcome {
        eval(*self, store)
    }

    fn interpret(&self, context: &mut Context) -> (r: Result<(), EvalError>) {
        interpret_expr(self, context)
    }
}

impl Expression for And {
    open spec fn spec_eval(&self, store: Map<Seq<char>, ValueView>) -> Outcome {
        eval_children_and(self@, 0, store)
    }

    fn interpret(&self, context: &mut Context) -> (r: Result<(), EvalError>) {
        interpret_children_and(&self.expressions, 0, context)
    }
}

impl Expression for Or {
    open spec fn spec_eval(&self, store: Map<Seq<char>, ValueView>) -> Outcome {
        eval_children_or(self@, 0, store)
    }

    fn interpret(&self, context: &mut Context) -> (r: Result<(), EvalError>) {
        interpret_children_or(&self.expressions, 0, context)
    }
}

impl Expression for Cry {
    open spec fn spec_eval(&self, store: Map<Seq<char>, ValueView>) -> Outcome {
        Outcome::Success { store }
    }

    fn interpret(&self, context: &mut Context) -> (r: Result<(), EvalError>) {
        emit("*cries*");
        Ok(())
    }
}

impl Expression for MakeSandwich {
    open spec fn spec_eval(&self, store: Map<Seq<char>, ValueView>) -> Outcome {
        eval_make_sandwich(self.ingredients@, 0, store)
    }

    fn interpret(&self, context: &mut Context) -> (r: Result<(), EvalError>) {
        add_sandwich_to_context(context, Some(&self.ingredients))
    }
}

impl Expression for EatSandwich {
    open spec fn spec_eval(&self, store: Map<Seq<char>, ValueView>) -> Outcome {
        eval_eat_sandwich(store)
    }

    fn interpret(&self, context: &mut Context) -> (r: Result<(), EvalError>) {
        match remove_sandwich_from_context(context) {
            Some(sandwich) => {
                sandwich.eat();
                Ok(())
            },
            None => Err(EvalError::SandwichNotFound),
        }
    }
}

} // verus!
