use interpreter::And;
use interpreter::Context;
use interpreter::EatSandwich;
use interpreter::Expr;
use interpreter::Expression;
use interpreter::MakeSandwich;
use interpreter::Or;
use interpreter::Value;
use interpreter::add_sandwich_to_context;

/// An expression that always succeeds: an `And` with no children.
fn always_success() -> Expr {
    Expr::And(And::new(vec![]))
}

/// An expression that always fails: an `Or` with no children.
fn always_fail() -> Expr {
    Expr::Or(Or::new(vec![]))
}

#[test]
fn should_add_sandwich_to_context() {
    // given
    let ingredients = vec!["cheese".to_string()];
    let mut context = Context::new();
    context.insert("cheese".to_string(), Value::Ingredient);
    let mut make_sandwich = MakeSandwich::new();
    make_sandwich.ingredients = ingredients;

    // when
    let result = make_sandwich.interpret(&mut context);

    // then
    let sandwich = context.remove("sandwich").unwrap();
    assert!(matches!(sandwich, Value::Sandwich(_)));
    assert!(result.is_ok());
}

#[test]
fn should_eat_sandwich() {
    // given
    let mut context = Context::new();
    add_sandwich_to_context(&mut context, None).unwrap();
    let eat_sandwich = EatSandwich::new();
    assert!(context.get("sandwich").is_some());

    // when
    let result = eat_sandwich.interpret(&mut context);

    // then
    assert!(result.is_ok());
    assert!(context.get("sandwich").is_none());
}

#[test]
fn should_successfully_interpret_and() {
    // given
    let mut context = Context::new();
    let and_expression = And::new(vec![always_success(), always_success()]);

    // when
    let result = and_expression.interpret(&mut context);

    // then
    assert!(result.is_ok());
}

#[test]
fn and_should_fail() {
    // given
    let mut context = Context::new();
    let and_expression = And::new(vec![always_success(), always_fail()]);

    // when
    let result = and_expression.interpret(&mut context);

    // then
    assert!(result.is_err());
}

#[test]
fn or_should_succeed() {
    // given
    let mut context = Context::new();
    let or_expression = Or::new(vec![
        always_fail(),
        always_fail(),
        always_fail(),
        always_success(),
    ]);

    // when
    let result = or_expression.interpret(&mut context);

    // then
    assert!(result.is_ok());
}

#[test]
fn or_should_fail() {
    // given
    let mut context = Context::new();
    let or_expression = Or::new(vec![always_fail(), always_fail(), always_fail()]);

    // when
    let result = or_expression.interpret(&mut context);

    // then
    assert!(result.is_err());
}
