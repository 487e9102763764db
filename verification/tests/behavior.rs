use interpreter::And;
use interpreter::Context;
use interpreter::Cry;
use interpreter::EatSandwich;
use interpreter::EvalError;
use interpreter::Expr;
use interpreter::Expression;
use interpreter::MakeSandwich;
use interpreter::Or;
use interpreter::Value;
use interpreter::add_sandwich_to_context;
use interpreter::remove_sandwich_from_context;

#[test]
fn context_insert_get_remove() {
    let mut context = Context::new();
    assert!(context.get("key").is_none());
    context.insert("key".to_string(), Value::Ingredient);
    assert!(matches!(context.get("key"), Some(Value::Ingredient)));
    let removed = context.remove("key");
    assert!(matches!(removed, Some(Value::Ingredient)));
    assert!(context.get("key").is_none());
    assert!(context.remove("key").is_none());
}

#[test]
fn make_sandwich_consumes_named_ingredient() {
    let mut context = Context::new();
    context.insert("cheese".to_string(), Value::Ingredient);
    let mut make = MakeSandwich::new();
    make.ingredients = vec!["cheese".to_string()];

    let result = make.interpret(&mut context);

    assert!(result.is_ok());
    assert!(context.get("cheese").is_none());
    match context.get("sandwich") {
        Some(Value::Sandwich(sandwich)) => assert_eq!(sandwich.ingredients.len(), 1),
        _ => panic!("a sandwich with one ingredient was expected"),
    }
}

#[test]
fn make_sandwich_fails_on_missing_ingredient() {
    let mut context = Context::new();
    let mut make = MakeSandwich::new();
    make.ingredients = vec!["missing".to_string()];

    let result = make.interpret(&mut context);

    match result {
        Err(EvalError::IngredientNotFound(name)) => assert_eq!(name, "missing".to_string()),
        _ => panic!("the missing ingredient was expected to fail the evaluation"),
    }
    assert!(context.get("sandwich").is_none());
}

#[test]
fn empty_ingredient_list_makes_empty_sandwich() {
    let mut context = Context::new();
    let make = MakeSandwich::new();

    let result = make.interpret(&mut context);

    assert!(result.is_ok());
    match context.get("sandwich") {
        Some(Value::Sandwich(sandwich)) => assert_eq!(sandwich.ingredients.len(), 0),
        _ => panic!("an empty sandwich was expected"),
    }
}

#[test]
fn duplicate_ingredient_fails_second_time() {
    let mut context = Context::new();
    context.insert("cheese".to_string(), Value::Ingredient);
    let mut make = MakeSandwich::new();
    make.ingredients = vec!["cheese".to_string(), "cheese".to_string()];

    let result = make.interpret(&mut context);

    match result {
        Err(EvalError::IngredientNotFound(name)) => assert_eq!(name, "cheese".to_string()),
        _ => panic!("the second use of the name was expected to fail"),
    }
    assert!(context.get("cheese").is_none());
    assert!(context.get("sandwich").is_none());
}

#[test]
fn wrong_kind_counts_as_not_found() {
    let mut context = Context::new();
    add_sandwich_to_context(&mut context, None).unwrap();
    let mut make = MakeSandwich::new();
    make.ingredients = vec!["sandwich".to_string()];

    let result = make.interpret(&mut context);

    assert!(matches!(result, Err(EvalError::IngredientNotFound(_))));
    assert!(context.get("sandwich").is_some());
}

#[test]
fn make_sandwich_overwrites_prior_sandwich() {
    let mut context = Context::new();
    context.insert("cheese".to_string(), Value::Ingredient);
    add_sandwich_to_context(&mut context, None).unwrap();
    let names = vec!["cheese".to_string()];

    add_sandwich_to_context(&mut context, Some(&names)).unwrap();

    match context.get("sandwich") {
        Some(Value::Sandwich(sandwich)) => assert_eq!(sandwich.ingredients.len(), 1),
        _ => panic!("the fuller sandwich was expected to replace the empty one"),
    }
}

#[test]
fn eat_sandwich_removes_the_entry() {
    let mut context = Context::new();
    add_sandwich_to_context(&mut context, None).unwrap();

    let result = EatSandwich::new().interpret(&mut context);

    assert!(result.is_ok());
    assert!(context.get("sandwich").is_none());
}

#[test]
fn eat_sandwich_fails_without_one() {
    let mut context = Context::new();
    context.insert("cheese".to_string(), Value::Ingredient);

    let result = EatSandwich::new().interpret(&mut context);

    assert!(matches!(result, Err(EvalError::SandwichNotFound)));
    assert!(context.get("cheese").is_some());
    assert!(context.get("sandwich").is_none());
}

#[test]
fn remove_sandwich_returns_the_sandwich() {
    let mut context = Context::new();
    context.insert("bread".to_string(), Value::Ingredient);
    context.insert("cheese".to_string(), Value::Ingredient);
    let names = vec!["bread".to_string(), "cheese".to_string()];
    add_sandwich_to_context(&mut context, Some(&names)).unwrap();

    let sandwich = remove_sandwich_from_context(&mut context).unwrap();

    assert_eq!(sandwich.ingredients.len(), 2);
    assert!(remove_sandwich_from_context(&mut context).is_none());
}

#[test]
fn cry_always_succeeds() {
    let mut context = Context::new();
    context.insert("cheese".to_string(), Value::Ingredient);

    let result = Cry::new().interpret(&mut context);

    assert!(result.is_ok());
    assert!(context.get("cheese").is_some());
}

#[test]
fn empty_and_succeeds() {
    let mut context = Context::new();
    context.insert("cheese".to_string(), Value::Ingredient);

    let result = And::new(vec![]).interpret(&mut context);

    assert!(result.is_ok());
    assert!(context.get("cheese").is_some());
}

#[test]
fn empty_or_fails() {
    let mut context = Context::new();
    context.insert("cheese".to_string(), Value::Ingredient);

    let result = Or::new(vec![]).interpret(&mut context);

    assert!(matches!(result, Err(EvalError::ExpressionFailed)));
    assert!(context.get("cheese").is_some());
}

#[test]
fn and_stops_at_first_failing_child() {
    let mut context = Context::new();
    let tree = And::new(vec![
        Expr::EatSandwich(EatSandwich::new()),
        Expr::MakeSandwich(MakeSandwich::new()),
    ]);

    let result = tree.interpret(&mut context);

    assert!(matches!(result, Err(EvalError::ExpressionFailed)));
    assert!(context.get("sandwich").is_none());
}

#[test]
fn or_stops_at_first_succeeding_child() {
    let mut context = Context::new();
    let tree = Or::new(vec![
        Expr::MakeSandwich(MakeSandwich::new()),
        Expr::EatSandwich(EatSandwich::new()),
    ]);

    let result = tree.interpret(&mut context);

    assert!(result.is_ok());
    assert!(context.get("sandwich").is_some());
}

#[test]
fn make_then_eat_leaves_context_empty() {
    let mut context = Context::new();
    context.insert("cheese".to_string(), Value::Ingredient);
    let mut make = MakeSandwich::new();
    make.ingredients = vec!["cheese".to_string()];
    let tree = And::new(vec![
        Expr::MakeSandwich(make),
        Expr::EatSandwich(EatSandwich::new()),
    ]);

    let result = tree.interpret(&mut context);

    assert!(result.is_ok());
    assert!(context.get("cheese").is_none());
    assert!(context.get("sandwich").is_none());
}

#[test]
fn composite_scenario_succeeds_via_cry() {
    let mut context = Context::new();
    context.insert("cheese".to_string(), Value::Ingredient);
    let mut make = MakeSandwich::new();
    make.ingredients = vec!["cheese".to_string()];
    let and_expression = And::new(vec![
        Expr::MakeSandwich(make),
        Expr::EatSandwich(EatSandwich::new()),
    ]);
    let or_expression = Or::new(vec![
        Expr::EatSandwich(EatSandwich::new()),
        Expr::Cry(Cry::new()),
    ]);
    let big_expression = And::new(vec![
        Expr::And(and_expression),
        Expr::Or(or_expression),
    ]);

    let result = big_expression.interpret(&mut context);

    assert!(result.is_ok());
}
