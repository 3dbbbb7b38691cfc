use agent::tool::arithmetic::{Op, Program};
use agent::tool::builtins::{default_registry, CalculatorTool};
use agent::tool::{DuplicateTool, Tool, ToolRegistry};
use agent::{Json, ToolError};

fn json(text: &str) -> Json {
    Json::parse(text).expect("valid JSON")
}

/// Runs a program on floating-point numbers.
fn evaluate(program: &Program) -> Result<Json, ToolError> {
    let mut stack: Vec<f64> = Vec::new();
    for op in &program.ops {
        if let Op::Push(text) = op {
            stack.push(text.parse().expect("the text of a number"));
            continue;
        }
        let upper = stack.pop().expect("an operand");
        if let Op::Neg = op {
            stack.push(-upper);
            continue;
        }
        let lower = stack.pop().expect("a second operand");
        match op {
            Op::Add => stack.push(lower + upper),
            Op::Sub => stack.push(lower - upper),
            Op::Mul => stack.push(lower * upper),
            _ => {
                if upper == 0.0 {
                    return program.conclude(None);
                }
                stack.push(lower / upper);
            }
        }
    }
    let top = match stack.last() {
        Some(value) => json(&serde_json::Value::from(*value).to_string()),
        None => Json::null(),
    };
    program.conclude(Some(&top))
}

fn calc(expression: &str) -> Result<Json, ToolError> {
    let program = CalculatorTool.execute(&Json::single_field("expression", expression))?;
    evaluate(&program)
}

fn invalid(why: &str) -> Result<Json, ToolError> {
    Err(ToolError::InvalidInput(why.to_string()))
}

#[test]
fn respects_precedence_and_parens() {
    assert_eq!(calc("1 + 2 * 3").unwrap(), json("{\"result\": 7.0}"));
    assert_eq!(calc("(1 + 2) * 3").unwrap(), json("{\"result\": 9.0}"));
}

#[test]
fn handles_unary_minus() {
    assert_eq!(calc("-3 + 5").unwrap(), json("{\"result\": 2.0}"));
}

#[test]
fn missing_field_is_invalid_input() {
    let err = CalculatorTool.execute(&json("{}")).unwrap_err();
    assert_eq!(err, ToolError::InvalidInput("expected string field 'expression'".into()));
}

#[test]
fn garbage_expression_is_invalid_input() {
    assert!(matches!(calc("1 +").unwrap_err(), ToolError::InvalidInput(_)));
}

#[test]
fn division_by_zero_is_execution_failure() {
    assert_eq!(
        calc("1 / 0").unwrap_err(),
        ToolError::ExecutionFailed("division by zero".into())
    );
}

#[test]
fn default_registry_has_calculator() {
    let r = default_registry();
    assert!(r.get("calculator").is_some());
    assert!(r.get("nope").is_none());
}

#[test]
fn duplicate_registration_is_rejected() {
    let mut r = default_registry();
    let err = r.register(CalculatorTool).expect_err("second calculator should be rejected");
    assert_eq!(err, DuplicateTool("calculator".into()));
    assert_eq!(err.to_string(), "a tool named 'calculator' is already registered");
}

#[test]
fn schemas_are_sorted_and_describe_tools() {
    let schemas = default_registry().schemas();
    assert_eq!(schemas.len(), 1);
    assert_eq!(schemas[0].name, "calculator");
    let parameters: serde_json::Value =
        serde_json::from_str(schemas[0].parameters.text()).expect("valid JSON");
    assert_eq!(
        parameters["required"],
        serde_json::Value::Array(vec![serde_json::Value::String("expression".into())])
    );
}

#[test]
fn the_schema_is_compact_json() {
    let parameters = CalculatorTool.parameters();
    assert_eq!(Json::parse(parameters.text()), Some(parameters));
}

#[test]
fn get_then_execute_runs_the_tool() {
    let r = default_registry();
    let program = r
        .get("calculator")
        .unwrap()
        .execute(&json("{\"expression\": \"1 + 2 * 3\"}"))
        .unwrap();
    assert_eq!(evaluate(&program).unwrap(), json("{\"result\": 7.0}"));
}

#[test]
fn operators_associate_to_the_left() {
    assert_eq!(calc("10 - 4 - 3").unwrap(), json("{\"result\": 3.0}"));
    assert_eq!(calc("24 / 4 / 3").unwrap(), json("{\"result\": 2.0}"));
    assert_eq!(calc("2 * 6 / 3").unwrap(), json("{\"result\": 4.0}"));
}

#[test]
fn signs_stack_and_bind_tightest() {
    assert_eq!(calc("--4").unwrap(), json("{\"result\": 4.0}"));
    assert_eq!(calc("-+-4").unwrap(), json("{\"result\": 4.0}"));
    assert_eq!(calc("2 * -3").unwrap(), json("{\"result\": -6.0}"));
    assert_eq!(calc("-(1 + 2)").unwrap(), json("{\"result\": -3.0}"));
}

#[test]
fn white_space_may_stand_anywhere_between_tokens() {
    assert_eq!(calc(" \t(\n1 +\r2 )*\x0C3 ").unwrap(), json("{\"result\": 9.0}"));
    assert_eq!(calc("1 2"), invalid("unexpected trailing input"));
}

#[test]
fn numbers_may_leave_out_a_side_of_the_point() {
    assert_eq!(calc(".5").unwrap(), json("{\"result\": 0.5}"));
    assert_eq!(calc("5.").unwrap(), json("{\"result\": 5.0}"));
    assert_eq!(calc("."), invalid("invalid number"));
    assert_eq!(calc("1.2.3"), invalid("invalid number"));
}

#[test]
fn each_fault_has_its_message() {
    assert_eq!(calc(""), invalid("expected a number"));
    assert_eq!(calc("1 + "), invalid("expected a number"));
    assert_eq!(calc("(1 + 2"), invalid("missing ')'"));
    assert_eq!(calc("1)"), invalid("unexpected trailing input"));
    assert_eq!(calc("1 + x"), invalid("expected a number"));
    assert_eq!(calc("1 \u{d7} 2"), invalid("unexpected trailing input"));
}

#[test]
fn a_division_by_zero_is_met_before_a_later_fault() {
    let zero = Err(ToolError::ExecutionFailed("division by zero".into()));
    assert_eq!(calc("1 / 0 +"), zero);
    assert_eq!(calc("1 / (2 - 2) )"), zero);
    assert_eq!(calc("1 / 0.0"), zero);
    assert_eq!(calc("1 / -0"), zero);
    assert_eq!(calc("(1 / 0"), zero);
    assert_eq!(calc("x + 1 / 0"), invalid("expected a number"));
}

#[test]
fn results_that_are_no_numbers_are_null() {
    let huge = "9".repeat(400);
    assert_eq!(calc(&huge).unwrap(), json("{\"result\": null}"));
}

#[test]
fn the_program_of_an_expression_is_in_postfix_order() {
    let program = CalculatorTool
        .execute(&Json::single_field("expression", "1 - 2 * -3"))
        .unwrap();
    assert_eq!(program.fault, None);
    assert_eq!(
        program.ops,
        vec![
            Op::Push("1".into()),
            Op::Push("2".into()),
            Op::Push("3".into()),
            Op::Neg,
            Op::Mul,
            Op::Sub,
        ]
    );
}

#[test]
fn the_expression_must_be_a_string() {
    let expected = ToolError::InvalidInput("expected string field 'expression'".into());
    assert_eq!(CalculatorTool.execute(&json("{\"expression\": 1}")).unwrap_err(), expected);
    assert_eq!(CalculatorTool.execute(&json("[\"expression\"]")).unwrap_err(), expected);
    assert_eq!(CalculatorTool.execute(&Json::null()).unwrap_err(), expected);
}

/// A tool with a name of its own and nothing else to it.
struct Named(&'static str);

impl Tool for Named {
    type Output = Json;

    fn name(&self) -> &str {
        self.0
    }

    fn description(&self) -> &str {
        "does nothing"
    }

    fn parameters(&self) -> Json {
        Json::null()
    }

    fn execute(&self, _input: &Json) -> Result<Json, ToolError> {
        Ok(Json::null())
    }
}

fn names(registry: &ToolRegistry<Named>) -> Vec<String> {
    registry.schemas().into_iter().map(|schema| schema.name).collect()
}

#[test]
fn listings_do_not_depend_on_the_order_of_registration() {
    let mut one = ToolRegistry::new();
    for name in ["b", "ab", "", "a", "b\u{e9}"] {
        assert!(one.register(Named(name)).is_ok());
    }
    let mut other = ToolRegistry::new();
    for name in ["a", "b\u{e9}", "b", "", "ab"] {
        assert!(other.register(Named(name)).is_ok());
    }
    assert_eq!(names(&one), vec!["", "a", "ab", "b", "b\u{e9}"]);
    assert_eq!(names(&one), names(&other));
    assert!(one.register(Named("ab")).is_err());
    assert_eq!(names(&one).len(), 5);
}
