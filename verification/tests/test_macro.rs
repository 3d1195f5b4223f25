use meilisearch_sdk::test_macro::{
    check_arguments, classify_param, classify_params, plan_meilisearch_test, plan_steps,
    uses_client, uses_index, uses_name, MacroError, Param, ParamType, Step, TestItem,
};

fn path(last: &str) -> ParamType {
    ParamType::Path { last: last.to_string(), shown: format!("Type::Path({})", last) }
}

fn function(name: &str, is_async: bool, params: Vec<ParamType>) -> TestItem {
    TestItem::Function { name: name.to_string(), is_async, params }
}

#[test]
fn params_are_classified_by_their_last_segment() {
    assert!(matches!(classify_param(&path("Client")), Ok(Param::Client)));
    assert!(matches!(classify_param(&path("Index")), Ok(Param::Index)));
    assert!(matches!(classify_param(&path("String")), Ok(Param::String)));
    match classify_param(&path("Vec")) {
        Err(MacroError::UnsupportedType(shown)) => assert_eq!(shown, "Type::Path(Vec)"),
        _ => panic!("Vec is not a supported parameter"),
    }
    match classify_param(&ParamType::Other { shown: "&str".to_string() }) {
        Err(MacroError::UnsupportedType(shown)) => assert_eq!(shown, "&str"),
        _ => panic!("a reference is not a supported parameter"),
    }
    assert!(matches!(classify_param(&ParamType::Receiver), Err(MacroError::Receiver)));
}

#[test]
fn params_keep_their_order_and_first_error_wins() {
    let ok = classify_params(&vec![path("String"), path("Index"), path("Client")]).unwrap();
    assert_eq!(ok, vec![Param::String, Param::Index, Param::Client]);
    assert_eq!(classify_params(&vec![]).unwrap(), Vec::<Param>::new());
    match classify_params(&vec![path("Client"), path("u32"), ParamType::Receiver]) {
        Err(MacroError::UnsupportedType(shown)) => assert_eq!(shown, "Type::Path(u32)"),
        _ => panic!("the first bad parameter must be reported"),
    }
}

#[test]
fn needs_follow_the_params() {
    let idx = vec![Param::Index];
    assert!(uses_client(&idx) && uses_name(&idx) && uses_index(&idx));
    let cl = vec![Param::Client];
    assert!(uses_client(&cl) && !uses_name(&cl) && !uses_index(&cl));
    let st = vec![Param::String];
    assert!(!uses_client(&st) && uses_name(&st) && !uses_index(&st));
    let none: Vec<Param> = vec![];
    assert!(!uses_client(&none) && !uses_name(&none) && !uses_index(&none));
}

#[test]
fn steps_for_every_need() {
    assert_eq!(plan_steps(false, false, false), vec![Step::CallInner, Step::ReturnResult]);
    assert_eq!(
        plan_steps(true, true, true),
        vec![
            Step::CreateClient,
            Step::BindName,
            Step::CreateIndex,
            Step::CallInner,
            Step::DeleteIndex,
            Step::ReturnResult
        ]
    );
    assert_eq!(
        plan_steps(true, false, false),
        vec![Step::CreateClient, Step::CallInner, Step::ReturnResult]
    );
}

#[test]
fn plan_for_an_index_test() {
    let plan = plan_meilisearch_test(&function("test_search", true, vec![path("Client"), path("Index")]))
        .unwrap();
    assert_eq!(plan.inner_name, "_inner_meilisearch_test_macro_test_search");
    assert_eq!(plan.test_name, "test_search");
    assert_ne!(plan.inner_name, plan.test_name);
    assert_eq!(plan.args, vec![Param::Client, Param::Index]);
    assert_eq!(
        plan.steps,
        vec![
            Step::CreateClient,
            Step::BindName,
            Step::CreateIndex,
            Step::CallInner,
            Step::DeleteIndex,
            Step::ReturnResult
        ]
    );
}

#[test]
fn plan_without_params() {
    let plan = plan_meilisearch_test(&function("plain", true, vec![])).unwrap();
    assert_eq!(plan.args, Vec::<Param>::new());
    assert_eq!(plan.steps, vec![Step::CallInner, Step::ReturnResult]);
}

#[test]
fn refusals() {
    assert!(matches!(check_arguments(true), Err(MacroError::HasArguments)));
    assert!(matches!(check_arguments(false), Ok(())));
    assert!(matches!(plan_meilisearch_test(&TestItem::Other), Err(MacroError::NotAFunction)));
    assert!(matches!(
        plan_meilisearch_test(&function("sync", false, vec![path("Client")])),
        Err(MacroError::NotAsync)
    ));
    assert!(matches!(
        plan_meilisearch_test(&function("with_self", true, vec![ParamType::Receiver])),
        Err(MacroError::Receiver)
    ));
}

#[test]
fn refusal_messages() {
    assert_eq!(
        MacroError::HasArguments.message(),
        "the #[async_test] attribute currently does not take parameters"
    );
    assert_eq!(
        MacroError::NotAsync.message(),
        "#[meilisearch_test] can only be applied to async functions"
    );
    assert_eq!(
        MacroError::NotAFunction.message(),
        "#[meilisearch_test] can only be applied to async functions"
    );
    assert_eq!(
        MacroError::UnsupportedType("u32".to_string()).message(),
        "#[meilisearch_test] can only receive Client, Index or String as parameters but received u32"
    );
    assert_eq!(
        MacroError::Receiver.message(),
        "#[meilisearch_test] can only receive Client, Index or String as parameters"
    );
}
