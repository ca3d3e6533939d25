use meal_planner::schema::{tool_definitions, ParamType};
use meal_planner::tools::{classify_tool_call, ToolCall, ToolKind, ToolParseError, GetRecipeArgs};

const ALL: [ToolKind; 7] = [
    ToolKind::SearchRecipes,
    ToolKind::GetRecipe,
    ToolKind::GetMealHistory,
    ToolKind::CreateMealPlan,
    ToolKind::GenerateShoppingList,
    ToolKind::LogMealCompleted,
    ToolKind::UpdatePreference,
];

#[test]
fn known_names_route_to_their_tool() {
    assert_eq!(classify_tool_call("search_recipes", "{}").ok(), Some(ToolKind::SearchRecipes));
    assert_eq!(classify_tool_call("get_recipe", "{\"slug\":\"x\"}").ok(), Some(ToolKind::GetRecipe));
    assert_eq!(classify_tool_call("update_preference", "{\"key\":\"a\",\"value\":\"b\"}").ok(), Some(ToolKind::UpdatePreference));
}

#[test]
fn unknown_tool_is_reported_by_name() {
    match classify_tool_call("order_pizza", "{}") {
        Err(ToolParseError::UnknownTool(n)) => assert_eq!(n, "order_pizza"),
        _ => panic!("expected an unknown tool"),
    }
}

#[test]
fn invalid_json_is_reported_before_the_name() {
    assert!(matches!(classify_tool_call("order_pizza", "{not json"), Err(ToolParseError::InvalidJson(_))));
    assert!(matches!(classify_tool_call("get_recipe", ""), Err(ToolParseError::InvalidJson(_))));
}

#[test]
fn names_round_trip() {
    for k in ALL {
        assert_eq!(ToolKind::from_name(&k.name()), Some(k));
    }
    assert_eq!(ToolKind::from_name("Search_Recipes"), None);
}

#[test]
fn definitions_offer_every_tool_in_order() {
    let defs = tool_definitions();
    assert_eq!(defs.len(), 7);
    for (d, k) in defs.iter().zip(ALL.iter()) {
        assert_eq!(d.name, k.name());
        assert_eq!(ToolKind::from_name(&d.name), Some(*k));
        for r in d.required.iter().flatten() {
            assert!(d.params.iter().any(|p| &p.name == r));
        }
    }
    assert!(defs[0].required.is_none());
    let meals = &defs[3].params[0];
    assert_eq!(meals.name, "meals");
    match &meals.param_type {
        ParamType::ObjectArray { fields, required } => {
            assert_eq!(fields.len(), 3);
            assert_eq!(fields[0].description.as_deref(), Some("ISO date (YYYY-MM-DD)"));
            assert_eq!(required, &vec!["date".to_string(), "recipe_slug".to_string(), "recipe_name".to_string()]);
        }
        _ => panic!("meals is an array of objects"),
    }
    assert_eq!(defs[5].required, Some(vec!["log_id".to_string(), "was_cooked".to_string()]));
}

#[test]
fn tool_call_kind_matches_variant() {
    let call = ToolCall::GetRecipe(GetRecipeArgs { slug: "soup".to_string() });
    assert_eq!(call.kind(), ToolKind::GetRecipe);
}

#[test]
fn every_schema_is_a_closed_function() {
    for d in tool_definitions() {
        assert_eq!(d.tool_type, "function");
        assert_eq!(d.parameters_type, "object");
        assert!(!d.additional_properties);
        assert!(!d.description.is_empty());
    }
}
