//! The function schemas offered to the model (the `tools` array of a chat
//! request), kept as data whose JSON form the application writes out.

use vstd::prelude::*;
use vstd::string::*;
use crate::tools::{ToolKind, JsonShape, argument_fields, mandatory_field_names, tool_kind_name, tool_kind_of_name, all_tool_kinds, lemma_tool_name_round_trip, lemma_tool_name_nonempty};

verus! {

/// A field of the objects in an array parameter; every such field is a string.
pub struct ItemField {
    pub name: String,
    pub description: Option<String>,
}

/// The JSON-schema type of a parameter.
pub enum ParamType {
    Str,
    Integer,
    Number,
    Boolean,
    /// An array of strings.
    StringArray,
    /// An array of objects with string fields, of which `required` must be present.
    ObjectArray { fields: Vec<ItemField>, required: Vec<String> },
}

/// One named parameter of a tool.
pub struct ParamSpec {
    pub name: String,
    pub param_type: ParamType,
    pub description: String,
}

/// The schema of one tool: its type ("function"), its name, what it does, the
/// JSON type of its parameter block ("object"), its parameters, which of them
/// are required when the schema lists them, and whether properties beyond the
/// listed ones are allowed.
pub struct ToolSpec {
    pub tool_type: String,
    pub parameters_type: String,
    pub additional_properties: bool,
    pub name: String,
    pub description: String,
    pub params: Vec<ParamSpec>,
    pub required: Option<Vec<String>>,
}

pub struct ItemFieldView {
    pub name: Seq<char>,
    pub description: Option<Seq<char>>,
}

pub enum ParamTypeView {
    Str,
    Integer,
    Number,
    Boolean,
    StringArray,
    ObjectArray(Seq<ItemFieldView>, Seq<Seq<char>>),
}

pub struct ParamSpecView {
    pub name: Seq<char>,
    pub param_type: ParamTypeView,
    pub description: Seq<char>,
}

pub struct ToolSpecView {
    pub tool_type: Seq<char>,
    pub parameters_type: Seq<char>,
    pub additional_properties: bool,
    pub name: Seq<char>,
    pub description: Seq<char>,
    pub params: Seq<ParamSpecView>,
    pub required: Option<Seq<Seq<char>>>,
}

/// The views of a list of strings.
pub open spec fn strings_view(v: Seq<String>) -> Seq<Seq<char>> {
    v.map_values(|s: String| s@)
}

impl View for ItemField {
    type V = ItemFieldView;

    open spec fn view(&self) -> ItemFieldView {
        ItemFieldView {
            name: self.name@,
            description: match self.description {
                Some(d) => Some(d@),
                None => None,
            },
        }
    }
}

impl View for ParamType {
    type V = ParamTypeView;

    open spec fn view(&self) -> ParamTypeView {
        match self {
            ParamType::Str => ParamTypeView::Str,
            ParamType::Integer => ParamTypeView::Integer,
            ParamType::Number => ParamTypeView::Number,
            ParamType::Boolean => ParamTypeView::Boolean,
            ParamType::StringArray => ParamTypeView::StringArray,
            ParamType::ObjectArray { fields, required } => ParamTypeView::ObjectArray(
                fields@.map_values(|f: ItemField| f@),
                strings_view(required@),
            ),
        }
    }
}

impl View for ParamSpec {
    type V = ParamSpecView;

    open spec fn view(&self) -> ParamSpecView {
        ParamSpecView {
            name: self.name@,
            param_type: self.param_type@,
            description: self.description@,
        }
    }
}

impl View for ToolSpec {
    type V = ToolSpecView;

    open spec fn view(&self) -> ToolSpecView {
        ToolSpecView {
            tool_type: self.tool_type@,
            parameters_type: self.parameters_type@,
            additional_properties: self.additional_properties,
            name: self.name@,
            description: self.description@,
            params: self.params@.map_values(|p: ParamSpec| p@),
            required: match self.required {
                Some(r) => Some(strings_view(r@)),
                None => None,
            },
        }
    }
}

/// The views of a list of tool schemas.
pub open spec fn tool_specs_view(v: Seq<ToolSpec>) -> Seq<ToolSpecView> {
    v.map_values(|t: ToolSpec| t@)
}

pub open spec fn pv(name: Seq<char>, t: ParamTypeView, description: Seq<char>) -> ParamSpecView {
    ParamSpecView { name, param_type: t, description }
}

pub open spec fn search_recipes_spec() -> ToolSpecView {
    ToolSpecView {
        tool_type: "function"@,
        parameters_type: "object"@,
        additional_properties: false,
        name: "search_recipes"@,
        description: "Search the Mealie recipe database. Returns recipe summaries with names, ratings, and tags. Use this to find candidate meals for planning."@,
        params: seq![
            pv("query"@, ParamTypeView::Str, "Free-text search query (e.g. 'chicken stir fry', 'pasta')"@),
            pv("tags"@, ParamTypeView::StringArray, "Filter by recipe tags (e.g. ['quick', 'vegetarian'])"@),
            pv("categories"@, ParamTypeView::StringArray, "Filter by categories (e.g. ['dinner', 'one-pot'])"@),
            pv("min_rating"@, ParamTypeView::Number, "Minimum star rating (1-5)"@),
        ],
        required: None,
    }
}

pub open spec fn get_recipe_spec() -> ToolSpecView {
    ToolSpecView {
        tool_type: "function"@,
        parameters_type: "object"@,
        additional_properties: false,
        name: "get_recipe"@,
        description: "Get full details of a specific recipe including ingredients and instructions."@,
        params: seq![pv("slug"@, ParamTypeView::Str, "Recipe slug identifier"@)],
        required: Some(seq!["slug"@]),
    }
}

pub open spec fn get_meal_history_spec() -> ToolSpecView {
    ToolSpecView {
        tool_type: "function"@,
        parameters_type: "object"@,
        additional_properties: false,
        name: "get_meal_history"@,
        description: "Retrieve recent meal planning history. Shows what was planned, whether it was actually cooked, and any substitutions. Use this to avoid repeating meals and to check plan compliance."@,
        params: seq![
            pv("since_days_ago"@, ParamTypeView::Integer, "How many days of history to retrieve (e.g. 30 for last month)"@),
        ],
        required: Some(seq!["since_days_ago"@]),
    }
}

pub open spec fn meal_item_fields() -> Seq<ItemFieldView> {
    seq![
        ItemFieldView { name: "date"@, description: Some("ISO date (YYYY-MM-DD)"@) },
        ItemFieldView { name: "recipe_slug"@, description: None },
        ItemFieldView { name: "recipe_name"@, description: None },
    ]
}

pub open spec fn create_meal_plan_spec() -> ToolSpecView {
    ToolSpecView {
        tool_type: "function"@,
        parameters_type: "object"@,
        additional_properties: false,
        name: "create_meal_plan"@,
        description: "Create meal plan entries in Mealie. Call this after the user approves the proposed plan."@,
        params: seq![
            pv(
                "meals"@,
                ParamTypeView::ObjectArray(
                    meal_item_fields(),
                    seq!["date"@, "recipe_slug"@, "recipe_name"@],
                ),
                "List of meals to plan"@,
            ),
        ],
        required: Some(seq!["meals"@]),
    }
}

pub open spec fn generate_shopping_list_spec() -> ToolSpecView {
    ToolSpecView {
        tool_type: "function"@,
        parameters_type: "object"@,
        additional_properties: false,
        name: "generate_shopping_list"@,
        description: "Generate a shopping list in Mealie from the given recipe IDs. Aggregates all ingredients."@,
        params: seq![
            pv("list_name"@, ParamTypeView::Str, "Name for the shopping list (defaults to 'Weekly Shop')"@),
            pv("recipe_ids"@, ParamTypeView::StringArray, "Recipe IDs to include"@),
        ],
        required: Some(seq!["recipe_ids"@]),
    }
}

pub open spec fn log_meal_completed_spec() -> ToolSpecView {
    ToolSpecView {
        tool_type: "function"@,
        parameters_type: "object"@,
        additional_properties: false,
        name: "log_meal_completed"@,
        description: "Log whether a planned meal was actually cooked. Used for tracking plan compliance and improving future recommendations."@,
        params: seq![
            pv("log_id"@, ParamTypeView::Integer, "Meal log entry ID"@),
            pv("was_cooked"@, ParamTypeView::Boolean, "Whether the meal was actually made"@),
            pv("substituted_with"@, ParamTypeView::Str, "What was made instead, if substituted"@),
        ],
        required: Some(seq!["log_id"@, "was_cooked"@]),
    }
}

pub open spec fn update_preference_spec() -> ToolSpecView {
    ToolSpecView {
        tool_type: "function"@,
        parameters_type: "object"@,
        additional_properties: false,
        name: "update_preference"@,
        description: "Store a user preference for future meal planning. Examples: 'no_fish_on_monday', 'prefer_quick_meals_weekdays', 'avoid_risotto_for_now'."@,
        params: seq![
            pv("key"@, ParamTypeView::Str, "Preference key"@),
            pv("value"@, ParamTypeView::Str, "Preference value or description"@),
        ],
        required: Some(seq!["key"@, "value"@]),
    }
}

/// The schemas of all tools, in the order in which they are offered.
pub open spec fn spec_tool_definitions() -> Seq<ToolSpecView> {
    seq![
        search_recipes_spec(),
        get_recipe_spec(),
        get_meal_history_spec(),
        create_meal_plan_spec(),
        generate_shopping_list_spec(),
        log_meal_completed_spec(),
        update_preference_spec(),
    ]
}

fn param(name: &str, param_type: ParamType, description: &str) -> (p: ParamSpec)
    ensures
        p@ == pv(name@, param_type@, description@),
{
    ParamSpec {
        name: String::from_str(name),
        param_type,
        description: String::from_str(description),
    }
}

fn item_field(name: &str, description: Option<&str>) -> (f: ItemField)
    ensures
        f@.name == name@,
        f@.description == match description {
            Some(d) => Some(d@),
            None => None::<Seq<char>>,
        },
{
    ItemField {
        name: String::from_str(name),
        description: match description {
            Some(d) => Some(String::from_str(d)),
            None => None,
        },
    }
}

fn search_recipes_tool() -> (t: ToolSpec)
    ensures
        t@ == search_recipes_spec(),
{
    let mut params: Vec<ParamSpec> = Vec::new();
    params.push(param("query", ParamType::Str, "Free-text search query (e.g. 'chicken stir fry', 'pasta')"));
    params.push(param("tags", ParamType::StringArray, "Filter by recipe tags (e.g. ['quick', 'vegetarian'])"));
    params.push(param("categories", ParamType::StringArray, "Filter by categories (e.g. ['dinner', 'one-pot'])"));
    params.push(param("min_rating", ParamType::Number, "Minimum star rating (1-5)"));
    let t = ToolSpec {
        tool_type: String::from_str("function"),
        parameters_type: String::from_str("object"),
        additional_properties: false,
        name: String::from_str("search_recipes"),
        description: String::from_str("Search the Mealie recipe database. Returns recipe summaries with names, ratings, and tags. Use this to find candidate meals for planning."),
        params,
        required: None,
    };
    assert(t@.params =~= search_recipes_spec().params);
    t
}

fn get_recipe_tool() -> (t: ToolSpec)
    ensures
        t@ == get_recipe_spec(),
{
    let mut params: Vec<ParamSpec> = Vec::new();
    params.push(param("slug", ParamType::Str, "Recipe slug identifier"));
    let mut required: Vec<String> = Vec::new();
    required.push(String::from_str("slug"));
    assert(strings_view(required@) =~= seq!["slug"@]);
    let t = ToolSpec {
        tool_type: String::from_str("function"),
        parameters_type: String::from_str("object"),
        additional_properties: false,
        name: String::from_str("get_recipe"),
        description: String::from_str("Get full details of a specific recipe including ingredients and instructions."),
        params,
        required: Some(required),
    };
    assert(t@.params =~= get_recipe_spec().params);
    t
}

fn get_meal_history_tool() -> (t: ToolSpec)
    ensures
        t@ == get_meal_history_spec(),
{
    let mut params: Vec<ParamSpec> = Vec::new();
    params.push(param("since_days_ago", ParamType::Integer, "How many days of history to retrieve (e.g. 30 for last month)"));
    let mut required: Vec<String> = Vec::new();
    required.push(String::from_str("since_days_ago"));
    assert(strings_view(required@) =~= seq!["since_days_ago"@]);
    let t = ToolSpec {
        tool_type: String::from_str("function"),
        parameters_type: String::from_str("object"),
        additional_properties: false,
        name: String::from_str("get_meal_history"),
        description: String::from_str("Retrieve recent meal planning history. Shows what was planned, whether it was actually cooked, and any substitutions. Use this to avoid repeating meals and to check plan compliance."),
        params,
        required: Some(required),
    };
    assert(t@.params =~= get_meal_history_spec().params);
    t
}

fn create_meal_plan_tool() -> (t: ToolSpec)
    ensures
        t@ == create_meal_plan_spec(),
{
    let mut fields: Vec<ItemField> = Vec::new();
    fields.push(item_field("date", Some("ISO date (YYYY-MM-DD)")));
    fields.push(item_field("recipe_slug", None));
    fields.push(item_field("recipe_name", None));
    let mut item_required: Vec<String> = Vec::new();
    item_required.push(String::from_str("date"));
    item_required.push(String::from_str("recipe_slug"));
    item_required.push(String::from_str("recipe_name"));
    let ghost fields_view = fields@.map_values(|f: ItemField| f@);
    let ghost req_view = strings_view(item_required@);
    assert(fields_view =~= meal_item_fields());
    assert(req_view =~= seq!["date"@, "recipe_slug"@, "recipe_name"@]);
    let meals_type = ParamType::ObjectArray { fields, required: item_required };
    let mut params: Vec<ParamSpec> = Vec::new();
    params.push(param("meals", meals_type, "List of meals to plan"));
    let mut required: Vec<String> = Vec::new();
    required.push(String::from_str("meals"));
    assert(strings_view(required@) =~= seq!["meals"@]);
    let t = ToolSpec {
        tool_type: String::from_str("function"),
        parameters_type: String::from_str("object"),
        additional_properties: false,
        name: String::from_str("create_meal_plan"),
        description: String::from_str("Create meal plan entries in Mealie. Call this after the user approves the proposed plan."),
        params,
        required: Some(required),
    };
    assert(t@.params =~= create_meal_plan_spec().params);
    t
}

fn generate_shopping_list_tool() -> (t: ToolSpec)
    ensures
        t@ == generate_shopping_list_spec(),
{
    let mut params: Vec<ParamSpec> = Vec::new();
    params.push(param("list_name", ParamType::Str, "Name for the shopping list (defaults to 'Weekly Shop')"));
    params.push(param("recipe_ids", ParamType::StringArray, "Recipe IDs to include"));
    let mut required: Vec<String> = Vec::new();
    required.push(String::from_str("recipe_ids"));
    assert(strings_view(required@) =~= seq!["recipe_ids"@]);
    let t = ToolSpec {
        tool_type: String::from_str("function"),
        parameters_type: String::from_str("object"),
        additional_properties: false,
        name: String::from_str("generate_shopping_list"),
        description: String::from_str("Generate a shopping list in Mealie from the given recipe IDs. Aggregates all ingredients."),
        params,
        required: Some(required),
    };
    assert(t@.params =~= generate_shopping_list_spec().params);
    t
}

fn log_meal_completed_tool() -> (t: ToolSpec)
    ensures
        t@ == log_meal_completed_spec(),
{
    let mut params: Vec<ParamSpec> = Vec::new();
    params.push(param("log_id", ParamType::Integer, "Meal log entry ID"));
    params.push(param("was_cooked", ParamType::Boolean, "Whether the meal was actually made"));
    params.push(param("substituted_with", ParamType::Str, "What was made instead, if substituted"));
    let mut required: Vec<String> = Vec::new();
    required.push(String::from_str("log_id"));
    required.push(String::from_str("was_cooked"));
    assert(strings_view(required@) =~= seq!["log_id"@, "was_cooked"@]);
    let t = ToolSpec {
        tool_type: String::from_str("function"),
        parameters_type: String::from_str("object"),
        additional_properties: false,
        name: String::from_str("log_meal_completed"),
        description: String::from_str("Log whether a planned meal was actually cooked. Used for tracking plan compliance and improving future recommendations."),
        params,
        required: Some(required),
    };
    assert(t@.params =~= log_meal_completed_spec().params);
    t
}

fn update_preference_tool() -> (t: ToolSpec)
    ensures
        t@ == update_preference_spec(),
{
    let mut params: Vec<ParamSpec> = Vec::new();
    params.push(param("key", ParamType::Str, "Preference key"));
    params.push(param("value", ParamType::Str, "Preference value or description"));
    let mut required: Vec<String> = Vec::new();
    required.push(String::from_str("key"));
    required.push(String::from_str("value"));
    assert(strings_view(required@) =~= seq!["key"@, "value"@]);
    let t = ToolSpec {
        tool_type: String::from_str("function"),
        parameters_type: String::from_str("object"),
        additional_properties: false,
        name: String::from_str("update_preference"),
        description: String::from_str("Store a user preference for future meal planning. Examples: 'no_fish_on_monday', 'prefer_quick_meals_weekdays', 'avoid_risotto_for_now'."),
        params,
        required: Some(required),
    };
    assert(t@.params =~= update_preference_spec().params);
    t
}

/// The schemas of every tool, for the `tools` array of a chat request.
pub fn tool_definitions() -> (defs: Vec<ToolSpec>)
    ensures
        tool_specs_view(defs@) == spec_tool_definitions(),
{
    let mut defs: Vec<ToolSpec> = Vec::new();
    defs.push(search_recipes_tool());
    defs.push(get_recipe_tool());
    defs.push(get_meal_history_tool());
    defs.push(create_meal_plan_tool());
    defs.push(generate_shopping_list_tool());
    defs.push(log_meal_completed_tool());
    defs.push(update_preference_tool());
    assert(tool_specs_view(defs@) =~= spec_tool_definitions());
    defs
}

/// Every offered schema carries the name of the tool at the same position, so
/// every tool the model is offered is one that a call can be routed to.
pub proof fn lemma_offered_tools_are_routable(i: int)
    requires
        0 <= i < spec_tool_definitions().len(),
    ensures
        spec_tool_definitions()[i].name == tool_kind_name(all_tool_kinds()[i]),
        tool_kind_of_name(spec_tool_definitions()[i].name) == Some(all_tool_kinds()[i]),
{
    lemma_tool_name_round_trip(all_tool_kinds()[i]);
}

/// Every tool is offered: each kind's name is the name of some offered schema.
pub proof fn lemma_every_tool_is_offered(k: ToolKind)
    ensures
        exists|i: int| 0 <= i < spec_tool_definitions().len() && #[trigger] spec_tool_definitions()[i].name == tool_kind_name(k),
{
    match k {
        ToolKind::SearchRecipes => assert(spec_tool_definitions()[0].name == tool_kind_name(k)),
        ToolKind::GetRecipe => assert(spec_tool_definitions()[1].name == tool_kind_name(k)),
        ToolKind::GetMealHistory => assert(spec_tool_definitions()[2].name == tool_kind_name(k)),
        ToolKind::CreateMealPlan => assert(spec_tool_definitions()[3].name == tool_kind_name(k)),
        ToolKind::GenerateShoppingList => assert(spec_tool_definitions()[4].name == tool_kind_name(k)),
        ToolKind::LogMealCompleted => assert(spec_tool_definitions()[5].name == tool_kind_name(k)),
        ToolKind::UpdatePreference => assert(spec_tool_definitions()[6].name == tool_kind_name(k)),
    }
}

/// Every offered schema is a function whose parameters form an object that allows
/// no properties beyond the listed ones, with a non-empty name and description.
pub proof fn lemma_offered_tools_are_closed_functions(i: int)
    requires
        0 <= i < spec_tool_definitions().len(),
    ensures
        spec_tool_definitions()[i].tool_type == "function"@,
        spec_tool_definitions()[i].parameters_type == "object"@,
        !spec_tool_definitions()[i].additional_properties,
        spec_tool_definitions()[i].name.len() > 0,
        spec_tool_definitions()[i].description.len() > 0,
{
    lemma_offered_tools_are_routable(i);
    lemma_tool_name_nonempty(all_tool_kinds()[i]);
    reveal_strlit("Search the Mealie recipe database. Returns recipe summaries with names, ratings, and tags. Use this to find candidate meals for planning.");
    reveal_strlit("Get full details of a specific recipe including ingredients and instructions.");
    reveal_strlit("Retrieve recent meal planning history. Shows what was planned, whether it was actually cooked, and any substitutions. Use this to avoid repeating meals and to check plan compliance.");
    reveal_strlit("Create meal plan entries in Mealie. Call this after the user approves the proposed plan.");
    reveal_strlit("Generate a shopping list in Mealie from the given recipe IDs. Aggregates all ingredients.");
    reveal_strlit("Log whether a planned meal was actually cooked. Used for tracking plan compliance and improving future recommendations.");
    reveal_strlit("Store a user preference for future meal planning. Examples: 'no_fish_on_monday', 'prefer_quick_meals_weekdays', 'avoid_risotto_for_now'.");
}

/// The parameters a schema marks as required (none when it lists none).
pub open spec fn required_names(t: ToolSpecView) -> Seq<Seq<char>> {
    match t.required {
        Some(r) => r,
        None => Seq::empty(),
    }
}

/// Every required parameter of an offered schema is one of its declared parameters.
pub proof fn lemma_required_params_are_declared(i: int, j: int)
    requires
        0 <= i < spec_tool_definitions().len(),
        0 <= j < required_names(spec_tool_definitions()[i]).len(),
    ensures
        exists|p: int|
            0 <= p < spec_tool_definitions()[i].params.len() && #[trigger] spec_tool_definitions()[i].params[p].name
                == required_names(spec_tool_definitions()[i])[j],
{
    let t = spec_tool_definitions()[i];
    let r = required_names(t);
    if i == 1 || i == 2 || i == 3 {
        assert(t.params[0].name == r[j]);
    } else if i == 4 {
        assert(t.params[1].name == r[j]);
    } else if i == 5 || i == 6 {
        if j == 0 {
            assert(t.params[0].name == r[j]);
        } else {
            assert(t.params[1].name == r[j]);
        }
    }
}

/// The JSON value that a declared parameter type asks the model for.
pub open spec fn declared_shape(t: ParamTypeView) -> JsonShape {
    match t {
        ParamTypeView::Str => JsonShape::Str,
        ParamTypeView::Integer => JsonShape::Integer,
        ParamTypeView::Number => JsonShape::Number,
        ParamTypeView::Boolean => JsonShape::Boolean,
        ParamTypeView::StringArray => JsonShape::StringArray,
        ParamTypeView::ObjectArray(fields, required) => JsonShape::ObjectArray(
            fields.map_values(|f: ItemFieldView| f.name),
            required,
        ),
    }
}

/// Each offered schema declares exactly the fields of the argument struct that
/// its tool's arguments are decoded into, in order, each with the JSON type that
/// the field's Rust type is decoded from, and marks as required exactly the
/// fields that are not optional: what the model sends as the schema asks can be
/// decoded.
pub proof fn lemma_schemas_match_argument_types(i: int)
    requires
        0 <= i < spec_tool_definitions().len(),
    ensures
        spec_tool_definitions()[i].params.len() == argument_fields(all_tool_kinds()[i]).len(),
        forall|j: int|
            0 <= j < spec_tool_definitions()[i].params.len() ==> {
                &&& (#[trigger] spec_tool_definitions()[i].params[j]).name == argument_fields(all_tool_kinds()[i])[j].name
                &&& declared_shape(spec_tool_definitions()[i].params[j].param_type) == argument_fields(
                    all_tool_kinds()[i],
                )[j].shape
            },
        required_names(spec_tool_definitions()[i]) == mandatory_field_names(argument_fields(all_tool_kinds()[i])),
{
    reveal_with_fuel(mandatory_field_names, 5);
    let t = spec_tool_definitions()[i];
    let f = argument_fields(all_tool_kinds()[i]);
    assert(meal_item_fields().map_values(|m: ItemFieldView| m.name) =~= seq!["date"@, "recipe_slug"@, "recipe_name"@]);
    assert(required_names(t) =~= mandatory_field_names(f));
}

} // verus!
