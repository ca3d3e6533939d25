//! The tools offered to the LLM: their names, argument types and schemas, and
//! the routing of a requested call to a tool.

use vstd::prelude::*;
use vstd::string::*;
use crate::calendar::CalendarDate;

verus! {

/// The tools the agent can call.
#[derive(Clone, Copy, Debug, PartialEq, Eq, Structural)]
pub enum ToolKind {
    SearchRecipes,
    GetRecipe,
    GetMealHistory,
    CreateMealPlan,
    GenerateShoppingList,
    LogMealCompleted,
    UpdatePreference,
}

/// The function name under which a tool is offered to the model.
pub open spec fn tool_kind_name(k: ToolKind) -> Seq<char> {
    match k {
        ToolKind::SearchRecipes => "search_recipes"@,
        ToolKind::GetRecipe => "get_recipe"@,
        ToolKind::GetMealHistory => "get_meal_history"@,
        ToolKind::CreateMealPlan => "create_meal_plan"@,
        ToolKind::GenerateShoppingList => "generate_shopping_list"@,
        ToolKind::LogMealCompleted => "log_meal_completed"@,
        ToolKind::UpdatePreference => "update_preference"@,
    }
}

/// The tool a function name stands for, if any.
pub open spec fn tool_kind_of_name(name: Seq<char>) -> Option<ToolKind> {
    if name == "search_recipes"@ {
        Some(ToolKind::SearchRecipes)
    } else if name == "get_recipe"@ {
        Some(ToolKind::GetRecipe)
    } else if name == "get_meal_history"@ {
        Some(ToolKind::GetMealHistory)
    } else if name == "create_meal_plan"@ {
        Some(ToolKind::CreateMealPlan)
    } else if name == "generate_shopping_list"@ {
        Some(ToolKind::GenerateShoppingList)
    } else if name == "log_meal_completed"@ {
        Some(ToolKind::LogMealCompleted)
    } else if name == "update_preference"@ {
        Some(ToolKind::UpdatePreference)
    } else {
        None
    }
}

/// All tools, in the order in which they are offered.
pub open spec fn all_tool_kinds() -> Seq<ToolKind> {
    seq![
        ToolKind::SearchRecipes,
        ToolKind::GetRecipe,
        ToolKind::GetMealHistory,
        ToolKind::CreateMealPlan,
        ToolKind::GenerateShoppingList,
        ToolKind::LogMealCompleted,
        ToolKind::UpdatePreference,
    ]
}

impl ToolKind {
    /// The function name of the tool.
    pub fn name(&self) -> (s: String)
        ensures
            s@ == tool_kind_name(*self),
    {
        match self {
            ToolKind::SearchRecipes => String::from_str("search_recipes"),
            ToolKind::GetRecipe => String::from_str("get_recipe"),
            ToolKind::GetMealHistory => String::from_str("get_meal_history"),
            ToolKind::CreateMealPlan => String::from_str("create_meal_plan"),
            ToolKind::GenerateShoppingList => String::from_str("generate_shopping_list"),
            ToolKind::LogMealCompleted => String::from_str("log_meal_completed"),
            ToolKind::UpdatePreference => String::from_str("update_preference"),
        }
    }

    /// The tool that a function name stands for; `None` for an unknown name.
    pub fn from_name(name: &str) -> (r: Option<ToolKind>)
        ensures
            r == tool_kind_of_name(name@),
    {
        let n = String::from_str(name);
        if n == String::from_str("search_recipes") {
            Some(ToolKind::SearchRecipes)
        } else if n == String::from_str("get_recipe") {
            Some(ToolKind::GetRecipe)
        } else if n == String::from_str("get_meal_history") {
            Some(ToolKind::GetMealHistory)
        } else if n == String::from_str("create_meal_plan") {
            Some(ToolKind::CreateMealPlan)
        } else if n == String::from_str("generate_shopping_list") {
            Some(ToolKind::GenerateShoppingList)
        } else if n == String::from_str("log_meal_completed") {
            Some(ToolKind::LogMealCompleted)
        } else if n == String::from_str("update_preference") {
            Some(ToolKind::UpdatePreference)
        } else {
            None
        }
    }
}

/// The seven tool names are pairwise different.
proof fn lemma_tool_names_distinct()
    ensures
        forall|a: ToolKind, b: ToolKind| a != b ==> tool_kind_name(a) != tool_kind_name(b),
{
    reveal_strlit("search_recipes");
    reveal_strlit("get_recipe");
    reveal_strlit("get_meal_history");
    reveal_strlit("create_meal_plan");
    reveal_strlit("generate_shopping_list");
    reveal_strlit("log_meal_completed");
    reveal_strlit("update_preference");
    assert("search_recipes"@.len() == 14);
    assert("get_recipe"@.len() == 10);
    assert("get_meal_history"@.len() == 16);
    assert("create_meal_plan"@.len() == 16);
    assert("generate_shopping_list"@.len() == 22);
    assert("log_meal_completed"@.len() == 18);
    assert("update_preference"@.len() == 17);
    assert("get_meal_history"@[0] != "create_meal_plan"@[0]);
    assert forall|a: ToolKind, b: ToolKind| a != b implies tool_kind_name(a) != tool_kind_name(b) by {
        if tool_kind_name(a) == tool_kind_name(b) {
            assert(tool_kind_name(a).len() == tool_kind_name(b).len());
            if tool_kind_name(a).len() == 16 {
                assert(tool_kind_name(a)[0] == tool_kind_name(b)[0]);
            }
        }
    }
}

/// Naming a tool and reading the name back gives the same tool.
pub proof fn lemma_tool_name_round_trip(k: ToolKind)
    ensures
        tool_kind_of_name(tool_kind_name(k)) == Some(k),
{
    lemma_tool_names_distinct();
    match k {
        ToolKind::SearchRecipes => {},
        ToolKind::GetRecipe => {
            assert(tool_kind_name(k) != tool_kind_name(ToolKind::SearchRecipes));
        },
        ToolKind::GetMealHistory => {
            assert(tool_kind_name(k) != tool_kind_name(ToolKind::SearchRecipes));
            assert(tool_kind_name(k) != tool_kind_name(ToolKind::GetRecipe));
        },
        ToolKind::CreateMealPlan => {
            assert(tool_kind_name(k) != tool_kind_name(ToolKind::SearchRecipes));
            assert(tool_kind_name(k) != tool_kind_name(ToolKind::GetRecipe));
            assert(tool_kind_name(k) != tool_kind_name(ToolKind::GetMealHistory));
        },
        ToolKind::GenerateShoppingList => {
            assert(tool_kind_name(k) != tool_kind_name(ToolKind::SearchRecipes));
            assert(tool_kind_name(k) != tool_kind_name(ToolKind::GetRecipe));
            assert(tool_kind_name(k) != tool_kind_name(ToolKind::GetMealHistory));
            assert(tool_kind_name(k) != tool_kind_name(ToolKind::CreateMealPlan));
        },
        ToolKind::LogMealCompleted => {
            assert(tool_kind_name(k) != tool_kind_name(ToolKind::SearchRecipes));
            assert(tool_kind_name(k) != tool_kind_name(ToolKind::GetRecipe));
            assert(tool_kind_name(k) != tool_kind_name(ToolKind::GetMealHistory));
            assert(tool_kind_name(k) != tool_kind_name(ToolKind::CreateMealPlan));
            assert(tool_kind_name(k) != tool_kind_name(ToolKind::GenerateShoppingList));
        },
        ToolKind::UpdatePreference => {
            assert(tool_kind_name(k) != tool_kind_name(ToolKind::SearchRecipes));
            assert(tool_kind_name(k) != tool_kind_name(ToolKind::GetRecipe));
            assert(tool_kind_name(k) != tool_kind_name(ToolKind::GetMealHistory));
            assert(tool_kind_name(k) != tool_kind_name(ToolKind::CreateMealPlan));
            assert(tool_kind_name(k) != tool_kind_name(ToolKind::GenerateShoppingList));
            assert(tool_kind_name(k) != tool_kind_name(ToolKind::LogMealCompleted));
        },
    }
}

/// Every tool name is non-empty.
pub proof fn lemma_tool_name_nonempty(k: ToolKind)
    ensures
        tool_kind_name(k).len() > 0,
{
    reveal_strlit("search_recipes");
    reveal_strlit("get_recipe");
    reveal_strlit("get_meal_history");
    reveal_strlit("create_meal_plan");
    reveal_strlit("generate_shopping_list");
    reveal_strlit("log_meal_completed");
    reveal_strlit("update_preference");
}

/// A name is recognised exactly when it is the name of some tool.
pub proof fn lemma_recognised_names_are_tool_names(name: Seq<char>)
    ensures
        tool_kind_of_name(name) matches Some(k) ==> tool_kind_name(k) == name,
        tool_kind_of_name(name) is None ==> forall|k: ToolKind| tool_kind_name(k) != name,
{
}

// ─── Argument types ─────────────────────────────────────────────

/// Arguments of `search_recipes`.
pub struct SearchRecipesArgs {
    pub query: Option<String>,
    pub tags: Option<Vec<String>>,
    pub categories: Option<Vec<String>>,
    /// The minimum rating as the IEEE-754 bits of an `f32`; the comparison with
    /// ratings is done where floats are available.
    pub min_rating_bits: Option<u32>,
}

/// Arguments of `get_recipe`.
pub struct GetRecipeArgs {
    pub slug: String,
}

/// Arguments of `get_meal_history`.
pub struct GetMealHistoryArgs {
    pub since_days_ago: u32,
}

/// Arguments of `create_meal_plan`.
pub struct CreateMealPlanArgs {
    pub meals: Vec<PlannedMeal>,
}

/// One meal of a proposed plan.
pub struct PlannedMeal {
    pub date: CalendarDate,
    pub recipe_slug: String,
    pub recipe_name: String,
}

/// Arguments of `generate_shopping_list`.
pub struct GenerateShoppingListArgs {
    pub list_name: Option<String>,
    pub recipe_ids: Vec<String>,
}

/// Arguments of `log_meal_completed`.
pub struct LogMealCompletedArgs {
    pub log_id: i64,
    pub was_cooked: bool,
    pub substituted_with: Option<String>,
}

/// Arguments of `update_preference`.
pub struct UpdatePreferenceArgs {
    pub key: String,
    pub value: String,
}

/// The JSON value that an argument field is decoded from.
pub enum JsonShape {
    /// A string (text, or a date written as text).
    Str,
    /// A whole number.
    Integer,
    /// Any number.
    Number,
    /// `true` or `false`.
    Boolean,
    /// An array of strings.
    StringArray,
    /// An array of objects with these string fields, of which the second list
    /// must be present.
    ObjectArray(Seq<Seq<char>>, Seq<Seq<char>>),
}

/// One field of a tool's argument struct: its name, the JSON value it is decoded
/// from, and whether it may be left out (an `Option` field).
pub struct ArgField {
    pub name: Seq<char>,
    pub shape: JsonShape,
    pub optional: bool,
}

pub open spec fn arg_field(name: Seq<char>, shape: JsonShape, optional: bool) -> ArgField {
    ArgField { name, shape, optional }
}

/// The fields of each tool's argument struct, in declaration order, with the JSON
/// values their Rust types are decoded from: `String` and `CalendarDate` from a
/// string, `u32` and `i64` from an integer, the `f32` rating from a number, `bool`
/// from a boolean, `Vec<String>` from an array of strings, and `Vec<PlannedMeal>`
/// from an array of objects whose three fields are all required.
pub open spec fn argument_fields(k: ToolKind) -> Seq<ArgField> {
    match k {
        ToolKind::SearchRecipes => seq![
            arg_field("query"@, JsonShape::Str, true),
            arg_field("tags"@, JsonShape::StringArray, true),
            arg_field("categories"@, JsonShape::StringArray, true),
            arg_field("min_rating"@, JsonShape::Number, true),
        ],
        ToolKind::GetRecipe => seq![arg_field("slug"@, JsonShape::Str, false)],
        ToolKind::GetMealHistory => seq![arg_field("since_days_ago"@, JsonShape::Integer, false)],
        ToolKind::CreateMealPlan => seq![
            arg_field(
                "meals"@,
                JsonShape::ObjectArray(
                    seq!["date"@, "recipe_slug"@, "recipe_name"@],
                    seq!["date"@, "recipe_slug"@, "recipe_name"@],
                ),
                false,
            ),
        ],
        ToolKind::GenerateShoppingList => seq![
            arg_field("list_name"@, JsonShape::Str, true),
            arg_field("recipe_ids"@, JsonShape::StringArray, false),
        ],
        ToolKind::LogMealCompleted => seq![
            arg_field("log_id"@, JsonShape::Integer, false),
            arg_field("was_cooked"@, JsonShape::Boolean, false),
            arg_field("substituted_with"@, JsonShape::Str, true),
        ],
        ToolKind::UpdatePreference => seq![
            arg_field("key"@, JsonShape::Str, false),
            arg_field("value"@, JsonShape::Str, false),
        ],
    }
}

/// The names of the fields that must be present, in order.
pub open spec fn mandatory_field_names(fields: Seq<ArgField>) -> Seq<Seq<char>>
    decreases fields.len(),
{
    if fields.len() == 0 {
        Seq::empty()
    } else {
        let rest = mandatory_field_names(fields.drop_last());
        if fields.last().optional {
            rest
        } else {
            rest.push(fields.last().name)
        }
    }
}

/// Every tool the agent can call, with its arguments.
pub enum ToolCall {
    SearchRecipes(SearchRecipesArgs),
    GetRecipe(GetRecipeArgs),
    GetMealHistory(GetMealHistoryArgs),
    CreateMealPlan(CreateMealPlanArgs),
    GenerateShoppingList(GenerateShoppingListArgs),
    LogMealCompleted(LogMealCompletedArgs),
    UpdatePreference(UpdatePreferenceArgs),
}

impl ToolCall {
    /// The tool a call is for.
    pub open spec fn spec_kind(&self) -> ToolKind {
        match self {
            ToolCall::SearchRecipes(_) => ToolKind::SearchRecipes,
            ToolCall::GetRecipe(_) => ToolKind::GetRecipe,
            ToolCall::GetMealHistory(_) => ToolKind::GetMealHistory,
            ToolCall::CreateMealPlan(_) => ToolKind::CreateMealPlan,
            ToolCall::GenerateShoppingList(_) => ToolKind::GenerateShoppingList,
            ToolCall::LogMealCompleted(_) => ToolKind::LogMealCompleted,
            ToolCall::UpdatePreference(_) => ToolKind::UpdatePreference,
        }
    }

    /// The tool a call is for.
    pub fn kind(&self) -> (k: ToolKind)
        ensures
            k == self.spec_kind(),
    {
        match self {
            ToolCall::SearchRecipes(_) => ToolKind::SearchRecipes,
            ToolCall::GetRecipe(_) => ToolKind::GetRecipe,
            ToolCall::GetMealHistory(_) => ToolKind::GetMealHistory,
            ToolCall::CreateMealPlan(_) => ToolKind::CreateMealPlan,
            ToolCall::GenerateShoppingList(_) => ToolKind::GenerateShoppingList,
            ToolCall::LogMealCompleted(_) => ToolKind::LogMealCompleted,
            ToolCall::UpdatePreference(_) => ToolKind::UpdatePreference,
        }
    }
}

// ─── Routing a requested call ───────────────────────────────────

#[verifier::external_type_specification]
#[verifier::external_body]
pub struct ExJsonError(serde_json::Error);

/// Whether `serde_json::from_str::<serde_json::Value>` accepts a text.
pub uninterp spec fn json_text_parses(text: Seq<char>) -> bool;

/// Calls `serde_json::from_str::<serde_json::Value>`; the contract claims only that
/// it succeeds exactly when `json_text_parses` holds of the text. The parsed value
/// is dropped: only the syntax check is used here.
#[verifier::external_body]
fn serde_json_check(text: &str) -> (r: Result<(), serde_json::Error>)
    ensures
        r is Ok == json_text_parses(text@),
{
    match serde_json::from_str::<serde_json::Value>(text) {
        Ok(_) => Ok(()),
        Err(e) => Err(e),
    }
}

/// Why a requested call cannot be routed to a tool.
pub enum ToolParseError {
    /// The arguments are not JSON.
    InvalidJson(serde_json::Error),
    /// No tool has this name.
    UnknownTool(String),
}

/// Routes a call: checks that the arguments are JSON, then finds the tool by
/// name. Decoding the arguments into the tool's argument type is left to the
/// caller, which holds the serde derives.
pub fn classify_tool_call(name: &str, arguments: &str) -> (r: Result<ToolKind, ToolParseError>)
    ensures
        !json_text_parses(arguments@) ==> r matches Err(ToolParseError::InvalidJson(_)),
        json_text_parses(arguments@) ==> match tool_kind_of_name(name@) {
            Some(k) => r == Ok::<ToolKind, ToolParseError>(k),
            None => (r matches Err(ToolParseError::UnknownTool(n)) && n@ == name@),
        },
{
    match serde_json_check(arguments) {
        Err(e) => Err(ToolParseError::InvalidJson(e)),
        Ok(()) => match ToolKind::from_name(name) {
            Some(k) => Ok(k),
            None => Err(ToolParseError::UnknownTool(String::from_str(name))),
        },
    }
}

} // verus!
