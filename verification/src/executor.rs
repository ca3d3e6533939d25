//! The decisions that the tool executor makes around its calls to Mealie and to
//! the meal memory: what to ask for, and what to make of the answers.

use vstd::prelude::*;
use vstd::string::*;
use crate::calendar::{CalendarDate, day_number, first_day_number};
use crate::mealie::{CreateMealPlan, ShoppingList};
use crate::tools::{PlannedMeal, SearchRecipesArgs};

verus! {

/// The page of search results the executor asks for.
pub const SEARCH_PAGE: u32 = 1;

/// How many search results the executor asks for.
pub const SEARCH_PAGE_SIZE: u32 = 20;

/// The meal slot under which planned meals are entered.
pub open spec fn dinner_entry_type() -> Seq<char> {
    "dinner"@
}

/// A copy of a list of strings.
pub fn copy_strings(v: &Vec<String>) -> (r: Vec<String>)
    ensures
        r@ == v@,
{
    let mut r: Vec<String> = Vec::new();
    let mut i: usize = 0;
    while i < v.len()
        invariant
            i <= v.len(),
            r@ == v@.take(i as int),
        decreases v.len() - i,
    {
        r.push(v[i].clone());
        assert(r@ =~= v@.take(i + 1));
        i = i + 1;
    }
    assert(v@.take(v.len() as int) =~= v@);
    r
}

/// What a recipe search asks Mealie for.
pub struct SearchRequest {
    pub query: Option<String>,
    pub tags: Vec<String>,
    pub categories: Vec<String>,
    pub page: u32,
    pub per_page: u32,
}

/// The search request for `search_recipes` arguments: missing tag and category
/// lists are empty, and the first page of twenty results is asked for.
pub fn search_request(args: &SearchRecipesArgs) -> (r: SearchRequest)
    ensures
        r.query == args.query,
        r.tags@ == match args.tags {
            Some(t) => t@,
            None => Seq::<String>::empty(),
        },
        r.categories@ == match args.categories {
            Some(c) => c@,
            None => Seq::<String>::empty(),
        },
        r.page == SEARCH_PAGE,
        r.per_page == SEARCH_PAGE_SIZE,
{
    let query = match &args.query {
        Some(q) => Some(q.clone()),
        None => None,
    };
    let tags = match &args.tags {
        Some(t) => copy_strings(t),
        None => Vec::new(),
    };
    let categories = match &args.categories {
        Some(c) => copy_strings(c),
        None => Vec::new(),
    };
    SearchRequest { query, tags, categories, page: SEARCH_PAGE, per_page: SEARCH_PAGE_SIZE }
}

/// The id under which a search result's history is looked up: its id, or the
/// empty text when it has none.
pub fn recipe_key(id: &Option<String>) -> (r: String)
    ensures
        r@ == match id {
            Some(s) => s@,
            None => Seq::<char>::empty(),
        },
{
    match id {
        Some(s) => s.clone(),
        None => String::new(),
    }
}

/// Planned/cooked counts for a search result: those read from memory, or zero
/// when the read failed.
pub fn stats_or_zero(stats: Option<(u32, u32)>) -> (r: (u32, u32))
    ensures
        r == match stats {
            Some(s) => s,
            None => (0u32, 0u32),
        },
{
    match stats {
        Some(s) => s,
        None => (0, 0),
    }
}

/// The meal-plan entry created for a planned meal whose recipe has id
/// `recipe_id`: a dinner on the meal's date, titled with the meal's recipe name.
pub fn meal_plan_request(meal: &PlannedMeal, recipe_id: &str) -> (r: CreateMealPlan)
    ensures
        r.date == meal.date,
        r.entry_type@ == dinner_entry_type(),
        r.title@ == meal.recipe_name@,
        r.recipe_id matches Some(id) && id@ == recipe_id@,
{
    CreateMealPlan {
        date: meal.date,
        entry_type: String::from_str("dinner"),
        title: meal.recipe_name.clone(),
        recipe_id: Some(String::from_str(recipe_id)),
    }
}

/// Why a tool could not do its work, apart from failures of Mealie or memory.
#[derive(Debug, PartialEq, Eq)]
pub enum ExecutorError {
    /// Mealie has no shopping list to add to.
    NoShoppingLists,
    /// Mealie has shopping lists, but none with the wanted name.
    NoShoppingListNamed(String),
}

/// The message reported for an executor error.
pub open spec fn executor_error_text(e: ExecutorError) -> Seq<char> {
    match e {
        ExecutorError::NoShoppingLists => "No shopping lists found in Mealie. Create one first."@,
        ExecutorError::NoShoppingListNamed(name) => "No shopping list named '"@ + name@
            + "' found in Mealie. Create one first."@,
    }
}

impl ExecutorError {
    /// The message reported for the error.
    pub fn message(&self) -> (s: String)
        ensures
            s@ == executor_error_text(*self),
    {
        match self {
            ExecutorError::NoShoppingLists => String::from_str("No shopping lists found in Mealie. Create one first."),
            ExecutorError::NoShoppingListNamed(name) => {
                let mut s = String::from_str("No shopping list named '");
                s.append(name.as_str());
                s.append("' found in Mealie. Create one first.");
                s
            },
        }
    }
}

/// The shopping list that `generate_shopping_list` fills when no name is given.
pub open spec fn default_shopping_list_name() -> Seq<char> {
    "Weekly Shop"@
}

/// The name of the shopping list to fill: the given one, or "Weekly Shop".
pub open spec fn wanted_list_name(list_name: Option<Seq<char>>) -> Seq<char> {
    match list_name {
        Some(n) => n,
        None => default_shopping_list_name(),
    }
}

/// The wanted list name for an optional `list_name` argument.
pub open spec fn wanted_name_of(list_name: Option<String>) -> Seq<char> {
    wanted_list_name(
        match list_name {
            Some(n) => Some(n@),
            None => None,
        },
    )
}

/// The name of the shopping list to fill, as text.
pub fn shopping_list_name(list_name: &Option<String>) -> (r: String)
    ensures
        r@ == wanted_name_of(*list_name),
{
    match list_name {
        Some(n) => n.clone(),
        None => String::from_str("Weekly Shop"),
    }
}

/// Some list of `lists` has the name `name`.
pub open spec fn has_list_named(lists: Seq<ShoppingList>, name: Seq<char>) -> bool {
    exists|i: int| 0 <= i < lists.len() && #[trigger] lists[i].name@ == name
}

/// The shopping list that recipes are added to: the first one Mealie lists under
/// the wanted name (`list_name`, or "Weekly Shop" when none is given).
pub fn target_shopping_list<'a>(lists: &'a Vec<ShoppingList>, list_name: &Option<String>) -> (r: Result<
    &'a ShoppingList,
    ExecutorError,
>)
    ensures
        lists@.len() == 0 ==> r == Err::<&ShoppingList, ExecutorError>(ExecutorError::NoShoppingLists),
        lists@.len() > 0 && !has_list_named(lists@, wanted_name_of(*list_name)) ==> (r matches Err(
            ExecutorError::NoShoppingListNamed(n),
        ) && n@ == wanted_name_of(*list_name)),
        has_list_named(lists@, wanted_name_of(*list_name)) ==> exists|i: int|
            0 <= i < lists@.len() && r == Ok::<&ShoppingList, ExecutorError>(&lists@[i])
                && #[trigger] lists@[i].name@ == wanted_name_of(*list_name) && forall|j: int|
                0 <= j < i ==> lists@[j].name@ != wanted_name_of(*list_name),
{
    let wanted = shopping_list_name(list_name);
    if lists.len() == 0 {
        return Err(ExecutorError::NoShoppingLists);
    }
    let mut i: usize = 0;
    while i < lists.len()
        invariant
            i <= lists@.len(),
            wanted@ == wanted_name_of(*list_name),
            forall|j: int| 0 <= j < i ==> lists@[j].name@ != wanted@,
        decreases lists@.len() - i,
    {
        if lists[i].name == wanted {
            assert(lists@[i as int].name@ == wanted@);
            return Ok(&lists[i]);
        }
        i = i + 1;
    }
    assert(!has_list_named(lists@, wanted@));
    Err(ExecutorError::NoShoppingListNamed(wanted))
}

/// The date range of `get_meal_history`: from `since_days_ago` days before
/// `today` up to `today`. The range must start no earlier than chrono's earliest
/// date (a larger day count makes the date subtraction panic).
pub fn history_window(today: CalendarDate, since_days_ago: u32) -> (r: (CalendarDate, CalendarDate))
    requires
        today.wf(),
        day_number(today.year as int, today.month as int, today.day as int) - since_days_ago >= first_day_number(),
    ensures
        r.0.wf(),
        day_number(r.0.year as int, r.0.month as int, r.0.day as int) == day_number(
            today.year as int,
            today.month as int,
            today.day as int,
        ) - since_days_ago,
        r.1 == today,
{
    match today.days_before(since_days_ago) {
        Some(since) => (since, today),
        None => (today, today),
    }
}

} // verus!
