use meal_planner::calendar::CalendarDate;
use meal_planner::executor::{
    history_window, meal_plan_request, recipe_key, search_request, shopping_list_name, stats_or_zero, target_shopping_list,
    ExecutorError, SEARCH_PAGE, SEARCH_PAGE_SIZE,
};
use meal_planner::mealie::ShoppingList;
use meal_planner::tools::{PlannedMeal, SearchRecipesArgs};

#[test]
fn search_defaults() {
    let args = SearchRecipesArgs { query: Some("chicken".to_string()), tags: None, categories: Some(vec!["dinner".to_string()]), min_rating_bits: None };
    let r = search_request(&args);
    assert_eq!(r.query.as_deref(), Some("chicken"));
    assert!(r.tags.is_empty());
    assert_eq!(r.categories, vec!["dinner".to_string()]);
    assert_eq!((r.page, r.per_page), (1, 20));
    assert_eq!((SEARCH_PAGE, SEARCH_PAGE_SIZE), (1, 20));
}

#[test]
fn missing_recipe_id_is_empty_key() {
    assert_eq!(recipe_key(&None), "");
    assert_eq!(recipe_key(&Some("abc".to_string())), "abc");
    assert_eq!(stats_or_zero(None), (0, 0));
    assert_eq!(stats_or_zero(Some((5, 1))), (5, 1));
}

#[test]
fn planned_meal_becomes_dinner_entry() {
    let meal = PlannedMeal { date: CalendarDate::from_ymd(2024, 6, 3).unwrap(), recipe_slug: "tikka".to_string(), recipe_name: "Chicken Tikka".to_string() };
    let plan = meal_plan_request(&meal, "id-42");
    assert_eq!(plan.date, meal.date);
    assert_eq!(plan.entry_type, "dinner");
    assert_eq!(plan.title, "Chicken Tikka");
    assert_eq!(plan.recipe_id.as_deref(), Some("id-42"));
}

fn list(id: &str, name: &str) -> ShoppingList {
    ShoppingList { id: id.to_string(), name: name.to_string() }
}

#[test]
fn shopping_list_is_chosen_by_name() {
    let lists = vec![list("1", "Groceries"), list("2", "Weekly Shop"), list("3", "Party"), list("4", "Weekly Shop")];
    assert_eq!(target_shopping_list(&lists, &None).ok().map(|l| l.id.clone()), Some("2".to_string()));
    assert_eq!(target_shopping_list(&lists, &Some("Party".to_string())).ok().map(|l| l.id.clone()), Some("3".to_string()));
    assert_eq!(target_shopping_list(&lists, &Some("Groceries".to_string())).ok().map(|l| l.id.clone()), Some("1".to_string()));
    assert_eq!(shopping_list_name(&None), "Weekly Shop");
}

#[test]
fn missing_shopping_lists_are_reported() {
    let only = vec![list("1", "Groceries")];
    let err = target_shopping_list(&only, &None).err().unwrap();
    assert_eq!(err, ExecutorError::NoShoppingListNamed("Weekly Shop".to_string()));
    assert_eq!(err.message(), "No shopping list named 'Weekly Shop' found in Mealie. Create one first.");
    let none: Vec<ShoppingList> = vec![];
    assert_eq!(target_shopping_list(&none, &Some("X".to_string())).err(), Some(ExecutorError::NoShoppingLists));
    assert_eq!(ExecutorError::NoShoppingLists.message(), "No shopping lists found in Mealie. Create one first.");
}

#[test]
fn history_window_spans_the_days() {
    let today = CalendarDate::from_ymd(2024, 3, 10).unwrap();
    let (since, until) = history_window(today, 30);
    assert_eq!(since, CalendarDate::from_ymd(2024, 2, 9).unwrap());
    assert_eq!(until, today);
    assert_eq!(history_window(today, 0), (today, today));
}
