use meal_planner::calendar::CalendarDate;
use meal_planner::mealie::{
    meal_plans_path, meal_plans_query, normalize_base_url, recipe_path, recipes_path, search_query,
    shopping_list_recipe_path, shopping_lists_path, MealieClient, MealieSetupError,
};

fn pairs(v: &[(&str, &str)]) -> Vec<(String, String)> {
    v.iter().map(|(a, b)| (a.to_string(), b.to_string())).collect()
}

#[test]
fn base_url_loses_trailing_slashes() {
    assert_eq!(normalize_base_url("http://mealie.local:9925/"), "http://mealie.local:9925");
    assert_eq!(normalize_base_url("http://m//"), "http://m");
    assert_eq!(normalize_base_url("http://m"), "http://m");
    assert_eq!(normalize_base_url("///"), "");
    assert_eq!(normalize_base_url(""), "");
    assert_eq!(normalize_base_url(&normalize_base_url("a/b//")), "a/b");
}

#[test]
fn client_builds_api_urls() {
    let c = MealieClient::new("http://mealie.local:9925/", "token").ok().unwrap();
    assert_eq!(c.base_url(), "http://mealie.local:9925");
    assert_eq!(c.url("/recipes"), "http://mealie.local:9925/api/recipes");
    assert_eq!(c.url(&recipe_path("pesto-pasta")), "http://mealie.local:9925/api/recipes/pesto-pasta");
}

#[test]
fn token_that_cannot_be_a_header_is_refused() {
    assert!(matches!(MealieClient::new("http://m", "bad\ntoken"), Err(MealieSetupError::InvalidApiToken)));
    assert!(matches!(MealieClient::new("http://m", "del\u{7f}"), Err(MealieSetupError::InvalidApiToken)));
    assert!(MealieClient::new("http://m", "tab\tand ünïcode").is_ok());
}

#[test]
fn request_paths() {
    assert_eq!(recipes_path(), "/recipes");
    assert_eq!(meal_plans_path(), "/meal-plans");
    assert_eq!(shopping_lists_path(), "/groups/shopping/lists");
    assert_eq!(shopping_list_recipe_path("L1", "R9"), "/groups/shopping/lists/L1/recipe/R9");
}

#[test]
fn search_query_pairs() {
    let tags = vec!["quick".to_string(), "vegetarian".to_string()];
    let cats = vec!["dinner".to_string()];
    assert_eq!(
        search_query(Some("pasta"), &tags, &cats, 1, 20),
        pairs(&[("page", "1"), ("perPage", "20"), ("search", "pasta"), ("tags", "quick"), ("tags", "vegetarian"), ("categories", "dinner")])
    );
    assert_eq!(search_query(None, &[], &[], 3, 4294967295), pairs(&[("page", "3"), ("perPage", "4294967295")]));
}

#[test]
fn meal_plan_query_pairs() {
    let a = CalendarDate::from_ymd(2024, 1, 2).unwrap();
    let b = CalendarDate::from_ymd(2024, 1, 9).unwrap();
    assert_eq!(meal_plans_query(&a, &b), pairs(&[("start_date", "2024-01-02"), ("end_date", "2024-01-09")]));
}

#[test]
fn client_keeps_its_http_client() {
    let c = MealieClient::new("http://m", "secret").ok().unwrap();
    assert!(std::ptr::eq(c.http(), c.http()));
}

#[test]
fn client_sends_bearer_token() {
    let c = MealieClient::new("http://m", "secret").ok().unwrap();
    let shown = format!("{:?}", c.http());
    assert!(shown.contains("\"authorization\": \"Bearer secret\""), "{shown}");
}
