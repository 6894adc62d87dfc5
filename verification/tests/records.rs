//! The record carriers and the exercise-list visibility rule.

use sql_grimoire_auth::models::{
    health_response, solution_status, visible_exercises, ExerciseListItem, ExerciseListItemInner,
    ExerciseSchema, ExerciseSchemaInner, ExerciseSchemaListItem, ExerciseSchemaListItemInner,
};
use sql_grimoire_auth::users::{Queryable, User, UserRole};

fn item(id: &str, published: bool, solved: bool) -> ExerciseListItem {
    ExerciseListItem {
        id: id.to_string(),
        name: format!("exercise {}", id),
        solved,
        published,
    }
}

#[test]
fn health_is_ok() {
    assert_eq!(health_response().status, "ok");
}

#[test]
fn schema_setters_replace_one_field() {
    let mut schema = ExerciseSchema::parse(ExerciseSchemaInner {
        id: "s1".to_string(),
        name: "old name".to_string(),
        schema: "CREATE TABLE a (x int);".to_string(),
    });
    schema.set_name("new name".to_string());
    assert_eq!(schema.name().as_str(), "new name");
    assert_eq!(schema.schema().as_str(), "CREATE TABLE a (x int);");
    schema.set_schema("CREATE TABLE b (y int);".to_string());
    assert_eq!(schema.schema().as_str(), "CREATE TABLE b (y int);");
    assert_eq!(schema.name().as_str(), "new name");
    assert_eq!(schema.id().as_str(), "s1");
}

#[test]
fn schema_list_item_parses() {
    let it = ExerciseSchemaListItem::parse(ExerciseSchemaListItemInner {
        id: "s1".to_string(),
        name: "n".to_string(),
    });
    assert_eq!(it.id, "s1");
    assert_eq!(it.name, "n");
}

#[test]
fn absent_solved_flag_reads_as_unsolved() {
    let it = ExerciseListItem::parse(ExerciseListItemInner {
        id: "e1".to_string(),
        name: "n".to_string(),
        solved: None,
        published: true,
    });
    assert!(!it.solved);
    let it2 = ExerciseListItem::parse(ExerciseListItemInner {
        id: "e2".to_string(),
        name: "n".to_string(),
        solved: Some(true),
        published: false,
    });
    assert!(it2.solved);
}

#[test]
fn visibility_hides_unpublished_from_non_admins() {
    let list = vec![item("e1", true, false), item("e2", false, true), item("e3", true, true)];

    let user = User::new("u".to_string(), UserRole::User);
    let seen: Vec<String> = visible_exercises(&user, list.clone())
        .into_iter()
        .map(|e| e.id)
        .collect();
    assert_eq!(seen, vec!["e1".to_string(), "e3".to_string()]);

    let admin = User::new("a".to_string(), UserRole::Admin);
    let seen: Vec<String> = visible_exercises(&admin, list)
        .into_iter()
        .map(|e| e.id)
        .collect();
    assert_eq!(seen, vec!["e1".to_string(), "e2".to_string(), "e3".to_string()]);
}

#[test]
fn solution_status_vocabulary() {
    assert_eq!(solution_status(true), "correct");
    assert_eq!(solution_status(false), "incorrect");
}
