use user_service::StoredUser;
use user_service::User;
use user_service::config::ServiceConfig;
use user_service::handlers::create_user_step;
use user_service::handlers::get_user_reply;
use user_service::handlers::store_failure_reply;
use user_service::http::ServiceError;
use user_service::http::error_reply;
use user_service::store::UserStore;

#[test]
fn creates_alice_then_finds_her() {
    let mut store = UserStore::new();

    let created = store.handle_create("Alice".to_string());
    assert_eq!(created.status, 201);
    assert_eq!(created.body, "{\"id\":1,\"name\":\"Alice\"}");

    let found = store.handle_get(1);
    assert_eq!(found.status, 200);
    assert_eq!(found.body, "{\"id\":1,\"name\":\"Alice\"}");

    let missing = store.handle_get(2);
    assert_eq!(missing.status, 404);
    assert_eq!(missing.body, "");
}

#[test]
fn creates_bob_after_alice() {
    let mut store = UserStore::new();
    store.handle_create("Alice".to_string());

    let created = store.handle_create("Bob".to_string());
    assert_eq!(created.status, 201);
    assert_eq!(created.body, "{\"id\":2,\"name\":\"Bob\"}");

    let found = store.handle_get(2);
    assert_eq!(found.status, 200);
    assert_eq!(found.body, "{\"id\":2,\"name\":\"Bob\"}");
}

#[test]
fn lookup_is_repeatable() {
    let mut store = UserStore::new();
    store.handle_create("Alice".to_string());

    let first = store.handle_get(1);
    let second = store.handle_get(1);
    let third = store.handle_get(1);
    assert_eq!(first.status, second.status);
    assert_eq!(first.body, second.body);
    assert_eq!(second.status, third.status);
    assert_eq!(second.body, third.body);
    assert_eq!(store.count(), 1);
}

#[test]
fn sequential_creations_get_distinct_identifiers() {
    let mut store = UserStore::new();

    let count_before_first = store.count();
    let first = store.handle_create("Alice".to_string());
    let count_before_second = store.count();
    let second = store.handle_create("Bob".to_string());

    assert_eq!(count_before_first, 0);
    assert_eq!(count_before_second, 1);
    assert_eq!(first.body, "{\"id\":1,\"name\":\"Alice\"}");
    assert_eq!(second.body, "{\"id\":2,\"name\":\"Bob\"}");
    assert_eq!(store.count(), 2);
}

#[test]
fn lookup_on_empty_store_is_not_found() {
    let store = UserStore::new();
    let reply = store.handle_get(1);
    assert_eq!(reply.status, 404);
    assert_eq!(reply.body, "");
}

#[test]
fn reply_for_a_found_user() {
    let reply = get_user_reply(Some(StoredUser { id: 5, name: "Eve".to_string() }));
    assert_eq!(reply.status, 200);
    assert_eq!(reply.body, "{\"id\":5,\"name\":\"Eve\"}");
}

#[test]
fn reply_for_a_missing_user() {
    let reply = get_user_reply(None);
    assert_eq!(reply.status, 404);
    assert_eq!(reply.body, "");
}

#[test]
fn reply_for_a_failed_store() {
    let reply = store_failure_reply();
    assert_eq!(reply.status, 500);
    assert_eq!(reply.body, "");
}

#[test]
fn creation_plan_assigns_next_identifier() {
    let plan = create_user_step(0, User { name: "Alice".to_string() });
    assert_eq!(plan.user.id, 1);
    assert_eq!(plan.user.name, "Alice");
    assert_eq!(plan.reply.status, 201);
    assert_eq!(plan.reply.body, "{\"id\":1,\"name\":\"Alice\"}");

    let plan = create_user_step(41, User { name: "Bob".to_string() });
    assert_eq!(plan.user.id, 42);
    assert_eq!(plan.reply.body, "{\"id\":42,\"name\":\"Bob\"}");
}

#[test]
fn each_error_maps_to_its_status() {
    assert_eq!(error_reply(ServiceError::NotFound).status, 404);
    assert_eq!(error_reply(ServiceError::ValidationError).status, 400);
    assert_eq!(error_reply(ServiceError::StoreUnavailable).status, 500);
    assert_eq!(error_reply(ServiceError::StoreUnavailable).body, "");
}

#[test]
fn default_configuration_matches_the_deployment() {
    let config = ServiceConfig::default();
    assert_eq!(config.port, 8000);
    assert_eq!(config.workers, 2);
    assert_eq!(config.store_uri, "mongodb://localhost:27017");
    assert_eq!(config.database_name, "mydb");
    assert_eq!(config.collection_name, "users");
}
