use webapp_core::ctx::Ctx;
use webapp_core::model::task::{TaskBMC, TaskForCreate, TaskForUpdate};
use webapp_core::model::user::{User, UserBMC, UserForLogin};
use webapp_core::model::{Error, ModelManager};

const KEY: &[u8] = b"test-signing-key";

fn init_test() -> ModelManager {
    let mut mm = ModelManager::new().unwrap();
    let ctx = Ctx::root_ctx();
    // seed the demo user, as the dev database would
    let id = UserBMC::create(
        &ctx,
        &mut mm,
        "demo1",
        "2d74d764-6e4c-4563-9c3c-f73b9100a67b",
        "f05e8961-d6ad-4086-9e78-a6de065e5453",
    )
    .unwrap();
    UserBMC::update_pwd(&ctx, &mut mm, id, "welcome2", KEY).unwrap();
    mm
}

#[test]
fn test_create_ok() {
    // setup
    let mut mm = init_test();
    let ctx = Ctx::root_ctx();
    let fx_title = "test_create_ok title";

    // exec
    let task_c = TaskForCreate { title: fx_title.to_string() };
    let id = TaskBMC::create(&ctx, &mut mm, task_c).unwrap();

    // check
    let task = TaskBMC::get(&ctx, &mm, id).unwrap();
    assert_eq!(task.title, fx_title);

    TaskBMC::delete(&ctx, &mut mm, id).unwrap();
}

#[test]
fn test_list_ok() {
    // setup
    let mut mm = init_test();
    let ctx = Ctx::root_ctx();
    let fx_titles = &["test_list_ok-task 01", "test_list_ok-task 02"];
    for title in fx_titles {
        TaskBMC::create(&ctx, &mut mm, TaskForCreate { title: title.to_string() }).unwrap();
    }

    // exec
    let tasks = TaskBMC::list(&ctx, &mm).unwrap();

    // check
    let tasks: Vec<_> = tasks
        .into_iter()
        .filter(|t| t.title.starts_with("test_list_ok-task "))
        .collect();
    assert_eq!(tasks.len(), 2, "number of seeded tasks");

    // clean
    for task in tasks.iter() {
        TaskBMC::delete(&ctx, &mut mm, task.id).unwrap();
    }
}

#[test]
fn test_update_ok() {
    // setup
    let mut mm = init_test();
    let ctx = Ctx::root_ctx();
    let fx_title = "test_update_ok title";
    let fx_title_updated = "test_update_ok title updated";

    // exec
    let task_c = TaskForCreate { title: String::from(fx_title) };
    let task_u = TaskForUpdate { title: Some(String::from(fx_title_updated)) };
    let id = TaskBMC::create(&ctx, &mut mm, task_c).unwrap();
    TaskBMC::update(&ctx, &mut mm, id, task_u).unwrap();

    // check
    assert_eq!(TaskBMC::get(&ctx, &mm, id).unwrap().title, fx_title_updated);

    // clean
    TaskBMC::delete(&ctx, &mut mm, id).unwrap();
}

#[test]
fn test_get_err_not_found() {
    // setup
    let mm = init_test();
    let ctx = Ctx::root_ctx();
    let fx_id = 100_i64;

    // exec
    let res = TaskBMC::get(&ctx, &mm, fx_id);

    // check
    assert!(matches!(
        res,
        Err(Error::EntityNotFound { entity: "task", id: 100 })
    ));
}

#[test]
fn test_update_err_not_found() {
    // setup
    let mut mm = init_test();
    let ctx = Ctx::root_ctx();
    let fx_id = 100_i64;
    let task_u = TaskForUpdate { title: Some("test_update_err_not_found title".to_string()) };

    // exec
    let res = TaskBMC::update(&ctx, &mut mm, fx_id, task_u);

    // check
    assert!(matches!(
        res,
        Err(Error::EntityNotFound { entity: "task", id: 100 })
    ));
}

#[test]
fn test_delete_err_not_found() {
    // setup
    let mut mm = init_test();
    let ctx = Ctx::root_ctx();
    let fx_id = 100_i64;

    // exec
    let res = TaskBMC::delete(&ctx, &mut mm, fx_id);

    // check
    assert!(matches!(
        res,
        Err(Error::EntityNotFound { entity: "task", id: 100 })
    ));
}

#[test]
fn test_first_ok_demo1() {
    // setup & fixtures
    let mm = init_test();
    let ctx = Ctx::root_ctx();
    let fx_username = "demo1";

    // exec
    let user: User = UserBMC::first_by_username(&ctx, &mm, fx_username)
        .unwrap()
        .expect("Should have user demo1");

    assert_eq!(user.username, fx_username);
}

#[test]
fn not_found_uniform_across_ops() {
    // the same absent id yields the same error from get, update and delete
    let mut mm = init_test();
    let ctx = Ctx::root_ctx();
    let fx_id = 42_i64;

    let get_err = TaskBMC::get(&ctx, &mm, fx_id).unwrap_err();
    let upd_err =
        TaskBMC::update(&ctx, &mut mm, fx_id, TaskForUpdate { title: None }).unwrap_err();
    let del_err = TaskBMC::delete(&ctx, &mut mm, fx_id).unwrap_err();
    for e in [get_err, upd_err, del_err] {
        assert!(matches!(e, Error::EntityNotFound { entity: "task", id: 42 }));
    }
}

#[test]
fn partial_update_leaves_other_rows_and_absent_fields() {
    let mut mm = init_test();
    let ctx = Ctx::root_ctx();
    let id_a = TaskBMC::create(&ctx, &mut mm, TaskForCreate { title: "A".to_string() }).unwrap();
    let id_b = TaskBMC::create(&ctx, &mut mm, TaskForCreate { title: "B".to_string() }).unwrap();

    // an update whose field is present changes exactly that field
    TaskBMC::update(&ctx, &mut mm, id_a, TaskForUpdate { title: Some("A2".to_string()) })
        .unwrap();
    assert_eq!(TaskBMC::get(&ctx, &mm, id_a).unwrap().title, "A2");
    assert_eq!(TaskBMC::get(&ctx, &mm, id_b).unwrap().title, "B");

    // an update whose field is absent is a no-op on that field, not a null-write
    TaskBMC::update(&ctx, &mut mm, id_a, TaskForUpdate { title: None }).unwrap();
    assert_eq!(TaskBMC::get(&ctx, &mm, id_a).unwrap().title, "A2");
}

#[test]
fn user_create_rejects_duplicate_username() {
    let mut mm = init_test();
    let ctx = Ctx::root_ctx();
    let res = UserBMC::create(&ctx, &mut mm, "demo1", "s1", "s2");
    assert!(matches!(res, Err(Error::UsernameAlreadyExists)));
}

#[test]
fn user_update_pwd_stores_salted_digest() {
    let mm = init_test();
    let ctx = Ctx::root_ctx();
    let user: UserForLogin = UserBMC::first_by_username(&ctx, &mm, "demo1").unwrap().unwrap();
    let stored = user.pwd.expect("password was set");
    let enc = webapp_core::crypt::EncryptContent {
        content: "welcome2".to_string(),
        salt: user.pwd_salt.clone(),
    };
    assert!(webapp_core::crypt::pwd::validate_pwd(KEY, &enc, &stored).is_ok());
    assert_ne!(stored, "welcome2");
}
