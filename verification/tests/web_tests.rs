use webapp_core::crypt::token::{validate_web_token, Token};
use webapp_core::ctx::Ctx;
use webapp_core::error::ClientError as RootClientError;
use webapp_core::error::Error as RootError;
use webapp_core::model::task::TaskForCreate;
use webapp_core::model::user::{UserBMC, UserForAuth};
use webapp_core::model::{ModelController, ModelManager, Ticket, TicketForCreate};
use webapp_core::web::error::ClientError;
use webapp_core::web::mw_auth::{ctx_from_extension, mw_ctx_require, mw_ctx_resolve, CtxExtError};
use webapp_core::web::routes_login::{api_login_handler, api_logout_handler, LoginPayload, LogoutPayload};
use webapp_core::web::rpc::{
    rpc_execute, rpc_params_kind, ParamsById, ParamsForCreate, ParamsForUpdate, RpcParams,
    RpcParamsInput, RpcParamsKind, RpcReply,
};
use webapp_core::web::{CookieAction, Error};

const KEY: &[u8] = b"test-signing-key";
const NOW: u64 = 1_709_210_096;

fn init_test() -> ModelManager {
    let mut mm = ModelManager::new().unwrap();
    let ctx = Ctx::root_ctx();
    let id = UserBMC::create(
        &ctx,
        &mut mm,
        "demo1",
        "2d74d764-6e4c-4563-9c3c-f73b9100a67b",
        "f05e8961-d6ad-4086-9e78-a6de065e5453",
    )
    .unwrap();
    UserBMC::update_pwd(&ctx, &mut mm, id, "welcome2", KEY).unwrap();
    mm
}

#[test]
fn login_ok_sets_validatable_cookie() {
    let mm = init_test();
    let payload = LoginPayload { username: "demo1".to_string(), pwd: "welcome2".to_string() };
    let token = api_login_handler(&mm, &payload, KEY, NOW).unwrap();

    // the cookie token, parsed back and validated against the user's
    // current token salt, succeeds
    let parsed = Token::parse(&token.serialize()).unwrap();
    let ctx = Ctx::root_ctx();
    let user: UserForAuth = UserBMC::first_by_username(&ctx, &mm, "demo1").unwrap().unwrap();
    assert!(validate_web_token(&parsed, &user.token_salt, KEY, NOW).is_ok());
}

#[test]
fn login_wrong_password_no_cookie() {
    let mm = init_test();
    let payload = LoginPayload { username: "demo1".to_string(), pwd: "welcome3".to_string() };
    let err = api_login_handler(&mm, &payload, KEY, NOW).unwrap_err();
    assert!(matches!(err, Error::LoginFailPasswordMismatch { user_id: 1 }));
    let (status, client) = err.client_status_and_error();
    assert_eq!(status, 401);
    assert!(matches!(client, ClientError::LOGIN_FAIL));
}

#[test]
fn login_unknown_user_and_no_password() {
    let mut mm = init_test();
    let payload = LoginPayload { username: "ghost".to_string(), pwd: "x".to_string() };
    assert!(matches!(
        api_login_handler(&mm, &payload, KEY, NOW),
        Err(Error::LoginFailUsernameNotFound)
    ));

    let ctx = Ctx::root_ctx();
    let id = UserBMC::create(&ctx, &mut mm, "nopwd", "s1", "s2").unwrap();
    let payload = LoginPayload { username: "nopwd".to_string(), pwd: "x".to_string() };
    let err = api_login_handler(&mm, &payload, KEY, NOW).unwrap_err();
    assert!(matches!(err, Error::LoginFailNoPassword { user_id } if user_id == id));
}

#[test]
fn logout_clears_cookie_only_on_logoff() {
    assert!(matches!(
        api_logout_handler(&LogoutPayload { logoff: true }),
        Ok(CookieAction::Clear)
    ));
    assert!(matches!(
        api_logout_handler(&LogoutPayload { logoff: false }),
        Err(Error::LogoutFail)
    ));
}

#[test]
fn resolve_without_cookie_is_no_auth() {
    let mm = init_test();
    let (res, action) = mw_ctx_resolve(&mm, None, KEY, NOW);
    assert!(matches!(res, Err(CtxExtError::TokenNotInCookie)));
    // nothing to clear: the absent cookie stays absent
    assert!(matches!(action, CookieAction::Keep));

    // a protected route turns this into the typed auth error and no data
    let err = mw_ctx_require(res).unwrap_err();
    assert!(matches!(err, Error::CtxExt(CtxExtError::TokenNotInCookie)));
    let (status, client) = err.client_status_and_error();
    assert_eq!(status, 403);
    assert!(matches!(client, ClientError::NO_AUTH));
}

#[test]
fn resolve_happy_path_refreshes_cookie() {
    let mm = init_test();
    let payload = LoginPayload { username: "demo1".to_string(), pwd: "welcome2".to_string() };
    let token = api_login_handler(&mm, &payload, KEY, NOW).unwrap();
    let cookie = token.serialize();

    let (res, action) = mw_ctx_resolve(&mm, Some(&cookie), KEY, NOW + 60);
    let ctx = res.unwrap();
    assert_eq!(ctx.user_id(), 1);
    match action {
        CookieAction::Issue(fresh) => {
            // sliding window: the re-issued token expires later
            assert!(fresh.exp > token.exp);
            assert!(validate_web_token(
                &fresh,
                "f05e8961-d6ad-4086-9e78-a6de065e5453",
                KEY,
                NOW + 60
            )
            .is_ok());
        },
        other => panic!("expected a re-issued cookie, got {other:?}"),
    }
}

#[test]
fn resolve_garbage_cookie_clears_it() {
    let mm = init_test();
    let (res, action) = mw_ctx_resolve(&mm, Some("not a token"), KEY, NOW);
    assert!(matches!(res, Err(CtxExtError::TokenWrongFormat)));
    assert!(matches!(action, CookieAction::Clear));
}

#[test]
fn resolve_unknown_user_clears_cookie() {
    let mm = init_test();
    let ghost = webapp_core::crypt::token::generate_web_token("ghost", "salt", KEY, NOW, 1800)
        .unwrap();
    let cookie = ghost.serialize();
    let (res, action) = mw_ctx_resolve(&mm, Some(&cookie), KEY, NOW);
    assert!(matches!(res, Err(CtxExtError::UserNotFound)));
    assert!(matches!(action, CookieAction::Clear));
}

#[test]
fn resolve_expired_or_tampered_fails_validation() {
    let mm = init_test();
    let payload = LoginPayload { username: "demo1".to_string(), pwd: "welcome2".to_string() };
    let token = api_login_handler(&mm, &payload, KEY, NOW).unwrap();
    let cookie = token.serialize();

    // validated exactly at the expiration instant: rejected
    let (res, action) = mw_ctx_resolve(&mm, Some(&cookie), KEY, NOW + 1800);
    assert!(matches!(res, Err(CtxExtError::FailedTokenValidation)));
    assert!(matches!(action, CookieAction::Clear));

    // a token signed with another salt fails validation too
    let forged =
        webapp_core::crypt::token::generate_web_token("demo1", "wrong-salt", KEY, NOW, 1800)
            .unwrap();
    let cookie = forged.serialize();
    let (res, action) = mw_ctx_resolve(&mm, Some(&cookie), KEY, NOW);
    assert!(matches!(res, Err(CtxExtError::FailedTokenValidation)));
    assert!(matches!(action, CookieAction::Clear));
}

#[test]
fn ctx_extension_absent_is_wiring_fault() {
    let err = ctx_from_extension(None).unwrap_err();
    assert!(matches!(err, Error::CtxExt(CtxExtError::CtxNotInRequestExt)));
    let ctx = Ctx::new(7).unwrap();
    assert_eq!(ctx_from_extension(Some(Ok(ctx))).unwrap().user_id(), 7);
}

#[test]
fn rpc_params_kind_names_each_schema() {
    assert_eq!(rpc_params_kind("create_task"), Some(RpcParamsKind::ForCreateTask));
    assert_eq!(rpc_params_kind("update_task"), Some(RpcParamsKind::ForUpdateTask));
    assert_eq!(rpc_params_kind("delete_task"), Some(RpcParamsKind::ForId));
    assert_eq!(rpc_params_kind("list_tasks"), Some(RpcParamsKind::NoParams));
    assert_eq!(rpc_params_kind("drop_table"), None);
}

#[test]
fn rpc_unknown_method() {
    let mut mm = init_test();
    let ctx = Ctx::new(1).unwrap();
    let err = rpc_execute(&ctx, &mut mm, "drop_table", RpcParamsInput::Absent).unwrap_err();
    assert!(matches!(err, Error::RpcMethodUnknown(m) if m == "drop_table"));
}

#[test]
fn rpc_missing_and_malformed_params() {
    let mut mm = init_test();
    let ctx = Ctx::new(1).unwrap();
    let err = rpc_execute(&ctx, &mut mm, "create_task", RpcParamsInput::Absent).unwrap_err();
    assert!(matches!(err, Error::RpcMissingParams { rpc_method } if rpc_method == "create_task"));

    let err = rpc_execute(&ctx, &mut mm, "create_task", RpcParamsInput::Malformed).unwrap_err();
    assert!(
        matches!(err, Error::RpcFailToInterpret { rpc_method } if rpc_method == "create_task")
    );

    // params of another method's shape are not interpretable either
    let wrong = RpcParamsInput::Parsed(RpcParams::ById(ParamsById { id: 1 }));
    let err = rpc_execute(&ctx, &mut mm, "update_task", wrong).unwrap_err();
    assert!(
        matches!(err, Error::RpcFailToInterpret { rpc_method } if rpc_method == "update_task")
    );
}

#[test]
fn rpc_task_flow() {
    let mut mm = init_test();
    let ctx = Ctx::new(1).unwrap();

    // create
    let params = RpcParamsInput::Parsed(RpcParams::CreateTask(ParamsForCreate {
        data: TaskForCreate { title: "task AAA".to_string() },
    }));
    let reply = rpc_execute(&ctx, &mut mm, "create_task", params).unwrap();
    let task = match reply {
        RpcReply::TaskReply(t) => t,
        other => panic!("expected a task, got {other:?}"),
    };
    assert_eq!(task.title, "task AAA");

    // list
    let reply = rpc_execute(&ctx, &mut mm, "list_tasks", RpcParamsInput::Absent).unwrap();
    match reply {
        RpcReply::TaskListReply(v) => {
            assert_eq!(v.len(), 1);
            assert_eq!(v[0].title, "task AAA");
        },
        other => panic!("expected a list, got {other:?}"),
    }

    // update
    let params = RpcParamsInput::Parsed(RpcParams::UpdateTask(ParamsForUpdate {
        id: task.id,
        data: webapp_core::model::task::TaskForUpdate { title: Some("task BBB".to_string()) },
    }));
    let reply = rpc_execute(&ctx, &mut mm, "update_task", params).unwrap();
    assert!(matches!(reply, RpcReply::UnitReply));

    // delete returns the task as it stood
    let params = RpcParamsInput::Parsed(RpcParams::ById(ParamsById { id: task.id }));
    let reply = rpc_execute(&ctx, &mut mm, "delete_task", params).unwrap();
    match reply {
        RpcReply::TaskReply(t) => assert_eq!(t.title, "task BBB"),
        other => panic!("expected the deleted task, got {other:?}"),
    }

    // a second delete fails with the not-found error
    let params = RpcParamsInput::Parsed(RpcParams::ById(ParamsById { id: task.id }));
    let err = rpc_execute(&ctx, &mut mm, "delete_task", params).unwrap_err();
    assert!(matches!(
        err,
        Error::Model(webapp_core::model::Error::EntityNotFound { entity: "task", id }) if id == task.id
    ));
}

#[test]
fn ticket_scenario_create_get_delete_twice() {
    let mut mc = ModelController::new().unwrap();
    let ctx = Ctx::new(9).unwrap();

    let created: Ticket = mc
        .create_ticket(ctx, TicketForCreate { title: "A".to_string() })
        .unwrap();
    assert_eq!(created.title, "A");
    assert_eq!(created.cid, 9);

    let listed = mc.list_tickets(ctx).unwrap();
    assert_eq!(listed.len(), 1);
    assert_eq!(listed[0].id, created.id);
    assert_eq!(listed[0].title, "A");

    // delete succeeds once
    let deleted = mc.delete_ticket(ctx, created.id).unwrap();
    assert_eq!(deleted.title, "A");

    // and fails the second time with the id echoed back
    let err = mc.delete_ticket(ctx, created.id).unwrap_err();
    assert!(matches!(err, RootError::TicketDeletionFailtureIdNotfound { id } if id == created.id));
    let (status, client) = err.client_status_and_error();
    assert_eq!(status, 400);
    assert!(matches!(client, RootClientError::INVALD_PARAMS));
}

#[test]
fn root_error_mapping() {
    assert_eq!(
        RootError::LoginFail.client_status_and_error(),
        (401, RootClientError::LOGIN_FAIL)
    );
    assert_eq!(
        RootError::AuthFailNoAuthTokenCookie.client_status_and_error(),
        (401, RootClientError::NO_AUTH)
    );
    assert_eq!(
        RootError::AuthFailWrongTokenFormat.client_status_and_error(),
        (401, RootClientError::NO_AUTH)
    );
    assert_eq!(
        RootError::AuthFailCTXNotInRequest.client_status_and_error(),
        (401, RootClientError::NO_AUTH)
    );
}

#[test]
fn web_error_mapping_falls_back_to_service_error() {
    let (status, client) = Error::Serde("boom".to_string()).client_status_and_error();
    assert_eq!(status, 500);
    assert!(matches!(client, ClientError::SERVICE_ERROR));

    let err = Error::Model(webapp_core::model::Error::EntityNotFound { entity: "task", id: 7 });
    let (status, client) = err.client_status_and_error();
    assert_eq!(status, 400);
    assert!(matches!(client, ClientError::ENTITY_NOT_FOUND { entity: "task", id: 7 }));
}
