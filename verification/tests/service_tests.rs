use uuid::Uuid;
use base64::engine::general_purpose::URL_SAFE_NO_PAD;
use base64::Engine;
use web_backend::dev_db::{choose_project_root, dev_db_plan, ends_with, is_app_sql_file, is_project_root, path_le_exec, split_sql};
use web_backend::hnstory::{
    cache_lookup_step, page_cache_key, page_miss_plan, page_reply, story_miss_plan, CacheStep, paginated_response, query_paging_bytes, PageReply, pagination_query, should_cache_stories, story_cache_key,
    story_reply, Error, HNStory, PaginationParams, PagingState, StoryReply,
};
use web_backend::kafka::{consume_step, consumer_settings, payload_is_storable, payload_text, producer_settings, ConsumeEvent};
use web_backend::pwd::{hash_for_scheme, ContentToHash};
use web_backend::retry::{
    latest_message_step, latest_offset, retry_step, PollAction, RetryStep, RoundOutcome, CONSUME_MAX_ATTEMPTS, LATEST_MESSAGE_POLLS,
};
use web_backend::rpc::{resolve_rpc, RpcError, RpcMethod};
use web_backend::sse::{event_from_shared_cache, event_from_update, first_step, FirstStep, SseEvent};
use web_backend::web::{check_login, map_response, socket_step, LoginError, Message, ResponseChoice, SocketAction, UserForLogin};

fn story(id: &str) -> HNStory {
    HNStory {
        id: id.to_string(),
        title: "Rust".to_string(),
        author: "pg".to_string(),
        url: None,
        story_text: None,
        tags: Some(vec!["story".to_string()]),
        points: 3,
    }
}

#[test]
fn paging_state_round_trip() {
    let bytes = vec![0u8, 1, 2, 250, 255];
    let p = PagingState::from_bytes(&bytes);
    assert_eq!(p.0, "AAEC+v8=");
    assert_eq!(p.into_bytes().ok().unwrap(), bytes);
    assert!(matches!(PagingState::new("%%%".to_string()).into_bytes(), Err(Error::Base64(_))));
}

#[test]
fn cache_keys() {
    assert_eq!(story_cache_key("42"), "hnstory:42");
    assert_eq!(page_cache_key(10, &None), "hnstories:page_size:10:first_page");
    assert_eq!(
        page_cache_key(-3, &Some(PagingState::new("abc=".to_string()))),
        "hnstories:page_size:-3:paging_state:abc="
    );
}

#[test]
fn pagination_wraps_page_size() {
    let (size, state) = pagination_query(PaginationParams { page_size: 20, paging_state: Some("x".to_string()) });
    assert_eq!(size, 20);
    assert_eq!(state.unwrap().0, "x");
    let (size, state) = pagination_query(PaginationParams { page_size: u32::MAX, paging_state: None });
    assert_eq!(size, -1);
    assert!(state.is_none());
    assert_eq!(size, u32::MAX as i32);
}

#[test]
fn paginated_response_carries_state_text() {
    let r = paginated_response(vec![story("1")], Some(PagingState::new("s".to_string())));
    assert_eq!(r.data, vec![story("1")]);
    assert_eq!(r.next_paging_state, Some("s".to_string()));
}

#[test]
fn story_route_answers() {
    assert!(matches!(story_reply::<()>(Ok(vec![story("1"), story("2")])), StoryReply::Found(s) if s.id == "1"));
    assert!(matches!(story_reply::<()>(Ok(vec![])), StoryReply::NotFound));
    assert!(matches!(story_reply::<()>(Err(())), StoryReply::Failed));
    assert!(should_cache_stories(&vec![story("1")]));
    assert!(!should_cache_stories(&vec![]));
}

#[test]
fn rpc_routing() {
    assert!(matches!(resolve_rpc("task.create".to_string(), true), Ok(RpcMethod::TaskCreate)));
    assert!(matches!(resolve_rpc("task.list".to_string(), true), Ok(RpcMethod::TaskList)));
    assert!(matches!(resolve_rpc("task.update".to_string(), true), Ok(RpcMethod::TaskUpdate)));
    assert!(matches!(resolve_rpc("task.delete".to_string(), true), Ok(RpcMethod::TaskDelete)));
    assert!(matches!(resolve_rpc("task.drop".to_string(), true), Err(RpcError::RpcMethodUnknown(m)) if m == "task.drop"));
    assert!(matches!(resolve_rpc("task.update".to_string(), false), Err(RpcError::RpcMissingParams { rpc_method }) if rpc_method == "update_task"));
    assert!(matches!(RpcMethod::TaskList.json_params_error(), RpcError::RpcFailJsonParams { rpc_method } if rpc_method == "list_tasks"));
}

fn user(password: Option<String>) -> UserForLogin {
    UserForLogin {
        id: 1000,
        username: "demo1".to_string(),
        password,
        password_salt: *Uuid::parse_str("e5d87716-65d9-4450-8f59-316ce50962fa").unwrap().as_bytes(),
        token_salt: [0u8; 16],
    }
}

#[test]
fn login_checks() {
    let key = URL_SAFE_NO_PAD.decode("c2VjcmV0LXRlc3Qta2V5LWZvci1wYXNzd29yZHM").unwrap();
    let salt = user(None).password_salt;
    let stored = hash_for_scheme(&key, "01", &ContentToHash { content: "demo".to_string(), salt }).unwrap();
    assert!(matches!(check_login(&key, None, "demo"), Err(LoginError::LoginFailUsernameNotFound)));
    assert!(matches!(check_login(&key, Some(user(None)), "demo"), Err(LoginError::LoginFailUserHasNoPwd { user_id: 1000 })));
    assert!(matches!(
        check_login(&key, Some(user(Some(stored.clone()))), "wrong"),
        Err(LoginError::LoginFailPwdNotMatching { user_id: 1000 })
    ));
    assert!(matches!(check_login(&key, Some(user(Some(stored))), "demo"), Ok(u) if u.username == "demo1"));
}

#[test]
fn echo_socket() {
    assert!(matches!(socket_step(Message::Text("hi".to_string())), SocketAction::Send(Message::Text(t)) if t == "Echo: hi"));
    assert!(matches!(socket_step(Message::Close(None)), SocketAction::Stop));
    assert!(matches!(socket_step(Message::Ping(vec![1])), SocketAction::Skip));
}

#[test]
fn retry_policy() {
    assert!(matches!(retry_step::<u8, &str>(0, CONSUME_MAX_ATTEMPTS, Ok(5)), RetryStep::Done(5)));
    assert!(matches!(retry_step::<u8, &str>(3, CONSUME_MAX_ATTEMPTS, Err("e")), RetryStep::RetryAfterDelay));
    assert!(matches!(retry_step::<u8, &str>(4, CONSUME_MAX_ATTEMPTS, Err("e")), RetryStep::GiveUp("e")));
    assert_eq!(latest_offset(10), Some(9));
    assert_eq!(latest_offset(0), None);
}

#[test]
fn kafka_settings() {
    let c = consumer_settings("broker:9092");
    assert_eq!(c.len(), 12);
    assert_eq!(c[0], ("bootstrap.servers".to_string(), "broker:9092".to_string()));
    assert_eq!(c[1], ("group.id".to_string(), "unique_consumer_group_id".to_string()));
    assert_eq!(c[5], ("auto.offset.reset".to_string(), "earliest".to_string()));
    assert_eq!(producer_settings("h"), vec![("bootstrap.servers".to_string(), "h".to_string())]);
    assert_eq!(payload_text(None), "");
    assert_eq!(payload_text(Some(None)), "");
    assert_eq!(payload_text(Some(Some("{}".to_string()))), "{}");
}

#[test]
fn sql_set_up() {
    assert_eq!(split_sql("a;b;;c"), vec!["a", "b", "", "c"]);
    assert_eq!(split_sql(""), vec![""]);
    assert_eq!(split_sql("x;"), vec!["x", ""]);
    assert!(is_app_sql_file("sql/psql/dev_initial/01-create-schema.sql"));
    assert!(!is_app_sql_file("sql/psql/dev_initial/00-recreate-db.sql"));
    assert!(!is_app_sql_file("README.md"));
    assert!(ends_with("abc", ""));
    assert!(!ends_with("c", "abc"));
    assert!(is_project_root(false, false, true, false));
    assert!(!is_project_root(false, false, false, false));
}

#[test]
fn project_root_choice() {
    let cands = vec![("/usr/src/app".to_string(), false), ("/app".to_string(), true), ("/opt/app".to_string(), true)];
    assert_eq!(choose_project_root(Some(("/env".to_string(), true)), cands.clone(), "/cwd".to_string()), "/env");
    assert_eq!(choose_project_root(Some(("/env".to_string(), false)), cands.clone(), "/cwd".to_string()), "/app");
    assert_eq!(choose_project_root(None, vec![("/a".to_string(), false)], "/cwd".to_string()), "/cwd");
}

#[test]
fn sse_events() {
    assert!(matches!(first_step(Some(1)), FirstStep::Send(SseEvent::Success(1))));
    assert!(matches!(first_step::<u8>(None), FirstStep::AskSharedCache));
    let (e, keep) = event_from_shared_cache::<u8, ()>(Ok(Some(2)));
    assert!(matches!(e, SseEvent::Success(2)) && keep);
    let (e, keep) = event_from_shared_cache::<u8, ()>(Ok(None));
    assert_eq!(e.status(), "waiting");
    assert!(!keep);
    let (e, _) = event_from_shared_cache::<u8, ()>(Err(()));
    assert_eq!(e.status(), "error");
    assert_eq!(event_from_update::<u8, ()>(Ok(3)).status(), "success");
}

#[test]
fn cache_keys_tell_pages_apart() {
    let a = page_cache_key(10, &None);
    let b = page_cache_key(1, &Some(PagingState::new("0:first_page".to_string())));
    let c = page_cache_key(-10, &None);
    assert_ne!(a, b);
    assert_ne!(a, c);
    assert_ne!(story_cache_key("s:page_size:10:first_page"), a);
}

#[test]
fn list_route_helpers() {
    assert_eq!(query_paging_bytes(&None), None);
    assert_eq!(query_paging_bytes(&Some(PagingState::new("AAEC".to_string()))), Some(vec![0u8, 1, 2]));
    assert_eq!(query_paging_bytes(&Some(PagingState::new("%%".to_string()))), None);
    assert!(matches!(page_reply::<()>(Err(())), PageReply::Failed));
    match page_reply::<()>(Ok((vec![story("9")], None))) {
        PageReply::Page(p) => {
            assert_eq!(p.data, vec![story("9")]);
            assert_eq!(p.next_paging_state, None);
        }
        PageReply::Failed => panic!("expected a page"),
    }
    assert!(payload_is_storable(&"{}".to_string()));
    assert!(!payload_is_storable(&String::new()));
}

#[test]
fn consume_step_stores_and_commits() {
    let a = consume_step(ConsumeEvent::RecvFailed);
    assert!(a.store.is_none() && !a.commit);
    let a = consume_step(ConsumeEvent::Received(Some(Some("{\"id\":\"1\"}".to_string()))));
    assert_eq!(a.store.as_deref(), Some("{\"id\":\"1\"}"));
    assert!(a.commit);
    let a = consume_step(ConsumeEvent::Received(Some(Some("not json".to_string()))));
    assert_eq!(a.store.as_deref(), Some("not json"));
    assert!(a.commit);
    for p in [None, Some(None), Some(Some(String::new()))] {
        let a = consume_step(ConsumeEvent::Received(p));
        assert!(a.store.is_none() && a.commit);
    }
}

#[test]
fn latest_message_rounds() {
    assert_eq!(LATEST_MESSAGE_POLLS, 5);
    assert!(matches!(latest_message_step::<u8, String>(0, RoundOutcome::Payload(Ok(7))), PollAction::Return(Ok(Some(7)))));
    assert!(matches!(
        latest_message_step::<u8, String>(1, RoundOutcome::Payload(Err("bad".to_string()))),
        PollAction::Return(Err(e)) if e == "bad"
    ));
    for r in 0..4 {
        assert!(matches!(latest_message_step::<u8, String>(r, RoundOutcome::NoMessage), PollAction::NextRound));
    }
    assert!(matches!(latest_message_step::<u8, String>(4, RoundOutcome::NoMessage), PollAction::Return(Ok(None))));
}

#[test]
fn cache_aside_steps() {
    assert!(matches!(cache_lookup_step::<u8, String>(Ok(Some(3))), CacheStep::Hit(3)));
    assert!(matches!(cache_lookup_step::<u8, String>(Ok(None)), CacheStep::Query));
    assert!(matches!(cache_lookup_step::<u8, String>(Err("down".to_string())), CacheStep::Query));

    let (r, ttl) = story_miss_plan::<String>(Ok(vec![story("1")]));
    assert_eq!(r.unwrap(), vec![story("1")]);
    assert_eq!(ttl, Some(3600));
    let (r, ttl) = story_miss_plan::<String>(Ok(vec![]));
    assert!(r.unwrap().is_empty());
    assert_eq!(ttl, None);
    let (r, ttl) = story_miss_plan::<String>(Err("query".to_string()));
    assert_eq!(r.unwrap_err(), "query");
    assert_eq!(ttl, None);

    let (r, ttl) = page_miss_plan::<String>(Ok((vec![story("2")], Some(vec![1, 2, 3]))));
    let (stories, next) = r.unwrap();
    assert_eq!(stories, vec![story("2")]);
    assert_eq!(next.unwrap().0, "AQID");
    assert_eq!(ttl, Some(300));
    let (r, ttl) = page_miss_plan::<String>(Ok((vec![], None)));
    assert!(r.unwrap().1.is_none());
    assert_eq!(ttl, Some(300));
    let (r, ttl) = page_miss_plan::<String>(Err("query".to_string()));
    assert_eq!(r.unwrap_err(), "query");
    assert_eq!(ttl, None);
}

#[test]
fn dev_db_plan_orders_app_files() {
    let paths = vec![
        "sql/dev_initial/02-dev-seed.sql".to_string(),
        "sql/dev_initial/00-recreate-db.sql".to_string(),
        "sql/dev_initial/README.md".to_string(),
        "sql/dev_initial/01-create-schema.sql".to_string(),
        "sql/dev_initial/10-later.sql".to_string(),
        "sql/dev_initial/03-more.sql".to_string(),
    ];
    assert_eq!(
        dev_db_plan(paths),
        vec![
            "sql/dev_initial/01-create-schema.sql".to_string(),
            "sql/dev_initial/02-dev-seed.sql".to_string(),
            "sql/dev_initial/03-more.sql".to_string(),
            "sql/dev_initial/10-later.sql".to_string(),
        ]
    );
    assert!(dev_db_plan(vec![]).is_empty());
    assert_eq!(dev_db_plan(vec!["b.sql".to_string(), "a.sql".to_string(), "b.sql".to_string()]),
        vec!["a.sql".to_string(), "b.sql".to_string(), "b.sql".to_string()]);
}

#[test]
fn path_order_is_string_order() {
    for (a, b) in [("a", "b"), ("a", "ab"), ("", "x"), ("B", "a"), ("é", "z"), ("same", "same"), ("ab", "a")] {
        assert_eq!(path_le_exec(a, b), a <= b, "{a:?} {b:?}");
    }
}

#[test]
fn response_mapper_replaces_only_errors() {
    assert!(matches!(map_response(None, "u-1".to_string()), ResponseChoice::Keep));
    match map_response(Some((401, Some("NO_AUTH".to_string()), None)), "u-2".to_string()) {
        ResponseChoice::Replace { status, body } => {
            assert_eq!(status, 401);
            assert_eq!(body.message.as_deref(), Some("NO_AUTH"));
            assert_eq!(body.detail, None);
            assert_eq!(body.req_uuid, "u-2");
        }
        ResponseChoice::Keep => panic!("expected a replacement"),
    }
}
