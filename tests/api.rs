use pomotodo::account::Account;
use pomotodo::pomo::Pomo;
use pomotodo::repeat::{InvalidRepeatType, RepeatType};
use pomotodo::request::{expected_status, ApiError, Method, Operation, Payload};
use pomotodo::session::Session;
use pomotodo::timestamp::Timestamp;
use pomotodo::todo::{SubTodo, Todo, TodoParameter};

const ID: u128 = 0x0123_4567_89ab_cdef_0123_4567_89ab_cdef;
const ID_TEXT: &str = "01234567-89ab-cdef-0123-456789abcdef";
const OTHER: u128 = 0xffee_ddcc_bbaa_9988_7766_5544_3322_1100;
const OTHER_TEXT: &str = "ffeeddcc-bbaa-9988-7766-554433221100";

fn account() -> Account {
    Account {
        uuid: ID,
        name: "Ann".to_string(),
        description: Some("focus".to_string()),
        avatar_url: None,
        encoded_avatar: None,
        pro_expires_at: Timestamp::from_unix(1_500_000_000, 0),
    }
}

fn session() -> Session {
    Session::with_token("abc", account())
}

fn all_repeat_types() -> Vec<RepeatType> {
    vec![
        RepeatType::NoRepeat,
        RepeatType::EachDay,
        RepeatType::EachWeek,
        RepeatType::EachTwoWeek,
        RepeatType::EachMonth,
        RepeatType::EachYear,
    ]
}

#[test]
fn repeat_type_names() {
    let names: Vec<String> = all_repeat_types().iter().map(|v| v.to_string()).collect();
    assert_eq!(
        names,
        vec!["none", "each_day", "each_week", "each_two_week", "each_month", "each_year"]
    );
}

#[test]
fn repeat_type_round_trip() {
    for v in all_repeat_types() {
        assert_eq!(RepeatType::parse(v.as_str()), Ok(v));
        assert_eq!(v.to_string().parse::<RepeatType>(), Ok(v));
    }
}

#[test]
fn repeat_type_rejects_other_text() {
    for s in ["", "None", "each day", "eachday", "each_years", "weekly", " none"] {
        assert_eq!(RepeatType::parse(s), Err(InvalidRepeatType));
    }
}

#[test]
fn todo_parameter_default_query() {
    assert_eq!(TodoParameter::default().to_query(), "completed=false");
}

#[test]
fn todo_parameter_unset_filters_are_omitted() {
    let p = TodoParameter::new(None, None, None);
    assert_eq!(p.to_query(), "");
    let later = Timestamp::from_unix(0, 0);
    let p = TodoParameter::new(None, later, None);
    assert_eq!(p.to_query(), "completed_later_than=1970-01-01T00:00:00Z");
}

#[test]
fn todo_parameter_all_filters() {
    let later = Timestamp::from_unix(1_483_228_800, 0);
    let earlier = Timestamp::from_unix(1_483_228_801, 500_000_000);
    let p = TodoParameter::new(Some(true), later, earlier);
    assert_eq!(
        p.to_query(),
        "completed=true&completed_later_than=2017-01-01T00:00:00Z\
         &completed_earlier_than=2017-01-01T00:00:01.500Z"
    );
}

#[test]
fn timestamp_range() {
    let t = Timestamp::from_unix(42, 7).unwrap();
    assert_eq!((t.secs(), t.nanos()), (42, 7));
    assert!(Timestamp::from_unix(i64::MAX, 0).is_none());
    assert!(Timestamp::from_unix(0, 2_000_000_000).is_none());
}

#[test]
fn session_keeps_account() {
    let s = session();
    let a = s.get_account().unwrap();
    assert_eq!(a.uuid, ID);
    assert_eq!(a.name, "Ann");
    assert_eq!(a.description.as_deref(), Some("focus"));
    assert!(a.avatar_url.is_none());
    assert_eq!(a.pro_expires_at, Timestamp::from_unix(1_500_000_000, 0));
}

#[test]
fn account_request_is_authorised() {
    let r = Session::account_request("abc");
    assert_eq!(r.method, Method::Get);
    assert_eq!(r.url, "https://api.pomotodo.com/1/account");
    assert_eq!(r.authorization, "token abc");
    assert!(!r.is_json());
    assert_eq!(r.expected_status, 200);
    assert!(matches!(r.accept(401, "no".to_string()), Err(ApiError::Status { code: 401, .. })));
    assert_eq!(r.accept(200, "{}".to_string()).unwrap(), "{}");
}

#[test]
fn expected_statuses() {
    assert_eq!(expected_status(Operation::Fetch), 200);
    assert_eq!(expected_status(Operation::Create), 201);
    assert_eq!(expected_status(Operation::Update), 200);
    assert_eq!(expected_status(Operation::Delete), 204);
}

#[test]
fn pomo_list_always_has_flags() {
    let s = session();
    let r = s.get_pomo(None, false, true);
    assert_eq!(r.url, "https://api.pomotodo.com/1/pomos?manual=false&abandoned=true");
    let r = s.get_pomo(Some(ID), true, false);
    assert_eq!(
        r.url,
        format!("https://api.pomotodo.com/1/pomos/{}?manual=true&abandoned=false", ID_TEXT)
    );
    assert_eq!(r.method, Method::Get);
}

#[test]
fn create_pomo_sends_record() {
    let pomo = Pomo {
        uuid: None,
        created_at: None,
        updated_at: None,
        description: Some("write".to_string()),
        started_at: Timestamp::from_unix(100, 0),
        ended_at: Timestamp::from_unix(1600, 0),
        length: Some(1500),
        abandoned: Some(false),
        manual: Some(true),
    };
    let r = session().create_pomo(&pomo);
    assert_eq!(r.method, Method::Post);
    assert_eq!(r.url, "https://api.pomotodo.com/1/pomos");
    assert!(r.is_json());
    match r.payload {
        Payload::Pomo(p) => {
            assert_eq!(p.description.as_deref(), Some("write"));
            assert_eq!(p.length, Some(1500));
        }
        _ => panic!("expected a pomo payload"),
    }
    assert_eq!(r.expected_status, 201);
}

#[test]
fn update_pomo_sends_description_only() {
    let r = session().update_pomo(ID, "say \"hi\"");
    assert_eq!(r.method, Method::Patch);
    assert_eq!(r.url, format!("https://api.pomotodo.com/1/pomos/{}", ID_TEXT));
    match r.payload {
        Payload::Json(b) => assert_eq!(b, "{\"description\":\"say \\\"hi\\\"\"}"),
        _ => panic!("expected a JSON payload"),
    }
}

#[test]
fn delete_pomo_rejects_status_ok() {
    let r = session().delete_pomo(ID);
    assert_eq!(r.method, Method::Delete);
    assert_eq!(r.url, format!("https://api.pomotodo.com/1/pomos/{}", ID_TEXT));
    match r.accept(200, String::new()) {
        Err(ApiError::Status { code, .. }) => assert_eq!(code, 200),
        other => panic!("unexpected {:?}", other),
    }
    assert!(r.accept(204, String::new()).is_ok());
}

#[test]
fn get_todo_completed_only() {
    let r = session().get_todo(None, Some(true), None, None);
    assert_eq!(r.url, "https://api.pomotodo.com/1/todos?completed=true");
    assert_eq!(r.url.split('?').nth(1), Some("completed=true"));
}

#[test]
fn get_todo_without_filters_has_no_query() {
    let r = session().get_todo(Some(ID), None, None, None);
    assert_eq!(r.url, format!("https://api.pomotodo.com/1/todos/{}", ID_TEXT));
}

#[test]
fn create_todo_buy_milk() {
    let mut todo = Todo::default();
    todo.description = "Buy milk".to_string();
    todo.sub_todos = Some(vec![OTHER]);
    let r = session().create_todo(&todo);
    assert_eq!(r.method, Method::Post);
    assert_eq!(r.url, "https://api.pomotodo.com/1/todos");
    assert_eq!(r.authorization, "token abc");
    match &r.payload {
        Payload::Todo(t) => {
            assert_eq!(t.description, "Buy milk");
            assert!(t.uuid.is_none());
            assert!(t.sub_todos.is_none());
        }
        _ => panic!("expected a todo payload"),
    }
    let body = format!("{{\"uuid\":\"{}\",\"description\":\"Buy milk\"}}", ID_TEXT);
    assert_eq!(r.accept(201, body.clone()).unwrap(), body);
    assert!(matches!(r.accept(200, body), Err(ApiError::Status { code: 200, .. })));
}

#[test]
fn todo_default_values() {
    let t = Todo::default();
    assert_eq!(t.description, "New Todo Item via Rust client");
    assert!(t.uuid.is_none() && t.completed.is_none() && t.sub_todos.is_none());
    let s = SubTodo::default();
    assert_eq!(s.description, "New SubTodo Item via Rust client");
    assert!(s.uuid.is_none() && s.parent_uuid.is_none());
}

#[test]
fn update_todo_strips_server_fields() {
    let stamp = Timestamp::from_unix(1_000, 0);
    let mut todo = Todo::default();
    todo.uuid = Some(ID);
    todo.created_at = stamp;
    todo.updated_at = stamp;
    todo.pin = Some(true);
    todo.repeat_type = Some(RepeatType::EachWeek);
    let r = session().update_todo(&todo).unwrap();
    assert_eq!(r.method, Method::Patch);
    assert_eq!(r.url, format!("https://api.pomotodo.com/1/todos/{}", ID_TEXT));
    match r.payload {
        Payload::Todo(t) => {
            assert!(t.uuid.is_none() && t.created_at.is_none() && t.updated_at.is_none());
            assert_eq!(t.pin, Some(true));
            assert_eq!(t.repeat_type, Some(RepeatType::EachWeek));
        }
        _ => panic!("expected a todo payload"),
    }
}

#[test]
fn update_without_identifier_is_refused() {
    let s = session();
    assert!(matches!(s.update_todo(&Todo::default()), Err(ApiError::Validation)));
    assert!(matches!(s.update_subtodo(ID, &SubTodo::default()), Err(ApiError::Validation)));
}

#[test]
fn delete_todo_address() {
    let r = session().delete_todo(ID);
    assert_eq!(r.method, Method::Delete);
    assert_eq!(r.url, format!("https://api.pomotodo.com/1/todos/{}", ID_TEXT));
    assert_eq!(r.expected_status, 204);
}

#[test]
fn sub_todo_addresses() {
    let s = session();
    let base = format!("https://api.pomotodo.com/1/todos/{}/sub_todos", ID_TEXT);
    assert_eq!(s.get_subtodo(ID).url, base);
    let mut sub = SubTodo::default();
    sub.description = "step".to_string();
    let r = s.create_subtodo(ID, &sub);
    assert_eq!((r.method, r.url.as_str()), (Method::Post, base.as_str()));
    let r = s.delete_subtodo(ID, OTHER);
    assert_eq!(r.url, format!("{}/{}", base, OTHER_TEXT));
    assert_eq!(r.method, Method::Delete);
}

#[test]
fn update_subtodo_strips_server_fields() {
    let mut sub = SubTodo::default();
    sub.uuid = Some(OTHER);
    sub.parent_uuid = Some(ID);
    sub.created_at = Timestamp::from_unix(5, 0);
    sub.completed = Some(true);
    let r = session().update_subtodo(ID, &sub).unwrap();
    assert_eq!(
        r.url,
        format!("https://api.pomotodo.com/1/todos/{}/sub_todos/{}", ID_TEXT, OTHER_TEXT)
    );
    match r.payload {
        Payload::SubTodo(t) => {
            assert!(t.uuid.is_none() && t.created_at.is_none() && t.updated_at.is_none());
            assert_eq!(t.parent_uuid, Some(ID));
            assert_eq!(t.completed, Some(true));
        }
        _ => panic!("expected a sub-todo payload"),
    }
}

#[test]
fn update_pomo_plain_description() {
    let r = session().update_pomo(0, "plain text");
    assert_eq!(r.url, "https://api.pomotodo.com/1/pomos/00000000-0000-0000-0000-000000000000");
    match r.payload {
        Payload::Json(b) => assert_eq!(b, "{\"description\":\"plain text\"}"),
        _ => panic!("expected a JSON payload"),
    }
    assert_eq!(r.expected_status, 200);
}
