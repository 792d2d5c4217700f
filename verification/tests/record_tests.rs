use hubcaps::json::Value;
use hubcaps::rep::{Deployment, User};

fn s(text: &str) -> Value {
    Value::Str(text.to_string())
}

fn user_node(login: &str, id: u64) -> Value {
    Value::Obj(vec![
        ("login".to_string(), s(login)),
        ("id".to_string(), Value::UInt(id)),
        ("avatar_url".to_string(), s("http://example.com/a.png")),
        ("gravatar_id".to_string(), s("")),
        ("url".to_string(), s("http://example.com/u")),
        ("html_url".to_string(), s("http://example.com/h")),
        ("followers_url".to_string(), s("http://example.com/f")),
        ("following_url".to_string(), s("http://example.com/fo")),
        ("gists_url".to_string(), s("http://example.com/g")),
        ("starred_url".to_string(), s("http://example.com/s")),
        ("subscriptions_url".to_string(), s("http://example.com/su")),
        ("organizations_url".to_string(), s("http://example.com/o")),
        ("repos_url".to_string(), s("http://example.com/r")),
        ("events_url".to_string(), s("http://example.com/e")),
        ("received_events_url".to_string(), s("http://example.com/re")),
        ("site_admin".to_string(), Value::Bool(false)),
    ])
}

fn deployment_node() -> Vec<(String, Value)> {
    vec![
        ("url".to_string(), s("http://example.com/d")),
        ("id".to_string(), Value::Int(7)),
        ("sha".to_string(), s("abc123")),
        ("ref".to_string(), s("main")),
        ("task".to_string(), s("deploy")),
        ("environment".to_string(), s("production")),
        ("description".to_string(), s("rollout")),
        ("creator".to_string(), user_node("octocat", 1)),
        ("created_at".to_string(), s("2015-05-15T00:00:00Z")),
        ("updated_at".to_string(), s("2015-05-15T01:00:00Z")),
        ("statuses_url".to_string(), s("http://example.com/st")),
        ("repository_url".to_string(), s("http://example.com/repo")),
    ]
}

#[test]
fn users_decode() {
    let u = User::decode(&user_node("octocat", 1)).unwrap();
    assert_eq!(u.login, "octocat");
    assert_eq!(u.id, 1);
    assert!(!u.site_admin);
}

#[test]
fn users_reject_missing_fields() {
    let mut fields = match user_node("octocat", 1) {
        Value::Obj(entries) => entries,
        _ => unreachable!(),
    };
    fields.retain(|(k, _)| k != "login");
    let r = User::decode(&Value::Obj(fields));
    assert_eq!(r.unwrap_err().field, "login");
}

#[test]
fn deployments_decode() {
    let d = Deployment::decode(&Value::Obj(deployment_node())).unwrap();
    assert_eq!(d.commit_ref, "main");
    assert_eq!(d.id, 7);
    assert_eq!(d.creator.login, "octocat");
    assert_eq!(d.created_at, "2015-05-15T00:00:00Z");
}

#[test]
fn deployments_reject_wrongly_shaped_fields() {
    let mut fields = deployment_node();
    for entry in fields.iter_mut() {
        if entry.0 == "id" {
            entry.1 = s("not a number");
        }
    }
    let r = Deployment::decode(&Value::Obj(fields));
    assert_eq!(r.unwrap_err().field, "id");
}
