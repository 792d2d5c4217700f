use hubcaps::rep::{Content, DeploymentReq, DeploymentStatusReq, GistReq, PullEdit, ReleaseReq, StatusReq};
use hubcaps::statuses::State;

#[test]
fn gist_reqs() {
    let files = vec![("foo".to_string(), "bar".to_string())];
    assert_eq!(
        GistReq::new(None, true, files.clone()).encode().to_json_string(),
        r#"{"public":true,"files":{"foo":{"content":"bar"}}}"#
    );
    assert_eq!(
        GistReq::new(Some("desc"), true, files.clone()).encode().to_json_string(),
        r#"{"description":"desc","public":true,"files":{"foo":{"content":"bar"}}}"#
    );
}

#[test]
fn deployment_reqs() {
    assert_eq!(
        DeploymentReq::builder("test").build().encode().to_json_string(),
        r#"{"ref":"test"}"#
    );
    assert_eq!(
        DeploymentReq::builder("test").task("launchit").build().encode().to_json_string(),
        r#"{"ref":"test","task":"launchit"}"#
    );
}

#[test]
fn deployment_status_reqs() {
    assert_eq!(
        DeploymentStatusReq::builder(State::pending).build().encode().to_json_string(),
        r#"{"state":"pending"}"#
    );
    assert_eq!(
        DeploymentStatusReq::builder(State::pending)
            .target_url("http://host.com")
            .build()
            .encode()
            .to_json_string(),
        r#"{"state":"pending","target_url":"http://host.com"}"#
    );
    assert_eq!(
        DeploymentStatusReq::builder(State::pending)
            .target_url("http://host.com")
            .description("desc")
            .build()
            .encode()
            .to_json_string(),
        r#"{"state":"pending","target_url":"http://host.com","description":"desc"}"#
    );
}

#[test]
fn pullreq_edits() {
    assert_eq!(
        PullEdit::new(Some("test"), None, None).encode().to_json_string(),
        r#"{"title":"test"}"#
    );
    assert_eq!(
        PullEdit::new(Some("test"), Some("desc"), None).encode().to_json_string(),
        r#"{"title":"test","body":"desc"}"#
    );
}

#[test]
fn status_reqs_keep_declared_order() {
    // fields set out of declaration order still encode in declaration order
    let req = StatusReq::builder(State::pending)
        .description("desc")
        .context("ci/build")
        .target_url("http://host.com")
        .build();
    assert_eq!(
        req.encode().to_json_string(),
        r#"{"state":"pending","target_url":"http://host.com","description":"desc","context":"ci/build"}"#
    );
}

#[test]
fn empty_values_still_emitted() {
    assert_eq!(
        DeploymentStatusReq::builder(State::success).description("").build().encode().to_json_string(),
        r#"{"state":"success","description":""}"#
    );
    assert_eq!(
        PullEdit::new(None, Some(""), None).encode().to_json_string(),
        r#"{"body":""}"#
    );
}

#[test]
fn gist_req_with_only_files() {
    let req = GistReq {
        description: None,
        public: None,
        files: vec![(
            "foo".to_string(),
            Content {
                filename: None,
                content: "bar".to_string(),
            },
        )],
    };
    assert_eq!(
        req.encode().to_json_string(),
        r#"{"files":{"foo":{"content":"bar"}}}"#
    );
}

#[test]
fn state_tags_are_textual() {
    for (state, expected) in [
        (State::pending, r#"{"state":"pending"}"#),
        (State::success, r#"{"state":"success"}"#),
        (State::error, r#"{"state":"error"}"#),
        (State::failure, r#"{"state":"failure"}"#),
    ] {
        assert_eq!(
            StatusReq::new(state, None, None, None).encode().to_json_string(),
            expected
        );
    }
}

#[test]
fn deployment_req_all_fields() {
    let req = DeploymentReq {
        commit_ref: "main".to_string(),
        task: Some("deploy".to_string()),
        auto_merge: Some(false),
        required_contexts: Some(vec!["ci".to_string(), "lint".to_string()]),
        payload: Some(r#"{"k":"v"}"#.to_string()),
        environment: Some("production".to_string()),
        description: Some("rollout".to_string()),
    };
    assert_eq!(
        req.encode().to_json_string(),
        r#"{"ref":"main","task":"deploy","auto_merge":false,"required_contexts":["ci","lint"],"payload":"{\"k\":\"v\"}","environment":"production","description":"rollout"}"#
    );
}

#[test]
fn gist_file_rename() {
    assert_eq!(
        Content::new(Some("new_name.rs"), "body").encode().to_json_string(),
        r#"{"filename":"new_name.rs","content":"body"}"#
    );
}

#[test]
fn release_reqs() {
    assert_eq!(
        ReleaseReq::builder("v1.0.0").build().encode().to_json_string(),
        r#"{"tag_name":"v1.0.0"}"#
    );
    assert_eq!(
        ReleaseReq::builder("v1.0.0")
            .name("first")
            .draft(true)
            .build()
            .encode()
            .to_json_string(),
        r#"{"tag_name":"v1.0.0","name":"first","draft":true}"#
    );
}

#[test]
fn rebuilding_does_not_disturb_snapshots() {
    let builder = PullEdit::builder().title("one");
    let first = builder.build();
    let second = builder.state("closed").build();
    assert_eq!(first.encode().to_json_string(), r#"{"title":"one"}"#);
    assert_eq!(
        second.encode().to_json_string(),
        r#"{"title":"one","state":"closed"}"#
    );
}
