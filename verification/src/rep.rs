//! Representations of the API's data structures: plain response records, and
//! outbound request records built through builders. Requests serialize
//! sparsely: a wire object holds the mandatory fields and exactly the optional
//! fields the caller set, in declaration order, under their wire names.

use vstd::prelude::*;

use crate::json::{entry_lookup, entry_models, elem_models, json_text, Json, Value};
use crate::statuses::{state_tag, State};

verus! {

broadcast use vstd::seq::group_seq_axioms;

/// One wire entry for a set optional text field, none for an unset one.
pub open spec fn opt_str_entries(key: Seq<char>, v: Option<String>) -> Seq<(Seq<char>, Json)> {
    match v {
        Option::Some(s) => seq![(key, Json::Str(s@))],
        Option::None => Seq::empty(),
    }
}

/// One wire entry for a set optional flag, none for an unset one.
pub open spec fn opt_bool_entries(key: Seq<char>, v: Option<bool>) -> Seq<(Seq<char>, Json)> {
    match v {
        Option::Some(b) => seq![(key, Json::Bool(b))],
        Option::None => Seq::empty(),
    }
}

/// The strings of a collection field, as wire values.
pub open spec fn str_seq_json(items: Seq<String>) -> Seq<Json> {
    Seq::new(items.len(), |i: int| Json::Str(items[i]@))
}

/// One wire entry carrying the full collection for a set list field, none for
/// an unset one.
pub open spec fn opt_str_vec_entries(key: Seq<char>, v: Option<Vec<String>>) -> Seq<
    (Seq<char>, Json),
> {
    match v {
        Option::Some(items) => seq![(key, Json::Arr(str_seq_json(items@)))],
        Option::None => Seq::empty(),
    }
}

fn clone_strings(v: &Vec<String>) -> (r: Vec<String>)
    ensures
        r@ == v@,
{
    let mut r: Vec<String> = Vec::new();
    let n = v.len();
    let mut i: usize = 0;
    while i < n
        invariant
            n == v.len(),
            0 <= i <= n,
            r@ == v@.take(i as int),
        decreases n - i,
    {
        r.push(v[i].clone());
        proof {
            assert(r@ =~= v@.take(i as int + 1));
        }
        i = i + 1;
    }
    proof {
        assert(v@.take(n as int) =~= v@);
    }
    r
}

fn str_values(v: &Vec<String>) -> (r: Vec<Value>)
    ensures
        elem_models(r@) == str_seq_json(v@),
{
    let mut r: Vec<Value> = Vec::new();
    let n = v.len();
    let mut i: usize = 0;
    while i < n
        invariant
            n == v.len(),
            0 <= i <= n,
            r@.len() == i,
            forall|j: int| 0 <= j < i ==> r@[j] == Value::Str(v@[j]),
        decreases n - i,
    {
        r.push(Value::Str(v[i].clone()));
        i = i + 1;
    }
    proof {
        assert(elem_models(r@) =~= str_seq_json(v@));
    }
    r
}

/// A deployment request: the commit reference is mandatory (serialized under
/// the wire name `ref`), the rest is optional.
#[derive(Debug)]
pub struct DeploymentReq {
    pub commit_ref: String,
    pub task: Option<String>,
    pub auto_merge: Option<bool>,
    pub required_contexts: Option<Vec<String>>,
    /// contents should be valid JSON text
    pub payload: Option<String>,
    pub environment: Option<String>,
    pub description: Option<String>,
}

/// The wire entries of a deployment request, in declaration order.
pub open spec fn deployment_req_entries(r: DeploymentReq) -> Seq<(Seq<char>, Json)> {
    seq![("ref"@, Json::Str(r.commit_ref@))] + opt_str_entries("task"@, r.task)
        + opt_bool_entries("auto_merge"@, r.auto_merge) + opt_str_vec_entries(
        "required_contexts"@,
        r.required_contexts,
    ) + opt_str_entries("payload"@, r.payload) + opt_str_entries("environment"@, r.environment)
        + opt_str_entries("description"@, r.description)
}

impl DeploymentReq {
    pub fn builder(commit: &str) -> (r: DeploymentReqBuilder)
        ensures
            r.commit_ref@ == commit@,
            r.task is None,
            r.auto_merge is None,
            r.required_contexts is None,
            r.payload is None,
            r.environment is None,
            r.description is None,
    {
        DeploymentReqBuilder::new(commit)
    }

    /// Sparse wire form: exactly the mandatory commit reference and the
    /// optional fields that are set, in declaration order.
    pub fn encode(&self) -> (r: Value)
        ensures
            r@ == Json::Obj(deployment_req_entries(*self)),
    {
        let mut entries: Vec<(String, Value)> = Vec::new();
        entries.push(("ref".to_owned(), Value::Str(self.commit_ref.clone())));
        if let Some(t) = &self.task {
            entries.push(("task".to_owned(), Value::Str(t.clone())));
        }
        if let Some(a) = &self.auto_merge {
            entries.push(("auto_merge".to_owned(), Value::Bool(*a)));
        }
        if let Some(ctxs) = &self.required_contexts {
            entries.push(("required_contexts".to_owned(), Value::Arr(str_values(ctxs))));
        }
        if let Some(p) = &self.payload {
            entries.push(("payload".to_owned(), Value::Str(p.clone())));
        }
        if let Some(e) = &self.environment {
            entries.push(("environment".to_owned(), Value::Str(e.clone())));
        }
        if let Some(d) = &self.description {
            entries.push(("description".to_owned(), Value::Str(d.clone())));
        }
        proof {
            assert(entry_models(entries@) =~= deployment_req_entries(*self));
        }
        Value::Obj(entries)
    }
}

/// Accumulates the fields of a deployment request; `build` takes a snapshot.
pub struct DeploymentReqBuilder {
    pub commit_ref: String,
    pub task: Option<String>,
    pub auto_merge: Option<bool>,
    pub required_contexts: Option<Vec<String>>,
    pub payload: Option<Value>,
    pub environment: Option<String>,
    pub description: Option<String>,
}

impl DeploymentReqBuilder {
    pub fn new(commit: &str) -> (r: DeploymentReqBuilder)
        ensures
            r.commit_ref@ == commit@,
            r.task is None,
            r.auto_merge is None,
            r.required_contexts is None,
            r.payload is None,
            r.environment is None,
            r.description is None,
    {
        DeploymentReqBuilder {
            commit_ref: commit.to_owned(),
            task: None,
            auto_merge: None,
            required_contexts: None,
            payload: None,
            environment: None,
            description: None,
        }
    }

    pub fn task(self, task: &str) -> (r: DeploymentReqBuilder)
        ensures
            r.task matches Some(t) && t@ == task@,
            r == (DeploymentReqBuilder { task: r.task, ..self }),
    {
        DeploymentReqBuilder { task: Some(task.to_owned()), ..self }
    }

    pub fn auto_merge(self, auto_merge: bool) -> (r: DeploymentReqBuilder)
        ensures
            r.auto_merge == Some(auto_merge),
            r == (DeploymentReqBuilder { auto_merge: r.auto_merge, ..self }),
    {
        DeploymentReqBuilder { auto_merge: Some(auto_merge), ..self }
    }

    pub fn required_contexts(self, ctxs: Vec<String>) -> (r: DeploymentReqBuilder)
        ensures
            r.required_contexts == Some(ctxs),
            r == (DeploymentReqBuilder { required_contexts: r.required_contexts, ..self }),
    {
        DeploymentReqBuilder { required_contexts: Some(ctxs), ..self }
    }

    /// The payload is a caller-supplied, pre-validated value; it is rendered
    /// to JSON text at build time and trusted to be legal content.
    pub fn payload(self, pl: Value) -> (r: DeploymentReqBuilder)
        ensures
            r.payload == Some(pl),
            r == (DeploymentReqBuilder { payload: r.payload, ..self }),
    {
        DeploymentReqBuilder { payload: Some(pl), ..self }
    }

    pub fn environment(self, env: &str) -> (r: DeploymentReqBuilder)
        ensures
            r.environment matches Some(e) && e@ == env@,
            r == (DeploymentReqBuilder { environment: r.environment, ..self }),
    {
        DeploymentReqBuilder { environment: Some(env.to_owned()), ..self }
    }

    pub fn description(self, desc: &str) -> (r: DeploymentReqBuilder)
        ensures
            r.description matches Some(d) && d@ == desc@,
            r == (DeploymentReqBuilder { description: r.description, ..self }),
    {
        DeploymentReqBuilder { description: Some(desc.to_owned()), ..self }
    }

    /// An immutable snapshot of the accumulated fields. The snapshot owns its
    /// values: rebuilding later never disturbs it.
    pub fn build(&self) -> (r: DeploymentReq)
        ensures
            r.commit_ref == self.commit_ref,
            r.task == self.task,
            r.auto_merge == self.auto_merge,
            (match self.required_contexts {
                Some(c) => r.required_contexts matches Some(rc) && rc@ == c@,
                None => r.required_contexts is None,
            }),
            (match self.payload {
                Some(p) => r.payload matches Some(s) && s@ == json_text(p@),
                None => r.payload is None,
            }),
            r.environment == self.environment,
            r.description == self.description,
    {
        DeploymentReq {
            commit_ref: self.commit_ref.clone(),
            task: match &self.task {
                Some(t) => Some(t.clone()),
                None => None,
            },
            auto_merge: self.auto_merge,
            required_contexts: match &self.required_contexts {
                Some(c) => Some(clone_strings(c)),
                None => None,
            },
            payload: match &self.payload {
                Some(p) => Some(p.to_json_string()),
                None => None,
            },
            environment: match &self.environment {
                Some(e) => Some(e.clone()),
                None => None,
            },
            description: match &self.description {
                Some(d) => Some(d.clone()),
                None => None,
            },
        }
    }
}

/// One file of a gist request: optional new name, mandatory content.
#[derive(Debug)]
pub struct Content {
    pub filename: Option<String>,
    pub content: String,
}

/// The wire entries of one gist file, in declaration order.
pub open spec fn content_entries(c: Content) -> Seq<(Seq<char>, Json)> {
    opt_str_entries("filename"@, c.filename) + seq![("content"@, Json::Str(c.content@))]
}

impl Content {
    pub fn new(filename: Option<&str>, content: &str) -> (r: Content)
        ensures
            (match filename {
                Some(f) => r.filename matches Some(g) && g@ == f@,
                None => r.filename is None,
            }),
            r.content@ == content@,
    {
        Content {
            filename: match filename {
                Some(f) => Some(f.to_owned()),
                None => None,
            },
            content: content.to_owned(),
        }
    }

    /// Sparse wire form: the filename only when set, then the content.
    pub fn encode(&self) -> (r: Value)
        ensures
            r@ == Json::Obj(content_entries(*self)),
    {
        let mut entries: Vec<(String, Value)> = Vec::new();
        if let Some(f) = &self.filename {
            entries.push(("filename".to_owned(), Value::Str(f.clone())));
        }
        entries.push(("content".to_owned(), Value::Str(self.content.clone())));
        proof {
            assert(entry_models(entries@) =~= content_entries(*self));
        }
        Value::Obj(entries)
    }
}

/// A gist creation request: the files are mandatory, the rest is optional.
#[derive(Debug)]
pub struct GistReq {
    pub description: Option<String>,
    pub public: Option<bool>,
    pub files: Vec<(String, Content)>,
}

/// The files of a gist request as one wire object, a member per file.
pub open spec fn gist_files_entries(files: Seq<(String, Content)>) -> Seq<(Seq<char>, Json)> {
    Seq::new(files.len(), |i: int| (files[i].0@, Json::Obj(content_entries(files[i].1))))
}

/// The wire entries of a gist request, in declaration order.
pub open spec fn gist_req_entries(r: GistReq) -> Seq<(Seq<char>, Json)> {
    opt_str_entries("description"@, r.description) + opt_bool_entries("public"@, r.public)
        + seq![("files"@, Json::Obj(gist_files_entries(r.files@)))]
}

impl GistReq {
    /// A request whose files carry the given contents under the given names,
    /// with no per-file rename.
    pub fn new(desc: Option<&str>, public: bool, files: Vec<(String, String)>) -> (r: GistReq)
        ensures
            (match desc {
                Some(d) => r.description matches Some(s) && s@ == d@,
                None => r.description is None,
            }),
            r.public == Some(public),
            r.files@.len() == files@.len(),
            forall|i: int|
                0 <= i < files@.len() ==> (#[trigger] r.files@[i]).0 == files@[i].0
                    && r.files@[i].1.filename is None && r.files@[i].1.content == files@[i].1,
    {
        let mut contents: Vec<(String, Content)> = Vec::new();
        let n = files.len();
        let mut i: usize = 0;
        while i < n
            invariant
                n == files.len(),
                0 <= i <= n,
                contents@.len() == i,
                forall|j: int|
                    0 <= j < i ==> (#[trigger] contents@[j]).0 == files@[j].0
                        && contents@[j].1.filename is None && contents@[j].1.content == files@[j].1,
            decreases n - i,
        {
            let name = files[i].0.clone();
            let body = files[i].1.clone();
            contents.push((name, Content { filename: None, content: body }));
            i = i + 1;
        }
        GistReq {
            description: match desc {
                Some(d) => Some(d.to_owned()),
                None => None,
            },
            public: Some(public),
            files: contents,
        }
    }

    /// Sparse wire form: the optional fields that are set, then the files.
    pub fn encode(&self) -> (r: Value)
        ensures
            r@ == Json::Obj(gist_req_entries(*self)),
    {
        let mut file_entries: Vec<(String, Value)> = Vec::new();
        let n = self.files.len();
        let mut i: usize = 0;
        while i < n
            invariant
                n == self.files.len(),
                0 <= i <= n,
                file_entries@.len() == i,
                forall|j: int|
                    0 <= j < i ==> (#[trigger] file_entries@[j]).0 == self.files@[j].0
                        && file_entries@[j].1@ == Json::Obj(content_entries(self.files@[j].1)),
            decreases n - i,
        {
            let name = self.files[i].0.clone();
            let body = self.files[i].1.encode();
            file_entries.push((name, body));
            i = i + 1;
        }
        let mut entries: Vec<(String, Value)> = Vec::new();
        if let Some(d) = &self.description {
            entries.push(("description".to_owned(), Value::Str(d.clone())));
        }
        if let Some(p) = &self.public {
            entries.push(("public".to_owned(), Value::Bool(*p)));
        }
        entries.push(("files".to_owned(), Value::Obj(file_entries)));
        proof {
            assert(entry_models(file_entries@) =~= gist_files_entries(self.files@));
            assert(entry_models(entries@) =~= gist_req_entries(*self));
        }
        Value::Obj(entries)
    }
}

/// An edit of an existing pull request: every field is optional.
#[derive(Debug)]
pub struct PullEdit {
    pub title: Option<String>,
    pub body: Option<String>,
    pub state: Option<String>,
}

/// The wire entries of a pull-request edit, in declaration order.
pub open spec fn pull_edit_entries(r: PullEdit) -> Seq<(Seq<char>, Json)> {
    opt_str_entries("title"@, r.title) + opt_str_entries("body"@, r.body) + opt_str_entries(
        "state"@,
        r.state,
    )
}

impl PullEdit {
    pub fn new(title: Option<&str>, body: Option<&str>, state: Option<&str>) -> (r: PullEdit)
        ensures
            (match title {
                Some(t) => r.title matches Some(s) && s@ == t@,
                None => r.title is None,
            }),
            (match body {
                Some(b) => r.body matches Some(s) && s@ == b@,
                None => r.body is None,
            }),
            (match state {
                Some(t) => r.state matches Some(s) && s@ == t@,
                None => r.state is None,
            }),
    {
        PullEdit {
            title: match title {
                Some(t) => Some(t.to_owned()),
                None => None,
            },
            body: match body {
                Some(b) => Some(b.to_owned()),
                None => None,
            },
            state: match state {
                Some(s) => Some(s.to_owned()),
                None => None,
            },
        }
    }

    pub fn builder() -> (r: PullEditBuilder)
        ensures
            r.title is None,
            r.body is None,
            r.state is None,
    {
        PullEditBuilder::new()
    }

    /// Sparse wire form: exactly the fields that are set, in declaration order.
    pub fn encode(&self) -> (r: Value)
        ensures
            r@ == Json::Obj(pull_edit_entries(*self)),
    {
        let mut entries: Vec<(String, Value)> = Vec::new();
        if let Some(t) = &self.title {
            entries.push(("title".to_owned(), Value::Str(t.clone())));
        }
        if let Some(b) = &self.body {
            entries.push(("body".to_owned(), Value::Str(b.clone())));
        }
        if let Some(s) = &self.state {
            entries.push(("state".to_owned(), Value::Str(s.clone())));
        }
        proof {
            assert(entry_models(entries@) =~= pull_edit_entries(*self));
        }
        Value::Obj(entries)
    }
}

/// Accumulates the fields of a pull-request edit; `build` takes a snapshot.
pub struct PullEditBuilder {
    pub title: Option<String>,
    pub body: Option<String>,
    pub state: Option<String>,
}

impl PullEditBuilder {
    pub fn new() -> (r: PullEditBuilder)
        ensures
            r.title is None,
            r.body is None,
            r.state is None,
    {
        PullEditBuilder { title: None, body: None, state: None }
    }

    pub fn title(self, title: &str) -> (r: PullEditBuilder)
        ensures
            r.title matches Some(t) && t@ == title@,
            r == (PullEditBuilder { title: r.title, ..self }),
    {
        PullEditBuilder { title: Some(title.to_owned()), ..self }
    }

    pub fn body(self, body: &str) -> (r: PullEditBuilder)
        ensures
            r.body matches Some(b) && b@ == body@,
            r == (PullEditBuilder { body: r.body, ..self }),
    {
        PullEditBuilder { body: Some(body.to_owned()), ..self }
    }

    pub fn state(self, state: &str) -> (r: PullEditBuilder)
        ensures
            r.state matches Some(s) && s@ == state@,
            r == (PullEditBuilder { state: r.state, ..self }),
    {
        PullEditBuilder { state: Some(state.to_owned()), ..self }
    }

    /// An immutable snapshot of the accumulated fields.
    pub fn build(&self) -> (r: PullEdit)
        ensures
            r.title == self.title,
            r.body == self.body,
            r.state == self.state,
    {
        PullEdit {
            title: match &self.title {
                Some(t) => Some(t.clone()),
                None => None,
            },
            body: match &self.body {
                Some(b) => Some(b.clone()),
                None => None,
            },
            state: match &self.state {
                Some(s) => Some(s.clone()),
                None => None,
            },
        }
    }
}

/// A new pull request: title, head and base are mandatory.
#[derive(Debug)]
pub struct PullReq {
    pub title: String,
    pub head: String,
    pub base: String,
    pub body: Option<String>,
}

impl PullReq {
    pub fn new(title: &str, head: &str, base: &str, body: Option<&str>) -> (r: PullReq)
        ensures
            r.title@ == title@,
            r.head@ == head@,
            r.base@ == base@,
            (match body {
                Some(b) => r.body matches Some(s) && s@ == b@,
                None => r.body is None,
            }),
    {
        PullReq {
            title: title.to_owned(),
            head: head.to_owned(),
            base: base.to_owned(),
            body: match body {
                Some(b) => Some(b.to_owned()),
                None => None,
            },
        }
    }
}

/// A new issue.
#[derive(Debug)]
pub struct IssueReq {
    pub title: String,
    pub body: Option<String>,
    pub assignee: Option<String>,
    pub milestone: Option<u64>,
    pub labels: Vec<String>,
}

impl IssueReq {
    pub fn new(
        title: &str,
        body: Option<&str>,
        assignee: Option<&str>,
        milestone: Option<u64>,
        labels: Vec<String>,
    ) -> (r: IssueReq)
        ensures
            r.title@ == title@,
            (match body {
                Some(b) => r.body matches Some(s) && s@ == b@,
                None => r.body is None,
            }),
            (match assignee {
                Some(a) => r.assignee matches Some(s) && s@ == a@,
                None => r.assignee is None,
            }),
            r.milestone == milestone,
            r.labels@ == labels@,
    {
        IssueReq {
            title: title.to_owned(),
            body: match body {
                Some(b) => Some(b.to_owned()),
                None => None,
            },
            assignee: match assignee {
                Some(a) => Some(a.to_owned()),
                None => None,
            },
            milestone,
            labels,
        }
    }
}

/// A new label.
#[derive(Debug)]
pub struct LabelReq {
    pub name: String,
    pub color: String,
}

impl LabelReq {
    pub fn new(name: &str, color: &str) -> (r: LabelReq)
        ensures
            r.name@ == name@,
            r.color@ == color@,
    {
        LabelReq { name: name.to_owned(), color: color.to_owned() }
    }
}

/// A new release: the tag name is mandatory, the rest is optional.
#[derive(Debug)]
pub struct ReleaseReq {
    pub tag_name: String,
    pub target_commitish: Option<String>,
    pub name: Option<String>,
    pub body: Option<String>,
    pub draft: Option<bool>,
    pub prerelease: Option<bool>,
}

/// The wire entries of a release request, in declaration order.
pub open spec fn release_req_entries(r: ReleaseReq) -> Seq<(Seq<char>, Json)> {
    seq![("tag_name"@, Json::Str(r.tag_name@))] + opt_str_entries(
        "target_commitish"@,
        r.target_commitish,
    ) + opt_str_entries("name"@, r.name) + opt_str_entries("body"@, r.body) + opt_bool_entries(
        "draft"@,
        r.draft,
    ) + opt_bool_entries("prerelease"@, r.prerelease)
}

impl ReleaseReq {
    pub fn new(
        tag: &str,
        commit: Option<&str>,
        name: Option<&str>,
        body: Option<&str>,
        draft: Option<bool>,
        prerelease: Option<bool>,
    ) -> (r: ReleaseReq)
        ensures
            r.tag_name@ == tag@,
            (match commit {
                Some(c) => r.target_commitish matches Some(s) && s@ == c@,
                None => r.target_commitish is None,
            }),
            (match name {
                Some(n) => r.name matches Some(s) && s@ == n@,
                None => r.name is None,
            }),
            (match body {
                Some(b) => r.body matches Some(s) && s@ == b@,
                None => r.body is None,
            }),
            r.draft == draft,
            r.prerelease == prerelease,
    {
        ReleaseReq {
            tag_name: tag.to_owned(),
            target_commitish: match commit {
                Some(c) => Some(c.to_owned()),
                None => None,
            },
            name: match name {
                Some(n) => Some(n.to_owned()),
                None => None,
            },
            body: match body {
                Some(b) => Some(b.to_owned()),
                None => None,
            },
            draft,
            prerelease,
        }
    }

    pub fn builder(tag: &str) -> (r: ReleaseBuilder)
        ensures
            r.tag@ == tag@,
            r.commitish is None,
            r.name is None,
            r.body is None,
            r.draft is None,
            r.prerelease is None,
    {
        ReleaseBuilder::new(tag)
    }

    /// Sparse wire form: the mandatory tag name and exactly the optional
    /// fields that are set, in declaration order.
    pub fn encode(&self) -> (r: Value)
        ensures
            r@ == Json::Obj(release_req_entries(*self)),
    {
        let mut entries: Vec<(String, Value)> = Vec::new();
        entries.push(("tag_name".to_owned(), Value::Str(self.tag_name.clone())));
        if let Some(c) = &self.target_commitish {
            entries.push(("target_commitish".to_owned(), Value::Str(c.clone())));
        }
        if let Some(n) = &self.name {
            entries.push(("name".to_owned(), Value::Str(n.clone())));
        }
        if let Some(b) = &self.body {
            entries.push(("body".to_owned(), Value::Str(b.clone())));
        }
        if let Some(d) = &self.draft {
            entries.push(("draft".to_owned(), Value::Bool(*d)));
        }
        if let Some(p) = &self.prerelease {
            entries.push(("prerelease".to_owned(), Value::Bool(*p)));
        }
        proof {
            assert(entry_models(entries@) =~= release_req_entries(*self));
        }
        Value::Obj(entries)
    }
}

/// Accumulates the fields of a release request; `build` takes a snapshot.
pub struct ReleaseBuilder {
    pub tag: String,
    pub commitish: Option<String>,
    pub name: Option<String>,
    pub body: Option<String>,
    pub draft: Option<bool>,
    pub prerelease: Option<bool>,
}

impl ReleaseBuilder {
    pub fn new(tag: &str) -> (r: ReleaseBuilder)
        ensures
            r.tag@ == tag@,
            r.commitish is None,
            r.name is None,
            r.body is None,
            r.draft is None,
            r.prerelease is None,
    {
        ReleaseBuilder {
            tag: tag.to_owned(),
            commitish: None,
            name: None,
            body: None,
            draft: None,
            prerelease: None,
        }
    }

    pub fn commitish(self, commit: &str) -> (r: ReleaseBuilder)
        ensures
            r.commitish matches Some(c) && c@ == commit@,
            r == (ReleaseBuilder { commitish: r.commitish, ..self }),
    {
        ReleaseBuilder { commitish: Some(commit.to_owned()), ..self }
    }

    pub fn name(self, name: &str) -> (r: ReleaseBuilder)
        ensures
            r.name matches Some(n) && n@ == name@,
            r == (ReleaseBuilder { name: r.name, ..self }),
    {
        ReleaseBuilder { name: Some(name.to_owned()), ..self }
    }

    pub fn body(self, body: &str) -> (r: ReleaseBuilder)
        ensures
            r.body matches Some(b) && b@ == body@,
            r == (ReleaseBuilder { body: r.body, ..self }),
    {
        ReleaseBuilder { body: Some(body.to_owned()), ..self }
    }

    pub fn draft(self, draft: bool) -> (r: ReleaseBuilder)
        ensures
            r.draft == Some(draft),
            r == (ReleaseBuilder { draft: r.draft, ..self }),
    {
        ReleaseBuilder { draft: Some(draft), ..self }
    }

    pub fn prerelease(self, pre: bool) -> (r: ReleaseBuilder)
        ensures
            r.prerelease == Some(pre),
            r == (ReleaseBuilder { prerelease: r.prerelease, ..self }),
    {
        ReleaseBuilder { prerelease: Some(pre), ..self }
    }

    /// An immutable snapshot of the accumulated fields.
    pub fn build(&self) -> (r: ReleaseReq)
        ensures
            r.tag_name == self.tag,
            r.target_commitish == self.commitish,
            r.name == self.name,
            r.body == self.body,
            r.draft == self.draft,
            r.prerelease == self.prerelease,
    {
        ReleaseReq {
            tag_name: self.tag.clone(),
            target_commitish: match &self.commitish {
                Some(c) => Some(c.clone()),
                None => None,
            },
            name: match &self.name {
                Some(n) => Some(n.clone()),
                None => None,
            },
            body: match &self.body {
                Some(b) => Some(b.clone()),
                None => None,
            },
            draft: self.draft,
            prerelease: self.prerelease,
        }
    }
}

/// A new status for a deployment: the state is mandatory, the rest optional.
#[derive(Debug)]
pub struct DeploymentStatusReq {
    pub state: State,
    pub target_url: Option<String>,
    pub description: Option<String>,
}

/// The wire entries of a deployment-status request, in declaration order. The
/// state serializes as its textual tag.
pub open spec fn deployment_status_req_entries(r: DeploymentStatusReq) -> Seq<(Seq<char>, Json)> {
    seq![("state"@, Json::Str(state_tag(r.state)))] + opt_str_entries("target_url"@, r.target_url)
        + opt_str_entries("description"@, r.description)
}

impl DeploymentStatusReq {
    pub fn builder(state: State) -> (r: DeploymentStatusReqBuilder)
        ensures
            r.state == state,
            r.target_url is None,
            r.description is None,
    {
        DeploymentStatusReqBuilder::new(state)
    }

    /// Sparse wire form: the mandatory state as its textual tag, then exactly
    /// the optional fields that are set, in declaration order.
    pub fn encode(&self) -> (r: Value)
        ensures
            r@ == Json::Obj(deployment_status_req_entries(*self)),
    {
        let mut entries: Vec<(String, Value)> = Vec::new();
        entries.push(("state".to_owned(), Value::Str(self.state.tag())));
        if let Some(u) = &self.target_url {
            entries.push(("target_url".to_owned(), Value::Str(u.clone())));
        }
        if let Some(d) = &self.description {
            entries.push(("description".to_owned(), Value::Str(d.clone())));
        }
        proof {
            assert(entry_models(entries@) =~= deployment_status_req_entries(*self));
        }
        Value::Obj(entries)
    }
}

/// Accumulates the fields of a deployment-status request.
pub struct DeploymentStatusReqBuilder {
    pub state: State,
    pub target_url: Option<String>,
    pub description: Option<String>,
}

impl DeploymentStatusReqBuilder {
    pub fn new(state: State) -> (r: DeploymentStatusReqBuilder)
        ensures
            r.state == state,
            r.target_url is None,
            r.description is None,
    {
        DeploymentStatusReqBuilder { state, target_url: None, description: None }
    }

    pub fn target_url(self, url: &str) -> (r: DeploymentStatusReqBuilder)
        ensures
            r.target_url matches Some(u) && u@ == url@,
            r == (DeploymentStatusReqBuilder { target_url: r.target_url, ..self }),
    {
        DeploymentStatusReqBuilder { target_url: Some(url.to_owned()), ..self }
    }

    pub fn description(self, desc: &str) -> (r: DeploymentStatusReqBuilder)
        ensures
            r.description matches Some(d) && d@ == desc@,
            r == (DeploymentStatusReqBuilder { description: r.description, ..self }),
    {
        DeploymentStatusReqBuilder { description: Some(desc.to_owned()), ..self }
    }

    /// An immutable snapshot of the accumulated fields.
    pub fn build(&self) -> (r: DeploymentStatusReq)
        ensures
            r.state == self.state,
            r.target_url == self.target_url,
            r.description == self.description,
    {
        DeploymentStatusReq {
            state: self.state,
            target_url: match &self.target_url {
                Some(u) => Some(u.clone()),
                None => None,
            },
            description: match &self.description {
                Some(d) => Some(d.clone()),
                None => None,
            },
        }
    }
}

/// A new status for a commit: the state is mandatory, the rest optional.
#[derive(Debug)]
pub struct StatusReq {
    pub state: State,
    pub target_url: Option<String>,
    pub description: Option<String>,
    pub context: Option<String>,
}

/// The wire entries of a status request, in declaration order. The state
/// serializes as its textual tag.
pub open spec fn status_req_entries(r: StatusReq) -> Seq<(Seq<char>, Json)> {
    seq![("state"@, Json::Str(state_tag(r.state)))] + opt_str_entries("target_url"@, r.target_url)
        + opt_str_entries("description"@, r.description) + opt_str_entries("context"@, r.context)
}

impl StatusReq {
    pub fn new(
        state: State,
        target_url: Option<&str>,
        descr: Option<&str>,
        context: Option<&str>,
    ) -> (r: StatusReq)
        ensures
            r.state == state,
            (match target_url {
                Some(u) => r.target_url matches Some(s) && s@ == u@,
                None => r.target_url is None,
            }),
            (match descr {
                Some(d) => r.description matches Some(s) && s@ == d@,
                None => r.description is None,
            }),
            (match context {
                Some(c) => r.context matches Some(s) && s@ == c@,
                None => r.context is None,
            }),
    {
        StatusReq {
            state,
            target_url: match target_url {
                Some(u) => Some(u.to_owned()),
                None => None,
            },
            description: match descr {
                Some(d) => Some(d.to_owned()),
                None => None,
            },
            context: match context {
                Some(c) => Some(c.to_owned()),
                None => None,
            },
        }
    }

    pub fn builder(state: State) -> (r: StatusBuilder)
        ensures
            r.state == state,
            r.target_url is None,
            r.description is None,
            r.context is None,
    {
        StatusBuilder::new(state)
    }

    /// Sparse wire form: the mandatory state as its textual tag, then exactly
    /// the optional fields that are set, in declaration order.
    pub fn encode(&self) -> (r: Value)
        ensures
            r@ == Json::Obj(status_req_entries(*self)),
    {
        let mut entries: Vec<(String, Value)> = Vec::new();
        entries.push(("state".to_owned(), Value::Str(self.state.tag())));
        if let Some(u) = &self.target_url {
            entries.push(("target_url".to_owned(), Value::Str(u.clone())));
        }
        if let Some(d) = &self.description {
            entries.push(("description".to_owned(), Value::Str(d.clone())));
        }
        if let Some(c) = &self.context {
            entries.push(("context".to_owned(), Value::Str(c.clone())));
        }
        proof {
            assert(entry_models(entries@) =~= status_req_entries(*self));
        }
        Value::Obj(entries)
    }
}

/// Accumulates the fields of a status request.
pub struct StatusBuilder {
    pub state: State,
    pub target_url: Option<String>,
    pub description: Option<String>,
    pub context: Option<String>,
}

impl StatusBuilder {
    pub fn new(state: State) -> (r: StatusBuilder)
        ensures
            r.state == state,
            r.target_url is None,
            r.description is None,
            r.context is None,
    {
        StatusBuilder { state, target_url: None, description: None, context: None }
    }

    pub fn target_url(self, url: &str) -> (r: StatusBuilder)
        ensures
            r.target_url matches Some(u) && u@ == url@,
            r == (StatusBuilder { target_url: r.target_url, ..self }),
    {
        StatusBuilder { target_url: Some(url.to_owned()), ..self }
    }

    pub fn description(self, desc: &str) -> (r: StatusBuilder)
        ensures
            r.description matches Some(d) && d@ == desc@,
            r == (StatusBuilder { description: r.description, ..self }),
    {
        StatusBuilder { description: Some(desc.to_owned()), ..self }
    }

    pub fn context(self, ctx: &str) -> (r: StatusBuilder)
        ensures
            r.context matches Some(c) && c@ == ctx@,
            r == (StatusBuilder { context: r.context, ..self }),
    {
        StatusBuilder { context: Some(ctx.to_owned()), ..self }
    }

    /// An immutable snapshot of the accumulated fields.
    pub fn build(&self) -> (r: StatusReq)
        ensures
            r.state == self.state,
            r.target_url == self.target_url,
            r.description == self.description,
            r.context == self.context,
    {
        StatusReq {
            state: self.state,
            target_url: match &self.target_url {
                Some(u) => Some(u.clone()),
                None => None,
            },
            description: match &self.description {
                Some(d) => Some(d.clone()),
                None => None,
            },
            context: match &self.context {
                Some(c) => Some(c.clone()),
                None => None,
            },
        }
    }
}

/// A deployment request with only its mandatory field set encodes to an
/// object holding exactly the commit reference under the wire name `ref`,
/// nothing else.
pub proof fn lemma_deployment_req_mandatory_only(r: DeploymentReq)
    requires
        r.task is None,
        r.auto_merge is None,
        r.required_contexts is None,
        r.payload is None,
        r.environment is None,
        r.description is None,
    ensures
        deployment_req_entries(r) == seq![("ref"@, Json::Str(r.commit_ref@))],
{
    assert(deployment_req_entries(r) =~= seq![("ref"@, Json::Str(r.commit_ref@))]);
}

/// A deployment-status request with only its mandatory field set encodes to
/// an object holding exactly the state tag.
pub proof fn lemma_deployment_status_req_mandatory_only(r: DeploymentStatusReq)
    requires
        r.target_url is None,
        r.description is None,
    ensures
        deployment_status_req_entries(r) == seq![("state"@, Json::Str(state_tag(r.state)))],
{
    assert(deployment_status_req_entries(r) =~= seq![("state"@, Json::Str(state_tag(r.state)))]);
}

/// A status request with only its mandatory field set encodes to an object
/// holding exactly the state tag.
pub proof fn lemma_status_req_mandatory_only(r: StatusReq)
    requires
        r.target_url is None,
        r.description is None,
        r.context is None,
    ensures
        status_req_entries(r) == seq![("state"@, Json::Str(state_tag(r.state)))],
{
    assert(status_req_entries(r) =~= seq![("state"@, Json::Str(state_tag(r.state)))]);
}

/// A gist request with only its mandatory field set encodes to an object
/// holding exactly the files.
pub proof fn lemma_gist_req_mandatory_only(r: GistReq)
    requires
        r.description is None,
        r.public is None,
    ensures
        gist_req_entries(r) == seq![("files"@, Json::Obj(gist_files_entries(r.files@)))],
{
    assert(gist_req_entries(r) =~= seq![("files"@, Json::Obj(gist_files_entries(r.files@)))]);
}

/// A release request with only its mandatory field set encodes to an object
/// holding exactly the tag name.
pub proof fn lemma_release_req_mandatory_only(r: ReleaseReq)
    requires
        r.target_commitish is None,
        r.name is None,
        r.body is None,
        r.draft is None,
        r.prerelease is None,
    ensures
        release_req_entries(r) == seq![("tag_name"@, Json::Str(r.tag_name@))],
{
    assert(release_req_entries(r) =~= seq![("tag_name"@, Json::Str(r.tag_name@))]);
}

/// A pull-request edit with nothing set encodes to the empty object.
pub proof fn lemma_pull_edit_nothing_set(r: PullEdit)
    requires
        r.title is None,
        r.body is None,
        r.state is None,
    ensures
        pull_edit_entries(r) == Seq::<(Seq<char>, Json)>::empty(),
{
    assert(pull_edit_entries(r) =~= Seq::<(Seq<char>, Json)>::empty());
}

/// Setting one optional field adds exactly one entry at its declared slot and
/// disturbs nothing else: a deployment request that differs from another only
/// in carrying a task gains exactly the task entry, directly after the
/// mandatory commit reference.
pub proof fn lemma_task_adds_one_entry(base: DeploymentReq, with_task: DeploymentReq, t: String)
    requires
        base.task is None,
        with_task.task == Some(t),
        with_task.commit_ref == base.commit_ref,
        with_task.auto_merge == base.auto_merge,
        with_task.required_contexts == base.required_contexts,
        with_task.payload == base.payload,
        with_task.environment == base.environment,
        with_task.description == base.description,
    ensures
        deployment_req_entries(with_task) == deployment_req_entries(base).insert(
            1,
            ("task"@, Json::Str(t@)),
        ),
{
    assert(deployment_req_entries(with_task) =~= deployment_req_entries(base).insert(
        1,
        ("task"@, Json::Str(t@)),
    ));
}

/// Setting one optional field adds exactly one entry and disturbs nothing
/// else, wherever it sits among the declared fields: a deployment-status
/// request that differs from another only in carrying a description gains
/// exactly the description entry, at the end of its declared order.
pub proof fn lemma_description_adds_one_entry(
    base: DeploymentStatusReq,
    with_desc: DeploymentStatusReq,
    d: String,
)
    requires
        base.description is None,
        with_desc.description == Some(d),
        with_desc.state == base.state,
        with_desc.target_url == base.target_url,
    ensures
        deployment_status_req_entries(with_desc) == deployment_status_req_entries(base).push(
            ("description"@, Json::Str(d@)),
        ),
{
    assert(deployment_status_req_entries(with_desc) =~= deployment_status_req_entries(base).push(
        ("description"@, Json::Str(d@)),
    ));
}

/// The encoding is a function of the snapshot's field values alone: two
/// status requests holding the same values encode identically, whatever
/// order their setters ran in.
pub proof fn lemma_status_req_encoding_depends_on_fields_alone(r1: StatusReq, r2: StatusReq)
    requires
        r1.state == r2.state,
        (match (r1.target_url, r2.target_url) {
            (Some(a), Some(b)) => a@ == b@,
            (None, None) => true,
            _ => false,
        }),
        (match (r1.description, r2.description) {
            (Some(a), Some(b)) => a@ == b@,
            (None, None) => true,
            _ => false,
        }),
        (match (r1.context, r2.context) {
            (Some(a), Some(b)) => a@ == b@,
            (None, None) => true,
            _ => false,
        }),
    ensures
        status_req_entries(r1) == status_req_entries(r2),
{
    assert(status_req_entries(r1) =~= status_req_entries(r2));
}

/// However the setters were ordered, entries come out in declared field
/// order: with every field of a status request present, the members are
/// exactly state, target_url, description, context, in that order.
pub proof fn lemma_status_req_declared_order(r: StatusReq, u: String, d: String, c: String)
    requires
        r.target_url == Some(u),
        r.description == Some(d),
        r.context == Some(c),
    ensures
        status_req_entries(r) == seq![
            ("state"@, Json::Str(state_tag(r.state))),
            ("target_url"@, Json::Str(u@)),
            ("description"@, Json::Str(d@)),
            ("context"@, Json::Str(c@)),
        ],
{
    assert(status_req_entries(r) =~= seq![
        ("state"@, Json::Str(state_tag(r.state))),
        ("target_url"@, Json::Str(u@)),
        ("description"@, Json::Str(d@)),
        ("context"@, Json::Str(c@)),
    ]);
}

/// An explicitly set empty value still counts as present: a deployment-status
/// request whose description is the empty string still carries a description
/// entry. Absent means never set, not empty.
pub proof fn lemma_empty_description_still_emitted(r: DeploymentStatusReq, d: String)
    requires
        r.description == Some(d),
        d@ == Seq::<char>::empty(),
    ensures
        deployment_status_req_entries(r).last() == (
            "description"@,
            Json::Str(Seq::<char>::empty()),
        ),
        deployment_status_req_entries(r).len() == (if r.target_url is Some {
            3int
        } else {
            2int
        }),
{
}

/// One field-level error reported by the API.
#[derive(Debug)]
pub struct FieldErr {
    pub resource: String,
    pub field: String,
    pub code: String,
}

/// An error body reported by the API.
#[derive(Debug)]
pub struct ClientError {
    pub message: String,
    pub errors: Option<Vec<FieldErr>>,
}

/// A deployment as the API reports it.
#[derive(Debug)]
pub struct Deployment {
    pub url: String,
    pub id: u64,
    pub sha: String,
    pub commit_ref: String,
    pub task: String,
    pub environment: String,
    pub description: String,
    pub creator: User,
    pub created_at: String,
    pub updated_at: String,
    pub statuses_url: String,
    pub repository_url: String,
}

/// One file of a gist as the API reports it.
#[derive(Debug)]
pub struct GistFile {
    pub size: u64,
    pub raw_url: String,
    pub language: Option<String>,
}

/// A gist as the API reports it.
#[derive(Debug)]
pub struct Gist {
    pub url: String,
    pub forks_url: String,
    pub commits_url: String,
    pub id: String,
    pub description: Option<String>,
    pub public: bool,
    pub owner: User,
    pub user: Option<User>,
    pub files: Vec<(String, GistFile)>,
    pub comments: u64,
    pub comments_url: String,
    pub html_url: String,
    pub git_pull_url: String,
    pub git_push_url: String,
    pub created_at: String,
    pub updated_at: String,
}

/// A fork of a gist as the API reports it.
#[derive(Debug)]
pub struct GistFork {
    user: User,
    url: String,
    id: String,
    created_at: String,
    updated_at: String,
}

/// The caller's permissions on a repository.
#[derive(Debug)]
pub struct Permissions {
    pub admin: bool,
    pub push: bool,
    pub pull: bool,
}

/// A repository as the API reports it.
#[derive(Debug)]
pub struct Repo {
    pub id: u64,
    pub owner: User,
    pub name: String,
    pub full_name: String,
    pub description: String,
    pub fork: bool,
    pub url: String,
    pub html_url: String,
    pub archive_url: String,
    pub assignees_url: String,
    pub blobs_url: String,
    pub branches_url: String,
    pub clone_url: String,
    pub collaborators_url: String,
    pub comments_url: String,
    pub commits_url: String,
    pub compare_url: String,
    pub contents_url: String,
    pub contributors_url: String,
    pub downloads_url: String,
    pub events_url: String,
    pub forks_url: String,
    pub git_commits_url: String,
    pub git_refs_url: String,
    pub git_tags_url: String,
    pub git_url: String,
    pub hooks_url: String,
    pub issue_comment_url: String,
    pub issue_events_url: String,
    pub issues_url: String,
    pub keys_url: String,
    pub labels_url: String,
    pub languages_url: String,
    pub merges_url: String,
    pub milestones_url: String,
    pub mirror_url: Option<String>,
    pub notifications_url: String,
    pub pulls_url: String,
    pub releases_url: String,
    pub ssh_url: String,
    pub stargazers_url: String,
    pub statuses_url: String,
    pub subscribers_url: String,
    pub subscription_url: String,
    pub svn_url: String,
    pub tags_url: String,
    pub teams_url: String,
    pub trees_url: String,
    pub homepage: Option<String>,
    pub language: Option<String>,
    pub forks_count: u64,
    pub stargazers_count: u64,
    pub watchers_count: u64,
    pub size: u64,
    pub default_branch: String,
    pub open_issues_count: u64,
    pub has_issues: bool,
    pub has_wiki: bool,
    pub has_pages: bool,
    pub has_downloads: bool,
    pub pushed_at: String,
    pub created_at: String,
    pub updated_at: String,
}

/// The short form of a repository.
#[derive(Debug)]
pub struct RepoDetails {
    pub id: u64,
    pub owner: User,
    pub name: String,
    pub full_name: String,
}

/// A user as the API reports it.
#[derive(Debug)]
pub struct User {
    pub login: String,
    pub id: u64,
    pub avatar_url: String,
    pub gravatar_id: String,
    pub url: String,
    pub html_url: String,
    pub followers_url: String,
    pub following_url: String,
    pub gists_url: String,
    pub starred_url: String,
    pub subscriptions_url: String,
    pub organizations_url: String,
    pub repos_url: String,
    pub events_url: String,
    pub received_events_url: String,
    pub site_admin: bool,
}

/// A commit reference as the API reports it.
#[derive(Debug)]
pub struct Commit {
    pub label: String,
    pub sha: String,
    pub user: User,
    pub repo: Option<Repo>,
}

/// A label as the API reports it.
#[derive(Debug)]
pub struct Label {
    pub url: String,
    pub name: String,
    pub color: String,
}

/// A pull request as the API reports it.
#[derive(Debug)]
pub struct Pull {
    pub id: u64,
    pub url: String,
    pub html_url: String,
    pub diff_url: String,
    pub patch_url: String,
    pub issue_url: String,
    pub commits_url: String,
    pub review_comments_url: String,
    pub review_comment_url: String,
    pub comments_url: String,
    pub statuses_url: String,
    pub number: u64,
    pub state: String,
    pub title: String,
    pub body: String,
    pub created_at: String,
    pub updated_at: String,
    pub closed_at: Option<String>,
    pub merged_at: Option<String>,
    pub user: User,
    pub merge_commit_sha: Option<String>,
    pub mergeable: Option<bool>,
    pub merged_by: Option<User>,
    pub comments: Option<u64>,
    pub commits: Option<u64>,
    pub additions: Option<u64>,
    pub deletions: Option<u64>,
    pub changed_files: Option<u64>,
}

/// An issue as the API reports it.
#[derive(Debug)]
pub struct Issue {
    pub id: u64,
    pub url: String,
    pub labels_url: String,
    pub comments_url: String,
    pub events_url: String,
    pub html_url: String,
    pub number: u64,
    pub state: String,
    pub title: String,
    pub body: String,
    pub user: User,
    pub labels: Vec<Label>,
    pub assignee: Option<User>,
    pub locked: bool,
    pub comments: u64,
    pub closed_at: Option<String>,
    pub created_at: String,
    pub updated_at: String,
}

/// A release asset as the API reports it.
#[derive(Debug)]
pub struct Asset {
    pub url: String,
    pub browser_download_url: String,
    pub id: u64,
    pub name: String,
    pub label: Option<String>,
    pub state: String,
    pub content_type: String,
    pub size: u64,
    pub download_count: u64,
    pub created_at: String,
    pub updated_at: String,
    pub uploader: User,
}

/// A release as the API reports it.
#[derive(Debug)]
pub struct Release {
    pub url: String,
    pub html_url: String,
    pub assets_url: String,
    pub upload_url: String,
    pub tarball_url: String,
    pub zipball_url: String,
    pub id: u64,
    pub tag_name: String,
    pub target_commitish: String,
    pub name: String,
    pub body: String,
    pub draft: bool,
    pub prerelease: bool,
    pub created_at: String,
    pub published_at: String,
    pub author: User,
    pub assets: Vec<Asset>,
}

/// A deployment status as the API reports it.
#[derive(Debug)]
pub struct DeploymentStatus {
    pub url: String,
    pub created_at: String,
    pub updated_at: String,
    pub state: State,
    pub target_url: String,
    pub description: String,
    pub id: u64,
    pub deployment_url: String,
    pub repository_url: String,
    pub creator: User,
}

/// A commit status as the API reports it.
#[derive(Debug)]
pub struct Status {
    pub created_at: String,
    pub updated_at: String,
    pub state: State,
    pub target_url: String,
    pub description: String,
    pub id: u64,
    pub url: String,
    pub context: String,
    pub creator: User,
}

/// A record field that could not be read out of a payload value: missing, or
/// of the wrong shape. Carries the wire name of the field.
#[derive(Debug, PartialEq, Eq)]
pub struct RecordError {
    pub field: String,
}

/// The text of the member with the given key, if it is a string.
pub open spec fn lookup_str(entries: Seq<(Seq<char>, Json)>, key: Seq<char>) -> Option<Seq<char>> {
    match entry_lookup(entries, key) {
        Some(j) => match j {
            Json::Str(s) => Some(s),
            _ => None,
        },
        None => None,
    }
}

/// The number under the given key, if it is an integer that fits u64.
pub open spec fn lookup_u64(entries: Seq<(Seq<char>, Json)>, key: Seq<char>) -> Option<int> {
    match entry_lookup(entries, key) {
        Some(j) => match j {
            Json::Int(n) => if 0 <= n <= u64::MAX {
                Some(n)
            } else {
                None
            },
            _ => None,
        },
        None => None,
    }
}

/// The flag under the given key, if it is a boolean.
pub open spec fn lookup_bool(entries: Seq<(Seq<char>, Json)>, key: Seq<char>) -> Option<bool> {
    match entry_lookup(entries, key) {
        Some(j) => match j {
            Json::Bool(b) => Some(b),
            _ => None,
        },
        None => None,
    }
}

fn require_str(v: &Value, key: &str) -> (r: Result<String, RecordError>)
    ensures
        (match v@ {
            Json::Obj(entries) => (match lookup_str(entries, key@) {
                Some(s) => r matches Ok(t) && t@ == s,
                None => r matches Err(e) && e.field@ == key@,
            }),
            _ => r matches Err(e) && e.field@ == key@,
        }),
{
    match v.get(key) {
        Some(Value::Str(s)) => Ok(s.clone()),
        _ => Err(RecordError { field: key.to_owned() }),
    }
}

fn require_u64(v: &Value, key: &str) -> (r: Result<u64, RecordError>)
    ensures
        (match v@ {
            Json::Obj(entries) => (match lookup_u64(entries, key@) {
                Some(n) => r matches Ok(m) && m as int == n,
                None => r matches Err(e) && e.field@ == key@,
            }),
            _ => r matches Err(e) && e.field@ == key@,
        }),
{
    match v.get(key) {
        Some(Value::Int(i)) => {
            if *i >= 0 {
                Ok(*i as u64)
            } else {
                Err(RecordError { field: key.to_owned() })
            }
        },
        Some(Value::UInt(u)) => Ok(*u),
        _ => Err(RecordError { field: key.to_owned() }),
    }
}

fn require_bool(v: &Value, key: &str) -> (r: Result<bool, RecordError>)
    ensures
        (match v@ {
            Json::Obj(entries) => (match lookup_bool(entries, key@) {
                Some(b) => r == Ok::<bool, RecordError>(b),
                None => r matches Err(e) && e.field@ == key@,
            }),
            _ => r matches Err(e) && e.field@ == key@,
        }),
{
    match v.get(key) {
        Some(Value::Bool(b)) => Ok(*b),
        _ => Err(RecordError { field: key.to_owned() }),
    }
}

/// The given value carries every field a user record needs, each of the
/// right shape.
pub open spec fn user_ok(j: Json) -> bool {
    &&& j matches Json::Obj(entries)
    &&& lookup_str(entries, "login"@) is Some
    &&& lookup_u64(entries, "id"@) is Some
    &&& lookup_str(entries, "avatar_url"@) is Some
    &&& lookup_str(entries, "gravatar_id"@) is Some
    &&& lookup_str(entries, "url"@) is Some
    &&& lookup_str(entries, "html_url"@) is Some
    &&& lookup_str(entries, "followers_url"@) is Some
    &&& lookup_str(entries, "following_url"@) is Some
    &&& lookup_str(entries, "gists_url"@) is Some
    &&& lookup_str(entries, "starred_url"@) is Some
    &&& lookup_str(entries, "subscriptions_url"@) is Some
    &&& lookup_str(entries, "organizations_url"@) is Some
    &&& lookup_str(entries, "repos_url"@) is Some
    &&& lookup_str(entries, "events_url"@) is Some
    &&& lookup_str(entries, "received_events_url"@) is Some
    &&& lookup_bool(entries, "site_admin"@) is Some
}

/// Every field of the user record equals the member of the same wire name.
pub open spec fn user_matches(j: Json, u: User) -> bool {
    &&& j matches Json::Obj(entries)
    &&& lookup_str(entries, "login"@) == Some(u.login@)
    &&& lookup_u64(entries, "id"@) == Some(u.id as int)
    &&& lookup_str(entries, "avatar_url"@) == Some(u.avatar_url@)
    &&& lookup_str(entries, "gravatar_id"@) == Some(u.gravatar_id@)
    &&& lookup_str(entries, "url"@) == Some(u.url@)
    &&& lookup_str(entries, "html_url"@) == Some(u.html_url@)
    &&& lookup_str(entries, "followers_url"@) == Some(u.followers_url@)
    &&& lookup_str(entries, "following_url"@) == Some(u.following_url@)
    &&& lookup_str(entries, "gists_url"@) == Some(u.gists_url@)
    &&& lookup_str(entries, "starred_url"@) == Some(u.starred_url@)
    &&& lookup_str(entries, "subscriptions_url"@) == Some(u.subscriptions_url@)
    &&& lookup_str(entries, "organizations_url"@) == Some(u.organizations_url@)
    &&& lookup_str(entries, "repos_url"@) == Some(u.repos_url@)
    &&& lookup_str(entries, "events_url"@) == Some(u.events_url@)
    &&& lookup_str(entries, "received_events_url"@) == Some(u.received_events_url@)
    &&& lookup_bool(entries, "site_admin"@) == Some(u.site_admin)
}

impl User {
    /// Reads a user record out of a payload value: succeeds exactly when
    /// every field is present under its wire name with the right shape.
    pub fn decode(v: &Value) -> (r: Result<User, RecordError>)
        ensures
            r is Ok <==> user_ok(v@),
            r matches Ok(u) ==> user_matches(v@, u),
    {
        let login = match require_str(v, "login") {
            Ok(x) => x,
            Err(e) => return Err(e),
        };
        let id = match require_u64(v, "id") {
            Ok(x) => x,
            Err(e) => return Err(e),
        };
        let avatar_url = match require_str(v, "avatar_url") {
            Ok(x) => x,
            Err(e) => return Err(e),
        };
        let gravatar_id = match require_str(v, "gravatar_id") {
            Ok(x) => x,
            Err(e) => return Err(e),
        };
        let url = match require_str(v, "url") {
            Ok(x) => x,
            Err(e) => return Err(e),
        };
        let html_url = match require_str(v, "html_url") {
            Ok(x) => x,
            Err(e) => return Err(e),
        };
        let followers_url = match require_str(v, "followers_url") {
            Ok(x) => x,
            Err(e) => return Err(e),
        };
        let following_url = match require_str(v, "following_url") {
            Ok(x) => x,
            Err(e) => return Err(e),
        };
        let gists_url = match require_str(v, "gists_url") {
            Ok(x) => x,
            Err(e) => return Err(e),
        };
        let starred_url = match require_str(v, "starred_url") {
            Ok(x) => x,
            Err(e) => return Err(e),
        };
        let subscriptions_url = match require_str(v, "subscriptions_url") {
            Ok(x) => x,
            Err(e) => return Err(e),
        };
        let organizations_url = match require_str(v, "organizations_url") {
            Ok(x) => x,
            Err(e) => return Err(e),
        };
        let repos_url = match require_str(v, "repos_url") {
            Ok(x) => x,
            Err(e) => return Err(e),
        };
        let events_url = match require_str(v, "events_url") {
            Ok(x) => x,
            Err(e) => return Err(e),
        };
        let received_events_url = match require_str(v, "received_events_url") {
            Ok(x) => x,
            Err(e) => return Err(e),
        };
        let site_admin = match require_bool(v, "site_admin") {
            Ok(x) => x,
            Err(e) => return Err(e),
        };
        Ok(
            User {
                login,
                id,
                avatar_url,
                gravatar_id,
                url,
                html_url,
                followers_url,
                following_url,
                gists_url,
                starred_url,
                subscriptions_url,
                organizations_url,
                repos_url,
                events_url,
                received_events_url,
                site_admin,
            },
        )
    }
}

/// The given value carries every field a deployment record needs, each of
/// the right shape. The commit reference sits under the wire name `ref`.
pub open spec fn deployment_ok(j: Json) -> bool {
    &&& j matches Json::Obj(entries)
    &&& lookup_str(entries, "url"@) is Some
    &&& lookup_u64(entries, "id"@) is Some
    &&& lookup_str(entries, "sha"@) is Some
    &&& lookup_str(entries, "ref"@) is Some
    &&& lookup_str(entries, "task"@) is Some
    &&& lookup_str(entries, "environment"@) is Some
    &&& lookup_str(entries, "description"@) is Some
    &&& (entry_lookup(entries, "creator"@) matches Some(c) && user_ok(c))
    &&& lookup_str(entries, "created_at"@) is Some
    &&& lookup_str(entries, "updated_at"@) is Some
    &&& lookup_str(entries, "statuses_url"@) is Some
    &&& lookup_str(entries, "repository_url"@) is Some
}

/// Every field of the deployment record equals the member of the same wire
/// name; the commit reference comes from the member named `ref`.
pub open spec fn deployment_matches(j: Json, d: Deployment) -> bool {
    &&& j matches Json::Obj(entries)
    &&& lookup_str(entries, "url"@) == Some(d.url@)
    &&& lookup_u64(entries, "id"@) == Some(d.id as int)
    &&& lookup_str(entries, "sha"@) == Some(d.sha@)
    &&& lookup_str(entries, "ref"@) == Some(d.commit_ref@)
    &&& lookup_str(entries, "task"@) == Some(d.task@)
    &&& lookup_str(entries, "environment"@) == Some(d.environment@)
    &&& lookup_str(entries, "description"@) == Some(d.description@)
    &&& (entry_lookup(entries, "creator"@) matches Some(c) && user_matches(c, d.creator))
    &&& lookup_str(entries, "created_at"@) == Some(d.created_at@)
    &&& lookup_str(entries, "updated_at"@) == Some(d.updated_at@)
    &&& lookup_str(entries, "statuses_url"@) == Some(d.statuses_url@)
    &&& lookup_str(entries, "repository_url"@) == Some(d.repository_url@)
}

impl Deployment {
    /// Reads a deployment record out of a payload value: succeeds exactly
    /// when every field is present under its wire name with the right shape.
    /// The commit reference travels under the wire name `ref`.
    pub fn decode(v: &Value) -> (r: Result<Deployment, RecordError>)
        ensures
            r is Ok <==> deployment_ok(v@),
            r matches Ok(d) ==> deployment_matches(v@, d),
    {
        let url = match require_str(v, "url") {
            Ok(x) => x,
            Err(e) => return Err(e),
        };
        let id = match require_u64(v, "id") {
            Ok(x) => x,
            Err(e) => return Err(e),
        };
        let sha = match require_str(v, "sha") {
            Ok(x) => x,
            Err(e) => return Err(e),
        };
        let commit_ref = match require_str(v, "ref") {
            Ok(x) => x,
            Err(e) => return Err(e),
        };
        let task = match require_str(v, "task") {
            Ok(x) => x,
            Err(e) => return Err(e),
        };
        let environment = match require_str(v, "environment") {
            Ok(x) => x,
            Err(e) => return Err(e),
        };
        let description = match require_str(v, "description") {
            Ok(x) => x,
            Err(e) => return Err(e),
        };
        let creator = match v.get("creator") {
            Some(c) => match User::decode(c) {
                Ok(u) => u,
                Err(e) => return Err(e),
            },
            None => return Err(RecordError { field: "creator".to_owned() }),
        };
        let created_at = match require_str(v, "created_at") {
            Ok(x) => x,
            Err(e) => return Err(e),
        };
        let updated_at = match require_str(v, "updated_at") {
            Ok(x) => x,
            Err(e) => return Err(e),
        };
        let statuses_url = match require_str(v, "statuses_url") {
            Ok(x) => x,
            Err(e) => return Err(e),
        };
        let repository_url = match require_str(v, "repository_url") {
            Ok(x) => x,
            Err(e) => return Err(e),
        };
        Ok(
            Deployment {
                url,
                id,
                sha,
                commit_ref,
                task,
                environment,
                description,
                creator,
                created_at,
                updated_at,
                statuses_url,
                repository_url,
            },
        )
    }
}

/// A deploy key as the API reports it.
#[derive(Debug)]
pub struct Key {
    pub id: u64,
    pub key: String,
    pub title: String,
    pub verified: bool,
    pub created_at: String,
    pub read_only: bool,
}

/// A new deploy key.
#[derive(Debug)]
pub struct KeyReq {
    pub title: String,
    pub key: String,
    pub read_only: bool,
}

} // verus!
