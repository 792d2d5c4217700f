use hubcaps::stars::{is_starred_outcome, starred_path, ApiError};

#[test]
fn starred_paths() {
    assert_eq!(
        starred_path("softprops", "hubcaps"),
        "/user/starred/softprops/hubcaps"
    );
    assert_eq!(starred_path("", ""), "/user/starred//");
}

#[test]
fn starred_query_outcomes() {
    assert_eq!(is_starred_outcome(Ok(())), Ok(true));
    assert_eq!(
        is_starred_outcome(Err(ApiError::Fault { code: 404 })),
        Ok(false)
    );
    assert_eq!(is_starred_outcome(Err(ApiError::Codec)), Ok(true));
    assert_eq!(
        is_starred_outcome(Err(ApiError::Fault { code: 500 })),
        Err(ApiError::Fault { code: 500 })
    );
    assert_eq!(is_starred_outcome(Err(ApiError::Other)), Err(ApiError::Other));
}
