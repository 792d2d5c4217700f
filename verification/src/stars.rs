//! The decisions behind the starring interface: the resource path that the
//! star, unstar and starred-query calls address, and how the answer to the
//! starred query is read. The transport that carries the calls lives outside
//! this crate and hands back one of the outcomes below.

use vstd::prelude::*;

verus! {

/// The path of the starred-repository resource for `owner` / `repo`.
pub open spec fn starred_path_text(owner: Seq<char>, repo: Seq<char>) -> Seq<char> {
    "/user/starred/"@ + owner + "/"@ + repo
}

/// Builds the starred-repository resource path that the star, unstar and
/// starred-query calls all address.
pub fn starred_path(owner: &str, repo: &str) -> (r: String)
    ensures
        r@ == starred_path_text(owner@, repo@),
{
    let mut r = "/user/starred/".to_owned();
    r.append(owner);
    r.append("/");
    r.append(repo);
    proof {
        assert(r@ =~= starred_path_text(owner@, repo@));
    }
    r
}

/// What the transport reports back for a starring call that did not succeed.
#[derive(Clone, Copy, Debug, PartialEq, Eq, Structural)]
pub enum ApiError {
    /// The service answered with a failure status code.
    Fault { code: u16 },
    /// The response arrived but its body could not be decoded.
    Codec,
    /// Anything else: connection, protocol, and the like.
    Other,
}

/// How the starred query reads the transport's answer: success means the
/// record exists (the repository is starred); a not-found failure means it
/// does not; a mere body-decode failure still means the record was there;
/// every other error propagates unchanged.
pub fn is_starred_outcome(response: Result<(), ApiError>) -> (r: Result<bool, ApiError>)
    ensures
        (match response {
            Ok(_) => r == Ok::<bool, ApiError>(true),
            Err(e) => (match e {
                ApiError::Fault { code } => if code == 404 {
                    r == Ok::<bool, ApiError>(false)
                } else {
                    r == Err::<bool, ApiError>(e)
                },
                ApiError::Codec => r == Ok::<bool, ApiError>(true),
                ApiError::Other => r == Err::<bool, ApiError>(e),
            }),
        }),
{
    match response {
        Ok(_) => Ok(true),
        Err(ApiError::Fault { code }) => {
            if code == 404 {
                Ok(false)
            } else {
                Err(ApiError::Fault { code })
            }
        },
        Err(ApiError::Codec) => Ok(true),
        Err(ApiError::Other) => Err(ApiError::Other),
    }
}

} // verus!

