//! The blog server's route tables.

use vstd::prelude::*;

verus! {

/// A request handler of the blog server.
#[derive(Clone, Copy, Debug, PartialEq, Eq, Structural)]
pub enum Endpoint {
    /// The web app, for any path.
    App,
    /// The web app, for the bare root.
    AppUnadorned,
    PostsGet,
    PostsPost,
    PostGet,
    PostPatch,
    PostDelete,
    PostPublish,
    PostArchive,
    EditorGet,
    AccountsPost,
    AccountGet,
    AccountGetSelf,
    AccountPatch,
    AccountDelete,
    LoginPost,
    LoginDelete,
    PasswordsPost,
    PasswordPatch,
    PasswordDelete,
    PermissionsPost,
    PermissionsDelete,
    PermissionGet,
    PermissionDelete,
}

/// An HTTP status code.
#[derive(Clone, Copy, Debug, PartialEq, Eq, Structural)]
pub struct Status {
    pub code: u16,
}

/// The status of the "not implemented" answer.
pub const NOT_IMPLEMENTED: u16 = 501;

/// The editor page, which is not served yet.
pub fn get() -> (r: Status)
    ensures
        r.code == NOT_IMPLEMENTED,
{
    Status { code: NOT_IMPLEMENTED }
}

/// The handlers mounted for the single-page app.
pub open spec fn spa_table() -> Seq<Endpoint> {
    seq![Endpoint::App, Endpoint::AppUnadorned]
}

/// The handlers mounted under the API.
pub open spec fn api_table() -> Seq<Endpoint> {
    seq![
        Endpoint::PostsGet,
        Endpoint::PostsPost,
        Endpoint::PostGet,
        Endpoint::PostPatch,
        Endpoint::PostDelete,
        Endpoint::PostPublish,
        Endpoint::PostArchive,
        Endpoint::EditorGet,
        Endpoint::AccountsPost,
        Endpoint::AccountGet,
        Endpoint::AccountGetSelf,
        Endpoint::AccountPatch,
        Endpoint::AccountDelete,
        Endpoint::LoginPost,
        Endpoint::LoginDelete,
        Endpoint::PasswordsPost,
        Endpoint::PasswordPatch,
        Endpoint::PasswordDelete,
        Endpoint::PermissionsPost,
        Endpoint::PermissionsDelete,
        Endpoint::PermissionGet,
        Endpoint::PermissionDelete,
    ]
}

/// The handlers to mount for the single-page app endpoints.
pub fn spa_routes() -> (r: Vec<Endpoint>)
    ensures
        r@ == spa_table(),
{
    let r: Vec<Endpoint> = vec![Endpoint::App, Endpoint::AppUnadorned];
    assert(r@ =~= spa_table());
    r
}

/// The handlers to mount for the API endpoints.
pub fn api_routes() -> (r: Vec<Endpoint>)
    ensures
        r@ == api_table(),
{
    let r: Vec<Endpoint> = vec![
        Endpoint::PostsGet,
        Endpoint::PostsPost,
        Endpoint::PostGet,
        Endpoint::PostPatch,
        Endpoint::PostDelete,
        Endpoint::PostPublish,
        Endpoint::PostArchive,
        Endpoint::EditorGet,
        Endpoint::AccountsPost,
        Endpoint::AccountGet,
        Endpoint::AccountGetSelf,
        Endpoint::AccountPatch,
        Endpoint::AccountDelete,
        Endpoint::LoginPost,
        Endpoint::LoginDelete,
        Endpoint::PasswordsPost,
        Endpoint::PasswordPatch,
        Endpoint::PasswordDelete,
        Endpoint::PermissionsPost,
        Endpoint::PermissionsDelete,
        Endpoint::PermissionGet,
        Endpoint::PermissionDelete,
    ];
    assert(r@ =~= api_table());
    r
}

} // verus!
