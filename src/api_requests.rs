use vstd::prelude::*;

verus! {

/// The address of `path` on the issue service's API.
pub fn api_url(path: &str) -> (r: String)
    ensures
        r@ == "https://api.github.com/"@ + path@,
{
    let mut r = String::from_str("https://api.github.com/");
    r.append(path);
    r
}

/// The API path that lists the issues of the repository `full_name`.
pub fn repository_issues_path(full_name: &str) -> (r: String)
    ensures
        r@ == "repos/"@ + full_name@ + "/issues"@,
{
    let mut r = String::from_str("repos/");
    r.append(full_name);
    r.append("/issues");
    r
}

/// The API path that lists the repositories of user `user_name`.
pub fn user_repositories_path(user_name: &str) -> (r: String)
    ensures
        r@ == "users/"@ + user_name@ + "/repos"@,
{
    let mut r = String::from_str("users/");
    r.append(user_name);
    r.append("/repos");
    r
}

/// The API path that lists the issues assigned to the signed-in user.
pub fn own_issues_path() -> (r: String)
    ensures
        r@ == "issues"@,
{
    String::from_str("issues")
}

/// The value of the authorization header for `token`.
pub fn bearer_authorization(token: &str) -> (r: String)
    ensures
        r@ == "Bearer "@ + token@,
{
    let mut r = String::from_str("Bearer ");
    r.append(token);
    r
}

} // verus!
