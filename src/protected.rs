use vstd::prelude::*;
use vstd::string::StringExecFns;

use crate::text::concat_str;

verus! {

/// The image that the protected page shows to a signed-in visitor.
pub const PROTECTED_IMAGE_URL: &'static str =
    "https://img.icons8.com/?size=1000&id=1348&format=png&color=000000";

/// The host used for links when none is configured.
pub const DEFAULT_AUTH_HOST: &'static str = "localhost";

/// The body of the protected page.
pub struct ProtectedRouteResponse {
    pub img_url: String,
}

/// The answer of the protected page: the image, or a status. Without a `jwt`
/// cookie it is 401; when the auth service could not be asked (`None`), 500;
/// otherwise by the auth service's status: 200 gives the image, 401 or 400 gives
/// 401, anything else 500.
pub fn protected_outcome(has_cookie: bool, verify_status: Option<u16>) -> (r: Result<
    ProtectedRouteResponse,
    u16,
>)
    ensures
        !has_cookie ==> r == Err::<ProtectedRouteResponse, u16>(401),
        has_cookie && verify_status is None ==> r == Err::<ProtectedRouteResponse, u16>(500),
        has_cookie && verify_status == Some(200u16) ==> (r matches Ok(p) && p.img_url@
            == PROTECTED_IMAGE_URL@),
        has_cookie && (verify_status == Some(401u16) || verify_status == Some(400u16)) ==> r
            == Err::<ProtectedRouteResponse, u16>(401),
        has_cookie && (verify_status matches Some(s) && s != 200 && s != 401 && s != 400) ==> r
            == Err::<ProtectedRouteResponse, u16>(500),
{
    if !has_cookie {
        return Err(401);
    }
    match verify_status {
        None => Err(500),
        Some(s) => {
            if s == 401 || s == 400 {
                Err(401)
            } else if s == 200 {
                Ok(ProtectedRouteResponse { img_url: PROTECTED_IMAGE_URL.to_string() })
            } else {
                Err(500)
            }
        },
    }
}

/// The host for links: the configured one, or `localhost` when it is unset or empty.
pub open spec fn link_host(configured: Option<Seq<char>>) -> Seq<char> {
    match configured {
        Some(h) => if h.len() == 0 {
            DEFAULT_AUTH_HOST@
        } else {
            h
        },
        None => DEFAULT_AUTH_HOST@,
    }
}

/// The login and logout links of the auth service on `configured` (or `localhost`).
pub fn auth_links(configured: Option<String>) -> (r: (String, String))
    ensures
        r.0@ == "http://"@ + link_host(
            match configured {
                Some(h) => Some(h@),
                None => None,
            },
        ) + ":42069"@,
        r.1@ == r.0@ + "/logout"@,
{
    let host = match configured {
        Some(h) => if h.as_str().is_empty() {
            DEFAULT_AUTH_HOST.to_string()
        } else {
            h
        },
        None => DEFAULT_AUTH_HOST.to_string(),
    };
    let mut login = concat_str("http://", host.as_str());
    login.append(":42069");
    let logout = concat_str(login.as_str(), "/logout");
    (login, logout)
}

} // verus!
