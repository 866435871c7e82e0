//! The gateway's fixed routing table.
//!
//! `POST` to one of the three auth paths is handled by the gateway itself.
//! Any other request is sent to the backend that the first segment of its
//! path names, or refused when that segment names none.
use vstd::prelude::*;
use crate::text::{find_slash, find_slash_spec, str_eq};

verus! {

/// The backend services that requests are forwarded to.
#[derive(PartialEq, Eq, Structural, Clone, Copy, Debug)]
pub enum Target {
    Profile,
    Recipe,
    Menu,
    EatTogether,
}

/// Where a request goes.
#[derive(PartialEq, Eq, Structural, Clone, Copy, Debug)]
pub enum Route {
    Login,
    SignUp,
    Logout,
    Forward(Target),
    /// No route: the request is refused.
    BadRequest,
}

/// The first segment of a path: what stands between its first `'/'` and the
/// next one. A path with no `'/'`, or with nothing after the first one, has
/// none.
pub open spec fn first_segment(p: Seq<char>) -> Option<Seq<char>> {
    let a = find_slash_spec(p, 0);
    if a + 1 >= p.len() {
        None
    } else {
        Some(p.subrange(a + 1, find_slash_spec(p, a + 1)))
    }
}

/// The routing table: the backend a first segment names.
pub open spec fn target_of(seg: Seq<char>) -> Option<Target> {
    if seg == "profile"@ {
        Some(Target::Profile)
    } else if seg == "recipe"@ {
        Some(Target::Recipe)
    } else if seg == "menu"@ || seg == "restaurant"@ {
        Some(Target::Menu)
    } else if seg == "eat-together"@ {
        Some(Target::EatTogether)
    } else {
        None
    }
}

pub open spec fn route_spec(method: Seq<char>, path: Seq<char>) -> Route {
    if method == "POST"@ && path == "/auth/login"@ {
        Route::Login
    } else if method == "POST"@ && path == "/auth/signup"@ {
        Route::SignUp
    } else if method == "POST"@ && path == "/auth/logout"@ {
        Route::Logout
    } else {
        match first_segment(path) {
            Some(seg) => match target_of(seg) {
                Some(t) => Route::Forward(t),
                None => Route::BadRequest,
            },
            None => Route::BadRequest,
        }
    }
}

/// The first segment of `path`.
pub fn path_segment(path: &str) -> (r: Option<&str>)
    ensures
        match first_segment(path@) {
            Some(seg) => r is Some && r->Some_0@ == seg,
            None => r is None,
        },
{
    let n = path.unicode_len();
    let a = find_slash(path, 0);
    if a >= n || a + 1 >= n {
        return None;
    }
    let b = find_slash(path, a + 1);
    Some(path.substring_char(a + 1, b))
}

/// The backend a first segment names.
pub fn target_of_segment(seg: &str) -> (r: Option<Target>)
    ensures
        r == target_of(seg@),
{
    if str_eq(seg, "profile") {
        Some(Target::Profile)
    } else if str_eq(seg, "recipe") {
        Some(Target::Recipe)
    } else if str_eq(seg, "menu") || str_eq(seg, "restaurant") {
        Some(Target::Menu)
    } else if str_eq(seg, "eat-together") {
        Some(Target::EatTogether)
    } else {
        None
    }
}

/// Where a request with this method and path goes.
pub fn route(method: &str, path: &str) -> (r: Route)
    ensures
        r == route_spec(method@, path@),
{
    if str_eq(method, "POST") {
        if str_eq(path, "/auth/login") {
            return Route::Login;
        } else if str_eq(path, "/auth/signup") {
            return Route::SignUp;
        } else if str_eq(path, "/auth/logout") {
            return Route::Logout;
        }
    }
    match path_segment(path) {
        Some(seg) => match target_of_segment(seg) {
            Some(t) => Route::Forward(t),
            None => Route::BadRequest,
        },
        None => Route::BadRequest,
    }
}

impl Target {
    pub open spec fn host_spec(self) -> Seq<char> {
        match self {
            Target::Profile => "profile-service"@,
            Target::Recipe => "recipe-service"@,
            Target::Menu => "menu-service"@,
            Target::EatTogether => "ets-service"@,
        }
    }

    /// The host of the backend that serves this target.
    pub fn backend_host(&self) -> (r: &'static str)
        ensures
            r@ == self.host_spec(),
    {
        match self {
            Target::Profile => "profile-service",
            Target::Recipe => "recipe-service",
            Target::Menu => "menu-service",
            Target::EatTogether => "ets-service",
        }
    }

    /// The port every backend listens on.
    pub fn backend_port(&self) -> (r: u16)
        ensures
            r == 8000,
    {
        8000
    }
}

} // verus!
