//! Matching of a method and a path against the known route shapes.

use vstd::prelude::*;
use crate::request::HttpMethod;
use crate::text::{copy_range, same_bytes, starts_with, wire};

verus! {

/// The route that a request falls under. The parametric routes carry what
/// follows their prefix in the path.
#[derive(Clone, Debug)]
pub enum RouteOutcome {
    Root,
    UserAgent,
    Echo(Vec<u8>),
    FileRead(Vec<u8>),
    FileWrite(Vec<u8>),
    NotFound,
}

/// The mathematical content of a route outcome.
pub enum RouteModel {
    Root,
    UserAgent,
    Echo(Seq<u8>),
    FileRead(Seq<u8>),
    FileWrite(Seq<u8>),
    NotFound,
}

impl View for RouteOutcome {
    type V = RouteModel;

    open spec fn view(&self) -> RouteModel {
        match self {
            RouteOutcome::Root => RouteModel::Root,
            RouteOutcome::UserAgent => RouteModel::UserAgent,
            RouteOutcome::Echo(text) => RouteModel::Echo(text@),
            RouteOutcome::FileRead(name) => RouteModel::FileRead(name@),
            RouteOutcome::FileWrite(name) => RouteModel::FileWrite(name@),
            RouteOutcome::NotFound => RouteModel::NotFound,
        }
    }
}

/// The dispatch rules, in their order of precedence: the first that matches
/// decides.
pub open spec fn route_of(method: HttpMethod, path: Seq<u8>) -> RouteModel {
    if path == wire("/") {
        RouteModel::Root
    } else if path == wire("/user-agent") {
        RouteModel::UserAgent
    } else if wire("/echo/").is_prefix_of(path) {
        RouteModel::Echo(path.skip(wire("/echo/").len() as int))
    } else if wire("/files/").is_prefix_of(path) && method == HttpMethod::GET {
        RouteModel::FileRead(path.skip(wire("/files/").len() as int))
    } else if wire("/files/").is_prefix_of(path) && method == HttpMethod::POST {
        RouteModel::FileWrite(path.skip(wire("/files/").len() as int))
    } else {
        RouteModel::NotFound
    }
}

/// Finds the route of a request.
pub fn route(method: HttpMethod, path: &[u8]) -> (r: RouteOutcome)
    ensures
        r@ == route_of(method, path@),
{
    let echo = "/echo/".as_bytes();
    let files = "/files/".as_bytes();
    if same_bytes(path, "/".as_bytes()) {
        RouteOutcome::Root
    } else if same_bytes(path, "/user-agent".as_bytes()) {
        RouteOutcome::UserAgent
    } else if starts_with(path, echo) {
        RouteOutcome::Echo(copy_range(path, echo.len(), path.len()))
    } else if starts_with(path, files) && method == HttpMethod::GET {
        RouteOutcome::FileRead(copy_range(path, files.len(), path.len()))
    } else if starts_with(path, files) && method == HttpMethod::POST {
        RouteOutcome::FileWrite(copy_range(path, files.len(), path.len()))
    } else {
        RouteOutcome::NotFound
    }
}

} // verus!
