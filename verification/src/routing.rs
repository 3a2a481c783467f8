//! The request-level surface as data: which method and path reach which
//! operation. Transport and dispatch are the caller's.

use vstd::prelude::*;

verus! {

#[derive(Clone, Copy, Debug, PartialEq, Eq, Structural)]
pub enum Method {
    Get,
    Post,
    Put,
}

/// The operations of the service.
#[derive(Clone, Copy, Debug, PartialEq, Eq, Structural)]
pub enum Operation {
    GetReservation,
    CreateReservation,
    UpdateReservation,
    ListReservations,
    GetUser,
    CreateUser,
    Login,
}

/// One entry of a route table. In `path`, `<id>` stands for an identifier.
#[derive(Clone, Copy, Debug)]
pub struct Route {
    pub method: Method,
    pub path: &'static str,
    pub operation: Operation,
}

impl View for Route {
    type V = (Method, Seq<char>, Operation);

    open spec fn view(&self) -> (Method, Seq<char>, Operation) {
        (self.method, self.path@, self.operation)
    }
}

/// The entries of a table as contracts see them.
pub open spec fn table_view(routes: Seq<Route>) -> Seq<(Method, Seq<char>, Operation)> {
    routes.map_values(|r: Route| r@)
}

impl Operation {
    /// Whether the operation needs an authenticated principal.
    pub open spec fn guarded(self) -> bool {
        match self {
            Operation::CreateUser | Operation::Login => false,
            _ => true,
        }
    }

    pub fn is_guarded(&self) -> (r: bool)
        ensures
            r == self.guarded(),
    {
        match self {
            Operation::CreateUser | Operation::Login => false,
            _ => true,
        }
    }
}

} // verus!
