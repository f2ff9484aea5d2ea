use vstd::prelude::*;

verus! {

/// A [`Task`] error.
#[derive(Debug)]
pub struct TaskError {
    /// The description of the error.
    pub description: String,
}

impl TaskError {
    /// Creates a [`TaskError`] with a description.
    pub fn new(description: &str) -> (r: Self)
        ensures
            r.description@ == description@,
    {
        TaskError { description: String::from_str(description) }
    }

    /// Returns the text of a response body reporting the error.
    pub fn response_body(&self) -> (r: String)
        ensures
            r@ == "Error: "@ + self.description@,
    {
        let mut s = String::from_str("Error: ");
        s.append(self.description.as_str());
        s
    }
}

/// A trait to perform a task on a smart home device.
pub trait Task {
    /// The task which will be performed on the smart home device.
    fn task(&self) -> Result<(), TaskError>;
}

/// `REST` API kind of an action.
#[derive(Debug, Clone, Copy, PartialEq, Eq, Structural, Hash)]
pub enum RestKind {
    /// `GET` API.
    Get,
    /// `PUT` API.
    Put,
    /// `POST` API.
    Post,
}

/// A smart home device action performs a determined task when a `REST` API
/// is being called on a specific server route.
///
/// Two actions are the same action when they have the same route and the
/// same `REST` kind.
#[derive(Debug)]
pub struct Action<T> {
    /// REST API kind.
    pub rest_kind: RestKind,
    /// Server route.
    pub route: &'static str,
    /// Task.
    pub task: T,
    /// Description.
    pub description: Option<&'static str>,
}

/// Whether two actions are the same action.
pub open spec fn same_action<T>(a: Action<T>, b: Action<T>) -> bool {
    a.rest_kind == b.rest_kind && a.route@ == b.route@
}

impl<T> Action<T> {
    /// Creates a new [`Action`] through a REST `GET` API.
    pub fn get(route: &'static str, task: T) -> (r: Self)
        ensures
            r.rest_kind == RestKind::Get,
            r.route == route,
            r.task == task,
            r.description is None,
    {
        Action { rest_kind: RestKind::Get, route, task, description: None }
    }

    /// Creates a new [`Action`] through a REST `PUT` API.
    pub fn put(route: &'static str, task: T) -> (r: Self)
        ensures
            r.rest_kind == RestKind::Put,
            r.route == route,
            r.task == task,
            r.description is None,
    {
        Action { rest_kind: RestKind::Put, route, task, description: None }
    }

    /// Creates a new [`Action`] through a REST `POST` API.
    pub fn post(route: &'static str, task: T) -> (r: Self)
        ensures
            r.rest_kind == RestKind::Post,
            r.route == route,
            r.task == task,
            r.description is None,
    {
        Action { rest_kind: RestKind::Post, route, task, description: None }
    }

    /// Sets the action description.
    pub fn description(self, description: &'static str) -> (r: Self)
        ensures
            r.rest_kind == self.rest_kind,
            r.route == self.route,
            r.task == self.task,
            r.description == Some(description),
    {
        Action { description: Some(description), ..self }
    }

    /// Returns whether two actions are the same action.
    pub fn same_action(&self, other: &Action<T>) -> (r: bool)
        ensures
            r == same_action(*self, *other),
    {
        self.rest_kind == other.rest_kind && crate::text::str_eq(self.route, other.route)
    }
}

impl<T: Task> Action<T> {
    /// Runs the task of the action.
    pub fn run(&self) -> Result<(), TaskError> {
        self.task.task()
    }
}

}
