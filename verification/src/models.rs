//! The domain entity, the inbound request shape, the outbound view, the
//! creation-path validation pipeline and the partial-update merger.

use vstd::prelude::*;

use crate::errors::Field;
use crate::errors::TodoError;
use crate::temporal::format_local;
use crate::temporal::now_epoch;
use crate::temporal::parse_timestamp;
use crate::temporal::parsed_instant;

verus! {

/// Sentinel id of a freshly validated entity before the store assigns one.
pub const UNASSIGNED_ID: i32 = -1;

/// A stored todo row. A row that went through the validation pipeline has
/// non-empty `title` and `body`; `created_at` is set once and never
/// mutated afterwards.
#[derive(Clone, Debug, PartialEq, Eq)]
pub struct Todo {
    pub id: i32,
    pub title: String,
    pub body: String,
    /// Seconds since the Unix epoch, normalized to the reference timezone.
    pub start_time: i64,
    /// Seconds since the Unix epoch, set at creation.
    pub created_at: i64,
}

/// The outbound view of a row, with the instants rendered as display-only
/// local-time strings.
#[derive(Clone, Debug, PartialEq, Eq)]
pub struct TodoDto {
    pub id: i32,
    pub title: String,
    pub body: String,
    pub start_time: String,
    pub created_at: String,
}

/// A transient inbound request: every field optional. Creation makes all
/// three mandatory through validation; a partial update takes any subset.
#[derive(Clone, Debug, PartialEq, Eq)]
pub struct TodoReq {
    pub title: Option<String>,
    pub body: Option<String>,
    pub start_time: Option<String>,
}

/// How an optional request field reads in a log line: its text, or a
/// `None` marker.
pub open spec fn opt_text(o: Option<String>) -> Seq<char> {
    match o {
        Some(s) => s@,
        None => "`None`"@,
    }
}

/// The log rendering of a request: every field spelled out, absent ones
/// as a `None` marker.
pub open spec fn req_rendering(req: TodoReq) -> Seq<char> {
    "TodoReq[title="@ + opt_text(req.title) + ", body="@ + opt_text(req.body) + ", start_time="@
        + opt_text(req.start_time) + "]"@
}

/// The request carries a non-empty title.
pub open spec fn has_title(req: TodoReq) -> bool {
    req.title matches Some(t) && t@.len() > 0
}

/// The request carries a non-empty body.
pub open spec fn has_body(req: TodoReq) -> bool {
    req.body matches Some(b) && b@.len() > 0
}

/// The request carries a non-empty start time string.
pub open spec fn has_start_time(req: TodoReq) -> bool {
    req.start_time matches Some(s) && s@.len() > 0
}

/// The request's start time string follows the timestamp wire format.
pub open spec fn start_time_parses(req: TodoReq) -> bool {
    req.start_time matches Some(s) && parsed_instant(s@) is Some
}

/// The request passes creation-path validation: all three fields present,
/// non-empty, and the start time well-formed.
pub open spec fn creatable(req: TodoReq) -> bool {
    has_title(req) && has_body(req) && has_start_time(req) && start_time_parses(req)
}

/// The entity a valid creation request builds at a given instant: id left
/// at the sentinel for the store to assign, start time normalized, and
/// `created_at` stamped with the instant.
pub open spec fn built_todo(req: TodoReq, now: i64) -> Todo
    recommends
        creatable(req),
{
    Todo {
        id: UNASSIGNED_ID,
        title: req.title->Some_0,
        body: req.body->Some_0,
        start_time: parsed_instant(req.start_time->Some_0@)->Some_0,
        created_at: now,
    }
}

/// A row with the request's text fields merged in: a supplied `title` or
/// `body` overwrites, an absent one leaves the row's own value; the
/// instants and the id are untouched.
pub open spec fn merged_text(t: Todo, req: TodoReq) -> Todo {
    Todo {
        id: t.id,
        title: if req.title is Some {
            req.title->Some_0
        } else {
            t.title
        },
        body: if req.body is Some {
            req.body->Some_0
        } else {
            t.body
        },
        start_time: t.start_time,
        created_at: t.created_at,
    }
}

/// The fully merged row: text fields as in `merged_text`, and a supplied
/// start time parsed and normalized; `created_at` and the id survive any
/// merge.
pub open spec fn merged_todo(t: Todo, req: TodoReq) -> Todo
    recommends
        merge_ok(req),
{
    Todo {
        start_time: if req.start_time is Some {
            parsed_instant(req.start_time->Some_0@)->Some_0
        } else {
            t.start_time
        },
        ..merged_text(t, req)
    }
}

/// The merge succeeds: either no start time was supplied, or the supplied
/// one follows the wire format. Unlike creation, a merge accepts empty
/// text fields.
pub open spec fn merge_ok(req: TodoReq) -> bool {
    req.start_time matches Some(s) ==> parsed_instant(s@) is Some
}

impl TodoReq {
    /// Merge this partial request into `model`. Supplied fields overwrite,
    /// absent fields leave the target unchanged; a supplied start time
    /// must parse, else the merge reports the parser's message, with the
    /// text fields already merged but the instants untouched.
    pub fn put_model(&self, model: &mut Todo) -> (r: Option<TodoError>)
        ensures
            r is None <==> merge_ok(*self),
            r is None ==> *final(model) == merged_todo(*old(model), *self),
            r matches Some(e) ==> e matches TodoError::InvalidTimestamp(_) && *final(model)
                == merged_text(*old(model), *self),
    {
        match &self.title {
            Some(s) => {
                model.title = s.clone();
            },
            None => {},
        }
        match &self.body {
            Some(s) => {
                model.body = s.clone();
            },
            None => {},
        }
        match &self.start_time {
            Some(s) => {
                match parse_timestamp(s.as_str()) {
                    Ok(v) => {
                        model.start_time = v;
                        None
                    },
                    Err(d) => Some(TodoError::InvalidTimestamp(d)),
                }
            },
            None => None,
        }
    }

    /// Creation-path validation at a given instant: checks title, body and
    /// start time in that order, each present and non-empty, then parses
    /// the start time; on success builds the entity with the sentinel id
    /// and `created_at == now`.
    pub fn to_model_at(&self, now: i64) -> (r: Result<Todo, TodoError>)
        ensures
            r is Ok <==> creatable(*self),
            r matches Ok(t) ==> t == built_todo(*self, now),
            !has_title(*self) ==> r == Err::<Todo, TodoError>(
                TodoError::MissingField(Field::Title),
            ),
            has_title(*self) && !has_body(*self) ==> r == Err::<Todo, TodoError>(
                TodoError::MissingField(Field::Body),
            ),
            has_title(*self) && has_body(*self) && !has_start_time(*self) ==> r == Err::<
                Todo,
                TodoError,
            >(TodoError::MissingField(Field::StartTime)),
            has_title(*self) && has_body(*self) && has_start_time(*self) && !start_time_parses(
                *self,
            ) ==> (r matches Err(e) && e matches TodoError::InvalidTimestamp(_)),
    {
        let title: String = match &self.title {
            Some(t) => {
                if t.as_str().is_empty() {
                    return Err(TodoError::MissingField(Field::Title));
                }
                t.clone()
            },
            None => {
                return Err(TodoError::MissingField(Field::Title));
            },
        };
        let body: String = match &self.body {
            Some(b) => {
                if b.as_str().is_empty() {
                    return Err(TodoError::MissingField(Field::Body));
                }
                b.clone()
            },
            None => {
                return Err(TodoError::MissingField(Field::Body));
            },
        };
        let time: String = match &self.start_time {
            Some(s) => {
                if s.as_str().is_empty() {
                    return Err(TodoError::MissingField(Field::StartTime));
                }
                s.clone()
            },
            None => {
                return Err(TodoError::MissingField(Field::StartTime));
            },
        };
        let start_time: i64 = match parse_timestamp(time.as_str()) {
            Ok(v) => v,
            Err(d) => {
                return Err(TodoError::InvalidTimestamp(d));
            },
        };
        Ok(
            Todo {
                id: UNASSIGNED_ID,
                title,
                body,
                start_time,
                created_at: now,
            },
        )
    }

    /// Render this request for a log line.
    pub fn describe(&self) -> (r: String)
        ensures
            r@ == req_rendering(*self),
    {
        let mut out = String::from_str("TodoReq[title=");
        match &self.title {
            Some(s) => out.append(s.as_str()),
            None => out.append("`None`"),
        }
        out.append(", body=");
        match &self.body {
            Some(s) => out.append(s.as_str()),
            None => out.append("`None`"),
        }
        out.append(", start_time=");
        match &self.start_time {
            Some(s) => out.append(s.as_str()),
            None => out.append("`None`"),
        }
        out.append("]");
        out
    }

    /// Creation-path validation stamped with the clock's current instant.
    /// The built entity is `built_todo` at whatever instant the clock
    /// gave.
    pub fn to_model(&self) -> (r: Result<Todo, TodoError>)
        ensures
            r is Ok <==> creatable(*self),
            r matches Ok(t) ==> exists|now: i64| t == #[trigger] built_todo(*self, now),
            !has_title(*self) ==> r == Err::<Todo, TodoError>(
                TodoError::MissingField(Field::Title),
            ),
            has_title(*self) && !has_body(*self) ==> r == Err::<Todo, TodoError>(
                TodoError::MissingField(Field::Body),
            ),
            has_title(*self) && has_body(*self) && !has_start_time(*self) ==> r == Err::<
                Todo,
                TodoError,
            >(TodoError::MissingField(Field::StartTime)),
            has_title(*self) && has_body(*self) && has_start_time(*self) && !start_time_parses(
                *self,
            ) ==> (r matches Err(e) && e matches TodoError::InvalidTimestamp(_)),
    {
        let now = now_epoch();
        self.to_model_at(now)
    }
}

impl Todo {
    /// An identical copy of this row.
    pub fn duplicate(&self) -> (r: Todo)
        ensures
            r == *self,
    {
        Todo {
            id: self.id,
            title: self.title.clone(),
            body: self.body.clone(),
            start_time: self.start_time,
            created_at: self.created_at,
        }
    }

    /// The outbound view of this row: id and text copied, the instants
    /// rendered as display-only strings.
    pub fn to_dto(&self) -> (r: TodoDto)
        ensures
            r.id == self.id,
            r.title == self.title,
            r.body == self.body,
    {
        TodoDto {
            id: self.id,
            title: self.title.clone(),
            body: self.body.clone(),
            start_time: format_local(self.start_time),
            created_at: format_local(self.created_at),
        }
    }
}

} // verus!
