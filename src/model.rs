use vstd::prelude::*;

verus! {

/// The HTTP method a schedule checks its target with.
#[derive(Clone, Copy, Debug, PartialEq, Eq, Structural)]
pub enum Method {
    HEAD,
    GET,
    POST,
}

impl Method {
    /// The code the store keeps for a method.
    pub open spec fn code_spec(self) -> i8 {
        match self {
            Method::HEAD => 1,
            Method::GET => 2,
            Method::POST => 3,
        }
    }

    pub fn code(self) -> (r: i8)
        ensures
            r == self.code_spec(),
    {
        match self {
            Method::HEAD => 1,
            Method::GET => 2,
            Method::POST => 3,
        }
    }

    /// Reads a stored code back; codes other than 1, 2 and 3 name no method.
    pub fn from_code(c: i8) -> (r: Option<Method>)
        ensures
            r matches Some(m) ==> m.code_spec() == c,
            r is None <==> !(1 <= c <= 3),
    {
        if c == 1 {
            Some(Method::HEAD)
        } else if c == 2 {
            Some(Method::GET)
        } else if c == 3 {
            Some(Method::POST)
        } else {
            None
        }
    }

    /// The method's name on the wire.
    pub fn as_str(self) -> (r: &'static str)
        ensures
            self == Method::HEAD ==> r@ == "HEAD"@,
            self == Method::GET ==> r@ == "GET"@,
            self == Method::POST ==> r@ == "POST"@,
    {
        match self {
            Method::HEAD => "HEAD",
            Method::GET => "GET",
            Method::POST => "POST",
        }
    }
}

/// The kind of work a job stands for.
#[derive(Clone, Copy, Debug, PartialEq, Eq, Structural)]
pub enum JobType {
    Monitoring,
}

impl JobType {
    pub open spec fn code_spec(self) -> i32 {
        match self {
            JobType::Monitoring => 1,
        }
    }

    pub fn code(self) -> (r: i32)
        ensures
            r == self.code_spec(),
    {
        match self {
            JobType::Monitoring => 1,
        }
    }

    /// Reads a stored code back; only 1 names a job type.
    pub fn from_code(c: i32) -> (r: Option<JobType>)
        ensures
            r matches Some(t) ==> t.code_spec() == c,
            r is None <==> c != 1,
    {
        if c == 1 {
            Some(JobType::Monitoring)
        } else {
            None
        }
    }
}

/// A user of the web front end.
#[derive(Clone, Debug)]
pub struct User {
    pub id: i32,
    pub name: String,
}

/// A monitored target: where and how to check it, when, and its current status.
/// Timestamps are whole seconds since 1970-01-01T00:00:00 UTC.
#[derive(Clone, Debug)]
pub struct Schedule {
    pub id: i32,
    pub name: String,
    pub cron: String,
    pub enabled: bool,
    pub target: String,
    pub method: Method,
    pub is_up: bool,
    pub last_down: Option<i64>,
    pub down_reason: Option<String>,
    pub created_at: i64,
}

/// What a schedule holds, with its strings as character sequences.
pub struct ScheduleView {
    pub id: i32,
    pub name: Seq<char>,
    pub cron: Seq<char>,
    pub enabled: bool,
    pub target: Seq<char>,
    pub method: Method,
    pub is_up: bool,
    pub last_down: Option<i64>,
    pub down_reason: Option<Seq<char>>,
    pub created_at: i64,
}

pub open spec fn opt_view(o: Option<String>) -> Option<Seq<char>> {
    match o {
        Some(s) => Some(s@),
        None => None,
    }
}

impl View for Schedule {
    type V = ScheduleView;

    open spec fn view(&self) -> ScheduleView {
        ScheduleView {
            id: self.id,
            name: self.name@,
            cron: self.cron@,
            enabled: self.enabled,
            target: self.target@,
            method: self.method,
            is_up: self.is_up,
            last_down: self.last_down,
            down_reason: opt_view(self.down_reason),
            created_at: self.created_at,
        }
    }
}

/// A pending job: run one check of the linked schedule at or after `run_at`.
#[derive(Clone, Copy, Debug, PartialEq, Eq, Structural)]
pub struct Job {
    pub id: u64,
    pub job_type: JobType,
    pub linked_id: Option<i32>,
    pub run_at: i64,
}

/// A job still to be stored; the store gives it its id.
#[derive(Clone, Copy, Debug, PartialEq, Eq, Structural)]
pub struct NewJob {
    pub job_type: JobType,
    pub run_at: i64,
    pub linked_id: Option<i32>,
}

pub fn clone_opt_string(o: &Option<String>) -> (r: Option<String>)
    ensures
        opt_view(r) == opt_view(*o),
{
    match o {
        Some(s) => Some(s.clone()),
        None => None,
    }
}

impl Schedule {
    /// A field-by-field copy.
    pub fn copy(&self) -> (r: Schedule)
        ensures
            r@ == self@,
    {
        Schedule {
            id: self.id,
            name: self.name.clone(),
            cron: self.cron.clone(),
            enabled: self.enabled,
            target: self.target.clone(),
            method: self.method,
            is_up: self.is_up,
            last_down: self.last_down,
            down_reason: clone_opt_string(&self.down_reason),
            created_at: self.created_at,
        }
    }
}

} // verus!
