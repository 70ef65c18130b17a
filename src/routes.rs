use vstd::prelude::*;
use crate::person::{Fields, InsertablePerson, Person};

verus! {

/// The status of a reply that went well.
pub const OK: u16 = 200;

/// The status of a reply to a payload that lacks a field.
pub const UNPROCESSABLE_ENTITY: u16 = 422;

/// The status of a reply when the store failed to keep a person.
pub const INTERNAL_SERVER_ERROR: u16 = 500;

/// The status of a reply when no database connection can be had.
pub const SERVICE_UNAVAILABLE: u16 = 503;

/// What `GET /` answers while the database can be reached.
pub open spec fn greeting() -> Seq<char> {
    "Hello, from Rust! (with a database connection!)"@
}

/// What any route answers while the database cannot be reached.
pub open spec fn unavailable_message() -> Seq<char> {
    "Service is not available. (Is the database up?)"@
}

/// What `POST /create-user` answers when the store did not keep the person.
pub open spec fn failure_message() -> Seq<char> {
    "Could not make a user"@
}

/// One of the five values of a person, as the request names it.
#[derive(PartialEq, Eq, Structural, Clone, Copy, Debug)]
pub enum Field {
    FirstName,
    LastName,
    Age,
    Profession,
    Salary,
}

impl Field {
    /// The JSON key of the field, which is also its column in the table.
    pub open spec fn key_spec(self) -> Seq<char> {
        match self {
            Field::FirstName => "first_name"@,
            Field::LastName => "last_name"@,
            Field::Age => "age"@,
            Field::Profession => "profession"@,
            Field::Salary => "salary"@,
        }
    }

    pub fn key(&self) -> (r: &'static str)
        ensures
            r@ == self.key_spec(),
    {
        match self {
            Field::FirstName => "first_name",
            Field::LastName => "last_name",
            Field::Age => "age",
            Field::Profession => "profession",
            Field::Salary => "salary",
        }
    }
}

/// The body of a create request as JSON decoding found it: each field that
/// was present with the right type, and `None` for each that was absent.
pub struct Payload {
    pub first_name: Option<String>,
    pub last_name: Option<String>,
    pub age: Option<i32>,
    pub profession: Option<String>,
    pub salary: Option<i32>,
}

impl Payload {
    /// The first field, in the order of the table, that the payload lacks.
    pub open spec fn missing(&self) -> Option<Field> {
        if self.first_name is None {
            Some(Field::FirstName)
        } else if self.last_name is None {
            Some(Field::LastName)
        } else if self.age is None {
            Some(Field::Age)
        } else if self.profession is None {
            Some(Field::Profession)
        } else if self.salary is None {
            Some(Field::Salary)
        } else {
            None
        }
    }

    /// The person that the payload describes, when no field is absent.
    pub open spec fn fields(&self) -> Option<Fields> {
        if self.missing() is None {
            Some(
                Fields {
                    first_name: self.first_name->Some_0@,
                    last_name: self.last_name->Some_0@,
                    age: self.age->Some_0 as int,
                    profession: self.profession->Some_0@,
                    salary: self.salary->Some_0 as int,
                },
            )
        } else {
            None
        }
    }
}

/// What a reply carries.
#[derive(Debug)]
pub enum Body {
    /// Plain text.
    Text(String),
    /// A stored person, sent as JSON.
    Record(Person),
    /// The field that a payload lacked, sent as a JSON error.
    MissingField(Field),
    /// A message on a failed store, sent as a JSON error.
    Failure(String),
}

/// A status and a body.
#[derive(Debug)]
pub struct Response {
    pub status: u16,
    pub body: Body,
}

/// The status that stops a create request before anything is stored, if any.
pub open spec fn rejection(db_available: bool, payload: Payload) -> Option<u16> {
    if !db_available {
        Some(SERVICE_UNAVAILABLE)
    } else if payload.missing() is Some {
        Some(UNPROCESSABLE_ENTITY)
    } else {
        None
    }
}

/// Whether `row` is a faithful copy of the person `c` that was handed to the
/// store: a positive id, and the very values that were sent.
pub open spec fn keeps(c: Fields, row: Person) -> bool {
    row.id > 0 && row.fields() == c
}

/// The status of the reply once the store has answered for person `c`.
pub open spec fn stored_status(c: Fields, stored: Option<Person>) -> u16 {
    match stored {
        Some(row) => if keeps(c, row) {
            OK
        } else {
            INTERNAL_SERVER_ERROR
        },
        None => INTERNAL_SERVER_ERROR,
    }
}

/// Whether `r` is the reply that says the database cannot be reached.
pub open spec fn is_unavailable(r: Response) -> bool {
    &&& r.status == SERVICE_UNAVAILABLE
    &&& is_text(r.body, unavailable_message())
}

/// Whether `b` is the text `s`.
pub open spec fn is_text(b: Body, s: Seq<char>) -> bool {
    b matches Body::Text(t) && t@ == s
}

/// Whether `b` is the failure message `s`.
pub open spec fn is_failure(b: Body, s: Seq<char>) -> bool {
    b matches Body::Failure(m) && m@ == s
}

/// The reply given when no database connection can be had.
pub fn service_not_available() -> (r: Response)
    ensures
        is_unavailable(r),
{
    Response { status: SERVICE_UNAVAILABLE, body: Body::Text("Service is not available. (Is the database up?)".to_owned()) }
}

/// `GET /`: the greeting while the database can be reached.
pub fn index(db_available: bool) -> (r: Response)
    ensures
        db_available ==> (r.status == OK && is_text(r.body, greeting())),
        !db_available ==> is_unavailable(r),
{
    if !db_available {
        return service_not_available();
    }
    Response { status: OK, body: Body::Text("Hello, from Rust! (with a database connection!)".to_owned()) }
}

/// `POST /create-user`, up to the store: the person to store, or the reply
/// that turns the request away first.
pub fn create<'a>(db_available: bool, payload: &'a Payload) -> (r: Result<InsertablePerson<'a>, Response>)
    ensures
        r is Ok <==> rejection(db_available, *payload) is None,
        r matches Ok(c) ==> payload.fields() == Some(c.fields()),
        r matches Err(resp) ==> Some(resp.status) == rejection(db_available, *payload),
        !db_available ==> (r matches Err(resp) && is_unavailable(resp)),
        db_available && payload.missing() is Some ==> (r matches Err(resp)
            && resp.body == Body::MissingField(payload.missing()->Some_0)),
{
    if !db_available {
        return Err(service_not_available());
    }
    let first_name = match &payload.first_name {
        Some(s) => s.as_str(),
        None => return Err(missing(Field::FirstName)),
    };
    let last_name = match &payload.last_name {
        Some(s) => s.as_str(),
        None => return Err(missing(Field::LastName)),
    };
    let age = match payload.age {
        Some(a) => a,
        None => return Err(missing(Field::Age)),
    };
    let profession = match &payload.profession {
        Some(s) => s.as_str(),
        None => return Err(missing(Field::Profession)),
    };
    let salary = match payload.salary {
        Some(s) => s,
        None => return Err(missing(Field::Salary)),
    };
    Ok(InsertablePerson::new(first_name, last_name, age, profession, salary))
}

fn missing(f: Field) -> (r: Response)
    ensures
        r.status == UNPROCESSABLE_ENTITY,
        r.body == Body::MissingField(f),
{
    Response { status: UNPROCESSABLE_ENTITY, body: Body::MissingField(f) }
}

/// `POST /create-user`, once the store has answered with the row it kept
/// for `candidate`, or with `None` when it kept nothing. The row goes back
/// to the client only when it is a faithful copy of the candidate.
pub fn created(candidate: &InsertablePerson, stored: Option<Person>) -> (r: Response)
    ensures
        r.status == stored_status(candidate.fields(), stored),
        r.status == OK ==> r.body == Body::Record(stored->Some_0),
        r.status != OK ==> (r.status == INTERNAL_SERVER_ERROR && is_failure(r.body, failure_message())),
{
    match stored {
        Some(row) => {
            if row.id > 0 && candidate.is_stored_as(&row) {
                Response { status: OK, body: Body::Record(row) }
            } else {
                store_failure()
            }
        },
        None => store_failure(),
    }
}

fn store_failure() -> (r: Response)
    ensures
        r.status == INTERNAL_SERVER_ERROR,
        is_failure(r.body, failure_message()),
{
    Response { status: INTERNAL_SERVER_ERROR, body: Body::Failure("Could not make a user".to_owned()) }
}

/// A payload that holds all five fields is never turned away while the
/// database can be reached. The reply that follows the store's answer is a
/// success exactly when the store kept a row with a positive id whose five
/// values are those of the payload, character for character and number for
/// number; `created` then sends that very row.
pub proof fn complete_payload_round_trip(payload: Payload, stored: Option<Person>)
    requires
        payload.missing() is None,
    ensures
        rejection(true, payload) is None,
        payload.fields() is Some,
        stored_status(payload.fields()->Some_0, stored) == OK <==> (stored is Some && stored->Some_0.id
            > 0 && stored->Some_0.fields() == payload.fields()->Some_0),
{
}

} // verus!
