//! The record types the web interface reads and edits, and the one
//! visibility rule applied to them.
//!
//! These are thin, sequential data carriers; the only logic here is the
//! exercise-list visibility rule: an exercise is shown when it is
//! published or the viewer is an administrator.

use vstd::prelude::*;

use crate::users::{Queryable, User};

verus! {

/// A database schema exercises run against.
#[derive(Debug, Clone)]
pub struct ExerciseSchema {
    id: String,
    name: String,
    schema: String,
}

/// The raw row an exercise schema is read from.
pub struct ExerciseSchemaInner {
    pub id: String,
    pub name: String,
    pub schema: String,
}

impl Queryable for ExerciseSchema {
    type Inner = ExerciseSchemaInner;

    fn parse(inner: ExerciseSchemaInner) -> ExerciseSchema {
        ExerciseSchema { id: inner.id, name: inner.name, schema: inner.schema }
    }
}

impl ExerciseSchema {
    /// The schema's identifier, in specifications.
    pub closed spec fn id_spec(self) -> String {
        self.id
    }

    /// The schema's name, in specifications.
    pub closed spec fn name_spec(self) -> String {
        self.name
    }

    /// The schema's definition text, in specifications.
    pub closed spec fn schema_spec(self) -> String {
        self.schema
    }

    /// The schema's identifier.
    pub fn id(&self) -> (r: &String)
        ensures
            r == self.id_spec(),
    {
        &self.id
    }

    /// The schema's name.
    pub fn name(&self) -> (r: &String)
        ensures
            r == self.name_spec(),
    {
        &self.name
    }

    /// The schema's definition text.
    pub fn schema(&self) -> (r: &String)
        ensures
            r == self.schema_spec(),
    {
        &self.schema
    }

    /// Replaces the schema's name.
    pub fn set_name(&mut self, name: String)
        ensures
            final(self).name_spec() == name,
            final(self).id_spec() == old(self).id_spec(),
            final(self).schema_spec() == old(self).schema_spec(),
    {
        self.name = name;
    }

    /// Replaces the schema's definition text.
    pub fn set_schema(&mut self, schema: String)
        ensures
            final(self).schema_spec() == schema,
            final(self).id_spec() == old(self).id_spec(),
            final(self).name_spec() == old(self).name_spec(),
    {
        self.schema = schema;
    }
}

/// The form body an exercise schema is edited through.
pub struct ExerciseSchemaForm {
    pub name: String,
    pub schema: String,
}

/// One row of the exercise-schema list.
#[derive(Debug, Clone)]
pub struct ExerciseSchemaListItem {
    pub id: String,
    pub name: String,
}

/// The raw row an exercise-schema list item is read from.
pub struct ExerciseSchemaListItemInner {
    pub id: String,
    pub name: String,
}

impl Queryable for ExerciseSchemaListItem {
    type Inner = ExerciseSchemaListItemInner;

    fn parse(inner: ExerciseSchemaListItemInner) -> ExerciseSchemaListItem {
        ExerciseSchemaListItem { id: inner.id, name: inner.name }
    }
}

/// The query string a new exercise is opened with: the pre-selected
/// schema, if any.
pub struct NewExerciseQuery {
    pub schema_id: Option<String>,
}

/// One row of the exercise list, as the main page shows it.
#[derive(Debug, Clone)]
pub struct ExerciseListItem {
    pub id: String,
    pub name: String,
    pub solved: bool,
    pub published: bool,
}

/// The raw row an exercise list item is read from; an absent solved flag
/// reads as unsolved.
pub struct ExerciseListItemInner {
    pub id: String,
    pub name: String,
    pub solved: Option<bool>,
    pub published: bool,
}

impl Queryable for ExerciseListItem {
    type Inner = ExerciseListItemInner;

    fn parse(inner: ExerciseListItemInner) -> ExerciseListItem {
        ExerciseListItem {
            id: inner.id,
            name: inner.name,
            solved: match inner.solved {
                Some(b) => b,
                None => false,
            },
            published: inner.published,
        }
    }
}

/// Whether a viewer sees an exercise: administrators see everything,
/// everyone else only what is published.
pub open spec fn visible_to(admin: bool, e: ExerciseListItem) -> bool {
    admin || e.published
}

/// The rows of the exercise list the given viewer is shown, in order.
pub fn visible_exercises(user: &User, list: Vec<ExerciseListItem>) -> (r: Vec<ExerciseListItem>)
    ensures
        r@ == list@.filter(|e: ExerciseListItem| visible_to(user.role_spec() is Admin, e)),
{
    let ghost admin = user.role_spec() is Admin;
    let ghost pred = |e: ExerciseListItem| visible_to(admin, e);
    let is_admin = user.is_admin();
    let mut out: Vec<ExerciseListItem> = Vec::new();
    let n = list.len();
    let mut i: usize = 0;
    proof {
        reveal_with_fuel(Seq::filter, 2);
        assert(list@.take(0).filter(pred) =~= Seq::empty());
    }
    while i < n
        invariant
            n == list@.len(),
            i <= n,
            admin == (user.role_spec() is Admin),
            is_admin == admin,
            pred == (|e: ExerciseListItem| visible_to(admin, e)),
            out@ == list@.take(i as int).filter(pred),
        decreases n - i,
    {
        let e = ExerciseListItem {
            id: list[i].id.clone(),
            name: list[i].name.clone(),
            solved: list[i].solved,
            published: list[i].published,
        };
        proof {
            reveal_with_fuel(Seq::filter, 2);
            assert(list@.take(i + 1).drop_last() =~= list@.take(i as int));
            assert(list@.take(i + 1).last() == list@[i as int]);
        }
        if is_admin || e.published {
            out.push(e);
            proof {
                assert(e == list@[i as int]);
                assert(pred(list@[i as int]));
                assert(out@ =~= list@.take(i + 1).filter(pred));
            }
        } else {
            proof {
                assert(!pred(list@[i as int]));
                assert(out@ =~= list@.take(i + 1).filter(pred));
            }
        }
        i = i + 1;
    }
    proof {
        assert(list@.take(n as int) =~= list@);
    }
    out
}

/// The status a submitted solution is stored under: correct exactly when
/// its result matched the exercise's expected result.
pub fn solution_status(result_matches: bool) -> (r: &'static str)
    ensures
        result_matches ==> r@ == "correct"@,
        !result_matches ==> r@ == "incorrect"@,
{
    if result_matches {
        "correct"
    } else {
        "incorrect"
    }
}

/// The body of the health endpoint's response.
#[derive(Debug)]
pub struct HealthResponse {
    pub status: &'static str,
}

/// The health endpoint's answer: the service is up.
pub fn health_response() -> (r: HealthResponse)
    ensures
        r.status@ == "ok"@,
{
    HealthResponse { status: "ok" }
}

} // verus!
