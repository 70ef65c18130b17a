use vstd::prelude::*;
use vstd::string::*;

verus! {

/// A person as the `people` table stores it, with the id that the store
/// assigned.
#[derive(Clone, Debug)]
pub struct Person {
    pub id: i32,
    pub first_name: String,
    pub last_name: String,
    pub age: i32,
    pub profession: String,
    pub salary: i32,
}

/// A person that has not been stored yet: the five values of a request,
/// borrowed from it, and no id.
#[derive(Clone, Copy, Debug)]
pub struct InsertablePerson<'a> {
    pub first_name: &'a str,
    pub last_name: &'a str,
    pub age: i32,
    pub profession: &'a str,
    pub salary: i32,
}

/// The five values that a person is made of, apart from its id.
pub ghost struct Fields {
    pub first_name: Seq<char>,
    pub last_name: Seq<char>,
    pub age: int,
    pub profession: Seq<char>,
    pub salary: int,
}

impl Person {
    /// The values of this record other than its id.
    pub open spec fn fields(&self) -> Fields {
        Fields {
            first_name: self.first_name@,
            last_name: self.last_name@,
            age: self.age as int,
            profession: self.profession@,
            salary: self.salary as int,
        }
    }
}

impl PartialEq for Person {
    fn eq(&self, o: &Person) -> (r: bool) {
        self.id == o.id
            && str_eq(self.first_name.as_str(), o.first_name.as_str())
            && str_eq(self.last_name.as_str(), o.last_name.as_str())
            && self.age == o.age
            && str_eq(self.profession.as_str(), o.profession.as_str())
            && self.salary == o.salary
    }
}

impl vstd::std_specs::cmp::PartialEqSpecImpl for Person {
    open spec fn obeys_eq_spec() -> bool {
        true
    }

    open spec fn eq_spec(&self, o: &Person) -> bool {
        self.id == o.id && self.fields() == o.fields()
    }
}

impl<'a> InsertablePerson<'a> {
    /// The five values that this person will be stored with.
    pub open spec fn fields(&self) -> Fields {
        Fields {
            first_name: self.first_name@,
            last_name: self.last_name@,
            age: self.age as int,
            profession: self.profession@,
            salary: self.salary as int,
        }
    }

    /// Gathers the five values of a person that is to be stored.
    pub fn new(
        first_name: &'a str,
        last_name: &'a str,
        age: i32,
        profession: &'a str,
        salary: i32,
    ) -> (r: Self)
        ensures
            r.fields() == (Fields {
                first_name: first_name@,
                last_name: last_name@,
                age: age as int,
                profession: profession@,
                salary: salary as int,
            }),
    {
        InsertablePerson { first_name, last_name, age, profession, salary }
    }

    /// Whether `row` holds exactly this person's five values.
    pub fn is_stored_as(&self, row: &Person) -> (r: bool)
        ensures
            r == (row.fields() == self.fields()),
    {
        str_eq(self.first_name, row.first_name.as_str())
            && str_eq(self.last_name, row.last_name.as_str())
            && self.age == row.age
            && str_eq(self.profession, row.profession.as_str())
            && self.salary == row.salary
    }
}

/// Whether two strings hold the same characters.
fn str_eq(a: &str, b: &str) -> (r: bool)
    ensures
        r == (a@ == b@),
{
    let a_len = a.unicode_len();
    let b_len = b.unicode_len();
    if a_len != b_len {
        return false;
    }
    let mut i: usize = 0;
    while i < a_len
        invariant
            a_len == a@.len(),
            b_len == b@.len(),
            a_len == b_len,
            i <= a_len,
            a@.subrange(0, i as int) == b@.subrange(0, i as int),
        decreases a_len - i,
    {
        if a.get_char(i) != b.get_char(i) {
            return false;
        }
        proof {
            assert(a@.subrange(0, i + 1) =~= a@.subrange(0, i as int).push(a@[i as int]));
            assert(b@.subrange(0, i + 1) =~= b@.subrange(0, i as int).push(b@[i as int]));
        }
        i = i + 1;
    }
    proof {
        assert(a@ =~= a@.subrange(0, a_len as int));
        assert(b@ =~= b@.subrange(0, b_len as int));
    }
    true
}

} // verus!
