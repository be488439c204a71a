//! The pets and how a new one is made up.

use vstd::prelude::*;
use vstd::string::StringExecFns;

verus! {

/// A moment in time: whole seconds since the start of 1970 in UTC, and the
/// nanoseconds into that second.
#[derive(Copy, Clone, Debug, PartialEq, Eq, Structural)]
pub struct Timestamp {
    pub secs: i64,
    pub nanos: u32,
}

/// One pet as it is kept in the list.
#[derive(Clone, Debug, PartialEq, Eq)]
pub struct Pet {
    pub id: usize,
    pub name: String,
    pub category: String,
    pub age: usize,
    pub created_at: Timestamp,
}

/// What a pet says, field by field.
pub struct PetView {
    pub id: nat,
    pub name: Seq<char>,
    pub category: Seq<char>,
    pub age: nat,
    pub created_at: Timestamp,
}

impl View for Pet {
    type V = PetView;

    open spec fn view(&self) -> PetView {
        PetView {
            id: self.id as nat,
            name: self.name@,
            category: self.category@,
            age: self.age as nat,
            created_at: self.created_at,
        }
    }
}

/// Identifiers are drawn below this bound.
pub const ID_BOUND: usize = 9999999;

/// Ages are drawn from one up to, but not including, this bound.
pub const AGE_BOUND: usize = 15;

/// Every made-up name has this many characters.
pub const NAME_LENGTH: usize = 10;

/// The category draw is taken below this bound. With a bound of one every
/// draw is zero and every new pet a cat; `dogs` stays a category that pets
/// already on file may have.
pub const CATEGORY_DRAW_BOUND: usize = 1;

/// An ASCII letter or digit.
pub open spec fn is_alphanumeric(c: char) -> bool {
    ||| 'A' <= c <= 'Z'
    ||| 'a' <= c <= 'z'
    ||| '0' <= c <= '9'
}

/// The category that a draw stands for: zero is a cat, anything else a dog.
pub open spec fn category_for(draw: usize) -> Seq<char> {
    if draw == 0 {
        "cats"@
    } else {
        "dogs"@
    }
}

/// What holds of every pet that `random_pet` makes up.
pub open spec fn is_random_pet(pet: PetView) -> bool {
    &&& pet.id < ID_BOUND
    &&& pet.name.len() == NAME_LENGTH
    &&& forall|i: int| 0 <= i < pet.name.len() ==> is_alphanumeric(#[trigger] pet.name[i])
    &&& exists|draw: usize| draw < CATEGORY_DRAW_BOUND && pet.category == #[trigger] category_for(draw)
    &&& 1 <= pet.age < AGE_BOUND
}

/// `rand::rngs::ThreadRng`, the calling thread's generator of random
/// numbers; nothing of what it holds is seen here.
#[verifier::external_type_specification]
#[verifier::external_body]
pub struct ExThreadRng(rand::rngs::ThreadRng);

/// `rand::thread_rng` hands out the calling thread's generator; nothing is
/// claimed of it.
pub assume_specification[ rand::thread_rng ]() -> (rng: rand::rngs::ThreadRng)
;

/// `rand::Rng::gen_range` with two bounds: the value drawn is at least `low`
/// and less than `high`. The call panics unless `low < high`.
#[verifier::external_body]
fn gen_range(rng: &mut rand::rngs::ThreadRng, low: usize, high: usize) -> (drawn: usize)
    requires
        low < high,
    ensures
        low <= drawn < high,
{
    rand::Rng::gen_range(rng, low, high)
}

/// `rand::Rng::sample_iter` over `rand::distributions::Alphanumeric`, cut off
/// after `length` samples: as many characters as asked for, each an ASCII
/// letter or digit.
#[verifier::external_body]
fn sample_alphanumeric(rng: &mut rand::rngs::ThreadRng, length: usize) -> (text: String)
    ensures
        text@.len() == length,
        forall|i: int| 0 <= i < text@.len() ==> is_alphanumeric(#[trigger] text@[i]),
{
    rand::Rng::sample_iter(rng, rand::distributions::Alphanumeric).take(length).collect()
}

/// `chrono::Utc::now`, read off as `timestamp` and `timestamp_subsec_nanos`.
/// The clock decides the result, so nothing is claimed of it.
#[verifier::external_body]
fn now() -> (moment: Timestamp) {
    let moment = chrono::Utc::now();
    Timestamp { secs: moment.timestamp(), nanos: moment.timestamp_subsec_nanos() }
}

/// The text that `chrono` writes for a moment in UTC: the date, the time of
/// day and the zone's name; `None` for a moment that `chrono` cannot hold.
pub uninterp spec fn utc_text_of(secs: i64, nanos: u32) -> Option<Seq<char>>;

/// `chrono::DateTime::from_timestamp`, and `to_string` on the moment it
/// gives: the text depends on the seconds and nanoseconds alone, and there is
/// none where `from_timestamp` refuses them.
#[verifier::external_body]
fn utc_text(moment: Timestamp) -> (text: Option<String>)
    ensures
        text is Some == utc_text_of(moment.secs, moment.nanos) is Some,
        text is Some ==> utc_text_of(moment.secs, moment.nanos) == Some(text->0@),
{
    match chrono::DateTime::from_timestamp(moment.secs, moment.nanos) {
        Some(moment) => Some(moment.to_string()),
        None => None,
    }
}

impl Timestamp {
    /// The moment as text, where it can be written.
    pub fn text(&self) -> (text: Option<String>)
        ensures
            text is Some == utc_text_of(self.secs, self.nanos) is Some,
            text is Some ==> utc_text_of(self.secs, self.nanos) == Some(text->0@),
    {
        utc_text(*self)
    }
}

/// The name of the category that a draw stands for.
pub fn category(draw: usize) -> (name: String)
    ensures
        name@ == category_for(draw),
{
    if draw == 0 {
        String::from_str("cats")
    } else {
        String::from_str("dogs")
    }
}

/// Puts a pet together from what was drawn for it.
pub fn new_pet(id: usize, name: String, category_draw: usize, age: usize, created_at: Timestamp) -> (pet: Pet)
    ensures
        pet@ == (PetView {
            id: id as nat,
            name: name@,
            category: category_for(category_draw),
            age: age as nat,
            created_at,
        }),
{
    Pet { id, name, category: category(category_draw), age, created_at }
}

/// Makes up a pet: a cat or a dog with a random identifier, a random name of
/// letters and digits, a random age, born now.
pub fn random_pet() -> (pet: Pet)
    ensures
        is_random_pet(pet@),
{
    let mut rng = rand::thread_rng();
    let category_draw: usize = gen_range(&mut rng, 0, CATEGORY_DRAW_BOUND);
    let id: usize = gen_range(&mut rng, 0, ID_BOUND);
    let name = sample_alphanumeric(&mut rng, NAME_LENGTH);
    let age: usize = gen_range(&mut rng, 1, AGE_BOUND);
    new_pet(id, name, category_draw, age, now())
}

/// Every made-up pet is a cat or a dog.
pub proof fn a_random_pet_is_a_cat_or_a_dog(pet: PetView)
    requires
        is_random_pet(pet),
    ensures
        pet.category == "cats"@ || pet.category == "dogs"@,
{
}

} // verus!
