//! What the bot appears to be doing: one of a few activities, chosen at random.

use rand::seq::SliceRandom;
use vstd::prelude::*;
use crate::views::seq_view;

verus! {

/// The manner of an activity.
#[derive(Clone, Copy, Debug, PartialEq, Eq, Structural)]
pub enum ActivityKind {
    Listening,
    Playing,
    Watching,
}

/// The view of an activity.
pub struct ActivityModel {
    pub name: Seq<char>,
    pub kind: ActivityKind,
}

/// An activity: what is done, and in which manner.
#[derive(Debug, PartialEq, Eq)]
pub struct ActivityData {
    pub name: String,
    pub kind: ActivityKind,
}

impl View for ActivityData {
    type V = ActivityModel;

    open spec fn view(&self) -> ActivityModel {
        ActivityModel { name: self.name@, kind: self.kind }
    }
}

impl Clone for ActivityData {
    fn clone(&self) -> (copy: Self)
        ensures
            copy@ == self@,
    {
        ActivityData { name: self.name.clone(), kind: self.kind }
    }
}

/// The activities to choose from.
pub open spec fn activities() -> Seq<ActivityModel> {
    seq![
        ActivityModel { name: "the sky fall"@, kind: ActivityKind::Watching },
        ActivityModel { name: "lofi hip-hop 🎶"@, kind: ActivityKind::Listening },
        ActivityModel { name: "with your heart ❤️"@, kind: ActivityKind::Playing },
        ActivityModel { name: "and learning 📝"@, kind: ActivityKind::Watching },
    ]
}

/// The activities to choose from.
pub fn all_activities() -> (all: Vec<ActivityData>)
    ensures
        seq_view(all@) == activities(),
{
    let mut all: Vec<ActivityData> = Vec::new();
    all.push(ActivityData { name: "the sky fall".to_string(), kind: ActivityKind::Watching });
    all.push(ActivityData { name: "lofi hip-hop 🎶".to_string(), kind: ActivityKind::Listening });
    all.push(ActivityData { name: "with your heart ❤️".to_string(), kind: ActivityKind::Playing });
    all.push(ActivityData { name: "and learning 📝".to_string(), kind: ActivityKind::Watching });
    all
}

/// Picks one of `items` at random: `choose` of `rand::seq::SliceRandom`, fed by
/// `rand::thread_rng`. The contract claims that what is picked is one of the
/// items, and that nothing is picked only where there is none; it says nothing
/// of which one is picked. The generator is seeded from the operating system and
/// panics if that fails.
#[verifier::external_body]
fn pick<T>(items: &Vec<T>) -> (picked: Option<&T>)
    ensures
        match picked {
            Some(item) => exists|i: int| 0 <= i < items@.len() && *item == items@[i],
            None => items@.len() == 0,
        },
{
    items.choose(&mut rand::thread_rng())
}

/// One of the activities, chosen at random.
pub fn get_random_activity() -> (activity: ActivityData)
    ensures
        activities().contains(activity@),
{
    let all = all_activities();
    let picked = pick(&all);
    proof {
        assert(seq_view(all@).len() == 4);
        if let Some(item) = picked {
            let i = choose|i: int| 0 <= i < all@.len() && *item == all@[i];
            assert(activities()[i] == item@);
        }
    }
    picked.unwrap().clone()
}

} // verus!
