use solus_rust_lib::activity::{all_activities, get_random_activity, ActivityData, ActivityKind};

fn doing(name: &str, kind: ActivityKind) -> ActivityData {
    ActivityData { name: name.to_string(), kind }
}

#[test]
fn there_are_four_activities() {
    assert_eq!(
        all_activities(),
        vec![
            doing("the sky fall", ActivityKind::Watching),
            doing("lofi hip-hop 🎶", ActivityKind::Listening),
            doing("with your heart ❤️", ActivityKind::Playing),
            doing("and learning 📝", ActivityKind::Watching),
        ]
    );
}

#[test]
fn a_random_activity_is_one_of_them() {
    let all = all_activities();
    for _ in 0..64 {
        let activity = get_random_activity();
        assert!(all.contains(&activity), "unknown activity {:?}", activity);
    }
}

#[test]
fn every_activity_is_chosen_sooner_or_later() {
    let all = all_activities();
    let mut seen = vec![false; all.len()];
    for _ in 0..2000 {
        let activity = get_random_activity();
        let index = all.iter().position(|known| *known == activity).expect("a known activity");
        seen[index] = true;
    }
    assert_eq!(seen, vec![true, true, true, true]);
}
