use vk_engine::people::{add_people, greet_people, greeting_lines, update_people, HelloPlugin, GREET_PERIOD_NANOS};

#[test]
fn spawns_alpha_beta_gamma() {
    assert_eq!(add_people(), vec!["Alpha".to_string(), "Beta".to_string(), "Gamma".to_string()]);
}

#[test]
fn update_uppercases_only_alpha() {
    let mut names = add_people();
    update_people(&mut names);
    assert_eq!(names, vec!["ALPHA".to_string(), "Beta".to_string(), "Gamma".to_string()]);
}

#[test]
fn update_is_idempotent() {
    let mut names = vec!["Alpha".to_string(), "alpha".to_string(), "ALPHA".to_string(), "Alphas".to_string()];
    update_people(&mut names);
    let once = names.clone();
    update_people(&mut names);
    assert_eq!(names, once);
    assert_eq!(once, vec!["ALPHA".to_string(), "alpha".to_string(), "ALPHA".to_string(), "Alphas".to_string()]);
}

#[test]
fn update_of_no_people_is_empty() {
    let mut names: Vec<String> = Vec::new();
    update_people(&mut names);
    assert!(names.is_empty());
}

#[test]
fn greets_everyone_when_timer_finished() {
    let names = add_people();
    let lines = greeting_lines(true, &names);
    assert_eq!(lines, vec!["hello Alpha!".to_string(), "hello Beta!".to_string(), "hello Gamma!".to_string()]);
}

#[test]
fn greets_nobody_before_timer_finishes() {
    let names = add_people();
    assert!(greeting_lines(false, &names).is_empty());
}

#[test]
fn update_runs_before_greet() {
    let mut names = add_people();
    update_people(&mut names);
    let lines = greeting_lines(true, &names);
    assert_eq!(lines, vec!["hello ALPHA!".to_string(), "hello Beta!".to_string(), "hello Gamma!".to_string()]);
}

#[test]
fn greet_timer_repeats_every_two_seconds() {
    let timer = HelloPlugin.greet_timer();
    assert_eq!(timer.duration_nanos(), 2_000_000_000);
    assert_eq!(GREET_PERIOD_NANOS, 2_000_000_000);
    assert_eq!(timer.elapsed_nanos(), 0);
}

#[test]
fn greet_system_follows_the_timer() {
    let names = add_people();
    let mut timer = HelloPlugin.greet_timer();
    assert!(greet_people(&mut timer, 1_500_000_000, &names).is_empty());
    assert_eq!(timer.elapsed_nanos(), 1_500_000_000);
    assert_eq!(
        greet_people(&mut timer, 600_000_000, &names),
        vec!["hello Alpha!".to_string(), "hello Beta!".to_string(), "hello Gamma!".to_string()]
    );
    assert_eq!(timer.elapsed_nanos(), 100_000_000);
    assert!(greet_people(&mut timer, 1_000_000_000, &names).is_empty());
    assert_eq!(greet_people(&mut timer, 1_000_000_000, &names).len(), 3);
    assert_eq!(timer.elapsed_nanos(), 100_000_000);
}

#[test]
fn greet_system_frame_of_several_periods() {
    let names = add_people();
    let mut timer = HelloPlugin.greet_timer();
    assert_eq!(greet_people(&mut timer, 5_000_000_000, &names).len(), 3);
    assert_eq!(timer.elapsed_nanos(), 1_000_000_000);
    assert_eq!(timer.duration_nanos(), 2_000_000_000);
}

#[test]
fn greet_system_exact_period() {
    let names = add_people();
    let mut timer = HelloPlugin.greet_timer();
    assert_eq!(greet_people(&mut timer, 2_000_000_000, &names).len(), 3);
    assert_eq!(timer.elapsed_nanos(), 0);
    assert!(greet_people(&mut timer, 0, &names).is_empty());
}

#[test]
fn greet_system_with_nobody() {
    let mut timer = HelloPlugin.greet_timer();
    assert!(greet_people(&mut timer, 2_500_000_000, &Vec::new()).is_empty());
    assert_eq!(timer.elapsed_nanos(), 500_000_000);
}
