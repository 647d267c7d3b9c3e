use attic_tokens::example::example_config_text;
use attic_tokens::example::example_configuration;
use attic_tokens::load_configuration;

#[test]
fn example_text_is_the_rendered_file_format() {
    let text = example_config_text();
    assert_eq!(
        text,
        "[\"alice\"]\n\"alice-*\" = [\"push\", \"pull\"]\n[\"bob\"]\n\"bob-cache\" = [\"admin\"]\n"
    );
}

#[test]
fn example_round_trips_through_the_parser() {
    let text = example_config_text();
    let parsed = load_configuration(&text).unwrap();
    assert_eq!(parsed, example_configuration());
}
