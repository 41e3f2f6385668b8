use ryde::css::class_name;
use ryde::css::css;
use ryde::css::generate_css;
use ryde::css::replace_repeated_strings;
use ryde::css::surround;

#[test]
fn css_works() {
    let class = css(&vec![
        "color: var(--gray-300)".to_string(),
        "justify-content: center".to_string(),
        "display: flex".to_string(),
    ]);
    assert_eq!(
        "color-gray-300 justify-content-center display-flex",
        class.0
    );
    let class = css(&vec!["justify-content: start".to_string()]);
    assert_eq!("justify-content-start", class.0);
}

#[test]
fn rules_works() {
    let css = css(&vec![
        "color: var(--gray-300)".to_string(),
        "justify-content: center".to_string(),
        "display: flex".to_string(),
    ]);
    assert_eq!("color-gray-300 justify-content-center display-flex", css.0);
    assert_eq!(
        vec![
            ".color-gray-300{color:var(--gray-300);}",
            ".justify-content-center{justify-content:center;}",
            ".display-flex{display:flex;}"
        ],
        css.1
    );
}

#[test]
fn pseudo_variant_works() {
    let css = css(&vec![
        "color: var(--gray-300)".to_string(),
        "dark:hover:focus:color: var(--gray-300)".to_string(),
    ]);
    let expected = vec![".color-gray-300{color:var(--gray-300);}", "@media(prefers-color-scheme:dark){.dark-hover-focus-color-gray-300:focus:hover{color:var(--gray-300);}}"];

    assert_eq!(expected, css.1);
}

#[test]
fn class_name_drops_repeats_and_variables() {
    assert_eq!(class_name("color: var(--gray-300)"), "color-gray-300");
    assert_eq!(class_name("justify-content: center"), "justify-content-center");
    assert_eq!(
        class_name("dark:hover:focus:color: var(--gray-300)"),
        "dark-hover-focus-color-gray-300"
    );
}

#[test]
fn replace_repeated_strings_keeps_first_occurrences() {
    assert_eq!(replace_repeated_strings("a-b-a-c-b"), "a-b-c");
    assert_eq!(replace_repeated_strings("grid-grid"), "grid");
    assert_eq!(replace_repeated_strings(""), "");
}

#[test]
fn surround_wraps_in_a_block() {
    assert_eq!(surround(".a{x:y;}", "@media(min-width:640px)"), "@media(min-width:640px){.a{x:y;}}");
}

#[test]
fn generate_css_handles_media_and_pseudo_prefixes() {
    let rules = generate_css(&vec![
        ("sm-hover-display-flex".to_string(), "sm:hover:display: flex".to_string()),
    ]);
    assert_eq!(
        rules,
        vec!["@media(min-width:640px){.sm-hover-display-flex:hover{display:flex;}}"]
    );
}

#[test]
fn generate_css_handles_aria_modifiers() {
    let rules = generate_css(&vec![
        (
            "aria-expanded-display-flex".to_string(),
            "aria-expanded:display: flex".to_string(),
        ),
    ]);
    assert_eq!(
        rules,
        vec![".aria-expanded-display-flex:[aria-expanded=\"true\"]{display:flex;}"]
    );
}
