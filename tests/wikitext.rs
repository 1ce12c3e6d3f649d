use wiki_search::wikitext::clean_wikitext;

#[test]
fn passthrough() {
    let t = String::from("Hello, world!");
    assert_eq!(t, clean_wikitext(&t))
}

#[test]
fn strips() {
    assert_eq!(
        "Hello, world!",
        clean_wikitext("Hello, {{some stuff}}world!")
    )
}

#[test]
fn strips_start() {
    assert_eq!("Hello, world!", clean_wikitext("{{stuff}}Hello, world!"))
}

#[test]
fn strips_end() {
    assert_eq!("Hello, world!", clean_wikitext("Hello, world!{{stuff}}"))
}

#[test]
fn strips_boundary() {
    assert_eq!(
        "Hello, world!",
        clean_wikitext("{{stuff}}Hello, world!{{stuff}}")
    )
}

#[test]
fn strips_many() {
    assert_eq!(
        "Hello, world!",
        clean_wikitext("Hello,{{stuff}} world!{{stuff}}")
    )
}

#[test]
fn nested() {
    assert_eq!("cat", clean_wikitext("ca{{ hi {{bye}}}}t"))
}

#[test]
fn empty_text_stays_empty() {
    assert_eq!("", clean_wikitext(""))
}

#[test]
fn unclosed_macro_runs_to_end() {
    assert_eq!("keep ", clean_wikitext("keep {{open to the end"))
}

#[test]
fn stray_closing_braces_are_text() {
    assert_eq!("a}}b", clean_wikitext("a}}b"))
}

#[test]
fn multibyte_text_around_macros() {
    assert_eq!("Pouancé – été", clean_wikitext("Pouancé {{lang|fr}}– été"))
}
