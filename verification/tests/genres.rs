use mp3_metadata::{Genre, resolve_genre_list};

#[test]
fn fmt_genre() {
    assert_eq!(Genre::Club.to_string(), "Club");
    assert_eq!(Genre::Something("Foo".to_string()).to_string(), "Foo");
}

#[test]
fn genre_from_numeric_byte() {
    assert_eq!(Genre::from_code(12), Genre::Other);
    assert_eq!(Genre::from_code(0), Genre::Blues);
    assert_eq!(Genre::from_code(125), Genre::DanceHall);
    assert_eq!(Genre::from_code(126), Genre::Unknown);
    assert_eq!(Genre::from_code(255), Genre::Unknown);
}

#[test]
fn genre_from_numeric_text() {
    assert_eq!(Genre::from_text("99"), Genre::Acoustic);
    assert_eq!(Genre::from_text("+99"), Genre::Acoustic);
    assert_eq!(Genre::from_text("0"), Genre::Blues);
}

#[test]
fn genre_from_free_text() {
    assert_eq!(Genre::from_text("Foobar"), Genre::Something("Foobar".to_string()));
    assert_eq!(Genre::from_text("256"), Genre::Something("256".to_string()));
    assert_eq!(Genre::from_text(""), Genre::Something(String::new()));
    assert_eq!(Genre::from_text("9 9"), Genre::Something("9 9".to_string()));
}

#[test]
fn genre_reference_list() {
    let two = resolve_genre_list("(51)(39)");
    assert_eq!(two, vec![Genre::TechnoIndustrial, Genre::Noise]);
    let refined = resolve_genre_list("(4)Eurodisco");
    assert_eq!(refined, vec![Genre::Something("(4)Eurodisco".to_string())]);
    let refined_closed = resolve_genre_list("(4)Eurodisco(9)");
    assert_eq!(refined_closed, vec![Genre::Disco]);
    let bare = resolve_genre_list("99");
    assert_eq!(bare, vec![Genre::Acoustic]);
    let text = resolve_genre_list("Foobar");
    assert_eq!(text, vec![Genre::Something("Foobar".to_string())]);
    let unparsed = resolve_genre_list("(no number)");
    assert_eq!(unparsed, vec![Genre::Something("(no number)".to_string())]);
    assert_eq!(resolve_genre_list(""), Vec::<Genre>::new());
}

#[test]
fn genre_default_is_unknown() {
    assert_eq!(Genre::default(), Genre::Unknown);
}
