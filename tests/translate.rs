use shyriiwook::{capitalize, find_translation, translate};

#[test]
fn translates_a() {
    let translated = translate("a");
    assert_eq!(translated, "ra");
}

#[test]
fn translates_z() {
    let translated = translate("Z");
    assert_eq!(translated, "Uf");
}

#[test]
fn translates_non_ascii() {
    let translated = translate("È un’altro perché?");
    assert_eq!(translated, "È huwh’raanaorcoo akworcoaacé?");
}

#[test]
fn translates_simple() {
    let translated = translate("hello world!");
    assert_eq!(translated, "acwoananoo ohoorcanwa!");
}

#[test]
fn translates_mixed_case() {
    let translated = translate("Hello World!");
    assert_eq!(translated, "Acwoananoo Ohoorcanwa!");
}

#[test]
fn translate_with_escape() {
    let translated = translate("hello \n\t world!");
    assert_eq!(translated, "acwoananoo \n\t ohoorcanwa!");
}

#[test]
fn translate_json() {
    let translated = translate("{ hello: \n { world: 'world!' }");
    assert_eq!(translated, "{ acwoananoo: \n { ohoorcanwa: 'ohoorcanwa!' }");
}

#[test]
fn capitalize_string() {
    assert_eq!(capitalize("abc"), "Abc");
}

#[test]
fn capitalize_char() {
    assert_eq!(capitalize("a"), "A");
}

#[test]
fn capitalize_empty() {
    assert_eq!(capitalize(""), "");
}

#[test]
fn capitalize_already_capitalized() {
    assert_eq!(capitalize("Abc"), "Abc");
}

const TABLE: [(char, &str); 26] = [
    ('a', "ra"),
    ('b', "rh"),
    ('c', "oa"),
    ('d', "wa"),
    ('e', "wo"),
    ('f', "ww"),
    ('g', "rr"),
    ('h', "ac"),
    ('i', "ah"),
    ('j', "sh"),
    ('k', "or"),
    ('l', "an"),
    ('m', "sc"),
    ('n', "wh"),
    ('o', "oo"),
    ('p', "ak"),
    ('q', "rq"),
    ('r', "rc"),
    ('s', "c"),
    ('t', "ao"),
    ('u', "hu"),
    ('v', "ho"),
    ('w', "oh"),
    ('x', "k"),
    ('y', "ro"),
    ('z', "uf"),
];

#[test]
fn every_lowercase_letter_gives_its_entry() {
    for (letter, rep) in TABLE.iter() {
        assert_eq!(translate(&letter.to_string()), *rep);
    }
}

#[test]
fn every_uppercase_letter_gives_capitalized_entry() {
    for (letter, rep) in TABLE.iter() {
        let upper = letter.to_ascii_uppercase().to_string();
        let mut expected = rep[..1].to_ascii_uppercase();
        expected.push_str(&rep[1..]);
        assert_eq!(translate(&upper), expected);
    }
}

#[test]
fn single_character_entries_uppercase() {
    assert_eq!(translate("S"), "C");
    assert_eq!(translate("X"), "K");
    assert_eq!(translate("sx"), "ck");
}

#[test]
fn other_characters_pass_through() {
    for s in ["0", "9", " ", "\n", "\t", "!", "'", "é", "È", "ß", "Ж", "ж", "λ", "中", "😀", "\u{0}", "`", "[", "@", "{"] {
        assert_eq!(translate(s), s);
    }
}

#[test]
fn empty_text_translates_to_empty() {
    assert_eq!(translate(""), "");
}

#[test]
fn translating_twice_differs() {
    let once = translate("a");
    let twice = translate(&once);
    assert_eq!(twice, "rcra");
    assert_ne!(once, twice);
}

#[test]
fn translation_is_never_shorter() {
    for s in ["", "s", "x", "SX", "hello", "Ж中😀", "È un’altro perché?", "sssxxx"] {
        assert!(translate(s).chars().count() >= s.chars().count());
    }
    assert_eq!(translate("sx").chars().count(), 2);
}

#[test]
fn find_translation_ignores_case() {
    assert_eq!(find_translation('a'), Some(String::from("ra")));
    assert_eq!(find_translation('A'), Some(String::from("ra")));
    assert_eq!(find_translation('z'), Some(String::from("uf")));
    assert_eq!(find_translation('Z'), Some(String::from("uf")));
    assert_eq!(find_translation('s'), Some(String::from("c")));
}

#[test]
fn find_translation_rejects_non_letters() {
    assert_eq!(find_translation('1'), None);
    assert_eq!(find_translation('@'), None);
    assert_eq!(find_translation('['), None);
    assert_eq!(find_translation('`'), None);
    assert_eq!(find_translation('{'), None);
    assert_eq!(find_translation('é'), None);
    assert_eq!(find_translation('Ж'), None);
}

#[test]
fn capitalize_non_ascii_first_character() {
    assert_eq!(capitalize("éte"), "Éte");
    assert_eq!(capitalize("ßa"), "SSa");
    assert_eq!(capitalize("1ab"), "1ab");
    assert_eq!(capitalize("жук"), "Жук");
}
