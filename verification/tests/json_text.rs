use course_backend::api::common::{Data, Pageable, PaginatedList};
use course_backend::api::courses::{get_courses, CoursePreview, CourseStatus};
use course_backend::api::session::{get_session, Role, User};
use course_backend::json::{render, write_array, write_decimal, write_escaped, write_string};

fn decimal(n: u64) -> String {
    let mut out = String::new();
    write_decimal(n, &mut out);
    out
}

fn quoted(s: &str) -> String {
    let mut out = String::new();
    write_string(s, &mut out);
    out
}

fn escaped(c: char) -> String {
    let mut out = String::new();
    write_escaped(c, &mut out);
    out
}

fn user(username: &str, role: Role) -> User {
    User {
        username: String::from(username),
        first_name: String::from("A"),
        last_name: String::from("B"),
        role,
    }
}

#[test]
fn decimal_numerals() {
    assert_eq!(decimal(0), "0");
    assert_eq!(decimal(7), "7");
    assert_eq!(decimal(9), "9");
    assert_eq!(decimal(10), "10");
    assert_eq!(decimal(101), "101");
    assert_eq!(decimal(1551303867), "1551303867");
    assert_eq!(decimal(4294967295), "4294967295");
    assert_eq!(decimal(18446744073709551615), "18446744073709551615");
}

#[test]
fn decimal_numerals_are_those_of_serde_json() {
    let mut n: u64 = 1;
    for _ in 0..64 {
        assert_eq!(decimal(n), serde_json::to_string(&n).unwrap());
        assert_eq!(decimal(n - 1), serde_json::to_string(&(n - 1)).unwrap());
        n = n.wrapping_mul(2);
    }
    for n in 0..1200u64 {
        assert_eq!(decimal(n), serde_json::to_string(&n).unwrap());
    }
}

#[test]
fn writers_append_to_what_is_there() {
    let mut out = String::from("x=");
    write_decimal(42, &mut out);
    assert_eq!(out, "x=42");
    write_string("a\"b", &mut out);
    assert_eq!(out, "x=42\"a\\\"b\"");
    write_escaped('\n', &mut out);
    assert_eq!(out, "x=42\"a\\\"b\"\\n");
    write_array(&vec![Role::Mentor], &mut out);
    assert_eq!(out, "x=42\"a\\\"b\"\\n[\"Mentor\"]");
}

#[test]
fn escapes_of_single_characters() {
    assert_eq!(escaped('"'), "\\\"");
    assert_eq!(escaped('\\'), "\\\\");
    assert_eq!(escaped('\u{8}'), "\\b");
    assert_eq!(escaped('\t'), "\\t");
    assert_eq!(escaped('\n'), "\\n");
    assert_eq!(escaped('\u{c}'), "\\f");
    assert_eq!(escaped('\r'), "\\r");
    assert_eq!(escaped('\u{0}'), "\\u0000");
    assert_eq!(escaped('\u{b}'), "\\u000b");
    assert_eq!(escaped('\u{1f}'), "\\u001f");
    assert_eq!(escaped(' '), " ");
    assert_eq!(escaped('/'), "/");
    assert_eq!(escaped('a'), "a");
    assert_eq!(escaped('\u{7f}'), "\u{7f}");
    assert_eq!(escaped('ö'), "ö");
    assert_eq!(escaped('\u{1F600}'), "\u{1F600}");
}

#[test]
fn strings_in_quotation_marks() {
    assert_eq!(quoted(""), "\"\"");
    assert_eq!(quoted("foldik"), "\"foldik\"");
    assert_eq!(quoted("Kristóf"), "\"Kristóf\"");
    assert_eq!(quoted("say \"hi\"\n"), "\"say \\\"hi\\\"\\n\"");
    assert_eq!(quoted("C:\\dir\ttab"), "\"C:\\\\dir\\ttab\"");
    assert_eq!(quoted("\u{1}\u{1e}"), "\"\\u0001\\u001e\"");
}

#[test]
fn strings_are_those_of_serde_json() {
    for code in 0..0x300u32 {
        let c = char::from_u32(code).unwrap();
        let s: String = [c].iter().collect();
        assert_eq!(quoted(&s), serde_json::to_string(&s).unwrap());
        let around = format!("a{}b{}", c, c);
        assert_eq!(quoted(&around), serde_json::to_string(&around).unwrap());
    }
    for s in ["", "Földi", "line\r\nbreak", "\u{2028}\u{2029}", "\u{10FFFF}", "tab\there \\ \" /"] {
        assert_eq!(quoted(s), serde_json::to_string(s).unwrap());
    }
}

#[test]
fn strings_read_back_by_serde_json() {
    for s in ["", "Földi", "a\"b\\c", "\u{0}\u{7}\u{8}\u{9}\u{a}\u{b}\u{c}\u{d}\u{1f} ", "\u{1F600}"] {
        let read: String = serde_json::from_str(&quoted(s)).unwrap();
        assert_eq!(read, s);
    }
}

#[test]
fn arrays() {
    let none: Vec<Role> = Vec::new();
    let mut out = String::new();
    write_array(&none, &mut out);
    assert_eq!(out, "[]");
    let mut out = String::new();
    write_array(&vec![Role::Admin], &mut out);
    assert_eq!(out, "[\"Admin\"]");
    let mut out = String::new();
    write_array(&vec![Role::Admin, Role::Mentor, Role::Student], &mut out);
    assert_eq!(out, "[\"Admin\",\"Mentor\",\"Student\"]");
}

#[test]
fn roles_and_statuses() {
    assert_eq!(render(&Role::Admin), "\"Admin\"");
    assert_eq!(render(&Role::Mentor), "\"Mentor\"");
    assert_eq!(render(&Role::Student), "\"Student\"");
    assert_eq!(render(&CourseStatus::Draft), "\"Draft\"");
    assert_eq!(render(&CourseStatus::Published), "\"Published\"");
    assert_eq!(render(&CourseStatus::Public), "\"Public\"");
}

#[test]
fn user_with_special_characters() {
    let profile = User {
        username: String::from("o\"hara"),
        first_name: String::from("Tab\tbed"),
        last_name: String::from("Back\\slash"),
        role: Role::Student,
    };
    assert_eq!(
        render(&profile),
        "{\"username\":\"o\\\"hara\",\"first_name\":\"Tab\\tbed\",\"last_name\":\"Back\\\\slash\",\"role\":\"Student\"}"
    );
}

#[test]
fn envelope_of_a_payload() {
    assert_eq!(render(&Data { data: Role::Mentor }), "{\"data\":\"Mentor\"}");
    assert_eq!(
        render(&Data { data: Data { data: CourseStatus::Draft } }),
        "{\"data\":{\"data\":\"Draft\"}}"
    );
}

#[test]
fn page_without_items_and_with_several() {
    let empty: PaginatedList<User> = PaginatedList { page: 3, limit: 20, max: 0, data: Vec::new() };
    assert_eq!(render(&empty), "{\"page\":3,\"limit\":20,\"max\":0,\"data\":[]}");
    let two = PaginatedList {
        page: 0,
        limit: 2,
        max: 2,
        data: vec![user("a", Role::Admin), user("b", Role::Mentor)],
    };
    assert_eq!(
        render(&two),
        "{\"page\":0,\"limit\":2,\"max\":2,\"data\":[{\"username\":\"a\",\"first_name\":\"A\",\"last_name\":\"B\",\"role\":\"Admin\"},{\"username\":\"b\",\"first_name\":\"A\",\"last_name\":\"B\",\"role\":\"Mentor\"}]}"
    );
}

#[test]
fn course_with_every_status() {
    for (status, name) in [
        (CourseStatus::Draft, "Draft"),
        (CourseStatus::Published, "Published"),
        (CourseStatus::Public, "Public"),
    ] {
        let course = CoursePreview {
            id: 4294967295,
            title: String::from("T"),
            short_description: String::new(),
            last_update: 18446744073709551615,
            status,
        };
        assert_eq!(
            render(&course),
            format!(
                "{{\"id\":4294967295,\"title\":\"T\",\"short_description\":\"\",\"last_update\":18446744073709551615,\"status\":\"{}\"}}",
                name
            )
        );
    }
}

#[test]
fn session_text_read_back_by_serde_json() {
    let text = render(&get_session());
    let value: serde_json::Value = serde_json::from_str(&text).unwrap();
    let data = value.get("data").unwrap();
    assert_eq!(value.as_object().unwrap().len(), 1);
    assert_eq!(data.as_object().unwrap().len(), 4);
    assert_eq!(data.get("username").unwrap().as_str(), Some("foldik"));
    assert_eq!(data.get("first_name").unwrap().as_str(), Some("Földi"));
    assert_eq!(data.get("last_name").unwrap().as_str(), Some("Kristóf"));
    assert_eq!(data.get("role").unwrap().as_str(), Some("Admin"));
}

#[test]
fn course_list_text_read_back_by_serde_json() {
    let text = render(&get_courses(Pageable { page: 2, limit: 5 }));
    let value: serde_json::Value = serde_json::from_str(&text).unwrap();
    assert_eq!(value.as_object().unwrap().len(), 4);
    assert_eq!(value.get("page").unwrap().as_u64(), Some(2));
    assert_eq!(value.get("limit").unwrap().as_u64(), Some(5));
    assert_eq!(value.get("max").unwrap().as_u64(), Some(101));
    let data = value.get("data").unwrap().as_array().unwrap();
    assert_eq!(data.len(), 1);
    assert_eq!(data[0].as_object().unwrap().len(), 5);
    assert_eq!(data[0].get("id").unwrap().as_u64(), Some(10));
    assert_eq!(data[0].get("title").unwrap().as_str(), Some("Hello World"));
    assert_eq!(
        data[0].get("short_description").unwrap().as_str(),
        Some("Hello World Short description")
    );
    assert_eq!(data[0].get("last_update").unwrap().as_u64(), Some(1551303867));
    assert_eq!(data[0].get("status").unwrap().as_str(), Some("Published"));
}
