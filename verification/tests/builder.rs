use sql_builder::sql::query_builder::escape_string;
use sql_builder::sql::QueryBuilder;

#[test]
fn test_escape_string() {
    let actual = escape_string(r#"foo b'ar\\"#);
    assert_eq!(actual, r#"foo b\'ar\\\\"#);
}

#[test]
fn test_push() {
    let mut qb = QueryBuilder::new("SELECT * FROM test");
    qb.push(" WHERE foo = 'bar'");
    assert_eq!(qb.build(), "SELECT * FROM test WHERE foo = 'bar'");
}

#[test]
fn test_push_bind_i32() {
    let mut qb = QueryBuilder::new("SELECT * FROM test");
    qb.push(" WHERE foo = ").push_bind(123);
    assert_eq!(qb.build(), "SELECT * FROM test WHERE foo = 123");
}

#[test]
fn test_push_bind_u32() {
    let mut qb = QueryBuilder::new("SELECT * FROM test");
    qb.push(" WHERE foo = ").push_bind(123u32);
    assert_eq!(qb.build(), "SELECT * FROM test WHERE foo = 123");
}

// A float has no literal of its own in the library: its text goes in as it is.
#[test]
fn test_push_bind_f32() {
    let mut qb = QueryBuilder::new("SELECT * FROM test");
    qb.push(" WHERE foo = ").push(&format!("{}", 222.33f32));
    assert_eq!(qb.build(), "SELECT * FROM test WHERE foo = 222.33");
}

#[test]
fn test_push_bind_str() {
    let mut qb = QueryBuilder::new("SELECT * FROM test");
    qb.push(" WHERE foo = ").push_bind("bar");
    assert_eq!(qb.build(), "SELECT * FROM test WHERE foo = \'bar\'");
}

#[test]
fn test_push_bind_string() {
    let mut qb = QueryBuilder::new("SELECT * FROM test");
    qb.push(" WHERE foo = ").push_bind("bar".to_string());
    assert_eq!(qb.build(), "SELECT * FROM test WHERE foo = \'bar\'");
}

#[test]
fn test_push_bind_vec_int() {
    let mut qb = QueryBuilder::new("SELECT * FROM test");
    qb.push(" WHERE foo IN ").push_bind(vec![1, 2, 3]);
    assert_eq!(qb.build(), "SELECT * FROM test WHERE foo IN [1, 2, 3]");
}

#[test]
fn new_builder_holds_its_seed() {
    assert_eq!(QueryBuilder::new("SELECT 1").build(), "SELECT 1");
    assert_eq!(QueryBuilder::new("").build(), "");
}

#[test]
fn push_does_not_escape() {
    let mut qb = QueryBuilder::new("");
    qb.push("a'b\\c`d").push("").push("\n");
    assert_eq!(qb.build(), "a'b\\c`d\n");
}

#[test]
fn push_bind_quotes_and_escapes_text() {
    let mut qb = QueryBuilder::new("WHERE name = ");
    qb.push_bind("O'Brien \\ co");
    assert_eq!(qb.build(), "WHERE name = 'O\\'Brien \\\\ co'");
}

#[test]
fn separated_three_items() {
    let mut qb = QueryBuilder::new("");
    let mut list = qb.separated(", ");
    list.push("a");
    list.push("b");
    list.push("c");
    assert_eq!(qb.build(), "a, b, c");
}

#[test]
fn separated_single_item_has_no_separator() {
    let mut qb = QueryBuilder::new("");
    qb.separated(", ").push("a");
    assert_eq!(qb.build(), "a");
}

#[test]
fn separated_without_items_adds_nothing() {
    let mut qb = QueryBuilder::new("SELECT");
    qb.separated(", ");
    assert_eq!(qb.build(), "SELECT");
}

#[test]
fn separated_keeps_what_the_builder_held() {
    let mut qb = QueryBuilder::new("SELECT ");
    qb.separated(", ").push("a").push("b");
    qb.push(" FROM t");
    assert_eq!(qb.build(), "SELECT a, b FROM t");
}

#[test]
fn push_unseparated_is_no_item() {
    let mut qb = QueryBuilder::new("foo IN ");
    let mut list = qb.separated(", ");
    list.push_unseparated("(");
    list.push_bind(1).push_bind(2);
    list.push_unseparated(")");
    list.push("x");
    assert_eq!(qb.build(), "foo IN (1, 2), x");
}

#[test]
fn push_unseparated_after_an_item_gets_no_separator() {
    let mut qb = QueryBuilder::new("");
    qb.separated("; ").push("a").push_unseparated("!").push("b");
    assert_eq!(qb.build(), "a!; b");
}

#[test]
fn separated_push_bind_escapes_each_item() {
    let mut qb = QueryBuilder::new("VALUES (");
    let mut list = qb.separated(", ");
    list.push_bind("it's").push_bind(-5i16).push("NULL").push_bind(vec!["a", "b"]);
    qb.push(")");
    assert_eq!(qb.build(), "VALUES ('it\\'s', -5, NULL, ['a', 'b'])");
}

#[test]
fn separated_first_push_bind_has_no_separator() {
    let mut qb = QueryBuilder::new("");
    qb.separated(" AND ").push_bind(7u8);
    assert_eq!(qb.build(), "7");
}

#[test]
fn each_list_starts_anew() {
    let mut qb = QueryBuilder::new("");
    qb.separated(", ").push("a").push("b");
    qb.separated("|").push("c").push("d");
    assert_eq!(qb.build(), "a, bc|d");
}

#[test]
fn separator_may_be_empty() {
    let mut qb = QueryBuilder::new("");
    qb.separated("").push("a").push("b");
    assert_eq!(qb.build(), "ab");
}
