use hades::text::{append_i32, append_u32};

fn render_u32(n: u32) -> String {
    let mut s = String::new();
    append_u32(&mut s, n);
    s
}

fn render_i32(n: i32) -> String {
    let mut s = String::new();
    append_i32(&mut s, n);
    s
}

#[test]
fn unsigned_decimal() {
    assert_eq!(render_u32(0), "0");
    assert_eq!(render_u32(7), "7");
    assert_eq!(render_u32(10), "10");
    assert_eq!(render_u32(105), "105");
    assert_eq!(render_u32(u32::MAX), "4294967295");
}

#[test]
fn signed_decimal() {
    assert_eq!(render_i32(0), "0");
    assert_eq!(render_i32(42), "42");
    assert_eq!(render_i32(-1), "-1");
    assert_eq!(render_i32(i32::MAX), "2147483647");
    assert_eq!(render_i32(i32::MIN), "-2147483648");
}

#[test]
fn appends_after_existing_text() {
    let mut s = String::from("x=");
    append_i32(&mut s, -15);
    assert_eq!(s, "x=-15");
}
