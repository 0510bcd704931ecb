use os_kernel::console::{Color, ColorChar, ColorStrIter};
use os_kernel::timer::{get_time_us, set_next_trigger};

fn drain(mut it: ColorStrIter) -> String {
    let mut out = String::new();
    while let Some(c) = it.next() {
        out.push(c);
    }
    assert_eq!(it.next(), None);
    out
}

#[test]
fn next_trigger_is_one_slice_later() {
    assert_eq!(set_next_trigger(1000), 1000 + 125_000);
}

#[test]
fn time_in_microseconds() {
    assert_eq!(get_time_us(12_500_000), 1_041_666);
    assert_eq!(get_time_us(11), 0);
    assert_eq!(get_time_us(12), 1);
}

#[test]
fn colour_codes() {
    assert_eq!(Color::ERROR.code(), 31);
    assert_eq!(Color::WARN.code(), 93);
    assert_eq!(Color::INFO.code(), 34);
    assert_eq!(Color::DEBUG.code(), 32);
    assert_eq!(Color::TRACE.code(), 90);
}

#[test]
fn render_wraps_the_text_in_escape_sequences() {
    assert_eq!(drain("hi".render_color(Color::ERROR)), "\x1b[31mhi\x1b[0m");
    assert_eq!(drain("log".render_color(Color::TRACE)), "\x1b[90mlog\x1b[0m");
    assert_eq!(drain("".render_color(Color::WARN)), "\x1b[93m\x1b[0m");
}

#[test]
fn default_colour_is_info() {
    assert_eq!(drain("ok".default_color_chars()), "\x1b[34mok\x1b[0m");
}

#[test]
fn count_gives_every_character_then_none() {
    let mut it = "abc".render_color(Color::DEBUG);
    assert_eq!(it.count(), 3 + 9);
    assert_eq!(it.next(), None);
    let mut it = "abc".render_color(Color::DEBUG);
    it.next();
    it.next();
    assert_eq!(it.count(), 10);
    assert_eq!(it.count(), 0);
}
