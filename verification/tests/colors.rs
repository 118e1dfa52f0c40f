use kludged::cli::commons::{choose_color, get_color};
use kludged::cli::errors::InvalidColor;
use kludged::cli::{Commands, UDEV_PATH};
use kludged::color::Color;

#[test]
fn named_colors() {
    assert_eq!(get_color("red"), Ok(Color::new(255, 0, 0)));
    assert_eq!(get_color("olive"), Ok(Color::new(128, 128, 0)));
    assert_eq!(get_color("rebeccapurple"), Ok(Color::new(102, 51, 153)));
    assert_eq!(get_color("whitesmoke"), Ok(Color::new(245, 245, 245)));
    assert_eq!(get_color("black"), Ok(Color::new(0, 0, 0)));
}

#[test]
fn names_are_in_small_letters() {
    assert_eq!(get_color("Red"), Err(InvalidColor));
    assert_eq!(get_color("RED"), Err(InvalidColor));
    assert_eq!(get_color(" red"), Err(InvalidColor));
}

#[test]
fn color_codes_of_six_digits() {
    assert_eq!(get_color("#ff0012"), Ok(Color::new(255, 0, 18)));
    assert_eq!(get_color("ff0012"), Ok(Color::new(255, 0, 18)));
    assert_eq!(get_color("#FF0012"), Ok(Color::new(255, 0, 18)));
    assert_eq!(get_color("#000000"), Ok(Color::new(0, 0, 0)));
    assert_eq!(get_color("#AbCdEf"), Ok(Color::new(0xAB, 0xCD, 0xEF)));
    assert_eq!(get_color("#123456"), Ok(Color::new(0x12, 0x34, 0x56)));
}

#[test]
fn color_codes_of_three_digits() {
    assert_eq!(get_color("#abc"), Ok(Color::new(0xAA, 0xBB, 0xCC)));
    assert_eq!(get_color("abc"), Ok(Color::new(0xAA, 0xBB, 0xCC)));
    assert_eq!(get_color("#f00"), Ok(Color::new(255, 0, 0)));
    assert_eq!(get_color("#019"), Ok(Color::new(0, 0x11, 0x99)));
}

#[test]
fn codes_in_small_letters_are_codes() {
    assert_eq!(get_color("fff"), Ok(Color::new(255, 255, 255)));
    assert_eq!(get_color("bad"), Ok(Color::new(0xBB, 0xAA, 0xDD)));
    assert_eq!(get_color("facade"), Ok(Color::new(0xFA, 0xCA, 0xDE)));
    assert_eq!(get_color("decade"), Ok(Color::new(0xDE, 0xCA, 0xDE)));
}

#[test]
fn what_is_no_color() {
    assert_eq!(get_color(""), Err(InvalidColor));
    assert_eq!(get_color("#"), Err(InvalidColor));
    assert_eq!(get_color("nope"), Err(InvalidColor));
    assert_eq!(get_color("#ff00"), Err(InvalidColor));
    assert_eq!(get_color("#ff00123"), Err(InvalidColor));
    assert_eq!(get_color("#gg0012"), Err(InvalidColor));
    assert_eq!(get_color("##ff0012"), Err(InvalidColor));
    assert_eq!(get_color("#ff 012"), Err(InvalidColor));
}

#[test]
fn text_outside_ascii_is_no_color() {
    assert_eq!(get_color("é1"), Err(InvalidColor));
    assert_eq!(get_color("#ß0012"), Err(InvalidColor));
    assert_eq!(get_color("rød"), Err(InvalidColor));
}

#[test]
fn the_name_goes_before_the_code() {
    assert_eq!(
        choose_color(Some((1, 2, 3)), Some((4, 5, 6))),
        Ok(Color::new(1, 2, 3))
    );
    assert_eq!(choose_color(Some((1, 2, 3)), None), Ok(Color::new(1, 2, 3)));
    assert_eq!(choose_color(None, Some((4, 5, 6))), Ok(Color::new(4, 5, 6)));
    assert_eq!(choose_color(None, None), Err(InvalidColor));
}

#[test]
fn channels_of_a_color() {
    let color = Color::new(1, 2, 3);
    assert_eq!(color.channels(), [1, 2, 3]);
    assert_eq!((color.red, color.green, color.blue), (1, 2, 3));
}

#[test]
fn message_of_an_invalid_color() {
    assert_eq!(
        InvalidColor.message(),
        r###"The provided color must be in hex format such as "#ff0012", or a named color such as "red"."###
    );
}

#[test]
fn the_udev_command_holds_its_path() {
    assert_eq!(UDEV_PATH, "/etc/udev/rules.d/99-kludged.rules");
    let command = Commands::Udev {
        path: UDEV_PATH.to_string(),
    };
    match command {
        Commands::Udev { path } => assert_eq!(path, "/etc/udev/rules.d/99-kludged.rules"),
    }
}
