use kludged::color::Color;
use kludged::keyboards::rk68::keys::{Keys, KEY_COUNT};
use kludged::keyboards::rk68::packets::{AnimationPacket, ColorPacket};
use kludged::keyboards::rk68::{Animation, Brightness, Sleep, Speed};
use kludged::keyboards::steps::Indexes;

fn all_keys() -> Vec<Keys> {
    (0..KEY_COUNT)
        .map(|slot| Keys::from_slot(slot).unwrap())
        .collect()
}

#[test]
fn color_packet_starts_with_its_headers() {
    let packet = ColorPacket::new();
    assert_eq!(packet.steps.step_count, 7);
    assert_eq!(packet.steps.step_len, 65);
    assert_eq!(packet.steps.data.len(), 455);
    for (number, step) in packet.steps.steps().into_iter().enumerate() {
        assert_eq!(step[0], 0x0A);
        assert_eq!(step[1], 0x07);
        assert_eq!(step[2], number as u8 + 1);
        let rest = if number == 0 {
            assert_eq!(&step[3..6], &[0x03, 0x7E, 2]);
            &step[6..]
        } else {
            &step[3..]
        };
        assert!(rest.iter().all(|byte| *byte == 0));
    }
}

#[test]
fn set_color_reaches_every_key() {
    let color = Color::new(0x12, 0x34, 0x56);
    let mut packet = ColorPacket::new();
    packet.set_color(color);
    for key in all_keys() {
        let indexes = key.indexes();
        assert_eq!(packet.steps[indexes[0]], 0x12);
        assert_eq!(packet.steps[indexes[1]], 0x34);
        assert_eq!(packet.steps[indexes[2]], 0x56);
    }
}

#[test]
fn set_color_changes_the_bytes_of_keys_only() {
    let fresh = ColorPacket::new();
    let mut packet = ColorPacket::new();
    packet.set_color(Color::new(9, 9, 9));
    let mut of_keys = vec![false; 455];
    for key in all_keys() {
        for index in key.indexes() {
            of_keys[index.step * 65 + index.index] = true;
        }
    }
    for place in 0..455 {
        if of_keys[place] {
            assert_eq!(packet.steps.data[place], 9);
        } else {
            assert_eq!(packet.steps.data[place], fresh.steps.data[place]);
        }
    }
}

#[test]
fn pure_red_leaves_green_of_the_first_key_at_zero() {
    let mut packet = ColorPacket::new();
    packet.set_color(Color::new(255, 0, 0));
    let green = Keys::from_slot(0).unwrap().indexes()[1];
    assert_eq!(green.step, 0);
    assert_eq!(packet.steps.nth_step(0)[green.index], 0);
    assert_eq!(packet.steps[Indexes::new(0, green.index - 1)], 255);
    assert_eq!(packet.steps[Indexes::new(0, green.index + 1)], 0);
}

#[test]
fn set_color_twice_is_set_color_once() {
    let mut once = ColorPacket::new();
    once.set_color(Color::new(1, 2, 3));
    let mut twice = ColorPacket::new();
    twice.set_color(Color::new(1, 2, 3));
    twice.set_color(Color::new(1, 2, 3));
    assert_eq!(once.steps.data, twice.steps.data);
}

#[test]
fn a_later_color_replaces_the_earlier() {
    let mut packet = ColorPacket::new();
    packet.set_color(Color::new(1, 2, 3));
    packet.set_color(Color::new(4, 5, 6));
    let mut other = ColorPacket::new();
    other.set_color(Color::new(4, 5, 6));
    assert_eq!(packet.steps.data, other.steps.data);
}

#[test]
fn color_sleep_is_one_byte() {
    for (sleep, byte) in [
        (Sleep::FiveMinutes, 1u8),
        (Sleep::TenMinutes, 2),
        (Sleep::TwentyMinutes, 3),
        (Sleep::ThirtyMinutes, 4),
        (Sleep::Never, 5),
    ] {
        let fresh = ColorPacket::new();
        let mut packet = ColorPacket::new();
        packet.set_sleep(sleep);
        assert_eq!(packet.steps.data[5], byte);
        for place in (0..455).filter(|place| *place != 5) {
            assert_eq!(packet.steps.data[place], fresh.steps.data[place]);
        }
    }
}

#[test]
fn color_sleep_twice_is_color_sleep_once() {
    let mut once = ColorPacket::new();
    once.set_sleep(Sleep::ThirtyMinutes);
    let mut twice = ColorPacket::new();
    twice.set_sleep(Sleep::ThirtyMinutes);
    twice.set_sleep(Sleep::ThirtyMinutes);
    assert_eq!(once.steps.data, twice.steps.data);
}

#[test]
fn color_and_sleep_do_not_meet() {
    let mut packet = ColorPacket::new();
    packet.set_sleep(Sleep::Never);
    packet.set_color(Color::new(7, 8, 9));
    assert_eq!(packet.steps.data[5], 5);
    let mut other = ColorPacket::new();
    other.set_color(Color::new(7, 8, 9));
    other.set_sleep(Sleep::Never);
    assert_eq!(packet.steps.data, other.steps.data);
}

#[test]
fn animation_packet_starts_with_its_defaults() {
    let packet = AnimationPacket::new();
    assert_eq!(packet.steps.step_count, 1);
    assert_eq!(packet.steps.step_len, 65);
    let report = packet.steps.nth_step(0);
    assert_eq!(
        &report[..14],
        &[0x0A, 0x01, 0x01, 0x02, 0x29, 0x01, 0x00, 1, 5, 0, 0, 0, 0, 5]
    );
    assert!(report[14..].iter().all(|byte| *byte == 0));
}

#[test]
fn animation_defaults_need_no_setter() {
    let packet = AnimationPacket::new();
    assert_eq!(packet.steps.data[8], Brightness::default().ordinal());
    assert_eq!(packet.steps.data[8], 5);
    assert_eq!(packet.steps.data[13], Sleep::Never.ordinal());
}

fn changed(packet: &AnimationPacket) -> Vec<(usize, u8)> {
    let fresh = AnimationPacket::new();
    (0..65)
        .filter(|place| packet.steps.data[*place] != fresh.steps.data[*place])
        .map(|place| (place, packet.steps.data[place]))
        .collect()
}

#[test]
fn set_animation_is_one_byte() {
    let mut packet = AnimationPacket::new();
    packet.set_animation(Animation::FlashAway);
    assert_eq!(changed(&packet), vec![(5, 20)]);
    packet.set_animation(Animation::RipplesShining);
    assert_eq!(changed(&packet), vec![(5, 2)]);
    packet.set_animation(Animation::NeonStream);
    assert_eq!(changed(&packet), vec![]);
}

#[test]
fn animation_and_speed_have_bytes_of_their_own() {
    let mut packet = AnimationPacket::new();
    packet.set_animation(Animation::Breathing);
    packet.set_speed(Speed::Three);
    assert_eq!(changed(&packet), vec![(5, 17), (7, 3)]);
    let mut other = AnimationPacket::new();
    other.set_speed(Speed::Three);
    other.set_animation(Animation::Breathing);
    assert_eq!(packet.steps.data, other.steps.data);
}

#[test]
fn set_animation_twice_is_set_animation_once() {
    let mut once = AnimationPacket::new();
    once.set_animation(Animation::Ambilight);
    let mut twice = AnimationPacket::new();
    twice.set_animation(Animation::Ambilight);
    twice.set_animation(Animation::Ambilight);
    assert_eq!(once.steps.data, twice.steps.data);
}

#[test]
fn set_speed_is_one_byte() {
    let mut packet = AnimationPacket::new();
    packet.set_speed(Speed::Four);
    assert_eq!(changed(&packet), vec![(7, 4)]);
}

#[test]
fn set_brightness_is_one_byte() {
    let mut packet = AnimationPacket::new();
    packet.set_brightness(Brightness::Zero);
    assert_eq!(changed(&packet), vec![(8, 0)]);
    packet.set_brightness(Brightness::Three);
    assert_eq!(changed(&packet), vec![(8, 3)]);
}

#[test]
fn animation_color_is_three_bytes() {
    let mut packet = AnimationPacket::new();
    packet.set_color(Color::new(0xAB, 0xCD, 0xEF));
    assert_eq!(changed(&packet), vec![(9, 0xAB), (10, 0xCD), (11, 0xEF)]);
}

#[test]
fn color_mix_is_zero_or_one() {
    let mut packet = AnimationPacket::new();
    packet.set_color_mix(true);
    assert_eq!(changed(&packet), vec![(12, 1)]);
    packet.set_color_mix(false);
    assert_eq!(changed(&packet), vec![]);
}

#[test]
fn animation_sleep_is_one_byte() {
    let mut packet = AnimationPacket::new();
    packet.set_sleep(Sleep::TwentyMinutes);
    assert_eq!(changed(&packet), vec![(13, 3)]);
}

#[test]
fn animation_setters_twice_are_setters_once() {
    let mut once = AnimationPacket::new();
    once.set_speed(Speed::Two);
    once.set_brightness(Brightness::One);
    once.set_color(Color::new(3, 2, 1));
    once.set_color_mix(true);
    once.set_sleep(Sleep::FiveMinutes);
    let mut twice = AnimationPacket::new();
    for _ in 0..2 {
        twice.set_speed(Speed::Two);
        twice.set_brightness(Brightness::One);
        twice.set_color(Color::new(3, 2, 1));
        twice.set_color_mix(true);
        twice.set_sleep(Sleep::FiveMinutes);
    }
    assert_eq!(once.steps.data, twice.steps.data);
}

#[test]
fn animation_setters_keep_the_header() {
    let mut packet = AnimationPacket::new();
    packet.set_animation(Animation::Neon);
    packet.set_speed(Speed::Five);
    packet.set_brightness(Brightness::Two);
    packet.set_color(Color::new(255, 255, 255));
    packet.set_color_mix(true);
    packet.set_sleep(Sleep::ThirtyMinutes);
    assert_eq!(&packet.steps.data[..5], &[0x0A, 0x01, 0x01, 0x02, 0x29]);
    assert_eq!(packet.steps.data[5], 18);
    assert_eq!(packet.steps.data[6], 0x00);
    assert!(packet.steps.data[14..].iter().all(|byte| *byte == 0));
}

#[test]
fn speed_and_brightness_and_color_keep_the_header() {
    let mut packet = AnimationPacket::new();
    packet.set_speed(Speed::Five);
    packet.set_brightness(Brightness::Two);
    packet.set_color(Color::new(255, 255, 255));
    assert_eq!(
        &packet.steps.data[..7],
        &[0x0A, 0x01, 0x01, 0x02, 0x29, 0x01, 0x00]
    );
}

#[test]
fn color_setters_keep_the_headers() {
    let mut packet = ColorPacket::new();
    packet.set_color(Color::new(255, 255, 255));
    for (number, step) in packet.steps.steps().into_iter().enumerate() {
        assert_eq!(&step[..3], &[0x0A, 0x07, number as u8 + 1]);
    }
    assert_eq!(&packet.steps.data[3..6], &[0x03, 0x7E, 2]);
}

#[test]
fn packets_know_their_form() {
    let mut color = ColorPacket::new();
    assert!(color.is_wf());
    color.steps.step_count = 5;
    color.steps.step_len = 91;
    assert!(!color.is_wf());
    let mut animation = AnimationPacket::new();
    assert!(animation.is_wf());
    animation.steps.step_count = 5;
    animation.steps.step_len = 13;
    assert!(!animation.is_wf());
}
