use rog_lighting::builtin_modes::{
    AuraEffect, AuraModeNum, AuraZone, Colour, Direction, LedBrightness, Speed,
    AURA_LAPTOP_LED_MSG_LEN,
};
use rog_lighting::error::Error;
use std::str::FromStr;

#[test]
fn led_brightness_scales_for_dynamic_lighting() {
    assert_eq!(LedBrightness::Off.to_scaled(255), 0);
    assert_eq!(LedBrightness::Low.to_scaled(255), 85);
    assert_eq!(LedBrightness::Med.to_scaled(255), 170);
    assert_eq!(LedBrightness::High.to_scaled(255), 255);

    assert_eq!(LedBrightness::from_scaled(0, 255), LedBrightness::Off);
    assert_eq!(LedBrightness::from_scaled(85, 255), LedBrightness::Low);
    assert_eq!(LedBrightness::from_scaled(170, 255), LedBrightness::Med);
    assert_eq!(LedBrightness::from_scaled(255, 255), LedBrightness::High);

    // Legacy 0..=3 path when max_brightness is small.
    assert_eq!(LedBrightness::Med.to_scaled(3), 2);
    assert_eq!(LedBrightness::from_scaled(2, 3), LedBrightness::Med);
    assert_eq!(LedBrightness::High.to_scaled(3), 3);
}

#[test]
fn check_led_static_packet() {
    let st = AuraEffect {
        mode: AuraModeNum::Static,
        zone: AuraZone::NoZone,
        colour1: Colour {
            r: 0xff,
            g: 0x11,
            b: 0xdd,
        },
        colour2: Colour::default(),
        speed: Speed::Med,
        direction: Direction::Right,
    };
    let ar = <[u8; AURA_LAPTOP_LED_MSG_LEN]>::from(&st);

    println!("{:02x?}", ar);
    let check = [
        0x5d, 0xb3, 0x0, 0x0, 0xff, 0x11, 0xdd, 0xeb, 0x0, 0x0, 0xa6, 0x0, 0x0, 0x0, 0x0, 0x0,
        0x0,
    ];
    assert_eq!(ar, check);
}

#[test]
fn check_led_static_zone_packet() {
    let mut st = AuraEffect {
        mode: AuraModeNum::Static,
        zone: AuraZone::Key1,
        colour1: Colour {
            r: 0xff,
            g: 0,
            b: 0,
        },
        colour2: Colour { r: 0, g: 0, b: 0 },
        speed: Speed::Low,
        direction: Direction::Left,
    };
    let capture = [
        0x5d, 0xb3, 0x01, 0x00, 0xff, 0x00, 0x00, 0xe1, 0x01, 0x0, 0x0, 0x0, 0x0, 0x0, 0x0, 0x0,
        0x0,
    ];
    assert_eq!(<[u8; AURA_LAPTOP_LED_MSG_LEN]>::from(&st)[..9], capture[..9]);

    st.zone = AuraZone::Key2;
    st.colour1 = Colour {
        r: 0xff,
        g: 0xff,
        b: 0,
    };
    let capture = [
        0x5d, 0xb3, 0x02, 0x00, 0xff, 0xff, 0x00, 0xe1, 0x01, 0x0, 0x0, 0x0, 0x0, 0x0, 0x0, 0x0,
        0x0,
    ];
    assert_eq!(<[u8; AURA_LAPTOP_LED_MSG_LEN]>::from(&st)[..9], capture[..9]);

    st.zone = AuraZone::Key3;
    st.colour1 = Colour {
        r: 0,
        g: 0xff,
        b: 0xff,
    };
    let capture = [
        0x5d, 0xb3, 0x03, 0x00, 0x00, 0xff, 0xff, 0xe1, 0x01, 0x0, 0x0, 0x0, 0x0, 0x0, 0x0, 0x0,
        0x0,
    ];
    assert_eq!(<[u8; AURA_LAPTOP_LED_MSG_LEN]>::from(&st)[..9], capture[..9]);

    st.zone = AuraZone::Key4;
    st.colour1 = Colour {
        r: 0xff,
        g: 0x00,
        b: 0xff,
    };
    let capture = [
        0x5d, 0xb3, 0x04, 0x00, 0xff, 0x00, 0xff, 0xe1, 0x01, 0x0, 0x0, 0x0, 0x0, 0x0, 0x0, 0x0,
        0x0,
    ];
    assert_eq!(<[u8; AURA_LAPTOP_LED_MSG_LEN]>::from(&st)[..9], capture[..9]);

    st.zone = AuraZone::Logo;
    st.colour1 = Colour {
        r: 0x2c,
        g: 0xff,
        b: 0x00,
    };
    let capture = [
        0x5d, 0xb3, 0x05, 0x00, 0x2c, 0xff, 0x00, 0xe1, 0x01, 0x0, 0x0, 0x0, 0x0, 0x0, 0x0, 0x0,
        0x0,
    ];
    assert_eq!(<[u8; AURA_LAPTOP_LED_MSG_LEN]>::from(&st)[..9], capture[..9]);

    st.zone = AuraZone::BarLeft;
    st.colour1 = Colour {
        r: 0xff,
        g: 0x00,
        b: 0x00,
    };
    let capture = [
        0x5d, 0xb3, 0x06, 0x00, 0xff, 0x00, 0x00, 0xe1, 0x01, 0x0, 0x0, 0x0, 0x0, 0x0, 0x0, 0x0,
        0x0,
    ];
    assert_eq!(<[u8; AURA_LAPTOP_LED_MSG_LEN]>::from(&st)[..9], capture[..9]);

    st.zone = AuraZone::BarRight;
    st.colour1 = Colour {
        r: 0xff,
        g: 0x00,
        b: 0xcd,
    };
    let capture = [
        0x5d, 0xb3, 0x07, 0x00, 0xff, 0x00, 0xcd, 0xe1, 0x01, 0x0, 0x0, 0x0, 0x0, 0x0, 0x0, 0x0,
        0x0,
    ];
    assert_eq!(<[u8; AURA_LAPTOP_LED_MSG_LEN]>::from(&st)[..9], capture[..9]);

    st.mode = AuraModeNum::RainbowWave;
    let capture = [
        0x5d, 0xb3, 0x07, 0x03, 0xff, 0x00, 0xcd, 0xe1, 0x01, 0x0, 0x0, 0x0, 0x0, 0x0, 0x0, 0x0,
        0x0,
    ];
    assert_eq!(<[u8; AURA_LAPTOP_LED_MSG_LEN]>::from(&st)[..9], capture[..9]);
}

#[test]
fn test_dynamic_lighting_conversions() {
    assert_eq!(AuraModeNum::Static.to_dynamic_effect_str(), Some("static"));
    assert_eq!(AuraModeNum::Breathe.to_dynamic_effect_str(), Some("breathing"));
    assert_eq!(AuraModeNum::RainbowCycle.to_dynamic_effect_str(), Some("spectrum_cycle"));
    assert_eq!(AuraModeNum::RainbowWave.to_dynamic_effect_str(), Some("rainbow"));
    assert_eq!(AuraModeNum::Pulse.to_dynamic_effect_str(), Some("strobe"));
    assert_eq!(AuraModeNum::Flash.to_dynamic_effect_str(), Some("strobe"));
    assert_eq!(AuraModeNum::Star.to_dynamic_effect_str(), None);

    assert_eq!(AuraModeNum::from_dynamic_effect_str("static"), Some(AuraModeNum::Static));
    assert_eq!(AuraModeNum::from_dynamic_effect_str("breathing"), Some(AuraModeNum::Breathe));
    assert_eq!(
        AuraModeNum::from_dynamic_effect_str("spectrum_cycle"),
        Some(AuraModeNum::RainbowCycle)
    );
    assert_eq!(AuraModeNum::from_dynamic_effect_str("rainbow"), Some(AuraModeNum::RainbowWave));
    assert_eq!(AuraModeNum::from_dynamic_effect_str("strobe"), Some(AuraModeNum::Pulse));
    assert_eq!(AuraModeNum::from_dynamic_effect_str("unknown"), None);

    assert_eq!(Speed::Low.to_dynamic_speed(), 0);
    assert_eq!(Speed::Med.to_dynamic_speed(), 1);
    assert_eq!(Speed::High.to_dynamic_speed(), 2);
    assert_eq!(Speed::from_dynamic_speed(0), Speed::Low);
    assert_eq!(Speed::from_dynamic_speed(1), Speed::Med);
    assert_eq!(Speed::from_dynamic_speed(2), Speed::High);

    assert_eq!(Direction::Right.to_dynamic_direction_str(), "right");
    assert_eq!(Direction::Left.to_dynamic_direction_str(), "left");
    assert_eq!(Direction::Up.to_dynamic_direction_str(), "up");
    assert_eq!(Direction::Down.to_dynamic_direction_str(), "down");
    assert_eq!(Direction::from_dynamic_direction_str("left"), Direction::Left);
    assert_eq!(Direction::from_dynamic_direction_str("right"), Direction::Right);

    let effect = AuraEffect {
        colour1: Colour {
            r: 0xff,
            g: 0x10,
            b: 0x20,
        },
        colour2: Colour {
            r: 0x00,
            g: 0x30,
            b: 0x40,
        },
        ..Default::default()
    };
    let palette = effect.to_dynamic_palette();
    assert_eq!(palette, vec![(0xff, 0x10, 0x20), (0x00, 0x30, 0x40)]);
}

#[test]
fn brightness_next_and_prev_cycle() {
    let all = [
        LedBrightness::Off,
        LedBrightness::Low,
        LedBrightness::Med,
        LedBrightness::High,
    ];
    for b in all {
        assert_eq!(b.next().prev(), b);
        assert_eq!(b.prev().next(), b);
        assert_eq!(b.next().next().next().next(), b);
    }
    assert_eq!(LedBrightness::High.next(), LedBrightness::Off);
    assert_eq!(LedBrightness::Off.prev(), LedBrightness::High);
}

#[test]
fn brightness_scaling_round_trips_for_every_maximum() {
    let all = [
        LedBrightness::Off,
        LedBrightness::Low,
        LedBrightness::Med,
        LedBrightness::High,
    ];
    for max in 0..=255u8 {
        for b in all {
            assert_eq!(LedBrightness::from_scaled(b.to_scaled(max), max), b);
        }
    }
    assert_eq!(LedBrightness::Low.to_scaled(100), 33);
    assert_eq!(LedBrightness::Med.to_scaled(100), 66);
    assert_eq!(LedBrightness::from_scaled(34, 100), LedBrightness::Med);
    assert_eq!(LedBrightness::from_scaled(67, 100), LedBrightness::High);
}

#[test]
fn brightness_integer_conversions() {
    assert_eq!(LedBrightness::from(0u8), LedBrightness::Off);
    assert_eq!(LedBrightness::from(2u8), LedBrightness::Med);
    assert_eq!(LedBrightness::from(3u8), LedBrightness::High);
    assert_eq!(LedBrightness::from(9u8), LedBrightness::Med);
    assert_eq!(u8::from(LedBrightness::High), 3);
    assert_eq!(i32::from(LedBrightness::Low), 1);
    assert_eq!(LedBrightness::from(-1i32), LedBrightness::Med);
    assert_eq!(LedBrightness::default(), LedBrightness::Med);
}

#[test]
fn colour_parsing() {
    assert_eq!(Colour::from_str("ff8000").unwrap(), Colour { r: 0xff, g: 0x80, b: 0x00 });
    assert_eq!(Colour::from_str("A0b1C2zz").unwrap(), Colour { r: 0xa0, g: 0xb1, b: 0xc2 });
    assert_eq!(Colour::from_str("ff80").unwrap_err(), Error::ParseColour);
    assert_eq!(Colour::from_str("ff80g0").unwrap_err(), Error::ParseColour);
    assert_eq!(Colour::from_str("éééééé").unwrap_err(), Error::ParseColour);
    assert_eq!(Colour::default(), Colour { r: 166, g: 0, b: 0 });
    assert_eq!(<[u8; 3]>::from(Colour { r: 1, g: 2, b: 3 }), [1, 2, 3]);
    assert_eq!(Colour::from(&[4u8, 5, 6]), Colour { r: 4, g: 5, b: 6 });
}

#[test]
fn speed_direction_zone_parsing() {
    assert_eq!(Speed::from_str("LOW").unwrap(), Speed::Low);
    assert_eq!(Speed::from_str("High").unwrap(), Speed::High);
    assert_eq!(Speed::from_str("fast").unwrap_err(), Error::ParseSpeed);
    assert_eq!(Direction::from_str("Up").unwrap(), Direction::Up);
    assert_eq!(Direction::from_str("sideways").unwrap_err(), Error::ParseDirection);
    assert_eq!(Direction::from_dynamic_direction_str("DOWN"), Direction::Down);
    assert_eq!(Direction::from_dynamic_direction_str("sideways"), Direction::Right);
    assert_eq!(AuraZone::from_str("Lightbar").unwrap(), AuraZone::BarLeft);
    assert_eq!(AuraZone::from_str("7").unwrap(), AuraZone::BarRight);
    assert_eq!(AuraZone::from_str("none").unwrap(), AuraZone::NoZone);
    // An unknown zone is reported as a speed parse error, as it always was.
    assert_eq!(AuraZone::from_str("middle").unwrap_err(), Error::ParseSpeed);
}

#[test]
fn integer_conversions_round_trip() {
    for s in [Speed::Low, Speed::Med, Speed::High] {
        assert_eq!(Speed::from(i32::from(s)), s);
        assert_eq!(Speed::from_dynamic_speed(s.to_dynamic_speed()), s);
    }
    assert_eq!(u8::from(Speed::High), 2);
    assert_eq!(Speed::from(7), Speed::Med);
    for d in [Direction::Right, Direction::Left, Direction::Up, Direction::Down] {
        assert_eq!(Direction::from(i32::from(d)), d);
        assert_eq!(Direction::from_dynamic_direction_str(d.to_dynamic_direction_str()), d);
    }
    for z in [
        AuraZone::NoZone,
        AuraZone::Key1,
        AuraZone::Key2,
        AuraZone::Key3,
        AuraZone::Key4,
        AuraZone::Logo,
        AuraZone::BarLeft,
        AuraZone::BarRight,
    ] {
        assert_eq!(AuraZone::from(i32::from(z)), z);
    }
    assert_eq!(AuraZone::from(42), AuraZone::NoZone);
}

#[test]
fn mode_names_and_numbers() {
    let all = [
        AuraModeNum::Static,
        AuraModeNum::Breathe,
        AuraModeNum::RainbowCycle,
        AuraModeNum::RainbowWave,
        AuraModeNum::Star,
        AuraModeNum::Rain,
        AuraModeNum::Highlight,
        AuraModeNum::Laser,
        AuraModeNum::Ripple,
        AuraModeNum::Pulse,
        AuraModeNum::Comet,
        AuraModeNum::Flash,
    ];
    for m in all {
        assert_eq!(AuraModeNum::from(i32::from(m)), m);
        assert_eq!(AuraModeNum::from(m.as_str()), m);
        if let Some(name) = m.to_dynamic_effect_str() {
            let back = AuraModeNum::from_dynamic_effect_str(name).unwrap();
            if m == AuraModeNum::Flash {
                assert_eq!(back, AuraModeNum::Pulse);
            } else {
                assert_eq!(back, m);
            }
        }
    }
    assert_eq!(AuraModeNum::Star.as_str(), "Stars");
    assert_eq!(AuraModeNum::Star.to_name_string(), "Stars");
    assert_eq!(i32::from(AuraModeNum::Pulse), 10);
    assert_eq!(AuraModeNum::from(9u8), AuraModeNum::Static);
    assert_eq!(AuraModeNum::from(258i32), AuraModeNum::RainbowCycle);
    assert_eq!(AuraModeNum::from("nonsense"), AuraModeNum::Static);
    assert_eq!(AuraModeNum::from_dynamic_effect_str("STROBE"), Some(AuraModeNum::Pulse));
}

#[test]
fn effect_helpers_and_packet_vec() {
    let e = AuraEffect::default_with_mode(AuraModeNum::Comet);
    assert_eq!(*e.mode(), AuraModeNum::Comet);
    assert_eq!(e.zone(), AuraZone::NoZone);
    assert_eq!(e.to_dynamic_palette(), vec![(166, 0, 0)]);
    assert_eq!(AuraModeNum::from(e), AuraModeNum::Comet);
    let v = e.to_packet_vec();
    assert_eq!(v.len(), AURA_LAPTOP_LED_MSG_LEN);
    assert_eq!(&v[..9], &[0x5d, 0xb3, 0, 11, 166, 0, 0, 0xeb, 0]);
}

#[test]
fn lowercase_direction_and_zone_parsers() {
    assert_eq!(Direction::parse_lowercase("up").unwrap(), Direction::Up);
    assert_eq!(Direction::parse_lowercase("Up"), Err(Error::ParseDirection));
    assert_eq!(AuraZone::parse_lowercase("lightbar-RIGHT").unwrap(), AuraZone::BarRight);
    assert_eq!(AuraZone::parse_lowercase("3").unwrap(), AuraZone::Key3);
    assert_eq!(AuraZone::parse_lowercase("middle"), Err(Error::ParseSpeed));
}

#[test]
fn public_parsers_read_back_kernel_names() {
    for d in [Direction::Right, Direction::Left, Direction::Up, Direction::Down] {
        assert_eq!(Direction::from_dynamic_direction_str(d.to_dynamic_direction_str()), d);
        assert_eq!(Direction::parse(d.to_dynamic_direction_str()), Ok(d));
    }
    assert_eq!(
        AuraModeNum::from_dynamic_effect_str(AuraModeNum::Flash.to_dynamic_effect_str().unwrap()),
        Some(AuraModeNum::Pulse)
    );
    assert_eq!(
        AuraModeNum::from_dynamic_effect_str(AuraModeNum::RainbowCycle.to_dynamic_effect_str().unwrap()),
        Some(AuraModeNum::RainbowCycle)
    );
}
