use llm_vn::character::{scale_channel, Colour};
use llm_vn::icd::{
    rgb666_from_u32, rgb666_to_u32, ButtonAction, CharacterDetails, ChoiceScreen, Rgb666,
};

#[test]
fn colour_packs_into_raw_bit_positions() {
    // Red sits in bits 12..18, green in 6..12, blue in 0..6.
    assert_eq!(rgb666_to_u32(Rgb666 { r: 0b100001, g: 0, b: 0 }), 0b100001 << 12);
    assert_eq!(rgb666_to_u32(Rgb666 { r: 0, g: 0b100001, b: 0 }), 0b100001 << 6);
    assert_eq!(rgb666_to_u32(Rgb666 { r: 0, g: 0, b: 0b100001 }), 0b100001);
    assert_eq!(rgb666_to_u32(Rgb666 { r: 63, g: 63, b: 63 }), 0x3FFFF);
}

#[test]
fn colour_round_trips_through_raw_value() {
    let c = Rgb666 { r: 17, g: 42, b: 5 };
    assert_eq!(rgb666_from_u32(rgb666_to_u32(c)), c);
}

#[test]
fn channel_scaling_rounds_to_nearest() {
    assert_eq!(scale_channel(0), 0);
    assert_eq!(scale_channel(255), 63);
    assert_eq!(scale_channel(128), 32);
    assert_eq!(scale_channel(4), 1);
}

#[test]
fn character_details_carry_name_and_theme() {
    let details = CharacterDetails::new(
        Rgb666 { r: 63, g: 0, b: 0 },
        Rgb666 { r: 0, g: 63, b: 0 },
        Rgb666 { r: 0, g: 0, b: 63 },
        String::from("Ada"),
        String::from("An engineer."),
    );
    assert_eq!(details.name, "Ada");
    assert_eq!(details.description, "An engineer.");
    assert_eq!(details.text_colour(), Rgb666 { r: 63, g: 0, b: 0 });
    assert_eq!(details.background_colour(), Rgb666 { r: 0, g: 63, b: 0 });
    assert_eq!(details.margin_colour(), Rgb666 { r: 0, g: 0, b: 63 });
}

#[test]
fn choice_screen_hands_back_each_choice() {
    let c = Rgb666 { r: 1, g: 2, b: 3 };
    let screen = ChoiceScreen::new(
        c,
        c,
        c,
        String::from("one"),
        String::from("two"),
        String::from("three"),
    );
    assert_eq!(screen.choice_text(0), "one");
    assert_eq!(screen.choice_text(1), "two");
    assert_eq!(screen.choice_text(2), "three");
    assert_eq!(screen.text_colour(), c);
    assert_eq!(screen.background_colour(), c);
    assert_eq!(screen.margin_colour(), c);
}

#[test]
fn character_colours_reduce_to_display_format() {
    let character = llm_vn::character::Character::new(
        String::from("Ada"),
        String::from("d"),
        String::from("m"),
        Colour { r: 255, g: 0, b: 128 },
        Colour { r: 0, g: 0, b: 0 },
        Colour { r: 255, g: 255, b: 255 },
        vec![String::from("a"), String::from("b"), String::from("c")],
    );
    assert_eq!(character.text_colour(), Rgb666 { r: 63, g: 0, b: 32 });
    assert_eq!(character.background_colour(), Rgb666 { r: 0, g: 0, b: 0 });
    assert_eq!(character.border_colour(), Rgb666 { r: 63, g: 63, b: 63 });
}

#[test]
fn button_actions_are_the_four_named_values() {
    let all = [
        ButtonAction::Fn1,
        ButtonAction::Fn2,
        ButtonAction::Fn3,
        ButtonAction::EndConversation,
    ];
    for (i, a) in all.iter().enumerate() {
        for (j, b) in all.iter().enumerate() {
            assert_eq!(a == b, i == j);
        }
    }
}
