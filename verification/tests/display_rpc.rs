use llm_vn::display::DisplaySlot;
use llm_vn::icd::{ChoiceScreen, Rgb666, Screen};
use llm_vn::rpc::{dispatch, handle_frame, Context, Request, Response};

fn choice_screen(first: &str) -> ChoiceScreen {
    let c = Rgb666 { r: 1, g: 2, b: 3 };
    ChoiceScreen::new(
        c,
        c,
        c,
        String::from(first),
        String::from("second"),
        String::from("third"),
    )
}

fn first_choice(s: &Screen) -> String {
    match s {
        Screen::Choices(c) => String::from(c.choice_text(0)),
        Screen::CharacterSelect(_) => panic!("expected a choices screen"),
    }
}

#[test]
fn reader_sees_nothing_before_first_write() {
    let mut slot = DisplaySlot::new();
    let mut reader = slot.take_reader().unwrap();
    assert!(reader.poll(&slot).is_none());
}

#[test]
fn only_one_reader_may_register() {
    let mut slot = DisplaySlot::new();
    assert!(slot.take_reader().is_some());
    assert!(
        slot.take_reader().is_none(),
        "registering a second reader is a configuration error"
    );
}

#[test]
fn reader_observes_last_of_many_writes() {
    let mut slot = DisplaySlot::new();
    let mut reader = slot.take_reader().unwrap();
    slot.write(Screen::Choices(choice_screen("one")));
    slot.write(Screen::Choices(choice_screen("two")));
    slot.write(Screen::Choices(choice_screen("three")));
    let seen = reader.poll(&slot).expect("a write happened since the last poll");
    assert_eq!(first_choice(&seen), "three");
    assert!(
        reader.poll(&slot).is_none(),
        "nothing new to observe until the next write"
    );
    slot.write(Screen::Choices(choice_screen("four")));
    let seen = reader.poll(&slot).expect("a write happened since the last poll");
    assert_eq!(first_choice(&seen), "four");
}

#[test]
fn ping_echoes_and_leaves_display_alone() {
    let mut ctx = Context {
        display: DisplaySlot::new(),
    };
    let mut reader = ctx.display.take_reader().unwrap();
    let r = dispatch(&mut ctx, Request::Ping(42));
    assert!(matches!(r, Response::Pong(42)));
    assert!(reader.poll(&ctx.display).is_none());
}

#[test]
fn set_display_overwrites_the_cell() {
    let mut ctx = Context {
        display: DisplaySlot::new(),
    };
    let mut reader = ctx.display.take_reader().unwrap();
    let r = dispatch(&mut ctx, Request::SetDisplay(Screen::Choices(choice_screen("hello"))));
    assert!(matches!(r, Response::DisplaySet));
    let seen = reader.poll(&ctx.display).expect("the endpoint wrote the cell");
    assert_eq!(first_choice(&seen), "hello");
}

#[test]
fn undecodable_frame_is_dropped_and_loop_continues() {
    let mut ctx = Context {
        display: DisplaySlot::new(),
    };
    assert!(handle_frame(&mut ctx, None).is_none());
    // The next frame is still served.
    let r = handle_frame(&mut ctx, Some(Request::Ping(7)));
    assert!(matches!(r, Some(Response::Pong(7))));
}
