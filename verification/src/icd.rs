//! Protocol message catalogue shared by the controller and the host: the
//! screen values carried by the `SetDisplay` endpoint and the button action
//! carried by the `ButtonActionPerformed` topic.

use vstd::prelude::*;

verus! {

/// A named action decoded from a single valid button press.
#[derive(Clone, Copy, Debug, PartialEq, Eq, Structural)]
pub enum ButtonAction {
    Fn1,
    Fn2,
    Fn3,
    EndConversation,
}

/// A colour in the display's native 6-bits-per-channel format.
#[derive(Clone, Copy, Debug, PartialEq, Eq, Structural)]
pub struct Rgb666 {
    pub r: u8,
    pub g: u8,
    pub b: u8,
}

impl Rgb666 {
    /// Each channel fits in 6 bits.
    pub open spec fn wf(self) -> bool {
        self.r < 64 && self.g < 64 && self.b < 64
    }
}

/// The 24-bit raw value of a 6-bit-per-channel colour: red in bits 12..18,
/// green in bits 6..12, blue in bits 0..6.
pub open spec fn rgb666_packed(c: Rgb666) -> u32
    recommends
        c.wf(),
{
    ((c.r as int) * 4096 + (c.g as int) * 64 + (c.b as int)) as u32
}

/// The colour stored in a 24-bit raw value, inverse of [`rgb666_packed`].
pub open spec fn rgb666_unpacked(v: u32) -> Rgb666 {
    Rgb666 { r: (v / 4096 % 64) as u8, g: (v / 64 % 64) as u8, b: (v % 64) as u8 }
}

/// Packs a colour into its 24-bit raw value.
pub fn rgb666_to_u32(c: Rgb666) -> (v: u32)
    requires
        c.wf(),
    ensures
        v == rgb666_packed(c),
        v < 262144,
{
    (c.r as u32) * 4096 + (c.g as u32) * 64 + (c.b as u32)
}

/// Recovers a colour from its 24-bit raw value.
pub fn rgb666_from_u32(v: u32) -> (c: Rgb666)
    ensures
        c == rgb666_unpacked(v),
        c.wf(),
{
    Rgb666 { r: (v / 4096 % 64) as u8, g: (v / 64 % 64) as u8, b: (v % 64) as u8 }
}

/// Packing then unpacking returns the same well-formed colour.
pub proof fn lemma_rgb666_round_trip(c: Rgb666)
    requires
        c.wf(),
    ensures
        rgb666_unpacked(rgb666_packed(c)) == c,
{
}

/// Details of one character as shown on the character-select screen.
#[derive(Debug)]
pub struct CharacterDetails {
    text_colour: u32,
    background_colour: u32,
    margin_colour: u32,
    pub name: String,
    pub description: String,
}

/// Mathematical value of a [`CharacterDetails`].
pub struct CharacterDetailsView {
    pub text_colour: u32,
    pub background_colour: u32,
    pub margin_colour: u32,
    pub name: Seq<char>,
    pub description: Seq<char>,
}

impl View for CharacterDetails {
    type V = CharacterDetailsView;

    closed spec fn view(&self) -> CharacterDetailsView {
        CharacterDetailsView {
            text_colour: self.text_colour,
            background_colour: self.background_colour,
            margin_colour: self.margin_colour,
            name: self.name@,
            description: self.description@,
        }
    }
}

impl CharacterDetailsView {
    /// The name fits the device's 32-character field and the description its
    /// 512-character field.
    pub open spec fn wf(self) -> bool {
        self.name.len() <= 32 && self.description.len() <= 512
    }
}

impl CharacterDetails {
    pub fn new(
        text_colour: Rgb666,
        background_colour: Rgb666,
        margin_colour: Rgb666,
        name: String,
        description: String,
    ) -> (r: Self)
        requires
            text_colour.wf(),
            background_colour.wf(),
            margin_colour.wf(),
            name@.len() <= 32,
            description@.len() <= 512,
        ensures
            r@ == (CharacterDetailsView {
                text_colour: rgb666_packed(text_colour),
                background_colour: rgb666_packed(background_colour),
                margin_colour: rgb666_packed(margin_colour),
                name: name@,
                description: description@,
            }),
            r@.wf(),
    {
        Self {
            text_colour: rgb666_to_u32(text_colour),
            background_colour: rgb666_to_u32(background_colour),
            margin_colour: rgb666_to_u32(margin_colour),
            name,
            description,
        }
    }

    pub fn text_colour(&self) -> (c: Rgb666)
        ensures
            c == rgb666_unpacked(self@.text_colour),
    {
        rgb666_from_u32(self.text_colour)
    }

    pub fn background_colour(&self) -> (c: Rgb666)
        ensures
            c == rgb666_unpacked(self@.background_colour),
    {
        rgb666_from_u32(self.background_colour)
    }

    pub fn margin_colour(&self) -> (c: Rgb666)
        ensures
            c == rgb666_unpacked(self@.margin_colour),
    {
        rgb666_from_u32(self.margin_colour)
    }
}

impl Clone for CharacterDetails {
    fn clone(&self) -> (r: Self)
        ensures
            r@ == self@,
    {
        CharacterDetails {
            text_colour: self.text_colour,
            background_colour: self.background_colour,
            margin_colour: self.margin_colour,
            name: self.name.clone(),
            description: self.description.clone(),
        }
    }
}

/// The character-select screen: the previous, selected and next characters of
/// the carousel.
#[derive(Debug)]
pub struct CharacterSelectScreen {
    pub prev: CharacterDetails,
    pub selected: CharacterDetails,
    pub next: CharacterDetails,
}

/// Mathematical value of a [`CharacterSelectScreen`].
pub struct CharacterSelectScreenView {
    pub prev: CharacterDetailsView,
    pub selected: CharacterDetailsView,
    pub next: CharacterDetailsView,
}

impl View for CharacterSelectScreen {
    type V = CharacterSelectScreenView;

    open spec fn view(&self) -> CharacterSelectScreenView {
        CharacterSelectScreenView { prev: self.prev@, selected: self.selected@, next: self.next@ }
    }
}

impl Clone for CharacterSelectScreen {
    fn clone(&self) -> (r: Self)
        ensures
            r@ == self@,
    {
        CharacterSelectScreen {
            prev: self.prev.clone(),
            selected: self.selected.clone(),
            next: self.next.clone(),
        }
    }
}

/// The choices screen: three reply texts in the selected character's colours.
#[derive(Debug)]
pub struct ChoiceScreen {
    text_colour: u32,
    background_colour: u32,
    margin_colour: u32,
    choice_1: String,
    choice_2: String,
    choice_3: String,
}

/// Mathematical value of a [`ChoiceScreen`].
pub struct ChoiceScreenView {
    pub text_colour: u32,
    pub background_colour: u32,
    pub margin_colour: u32,
    pub choice_1: Seq<char>,
    pub choice_2: Seq<char>,
    pub choice_3: Seq<char>,
}

impl View for ChoiceScreen {
    type V = ChoiceScreenView;

    closed spec fn view(&self) -> ChoiceScreenView {
        ChoiceScreenView {
            text_colour: self.text_colour,
            background_colour: self.background_colour,
            margin_colour: self.margin_colour,
            choice_1: self.choice_1@,
            choice_2: self.choice_2@,
            choice_3: self.choice_3@,
        }
    }
}

impl ChoiceScreenView {
    /// Each choice fits the device's 256-character field.
    pub open spec fn wf(self) -> bool {
        self.choice_1.len() <= 256 && self.choice_2.len() <= 256 && self.choice_3.len() <= 256
    }

    /// The choice text at a position, counted from zero.
    pub open spec fn choice(self, idx: int) -> Seq<char>
        recommends
            0 <= idx < 3,
    {
        if idx == 0 {
            self.choice_1
        } else if idx == 1 {
            self.choice_2
        } else {
            self.choice_3
        }
    }
}

impl ChoiceScreen {
    pub fn new(
        text_colour: Rgb666,
        background_colour: Rgb666,
        margin_colour: Rgb666,
        choice_1: String,
        choice_2: String,
        choice_3: String,
    ) -> (r: Self)
        requires
            text_colour.wf(),
            background_colour.wf(),
            margin_colour.wf(),
            choice_1@.len() <= 256,
            choice_2@.len() <= 256,
            choice_3@.len() <= 256,
        ensures
            r@ == (ChoiceScreenView {
                text_colour: rgb666_packed(text_colour),
                background_colour: rgb666_packed(background_colour),
                margin_colour: rgb666_packed(margin_colour),
                choice_1: choice_1@,
                choice_2: choice_2@,
                choice_3: choice_3@,
            }),
            r@.wf(),
    {
        Self {
            text_colour: rgb666_to_u32(text_colour),
            background_colour: rgb666_to_u32(background_colour),
            margin_colour: rgb666_to_u32(margin_colour),
            choice_1,
            choice_2,
            choice_3,
        }
    }

    pub fn text_colour(&self) -> (c: Rgb666)
        ensures
            c == rgb666_unpacked(self@.text_colour),
    {
        rgb666_from_u32(self.text_colour)
    }

    pub fn background_colour(&self) -> (c: Rgb666)
        ensures
            c == rgb666_unpacked(self@.background_colour),
    {
        rgb666_from_u32(self.background_colour)
    }

    pub fn margin_colour(&self) -> (c: Rgb666)
        ensures
            c == rgb666_unpacked(self@.margin_colour),
    {
        rgb666_from_u32(self.margin_colour)
    }

    pub fn choice_text(&self, idx: usize) -> (r: &str)
        requires
            idx < 3,
        ensures
            r@ == self@.choice(idx as int),
    {
        if idx == 0 {
            self.choice_1.as_str()
        } else if idx == 1 {
            self.choice_2.as_str()
        } else {
            self.choice_3.as_str()
        }
    }
}

impl Clone for ChoiceScreen {
    fn clone(&self) -> (r: Self)
        ensures
            r@ == self@,
    {
        ChoiceScreen {
            text_colour: self.text_colour,
            background_colour: self.background_colour,
            margin_colour: self.margin_colour,
            choice_1: self.choice_1.clone(),
            choice_2: self.choice_2.clone(),
            choice_3: self.choice_3.clone(),
        }
    }
}

/// The single value type carried by the `SetDisplay` endpoint: one of the two
/// full-screen snapshots.
#[derive(Debug)]
pub enum Screen {
    CharacterSelect(CharacterSelectScreen),
    Choices(ChoiceScreen),
}

/// Mathematical value of a [`Screen`].
pub enum ScreenView {
    CharacterSelect(CharacterSelectScreenView),
    Choices(ChoiceScreenView),
}

impl View for Screen {
    type V = ScreenView;

    open spec fn view(&self) -> ScreenView {
        match self {
            Screen::CharacterSelect(s) => ScreenView::CharacterSelect(s@),
            Screen::Choices(s) => ScreenView::Choices(s@),
        }
    }
}

impl Clone for Screen {
    fn clone(&self) -> (r: Self)
        ensures
            r@ == self@,
    {
        match self {
            Screen::CharacterSelect(s) => Screen::CharacterSelect(s.clone()),
            Screen::Choices(s) => Screen::Choices(s.clone()),
        }
    }
}

} // verus!
