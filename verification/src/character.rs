//! The configured character collection: colours, opening lines, the circular
//! carousel subset shown on the select screen, and the screens built from a
//! character's theme.

use vstd::prelude::*;

use vstd::string::StrSliceExecFns;

use crate::conversation::VnOutput;
use crate::icd::{
    rgb666_packed, CharacterDetails, CharacterDetailsView, ChoiceScreen, ChoiceScreenView, Rgb666,
};

verus! {

/// An 8-bit-per-channel colour, as configured for a character.
#[derive(Clone, Copy, Debug, PartialEq, Eq, Structural)]
pub struct Colour {
    pub r: u8,
    pub g: u8,
    pub b: u8,
}

/// One 8-bit channel scaled to 6 bits, rounding to nearest: the fixed-point
/// form of `round(v * 63 / 255)` used by the display pipeline.
pub open spec fn channel_scaled(v: u8) -> u8 {
    (((v as int) * (0x3F000000int / 255) + 0x800000) / 0x1000000) as u8
}

/// Scales one 8-bit channel to 6 bits, rounding to nearest.
pub fn scale_channel(v: u8) -> (r: u8)
    ensures
        r == channel_scaled(v),
        r < 64,
{
    let k: u32 = 0x3F000000 / 255;
    (((v as u32) * k + 0x800000) / 0x1000000) as u8
}

/// An 8-bit colour reduced to the display's 6-bit-per-channel format.
pub open spec fn colour_to_rgb666(c: Colour) -> Rgb666 {
    Rgb666 { r: channel_scaled(c.r), g: channel_scaled(c.g), b: channel_scaled(c.b) }
}

/// Reduces an 8-bit colour to the display's 6-bit-per-channel format.
pub fn reduce_colour(c: Colour) -> (r: Rgb666)
    ensures
        r == colour_to_rgb666(c),
        r.wf(),
{
    Rgb666 { r: scale_channel(c.r), g: scale_channel(c.g), b: scale_channel(c.b) }
}

/// The details record a character contributes to the character-select
/// screen: its name and description, with its theme colours packed in the
/// display's raw form.
pub open spec fn details_of(c: CharacterView) -> CharacterDetailsView {
    CharacterDetailsView {
        text_colour: rgb666_packed(colour_to_rgb666(c.text_colour)),
        background_colour: rgb666_packed(colour_to_rgb666(c.background_colour)),
        margin_colour: rgb666_packed(colour_to_rgb666(c.border_colour)),
        name: c.name,
        description: c.description,
    }
}

/// One configured character: identity, dialogue model, theme colours, and
/// the opening lines a conversation may start from.
#[derive(Debug)]
pub struct Character {
    pub name: String,
    pub description: String,
    pub model_name: String,
    text_colour: Colour,
    background_colour: Colour,
    border_colour: Colour,
    opening_lines: Vec<String>,
}

/// Mathematical value of a [`Character`].
pub struct CharacterView {
    pub name: Seq<char>,
    pub description: Seq<char>,
    pub model_name: Seq<char>,
    pub text_colour: Colour,
    pub background_colour: Colour,
    pub border_colour: Colour,
    pub opening_lines: Seq<Seq<char>>,
}

impl View for Character {
    type V = CharacterView;

    closed spec fn view(&self) -> CharacterView {
        CharacterView {
            name: self.name@,
            description: self.description@,
            model_name: self.model_name@,
            text_colour: self.text_colour,
            background_colour: self.background_colour,
            border_colour: self.border_colour,
            opening_lines: self.opening_lines@.map_values(|s: String| s@),
        }
    }
}

impl CharacterView {
    /// The limits the device's screens impose on a configured character: the
    /// name and description fit their fields, and there are at least three
    /// opening lines, each fitting a choice field.
    pub open spec fn wf(self) -> bool {
        &&& self.name.len() <= 32
        &&& self.description.len() <= 512
        &&& self.opening_lines.len() >= 3
        &&& forall|i: int|
            0 <= i < self.opening_lines.len() ==> #[trigger] self.opening_lines[i].len() <= 256
    }
}

impl Character {
    pub fn new(
        name: String,
        description: String,
        model_name: String,
        text_colour: Colour,
        background_colour: Colour,
        border_colour: Colour,
        opening_lines: Vec<String>,
    ) -> (r: Self)
        ensures
            r@ == (CharacterView {
                name: name@,
                description: description@,
                model_name: model_name@,
                text_colour,
                background_colour,
                border_colour,
                opening_lines: opening_lines@.map_values(|s: String| s@),
            }),
    {
        Character {
            name,
            description,
            model_name,
            text_colour,
            background_colour,
            border_colour,
            opening_lines,
        }
    }

    /// Checks the device limits that `CharacterView::wf` states.
    pub fn is_valid(&self) -> (r: bool)
        ensures
            r == self@.wf(),
    {
        if self.name.as_str().unicode_len() > 32 {
            return false;
        }
        if self.description.as_str().unicode_len() > 512 {
            return false;
        }
        if self.opening_lines.len() < 3 {
            return false;
        }
        let mut i: usize = 0;
        while i < self.opening_lines.len()
            invariant
                i <= self@.opening_lines.len(),
                self@.opening_lines.len() == self.opening_lines@.len(),
                forall|j: int| 0 <= j < i ==> #[trigger] self@.opening_lines[j].len() <= 256,
            decreases self.opening_lines@.len() - i,
        {
            assert(self@.opening_lines[i as int] == self.opening_lines@[i as int]@);
            if self.opening_lines[i].as_str().unicode_len() > 256 {
                return false;
            }
            i = i + 1;
        }
        true
    }

    pub fn text_colour(&self) -> (r: Rgb666)
        ensures
            r == colour_to_rgb666(self@.text_colour),
    {
        reduce_colour(self.text_colour)
    }

    pub fn background_colour(&self) -> (r: Rgb666)
        ensures
            r == colour_to_rgb666(self@.background_colour),
    {
        reduce_colour(self.background_colour)
    }

    pub fn border_colour(&self) -> (r: Rgb666)
        ensures
            r == colour_to_rgb666(self@.border_colour),
    {
        reduce_colour(self.border_colour)
    }

    /// Three of the character's opening lines, drawn at random without
    /// replacement, as the initial choice set of a conversation. The response
    /// field is empty: nothing has been said yet.
    pub fn starting_phrases(&self) -> (r: VnOutput)
        requires
            self@.wf(),
        ensures
            r@.response.len() == 0,
            exists|a: int, b: int, c: int|
                {
                    &&& 0 <= a < self@.opening_lines.len()
                    &&& 0 <= b < self@.opening_lines.len()
                    &&& 0 <= c < self@.opening_lines.len()
                    &&& a != b && a != c && b != c
                    &&& r@.user_reply_1 == self@.opening_lines[a]
                    &&& r@.user_reply_2 == self@.opening_lines[b]
                    &&& r@.user_reply_3 == self@.opening_lines[c]
                },
    {
        let picks = sample_three_indices(self.opening_lines.len());
        let a = picks.0;
        let b = picks.1;
        let c = picks.2;
        let r = VnOutput {
            response: String::new(),
            user_reply_1: self.opening_lines[a].clone(),
            user_reply_2: self.opening_lines[b].clone(),
            user_reply_3: self.opening_lines[c].clone(),
        };
        proof {
            assert(r@.user_reply_1 == self@.opening_lines[a as int]);
            assert(r@.user_reply_2 == self@.opening_lines[b as int]);
            assert(r@.user_reply_3 == self@.opening_lines[c as int]);
        }
        r
    }

    /// The choices screen showing the given replies in this character's
    /// colours.
    pub fn choice_screen(&self, last: &VnOutput) -> (r: ChoiceScreen)
        requires
            last@.user_reply_1.len() <= 256,
            last@.user_reply_2.len() <= 256,
            last@.user_reply_3.len() <= 256,
        ensures
            r@ == (ChoiceScreenView {
                text_colour: rgb666_packed(colour_to_rgb666(self@.text_colour)),
                background_colour: rgb666_packed(colour_to_rgb666(self@.background_colour)),
                margin_colour: rgb666_packed(colour_to_rgb666(self@.border_colour)),
                choice_1: last@.user_reply_1,
                choice_2: last@.user_reply_2,
                choice_3: last@.user_reply_3,
            }),
            r@.wf(),
    {
        ChoiceScreen::new(
            self.text_colour(),
            self.background_colour(),
            self.border_colour(),
            last.user_reply_1.clone(),
            last.user_reply_2.clone(),
            last.user_reply_3.clone(),
        )
    }

    /// This character as the details record carried on the character-select
    /// screen.
    pub fn details(&self) -> (r: CharacterDetails)
        requires
            self@.name.len() <= 32,
            self@.description.len() <= 512,
        ensures
            r@ == details_of(self@),
    {
        CharacterDetails::new(
            self.text_colour(),
            self.background_colour(),
            self.border_colour(),
            self.name.clone(),
            self.description.clone(),
        )
    }
}

impl Clone for Character {
    fn clone(&self) -> (r: Self)
        ensures
            r@ == self@,
    {
        let mut opening_lines: Vec<String> = Vec::new();
        let mut i: usize = 0;
        while i < self.opening_lines.len()
            invariant
                i <= self.opening_lines@.len(),
                opening_lines@ == self.opening_lines@.subrange(0, i as int),
            decreases self.opening_lines@.len() - i,
        {
            opening_lines.push(self.opening_lines[i].clone());
            proof {
                assert(opening_lines@ =~= self.opening_lines@.subrange(0, i + 1));
            }
            i = i + 1;
        }
        proof {
            assert(self.opening_lines@.subrange(0, self.opening_lines@.len() as int)
                =~= self.opening_lines@);
        }
        Character {
            name: self.name.clone(),
            description: self.description.clone(),
            model_name: self.model_name.clone(),
            text_colour: self.text_colour,
            background_colour: self.background_colour,
            border_colour: self.border_colour,
            opening_lines,
        }
    }
}

/// Relies on `rand::seq::index::sample`: exactly `amount` distinct indices
/// drawn from `0..length`, uniformly at random, returned in random order.
/// The indices are returned as a triple; nothing is promised of which indices
/// come back beyond their range and distinctness.
#[verifier::external_body]
fn sample_three_indices(n: usize) -> (r: (usize, usize, usize))
    requires
        n >= 3,
    ensures
        r.0 < n && r.1 < n && r.2 < n,
        r.0 != r.1 && r.0 != r.2 && r.1 != r.2,
{
    let mut rng = rand::rng();
    let picks = rand::seq::index::sample(&mut rng, n, 3);
    (picks.index(0), picks.index(1), picks.index(2))
}

/// The characters configured at startup, in their configured order.
#[derive(Debug)]
pub struct CharacterCollection {
    pub characters: Vec<Character>,
}

/// The index shown above the selected one on the carousel: one step back,
/// circularly.
pub open spec fn prev_index(n: int, i: int) -> int {
    if i == 0 {
        n - 1
    } else {
        i - 1
    }
}

/// The index shown below the selected one on the carousel: one step forward,
/// circularly.
pub open spec fn next_index(n: int, i: int) -> int {
    if i == n - 1 {
        0
    } else {
        i + 1
    }
}

impl CharacterCollection {
    /// A session needs at least three characters, so that the carousel always
    /// has a distinct previous, selected and next entry.
    pub open spec fn wf(self) -> bool {
        &&& self.characters@.len() >= 3
        &&& forall|i: int|
            0 <= i < self.characters@.len() ==> (#[trigger] self.characters@[i])@.wf()
    }

    pub fn new(characters: Vec<Character>) -> (r: Self)
        ensures
            r.characters@ == characters@,
    {
        CharacterCollection { characters }
    }

    /// Checks that the collection is usable: at least three characters, each
    /// within the device limits.
    pub fn is_valid(&self) -> (r: bool)
        ensures
            r == self.wf(),
    {
        if self.characters.len() < 3 {
            return false;
        }
        let mut i: usize = 0;
        while i < self.characters.len()
            invariant
                i <= self.characters@.len(),
                forall|j: int| 0 <= j < i ==> (#[trigger] self.characters@[j])@.wf(),
            decreases self.characters@.len() - i,
        {
            if !self.characters[i].is_valid() {
                return false;
            }
            i = i + 1;
        }
        true
    }

    /// The ordered triple (previous, selected, next) around a carousel index,
    /// by circular indexing into the collection.
    pub fn pick_subset(&self, idx: usize) -> (r: (&Character, &Character, &Character))
        requires
            self.wf(),
            idx < self.characters@.len(),
        ensures
            r.0@ == self.characters@[prev_index(self.characters@.len() as int, idx as int)]@,
            r.1@ == self.characters@[idx as int]@,
            r.2@ == self.characters@[next_index(self.characters@.len() as int, idx as int)]@,
    {
        let n = self.characters.len();
        let prev = if idx == 0 {
            n - 1
        } else {
            idx - 1
        };
        let next = if idx == n - 1 {
            0
        } else {
            idx + 1
        };
        (&self.characters[prev], &self.characters[idx], &self.characters[next])
    }
}

/// For a collection of at least three characters, the carousel triple always
/// names three distinct valid indices.
pub proof fn lemma_pick_indices_distinct(n: int, i: int)
    requires
        n >= 3,
        0 <= i < n,
    ensures
        0 <= prev_index(n, i) < n,
        0 <= next_index(n, i) < n,
        prev_index(n, i) != i,
        next_index(n, i) != i,
        prev_index(n, i) != next_index(n, i),
{
}

} // verus!
