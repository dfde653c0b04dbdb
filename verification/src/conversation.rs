//! Host-side conversation state: the structured output of the dialogue
//! collaborator, the punctuation sanitiser applied to it, and the transcript
//! that is persisted when a conversation ends.

use vstd::prelude::*;
use vstd::string::StrSliceExecFns;

use crate::character::Character;

verus! {

/// What one character becomes under sanitising: the non-ASCII punctuation the
/// dialogue collaborator tends to produce is normalised to its ASCII
/// equivalent, and every other character is kept.
pub open spec fn sanitised_char(c: char) -> Seq<char> {
    if c == '\u{2019}' {
        seq!['\'']
    } else if c == '\u{2013}' {
        seq!['-']
    } else if c == '\u{2014}' {
        seq!['-']
    } else if c == '\u{2026}' {
        seq!['.', '.', '.']
    } else {
        seq![c]
    }
}

/// A character sequence with each character sanitised, in order.
pub open spec fn sanitised(s: Seq<char>) -> Seq<char>
    decreases s.len(),
{
    if s.len() == 0 {
        Seq::empty()
    } else {
        sanitised_char(s[0]) + sanitised(s.skip(1))
    }
}

/// Sanitising distributes over appending one character at the end.
pub proof fn lemma_sanitised_push(s: Seq<char>, c: char)
    ensures
        sanitised(s.push(c)) == sanitised(s) + sanitised_char(c),
    decreases s.len(),
{
    if s.len() == 0 {
        assert(s.push(c)[0] == c);
        assert(s.push(c).skip(1) =~= Seq::<char>::empty());
        assert(sanitised(s.push(c)) == sanitised_char(c) + sanitised(Seq::<char>::empty()));
        assert(sanitised(Seq::<char>::empty()) == Seq::<char>::empty());
        assert(sanitised(s.push(c)) =~= sanitised(s) + sanitised_char(c));
    } else {
        assert(s.push(c)[0] == s[0]);
        assert(s.push(c).skip(1) =~= s.skip(1).push(c));
        lemma_sanitised_push(s.skip(1), c);
        assert(sanitised(s.push(c)) == sanitised_char(s[0]) + (sanitised(s.skip(1))
            + sanitised_char(c)));
        assert(sanitised(s) == sanitised_char(s[0]) + sanitised(s.skip(1)));
        assert(sanitised(s.push(c)) =~= sanitised(s) + sanitised_char(c));
    }
}

/// Sanitises one character vector.
fn sanitise_chars(v: &Vec<char>) -> (r: Vec<char>)
    ensures
        r@ == sanitised(v@),
{
    let mut r: Vec<char> = Vec::new();
    let mut i: usize = 0;
    proof {
        assert(v@.take(0) =~= Seq::<char>::empty());
    }
    while i < v.len()
        invariant
            i <= v@.len(),
            r@ == sanitised(v@.take(i as int)),
        decreases v@.len() - i,
    {
        let c = v[i];
        if c == '\u{2019}' {
            r.push('\'');
        } else if c == '\u{2013}' {
            r.push('-');
        } else if c == '\u{2014}' {
            r.push('-');
        } else if c == '\u{2026}' {
            r.push('.');
            r.push('.');
            r.push('.');
        } else {
            r.push(c);
        }
        proof {
            lemma_sanitised_push(v@.take(i as int), v@[i as int]);
            assert(v@.take(i + 1) =~= v@.take(i as int).push(v@[i as int]));
            assert(r@ =~= sanitised(v@.take(i + 1)));
        }
        i = i + 1;
    }
    proof {
        assert(v@.take(v@.len() as int) =~= v@);
    }
    r
}

/// Relies on `String: FromIterator<char>`: collecting characters yields the
/// string holding exactly those characters, in order.
#[verifier::external_body]
fn chars_to_string(v: &Vec<char>) -> (r: String)
    ensures
        r@ == v@,
{
    v.iter().collect()
}

/// Sanitises one string.
fn sanitise_string(s: &str) -> (r: String)
    ensures
        r@ == sanitised(s@),
{
    let n = s.unicode_len();
    let mut chars: Vec<char> = Vec::new();
    let mut i: usize = 0;
    while i < n
        invariant
            i <= n,
            n == s@.len(),
            chars@ == s@.take(i as int),
        decreases n - i,
    {
        chars.push(s.get_char(i));
        proof {
            assert(s@.take(i + 1) =~= s@.take(i as int).push(s@[i as int]));
        }
        i = i + 1;
    }
    proof {
        assert(s@.take(n as int) =~= s@);
    }
    let out = sanitise_chars(&chars);
    chars_to_string(&out)
}

/// The structured result of one exchange with the dialogue collaborator: the
/// character's response and the three replies offered to the user.
#[derive(Debug)]
pub struct VnOutput {
    pub response: String,
    pub user_reply_1: String,
    pub user_reply_2: String,
    pub user_reply_3: String,
}

/// Mathematical value of a [`VnOutput`].
pub struct VnOutputView {
    pub response: Seq<char>,
    pub user_reply_1: Seq<char>,
    pub user_reply_2: Seq<char>,
    pub user_reply_3: Seq<char>,
}

impl View for VnOutput {
    type V = VnOutputView;

    open spec fn view(&self) -> VnOutputView {
        VnOutputView {
            response: self.response@,
            user_reply_1: self.user_reply_1@,
            user_reply_2: self.user_reply_2@,
            user_reply_3: self.user_reply_3@,
        }
    }
}

impl VnOutputView {
    /// An empty reply field is the collaborator's sole signal that the
    /// conversation is over.
    pub open spec fn ends_conversation(self) -> bool {
        self.user_reply_1.len() == 0 || self.user_reply_2.len() == 0 || self.user_reply_3.len()
            == 0
    }

    /// The output with every field sanitised.
    pub open spec fn sanitised_output(self) -> VnOutputView {
        VnOutputView {
            response: sanitised(self.response),
            user_reply_1: sanitised(self.user_reply_1),
            user_reply_2: sanitised(self.user_reply_2),
            user_reply_3: sanitised(self.user_reply_3),
        }
    }
}

impl VnOutput {
    /// Whether any reply field is empty, the implicit end-of-conversation
    /// signal.
    pub fn is_end_of_conversation(&self) -> (r: bool)
        ensures
            r == self@.ends_conversation(),
    {
        self.user_reply_1.as_str().is_empty() || self.user_reply_2.as_str().is_empty()
            || self.user_reply_3.as_str().is_empty()
    }

    /// Normalises non-ASCII punctuation to ASCII equivalents in every field.
    pub fn sanitise(self) -> (r: Self)
        ensures
            r@ == self@.sanitised_output(),
    {
        VnOutput {
            response: sanitise_string(self.response.as_str()),
            user_reply_1: sanitise_string(self.user_reply_1.as_str()),
            user_reply_2: sanitise_string(self.user_reply_2.as_str()),
            user_reply_3: sanitise_string(self.user_reply_3.as_str()),
        }
    }
}

impl Clone for VnOutput {
    fn clone(&self) -> (r: Self)
        ensures
            r@ == self@,
    {
        VnOutput {
            response: self.response.clone(),
            user_reply_1: self.user_reply_1.clone(),
            user_reply_2: self.user_reply_2.clone(),
            user_reply_3: self.user_reply_3.clone(),
        }
    }
}

/// One turn of the transcript: who spoke and what they said.
#[derive(Debug)]
pub enum TranscriptEntry {
    Character(String),
    User(String),
}

/// Mathematical value of a [`TranscriptEntry`].
pub enum TranscriptEntryView {
    Character(Seq<char>),
    User(Seq<char>),
}

impl View for TranscriptEntry {
    type V = TranscriptEntryView;

    open spec fn view(&self) -> TranscriptEntryView {
        match self {
            TranscriptEntry::Character(s) => TranscriptEntryView::Character(s@),
            TranscriptEntry::User(s) => TranscriptEntryView::User(s@),
        }
    }
}

/// One conversation with a chosen character: when it started (seconds since
/// the epoch), with whom, and the ordered turns so far.
#[derive(Debug)]
pub struct Conversation {
    pub started_at: i64,
    pub character: Character,
    pub transcript: Vec<TranscriptEntry>,
}

impl Conversation {
    /// A fresh conversation with an empty transcript.
    pub fn new(character: Character, started_at: i64) -> (r: Self)
        ensures
            r.started_at == started_at,
            r.character@ == character@,
            r.transcript@.len() == 0,
    {
        Conversation { started_at, character, transcript: Vec::new() }
    }

    /// The character this conversation is with.
    pub fn character(&self) -> (r: &Character)
        ensures
            r@ == self.character@,
    {
        &self.character
    }

    /// Records the user's chosen reply, before it goes to the dialogue
    /// collaborator.
    pub fn record_user_message(&mut self, text: String)
        ensures
            final(self).transcript@ == old(self).transcript@.push(
                TranscriptEntry::User(text),
            ),
            final(self).started_at == old(self).started_at,
            final(self).character@ == old(self).character@,
    {
        self.transcript.push(TranscriptEntry::User(text));
    }

    /// Sanitises the collaborator's raw output, records the character's
    /// response in the transcript, and hands the sanitised output back.
    pub fn accept_output(&mut self, raw: VnOutput) -> (r: VnOutput)
        ensures
            r@ == raw@.sanitised_output(),
            final(self).transcript@ == old(self).transcript@.push(
                TranscriptEntry::Character(r.response),
            ),
            final(self).started_at == old(self).started_at,
            final(self).character@ == old(self).character@,
    {
        let clean = raw.sanitise();
        self.transcript.push(TranscriptEntry::Character(clean.response.clone()));
        clean
    }
}

} // verus!
