//! What the user is told when a command fails.

use vstd::prelude::*;
use vstd::string::StringExecFns;

verus! {

/// What the user is told when a command fails: one line that says what
/// failed, the reasons for it, and hints at what to do about it.
#[derive(Debug)]
pub struct Message {
    /// What failed.
    pub summary: String,
    /// Why, reason by reason.
    pub reasons: Vec<String>,
    /// What the user may do about it.
    pub subtleties: Vec<String>,
}

/// The text of a [`Message`].
pub struct MessageText {
    pub summary: Seq<char>,
    pub reasons: Seq<Seq<char>>,
    pub subtleties: Seq<Seq<char>>,
}

/// The text of each of `lines`, in order.
pub open spec fn texts(lines: Seq<String>) -> Seq<Seq<char>> {
    Seq::new(lines.len(), |i: int| lines[i]@)
}

impl View for Message {
    type V = MessageText;

    open spec fn view(&self) -> MessageText {
        MessageText {
            summary: self.summary@,
            reasons: texts(self.reasons@),
            subtleties: texts(self.subtleties@),
        }
    }
}

impl MessageText {
    /// The text of a message that is a summary and no more.
    pub open spec fn simple(summary: Seq<char>) -> MessageText {
        MessageText { summary, reasons: Seq::empty(), subtleties: Seq::empty() }
    }
}

impl Message {
    /// The message that is a summary and no more.
    pub fn simple(summary: &str) -> (m: Message)
        ensures
            m@ == MessageText::simple(summary@),
    {
        let m = Message {
            summary: String::from_str(summary),
            reasons: Vec::new(),
            subtleties: Vec::new(),
        };
        assert(texts(m.reasons@) =~= Seq::<Seq<char>>::empty());
        assert(texts(m.subtleties@) =~= Seq::<Seq<char>>::empty());
        m
    }

    /// Adds a reason after those the message has.
    pub fn add_reason(&mut self, reason: String)
        ensures
            final(self)@ == (MessageText { reasons: old(self)@.reasons.push(reason@), ..old(self)@ }),
    {
        self.reasons.push(reason);
        assert(texts(self.reasons@) =~= texts(old(self).reasons@).push(reason@));
    }

    /// Adds a hint after those the message has.
    pub fn add_subtlety(&mut self, hint: String)
        ensures
            final(self)@ == (MessageText {
                subtleties: old(self)@.subtleties.push(hint@),
                ..old(self)@
            }),
    {
        self.subtleties.push(hint);
        assert(texts(self.subtleties@) =~= texts(old(self).subtleties@).push(hint@));
    }
}

} // verus!
