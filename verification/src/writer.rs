//! The reply sink: the lines sent so far, and among them those that the
//! caller has not yet carried to the peer.

use vstd::prelude::*;

verus! {

/// A message as it goes out: its characters and a single newline.
pub open spec fn line(mesg: Seq<char>) -> Seq<char> {
    mesg.push('\n')
}

/// Collects reply lines. Its view is everything sent since it was made.
pub struct Writer {
    carried: String,
    waiting: String,
}

impl View for Writer {
    type V = Seq<char>;

    closed spec fn view(&self) -> Seq<char> {
        self.carried@ + self.waiting@
    }
}

impl Writer {
    /// What was sent and has not been taken yet.
    pub closed spec fn pending(&self) -> Seq<char> {
        self.waiting@
    }

    /// A writer to which nothing has been sent.
    pub fn new() -> (writer: Writer)
        ensures
            writer@ == Seq::<char>::empty(),
            writer.pending() == Seq::<char>::empty(),
    {
        let writer = Writer { carried: String::new(), waiting: String::new() };
        assert(writer@ =~= Seq::<char>::empty());
        writer
    }

    /// Sends one message as a line of its own.
    pub fn assuan_send(&mut self, mesg: &str)
        ensures
            final(self)@ == old(self)@ + line(mesg@),
            final(self).pending() == old(self).pending() + line(mesg@),
    {
        self.waiting.append(mesg);
        self.waiting.push('\n');
        assert(self.waiting@ =~= old(self).waiting@ + line(mesg@));
        assert(self@ =~= old(self)@ + line(mesg@));
    }

    /// Hands out what was sent since the last call, for the caller to carry
    /// to the peer. What the writer has recorded as sent stays as it is.
    pub fn take_pending(&mut self) -> (text: String)
        ensures
            text@ == old(self).pending(),
            final(self).pending() == Seq::<char>::empty(),
            final(self)@ == old(self)@,
    {
        let text = self.waiting.clone();
        self.carried.append(text.as_str());
        self.waiting = String::new();
        assert(self@ =~= old(self)@);
        text
    }

    /// Everything sent since the writer was made.
    pub fn transcript(&self) -> (text: String)
        ensures
            text@ == self@,
    {
        let mut text = self.carried.clone();
        text.append(self.waiting.as_str());
        text
    }
}

} // verus!
