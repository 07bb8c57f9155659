//! The exported message record and its mathematical model.
use vstd::prelude::*;
use vstd::string::StringExecFns;

verus! {

/// One exported message: who sent it, what it says, and the calendar day it
/// was sent on, written `YYYY-MM-DD`.
pub struct Message {
    pub sender: String,
    pub text: String,
    pub date: String,
}

/// The model of a [`Message`]: its three texts.
pub struct MessageView {
    pub sender: Seq<char>,
    pub text: Seq<char>,
    pub date: Seq<char>,
}

impl View for Message {
    type V = MessageView;

    open spec fn view(&self) -> MessageView {
        MessageView { sender: self.sender@, text: self.text@, date: self.date@ }
    }
}

/// The models of a sequence of messages.
pub open spec fn views(s: Seq<Message>) -> Seq<MessageView> {
    s.map_values(|m: Message| m@)
}

impl Message {
    /// A message with the given sender, text and date.
    pub fn new(sender: &str, text: &str, date: &str) -> (r: Message)
        ensures
            r.sender@ == sender@,
            r.text@ == text@,
            r.date@ == date@,
    {
        Message {
            sender: String::from_str(sender),
            text: String::from_str(text),
            date: String::from_str(date),
        }
    }

    /// A copy of this message.
    pub fn duplicate(&self) -> (r: Message)
        ensures
            r@ == self@,
    {
        Message { sender: self.sender.clone(), text: self.text.clone(), date: self.date.clone() }
    }
}

} // verus!
