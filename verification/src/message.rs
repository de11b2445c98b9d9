use vstd::prelude::*;

verus! {

/// The discriminant carried by every message. `End`, `Quit` and `Shutdown`
/// are terminal signals: they end a message loop and never expect a reply.
/// `Data` marks an ordinary application message that is processed into a
/// reply.
#[derive(Clone, Copy, Debug, PartialEq, Eq, Structural)]
pub enum MessageType {
    Data,
    End,
    Quit,
    Shutdown,
}

/// A terminal type ends a message loop rather than producing a reply.
pub open spec fn is_terminal(t: MessageType) -> bool {
    t == MessageType::End || t == MessageType::Quit || t == MessageType::Shutdown
}

/// Executable form of `is_terminal`.
pub fn message_type_is_terminal(t: MessageType) -> (r: bool)
    ensures
        r == is_terminal(t),
{
    t == MessageType::End || t == MessageType::Quit || t == MessageType::Shutdown
}

/// A typed message: a discriminant plus an opaque payload. The connection
/// layer never inspects the payload; it routes and terminates loops on the
/// discriminant alone.
#[derive(Clone, Debug)]
pub struct Message {
    pub mt: MessageType,
    pub content: Vec<u8>,
}

impl Message {
    /// A fresh message: ordinary type, empty payload.
    pub fn new() -> (m: Message)
        ensures
            m.mt == MessageType::Data,
            m.content@.len() == 0,
    {
        Message { mt: MessageType::Data, content: Vec::new() }
    }

    /// Read the discriminant.
    pub fn get_type(&self) -> (t: MessageType)
        ensures
            t == self.mt,
    {
        self.mt
    }

    /// Set the discriminant; the payload is untouched.
    pub fn set_type(&mut self, t: MessageType)
        ensures
            final(self).mt == t,
            final(self).content == old(self).content,
    {
        self.mt = t;
    }

    /// Replace the payload; the discriminant is untouched.
    pub fn set_content(&mut self, content: Vec<u8>)
        ensures
            final(self).content == content,
            final(self).mt == old(self).mt,
    {
        self.content = content;
    }

    /// Read the payload.
    pub fn get_content(&self) -> (c: &Vec<u8>)
        ensures
            c == self.content,
    {
        &self.content
    }
}

} // verus!
