//! Conversation messages and fresh identifiers.
use vstd::prelude::*;

verus! {

/// Who wrote a message.
#[derive(Clone, Copy, Debug, PartialEq, Eq, Structural)]
pub enum Role {
    System,
    User,
    Assistant,
}

/// The lower-case wire name of a role.
pub open spec fn role_name(r: Role) -> Seq<char> {
    match r {
        Role::System => "system"@,
        Role::User => "user"@,
        Role::Assistant => "assistant"@,
    }
}

/// The role a stored name stands for; an unknown name is read as `User`.
pub open spec fn role_named(name: Seq<char>) -> Role {
    if name == "system"@ {
        Role::System
    } else if name == "assistant"@ {
        Role::Assistant
    } else {
        Role::User
    }
}

impl Role {
    /// The role a stored name stands for; an unknown name is read as `User`.
    pub fn from_name(name: &str) -> (r: Role)
        ensures
            r == role_named(name@),
    {
        if crate::text::str_eq(name, "system") {
            Role::System
        } else if crate::text::str_eq(name, "assistant") {
            Role::Assistant
        } else {
            Role::User
        }
    }

    /// The lower-case wire name of the role.
    pub fn as_str(&self) -> (r: &'static str)
        ensures
            r@ == role_name(*self),
    {
        match self {
            Role::System => "system",
            Role::User => "user",
            Role::Assistant => "assistant",
        }
    }
}

/// One message of a conversation.
pub struct Message {
    pub role: Role,
    pub content: String,
}

impl Clone for Message {
    fn clone(&self) -> (r: Self)
        ensures
            r == *self,
    {
        Message { role: self.role, content: self.content.clone() }
    }
}

impl Message {
    pub fn new(role: Role, content: &str) -> (r: Self)
        ensures
            r.role == role,
            r.content@ == content@,
    {
        Message { role, content: String::from_str(content) }
    }
}

/// Whether `c` is a lower-case hexadecimal digit.
pub open spec fn lower_hex_digit(c: char) -> bool {
    ('0' <= c && c <= '9') || ('a' <= c && c <= 'f')
}

/// Whether `s` has the hyphenated form of a UUID: 36 characters, hyphens at positions 8, 13,
/// 18 and 23, lower-case hexadecimal digits elsewhere.
pub open spec fn hyphenated_uuid(s: Seq<char>) -> bool {
    &&& s.len() == 36
    &&& forall|i: int|
        0 <= i < 36 ==> if i == 8 || i == 13 || i == 18 || i == 23 {
            s[i] == '-'
        } else {
            lower_hex_digit(#[trigger] s[i])
        }
}

/// Relies on `uuid::Uuid::new_v4` and the hyphenated lower-case form that `Uuid`'s `Display`
/// writes: a random identifier of 36 characters.
#[verifier::external_body]
pub fn fresh_id() -> (r: String)
    ensures
        hyphenated_uuid(r@),
{
    uuid::Uuid::new_v4().to_string()
}

/// An identified, ordered sequence of messages.
pub struct Conversation {
    pub id: String,
    pub messages: Vec<Message>,
}

impl Conversation {
    /// An empty conversation with a fresh identifier.
    pub fn new() -> (r: Self)
        ensures
            hyphenated_uuid(r.id@),
            r.messages@.len() == 0,
    {
        Conversation { id: fresh_id(), messages: Vec::new() }
    }

    /// The conversation with a system message appended.
    pub fn with_system(self, prompt: &str) -> (r: Self)
        ensures
            r.id == self.id,
            r.messages@ == self.messages@.push(Message { role: Role::System, content: r.messages@.last().content }),
            r.messages@.last().content@ == prompt@,
    {
        let mut c = self;
        c.messages.push(Message::new(Role::System, prompt));
        c
    }

    pub fn add_user(&mut self, content: &str)
        ensures
            final(self).id == old(self).id,
            final(self).messages@.len() == old(self).messages@.len() + 1,
            final(self).messages@.drop_last() == old(self).messages@,
            final(self).messages@.last().role == Role::User,
            final(self).messages@.last().content@ == content@,
    {
        self.messages.push(Message::new(Role::User, content));
        assert(self.messages@.drop_last() =~= old(self).messages@);
    }

    pub fn add_assistant(&mut self, content: &str)
        ensures
            final(self).id == old(self).id,
            final(self).messages@.len() == old(self).messages@.len() + 1,
            final(self).messages@.drop_last() == old(self).messages@,
            final(self).messages@.last().role == Role::Assistant,
            final(self).messages@.last().content@ == content@,
    {
        self.messages.push(Message::new(Role::Assistant, content));
        assert(self.messages@.drop_last() =~= old(self).messages@);
    }
}

impl Default for Conversation {
    fn default() -> (r: Self)
        ensures
            hyphenated_uuid(r.id@),
            r.messages@.len() == 0,
    {
        Conversation::new()
    }
}

} // verus!
