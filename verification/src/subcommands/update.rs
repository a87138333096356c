//! Changing one field of a journal's settings.

use vstd::prelude::*;
use vstd::string::StringExecFns;
use crate::config::EchoConfig;
use crate::message::{Message, MessageText};

verus! {

/// Why a change to the settings was refused.
#[derive(Clone, Copy, Debug, PartialEq, Eq, Structural)]
pub enum UpdateError {
    /// The field named is none of `title`, `author` and `description`.
    UnknownField,
}

impl UpdateError {
    /// What the user is told of this failure.
    pub open spec fn message_text(self) -> MessageText {
        MessageText::simple("Did not specify a valid field to edit"@)
    }

    /// Writes what the user is told of this failure.
    pub fn message(&self) -> (m: Message)
        ensures
            m@ == self.message_text(),
    {
        Message::simple("Did not specify a valid field to edit")
    }
}

/// Whether `field` names a setting that can be changed.
pub open spec fn is_field(field: Seq<char>) -> bool {
    field == "title"@ || field == "author"@ || field == "description"@
}

/// The settings `config` with the field named `field` set to `value`.
/// Meaningful only where [`is_field`] holds.
pub open spec fn with_field(config: EchoConfig, field: Seq<char>, value: Seq<char>) -> (
    Seq<char>,
    Seq<char>,
    Seq<char>,
) {
    (
        if field == "title"@ { value } else { config.title@ },
        if field == "author"@ { value } else { config.author@ },
        if field == "description"@ { value } else { config.description@ },
    )
}

/// Sets the title.
pub fn update_title(config: &mut EchoConfig, title: &str)
    ensures
        final(config).title@ == title@,
        final(config).author == old(config).author,
        final(config).description == old(config).description,
{
    config.title = String::from_str(title);
}

/// Sets the author.
pub fn update_author(config: &mut EchoConfig, author: &str)
    ensures
        final(config).author@ == author@,
        final(config).title == old(config).title,
        final(config).description == old(config).description,
{
    config.author = String::from_str(author);
}

/// Sets the description.
pub fn update_desc(config: &mut EchoConfig, description: &str)
    ensures
        final(config).description@ == description@,
        final(config).title == old(config).title,
        final(config).author == old(config).author,
{
    config.description = String::from_str(description);
}

/// Sets the field named `field` to `value`. A name that is none of
/// `title`, `author` and `description` is refused, and the settings stay
/// as they are.
pub fn update_field(config: &mut EchoConfig, field: &str, value: &str) -> (r: Result<
    (),
    UpdateError,
>)
    ensures
        r is Ok <==> is_field(field@),
        r is Err ==> r == Err::<(), UpdateError>(UpdateError::UnknownField) && *final(config) == *old(
            config,
        ),
        r is Ok ==> (final(config).title@, final(config).author@, final(config).description@)
            == with_field(*old(config), field@, value@),
{
    proof {
        reveal_strlit("title");
        reveal_strlit("author");
        reveal_strlit("description");
        assert("title"@.len() == 5 && "author"@.len() == 6 && "description"@.len() == 11);
    }
    let name = String::from_str(field);
    if name == String::from_str("title") {
        update_title(config, value);
        Ok(())
    } else if name == String::from_str("author") {
        update_author(config, value);
        Ok(())
    } else if name == String::from_str("description") {
        update_desc(config, value);
        Ok(())
    } else {
        Err(UpdateError::UnknownField)
    }
}

} // verus!
