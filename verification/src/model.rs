//! The data that the dispatcher reads: a command invocation and the values
//! that came with it.
//!
//! Each type that owns text has a view in which the text is a sequence of
//! characters; contracts are stated over the views.

use vstd::prelude::*;
use crate::text::decimal;
use crate::timestamp::Timestamp;

verus! {

/// The type that a command declares for one of its options.
#[derive(Clone, Copy, Debug, PartialEq, Eq, Structural)]
pub enum OptionKind {
    SubCommand,
    SubCommandGroup,
    Text,
    Integer,
    Boolean,
    User,
    Channel,
    Role,
    Mentionable,
    Number,
    Attachment,
    Unknown,
}

/// An account on the platform.
#[derive(Clone, Debug, PartialEq, Eq)]
pub struct UserInfo {
    pub id: u64,
    pub name: String,
    pub discriminator: u16,
}

/// What the platform tells of a user's membership in the guild of the invocation.
#[derive(Clone, Copy, Debug, PartialEq, Eq)]
pub struct MemberInfo {
    pub joined_at: Option<Timestamp>,
}

/// A file sent along with a command.
#[derive(Clone, Debug, PartialEq, Eq)]
pub struct AttachmentInfo {
    pub filename: String,
    pub size: u64,
}

/// The value that an option resolved to.
#[derive(Clone, Debug, PartialEq, Eq)]
pub enum OptionValue {
    /// A user, with the membership record if the platform sent one.
    User(UserInfo, Option<MemberInfo>),
    Attachment(AttachmentInfo),
    /// A value of any other type; no command here reads one.
    Other,
}

/// One option of an invocation.
#[derive(Clone, Debug, PartialEq, Eq)]
pub struct CommandOption {
    pub name: String,
    pub kind: OptionKind,
    pub resolved: Option<OptionValue>,
}

/// A user's invocation of a command.
#[derive(Clone, Debug, PartialEq, Eq)]
pub struct Interaction {
    pub name: String,
    pub options: Vec<CommandOption>,
}

/// A [`UserInfo`] with its name as a sequence of characters.
pub struct UserView {
    pub id: u64,
    pub name: Seq<char>,
    pub discriminator: u16,
}

/// An [`AttachmentInfo`] with its file name as a sequence of characters.
pub struct AttachmentView {
    pub filename: Seq<char>,
    pub size: u64,
}

/// An [`OptionValue`] over the views of what it holds.
pub enum OptionValueView {
    User(UserView, Option<MemberInfo>),
    Attachment(AttachmentView),
    Other,
}

/// A [`CommandOption`] over the views of what it holds.
pub struct CommandOptionView {
    pub name: Seq<char>,
    pub kind: OptionKind,
    pub resolved: Option<OptionValueView>,
}

/// An [`Interaction`]: the name, and the options in the order in which they came.
pub struct InteractionView {
    pub name: Seq<char>,
    pub options: Seq<CommandOptionView>,
}

impl View for UserInfo {
    type V = UserView;

    open spec fn view(&self) -> UserView {
        UserView { id: self.id, name: self.name@, discriminator: self.discriminator }
    }
}

impl View for AttachmentInfo {
    type V = AttachmentView;

    open spec fn view(&self) -> AttachmentView {
        AttachmentView { filename: self.filename@, size: self.size }
    }
}

impl View for OptionValue {
    type V = OptionValueView;

    open spec fn view(&self) -> OptionValueView {
        match self {
            OptionValue::User(user, member) => OptionValueView::User(user@, *member),
            OptionValue::Attachment(attachment) => OptionValueView::Attachment(attachment@),
            OptionValue::Other => OptionValueView::Other,
        }
    }
}

impl View for CommandOption {
    type V = CommandOptionView;

    open spec fn view(&self) -> CommandOptionView {
        CommandOptionView {
            name: self.name@,
            kind: self.kind,
            resolved: match self.resolved {
                Some(value) => Some(value@),
                None => None,
            },
        }
    }
}

impl View for Interaction {
    type V = InteractionView;

    open spec fn view(&self) -> InteractionView {
        InteractionView {
            name: self.name@,
            options: self.options@.map_values(|option: CommandOption| option@),
        }
    }
}

/// The decimal form of `n`, with zeros in front where it has fewer than `width` digits.
pub open spec fn zero_padded(n: nat, width: nat) -> Seq<char> {
    let digits = decimal(n);
    if digits.len() >= width {
        digits
    } else {
        Seq::new((width - digits.len()) as nat, |i: int| '0') + digits
    }
}

impl UserView {
    /// The name, a `#`, and the discriminator in at least four digits.
    pub open spec fn tag(self) -> Seq<char> {
        self.name + seq!['#'] + zero_padded(self.discriminator as nat, 4)
    }
}

impl UserInfo {
    /// The user's tag, such as `zeyla#5479`.
    pub fn tag(&self) -> (r: String)
        ensures
            r@ == self@.tag(),
    {
        user_tag(self.name.as_str(), self.discriminator)
    }
}

/// `serenity::model::user::User::tag`, on a user with this name and discriminator.
///
/// Trusted: the tag is the name, then `#`, then the discriminator in decimal,
/// padded with zeros to four digits.
#[verifier::external_body]
fn user_tag(name: &str, discriminator: u16) -> (r: String)
    ensures
        r@ == name@ + seq!['#'] + zero_padded(discriminator as nat, 4),
{
    let mut user = serenity::model::user::User::default();
    user.name = name.to_string();
    user.discriminator = discriminator;
    user.tag()
}

} // verus!
