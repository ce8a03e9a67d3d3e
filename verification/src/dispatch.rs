//! From a command invocation to the text of the reply.
//!
//! [`reply_to`] says what the reply is; [`dispatch`] computes it. A command
//! that needs an option fails with a [`DispatchError`] when the option is
//! absent, unresolved or of another type.

use vstd::prelude::*;
use crate::model::{
    CommandOption, CommandOptionView, Interaction, InteractionView, MemberInfo, OptionValue,
    OptionValueView,
};
use crate::text::{decimal, decimal_string, eq_ignoring_ascii_case, same_ignoring_ascii_case};
use crate::text::{is_digit, lemma_decimal_digits};
use crate::timestamp::{created_text, Timestamp};

verus! {

/// The commands that the dispatcher answers.
#[derive(Clone, Copy, Debug, PartialEq, Eq, Structural)]
pub enum Command {
    Ping,
    Id,
    UserSince,
    AttachmentInput,
}

/// What a command needs its first option to resolve to.
#[derive(Clone, Copy, Debug, PartialEq, Eq, Structural)]
pub enum Expected {
    User,
    Attachment,
}

/// Why an invocation of a known command got no reply.
#[derive(Clone, Copy, Debug, PartialEq, Eq, Structural)]
pub enum DispatchError {
    /// The invocation has no option at all.
    Missing(Expected),
    /// The first option carries no resolved value.
    Unresolved(Expected),
    /// The first option resolved to a value of another type.
    Mismatched(Expected),
}

/// How a user stands to the guild, with the join time already written out.
#[derive(Clone, Debug, PartialEq, Eq)]
pub enum Membership {
    NotMember,
    NoJoinDate,
    Joined(String),
}

/// A [`Membership`] with the join time as a sequence of characters.
pub enum MembershipView {
    NotMember,
    NoJoinDate,
    Joined(Seq<char>),
}

impl View for Membership {
    type V = MembershipView;

    open spec fn view(&self) -> MembershipView {
        match self {
            Membership::NotMember => MembershipView::NotMember,
            Membership::NoJoinDate => MembershipView::NoJoinDate,
            Membership::Joined(text) => MembershipView::Joined(text@),
        }
    }
}

/// The reply to `ping`.
pub open spec fn ping_reply() -> Seq<char> {
    "Hey, I'm alive!"@
}

/// The reply to a name that stands for no command.
pub open spec fn fallback_reply() -> Seq<char> {
    "not implemented :("@
}

/// The reply to `id`, for a user with this tag and id.
pub open spec fn id_reply(tag: Seq<char>, id: u64) -> Seq<char> {
    tag + "'s id is "@ + decimal(id as nat)
}

/// The last line of the reply to `usersince`.
pub open spec fn membership_line(membership: MembershipView) -> Seq<char> {
    match membership {
        MembershipView::NotMember => "not a guild member"@,
        MembershipView::NoJoinDate => "guild member but no join date"@,
        MembershipView::Joined(text) => "guild: "@ + text,
    }
}

/// The reply to `usersince`: name and id, the creation time of the account,
/// and the membership, one line each.
pub open spec fn user_since_reply(
    name: Seq<char>,
    id: u64,
    created: Seq<char>,
    membership: MembershipView,
) -> Seq<char> {
    name + " <"@ + decimal(id as nat) + ">\n"@ + "discord: "@ + created + "\n"@ + membership_line(
        membership,
    )
}

/// The reply to `attachmentinput`, for a file with this name and size in bytes.
pub open spec fn attachment_reply(filename: Seq<char>, size: u64) -> Seq<char> {
    "Attachment name: "@ + filename + ", attachment size: "@ + decimal(size as nat)
}

/// The command that `name` stands for. Names are compared whole, without
/// regard to the case of ASCII letters.
pub open spec fn command_named(name: Seq<char>) -> Option<Command> {
    if same_ignoring_ascii_case(name, "ping"@) {
        Some(Command::Ping)
    } else if same_ignoring_ascii_case(name, "id"@) {
        Some(Command::Id)
    } else if same_ignoring_ascii_case(name, "usersince"@) {
        Some(Command::UserSince)
    } else if same_ignoring_ascii_case(name, "attachmentinput"@) {
        Some(Command::AttachmentInput)
    } else {
        None
    }
}

/// The membership that a reply shows for a membership record.
pub open spec fn membership_of(member: Option<MemberInfo>) -> MembershipView {
    match member {
        None => MembershipView::NotMember,
        Some(record) => match record.joined_at {
            None => MembershipView::NoJoinDate,
            Some(joined) => MembershipView::Joined(joined.text()),
        },
    }
}

/// The value of the first option, or the reason why there is none.
pub open spec fn first_value(options: Seq<CommandOptionView>, expected: Expected) -> Result<
    OptionValueView,
    DispatchError,
> {
    if options.len() == 0 {
        Err(DispatchError::Missing(expected))
    } else {
        match options[0].resolved {
            None => Err(DispatchError::Unresolved(expected)),
            Some(value) => Ok(value),
        }
    }
}

/// The reply that a command gives once its first option is in hand.
pub open spec fn reply_of(command: Command, options: Seq<CommandOptionView>) -> Result<
    Seq<char>,
    DispatchError,
> {
    match command {
        Command::Ping => Ok(ping_reply()),
        Command::Id => match first_value(options, Expected::User) {
            Err(e) => Err(e),
            Ok(OptionValueView::User(user, _)) => Ok(id_reply(user.tag(), user.id)),
            Ok(_) => Err(DispatchError::Mismatched(Expected::User)),
        },
        Command::UserSince => match first_value(options, Expected::User) {
            Err(e) => Err(e),
            Ok(OptionValueView::User(user, member)) => Ok(
                user_since_reply(user.name, user.id, created_text(user.id), membership_of(member)),
            ),
            Ok(_) => Err(DispatchError::Mismatched(Expected::User)),
        },
        Command::AttachmentInput => match first_value(options, Expected::Attachment) {
            Err(e) => Err(e),
            Ok(OptionValueView::Attachment(file)) => Ok(attachment_reply(file.filename, file.size)),
            Ok(_) => Err(DispatchError::Mismatched(Expected::Attachment)),
        },
    }
}

/// The outcome of an invocation: the text of the reply, or the reason why a
/// known command could not be answered.
pub open spec fn reply_to(interaction: InteractionView) -> Result<Seq<char>, DispatchError> {
    match command_named(interaction.name) {
        None => Ok(fallback_reply()),
        Some(command) => reply_of(command, interaction.options),
    }
}

/// An outcome with the text of the reply as a sequence of characters.
pub open spec fn outcome_view(outcome: Result<String, DispatchError>) -> Result<
    Seq<char>,
    DispatchError,
> {
    match outcome {
        Ok(text) => Ok(text@),
        Err(e) => Err(e),
    }
}

/// Each command is found under its own name.
pub proof fn lemma_own_name(command: Command)
    ensures
        command_named(command.name_text()) == Some(command),
{
    reveal_strlit("ping");
    reveal_strlit("id");
    reveal_strlit("usersince");
    reveal_strlit("attachmentinput");
    let name = command.name_text();
    assert(crate::text::ascii_folded(name).len() == name.len());
}

/// The reply of a known command is neither empty nor the fallback reply.
pub proof fn lemma_known_command_reply(interaction: InteractionView)
    requires
        command_named(interaction.name) is Some,
    ensures
        reply_to(interaction) matches Ok(text) ==> text.len() > 0 && text != fallback_reply(),
{
    reveal_strlit("not implemented :(");
    let fallback = fallback_reply();
    assert(fallback.len() == 18);
    match reply_to(interaction) {
        Err(_) => {},
        Ok(text) => {
            match command_named(interaction.name)->0 {
                Command::Ping => {
                    reveal_strlit("Hey, I'm alive!");
                },
                Command::Id => {
                    let value = first_value(interaction.options, Expected::User)->Ok_0;
                    let user = value->User_0;
                    lemma_decimal_digits(user.id as nat);
                    let digits = decimal(user.id as nat);
                    assert(text == user.tag() + "'s id is "@ + digits);
                    assert(text.len() > 0);
                    assert(text.last() == digits.last());
                    assert(is_digit(digits[digits.len() - 1]));
                    assert(fallback.last() == '(');
                },
                Command::UserSince => {
                    let value = first_value(interaction.options, Expected::User)->Ok_0;
                    let user = value->User_0;
                    reveal_strlit(" <");
                    reveal_strlit(">\n");
                    let head = user.name + " <"@ + decimal(user.id as nat);
                    let at = head.len() as int + 1;
                    assert(text[at] == '\n');
                    assert(forall|i: int| 0 <= i < 18 ==> fallback[i] != '\n');
                },
                Command::AttachmentInput => {
                    reveal_strlit("Attachment name: ");
                    assert(text[0] == 'A');
                    assert(fallback[0] == 'n');
                },
            }
        },
    }
}

/// Whether `text` ends with `tail`.
pub open spec fn ends_with(text: Seq<char>, tail: Seq<char>) -> bool {
    tail.len() <= text.len() && text.subrange(text.len() - tail.len(), text.len() as int) == tail
}

/// What stands after the last line break of `text`; all of it where there is none.
pub open spec fn last_line(text: Seq<char>) -> Seq<char>
    decreases text.len(),
{
    if text.len() == 0 {
        text
    } else if text.last() == '\n' {
        seq![]
    } else {
        last_line(text.drop_last()).push(text.last())
    }
}

/// Whether `text` holds no line break.
pub open spec fn single_line(text: Seq<char>) -> bool {
    forall|i: int| 0 <= i < text.len() ==> text[i] != '\n'
}

/// After a line break, a text without one is the last line.
proof fn lemma_last_line_after_break(head: Seq<char>, line: Seq<char>)
    requires
        single_line(line),
    ensures
        last_line(head + seq!['\n'] + line) == line,
    decreases line.len(),
{
    let text = head + seq!['\n'] + line;
    if line.len() == 0 {
        assert(text.last() == '\n');
        assert(line =~= seq![]);
    } else {
        assert(text.last() == line.last());
        assert(text.drop_last() =~= head + seq!['\n'] + line.drop_last());
        lemma_last_line_after_break(head, line.drop_last());
        assert(line.drop_last().push(line.last()) =~= line);
    }
}

/// The reply to `usersince` ends with the line that tells the membership:
/// with `not a guild member` for a user without a membership record, and with
/// `guild: ` and the join time for a member with one. Where the join time is
/// written without a line break, that line is the last line of the reply.
pub proof fn lemma_user_since_last_line(
    name: Seq<char>,
    id: u64,
    created: Seq<char>,
    membership: MembershipView,
)
    ensures
        ends_with(user_since_reply(name, id, created, membership), membership_line(membership)),
        membership is NotMember ==> ends_with(
            user_since_reply(name, id, created, membership),
            "not a guild member"@,
        ),
        membership matches MembershipView::Joined(joined) ==> ends_with(
            user_since_reply(name, id, created, membership),
            "guild: "@ + joined,
        ),
        (membership matches MembershipView::Joined(joined) ==> single_line(joined)) ==> last_line(
            user_since_reply(name, id, created, membership),
        ) == membership_line(membership),
{
    reveal_strlit("\n");
    reveal_strlit("not a guild member");
    reveal_strlit("guild member but no join date");
    reveal_strlit("guild: ");
    let reply = user_since_reply(name, id, created, membership);
    let line = membership_line(membership);
    let head = name + " <"@ + decimal(id as nat) + ">\n"@ + "discord: "@ + created;
    assert(reply =~= head + seq!['\n'] + line);
    assert(reply.subrange(reply.len() - line.len(), reply.len() as int) =~= line);
    if membership matches MembershipView::Joined(joined) ==> single_line(joined) {
        assert(single_line(line));
        lemma_last_line_after_break(head, line);
    }
}

impl Command {
    /// The name under which the command is invoked.
    pub open spec fn name_text(self) -> Seq<char> {
        match self {
            Command::Ping => "ping"@,
            Command::Id => "id"@,
            Command::UserSince => "usersince"@,
            Command::AttachmentInput => "attachmentinput"@,
        }
    }

    /// The name under which the command is invoked.
    pub fn name(&self) -> (r: &'static str)
        ensures
            r@ == self.name_text(),
    {
        match self {
            Command::Ping => "ping",
            Command::Id => "id",
            Command::UserSince => "usersince",
            Command::AttachmentInput => "attachmentinput",
        }
    }
}

impl DispatchError {
    /// The words that go with the error.
    pub open spec fn message_text(self) -> Seq<char> {
        match self {
            DispatchError::Missing(Expected::User) => "Expected user option"@,
            DispatchError::Unresolved(Expected::User) => "Expected user object"@,
            DispatchError::Mismatched(Expected::User) => "Please provide a valid user"@,
            DispatchError::Missing(Expected::Attachment) => "Expected attachment option"@,
            DispatchError::Unresolved(Expected::Attachment) => "Expected attachment object"@,
            DispatchError::Mismatched(Expected::Attachment) => "Please provide a valid attachment"@,
        }
    }

    /// The words that go with the error.
    pub fn message(&self) -> (r: &'static str)
        ensures
            r@ == self.message_text(),
    {
        match self {
            DispatchError::Missing(Expected::User) => "Expected user option",
            DispatchError::Unresolved(Expected::User) => "Expected user object",
            DispatchError::Mismatched(Expected::User) => "Please provide a valid user",
            DispatchError::Missing(Expected::Attachment) => "Expected attachment option",
            DispatchError::Unresolved(Expected::Attachment) => "Expected attachment object",
            DispatchError::Mismatched(Expected::Attachment) => "Please provide a valid attachment",
        }
    }
}

/// Finds the command that `name` stands for.
pub fn recognize(name: &str) -> (r: Option<Command>)
    ensures
        r == command_named(name@),
{
    if eq_ignoring_ascii_case(name, "ping") {
        Some(Command::Ping)
    } else if eq_ignoring_ascii_case(name, "id") {
        Some(Command::Id)
    } else if eq_ignoring_ascii_case(name, "usersince") {
        Some(Command::UserSince)
    } else if eq_ignoring_ascii_case(name, "attachmentinput") {
        Some(Command::AttachmentInput)
    } else {
        None
    }
}

/// Writes the reply to `id`.
pub fn render_id(tag: &str, id: u64) -> (r: String)
    ensures
        r@ == id_reply(tag@, id),
{
    let mut out = String::from_str(tag);
    out.append("'s id is ");
    out.append(decimal_string(id).as_str());
    out
}

/// Reads a membership record and writes out the join time, if it holds one.
pub fn membership(member: &Option<MemberInfo>) -> (r: Membership)
    ensures
        r@ == membership_of(*member),
{
    match member {
        None => Membership::NotMember,
        Some(record) => match &record.joined_at {
            None => Membership::NoJoinDate,
            Some(joined) => Membership::Joined(joined.to_rfc3339()),
        },
    }
}

/// Writes the reply to `usersince`. `created` is the creation time of the
/// account, already written out.
pub fn render_user_since(name: &str, id: u64, created: &str, membership: &Membership) -> (r: String)
    ensures
        r@ == user_since_reply(name@, id, created@, membership@),
{
    let mut out = String::from_str(name);
    out.append(" <");
    out.append(decimal_string(id).as_str());
    out.append(">\n");
    out.append("discord: ");
    out.append(created);
    out.append("\n");
    match membership {
        Membership::NotMember => {
            out.append("not a guild member");
        },
        Membership::NoJoinDate => {
            out.append("guild member but no join date");
        },
        Membership::Joined(text) => {
            out.append("guild: ");
            out.append(text.as_str());
            assert(out@ == user_since_reply(name@, id, created@, membership@)) by {
                let head = name@ + " <"@ + decimal(id as nat) + ">\n"@ + "discord: "@ + created@
                    + "\n"@;
                assert(head + "guild: "@ + text@ =~= head + ("guild: "@ + text@));
            }
        },
    }
    out
}

/// Writes the reply to `attachmentinput`.
pub fn render_attachment(filename: &str, size: u64) -> (r: String)
    ensures
        r@ == attachment_reply(filename@, size),
{
    let mut out = String::from_str("Attachment name: ");
    out.append(filename);
    out.append(", attachment size: ");
    out.append(decimal_string(size).as_str());
    out
}

/// Picks the value of the first option.
fn first_resolved<'a>(options: &'a Vec<CommandOption>, expected: Expected) -> (r: Result<
    &'a OptionValue,
    DispatchError,
>)
    ensures
        match r {
            Ok(value) => first_value(options@.map_values(|o: CommandOption| o@), expected) == Ok::<
                OptionValueView,
                DispatchError,
            >(value@),
            Err(e) => first_value(options@.map_values(|o: CommandOption| o@), expected) == Err::<
                OptionValueView,
                DispatchError,
            >(e),
        },
{
    if options.len() == 0 {
        Err(DispatchError::Missing(expected))
    } else {
        match &options[0].resolved {
            None => Err(DispatchError::Unresolved(expected)),
            Some(value) => Ok(value),
        }
    }
}

/// Answers an invocation of `command` with these options.
pub fn answer(command: Command, options: &Vec<CommandOption>) -> (r: Result<String, DispatchError>)
    ensures
        outcome_view(r) == reply_of(command, options@.map_values(|o: CommandOption| o@)),
{
    match command {
        Command::Ping => Ok(String::from_str("Hey, I'm alive!")),
        Command::Id => match first_resolved(options, Expected::User) {
            Err(e) => Err(e),
            Ok(OptionValue::User(user, _)) => Ok(render_id(user.tag().as_str(), user.id)),
            Ok(_) => Err(DispatchError::Mismatched(Expected::User)),
        },
        Command::UserSince => match first_resolved(options, Expected::User) {
            Err(e) => Err(e),
            Ok(OptionValue::User(user, member)) => {
                let created = Timestamp::created_at(user.id).to_rfc3339();
                let standing = membership(member);
                Ok(render_user_since(user.name.as_str(), user.id, created.as_str(), &standing))
            },
            Ok(_) => Err(DispatchError::Mismatched(Expected::User)),
        },
        Command::AttachmentInput => match first_resolved(options, Expected::Attachment) {
            Err(e) => Err(e),
            Ok(OptionValue::Attachment(file)) => Ok(
                render_attachment(file.filename.as_str(), file.size),
            ),
            Ok(_) => Err(DispatchError::Mismatched(Expected::Attachment)),
        },
    }
}

/// Computes the reply to an invocation.
///
/// A name that stands for no command gets the fallback reply. A known command
/// answers with a text that is neither empty nor the fallback reply, unless
/// its first option is absent, unresolved or of another type.
pub fn dispatch(interaction: &Interaction) -> (r: Result<String, DispatchError>)
    ensures
        outcome_view(r) == reply_to(interaction@),
        command_named(interaction@.name) is None ==> outcome_view(r) == Ok::<
            Seq<char>,
            DispatchError,
        >(fallback_reply()),
        command_named(interaction@.name) is Some ==> (outcome_view(r) matches Ok(text)
            ==> text.len() > 0 && text != fallback_reply()),
{
    proof {
        if command_named(interaction@.name) is Some {
            lemma_known_command_reply(interaction@);
        }
    }
    match recognize(interaction.name.as_str()) {
        None => Ok(String::from_str("not implemented :(")),
        Some(command) => answer(command, &interaction.options),
    }
}

} // verus!
