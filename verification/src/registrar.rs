//! The commands that the bot declares to the platform, and the sweep that
//! declares them whenever the connection reports ready.
//!
//! The sweep is a list of declarations, in the order in which they are to be
//! sent: one per guild, then one for the global command.

use vstd::prelude::*;
use crate::model::OptionKind;

verus! {

/// One option of a command, as it is declared.
#[derive(Clone, Debug, PartialEq, Eq)]
pub struct OptionSpec {
    pub name: String,
    pub description: String,
    pub kind: OptionKind,
    pub required: bool,
}

/// A command, as it is declared.
#[derive(Clone, Debug, PartialEq, Eq)]
pub struct CommandDefinition {
    pub name: String,
    pub description: String,
    pub options: Vec<OptionSpec>,
}

/// One request to the platform.
#[derive(Clone, Debug, PartialEq, Eq)]
pub enum Declaration {
    /// Sets the commands of one guild, in place of those it had.
    Guild { guild: u64, commands: Vec<CommandDefinition> },
    /// Declares one command for every guild.
    Global { command: CommandDefinition },
}

/// Whether the connection has reported ready.
#[derive(Clone, Copy, Debug, PartialEq, Eq, Structural)]
pub enum Phase {
    Disconnected,
    Ready,
}

/// An [`OptionSpec`] with its texts as sequences of characters.
pub struct OptionSpecView {
    pub name: Seq<char>,
    pub description: Seq<char>,
    pub kind: OptionKind,
    pub required: bool,
}

/// A [`CommandDefinition`] over the views of what it holds.
pub struct CommandDefinitionView {
    pub name: Seq<char>,
    pub description: Seq<char>,
    pub options: Seq<OptionSpecView>,
}

/// A [`Declaration`] over the views of what it holds.
pub enum DeclarationView {
    Guild { guild: u64, commands: Seq<CommandDefinitionView> },
    Global { command: CommandDefinitionView },
}

impl View for OptionSpec {
    type V = OptionSpecView;

    open spec fn view(&self) -> OptionSpecView {
        OptionSpecView {
            name: self.name@,
            description: self.description@,
            kind: self.kind,
            required: self.required,
        }
    }
}

impl View for CommandDefinition {
    type V = CommandDefinitionView;

    open spec fn view(&self) -> CommandDefinitionView {
        CommandDefinitionView {
            name: self.name@,
            description: self.description@,
            options: self.options@.map_values(|option: OptionSpec| option@),
        }
    }
}

impl View for Declaration {
    type V = DeclarationView;

    open spec fn view(&self) -> DeclarationView {
        match self {
            Declaration::Guild { guild, commands } => DeclarationView::Guild {
                guild: *guild,
                commands: definition_views(commands@),
            },
            Declaration::Global { command } => DeclarationView::Global { command: command@ },
        }
    }
}

/// The views of a list of definitions.
pub open spec fn definition_views(definitions: Seq<CommandDefinition>) -> Seq<
    CommandDefinitionView,
> {
    definitions.map_values(|definition: CommandDefinition| definition@)
}

/// The views of a list of declarations.
pub open spec fn declaration_views(declarations: Seq<Declaration>) -> Seq<DeclarationView> {
    declarations.map_values(|declaration: Declaration| declaration@)
}

/// A required option of type user.
pub open spec fn user_option(name: Seq<char>, description: Seq<char>) -> OptionSpecView {
    OptionSpecView { name, description, kind: OptionKind::User, required: true }
}

/// The `ping` command: no options.
pub open spec fn ping_command() -> CommandDefinitionView {
    CommandDefinitionView { name: "ping"@, description: "A ping command"@, options: seq![] }
}

/// The `id` command: one required user.
pub open spec fn id_command() -> CommandDefinitionView {
    CommandDefinitionView {
        name: "id"@,
        description: "Get a user id"@,
        options: seq![user_option("id"@, "The user to lookup"@)],
    }
}

/// The `usersince` command: one required user.
pub open spec fn user_since_command() -> CommandDefinitionView {
    CommandDefinitionView {
        name: "usersince"@,
        description: "Get a user's join date"@,
        options: seq![user_option("username"@, "the user to look up"@)],
    }
}

/// The command that is declared for every guild at once.
pub open spec fn global_command() -> CommandDefinitionView {
    CommandDefinitionView {
        name: "wonderful_command"@,
        description: "An amazing command"@,
        options: seq![],
    }
}

/// The commands that each guild gets, in the order of declaration.
pub open spec fn guild_commands() -> Seq<CommandDefinitionView> {
    seq![ping_command(), id_command(), user_since_command()]
}

/// The declaration that sets the commands of `guild`.
pub open spec fn guild_declaration(guild: u64) -> DeclarationView {
    DeclarationView::Guild { guild, commands: guild_commands() }
}

/// The declarations for the guilds alone, one per entry of the list.
pub open spec fn guild_sweep(guilds: Seq<u64>) -> Seq<DeclarationView> {
    Seq::new(guilds.len(), |i: int| guild_declaration(guilds[i]))
}

/// The whole sweep: the guilds in the order of the list, then the global command.
pub open spec fn sweep(guilds: Seq<u64>) -> Seq<DeclarationView> {
    guild_sweep(guilds).push(DeclarationView::Global { command: global_command() })
}

/// How many declarations are for the global command.
pub open spec fn global_count(declarations: Seq<DeclarationView>) -> nat
    decreases declarations.len(),
{
    if declarations.len() == 0 {
        0
    } else {
        let rest = global_count(declarations.drop_last());
        if declarations.last() is Global {
            rest + 1
        } else {
            rest
        }
    }
}

/// How many declarations set the commands of `guild`.
pub open spec fn guild_count(declarations: Seq<DeclarationView>, guild: u64) -> nat
    decreases declarations.len(),
{
    if declarations.len() == 0 {
        0
    } else {
        let rest = guild_count(declarations.drop_last(), guild);
        if declarations.last() matches DeclarationView::Guild { guild: g, .. } && g == guild {
            rest + 1
        } else {
            rest
        }
    }
}

/// How often `guild` occurs in a list of guilds.
pub open spec fn occurrences(guilds: Seq<u64>, guild: u64) -> nat
    decreases guilds.len(),
{
    if guilds.len() == 0 {
        0
    } else {
        let rest = occurrences(guilds.drop_last(), guild);
        if guilds.last() == guild {
            rest + 1
        } else {
            rest
        }
    }
}

/// The guild part of a sweep holds no global declaration, and for each guild
/// as many declarations as the list names it.
proof fn lemma_guild_sweep_counts(guilds: Seq<u64>, guild: u64)
    ensures
        global_count(guild_sweep(guilds)) == 0,
        guild_count(guild_sweep(guilds), guild) == occurrences(guilds, guild),
    decreases guilds.len(),
{
    if guilds.len() > 0 {
        lemma_guild_sweep_counts(guilds.drop_last(), guild);
        assert(guild_sweep(guilds).drop_last() =~= guild_sweep(guilds.drop_last()));
    }
}

/// A sweep holds as many declarations as the list has guilds, and one more.
/// Each guild gets one declaration for each time that the list names it, so
/// exactly one where the list names it once and none where it does not; and
/// the global command is declared exactly once, however many guilds there are.
pub proof fn lemma_sweep_counts(guilds: Seq<u64>, guild: u64)
    ensures
        sweep(guilds).len() == guilds.len() + 1,
        global_count(sweep(guilds)) == 1,
        guild_count(sweep(guilds), guild) == occurrences(guilds, guild),
        forall|i: int| 0 <= i < guilds.len() ==> sweep(guilds)[i] == guild_declaration(guilds[i]),
        sweep(guilds).last() == (DeclarationView::Global { command: global_command() }),
{
    lemma_guild_sweep_counts(guilds, guild);
    assert(sweep(guilds).drop_last() =~= guild_sweep(guilds));
}

/// Builds a required option of type user.
fn user_option_spec(name: &str, description: &str) -> (r: OptionSpec)
    ensures
        r@ == user_option(name@, description@),
{
    OptionSpec {
        name: String::from_str(name),
        description: String::from_str(description),
        kind: OptionKind::User,
        required: true,
    }
}

/// The definitions that each guild gets, in the order of declaration.
pub fn guild_definitions() -> (r: Vec<CommandDefinition>)
    ensures
        definition_views(r@) == guild_commands(),
{
    let ping = CommandDefinition {
        name: String::from_str("ping"),
        description: String::from_str("A ping command"),
        options: Vec::new(),
    };
    let mut id_options = Vec::new();
    id_options.push(user_option_spec("id", "The user to lookup"));
    let id = CommandDefinition {
        name: String::from_str("id"),
        description: String::from_str("Get a user id"),
        options: id_options,
    };
    let mut since_options = Vec::new();
    since_options.push(user_option_spec("username", "the user to look up"));
    let since = CommandDefinition {
        name: String::from_str("usersince"),
        description: String::from_str("Get a user's join date"),
        options: since_options,
    };
    assert(ping@.options =~= seq![]);
    assert(id@.options =~= seq![user_option("id"@, "The user to lookup"@)]);
    assert(since@.options =~= seq![user_option("username"@, "the user to look up"@)]);
    let mut out = Vec::new();
    out.push(ping);
    out.push(id);
    out.push(since);
    assert(definition_views(out@) =~= guild_commands());
    out
}

/// The definition of the command that is declared for every guild at once.
pub fn global_definition() -> (r: CommandDefinition)
    ensures
        r@ == global_command(),
{
    let r = CommandDefinition {
        name: String::from_str("wonderful_command"),
        description: String::from_str("An amazing command"),
        options: Vec::new(),
    };
    assert(r@.options =~= seq![]);
    r
}

/// Plans the declarations for one readiness signal.
///
/// The plan is the same for every signal: it does not depend on what was
/// declared before.
pub fn registration_sweep(guilds: &Vec<u64>) -> (r: Vec<Declaration>)
    ensures
        declaration_views(r@) == sweep(guilds@),
        r@.len() == guilds@.len() + 1,
        global_count(declaration_views(r@)) == 1,
        forall|guild: u64| #[trigger]
            guild_count(declaration_views(r@), guild) == occurrences(guilds@, guild),
{
    let mut out: Vec<Declaration> = Vec::new();
    let mut i: usize = 0;
    while i < guilds.len()
        invariant
            i <= guilds.len(),
            declaration_views(out@) == guild_sweep(guilds@.take(i as int)),
        decreases guilds.len() - i,
    {
        let ghost before = declaration_views(out@);
        let declaration = Declaration::Guild { guild: guilds[i], commands: guild_definitions() };
        assert(declaration@ == guild_declaration(guilds@[i as int]));
        out.push(declaration);
        i += 1;
        assert(declaration_views(out@) =~= before.push(declaration@));
        assert(before.push(declaration@) =~= guild_sweep(guilds@.take(i as int)));
    }
    assert(guilds@.take(i as int) =~= guilds@);
    out.push(Declaration::Global { command: global_definition() });
    assert(declaration_views(out@) =~= sweep(guilds@));
    proof {
        assert forall|guild: u64| #[trigger]
            guild_count(declaration_views(out@), guild) == occurrences(guilds@, guild) by {
            lemma_sweep_counts(guilds@, guild);
        }
        lemma_sweep_counts(guilds@, 0);
    }
    out
}

/// Takes the readiness signal in any phase: the connection is ready from then
/// on, and the whole sweep is due again.
pub fn on_ready(phase: Phase, guilds: &Vec<u64>) -> (r: (Phase, Vec<Declaration>))
    ensures
        r.0 == Phase::Ready,
        declaration_views(r.1@) == sweep(guilds@),
{
    (Phase::Ready, registration_sweep(guilds))
}

} // verus!
