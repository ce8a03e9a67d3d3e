use slashbot::model::OptionKind;
use slashbot::registrar::{
    global_definition, guild_definitions, on_ready, registration_sweep, CommandDefinition,
    Declaration, OptionSpec, Phase,
};

fn user_option(name: &str, description: &str) -> OptionSpec {
    OptionSpec {
        name: name.to_string(),
        description: description.to_string(),
        kind: OptionKind::User,
        required: true,
    }
}

fn expected_guild_definitions() -> Vec<CommandDefinition> {
    vec![
        CommandDefinition {
            name: "ping".to_string(),
            description: "A ping command".to_string(),
            options: vec![],
        },
        CommandDefinition {
            name: "id".to_string(),
            description: "Get a user id".to_string(),
            options: vec![user_option("id", "The user to lookup")],
        },
        CommandDefinition {
            name: "usersince".to_string(),
            description: "Get a user's join date".to_string(),
            options: vec![user_option("username", "the user to look up")],
        },
    ]
}

fn expected_global_definition() -> CommandDefinition {
    CommandDefinition {
        name: "wonderful_command".to_string(),
        description: "An amazing command".to_string(),
        options: vec![],
    }
}

fn guild_declarations_for(sweep: &[Declaration], wanted: u64) -> usize {
    sweep
        .iter()
        .filter(|d| matches!(d, Declaration::Guild { guild, .. } if *guild == wanted))
        .count()
}

fn global_declarations(sweep: &[Declaration]) -> usize {
    sweep.iter().filter(|d| matches!(d, Declaration::Global { .. })).count()
}

#[test]
fn guild_commands_are_ping_id_usersince() {
    assert_eq!(guild_definitions(), expected_guild_definitions());
}

#[test]
fn global_command_is_wonderful_command() {
    assert_eq!(global_definition(), expected_global_definition());
}

#[test]
fn sweep_without_guilds_declares_the_global_command_alone() {
    let sweep = registration_sweep(&vec![]);
    assert_eq!(sweep, vec![Declaration::Global { command: expected_global_definition() }]);
}

#[test]
fn sweep_declares_each_guild_once_and_the_global_command_last() {
    let guilds = vec![30, 10, 20];
    let sweep = registration_sweep(&guilds);
    assert_eq!(
        sweep,
        vec![
            Declaration::Guild { guild: 30, commands: expected_guild_definitions() },
            Declaration::Guild { guild: 10, commands: expected_guild_definitions() },
            Declaration::Guild { guild: 20, commands: expected_guild_definitions() },
            Declaration::Global { command: expected_global_definition() },
        ]
    );
    for guild in guilds {
        assert_eq!(guild_declarations_for(&sweep, guild), 1);
    }
    assert_eq!(guild_declarations_for(&sweep, 40), 0);
    assert_eq!(global_declarations(&sweep), 1);
}

#[test]
fn sweep_counts_for_many_guilds() {
    for count in [0u64, 1, 2, 17, 200] {
        let guilds: Vec<u64> = (0..count).map(|i| 1000 + i).collect();
        let sweep = registration_sweep(&guilds);
        assert_eq!(sweep.len() as u64, count + 1);
        assert_eq!(global_declarations(&sweep), 1);
        for guild in &guilds {
            assert_eq!(guild_declarations_for(&sweep, *guild), 1);
        }
    }
}

#[test]
fn sweep_follows_the_list_where_it_repeats_a_guild() {
    let sweep = registration_sweep(&vec![5, 6, 5]);
    assert_eq!(sweep.len(), 4);
    assert_eq!(guild_declarations_for(&sweep, 5), 2);
    assert_eq!(guild_declarations_for(&sweep, 6), 1);
    assert_eq!(global_declarations(&sweep), 1);
}

#[test]
fn ready_signal_leads_to_ready_from_either_phase() {
    for phase in [Phase::Disconnected, Phase::Ready] {
        let (next, sweep) = on_ready(phase, &vec![1, 2]);
        assert_eq!(next, Phase::Ready);
        assert_eq!(sweep, registration_sweep(&vec![1, 2]));
    }
}

#[test]
fn every_ready_signal_plans_the_whole_sweep_again() {
    let guilds = vec![9];
    let (phase, first) = on_ready(Phase::Disconnected, &guilds);
    let (_, second) = on_ready(phase, &guilds);
    assert_eq!(first, second);
    assert_eq!(global_declarations(&second), 1);
}
