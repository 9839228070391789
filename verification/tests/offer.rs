use gln_auth::handlers::is_command_allowed;
use gln_auth::registry::{build_commands, default_access, Action, ArgKind, DefaultAccess};

#[test]
fn eight_commands_are_offered() {
    let commands = build_commands();
    let names: Vec<&str> = commands.iter().map(|c| c.names[0].as_str()).collect();
    assert_eq!(
        names,
        vec![
            "register",
            "login",
            "premium",
            "logout",
            "changepassword",
            "unregister",
            "setpremium",
            "forcelogin",
        ]
    );
    assert_eq!(commands[1].names, vec!["login".to_string(), "l".to_string(), "log".to_string()]);
    assert_eq!(commands[0].action, Action::Register);
    assert_eq!(commands[0].description, "Register an account");
    assert_eq!(commands[0].args[1].name, "confirm");
    assert_eq!(commands[0].args[1].kind, ArgKind::Quotable);
    assert_eq!(commands[6].args[0].kind, ArgKind::SingleWord);
    assert_eq!(commands[6].args[1].kind, ArgKind::OnOff);
    assert!(commands[2].args.is_empty());
}

#[test]
fn admin_commands_are_for_operators() {
    for command in build_commands() {
        let expected = match command.action {
            Action::SetPremium | Action::ForceLogin => DefaultAccess::Operators,
            _ => DefaultAccess::Everyone,
        };
        assert_eq!(default_access(&command.permission), expected);
    }
    assert_eq!(default_access("some.node"), DefaultAccess::Everyone);
}

#[test]
fn player_commands_pass_the_freeze() {
    for command in build_commands() {
        if command.permission == "glnauth.player" {
            for name in command.names {
                assert!(is_command_allowed(&name));
            }
        }
    }
}
