//! The commands that are offered, as plain data: names, arguments and permissions.

use crate::handlers::{allowed_word, texts};
use crate::text::same_text;
use vstd::prelude::*;

verus! {

/// What a command does.
#[derive(Debug, Clone, Copy, PartialEq, Eq, Structural)]
pub enum Action {
    Register,
    Login,
    Premium,
    Logout,
    ChangePassword,
    Unregister,
    SetPremium,
    ForceLogin,
}

/// What may stand for an argument.
#[derive(Debug, Clone, Copy, PartialEq, Eq, Structural)]
pub enum ArgKind {
    /// A word, or several in quotes.
    Quotable,
    /// A single word.
    SingleWord,
    /// The literal `on` or `off`.
    OnOff,
}

/// An argument of a command.
pub struct ArgSpec {
    pub name: String,
    pub kind: ArgKind,
}

/// A command.
pub struct CommandSpec {
    pub action: Action,
    /// The name, followed by aliases.
    pub names: Vec<String>,
    pub description: String,
    /// The arguments, in order; all of them are needed.
    pub args: Vec<ArgSpec>,
    /// The permission node that the command takes.
    pub permission: String,
}

/// The content of a command.
#[verifier::ext_equal]
pub struct CommandModel {
    pub action: Action,
    pub names: Seq<Seq<char>>,
    pub description: Seq<char>,
    pub args: Seq<(Seq<char>, ArgKind)>,
    pub permission: Seq<char>,
}

impl View for CommandSpec {
    type V = CommandModel;

    open spec fn view(&self) -> CommandModel {
        CommandModel {
            action: self.action,
            names: texts(self.names@),
            description: self.description@,
            args: self.args@.map_values(|a: ArgSpec| (a.name@, a.kind)),
            permission: self.permission@,
        }
    }
}

/// Permission node for player-facing commands.
pub open spec fn player_permission() -> Seq<char> {
    "glnauth.player"@
}

/// Permission node for admin commands.
pub open spec fn admin_permission() -> Seq<char> {
    "glnauth.admin"@
}

/// The commands that are offered.
pub open spec fn command_list() -> Seq<CommandModel> {
    seq![
        CommandModel {
            action: Action::Register,
            names: seq!["register"@],
            description: "Register an account"@,
            args: seq![("password"@, ArgKind::Quotable), ("confirm"@, ArgKind::Quotable)],
            permission: player_permission(),
        },
        CommandModel {
            action: Action::Login,
            names: seq!["login"@, "l"@, "log"@],
            description: "Login to your account"@,
            args: seq![("password"@, ArgKind::Quotable)],
            permission: player_permission(),
        },
        CommandModel {
            action: Action::Premium,
            names: seq!["premium"@],
            description: "Verify your name as premium"@,
            args: Seq::empty(),
            permission: player_permission(),
        },
        CommandModel {
            action: Action::Logout,
            names: seq!["logout"@],
            description: "Logout of your account"@,
            args: Seq::empty(),
            permission: player_permission(),
        },
        CommandModel {
            action: Action::ChangePassword,
            names: seq!["changepassword"@],
            description: "Change your password"@,
            args: seq![("old"@, ArgKind::Quotable), ("new"@, ArgKind::Quotable)],
            permission: player_permission(),
        },
        CommandModel {
            action: Action::Unregister,
            names: seq!["unregister"@],
            description: "Delete your account"@,
            args: seq![("password"@, ArgKind::Quotable)],
            permission: player_permission(),
        },
        CommandModel {
            action: Action::SetPremium,
            names: seq!["setpremium"@],
            description: "Toggle the premium flag of an account"@,
            args: seq![("name"@, ArgKind::SingleWord), ("state"@, ArgKind::OnOff)],
            permission: admin_permission(),
        },
        CommandModel {
            action: Action::ForceLogin,
            names: seq!["forcelogin"@],
            description: "Force-login a registered account"@,
            args: seq![("name"@, ArgKind::SingleWord)],
            permission: admin_permission(),
        },
    ]
}

/// A list with one name.
fn one_name(name: &str) -> (r: Vec<String>)
    ensures
        texts(r@) == seq![name@],
{
    let mut v: Vec<String> = Vec::new();
    v.push(name.to_owned());
    assert(texts(v@) =~= seq![name@]);
    v
}

/// The content of a list of arguments.
pub open spec fn arg_list(args: Seq<ArgSpec>) -> Seq<(Seq<char>, ArgKind)> {
    args.map_values(|a: ArgSpec| (a.name@, a.kind))
}

/// A list with one argument.
fn one_arg(name: &str, kind: ArgKind) -> (r: Vec<ArgSpec>)
    ensures
        arg_list(r@) == seq![(name@, kind)],
{
    let mut v: Vec<ArgSpec> = Vec::new();
    v.push(ArgSpec { name: name.to_owned(), kind });
    assert(arg_list(v@) =~= seq![(name@, kind)]);
    v
}

/// A list with two arguments.
fn two_args(name: &str, kind: ArgKind, name2: &str, kind2: ArgKind) -> (r: Vec<ArgSpec>)
    ensures
        arg_list(r@) == seq![(name@, kind), (name2@, kind2)],
{
    let mut v = one_arg(name, kind);
    let ghost before = v@;
    v.push(ArgSpec { name: name2.to_owned(), kind: kind2 });
    proof {
        assert(arg_list(before).len() == 1);
        assert(arg_list(before)[0] == (name@, kind));
        assert(arg_list(v@) =~= seq![(name@, kind), (name2@, kind2)]);
    }
    v
}

/// A list without arguments.
fn no_args() -> (r: Vec<ArgSpec>)
    ensures
        arg_list(r@) == Seq::<(Seq<char>, ArgKind)>::empty(),
{
    let v: Vec<ArgSpec> = Vec::new();
    assert(arg_list(v@) =~= Seq::<(Seq<char>, ArgKind)>::empty());
    v
}

/// A player-facing command.
fn player_command(action: Action, names: Vec<String>, description: &str, args: Vec<ArgSpec>) -> (r:
    CommandSpec)
    ensures
        r@ == (CommandModel {
            action,
            names: texts(names@),
            description: description@,
            args: arg_list(args@),
            permission: player_permission(),
        }),
{
    let description = description.to_owned();
    CommandSpec { action, names, description, args, permission: "glnauth.player".to_owned() }
}

/// An admin command.
fn admin_command(action: Action, names: Vec<String>, description: &str, args: Vec<ArgSpec>) -> (r:
    CommandSpec)
    ensures
        r@ == (CommandModel {
            action,
            names: texts(names@),
            description: description@,
            args: arg_list(args@),
            permission: admin_permission(),
        }),
{
    let description = description.to_owned();
    CommandSpec { action, names, description, args, permission: "glnauth.admin".to_owned() }
}

/// The content of a list of commands.
pub open spec fn commands_content(v: Seq<CommandSpec>) -> Seq<CommandModel> {
    v.map_values(|c: CommandSpec| c@)
}

/// The commands that are offered.
pub fn build_commands() -> (r: Vec<CommandSpec>)
    ensures
        commands_content(r@) == command_list(),
{
    let mut v: Vec<CommandSpec> = Vec::new();
    v.push(
        player_command(
            Action::Register,
            one_name("register"),
            "Register an account",
            two_args("password", ArgKind::Quotable, "confirm", ArgKind::Quotable),
        ),
    );
    let mut login_names: Vec<String> = Vec::new();
    login_names.push("login".to_owned());
    login_names.push("l".to_owned());
    login_names.push("log".to_owned());
    assert(texts(login_names@) =~= seq!["login"@, "l"@, "log"@]);
    v.push(
        player_command(
            Action::Login,
            login_names,
            "Login to your account",
            one_arg("password", ArgKind::Quotable),
        ),
    );
    v.push(
        player_command(
            Action::Premium,
            one_name("premium"),
            "Verify your name as premium",
            no_args(),
        ),
    );
    v.push(
        player_command(Action::Logout, one_name("logout"), "Logout of your account", no_args()),
    );
    v.push(
        player_command(
            Action::ChangePassword,
            one_name("changepassword"),
            "Change your password",
            two_args("old", ArgKind::Quotable, "new", ArgKind::Quotable),
        ),
    );
    v.push(
        player_command(
            Action::Unregister,
            one_name("unregister"),
            "Delete your account",
            one_arg("password", ArgKind::Quotable),
        ),
    );
    v.push(
        admin_command(
            Action::SetPremium,
            one_name("setpremium"),
            "Toggle the premium flag of an account",
            two_args("name", ArgKind::SingleWord, "state", ArgKind::OnOff),
        ),
    );
    v.push(
        admin_command(
            Action::ForceLogin,
            one_name("forcelogin"),
            "Force-login a registered account",
            one_arg("name", ArgKind::SingleWord),
        ),
    );
    assert(commands_content(v@) =~= command_list());
    v
}

/// Who may run the commands of a permission node by default.
#[derive(Debug, Clone, Copy, PartialEq, Eq, Structural)]
pub enum DefaultAccess {
    Everyone,
    /// Operators of level three and above.
    Operators,
}

/// Who may run the commands of a permission node by default: the admin node is for operators.
pub fn default_access(permission: &str) -> (r: DefaultAccess)
    ensures
        r == (if permission@ == admin_permission() {
            DefaultAccess::Operators
        } else {
            DefaultAccess::Everyone
        }),
{
    if same_text(permission, "glnauth.admin") {
        DefaultAccess::Operators
    } else {
        DefaultAccess::Everyone
    }
}

/// A frozen player can run every player-facing command, under its name and under its aliases.
pub proof fn frozen_players_can_run_player_commands(i: int, j: int)
    requires
        0 <= i < command_list().len(),
        0 <= j < command_list()[i].names.len(),
        command_list()[i].permission == player_permission(),
    ensures
        allowed_word(command_list()[i].names[j]),
{
    reveal_strlit("glnauth.player");
    reveal_strlit("glnauth.admin");
    assert(player_permission().len() != admin_permission().len());
}

/// The two permission nodes differ, so that admin commands are kept from ordinary players.
pub proof fn permission_nodes_differ()
    ensures
        player_permission() != admin_permission(),
{
    reveal_strlit("glnauth.player");
    reveal_strlit("glnauth.admin");
    assert(player_permission().len() != admin_permission().len());
}

/// How a command is called, what it says of itself, what it takes and who may run it.
pub open spec fn is_called(
    c: CommandModel,
    names: Seq<Seq<char>>,
    description: Seq<char>,
    args: Seq<(Seq<char>, ArgKind)>,
    permission: Seq<char>,
) -> bool {
    c.names == names && c.description == description && c.args == args && c.permission == permission
}

/// Every action is offered once, under its name, with its arguments, to players or to admins.
pub proof fn every_action_is_offered(i: int, action: Action)
    requires
        0 <= i < command_list().len(),
        command_list()[i].action == action,
    ensures
        command_list().len() == 8,
        forall|j: int| 0 <= j < 8 && j != i ==> (#[trigger] command_list()[j]).action != action,
        ({
            let c = command_list()[i];
            let quoted = ArgKind::Quotable;
            let word = ArgKind::SingleWord;
            let player = "glnauth.player"@;
            let admin = "glnauth.admin"@;
            match action {
                Action::Register => is_called(
                    c,
                    seq!["register"@],
                    "Register an account"@,
                    seq![("password"@, quoted), ("confirm"@, quoted)],
                    player,
                ),
                Action::Login => is_called(
                    c,
                    seq!["login"@, "l"@, "log"@],
                    "Login to your account"@,
                    seq![("password"@, quoted)],
                    player,
                ),
                Action::Premium => is_called(
                    c,
                    seq!["premium"@],
                    "Verify your name as premium"@,
                    seq![],
                    player,
                ),
                Action::Logout => is_called(
                    c,
                    seq!["logout"@],
                    "Logout of your account"@,
                    seq![],
                    player,
                ),
                Action::ChangePassword => is_called(
                    c,
                    seq!["changepassword"@],
                    "Change your password"@,
                    seq![("old"@, quoted), ("new"@, quoted)],
                    player,
                ),
                Action::Unregister => is_called(
                    c,
                    seq!["unregister"@],
                    "Delete your account"@,
                    seq![("password"@, quoted)],
                    player,
                ),
                Action::SetPremium => is_called(
                    c,
                    seq!["setpremium"@],
                    "Toggle the premium flag of an account"@,
                    seq![("name"@, word), ("state"@, ArgKind::OnOff)],
                    admin,
                ),
                Action::ForceLogin => is_called(
                    c,
                    seq!["forcelogin"@],
                    "Force-login a registered account"@,
                    seq![("name"@, word)],
                    admin,
                ),
            }
        }),
        admin_permission() == "glnauth.admin"@,
{
}

/// The models of commands show all of them.
pub proof fn command_specs_are_complete(v: Seq<CommandSpec>, c: CommandSpec, i: int)
    ensures
        commands_content(v).len() == v.len(),
        0 <= i < v.len() ==> commands_content(v)[i] == v[i]@,
        c@.action == c.action && c@.description == c.description@,
        c@.permission == c.permission@,
        c@.names.len() == c.names@.len() && c@.args.len() == c.args@.len(),
        0 <= i < c.names@.len() ==> c@.names[i] == c.names@[i]@,
        0 <= i < c.args@.len() ==> c@.args[i] == (c.args@[i].name@, c.args@[i].kind),
{
}

} // verus!
