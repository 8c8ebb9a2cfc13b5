//! The launcher that holds a privileged command back until it is told to go.

use vstd::prelude::*;
use vstd::string::*;

verus! {

/// Reads one line, and becomes the command named by its arguments if that line is the launch
/// token; without the token it ends without having started anything.
pub const GATED_EXEC_SCRIPT: &'static str = "\nIFS= read -r state || exit 125\n[ \"$state\" = \"go\" ] || exit 125\nexec \"$@\"\n";

/// The name under which the launcher runs its script.
pub const LAUNCHER_NAME: &'static str = "codex-update-launcher";

/// The line that opens the launch gate.
pub const LAUNCH_TOKEN: &'static str = "go\n";

/// A program to run, with its arguments and with what changes in its environment. The texts are
/// the raw bytes that the system takes.
#[derive(Debug, Clone, PartialEq, Eq)]
pub struct CommandLine {
    pub program: Vec<u8>,
    pub args: Vec<Vec<u8>>,
    /// Variables that are set, or removed where there is no value.
    pub envs: Vec<(Vec<u8>, Option<Vec<u8>>)>,
    pub current_dir: Option<Vec<u8>>,
}

/// The bytes of each of several texts.
pub open spec fn bytes_of(texts: Seq<Vec<u8>>) -> Seq<Seq<u8>> {
    texts.map_values(|text: Vec<u8>| text@)
}

/// The arguments that make a shell hold a command back: the script, then the command itself.
pub open spec fn gated_args(command: CommandLine) -> Seq<Seq<u8>> {
    seq!["-c".spec_bytes(), GATED_EXEC_SCRIPT.spec_bytes(), LAUNCHER_NAME.spec_bytes()] + seq![
        command.program@,
    ] + bytes_of(command.args@)
}

/// Puts a command behind a launch gate: the launcher runs in the same environment and directory,
/// and becomes the command once it reads the launch token.
pub fn gated_command(command: CommandLine, launcher_program: Vec<u8>) -> (launcher: CommandLine)
    ensures
        launcher.program == launcher_program,
        bytes_of(launcher.args@) == gated_args(command),
        launcher.envs == command.envs,
        launcher.current_dir == command.current_dir,
{
    let CommandLine { program, args: command_args, envs, current_dir } = command;
    let mut command_args = command_args;
    let mut args: Vec<Vec<u8>> = Vec::new();
    args.push("-c".as_bytes_vec());
    args.push(GATED_EXEC_SCRIPT.as_bytes_vec());
    args.push(LAUNCHER_NAME.as_bytes_vec());
    args.push(program);
    args.append(&mut command_args);
    assert(bytes_of(args@) =~= gated_args(command));
    CommandLine { program: launcher_program, args, envs, current_dir }
}

/// The arguments after the launcher's own are the command, word for word: what the launcher
/// becomes is what was to be run.
pub proof fn law_gate_keeps_the_command(command: CommandLine)
    ensures
        gated_args(command).skip(3) == seq![command.program@] + bytes_of(command.args@),
        gated_args(command).take(3) == seq![
            "-c".spec_bytes(),
            GATED_EXEC_SCRIPT.spec_bytes(),
            LAUNCHER_NAME.spec_bytes(),
        ],
{
    assert(gated_args(command).skip(3) =~= seq![command.program@] + bytes_of(command.args@));
    assert(gated_args(command).take(3) =~= seq![
        "-c".spec_bytes(),
        GATED_EXEC_SCRIPT.spec_bytes(),
        LAUNCHER_NAME.spec_bytes(),
    ]);
}

/// The launch token is the word that the script waits for, and nothing more; on any
/// other the script ends before it becomes the command.
pub proof fn law_launch_token_is_what_the_script_waits_for()
    ensures
        LAUNCH_TOKEN@ == seq!['g', 'o', '\n'],
        GATED_EXEC_SCRIPT@ == "\nIFS= read -r state || exit 125\n[ \"$state\" = \""@
            + LAUNCH_TOKEN@.drop_last() + "\" ] || exit 125\nexec \"$@\"\n"@,
{
    reveal_strlit("go\n");
    reveal_strlit("\nIFS= read -r state || exit 125\n[ \"$state\" = \"");
    reveal_strlit("\" ] || exit 125\nexec \"$@\"\n");
    reveal_strlit(
        "\nIFS= read -r state || exit 125\n[ \"$state\" = \"go\" ] || exit 125\nexec \"$@\"\n",
    );
    assert(LAUNCH_TOKEN@ =~= seq!['g', 'o', '\n']);
    assert(GATED_EXEC_SCRIPT@ =~= "\nIFS= read -r state || exit 125\n[ \"$state\" = \""@
        + LAUNCH_TOKEN@.drop_last() + "\" ] || exit 125\nexec \"$@\"\n"@);
}

/// The launcher is given three arguments of its own, then the program, then each argument of the
/// command in its place, byte for byte.
pub proof fn law_gate_passes_every_argument_on(command: CommandLine)
    ensures
        gated_args(command).len() == command.args@.len() + 4,
        gated_args(command)[0] == "-c".spec_bytes(),
        gated_args(command)[1] == GATED_EXEC_SCRIPT.spec_bytes(),
        gated_args(command)[2] == "codex-update-launcher".spec_bytes(),
        gated_args(command)[3] == command.program@,
        forall|i: int|
            0 <= i < command.args@.len() ==> #[trigger] gated_args(command)[i + 4]
                == command.args@[i]@,
{
}

/// The bytes of several texts are those of each, in order.
pub proof fn law_bytes_are_those_of_each_text(texts: Seq<Vec<u8>>)
    ensures
        bytes_of(texts).len() == texts.len(),
        forall|i: int| 0 <= i < texts.len() ==> #[trigger] bytes_of(texts)[i] == texts[i]@,
{
}

} // verus!
