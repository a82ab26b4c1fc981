//! The cross-device command protocol.
//!
//! Clients sharing an account leave each other commands — wipe a
//! collection, reset sync state — in their client records. Outgoing
//! commands are deduplicated by identity; applying an incoming command
//! yields exactly one [`CommandStatus`], and only unsupported commands are
//! kept for a later, more capable client to retry. A command-processing
//! error is fatal to the whole sync pass: syncing on after skipping a wipe
//! could merge data that was meant to be discarded.

use vstd::prelude::*;
use crate::error::ErrorKind;

verus! {

/// A cross-device instruction.
#[derive(Debug)]
pub enum Command {
    /// Erases all local data for a specific engine.
    Wipe(String),
    /// Erases all local data.
    WipeAll,
    /// Resets local sync state for a specific engine.
    Reset(String),
    /// Resets local sync state for all engines.
    ResetAll,
}

/// Whether two commands are logically identical.
pub open spec fn cmd_eq(a: Command, b: Command) -> bool {
    match (a, b) {
        (Command::Wipe(x), Command::Wipe(y)) => x@ == y@,
        (Command::WipeAll, Command::WipeAll) => true,
        (Command::Reset(x), Command::Reset(y)) => x@ == y@,
        (Command::ResetAll, Command::ResetAll) => true,
        _ => false,
    }
}

/// Whether `s` holds a command logically identical to `c`.
pub open spec fn spec_contains_cmd(s: Seq<Command>, c: Command) -> bool {
    exists|i: int| 0 <= i < s.len() && cmd_eq(s[i], c)
}

/// Compares two commands for logical identity.
pub fn command_eq(a: &Command, b: &Command) -> (r: bool)
    ensures
        r == cmd_eq(*a, *b),
{
    match (a, b) {
        (Command::Wipe(x), Command::Wipe(y)) => *x == *y,
        (Command::WipeAll, Command::WipeAll) => true,
        (Command::Reset(x), Command::Reset(y)) => *x == *y,
        (Command::ResetAll, Command::ResetAll) => true,
        _ => false,
    }
}

/// Whether `v` holds a command logically identical to `c`.
pub fn commands_contain(v: &Vec<Command>, c: &Command) -> (r: bool)
    ensures
        r == spec_contains_cmd(v@, *c),
{
    let n = v.len();
    let mut i: usize = 0;
    while i < n
        invariant
            0 <= i <= n,
            n == v@.len(),
            forall|j: int| 0 <= j < i ==> !cmd_eq(v@[j], *c),
        decreases n - i,
    {
        if command_eq(&v[i], c) {
            return true;
        }
        i += 1;
    }
    false
}

/// The deduplication of `s`: each command of `s` in order, skipping any
/// logically identical to an earlier one.
pub open spec fn spec_dedupe(s: Seq<Command>) -> Seq<Command>
    decreases s.len(),
{
    if s.len() == 0 {
        Seq::empty()
    } else {
        let rest = spec_dedupe(s.drop_last());
        if spec_contains_cmd(rest, s.last()) {
            rest
        } else {
            rest.push(s.last())
        }
    }
}

/// Drops every command that repeats an earlier one, keeping first
/// occurrences in order: the deduplicated set of outgoing commands.
pub fn dedupe_commands(commands: &Vec<Command>) -> (r: Vec<Command>)
    ensures
        r@ == spec_dedupe(commands@),
{
    let n = commands.len();
    let mut out: Vec<Command> = Vec::new();
    let mut i: usize = 0;
    while i < n
        invariant
            0 <= i <= n,
            n == commands@.len(),
            out@ == spec_dedupe(commands@.take(i as int)),
        decreases n - i,
    {
        let c = commands[i].clone();
        proof {
            assert(commands@.take(i + 1).drop_last() =~= commands@.take(i as int));
            assert(commands@.take(i + 1).last() == commands@[i as int]);
        }
        if !commands_contain(&out, &c) {
            out.push(c);
        }
        proof {
            assert(out@ =~= spec_dedupe(commands@.take(i + 1)));
        }
        i += 1;
    }
    proof {
        assert(commands@.take(n as int) =~= commands@);
    }
    out
}

/// Law: the deduplicated set of outgoing commands holds no two logically
/// identical commands, holds only commands of the input, and still holds
/// every command of the input — nothing known is resent, nothing is lost.
pub proof fn lemma_dedupe_commands(s: Seq<Command>)
    ensures
        forall|i: int, j: int|
            0 <= i < j < spec_dedupe(s).len() ==> !cmd_eq(spec_dedupe(s)[i], spec_dedupe(s)[j]),
        forall|i: int|
            0 <= i < spec_dedupe(s).len() ==> spec_contains_cmd(s, #[trigger] spec_dedupe(s)[i]),
        forall|i: int| 0 <= i < s.len() ==> spec_contains_cmd(spec_dedupe(s), #[trigger] s[i]),
    decreases s.len(),
{
    if s.len() > 0 {
        lemma_dedupe_commands(s.drop_last());
        let rest = spec_dedupe(s.drop_last());
        let full = spec_dedupe(s);
        assert(forall|i: int| 0 <= i < s.len() - 1 ==> s.drop_last()[i] == s[i]);
        if !spec_contains_cmd(rest, s.last()) {
            assert(full == rest.push(s.last()));
            assert forall|i: int, j: int| 0 <= i < j < full.len() implies !cmd_eq(
                full[i],
                full[j],
            ) by {
                if j == full.len() - 1 {
                    assert(full[j] == s.last());
                    assert(!cmd_eq(rest[i], s.last()));
                    lemma_cmd_eq_sym(full[i], full[j]);
                }
            }
            assert(cmd_eq(full[full.len() - 1], s.last())) by {
                lemma_cmd_eq_refl(s.last());
            }
            assert(spec_contains_cmd(s, s.last())) by {
                lemma_cmd_eq_refl(s.last());
            }
        }
        assert forall|i: int| 0 <= i < s.len() implies spec_contains_cmd(
            full,
            #[trigger] s[i],
        ) by {
            if i < s.len() - 1 {
                let j = choose|j: int| 0 <= j < rest.len() && cmd_eq(rest[j], s.drop_last()[i]);
                assert(cmd_eq(full[j], s[i]));
            } else {
                if spec_contains_cmd(rest, s.last()) {
                    let j = choose|j: int| 0 <= j < rest.len() && cmd_eq(rest[j], s.last());
                    assert(cmd_eq(full[j], s[i]));
                } else {
                    assert(cmd_eq(full[full.len() - 1], s[i])) by {
                        lemma_cmd_eq_refl(s.last());
                    }
                }
            }
        }
        assert forall|i: int| 0 <= i < full.len() implies spec_contains_cmd(
            s,
            #[trigger] full[i],
        ) by {
            if i < rest.len() {
                let j = choose|j: int| 0 <= j < s.drop_last().len() && cmd_eq(
                    s.drop_last()[j],
                    rest[i],
                );
                assert(cmd_eq(s[j], full[i]));
            } else {
                assert(cmd_eq(s[s.len() - 1], full[i])) by {
                    lemma_cmd_eq_refl(s.last());
                }
            }
        }
    }
}

/// Logical identity of commands is symmetric.
proof fn lemma_cmd_eq_sym(a: Command, b: Command)
    ensures
        cmd_eq(a, b) == cmd_eq(b, a),
{
}

/// Logical identity of commands is reflexive.
proof fn lemma_cmd_eq_refl(c: Command)
    ensures
        cmd_eq(c, c),
{
}

impl Clone for Command {
    /// A clone is equal to the original.
    fn clone(&self) -> (r: Self)
        ensures
            r == *self,
    {
        match self {
            Command::Wipe(n) => Command::Wipe(n.clone()),
            Command::WipeAll => Command::WipeAll,
            Command::Reset(n) => Command::Reset(n.clone()),
            Command::ResetAll => Command::ResetAll,
        }
    }
}

/// The outcome of applying one incoming command. Applied and ignored
/// commands are removed from the recipient's record and never retried;
/// unsupported ones are kept so a future, more capable client retries
/// them.
#[derive(Clone, Copy, Debug, PartialEq, Eq, Structural, Hash)]
pub enum CommandStatus {
    Applied,
    Ignored,
    Unsupported,
}

/// The type of a client device.
#[derive(Clone, Copy, Debug, PartialEq, Eq, Structural, Hash)]
pub enum DeviceType {
    Desktop,
    Mobile,
    Tablet,
}

impl DeviceType {
    /// The wire name of this device type.
    pub fn as_str(self) -> (r: &'static str)
        ensures
            self == DeviceType::Desktop ==> r@ == "desktop"@,
            self == DeviceType::Mobile ==> r@ == "mobile"@,
            self == DeviceType::Tablet ==> r@ == "tablet"@,
    {
        match self {
            DeviceType::Desktop => "desktop",
            DeviceType::Mobile => "mobile",
            DeviceType::Tablet => "tablet",
        }
    }
}

/// This device's identity in its own client record, loaded once per sync
/// pass from the surrounding application state and never mutated here.
#[derive(Clone, Debug)]
pub struct Settings {
    /// The device id of this client, also its record id in the clients
    /// collection.
    pub fxa_device_id: String,
    /// The display name of this client.
    pub device_name: String,
    /// The type of this client.
    pub device_type: DeviceType,
}

/// A command processor applies incoming commands for all stores and yields
/// commands to send to other clients; it also supplies the device
/// settings. Implemented by the embedding sync manager.
pub trait CommandProcessor {
    fn settings(&self) -> &Settings;

    /// Commands to send to other clients. An error halts the sync.
    fn fetch_outgoing_commands(&self) -> Result<Vec<Command>, ErrorKind>;

    /// Applies a command sent to this client. An error halts the sync, to
    /// avoid, say, merging local data that another client asked to wipe.
    fn apply_incoming_command(&mut self, command: Command) -> Result<CommandStatus, ErrorKind>;
}

/// The commands of `log` whose status was unsupported, in order.
pub open spec fn spec_unsupported_of(log: Seq<(Command, CommandStatus)>) -> Seq<Command>
    decreases log.len(),
{
    if log.len() == 0 {
        Seq::empty()
    } else {
        let rest = spec_unsupported_of(log.drop_last());
        if log.last().1 == CommandStatus::Unsupported {
            rest.push(log.last().0)
        } else {
            rest
        }
    }
}

/// Runs every incoming command through the processor and applies the
/// retention rule: applied and ignored commands are dropped from the
/// recipient's record and never retried, unsupported ones are kept so a
/// future, more capable client retries them, and a processing error halts
/// at once — syncing on past a skipped wipe could merge data that was
/// meant to be discarded. The second component records each decision
/// made: the k-th entry pairs the k-th command with the status the
/// processor returned for it, and on success the kept commands are
/// exactly those recorded unsupported, in order.
pub fn process_incoming_commands<P: CommandProcessor>(
    processor: &mut P,
    commands: Vec<Command>,
) -> (r: (Result<Vec<Command>, ErrorKind>, Ghost<Seq<(Command, CommandStatus)>>))
    ensures
        r.1@.len() <= commands@.len(),
        forall|k: int| 0 <= k < r.1@.len() ==> (#[trigger] r.1@[k]).0 == commands@[k],
        r.0 matches Ok(kept) ==> {
            &&& r.1@.len() == commands@.len()
            &&& kept@ == spec_unsupported_of(r.1@)
        },
        commands@.len() == 0 ==> (r.0 matches Ok(kept) && kept@.len() == 0),
{
    let ghost original = commands@;
    let mut remaining = commands;
    let mut kept: Vec<Command> = Vec::new();
    let ghost mut log: Seq<(Command, CommandStatus)> = Seq::empty();
    let ghost mut i: int = 0;
    while remaining.len() > 0
        invariant
            original == commands@,
            0 <= i <= original.len(),
            remaining@ =~= original.skip(i),
            log.len() == i,
            forall|k: int| 0 <= k < i ==> (#[trigger] log[k]).0 == original[k],
            kept@ == spec_unsupported_of(log),
        decreases remaining@.len(),
    {
        let cmd = remaining.remove(0);
        proof {
            assert(original.skip(i)[0] == original[i]);
            assert(remaining@ =~= original.skip(i + 1));
        }
        let status = match processor.apply_incoming_command(cmd.clone()) {
            Ok(status) => status,
            Err(e) => {
                return (Err(e), Ghost(log));
            },
        };
        let ghost cmd_snapshot = cmd;
        match status {
            CommandStatus::Applied => {},
            CommandStatus::Ignored => {},
            CommandStatus::Unsupported => {
                kept.push(cmd);
            },
        }
        proof {
            let prev = log;
            log = prev.push((cmd_snapshot, status));
            assert(log.drop_last() =~= prev);
            assert(kept@ =~= spec_unsupported_of(log));
            i = i + 1;
        }
    }
    (Ok(kept), Ghost(log))
}

/// Whether the engines in `engines` can carry out `c`.
pub open spec fn spec_supported(engines: Seq<String>, c: Command) -> bool {
    match c {
        Command::Wipe(n) => exists|i: int| 0 <= i < engines.len() && engines[i]@ == n@,
        Command::Reset(n) => exists|i: int| 0 <= i < engines.len() && engines[i]@ == n@,
        Command::WipeAll => true,
        Command::ResetAll => true,
    }
}

/// The status applying `c` yields against a client syncing `engines` with
/// `applied` already carried out.
pub open spec fn spec_status(engines: Seq<String>, applied: Seq<Command>, c: Command) -> CommandStatus {
    if !spec_supported(engines, c) {
        CommandStatus::Unsupported
    } else if spec_contains_cmd(applied, c) {
        CommandStatus::Ignored
    } else {
        CommandStatus::Applied
    }
}

/// The status applying `c` against tracker state `t` yields.
pub open spec fn spec_apply_status(t: CommandTracker, c: Command) -> CommandStatus {
    spec_status(t.engines@, t.applied@, c)
}

/// Applies incoming commands exactly once each: a command for an engine
/// this client does not sync is unsupported (kept for retry), a command
/// logically identical to one already applied is ignored, and everything
/// else is applied and recorded, so a repeat is never destructive twice.
pub struct CommandTracker {
    /// The collection names this client can wipe or reset.
    pub engines: Vec<String>,
    /// Every command already applied on this device.
    pub applied: Vec<Command>,
}

impl CommandTracker {
    /// A tracker for a client syncing the given engines, with nothing
    /// applied yet.
    pub fn new(engines: Vec<String>) -> (r: CommandTracker)
        ensures
            r.engines == engines,
            r.applied@.len() == 0,
    {
        CommandTracker { engines, applied: Vec::new() }
    }

    /// Applies one incoming command, returning its status and recording it
    /// when it was applied.
    pub fn apply(&mut self, command: Command) -> (r: CommandStatus)
        ensures
            r == spec_apply_status(*old(self), command),
            final(self).engines == old(self).engines,
            r == CommandStatus::Applied ==> final(self).applied@ == old(self).applied@.push(
                command,
            ),
            r != CommandStatus::Applied ==> final(self).applied@ == old(self).applied@,
    {
        let supported = match &command {
            Command::Wipe(n) => engines_contain(&self.engines, n),
            Command::Reset(n) => engines_contain(&self.engines, n),
            Command::WipeAll => true,
            Command::ResetAll => true,
        };
        if !supported {
            return CommandStatus::Unsupported;
        }
        if commands_contain(&self.applied, &command) {
            return CommandStatus::Ignored;
        }
        self.applied.push(command);
        CommandStatus::Applied
    }
}

/// Whether `engines` holds the name `n`.
pub fn engines_contain(engines: &Vec<String>, n: &String) -> (r: bool)
    ensures
        r == exists|i: int| 0 <= i < engines@.len() && engines@[i]@ == n@,
{
    let len = engines.len();
    let mut i: usize = 0;
    while i < len
        invariant
            0 <= i <= len,
            len == engines@.len(),
            forall|j: int| 0 <= j < i ==> engines@[j]@ != n@,
        decreases len - i,
    {
        if engines[i] == *n {
            return true;
        }
        i += 1;
    }
    false
}

/// Law: a supported command not yet applied is `Applied`, and a logically
/// identical command applied against the resulting state is `Ignored` —
/// the destructive effect happens at most once.
pub proof fn lemma_command_idempotent(engines: Seq<String>, applied: Seq<Command>, c: Command)
    requires
        spec_supported(engines, c),
        !spec_contains_cmd(applied, c),
    ensures
        spec_status(engines, applied, c) == CommandStatus::Applied,
        spec_status(engines, applied.push(c), c) == CommandStatus::Ignored,
{
    assert(cmd_eq(applied.push(c)[applied.len() as int], c));
}

} // verus!
