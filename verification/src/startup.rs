//! Startup hooks: the shell command line built from the configured
//! auto-start list, and the value that carries it to the process spawner.

use vstd::prelude::*;

verus! {

/// The auto-start commands joined into one shell command line, each pair of
/// neighbours separated by a shell conjunction.
pub open spec fn spec_joined(parts: Seq<Seq<char>>) -> Seq<char>
    decreases parts.len(),
{
    if parts.len() == 0 {
        Seq::empty()
    } else if parts.len() == 1 {
        parts[0]
    } else {
        spec_joined(parts.drop_last()) + " && "@ + parts.last()
    }
}

/// Join the configured auto-start commands into one command line for a
/// single shell invocation.
pub fn join_auto_start(commands: &Vec<String>) -> (r: String)
    ensures
        r@ == spec_joined(commands@.map_values(|s: String| s@)),
{
    let mut r = String::new();
    let n = commands.len();
    let mut i: usize = 0;
    while i < n
        invariant
            n == commands@.len(),
            0 <= i <= n,
            r@ == spec_joined(commands@.map_values(|s: String| s@).take(i as int)),
        decreases n - i,
    {
        let ghost parts = commands@.map_values(|s: String| s@);
        if i > 0 {
            r.append(" && ");
        }
        r.append(commands[i].as_str());
        proof {
            assert(parts.take(i + 1 as int).drop_last() =~= parts.take(i as int));
            assert(parts.take(i + 1 as int).last() == parts[i as int]);
            if i == 0 {
                assert(r@ =~= spec_joined(parts.take(i + 1 as int)));
            } else {
                assert(r@ =~= spec_joined(parts.take(i + 1 as int)));
            }
        }
        i += 1;
    }
    proof {
        assert(commands@.map_values(|s: String| s@).take(n as int) =~= commands@.map_values(
            |s: String| s@,
        ));
    }
    r
}

/// A startup hook: one shell command line spawned once when the manager
/// starts.
#[derive(PartialEq, Eq, Debug, Clone)]
pub struct SpawnOnStartup {
    pointer: String,
}

impl SpawnOnStartup {
    /// The command line this hook will spawn.
    pub closed spec fn spec_command_line(self) -> Seq<char> {
        self.pointer@
    }

    /// Wrap a command line for spawning at startup.
    pub fn new(pointer: String) -> (r: Self)
        ensures
            r.spec_command_line() == pointer@,
    {
        SpawnOnStartup { pointer }
    }

    /// The command line to hand to the shell.
    pub fn command_line(&self) -> (r: &String)
        ensures
            r@ == self.spec_command_line(),
    {
        &self.pointer
    }

    /// The argument vector for the spawned shell: the conventional
    /// command-string flag, then the command line itself.
    pub fn arguments(&self) -> (r: Vec<String>)
        ensures
            r@.len() == 2,
            r@[0]@ == "-c"@,
            r@[1]@ == self.spec_command_line(),
    {
        let mut r: Vec<String> = Vec::new();
        r.push(String::from_str("-c"));
        r.push(self.pointer.clone());
        r
    }
}

} // verus!
