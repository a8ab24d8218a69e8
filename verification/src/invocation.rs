//! Invocation records.  A `Command` holds a program name, the ordered
//! argument list as it will appear on the command line (the program itself
//! standing first), the environment overrides, and the standard-output
//! redirection target.  The record is built incrementally and later executed
//! by the driver around the library; `log_line` renders the exact command
//! line that is logged before every execution.

use vstd::prelude::*;

verus! {

/// Where a recorded invocation's standard output goes when it is run.
#[derive(Debug)]
pub enum StdoutTarget {
    /// Inherited from the invoking process.
    Inherit,
    /// A pipe, read incrementally by the invoker.
    Piped,
    /// Discarded.
    Null,
    /// A file opened for create-or-truncate write.
    File(String),
}

/// The success flag of a finished process.
#[derive(Debug)]
pub struct ExitStatus(pub bool);

impl ExitStatus {
    /// Whether the process exited successfully.
    pub fn success(&self) -> (r: bool)
        ensures
            r == self.0,
    {
        self.0
    }
}

/// The command line rendered from `parts`, separated by single spaces.
pub open spec fn joined(parts: Seq<Seq<char>>) -> Seq<char>
    decreases parts.len(),
{
    if parts.len() == 0 {
        Seq::empty()
    } else if parts.len() == 1 {
        parts[0]
    } else {
        joined(parts.drop_last()) + seq![' '] + parts.last()
    }
}

/// Appending one part extends the rendered line by a space and the part.
pub proof fn lemma_joined_push(s: Seq<Seq<char>>, x: Seq<char>)
    requires
        s.len() >= 1,
    ensures
        joined(s.push(x)) == joined(s) + seq![' '] + x,
{
    assert(s.push(x).drop_last() =~= s);
    assert(s.push(x).last() == x);
}

/// No environment key occurs twice among `envs`.
pub open spec fn distinct_keys(envs: Seq<(Seq<char>, Seq<char>)>) -> bool {
    forall|i: int, j: int| 0 <= i < j < envs.len() ==> envs[i].0 != envs[j].0
}

/// An external-process invocation being assembled: program, arguments,
/// environment overrides and output redirection.
#[derive(Debug)]
pub struct Command {
    commands: Vec<String>,
    envs: Vec<(String, String)>,
    stdout: StdoutTarget,
}

impl Command {
    /// The argument list, program name first.
    pub closed spec fn args_view(&self) -> Seq<Seq<char>> {
        self.commands.deep_view()
    }

    /// The environment overrides, in the order they were first set.
    pub closed spec fn envs_view(&self) -> Seq<(Seq<char>, Seq<char>)> {
        self.envs.deep_view()
    }

    /// The standard-output redirection target.
    pub closed spec fn stdout_view(&self) -> StdoutTarget {
        self.stdout
    }

    /// A record is well formed when it names a program and no environment
    /// key occurs twice.
    pub closed spec fn wf(&self) -> bool {
        &&& self.commands.len() >= 1
        &&& distinct_keys(self.envs_view())
    }

    /// Starts a record for `program`, with no arguments, no environment
    /// overrides, and inherited standard output.
    pub fn new(program: &str) -> (c: Command)
        ensures
            c.wf(),
            c.args_view() =~= seq![program@],
            c.envs_view() =~= Seq::<(Seq<char>, Seq<char>)>::empty(),
            c.stdout_view() is Inherit,
    {
        let mut commands: Vec<String> = Vec::new();
        commands.push(program.to_owned());
        let c = Command { commands, envs: Vec::new(), stdout: StdoutTarget::Inherit };
        proof {
            assert(c.args_view() =~= seq![program@]);
            assert(c.envs_view() =~= Seq::<(Seq<char>, Seq<char>)>::empty());
        }
        c
    }

    /// Appends one positional argument.
    pub fn arg(&mut self, a: &str)
        requires
            old(self).wf(),
        ensures
            final(self).wf(),
            final(self).args_view() =~= old(self).args_view().push(a@),
            final(self).envs_view() == old(self).envs_view(),
            final(self).stdout_view() == old(self).stdout_view(),
    {
        self.commands.push(a.to_owned());
        proof {
            assert(final(self).args_view() =~= old(self).args_view().push(a@));
        }
    }

    /// Appends each of `args` in order.
    pub fn args(&mut self, args: &Vec<String>)
        requires
            old(self).wf(),
        ensures
            final(self).wf(),
            final(self).args_view() =~= old(self).args_view() + args.deep_view(),
            final(self).envs_view() == old(self).envs_view(),
            final(self).stdout_view() == old(self).stdout_view(),
    {
        let n = args.len();
        let mut i: usize = 0;
        while i < n
            invariant
                i <= n,
                n == args.len(),
                self.wf(),
                self.args_view() =~= old(self).args_view() + args.deep_view().take(i as int),
                self.envs_view() == old(self).envs_view(),
                self.stdout_view() == old(self).stdout_view(),
            decreases n - i,
        {
            self.arg(args[i].as_str());
            proof {
                assert(args.deep_view().take(i + 1 as int) =~= args.deep_view().take(
                    i as int,
                ).push(args.deep_view()[i as int]));
            }
            i += 1;
        }
        proof {
            assert(args.deep_view().take(n as int) =~= args.deep_view());
        }
    }

    /// Sets one environment override, replacing the value of a key already
    /// present and appending a fresh key at the end.
    pub fn env(&mut self, key: &str, val: &str)
        requires
            old(self).wf(),
        ensures
            final(self).wf(),
            final(self).args_view() == old(self).args_view(),
            final(self).stdout_view() == old(self).stdout_view(),
            (forall|j: int|
                0 <= j < old(self).envs_view().len() ==> old(self).envs_view()[j].0 != key@)
                ==> final(self).envs_view() =~= old(self).envs_view().push((key@, val@)),
            forall|j: int|
                0 <= j < old(self).envs_view().len() && old(self).envs_view()[j].0 == key@
                    ==> final(self).envs_view() =~= old(self).envs_view().update(
                    j,
                    (key@, val@),
                ),
    {
        let n = self.envs.len();
        let mut i: usize = 0;
        while i < n
            invariant
                i <= n,
                n == self.envs.len(),
                self == old(self),
                old(self).wf(),
                forall|l: int| 0 <= l < i ==> self.envs_view()[l].0 != key@,
            decreases n - i,
        {
            if crate::strutil::str_eq(self.envs[i].0.as_str(), key) {
                let ghost found: int = i as int;
                let ghost oldv = old(self).envs_view();
                self.envs[i] = (key.to_owned(), val.to_owned());
                proof {
                    let newv = final(self).envs_view();
                    assert(oldv[found].0 == key@);
                    assert(newv =~= oldv.update(found, (key@, val@)));
                    assert forall|x: int, y: int| 0 <= x < y < newv.len() implies newv[x].0
                        != newv[y].0 by {
                        assert(oldv[x].0 != oldv[y].0);
                    }
                    assert forall|j: int|
                        0 <= j < oldv.len() && oldv[j].0 == key@ implies newv =~= oldv.update(
                        j,
                        (key@, val@),
                    ) by {
                        if j != found {
                            if j < found {
                                assert(oldv[j].0 != oldv[found].0);
                            } else {
                                assert(oldv[found].0 != oldv[j].0);
                            }
                        }
                    }
                }
                return ;
            }
            i += 1;
        }
        let ghost oldv = old(self).envs_view();
        self.envs.push((key.to_owned(), val.to_owned()));
        proof {
            let newv = final(self).envs_view();
            assert(newv =~= oldv.push((key@, val@)));
            assert forall|x: int, y: int| 0 <= x < y < newv.len() implies newv[x].0 != newv[y].0 by {
                if y < oldv.len() {
                    assert(oldv[x].0 != oldv[y].0);
                } else {
                    assert(oldv[x].0 != key@);
                }
            }
        }
    }

    /// Redirects standard output.
    pub fn stdout(&mut self, target: StdoutTarget)
        requires
            old(self).wf(),
        ensures
            final(self).wf(),
            final(self).stdout_view() == target,
            final(self).args_view() == old(self).args_view(),
            final(self).envs_view() == old(self).envs_view(),
    {
        self.stdout = target;
    }

    /// The program to run: the first entry of the argument list.
    pub fn program(&self) -> (r: &String)
        requires
            self.wf(),
        ensures
            r.deep_view() == self.args_view()[0],
    {
        &self.commands[0]
    }

    /// The full argument list, program name first.
    pub fn argv(&self) -> (r: &Vec<String>)
        ensures
            r.deep_view() == self.args_view(),
    {
        &self.commands
    }

    /// The environment overrides.
    pub fn env_pairs(&self) -> (r: &Vec<(String, String)>)
        ensures
            r.deep_view() == self.envs_view(),
    {
        &self.envs
    }

    /// The standard-output redirection target.
    pub fn stdout_target(&self) -> (r: &StdoutTarget)
        ensures
            *r == self.stdout_view(),
    {
        &self.stdout
    }

    /// The debug-log line emitted before this invocation runs.
    pub fn log_line(&self) -> (r: String)
        requires
            self.wf(),
        ensures
            r@ == "CALL "@ + joined(self.args_view()),
    {
        let mut r = "CALL ".to_owned();
        r.append(self.commands[0].as_str());
        let n = self.commands.len();
        let mut i: usize = 1;
        while i < n
            invariant
                1 <= i <= n,
                n == self.commands.len(),
                r@ == "CALL "@ + joined(self.args_view().take(i as int)),
            decreases n - i,
        {
            r.append(" ");
            r.append(self.commands[i].as_str());
            proof {
                reveal_strlit(" ");
                lemma_joined_push(self.args_view().take(i as int), self.args_view()[i as int]);
                assert(self.args_view().take(i + 1 as int) =~= self.args_view().take(
                    i as int,
                ).push(self.args_view()[i as int]));
                assert(r@ =~= "CALL "@ + joined(self.args_view().take(i + 1 as int)));
            }
            i += 1;
        }
        proof {
            assert(self.args_view().take(n as int) =~= self.args_view());
        }
        r
    }
}

} // verus!
