//! Child processes: what is reported of one that has ended, and which are
//! still running.

use vstd::prelude::*;

verus! {

/// What to run.
#[derive(Debug)]
pub struct SpawnOption {
    pub program: String,
    pub args: Option<Vec<String>>,
    /// The name under which the child can be killed.
    pub cancellation_token: String,
}

/// How a child ended.
#[derive(Debug, Clone, Copy, PartialEq, Eq, Structural)]
pub struct CommandStatus {
    pub success: bool,
    pub code: Option<i32>,
}

/// What a child left behind.
#[derive(Debug)]
pub struct Output {
    pub status: CommandStatus,
    pub stdout: String,
    pub stderr: String,
}

/// The tokens of the children that are running. No token is held twice.
pub struct ProcessTable {
    tokens: Vec<String>,
}

/// Whether no two of `tokens` read the same.
pub open spec fn distinct(tokens: Seq<String>) -> bool {
    forall|i: int, j: int|
        0 <= i < j < tokens.len() ==> (#[trigger] tokens[i])@ != (#[trigger] tokens[j])@
}

/// Whether `token` is among `tokens`.
pub open spec fn holds(tokens: Seq<String>, token: Seq<char>) -> bool {
    exists|i: int| 0 <= i < tokens.len() && (#[trigger] tokens[i])@ == token
}

/// The report of a child that has ended: `Ok` where it succeeded, `Err` where
/// it did not, with its exit code and what it wrote either way.
pub fn command_output(success: bool, code: Option<i32>, stdout: String, stderr: String) -> (result:
    Result<Output, Output>)
    ensures
        result is Ok == success,
        match result {
            Ok(output) => output.status == (CommandStatus { success, code }) && output.stdout
                == stdout && output.stderr == stderr,
            Err(output) => output.status == (CommandStatus { success, code }) && output.stdout
                == stdout && output.stderr == stderr,
        },
{
    let output = Output { status: CommandStatus { success, code }, stdout, stderr };
    if success {
        Ok(output)
    } else {
        Err(output)
    }
}

/// The report of a child that could not be waited for: a failure with the
/// system's error code and no output.
pub fn wait_failed(raw_os_error: Option<i32>) -> (output: Output)
    ensures
        output.status == (CommandStatus { success: false, code: raw_os_error }),
        output.stdout@.len() == 0,
        output.stderr@.len() == 0,
{
    Output {
        status: CommandStatus { success: false, code: raw_os_error },
        stdout: String::new(),
        stderr: String::new(),
    }
}

impl View for ProcessTable {
    type V = Seq<String>;

    closed spec fn view(&self) -> Seq<String> {
        self.tokens@
    }
}

impl ProcessTable {
    #[verifier::type_invariant]
    closed spec fn no_token_twice(&self) -> bool {
        distinct(self.tokens@)
    }

    /// A table without children.
    pub fn new() -> (table: Self)
        ensures
            table@.len() == 0,
    {
        ProcessTable { tokens: Vec::new() }
    }

    fn position(&self, token: &String) -> (at: Option<usize>)
        ensures
            match at {
                Some(i) => i < self@.len() && self@[i as int]@ == token@,
                None => !holds(self@, token@),
            },
    {
        let mut i: usize = 0;
        while i < self.tokens.len()
            invariant
                0 <= i <= self.tokens.len(),
                forall|k: int| 0 <= k < i ==> (#[trigger] self.tokens@[k])@ != token@,
            decreases self.tokens.len() - i,
        {
            if self.tokens[i] == *token {
                return Some(i);
            }
            i = i + 1;
        }
        None
    }

    /// Whether a child runs under `token`.
    pub fn is_running(&self, token: &String) -> (running: bool)
        ensures
            running == holds(self@, token@),
            distinct(self@),
    {
        proof {
            use_type_invariant(self);
        }
        self.position(token).is_some()
    }

    /// Notes that a child was started under `token`. A child that ran under
    /// the same token is no longer known.
    pub fn register(&mut self, token: String)
        ensures
            holds(final(self)@, token@),
            forall|other: Seq<char>|
                other != token@ ==> holds(final(self)@, other) == holds(old(self)@, other),
            distinct(final(self)@),
            final(self)@.len() == old(self)@.len() + if holds(old(self)@, token@) {
                0int
            } else {
                1int
            },
    {
        proof {
            use_type_invariant(&*self);
        }
        match self.position(&token) {
            Some(i) => {
                let ghost before = self.tokens@;
                let mut tokens: Vec<String> = Vec::new();
                std::mem::swap(&mut self.tokens, &mut tokens);
                tokens.set(i, token);
                proof {
                    let after = tokens@;
                    assert(after[i as int]@ == token@);
                    assert forall|other: Seq<char>| other != token@ implies holds(after, other)
                        == holds(before, other) by {
                        if holds(after, other) {
                            let k = choose|k: int| 0 <= k < after.len() && (#[trigger] after[k])@ == other;
                            assert(before[k]@ == other);
                        }
                        if holds(before, other) {
                            let k = choose|k: int| 0 <= k < before.len() && (#[trigger] before[k])@ == other;
                            assert(after[k]@ == other);
                        }
                    }
                    assert forall|a: int, b: int| 0 <= a < b < after.len() implies (#[trigger] after[a])@ != (#[trigger] after[b])@ by {
                        assert(before[a]@ != before[b]@);
                    }
                }
                self.tokens = tokens;
            },
            None => {
                let ghost before = self.tokens@;
                let mut tokens: Vec<String> = Vec::new();
                std::mem::swap(&mut self.tokens, &mut tokens);
                tokens.push(token);
                proof {
                    let after = tokens@;
                    assert(after[before.len() as int]@ == token@);
                    assert forall|other: Seq<char>| other != token@ implies holds(after, other)
                        == holds(before, other) by {
                        if holds(after, other) {
                            let k = choose|k: int| 0 <= k < after.len() && (#[trigger] after[k])@ == other;
                            assert(before[k]@ == other);
                        }
                        if holds(before, other) {
                            let k = choose|k: int| 0 <= k < before.len() && (#[trigger] before[k])@ == other;
                            assert(after[k]@ == other);
                        }
                    }
                    assert forall|a: int, b: int| 0 <= a < b < after.len() implies (#[trigger] after[a])@ != (#[trigger] after[b])@ by {
                        if b < before.len() {
                            assert(before[a]@ != before[b]@);
                        } else {
                            assert(before[a]@ != token@);
                        }
                    }
                }
                self.tokens = tokens;
            },
        }
    }
}

/// Takes in what came of killing the child of `cancellation_token`. A child
/// that was killed is no longer known; one that could not be killed stays, and
/// the error is handed on. A token without a child is no error.
pub fn kill(table: &mut ProcessTable, cancellation_token: &String, killed: Result<(), String>) -> (result:
    Result<(), String>)
    ensures
        match result {
            Ok(_) => {
                &&& !holds(old(table)@, cancellation_token@) || killed is Ok
                &&& !holds(final(table)@, cancellation_token@)
                &&& forall|other: Seq<char>|
                    other != cancellation_token@ ==> holds(final(table)@, other) == holds(
                        old(table)@,
                        other,
                    )
            },
            Err(e) => {
                &&& holds(old(table)@, cancellation_token@)
                &&& killed == Err::<(), String>(e)
                &&& final(table)@ == old(table)@
            },
        },
{
    proof {
        use_type_invariant(&*table);
    }
    match table.position(cancellation_token) {
        Some(i) => match killed {
            Ok(_) => {
                let ghost before = table.tokens@;
                let mut tokens: Vec<String> = Vec::new();
                std::mem::swap(&mut table.tokens, &mut tokens);
                tokens.remove(i);
                proof {
                    let after = tokens@;
                    assert forall|k: int| 0 <= k < after.len() implies (#[trigger] after[k])@
                        != cancellation_token@ by {
                        if k < i {
                            assert(after[k] == before[k]);
                            assert(before[k]@ != before[i as int]@);
                        } else {
                            assert(after[k] == before[k + 1]);
                            assert(before[i as int]@ != before[k + 1]@);
                        }
                    }
                    assert forall|other: Seq<char>| other != cancellation_token@ implies holds(
                        after,
                        other,
                    ) == holds(before, other) by {
                        if holds(after, other) {
                            let k = choose|k: int| 0 <= k < after.len() && (#[trigger] after[k])@ == other;
                            if k < i {
                                assert(before[k]@ == other);
                            } else {
                                assert(before[k + 1]@ == other);
                            }
                        }
                        if holds(before, other) {
                            let k = choose|k: int| 0 <= k < before.len() && (#[trigger] before[k])@ == other;
                            if k < i {
                                assert(after[k]@ == other);
                            } else {
                                assert(after[k - 1]@ == other);
                            }
                        }
                    }
                    assert forall|a: int, b: int| 0 <= a < b < after.len() implies (#[trigger] after[a])@ != (#[trigger] after[b])@ by {
                        let a0 = if a < i { a } else { a + 1 };
                        let b0 = if b < i { b } else { b + 1 };
                        assert(before[a0]@ != before[b0]@);
                    }
                }
                table.tokens = tokens;
                Ok(())
            },
            Err(e) => Err(e),
        },
        None => Ok(()),
    }
}

/// Forgets all children and returns their tokens: the children to kill.
pub fn clear(table: &mut ProcessTable) -> (tokens: Vec<String>)
    ensures
        tokens@ == old(table)@,
        final(table)@.len() == 0,
{
    let mut tokens: Vec<String> = Vec::new();
    std::mem::swap(&mut table.tokens, &mut tokens);
    tokens
}

} // verus!
