use crate::mode::{interactive_command, DESKTOP_NAME};
use crate::wide::{encode_wide_c, nul_only_at_end, nul_terminated, utf16_of};
use vstd::prelude::*;

verus! {

/// The next OS call of a launch into the console session's desktop.
#[derive(Debug, Clone, Copy, PartialEq, Eq, Structural)]
pub enum LaunchCall {
    /// Query the console session user's logon token.
    QueryUserToken,
    /// Duplicate that token into a primary, impersonation-capable token.
    DuplicateToken,
    /// Build the user's environment block from the primary token.
    CreateEnvironment,
    /// Create the process with the primary token on the interactive desktop.
    CreateProcess,
    /// Close the new process's main-thread handle.
    CloseThread,
    /// Destroy the environment block.
    DestroyEnvironment,
    /// Close the primary token.
    CloseDuplicate,
    /// Close the logon token.
    CloseUserToken,
    /// Nothing is left to do.
    Finish,
}

/// `TOKEN_ALL_ACCESS`: the access asked for on the duplicated token.
pub const TOKEN_ALL_ACCESS: u32 = 0xF01FF;
/// `SecurityImpersonation`: the impersonation level of the duplicated token.
pub const SECURITY_IMPERSONATION: i32 = 2;
/// `TokenPrimary`: a token that can create a process.
pub const TOKEN_PRIMARY: i32 = 1;
/// `CREATE_UNICODE_ENVIRONMENT`: the environment block holds UTF-16 text.
pub const CREATE_UNICODE_ENVIRONMENT: u32 = 0x400;

/// The two tokens of a launch.
#[derive(Debug, Clone, Copy, PartialEq, Eq, Structural)]
pub enum Token {
    /// The logon token queried for the console session's user; it serves
    /// only to be duplicated.
    User,
    /// Its primary duplicate, which builds the environment and creates the
    /// process.
    Primary,
}

/// The token a call works on.
pub open spec fn token_of(call: LaunchCall) -> Option<Token> {
    match call {
        LaunchCall::DuplicateToken | LaunchCall::CloseUserToken => Some(Token::User),
        LaunchCall::CreateEnvironment | LaunchCall::CreateProcess | LaunchCall::CloseDuplicate => Some(
            Token::Primary,
        ),
        _ => None,
    }
}

impl LaunchCall {
    /// The token this call is made with.
    pub fn token(&self) -> (r: Option<Token>)
        ensures
            r == token_of(*self),
    {
        match self {
            LaunchCall::DuplicateToken | LaunchCall::CloseUserToken => Some(Token::User),
            LaunchCall::CreateEnvironment | LaunchCall::CreateProcess | LaunchCall::CloseDuplicate => {
                Some(Token::Primary)
            },
            _ => None,
        }
    }
}

/// How the logon token is duplicated.
#[derive(Debug, Clone, Copy, PartialEq, Eq, Structural)]
pub struct Duplication {
    pub desired_access: u32,
    pub impersonation_level: i32,
    pub token_type: i32,
}

/// The duplication that turns the logon token into a primary token with
/// full access, usable for impersonation.
pub fn duplication() -> (r: Duplication)
    ensures
        r.desired_access == TOKEN_ALL_ACCESS,
        r.impersonation_level == SECURITY_IMPERSONATION,
        r.token_type == TOKEN_PRIMARY,
{
    Duplication {
        desired_access: TOKEN_ALL_ACCESS,
        impersonation_level: SECURITY_IMPERSONATION,
        token_type: TOKEN_PRIMARY,
    }
}

/// How the process is created: handles are not inherited, and the
/// environment block is UTF-16; the environment block itself does not
/// inherit the service's variables.
#[derive(Debug, Clone, Copy, PartialEq, Eq, Structural)]
pub struct Creation {
    pub creation_flags: u32,
    pub inherit_handles: bool,
    pub inherit_environment: bool,
}

/// The parameters of environment and process creation.
pub fn creation() -> (r: Creation)
    ensures
        r.creation_flags == CREATE_UNICODE_ENVIRONMENT,
        !r.inherit_handles,
        !r.inherit_environment,
{
    Creation {
        creation_flags: CREATE_UNICODE_ENVIRONMENT,
        inherit_handles: false,
        inherit_environment: false,
    }
}

/// Where a launch stands: how many acquisitions succeeded, whether it still
/// acquires, how many of the acquired resources are still held, and the
/// acquisition that failed with its error code.
pub struct LaunchModel {
    pub acquired: int,
    pub acquiring: bool,
    pub held: int,
    pub failure: Option<(LaunchCall, u32)>,
}

/// The number of resources a launch acquires: logon token, primary token,
/// environment block and thread handle.
pub open spec fn steps() -> int {
    4
}

impl LaunchModel {
    pub open spec fn wf(self) -> bool {
        &&& 0 <= self.held <= self.acquired <= steps()
        &&& self.acquiring ==> self.held == self.acquired && self.acquired < steps()
    }

    /// A launch that has not made any call.
    pub open spec fn initial() -> LaunchModel {
        LaunchModel { acquired: 0, acquiring: true, held: 0, failure: None }
    }

    /// The call that acquires the resource of index `i`.
    pub open spec fn acquire_call(i: int) -> LaunchCall {
        if i == 0 {
            LaunchCall::QueryUserToken
        } else if i == 1 {
            LaunchCall::DuplicateToken
        } else if i == 2 {
            LaunchCall::CreateEnvironment
        } else {
            LaunchCall::CreateProcess
        }
    }

    /// The call that releases the resource of index `i`.
    pub open spec fn release_call(i: int) -> LaunchCall {
        if i == 0 {
            LaunchCall::CloseUserToken
        } else if i == 1 {
            LaunchCall::CloseDuplicate
        } else if i == 2 {
            LaunchCall::DestroyEnvironment
        } else {
            LaunchCall::CloseThread
        }
    }

    /// Acquire in order until a call fails or all succeed, then release what
    /// is held, the last acquired first.
    pub open spec fn call(self) -> LaunchCall {
        if self.acquiring {
            Self::acquire_call(self.acquired)
        } else if self.held > 0 {
            Self::release_call(self.held - 1)
        } else {
            LaunchCall::Finish
        }
    }

    /// The launch after the outcome of its current call.
    pub open spec fn after(self, outcome: Result<(), u32>) -> LaunchModel {
        if self.acquiring {
            match outcome {
                Ok(()) => LaunchModel {
                    acquired: self.acquired + 1,
                    acquiring: self.acquired + 1 < steps(),
                    held: self.held + 1,
                    failure: None,
                },
                Err(code) => LaunchModel {
                    acquiring: false,
                    failure: Some((self.call(), code)),
                    ..self
                },
            }
        } else if self.held > 0 {
            LaunchModel { held: self.held - 1, ..self }
        } else {
            self
        }
    }

    /// The number of calls left at most before `Finish`.
    pub open spec fn calls_left(self) -> int {
        if self.acquiring {
            (steps() - self.acquired) + steps()
        } else {
            self.held
        }
    }

    /// The launch after the outcomes of successive calls.
    pub open spec fn run(self, outcomes: Seq<Result<(), u32>>) -> LaunchModel
        decreases outcomes.len(),
    {
        if outcomes.len() == 0 {
            self
        } else {
            self.after(outcomes[0]).run(outcomes.drop_first())
        }
    }

    /// How many release calls the launch issues over successive calls.
    pub open spec fn releases(self, outcomes: Seq<Result<(), u32>>) -> int
        decreases outcomes.len(),
    {
        if outcomes.len() == 0 {
            0
        } else {
            (if !self.acquiring && self.held > 0 { 1int } else { 0int }) + self.after(
                outcomes[0],
            ).releases(outcomes.drop_first())
        }
    }
}

/// One launch of the desktop program into the active console session.
pub struct Launch {
    command_line: Vec<u16>,
    desktop: Vec<u16>,
    progress: Progress,
}

/// The counters of a launch, as [`LaunchModel`] describes them.
#[derive(Clone, Copy)]
struct Progress {
    acquired: u8,
    acquiring: bool,
    held: u8,
    failure: Option<(LaunchCall, u32)>,
}

impl View for Launch {
    type V = LaunchModel;

    closed spec fn view(&self) -> LaunchModel {
        LaunchModel {
            acquired: self.progress.acquired as int,
            acquiring: self.progress.acquiring,
            held: self.progress.held as int,
            failure: self.progress.failure,
        }
    }
}

impl Launch {
    #[verifier::type_invariant]
    closed spec fn inv(&self) -> bool {
        self@.wf()
    }

    /// The command line, UTF-16 with a nul terminator.
    pub closed spec fn command_units(&self) -> Seq<u16> {
        self.command_line@
    }

    /// The interactive desktop the process is placed on, UTF-16 with a nul
    /// terminator.
    pub closed spec fn desktop_units(&self) -> Seq<u16> {
        self.desktop@
    }

    /// The command line handed to process creation.
    pub fn command_line(&self) -> (r: &Vec<u16>)
        ensures
            r@ == self.command_units(),
    {
        &self.command_line
    }

    /// The desktop handed to process creation.
    pub fn desktop(&self) -> (r: &Vec<u16>)
        ensures
            r@ == self.desktop_units(),
    {
        &self.desktop
    }

    /// A launch of `executable_path` in its desktop mode, or `None` when the
    /// command line or the desktop name cannot be passed as a C wide string.
    pub fn new(executable_path: &str) -> (r: Option<Launch>)
        ensures
            r.is_some() == (nul_only_at_end(utf16_of(executable_path@ + " -main"@))
                && nul_only_at_end(utf16_of(DESKTOP_NAME@))),
            r matches Some(l) ==> {
                &&& l@ == LaunchModel::initial()
                &&& l.command_units() == nul_terminated(utf16_of(executable_path@ + " -main"@))
                &&& l.desktop_units() == nul_terminated(utf16_of(DESKTOP_NAME@))
            },
    {
        let command = interactive_command(executable_path);
        let command_line = encode_wide_c(command.as_str());
        let desktop = encode_wide_c(DESKTOP_NAME);
        match (command_line, desktop) {
            (Some(command_line), Some(desktop)) => Some(
                Launch {
                    command_line,
                    desktop,
                    progress: Progress { acquired: 0, acquiring: true, held: 0, failure: None },
                },
            ),
            _ => None,
        }
    }

    /// The call to make now.
    pub fn next_call(&self) -> (r: LaunchCall)
        ensures
            r == self@.call(),
    {
        proof {
            use_type_invariant(self);
        }
        if self.progress.acquiring {
            match self.progress.acquired {
                0 => LaunchCall::QueryUserToken,
                1 => LaunchCall::DuplicateToken,
                2 => LaunchCall::CreateEnvironment,
                _ => LaunchCall::CreateProcess,
            }
        } else if self.progress.held > 0 {
            match self.progress.held {
                1 => LaunchCall::CloseUserToken,
                2 => LaunchCall::CloseDuplicate,
                3 => LaunchCall::DestroyEnvironment,
                _ => LaunchCall::CloseThread,
            }
        } else {
            LaunchCall::Finish
        }
    }

    /// Records the outcome of the call made now; a release's outcome does not
    /// change what follows.
    pub fn complete(&mut self, outcome: Result<(), u32>)
        ensures
            final(self)@ == old(self)@.after(outcome),
            final(self).command_units() == old(self).command_units(),
            final(self).desktop_units() == old(self).desktop_units(),
    {
        proof {
            use_type_invariant(&*self);
        }
        let call = self.next_call();
        let p = self.progress;
        let next = if p.acquiring {
            match outcome {
                Ok(()) => Progress {
                    acquired: p.acquired + 1,
                    acquiring: p.acquired + 1 < 4,
                    held: p.held + 1,
                    failure: None,
                },
                Err(code) => Progress { acquiring: false, failure: Some((call, code)), ..p },
            }
        } else if p.held > 0 {
            Progress { held: p.held - 1, ..p }
        } else {
            p
        };
        self.progress = next;
    }

    /// Whether the process was created.
    pub fn launched(&self) -> (r: bool)
        ensures
            r == (self@.acquired == steps()),
    {
        self.progress.acquired == 4
    }

    /// The acquisition that failed, with the OS error code, for the log.
    pub fn failure(&self) -> (r: Option<(LaunchCall, u32)>)
        ensures
            r == self@.failure,
    {
        self.progress.failure
    }
}

/// Each call brings a launch nearer to `Finish` and keeps it well formed.
pub proof fn lemma_launch_step(m: LaunchModel, outcome: Result<(), u32>)
    requires
        m.wf(),
    ensures
        m.after(outcome).wf(),
        m.call() != LaunchCall::Finish ==> m.after(outcome).calls_left() < m.calls_left(),
        m.call() == LaunchCall::Finish <==> m.calls_left() == 0,
        m.calls_left() >= 0,
{
}

/// Driven to its end, a launch holds nothing: after as many outcomes as it
/// has calls left, it asks for `Finish`, and it has issued one release call
/// for each resource it acquired, on every path of failures.
pub proof fn lemma_launch_releases_all(m: LaunchModel, outcomes: Seq<Result<(), u32>>)
    requires
        m.wf(),
        outcomes.len() >= m.calls_left(),
    ensures
        m.run(outcomes).wf(),
        m.run(outcomes).held == 0,
        m.run(outcomes).call() == LaunchCall::Finish,
        m.releases(outcomes) == (m.run(outcomes).acquired - m.run(outcomes).held) - (m.acquired
            - m.held),
    decreases outcomes.len(),
{
    if outcomes.len() > 0 && m.calls_left() > 0 {
        lemma_launch_step(m, outcomes[0]);
        lemma_launch_releases_all(m.after(outcomes[0]), outcomes.drop_first());
    } else {
        lemma_launch_step(m, Ok(()));
        lemma_launch_finished_stays(m, outcomes);
    }
}

/// A finished launch stays finished.
proof fn lemma_launch_finished_stays(m: LaunchModel, outcomes: Seq<Result<(), u32>>)
    requires
        m.wf(),
        m.calls_left() == 0,
    ensures
        m.run(outcomes) == m,
        m.releases(outcomes) == 0,
    decreases outcomes.len(),
{
    if outcomes.len() > 0 {
        lemma_launch_finished_stays(m.after(outcomes[0]), outcomes.drop_first());
    }
}

/// A launch from its start, whatever the outcomes of its calls, ends with
/// every acquired resource released exactly once.
pub proof fn lemma_launch_leaves_nothing(outcomes: Seq<Result<(), u32>>)
    requires
        outcomes.len() >= 2 * steps(),
    ensures
        LaunchModel::initial().run(outcomes).held == 0,
        LaunchModel::initial().run(outcomes).call() == LaunchCall::Finish,
        LaunchModel::initial().releases(outcomes) == LaunchModel::initial().run(outcomes).acquired,
{
    lemma_launch_releases_all(LaunchModel::initial(), outcomes);
}

} // verus!
