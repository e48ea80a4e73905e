//! Starting and stopping sessions.
//!
//! At most one session is current.  Starting a session cancels the one
//! before; stopping cancels the current one and records none.  Cancellation
//! is a flag that the tasks of a session read at their own pace: a session is
//! known by a number that is never handed out twice, and its flag is up while
//! it is the current session and has not been stopped.

use vstd::prelude::*;
use vstd::string::StringExecFns;

verus! {

/// One session as the controller records it.
pub struct NiconicoClient {
    id: u64,
    running: bool,
}

/// A recorded session as specifications see it.
pub struct ClientView {
    pub id: nat,
    pub running: bool,
}

impl View for NiconicoClient {
    type V = ClientView;

    closed spec fn view(&self) -> ClientView {
        ClientView { id: self.id as nat, running: self.running }
    }
}

/// The task to launch for a session that was started.
#[derive(Clone, Debug, PartialEq, Eq)]
pub struct Launch {
    pub session: u64,
    pub url: String,
}

/// Why no session was started.
#[derive(Clone, Copy, Debug, PartialEq, Eq, Structural)]
pub enum SessionError {
    /// Every session number has been handed out.
    Exhausted,
}

/// The record of the current session.
pub struct NiconicoState {
    client: Option<NiconicoClient>,
    issued: u64,
}

/// The record as specifications see it: the current session, and how many
/// session numbers have been handed out.
pub struct StateView {
    pub client: Option<ClientView>,
    pub issued: nat,
}

impl View for NiconicoState {
    type V = StateView;

    closed spec fn view(&self) -> StateView {
        StateView {
            client: match self.client {
                Some(c) => Some(c@),
                None => None,
            },
            issued: self.issued as nat,
        }
    }
}

/// One call on the record.
pub enum Call {
    Start,
    Stop,
    Finish { session: nat },
}

impl StateView {
    /// The recorded session carries a number that was handed out.
    pub open spec fn wf(self) -> bool {
        self.client matches Some(c) ==> c.id < self.issued
    }

    /// Whether the flag of `session` is up.
    pub open spec fn runs(self, session: nat) -> bool {
        self.client matches Some(c) && c.id == session && c.running
    }

    /// The record after a session was started.
    pub open spec fn started(self) -> StateView {
        StateView {
            client: Some(ClientView { id: self.issued, running: true }),
            issued: self.issued + 1,
        }
    }

    /// The record after the current session was stopped.
    pub open spec fn stopped(self) -> StateView {
        StateView { client: None, issued: self.issued }
    }

    /// The record after the task of `session` ended.
    pub open spec fn finished(self, session: nat) -> StateView {
        match self.client {
            Some(c) => if c.id == session {
                StateView { client: Some(ClientView { id: c.id, running: false }), ..self }
            } else {
                self
            },
            None => self,
        }
    }

    /// The record after one call.
    pub open spec fn after(self, call: Call) -> StateView {
        match call {
            Call::Start => self.started(),
            Call::Stop => self.stopped(),
            Call::Finish { session } => self.finished(session),
        }
    }

    /// The record after the calls, in order.
    pub open spec fn after_all(self, calls: Seq<Call>) -> StateView
        decreases calls.len(),
    {
        if calls.len() == 0 {
            self
        } else {
            self.after_all(calls.drop_last()).after(calls.last())
        }
    }
}

/// Calls keep the record well formed and never take a session number back.
pub proof fn lemma_calls_keep_wf(state: StateView, calls: Seq<Call>)
    requires
        state.wf(),
    ensures
        state.after_all(calls).wf(),
        state.issued <= state.after_all(calls).issued,
    decreases calls.len(),
{
    if calls.len() > 0 {
        lemma_calls_keep_wf(state, calls.drop_last());
    }
}

/// At most one session has its flag up.
pub proof fn law_one_session_at_a_time(state: StateView, a: nat, b: nat)
    requires
        state.runs(a),
        state.runs(b),
    ensures
        a == b,
{
}

/// After a stop no session has its flag up.
pub proof fn law_stop_cancels(state: StateView, session: nat)
    ensures
        !state.stopped().runs(session),
{
}

/// After a start the new session has its flag up and the one before has not.
pub proof fn law_start_replaces(state: StateView, session: nat)
    ensures
        state.started().runs(session) <==> session == state.issued,
{
}

/// A session whose flag is down stays cancelled, whatever is called
/// afterwards: its number is not handed out again.
pub proof fn law_cancelled_for_good(state: StateView, session: nat, calls: Seq<Call>)
    requires
        state.wf(),
        session < state.issued,
        !state.runs(session),
    ensures
        !state.after_all(calls).runs(session),
    decreases calls.len(),
{
    if calls.len() > 0 {
        let earlier = calls.drop_last();
        law_cancelled_for_good(state, session, earlier);
        lemma_calls_keep_wf(state, earlier);
    }
}

impl SessionError {
    /// The error in words.
    pub fn message(&self) -> (m: String)
        ensures
            m@ == "No session number is left"@,
    {
        String::from_str("No session number is left")
    }
}

impl NiconicoClient {
    /// The record of session `id`, not started yet.
    pub fn new(id: u64) -> (c: Self)
        ensures
            c@ == (ClientView { id: id as nat, running: false }),
    {
        NiconicoClient { id, running: false }
    }

    /// The session's number.
    pub fn id(&self) -> (id: u64)
        ensures
            id == self@.id,
    {
        self.id
    }

    /// Whether the session's flag is up.
    pub fn is_running(&self) -> (running: bool)
        ensures
            running == self@.running,
    {
        self.running
    }

    /// Raises the flag.  The result tells whether a task is to be launched:
    /// not so where the session runs already.
    pub fn start(&mut self) -> (launch: bool)
        ensures
            launch == !old(self)@.running,
            final(self)@ == (ClientView { running: true, ..old(self)@ }),
    {
        let launch = !self.running;
        self.running = true;
        launch
    }

    /// Lowers the flag.
    pub fn stop(&mut self)
        ensures
            final(self)@ == (ClientView { running: false, ..old(self)@ }),
    {
        self.running = false;
    }
}

impl NiconicoState {
    #[verifier::type_invariant]
    spec fn numbered(self) -> bool {
        self.client matches Some(c) ==> c.id < self.issued
    }

    /// A record without a session.
    pub fn new() -> (s: Self)
        ensures
            s@ == (StateView { client: None, issued: 0 }),
            s@.wf(),
    {
        NiconicoState { client: None, issued: 0 }
    }

    /// A record without a session, on which `issued` session numbers have
    /// been handed out before.
    pub fn with_issued(issued: u64) -> (s: Self)
        ensures
            s@ == (StateView { client: None, issued: issued as nat }),
            s@.wf(),
    {
        NiconicoState { client: None, issued }
    }

    /// The number of the recorded session.
    pub fn current(&self) -> (session: Option<u64>)
        ensures
            self@.wf(),
            match session {
                Some(id) => self@.client matches Some(c) && c.id == id,
                None => self@.client is None,
            },
    {
        proof {
            use_type_invariant(self);
        }
        match &self.client {
            Some(c) => Some(c.id()),
            None => None,
        }
    }

    /// Whether the flag of `session` is up.  The tasks of a session ask this
    /// before each step.
    pub fn is_running(&self, session: u64) -> (running: bool)
        ensures
            self@.wf(),
            running == self@.runs(session as nat),
    {
        proof {
            use_type_invariant(self);
        }
        match &self.client {
            Some(c) => c.id() == session && c.is_running(),
            None => false,
        }
    }

    /// Starts a session on the page at `url`: the recorded session is
    /// cancelled, and a new one is recorded with its flag up.  The result
    /// names the task to launch.  It is an error, and nothing changes, where
    /// no session number is left.
    pub fn start(&mut self, url: String) -> (r: Result<Launch, SessionError>)
        ensures
            final(self)@.wf(),
            old(self)@.issued < u64::MAX ==> (r matches Ok(launch)
                && launch.session == old(self)@.issued && launch.url == url
                && final(self)@ == old(self)@.started()),
            old(self)@.issued >= u64::MAX ==> r == Err::<Launch, SessionError>(
                SessionError::Exhausted,
            ) && final(self)@ == old(self)@,
    {
        proof {
            use_type_invariant(&*self);
        }
        if self.issued == u64::MAX {
            return Err(SessionError::Exhausted);
        }
        let session: u64 = self.issued;
        let mut client = NiconicoClient::new(session);
        client.start();
        *self = NiconicoState { client: Some(client), issued: session + 1 };
        Ok(Launch { session, url })
    }

    /// Stops the current session: its flag goes down and no session is
    /// recorded.
    pub fn stop(&mut self)
        ensures
            final(self)@.wf(),
            final(self)@ == old(self)@.stopped(),
    {
        self.client = None;
    }

    /// Notes that the task of `session` has ended: its flag goes down.
    pub fn finish(&mut self, session: u64)
        ensures
            final(self)@.wf(),
            final(self)@ == old(self)@.finished(session as nat),
    {
        proof {
            use_type_invariant(&*self);
        }
        let mut client: Option<NiconicoClient> = None;
        core::mem::swap(&mut self.client, &mut client);
        match client {
            Some(mut c) => {
                if c.id() == session {
                    c.stop();
                }
                self.client = Some(c);
            },
            None => {},
        }
    }
}

} // verus!
