//! Finding a program that can show dialogues in a graphical environment.
use vstd::prelude::*;
use vstd::string::StringExecFns;
use crate::config::{Config, SshAgentConfirmation};
use crate::text;
use crate::text_laws::law_occurrence_is_found;
use crate::unicode;

verus! {

/// How long, in seconds, each step of a probe may take.
pub const PROBE_TIMEOUT: u64 = 2;

/// A message and the messages of its causes, the nearest first.
#[derive(Debug)]
pub struct Trouble {
    pub message: String,
    pub causes: Vec<String>,
}

impl Trouble {
    /// All messages, the outermost first.
    pub open spec fn messages(self) -> Seq<Seq<char>> {
        seq![self.message@] + self.causes.deep_view()
    }

    /// Trouble without a cause.
    pub fn plain(message: String) -> (r: Self)
        ensures
            r.messages() == seq![message@],
    {
        let causes: Vec<String> = Vec::new();
        assert(seq![message@] + causes.deep_view() =~= seq![message@]);
        Trouble { message, causes }
    }

    /// The same trouble, seen from outside.
    pub fn in_context(self, context: String) -> (r: Self)
        ensures
            r.messages() == seq![context@] + self.messages(),
    {
        let ghost before = self.messages();
        let mut causes = self.causes;
        causes.insert(0, self.message);
        assert(causes.deep_view() =~= before);
        Trouble { message: context, causes }
    }

    /// The message with its causes.
    pub fn full_text(&self) -> (r: String)
        ensures
            r@ == text::joined(self.messages(), ": "@),
    {
        let mut all: Vec<String> = Vec::new();
        all.push(self.message.clone());
        let mut i: usize = 0;
        while i < self.causes.len()
            invariant
                i <= self.causes@.len(),
                all.deep_view() == seq![self.message@] + self.causes.deep_view().take(i as int),
            decreases self.causes@.len() - i,
        {
            let ghost before = all.deep_view();
            all.push(self.causes[i].clone());
            assert(all.deep_view() =~= before.push(self.causes@[i as int]@));
            assert(self.causes.deep_view().take(i + 1) =~= self.causes.deep_view().take(
                i as int,
            ).push(self.causes@[i as int]@));
            i = i + 1;
            assert(all.deep_view() =~= seq![self.message@] + self.causes.deep_view().take(
                i as int,
            ));
        }
        assert(self.causes.deep_view().take(i as int) =~= self.causes.deep_view());
        text::join(&all, ": ")
    }
}

/// The outcome of a step that may take too long.
#[derive(Debug)]
pub enum Timed<T> {
    /// The step took longer than [`PROBE_TIMEOUT`].
    Elapsed(Trouble),
    Ended(Result<T, Trouble>),
}

/// What a program left behind when it ended.
#[derive(Debug)]
pub struct Output {
    pub success: bool,
    pub stdout: Vec<u8>,
    pub stderr: Vec<u8>,
}

/// How a program ended, with the words for it.
#[derive(Debug)]
pub struct ExitStatus {
    pub success: bool,
    pub text: String,
}

/// Whether the version that a program reports is that of a graphical one.
pub open spec fn is_gui_version(version: Seq<char>) -> bool {
    ||| text::occurs_in(version, "gnome"@)
    ||| text::occurs_in(version, "gtk"@)
    ||| text::occurs_in(version, "qt"@)
    ||| text::occurs_in(version, "w32"@)
    ||| text::occurs_in(version, "mac"@)
    ||| text::occurs_in(version, "fltk"@)
    ||| text::occurs_in(version, "efl"@)
}

/// Whether the version that a program reports is that of a graphical one.
pub fn gui_version(version: &str) -> (r: bool)
    ensures
        r == is_gui_version(version@),
{
    text::contains(version, "gnome") || text::contains(version, "gtk") || text::contains(
        version,
        "qt",
    ) || text::contains(version, "w32") || text::contains(version, "mac") || text::contains(
        version,
        "fltk",
    ) || text::contains(version, "efl")
}

/// The message for a program that cannot be started.
pub open spec fn start_failure(pinentry: Seq<char>) -> Seq<char> {
    "failed to start pinentry '"@ + pinentry + "'"@
}

/// A probe of a program: it has to report a graphical version, greet and leave
/// when told to.
#[derive(Debug)]
pub enum Probe {
    /// Runs the program to report its version.
    CheckVersion { pinentry: String },
    /// Starts the program for a conversation.
    Start { pinentry: String },
    /// Reads the first line that the program says.
    ReadGreeting,
    /// Tells the program to leave.
    SayBye,
    AwaitExit,
    Done(Result<(), Trouble>),
}

#[derive(Debug)]
pub enum ProbeEvent {
    VersionChecked(Timed<Output>),
    Started(Result<(), Trouble>),
    /// The line, which is empty where the program said nothing.
    GreetingRead(Timed<String>),
    ByeSaid(Result<(), Trouble>),
    Exited(Timed<ExitStatus>),
}

impl Probe {
    /// Whether the probe failed with these messages.
    pub open spec fn fails_with(self, messages: Seq<Seq<char>>) -> bool {
        self matches Probe::Done(Err(trouble)) && trouble.messages() == messages
    }

    /// Where the probe goes for a program that ran to report its version, with
    /// what it said in lower case, and what it complained of.
    pub open spec fn judges(
        self,
        pinentry: String,
        success: bool,
        version: Seq<char>,
        complaint: Seq<char>,
    ) -> bool {
        if !success {
            self.fails_with(
                seq!["pinentry version check failed: "@ + unicode::trimmed(complaint)],
            )
        } else if !is_gui_version(version) {
            self.fails_with(seq!["pinentry did not identify itself as a GUI implementation"@])
        } else {
            self == (Probe::Start { pinentry })
        }
    }

    /// Where an event leads. One that the state does not wait for changes
    /// nothing.
    pub open spec fn steps_to(self, event: ProbeEvent, after: Self) -> bool {
        match (self, event) {
            (Probe::CheckVersion { pinentry }, ProbeEvent::VersionChecked(outcome)) => {
                match outcome {
                    Timed::Elapsed(cause) => after.fails_with(
                        seq!["pinentry version check timed out"@] + cause.messages(),
                    ),
                    Timed::Ended(Err(cause)) => after.fails_with(
                        seq![start_failure(pinentry@)] + cause.messages(),
                    ),
                    Timed::Ended(Ok(output)) => after.judges(
                        pinentry,
                        output.success,
                        unicode::lowercase(unicode::utf8_lossy(output.stdout@)),
                        unicode::utf8_lossy(output.stderr@),
                    ),
                }
            },
            (Probe::Start { pinentry }, ProbeEvent::Started(result)) => match result {
                Ok(_) => after == Probe::ReadGreeting,
                Err(cause) => after.fails_with(seq![start_failure(pinentry@)] + cause.messages()),
            },
            (Probe::ReadGreeting, ProbeEvent::GreetingRead(outcome)) => match outcome {
                Timed::Elapsed(cause) => after.fails_with(
                    seq!["pinentry greeting timed out"@] + cause.messages(),
                ),
                Timed::Ended(Err(trouble)) => after == Probe::Done(Err(trouble)),
                Timed::Ended(Ok(line)) => if text::has_prefix(line@, "OK"@) {
                    after == Probe::SayBye
                } else {
                    after.fails_with(seq!["pinentry did not return an Assuan greeting"@])
                },
            },
            (Probe::SayBye, ProbeEvent::ByeSaid(result)) => after == match result {
                Ok(_) => Probe::AwaitExit,
                Err(trouble) => Probe::Done(Err(trouble)),
            },
            (Probe::AwaitExit, ProbeEvent::Exited(outcome)) => match outcome {
                Timed::Elapsed(cause) => after.fails_with(
                    seq!["pinentry shutdown timed out"@] + cause.messages(),
                ),
                Timed::Ended(Err(trouble)) => after == Probe::Done(Err(trouble)),
                Timed::Ended(Ok(status)) => if status.success {
                    after == Probe::Done(Ok(()))
                } else {
                    after.fails_with(seq!["pinentry exited with "@ + status.text@])
                },
            },
            _ => after == self,
        }
    }
}

fn fail(message: &str) -> (r: Probe)
    ensures
        r.fails_with(seq![message@]),
{
    Probe::Done(Err(Trouble::plain(message.to_owned())))
}

fn fail_in_context(context: &str, cause: Trouble) -> (r: Probe)
    ensures
        r.fails_with(seq![context@] + cause.messages()),
{
    Probe::Done(Err(cause.in_context(context.to_owned())))
}

fn cannot_start(pinentry: &str) -> (r: String)
    ensures
        r@ == start_failure(pinentry@),
{
    let mut r = text::concat("failed to start pinentry '", pinentry);
    r.append("'");
    r
}

/// Goes on for a program that ran to report its version.
pub fn judge_version(pinentry: String, success: bool, version: &str, complaint: &str) -> (r: Probe)
    ensures
        r.judges(pinentry, success, version@, complaint@),
{
    if !success {
        let complaint = unicode::trim(complaint);
        let message = text::concat("pinentry version check failed: ", complaint.as_str());
        return fail(message.as_str());
    }
    if !gui_version(version) {
        return fail("pinentry did not identify itself as a GUI implementation");
    }
    Probe::Start { pinentry }
}

/// Moves a probe on.
pub fn probe_gui_pinentry(state: Probe, event: ProbeEvent) -> (after: Probe)
    ensures
        state.steps_to(event, after),
{
    match (state, event) {
        (Probe::CheckVersion { pinentry }, ProbeEvent::VersionChecked(outcome)) => match outcome {
            Timed::Elapsed(cause) => fail_in_context("pinentry version check timed out", cause),
            Timed::Ended(Err(cause)) => {
                let context = cannot_start(pinentry.as_str());
                fail_in_context(context.as_str(), cause)
            },
            Timed::Ended(Ok(output)) => {
                let version = unicode::from_utf8_lossy(output.stdout.as_slice());
                let version = version.as_str().to_lowercase();
                let complaint = unicode::from_utf8_lossy(output.stderr.as_slice());
                judge_version(pinentry, output.success, version.as_str(), complaint.as_str())
            },
        },
        (Probe::Start { pinentry }, ProbeEvent::Started(result)) => match result {
            Ok(_) => Probe::ReadGreeting,
            Err(cause) => {
                let context = cannot_start(pinentry.as_str());
                fail_in_context(context.as_str(), cause)
            },
        },
        (Probe::ReadGreeting, ProbeEvent::GreetingRead(outcome)) => match outcome {
            Timed::Elapsed(cause) => fail_in_context("pinentry greeting timed out", cause),
            Timed::Ended(Err(trouble)) => Probe::Done(Err(trouble)),
            Timed::Ended(Ok(line)) => if text::starts_with(line.as_str(), "OK") {
                Probe::SayBye
            } else {
                fail("pinentry did not return an Assuan greeting")
            },
        },
        (Probe::SayBye, ProbeEvent::ByeSaid(result)) => match result {
            Ok(_) => Probe::AwaitExit,
            Err(trouble) => Probe::Done(Err(trouble)),
        },
        (Probe::AwaitExit, ProbeEvent::Exited(outcome)) => match outcome {
            Timed::Elapsed(cause) => fail_in_context("pinentry shutdown timed out", cause),
            Timed::Ended(Err(trouble)) => Probe::Done(Err(trouble)),
            Timed::Ended(Ok(status)) => if status.success {
                Probe::Done(Ok(()))
            } else {
                let message = text::concat("pinentry exited with ", status.text.as_str());
                fail(message.as_str())
            },
        },
        (state, _) => state,
    }
}

/// Whether `events` lead through `states` one after the other.
pub open spec fn probe_run(states: Seq<Probe>, events: Seq<ProbeEvent>) -> bool {
    &&& states.len() == events.len() + 1
    &&& forall|i: int|
        0 <= i < events.len() ==> states[i].steps_to(#[trigger] events[i], states[i + 1])
}

/// Whether the event reports a graphical version.
pub open spec fn reports_gui(state: Probe, event: ProbeEvent) -> bool {
    &&& state is CheckVersion
    &&& event matches ProbeEvent::VersionChecked(Timed::Ended(Ok(output)))
    &&& output.success
    &&& is_gui_version(unicode::lowercase(unicode::utf8_lossy(output.stdout@)))
}

/// Whether the event is a greeting.
pub open spec fn greets(state: Probe, event: ProbeEvent) -> bool {
    &&& state is ReadGreeting
    &&& event matches ProbeEvent::GreetingRead(Timed::Ended(Ok(line)))
    &&& text::has_prefix(line@, "OK"@)
}

/// Whether the program left as it was told to.
pub open spec fn leaves(state: Probe, event: ProbeEvent) -> bool {
    &&& state is AwaitExit
    &&& event matches ProbeEvent::Exited(Timed::Ended(Ok(status)))
    &&& status.success
}

/// A program is found usable only if it reported a graphical version, greeted
/// and left as it was told to, in this order.
pub proof fn law_usable_program_is_graphical(states: Seq<Probe>, events: Seq<ProbeEvent>)
    requires
        probe_run(states, events),
        states[0] is CheckVersion,
        states.last() matches Probe::Done(Ok(_)),
    ensures
        exists|a: int, b: int, c: int|
            {
                &&& 0 <= a < b < c < events.len()
                &&& #[trigger] reports_gui(states[a], events[a])
                &&& #[trigger] greets(states[b], events[b])
                &&& #[trigger] leaves(states[c], events[c])
            },
{
    let c = lemma_usable_left(states, events, events.len() as int);
    let b = lemma_awaited_greeted(states, events, c);
    let a = lemma_started_reported(states, events, b);
    assert(reports_gui(states[a], events[a]));
    assert(greets(states[b], events[b]));
    assert(leaves(states[c], events[c]));
}

proof fn lemma_usable_left(states: Seq<Probe>, events: Seq<ProbeEvent>, n: int) -> (c: int)
    requires
        probe_run(states, events),
        states[0] is CheckVersion,
        0 <= n <= events.len(),
        states[n] matches Probe::Done(Ok(_)),
    ensures
        0 <= c < n,
        leaves(states[c], events[c]),
    decreases n,
{
    assert(states[n - 1].steps_to(events[n - 1], states[n]));
    if states[n - 1] is AwaitExit {
        n - 1
    } else {
        lemma_usable_left(states, events, n - 1)
    }
}

proof fn lemma_awaited_greeted(states: Seq<Probe>, events: Seq<ProbeEvent>, n: int) -> (b: int)
    requires
        probe_run(states, events),
        states[0] is CheckVersion,
        0 <= n <= events.len(),
        states[n] is SayBye || states[n] is AwaitExit,
    ensures
        0 <= b < n,
        greets(states[b], events[b]),
    decreases n,
{
    assert(states[n - 1].steps_to(events[n - 1], states[n]));
    if states[n - 1] is ReadGreeting {
        n - 1
    } else {
        lemma_awaited_greeted(states, events, n - 1)
    }
}

proof fn lemma_started_reported(states: Seq<Probe>, events: Seq<ProbeEvent>, n: int) -> (a: int)
    requires
        probe_run(states, events),
        states[0] is CheckVersion,
        0 <= n <= events.len(),
        states[n] is Start || states[n] is ReadGreeting,
    ensures
        0 <= a < n,
        reports_gui(states[a], events[a]),
    decreases n,
{
    assert(states[n - 1].steps_to(events[n - 1], states[n]));
    if states[n - 1] is CheckVersion {
        n - 1
    } else {
        lemma_started_reported(states, events, n - 1)
    }
}

/// The programs that are tried where none is configured, in this order.
pub open spec fn candidates() -> Seq<Seq<char>> {
    seq![
        "pinentry-gnome3"@,
        "pinentry-qt"@,
        "pinentry-qt5"@,
        "pinentry-gui"@,
        "pinentry-gtk"@,
        "pinentry-w32"@,
        "pinentry-gtk-2"@,
        "pinentry-mac"@,
        "pinentry-fltk"@,
    ]
}

/// The candidates, in order.
pub fn ssh_agent_pinentry_candidates() -> (r: Vec<String>)
    ensures
        r.deep_view() == candidates(),
{
    let mut r: Vec<String> = Vec::new();
    r.push("pinentry-gnome3".to_owned());
    r.push("pinentry-qt".to_owned());
    r.push("pinentry-qt5".to_owned());
    r.push("pinentry-gui".to_owned());
    r.push("pinentry-gtk".to_owned());
    r.push("pinentry-w32".to_owned());
    r.push("pinentry-gtk-2".to_owned());
    r.push("pinentry-mac".to_owned());
    r.push("pinentry-fltk".to_owned());
    assert(r.deep_view() =~= candidates());
    r
}

/// The search for a usable program.
#[derive(Debug)]
pub enum ResolvePinentry {
    /// Probes the program that the configuration names.
    ProbeConfigured { pinentry: String },
    /// Probes a candidate; `errors` tells of those before.
    ProbeCandidate { candidate: String, errors: Vec<String> },
    /// The program, `None` where none is needed, or the message of the failure.
    Done(Result<Option<String>, String>),
}

/// What a probe found.
#[derive(Debug)]
pub enum ResolveEvent {
    Probed(Result<(), Trouble>),
}

/// The message for a configured program that cannot be used.
pub open spec fn unusable(pinentry: Seq<char>, trouble: Trouble) -> Seq<char> {
    "configured ssh_agent_pinentry '"@ + pinentry + "' is unusable: "@ + text::joined(
        trouble.messages(),
        ": "@,
    )
}

/// The message where no candidate can be used.
pub open spec fn none_usable(errors: Seq<Seq<char>>) -> Seq<char> {
    "ssh_agent_confirmation=always requires a usable GUI pinentry; configure ssh_agent_pinentry or install one of "@
        + text::joined(candidates(), ", "@) + "\n"@ + text::joined(errors, "\n"@)
}

impl ResolvePinentry {
    /// Whether the next candidate is probed after those that `tried` tells of,
    /// or the search fails.
    pub open spec fn goes_on(self, tried: Seq<Seq<char>>) -> bool {
        if tried.len() < candidates().len() {
            &&& self matches ResolvePinentry::ProbeCandidate { candidate, errors }
            &&& candidate@ == candidates()[tried.len() as int]
            &&& errors.deep_view() == tried
        } else {
            self matches ResolvePinentry::Done(Err(message)) && message@ == none_usable(tried)
        }
    }

    /// Where an event leads.
    pub open spec fn steps_to(self, event: ResolveEvent, after: Self) -> bool {
        match (self, event) {
            (
                ResolvePinentry::ProbeConfigured { pinentry },
                ResolveEvent::Probed(result),
            ) => match result {
                Ok(_) => after == Self::Done(Ok(Some(pinentry))),
                Err(trouble) => after matches ResolvePinentry::Done(Err(message)) && message@
                    == unusable(pinentry@, trouble),
            },
            (
                ResolvePinentry::ProbeCandidate { candidate, errors },
                ResolveEvent::Probed(result),
            ) => match result {
                Ok(_) => after == Self::Done(Ok(Some(candidate))),
                Err(trouble) => after.goes_on(
                    errors.deep_view().push(candidate@ + ": "@ + trouble.message@),
                ),
            },
            (ResolvePinentry::Done(_), _) => after == self,
        }
    }

    /// Whether this is the first state for a configuration.
    pub open spec fn starts(self, config: Config) -> bool {
        match config.ssh_agent_pinentry {
            Some(pinentry) => self == (Self::ProbeConfigured { pinentry }),
            None => if config.ssh_agent_confirmation == SshAgentConfirmation::Never {
                self == Self::Done(Ok(None))
            } else {
                self.goes_on(Seq::empty())
            },
        }
    }

    /// The first state for a configuration. Without a configured program one is
    /// looked for only if signatures are to be confirmed.
    pub fn start(config: &Config) -> (r: Self)
        ensures
            r.starts(*config),
    {
        if let Some(pinentry) = &config.ssh_agent_pinentry {
            return ResolvePinentry::ProbeConfigured { pinentry: pinentry.clone() };
        }
        if config.ssh_agent_confirmation == SshAgentConfirmation::Never {
            return ResolvePinentry::Done(Ok(None));
        }
        let errors: Vec<String> = Vec::new();
        assert(errors.deep_view() =~= Seq::empty());
        try_candidate(errors)
    }
}

fn try_candidate(errors: Vec<String>) -> (r: ResolvePinentry)
    ensures
        r.goes_on(errors.deep_view()),
{
    let candidates = ssh_agent_pinentry_candidates();
    assert(candidates.deep_view().len() == candidates@.len());
    assert(errors.deep_view().len() == errors@.len());
    if errors.len() < candidates.len() {
        let candidate = candidates[errors.len()].clone();
        assert(candidate@ == candidates.deep_view()[errors@.len() as int]);
        return ResolvePinentry::ProbeCandidate { candidate, errors };
    }
    let names = text::join(&candidates, ", ");
    let reasons = text::join(&errors, "\n");
    let mut message = text::concat(
        "ssh_agent_confirmation=always requires a usable GUI pinentry; configure ssh_agent_pinentry or install one of ",
        names.as_str(),
    );
    message.append("\n");
    message.append(reasons.as_str());
    ResolvePinentry::Done(Err(message))
}

/// Moves the search for a usable program on.
pub fn resolve_ssh_agent_pinentry(state: ResolvePinentry, event: ResolveEvent) -> (after:
    ResolvePinentry)
    ensures
        state.steps_to(event, after),
{
    match (state, event) {
        (ResolvePinentry::ProbeConfigured { pinentry }, ResolveEvent::Probed(result)) => {
            match result {
                Ok(_) => ResolvePinentry::Done(Ok(Some(pinentry))),
                Err(trouble) => {
                    let mut message = text::concat(
                        "configured ssh_agent_pinentry '",
                        pinentry.as_str(),
                    );
                    message.append("' is unusable: ");
                    let reason = trouble.full_text();
                    message.append(reason.as_str());
                    ResolvePinentry::Done(Err(message))
                },
            }
        },
        (ResolvePinentry::ProbeCandidate { candidate, errors }, ResolveEvent::Probed(result)) => {
            match result {
                Ok(_) => ResolvePinentry::Done(Ok(Some(candidate))),
                Err(trouble) => {
                    let ghost tried = errors.deep_view();
                    let mut error = text::concat(candidate.as_str(), ": ");
                    error.append(trouble.message.as_str());
                    let mut errors = errors;
                    errors.push(error);
                    assert(errors.deep_view() =~= tried.push(error@));
                    try_candidate(errors)
                },
            }
        },
        (state, _) => state,
    }
}

/// Whether `events` lead through `states` one after the other.
pub open spec fn resolve_run(states: Seq<ResolvePinentry>, events: Seq<ResolveEvent>) -> bool {
    &&& states.len() == events.len() + 1
    &&& forall|i: int|
        0 <= i < events.len() ==> states[i].steps_to(#[trigger] events[i], states[i + 1])
}

/// Where no program is configured, the candidates are probed in their order
/// until one is usable: the program that is found is the first usable
/// candidate, and the search fails only once every candidate was found unusable.
pub proof fn law_first_usable_candidate_wins(
    states: Seq<ResolvePinentry>,
    events: Seq<ResolveEvent>,
    n: int,
)
    requires
        resolve_run(states, events),
        states[0].goes_on(Seq::empty()),
        0 <= n <= events.len(),
    ensures
        match states[n] {
            ResolvePinentry::ProbeConfigured { .. } => false,
            ResolvePinentry::ProbeCandidate { candidate, errors } => {
                &&& errors@.len() == n < candidates().len()
                &&& candidate@ == candidates()[n]
                &&& forall|i: int| 0 <= i < n ==> (#[trigger] events[i])->Probed_0 is Err
            },
            ResolvePinentry::Done(Ok(found)) => exists|i: int|
                {
                    &&& 0 <= i < n
                    &&& i < candidates().len()
                    &&& (#[trigger] events[i])->Probed_0 is Ok
                    &&& found matches Some(program)
                    &&& program@ == candidates()[i]
                    &&& forall|k: int| 0 <= k < i ==> (#[trigger] events[k])->Probed_0 is Err
                },
            ResolvePinentry::Done(Err(_)) => {
                &&& candidates().len() <= n
                &&& forall|i: int|
                    0 <= i < candidates().len() ==> (#[trigger] events[i])->Probed_0 is Err
            },
        },
    decreases n,
{
    if n > 0 {
        law_first_usable_candidate_wins(states, events, n - 1);
        assert(states[n - 1].steps_to(events[n - 1], states[n]));
        match states[n - 1] {
            ResolvePinentry::ProbeCandidate { candidate, errors } => {
                assert(errors.deep_view().len() == n - 1);
                if events[n - 1]->Probed_0 is Ok {
                    let i = n - 1;
                    assert(events[i]->Probed_0 is Ok);
                } else if let ResolvePinentry::ProbeCandidate { errors: later, .. } = states[n] {
                    assert(later.deep_view().len() == later@.len());
                }
            },
            ResolvePinentry::Done(Ok(found)) => {
                let i = choose|i: int|
                    {
                        &&& 0 <= i < n - 1
                        &&& i < candidates().len()
                        &&& (#[trigger] events[i])->Probed_0 is Ok
                        &&& found matches Some(program)
                        &&& program@ == candidates()[i]
                        &&& forall|k: int| 0 <= k < i ==> (#[trigger] events[k])->Probed_0 is Err
                    };
                assert(events[i]->Probed_0 is Ok);
            },
            _ => {},
        }
    }
}

/// What is said of trouble starts with its own message, and all its causes follow in
/// their order.
pub proof fn law_causes_follow_the_message(trouble: Trouble)
    ensures
        trouble.messages().len() == trouble.causes@.len() + 1,
        trouble.messages()[0] == trouble.message@,
        forall|i: int|
            0 <= i < trouble.causes@.len() ==> #[trigger] trouble.messages()[i + 1]
                == trouble.causes@[i]@,
{
    assert forall|i: int| 0 <= i < trouble.causes@.len() implies #[trigger] trouble.messages()[i
        + 1] == trouble.causes@[i]@ by {
        assert(trouble.causes.deep_view()[i] == trouble.causes@[i].deep_view());
    }
}

/// A version is that of a graphical program exactly if it has the name of a
/// graphical toolkit or system anywhere in it.
pub proof fn law_graphical_versions(before: Seq<char>, after: Seq<char>, version: Seq<char>)
    ensures
        is_gui_version(before + "gnome"@ + after),
        is_gui_version(before + "gtk"@ + after),
        is_gui_version(before + "qt"@ + after),
        is_gui_version(before + "w32"@ + after),
        is_gui_version(before + "mac"@ + after),
        is_gui_version(before + "fltk"@ + after),
        is_gui_version(before + "efl"@ + after),
        is_gui_version(version) ==> text::occurs_in(version, "gnome"@) || text::occurs_in(
            version,
            "gtk"@,
        ) || text::occurs_in(version, "qt"@) || text::occurs_in(version, "w32"@) || text::occurs_in(
            version,
            "mac"@,
        ) || text::occurs_in(version, "fltk"@) || text::occurs_in(version, "efl"@),
{
    law_occurrence_is_found(before, "gnome"@, after);
    law_occurrence_is_found(before, "gtk"@, after);
    law_occurrence_is_found(before, "qt"@, after);
    law_occurrence_is_found(before, "w32"@, after);
    law_occurrence_is_found(before, "mac"@, after);
    law_occurrence_is_found(before, "fltk"@, after);
    law_occurrence_is_found(before, "efl"@, after);
}

/// A program that reports a graphical version, greets and leaves as it is told to is
/// found usable. It is the very program that is started after it reported.
pub proof fn law_graphical_program_is_usable(
    pinentry: String,
    output: Output,
    line: String,
    status: ExitStatus,
    s: Seq<Probe>,
)
    requires
        s.len() == 6,
        output.success,
        is_gui_version(unicode::lowercase(unicode::utf8_lossy(output.stdout@))),
        text::has_prefix(line@, "OK"@),
        status.success,
        s[0] == (Probe::CheckVersion { pinentry }),
        s[0].steps_to(ProbeEvent::VersionChecked(Timed::Ended(Ok(output))), s[1]),
        s[1].steps_to(ProbeEvent::Started(Ok(())), s[2]),
        s[2].steps_to(ProbeEvent::GreetingRead(Timed::Ended(Ok(line))), s[3]),
        s[3].steps_to(ProbeEvent::ByeSaid(Ok(())), s[4]),
        s[4].steps_to(ProbeEvent::Exited(Timed::Ended(Ok(status))), s[5]),
    ensures
        s[1] == (Probe::Start { pinentry }),
        s[2] is ReadGreeting,
        s[3] is SayBye,
        s[4] is AwaitExit,
        s[5] matches Probe::Done(Ok(_)),
{
}

/// A probe fails only where the program did not do what it has to, or not in time;
/// and the trouble says which, with its cause where there is one.
pub proof fn law_failed_probe_says_why(
    state: Probe,
    event: ProbeEvent,
    after: Probe,
    trouble: Trouble,
)
    requires
        state.steps_to(event, after),
        !(state is Done),
        after == Probe::Done(Err(trouble)),
    ensures
        match event {
            ProbeEvent::VersionChecked(outcome) => {
                &&& state matches Probe::CheckVersion { pinentry }
                &&& match outcome {
                    Timed::Elapsed(cause) => trouble.messages() == seq![
                        "pinentry version check timed out"@,
                    ] + cause.messages(),
                    Timed::Ended(Err(cause)) => trouble.messages() == seq![
                        "failed to start pinentry '"@ + pinentry@ + "'"@,
                    ] + cause.messages(),
                    Timed::Ended(Ok(output)) => if output.success {
                        &&& !is_gui_version(
                            unicode::lowercase(unicode::utf8_lossy(output.stdout@)),
                        )
                        &&& trouble.messages() == seq![
                            "pinentry did not identify itself as a GUI implementation"@,
                        ]
                    } else {
                        trouble.messages() == seq![
                            "pinentry version check failed: "@ + unicode::trimmed(
                                unicode::utf8_lossy(output.stderr@),
                            ),
                        ]
                    },
                }
            },
            ProbeEvent::Started(result) => {
                &&& state matches Probe::Start { pinentry }
                &&& result matches Err(cause)
                &&& trouble.messages() == seq!["failed to start pinentry '"@ + pinentry@ + "'"@]
                    + cause.messages()
            },
            ProbeEvent::GreetingRead(outcome) => state is ReadGreeting && match outcome {
                Timed::Elapsed(cause) => trouble.messages() == seq!["pinentry greeting timed out"@]
                    + cause.messages(),
                Timed::Ended(Err(cause)) => trouble == cause,
                Timed::Ended(Ok(line)) => {
                    &&& !text::has_prefix(line@, "OK"@)
                    &&& trouble.messages() == seq!["pinentry did not return an Assuan greeting"@]
                },
            },
            ProbeEvent::ByeSaid(result) => state is SayBye && result == Err::<(), Trouble>(trouble),
            ProbeEvent::Exited(outcome) => state is AwaitExit && match outcome {
                Timed::Elapsed(cause) => trouble.messages() == seq!["pinentry shutdown timed out"@]
                    + cause.messages(),
                Timed::Ended(Err(cause)) => trouble == cause,
                Timed::Ended(Ok(status)) => !status.success && trouble.messages() == seq![
                    "pinentry exited with "@ + status.text@,
                ],
            },
        },
{
}

/// A program that the configuration names is the only one that is tried; what is
/// wrong with it is reported with all its causes. Without one, none is looked for
/// where signatures need no confirmation.
pub proof fn law_configured_program_is_probed_alone(
    config: Config,
    trouble: Trouble,
    start: ResolvePinentry,
    usable: ResolvePinentry,
    unfit: ResolvePinentry,
)
    requires
        start.starts(config),
        start.steps_to(ResolveEvent::Probed(Ok(())), usable),
        start.steps_to(ResolveEvent::Probed(Err(trouble)), unfit),
    ensures
        config.ssh_agent_pinentry matches Some(program) ==> {
            &&& start == (ResolvePinentry::ProbeConfigured { pinentry: program })
            &&& usable == ResolvePinentry::Done(Ok(Some(program)))
            &&& unfit matches ResolvePinentry::Done(Err(message))
            &&& message@ == "configured ssh_agent_pinentry '"@ + program@ + "' is unusable: "@
                + text::joined(trouble.messages(), ": "@)
        },
        config.ssh_agent_pinentry is None && config.ssh_agent_confirmation
            == SshAgentConfirmation::Never ==> start == ResolvePinentry::Done(Ok(None)),
        config.ssh_agent_pinentry is None && config.ssh_agent_confirmation
            == SshAgentConfirmation::Always ==> (start matches ResolvePinentry::ProbeCandidate {
            candidate,
            errors,
        } && candidate@ == "pinentry-gnome3"@ && errors.deep_view().len() == 0),
{
}

/// The candidates are tried one after the other: after one that is unfit comes the
/// next, with a note on what was wrong; after the last one the search fails, names
/// all candidates and gives the notes.
pub proof fn law_candidates_are_tried_in_order(
    candidate: String,
    errors: Vec<String>,
    trouble: Trouble,
    after: ResolvePinentry,
)
    requires
        errors.deep_view().len() < 9,
        (ResolvePinentry::ProbeCandidate { candidate, errors }).steps_to(
            ResolveEvent::Probed(Err(trouble)),
            after,
        ),
    ensures
        ({
            let names = seq![
                "pinentry-gnome3"@,
                "pinentry-qt"@,
                "pinentry-qt5"@,
                "pinentry-gui"@,
                "pinentry-gtk"@,
                "pinentry-w32"@,
                "pinentry-gtk-2"@,
                "pinentry-mac"@,
                "pinentry-fltk"@,
            ];
            let notes = errors.deep_view().push(candidate@ + ": "@ + trouble.message@);
            if notes.len() < 9 {
                after matches ResolvePinentry::ProbeCandidate { candidate: next, errors: later }
                    && next@ == names[notes.len() as int] && later.deep_view() == notes
            } else {
                after matches ResolvePinentry::Done(Err(message)) && message@
                    == "ssh_agent_confirmation=always requires a usable GUI pinentry; configure ssh_agent_pinentry or install one of "@
                    + text::joined(names, ", "@) + "\n"@ + text::joined(notes, "\n"@)
            }
        }),
{
}

} // verus!
